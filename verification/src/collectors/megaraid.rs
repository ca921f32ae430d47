//! MegaRAID physical drives: from the report of the controller's command line
//! tool to samples.

use vstd::prelude::*;
use vstd::utf8::encode_utf8;
use crate::bosun::{
    add_sample, add_tag, descriptor, metadata_views, readings, with_reading, with_tag, Metadata,
    MetadataView, Rate, Reading, Sample, Tags,
};
use crate::collectors::{parse_int_failure, CommandOutput, Error, ErrorView, Id};
use crate::config::Config;
use crate::number::{decimal_of, decimal_text, decimal_u32, decimal_u8, parse_u32, parse_u8};
use crate::pattern::{capture_first, compile, first_group, Pattern};
use crate::text::{
    chars_of, ends_with, ends_with_spec, lines, lines_of, lowercase_of, opt_view, same_text,
    split_whitespace, string_of, views, words,
};

verus! {

/// The descriptors of the metrics that the collector reports.
pub open spec fn metadata_spec() -> Seq<MetadataView> {
    seq![
        descriptor("hw.storage.drivestats.mediaerrors"@, Rate::Gauge, ""@, "Number of media errors reported for the device by the RAID controller. Should ideally be 0, but need not signify a problem on its own unless it keeps growing or if multiple disks in the same array have some (http://www.theprojectbot.com/what-is-a-punctured-raid-array/)!"@),
        descriptor("hw.storage.drivestats.othererrors"@, Rate::Gauge, ""@, "Number of other errors reported for the device by the RAID controller. Should ideally be 0. Definition of this vague."@),
        descriptor("hw.storage.drivestats.predfailerrors"@, Rate::Gauge, ""@, "Number of errors that are considered critical by the RAID controller. Must be 0. Cause for immediate drive replacement."@),
        descriptor("hw.storage.drivestats.smartflag"@, Rate::Gauge, "Enum"@, "0: The drive's S.M.A.R.T. considers it ok. // 1: The drive has raised an alert. Cause for drive replacement."@),
        descriptor("hw.storage.drivestats.firmwarestate"@, Rate::Gauge, "Enum"@, "Defined by MegaCli. 0: Online // 1: Online, Spun Down // 2: Hotspare, Spun up // 3: Hotspare, Spun down // 4: Unconfigured(good) // 5: Unconfigured(good), Spun down // 6: Unconfigured(bad) // 7: Rebuild // 8: not Online // 9: Failed // 10: None"@),
        descriptor("hw.storage.drivestats.predfaileventno"@, Rate::Counter, ""@, "Sequence number of the most recent recorded predictive failure event. It is unclear if this resets to 0 for new drives."@),
    ]
}

/// The descriptors of the metrics that the collector reports, always the same.
pub fn metadata() -> (r: Vec<Metadata>)
    ensures
        metadata_views(r@) == metadata_spec(),
{
    let list: Vec<Metadata> = vec![
        Metadata::new("hw.storage.drivestats.mediaerrors", Rate::Gauge, "", "Number of media errors reported for the device by the RAID controller. Should ideally be 0, but need not signify a problem on its own unless it keeps growing or if multiple disks in the same array have some (http://www.theprojectbot.com/what-is-a-punctured-raid-array/)!"),
        Metadata::new("hw.storage.drivestats.othererrors", Rate::Gauge, "", "Number of other errors reported for the device by the RAID controller. Should ideally be 0. Definition of this vague."),
        Metadata::new("hw.storage.drivestats.predfailerrors", Rate::Gauge, "", "Number of errors that are considered critical by the RAID controller. Must be 0. Cause for immediate drive replacement."),
        Metadata::new("hw.storage.drivestats.smartflag", Rate::Gauge, "Enum", "0: The drive's S.M.A.R.T. considers it ok. // 1: The drive has raised an alert. Cause for drive replacement."),
        Metadata::new("hw.storage.drivestats.firmwarestate", Rate::Gauge, "Enum", "Defined by MegaCli. 0: Online // 1: Online, Spun Down // 2: Hotspare, Spun up // 3: Hotspare, Spun down // 4: Unconfigured(good) // 5: Unconfigured(good), Spun down // 6: Unconfigured(bad) // 7: Rebuild // 8: not Online // 9: Failed // 10: None"),
        Metadata::new("hw.storage.drivestats.predfaileventno", Rate::Counter, "", "Sequence number of the most recent recorded predictive failure event. It is unclear if this resets to 0 for new drives."),
    ];
    assert(metadata_views(list@) =~= metadata_spec());
    list
}

/// Who made a drive, its model and its serial number.
#[derive(Debug)]
pub struct InquiryData {
    pub manufacturer: String,
    pub model: String,
    pub serial: String,
}

/// Inquiry data over sequences of characters.
pub struct InquiryView {
    pub manufacturer: Seq<char>,
    pub model: Seq<char>,
    pub serial: Seq<char>,
}

impl View for InquiryData {
    type V = InquiryView;

    open spec fn view(&self) -> InquiryView {
        InquiryView { manufacturer: self.manufacturer@, model: self.model@, serial: self.serial@ }
    }
}

/// What the controller reports of one physical drive.
#[derive(Debug)]
pub struct PdInfo {
    pub enclosure_id: Option<u8>,
    pub slot_number: Option<u8>,
    pub media_errors: Option<u32>,
    pub other_errors: Option<u32>,
    pub predictive_failure_errors: Option<u32>,
    pub last_predictive_failure_event_seqno: Option<u32>,
    pub smart_flag: Option<bool>,
    pub manufacturer: Option<String>,
    pub model: Option<String>,
    pub serial_number: Option<String>,
    pub firmware_state: Option<u8>,
}

/// The report of one physical drive over sequences of characters.
pub struct PdInfoView {
    pub enclosure_id: Option<u8>,
    pub slot_number: Option<u8>,
    pub media_errors: Option<u32>,
    pub other_errors: Option<u32>,
    pub predictive_failure_errors: Option<u32>,
    pub last_predictive_failure_event_seqno: Option<u32>,
    pub smart_flag: Option<bool>,
    pub manufacturer: Option<Seq<char>>,
    pub model: Option<Seq<char>>,
    pub serial_number: Option<Seq<char>>,
    pub firmware_state: Option<u8>,
}

impl View for PdInfo {
    type V = PdInfoView;

    open spec fn view(&self) -> PdInfoView {
        PdInfoView {
            enclosure_id: self.enclosure_id,
            slot_number: self.slot_number,
            media_errors: self.media_errors,
            other_errors: self.other_errors,
            predictive_failure_errors: self.predictive_failure_errors,
            last_predictive_failure_event_seqno: self.last_predictive_failure_event_seqno,
            smart_flag: self.smart_flag,
            manufacturer: opt_view(self.manufacturer),
            model: opt_view(self.model),
            serial_number: opt_view(self.serial_number),
            firmware_state: self.firmware_state,
        }
    }
}

/// The report of a drive of which nothing is known yet.
pub open spec fn blank() -> PdInfoView {
    PdInfoView {
        enclosure_id: None,
        slot_number: None,
        media_errors: None,
        other_errors: None,
        predictive_failure_errors: None,
        last_predictive_failure_event_seqno: None,
        smart_flag: None,
        manufacturer: None,
        model: None,
        serial_number: None,
        firmware_state: None,
    }
}

/// Gathers what is reported of one physical drive.
#[derive(Debug)]
pub struct PdInfoBuilder {
    enclosure_id: Option<u8>,
    slot_number: Option<u8>,
    media_errors: Option<u32>,
    other_errors: Option<u32>,
    predictive_failure_errors: Option<u32>,
    last_predictive_failure_event_seqno: Option<u32>,
    smart_flag: Option<bool>,
    manufacturer: Option<String>,
    model: Option<String>,
    serial_number: Option<String>,
    firmware_state: Option<u8>,
}

impl View for PdInfoBuilder {
    type V = PdInfoView;

    closed spec fn view(&self) -> PdInfoView {
        PdInfoView {
            enclosure_id: self.enclosure_id,
            slot_number: self.slot_number,
            media_errors: self.media_errors,
            other_errors: self.other_errors,
            predictive_failure_errors: self.predictive_failure_errors,
            last_predictive_failure_event_seqno: self.last_predictive_failure_event_seqno,
            smart_flag: self.smart_flag,
            manufacturer: opt_view(self.manufacturer),
            model: opt_view(self.model),
            serial_number: opt_view(self.serial_number),
            firmware_state: self.firmware_state,
        }
    }
}

impl PdInfoBuilder {
    pub fn enclosure_id(self, enclosure_id: u8) -> (r: Self)
        ensures
            r@ == (PdInfoView { enclosure_id: Some(enclosure_id), ..self@ }),
    {
        let mut b = self;
        b.enclosure_id = Some(enclosure_id);
        b
    }

    pub fn slot_number(self, slot_number: u8) -> (r: Self)
        ensures
            r@ == (PdInfoView { slot_number: Some(slot_number), ..self@ }),
    {
        let mut b = self;
        b.slot_number = Some(slot_number);
        b
    }

    pub fn media_errors(self, media_errors: u32) -> (r: Self)
        ensures
            r@ == (PdInfoView { media_errors: Some(media_errors), ..self@ }),
    {
        let mut b = self;
        b.media_errors = Some(media_errors);
        b
    }

    pub fn other_errors(self, other_errors: u32) -> (r: Self)
        ensures
            r@ == (PdInfoView { other_errors: Some(other_errors), ..self@ }),
    {
        let mut b = self;
        b.other_errors = Some(other_errors);
        b
    }

    pub fn predictive_failure_errors(self, predictive_failure_errors: u32) -> (r: Self)
        ensures
            r@ == (PdInfoView {
                predictive_failure_errors: Some(predictive_failure_errors),
                ..self@
            }),
    {
        let mut b = self;
        b.predictive_failure_errors = Some(predictive_failure_errors);
        b
    }

    pub fn last_predictive_failure_event_seqno(
        self,
        last_predictive_failure_event_seqno: u32,
    ) -> (r: Self)
        ensures
            r@ == (PdInfoView {
                last_predictive_failure_event_seqno: Some(last_predictive_failure_event_seqno),
                ..self@
            }),
    {
        let mut b = self;
        b.last_predictive_failure_event_seqno = Some(last_predictive_failure_event_seqno);
        b
    }

    pub fn smart_flag(self, smart_flag: bool) -> (r: Self)
        ensures
            r@ == (PdInfoView { smart_flag: Some(smart_flag), ..self@ }),
    {
        let mut b = self;
        b.smart_flag = Some(smart_flag);
        b
    }

    pub fn manufacturer(self, manufacturer: String) -> (r: Self)
        ensures
            r@ == (PdInfoView { manufacturer: Some(manufacturer@), ..self@ }),
    {
        let mut b = self;
        b.manufacturer = Some(manufacturer);
        b
    }

    pub fn model(self, model: String) -> (r: Self)
        ensures
            r@ == (PdInfoView { model: Some(model@), ..self@ }),
    {
        let mut b = self;
        b.model = Some(model);
        b
    }

    pub fn serial_number(self, serial_number: String) -> (r: Self)
        ensures
            r@ == (PdInfoView { serial_number: Some(serial_number@), ..self@ }),
    {
        let mut b = self;
        b.serial_number = Some(serial_number);
        b
    }

    pub fn firmware_state(self, firmware_state: u8) -> (r: Self)
        ensures
            r@ == (PdInfoView { firmware_state: Some(firmware_state), ..self@ }),
    {
        let mut b = self;
        b.firmware_state = Some(firmware_state);
        b
    }

    /// The report with what has been gathered.
    pub fn build(self) -> (r: PdInfo)
        ensures
            r@ == self@,
    {
        PdInfo {
            enclosure_id: self.enclosure_id,
            slot_number: self.slot_number,
            media_errors: self.media_errors,
            other_errors: self.other_errors,
            predictive_failure_errors: self.predictive_failure_errors,
            last_predictive_failure_event_seqno: self.last_predictive_failure_event_seqno,
            smart_flag: self.smart_flag,
            manufacturer: self.manufacturer,
            model: self.model,
            serial_number: self.serial_number,
            firmware_state: self.firmware_state,
        }
    }

    /// A builder that knows nothing yet.
    pub fn new() -> (r: Self)
        ensures
            r@ == blank(),
    {
        PdInfoBuilder {
            enclosure_id: None,
            slot_number: None,
            media_errors: None,
            other_errors: None,
            predictive_failure_errors: None,
            last_predictive_failure_event_seqno: None,
            smart_flag: None,
            manufacturer: None,
            model: None,
            serial_number: None,
            firmware_state: None,
        }
    }
}

/// The serial number in the first word of the inquiry data of an Intel
/// drive, where the maker's name follows it without a blank: the first
/// characters of the word, as many as the word has bytes beyond the five of
/// the name.
pub open spec fn intel_serial(word: Seq<char>) -> Seq<char> {
    let bytes = encode_utf8(word).len() as usize;
    let keep = if bytes >= 5 {
        bytes - 5
    } else {
        0
    };
    if keep < word.len() {
        word.take(keep)
    } else {
        word
    }
}

/// What the inquiry data of a drive says: three words, the maker, the model
/// and the serial number; for Intel drives the first word is the serial
/// number with `INTEL` behind it. Anything else says nothing.
pub open spec fn inquiry_spec(raw: Seq<char>) -> Option<InquiryView> {
    let parts = words(raw);
    if parts.len() != 3 {
        None
    } else if ends_with_spec(parts[0], "INTEL"@) {
        Some(
            InquiryView {
                manufacturer: "INTEL"@,
                model: parts[1],
                serial: intel_serial(parts[0]),
            },
        )
    } else {
        Some(InquiryView { manufacturer: parts[0], model: parts[1], serial: parts[2] })
    }
}

/// Reads the inquiry data of a drive.
pub fn parse_inquiry_data(raw_inquiry_data: &str) -> (r: Option<InquiryData>)
    ensures
        match r {
            Some(d) => inquiry_spec(raw_inquiry_data@) == Some(d@),
            None => inquiry_spec(raw_inquiry_data@) is None,
        },
{
    let parts = split_whitespace(raw_inquiry_data);
    if parts.len() != 3 {
        return None;
    }
    assert(views(parts@)[0] == parts@[0]@);
    assert(views(parts@)[1] == parts@[1]@);
    assert(views(parts@)[2] == parts@[2]@);
    if ends_with(parts[0].as_str(), "INTEL") {
        let word = chars_of(parts[0].as_str());
        let bytes = parts[0].as_str().len();
        let keep: usize = if bytes >= 5 {
            bytes - 5
        } else {
            0
        };
        let end: usize = if keep < word.len() {
            keep
        } else {
            word.len()
        };
        let serial = string_of(&word, 0, end);
        assert(serial@ =~= intel_serial(parts@[0]@));
        Some(
            InquiryData {
                manufacturer: String::from_str("INTEL"),
                model: parts[1].clone(),
                serial: serial,
            },
        )
    } else {
        Some(
            InquiryData {
                manufacturer: parts[0].clone(),
                model: parts[1].clone(),
                serial: parts[2].clone(),
            },
        )
    }
}

/// The number that stands for a firmware state:
/// 0 online, 1 online and spun down, 2 hot spare spun up, 3 hot spare spun
/// down, 4 unconfigured and good, 5 the same spun down, 6 unconfigured and
/// bad, 7 rebuild, 8 not online, 9 failed, 10 none.
pub open spec fn firmware_state_spec(raw: Seq<char>) -> Option<u8> {
    if raw == "Online"@ {
        Some(0u8)
    } else if raw == "Online, Spun Up"@ {
        Some(0u8)
    } else if raw == "Online, Spun Down"@ {
        Some(1u8)
    } else if raw == "Hotspare, Spun up"@ {
        Some(2u8)
    } else if raw == "Hotspare, Spun down"@ {
        Some(3u8)
    } else if raw == "Unconfigured(good)"@ {
        Some(4u8)
    } else if raw == "Unconfigured(good), Spun down"@ {
        Some(5u8)
    } else if raw == "Unconfigured(bad)"@ {
        Some(6u8)
    } else if raw == "Rebuild"@ {
        Some(7u8)
    } else if raw == "not Online"@ {
        Some(8u8)
    } else if raw == "Failed"@ {
        Some(9u8)
    } else if raw == "None"@ {
        Some(10u8)
    } else {
        None
    }
}

/// Reads a firmware state as the controller writes it; a state that it does
/// not know gives nothing.
pub fn parse_firmware_state(raw_firmware_state: &str) -> (r: Option<u8>)
    ensures
        r == firmware_state_spec(raw_firmware_state@),
{
    if same_text(raw_firmware_state, "Online") {
        Some(0)
    } else if same_text(raw_firmware_state, "Online, Spun Up") {
        Some(0)
    } else if same_text(raw_firmware_state, "Online, Spun Down") {
        Some(1)
    } else if same_text(raw_firmware_state, "Hotspare, Spun up") {
        Some(2)
    } else if same_text(raw_firmware_state, "Hotspare, Spun down") {
        Some(3)
    } else if same_text(raw_firmware_state, "Unconfigured(good)") {
        Some(4)
    } else if same_text(raw_firmware_state, "Unconfigured(good), Spun down") {
        Some(5)
    } else if same_text(raw_firmware_state, "Unconfigured(bad)") {
        Some(6)
    } else if same_text(raw_firmware_state, "Rebuild") {
        Some(7)
    } else if same_text(raw_firmware_state, "not Online") {
        Some(8)
    } else if same_text(raw_firmware_state, "Failed") {
        Some(9)
    } else if same_text(raw_firmware_state, "None") {
        Some(10)
    } else {
        None
    }
}

/// The lines of the report that are read.
#[derive(Clone, Copy, Debug, PartialEq, Eq, Structural)]
pub enum Field {
    EnclosureId,
    SlotNumber,
    MediaErrors,
    OtherErrors,
    PredictiveFailures,
    LastPredictiveFailureEvent,
    SmartAlert,
    FirmwareState,
    InquiryData,
}

impl Field {
    /// The regular expression that tells the field's line and captures its
    /// value.
    pub open spec fn pattern_spec(self) -> Seq<char> {
        match self {
            Field::EnclosureId => r"^Enclosure Device ID: (\d+)"@,
            Field::SlotNumber => r"^Slot Number: (\d+)"@,
            Field::MediaErrors => r"^Media Error Count: (\d+)"@,
            Field::OtherErrors => r"^Other Error Count: (\d+)"@,
            Field::PredictiveFailures => r"^Predictive Failure Count: (\d+)"@,
            Field::LastPredictiveFailureEvent => r"^Last Predictive Failure Event Seq Number: (\d+)"@,
            Field::SmartAlert => r"^Drive has flagged a S.M.A.R.T alert : (\w+)"@,
            Field::FirmwareState => r"^Firmware state: (.+)"@,
            Field::InquiryData => r"^Inquiry Data: (.+)"@,
        }
    }

    /// The regular expression that tells the field's line and captures its
    /// value.
    pub fn pattern(&self) -> (r: &'static str)
        ensures
            r@ == self.pattern_spec(),
    {
        match self {
            Field::EnclosureId => r"^Enclosure Device ID: (\d+)",
            Field::SlotNumber => r"^Slot Number: (\d+)",
            Field::MediaErrors => r"^Media Error Count: (\d+)",
            Field::OtherErrors => r"^Other Error Count: (\d+)",
            Field::PredictiveFailures => r"^Predictive Failure Count: (\d+)",
            Field::LastPredictiveFailureEvent => r"^Last Predictive Failure Event Seq Number: (\d+)",
            Field::SmartAlert => r"^Drive has flagged a S.M.A.R.T alert : (\w+)",
            Field::FirmwareState => r"^Firmware state: (.+)",
            Field::InquiryData => r"^Inquiry Data: (.+)",
        }
    }
}

/// The fields in the order in which a line is held against them.
pub open spec fn field_order() -> Seq<Field> {
    seq![
        Field::EnclosureId,
        Field::SlotNumber,
        Field::MediaErrors,
        Field::OtherErrors,
        Field::PredictiveFailures,
        Field::LastPredictiveFailureEvent,
        Field::SmartAlert,
        Field::FirmwareState,
        Field::InquiryData,
    ]
}

fn fields() -> (r: Vec<Field>)
    ensures
        r@ == field_order(),
{
    let list: Vec<Field> = vec![
        Field::EnclosureId,
        Field::SlotNumber,
        Field::MediaErrors,
        Field::OtherErrors,
        Field::PredictiveFailures,
        Field::LastPredictiveFailureEvent,
        Field::SmartAlert,
        Field::FirmwareState,
        Field::InquiryData,
    ];
    assert(list@ =~= field_order());
    list
}

/// The first of the fields from the `k`-th on whose pattern matches `line`,
/// with what its group captures.
pub open spec fn line_field_from(line: Seq<char>, k: int) -> Option<(Field, Option<Seq<char>>)>
    decreases field_order().len() - k,
{
    if k < 0 || k >= field_order().len() {
        None
    } else {
        match first_group(field_order()[k].pattern_spec(), line) {
            Some(capture) => Some((field_order()[k], capture)),
            None => line_field_from(line, k + 1),
        }
    }
}

/// The field that `line` reports, with the text of its value; none where no
/// pattern matches.
pub open spec fn line_field(line: Seq<char>) -> Option<(Field, Option<Seq<char>>)> {
    line_field_from(line, 0)
}

/// A field with the text of its value, over sequences of characters.
pub open spec fn capture_view(m: Option<(Field, Option<String>)>) -> Option<
    (Field, Option<Seq<char>>),
> {
    match m {
        Some((field, capture)) => Some((field, opt_view(capture))),
        None => None,
    }
}

/// The compiled patterns of the fields, in the order of the fields.
#[derive(Debug)]
pub struct Patterns {
    list: Vec<Pattern>,
}

impl Patterns {
    #[verifier::type_invariant]
    spec fn fit(self) -> bool {
        &&& self.list@.len() == field_order().len()
        &&& forall|k: int|
            0 <= k < self.list@.len() ==> (#[trigger] self.list@[k]).source()
                == field_order()[k].pattern_spec()
    }

    /// Compiles the patterns of the fields. An error is the message of the
    /// regular expression compiler for the first pattern that it refuses.
    pub fn compile() -> (r: Result<Patterns, String>) {
        let order = fields();
        let mut list: Vec<Pattern> = Vec::new();
        let mut k: usize = 0;
        while k < order.len()
            invariant
                k <= order.len(),
                order@ == field_order(),
                list@.len() == k,
                forall|j: int|
                    0 <= j < k ==> (#[trigger] list@[j]).source()
                        == field_order()[j].pattern_spec(),
            decreases order.len() - k,
        {
            match compile(order[k].pattern()) {
                Err(message) => {
                    return Err(message);
                },
                Ok(pattern) => {
                    list.push(pattern);
                },
            }
            k += 1;
        }
        Ok(Patterns { list: list })
    }
}

/// Tells which field `line` reports, and the text of its value: the first
/// field whose pattern matches the line; none where no pattern matches.
pub fn match_line(patterns: &Patterns, line: &str) -> (r: Option<(Field, Option<String>)>)
    ensures
        capture_view(r) == line_field(line@),
{
    proof {
        use_type_invariant(patterns);
    }
    let order = fields();
    let mut k: usize = 0;
    while k < order.len()
        invariant
            k <= order.len(),
            order@ == field_order(),
            patterns.list@.len() == field_order().len(),
            forall|j: int|
                0 <= j < patterns.list@.len() ==> (#[trigger] patterns.list@[j]).source()
                    == field_order()[j].pattern_spec(),
            line_field(line@) == line_field_from(line@, k as int),
        decreases order.len() - k,
    {
        let field = order[k];
        match capture_first(&patterns.list[k], line) {
            Some(capture) => {
                return Some((field, capture));
            },
            None => {},
        }
        k += 1;
    }
    None
}

/// Whether a drive has raised a S.M.A.R.T. alert, from the controller's
/// answer in lower case.
pub fn smart_alert(lowered: &str) -> (r: bool)
    ensures
        r == (lowered@ == "yes"@),
{
    same_text(lowered, "yes")
}

/// The drives read so far, and the drive that is being read.
#[derive(Debug)]
pub struct PdParser {
    pub done: Vec<PdInfo>,
    pub current: Option<PdInfoBuilder>,
}

/// The state of the reading over sequences.
pub struct PdParserView {
    pub done: Seq<PdInfoView>,
    pub current: Option<PdInfoView>,
}

/// The views of a sequence of drive reports, element by element.
pub open spec fn pdinfo_views(v: Seq<PdInfo>) -> Seq<PdInfoView> {
    Seq::new(v.len(), |i: int| v[i]@)
}

impl View for PdParser {
    type V = PdParserView;

    open spec fn view(&self) -> PdParserView {
        PdParserView {
            done: pdinfo_views(self.done@),
            current: match self.current {
                Some(b) => Some(b@),
                None => None,
            },
        }
    }
}

/// The state before the first line.
pub open spec fn start() -> PdParserView {
    PdParserView { done: Seq::<PdInfoView>::empty(), current: None }
}

/// The state with `change` applied to the drive that is being read, if there
/// is one.
pub open spec fn with_current(
    state: PdParserView,
    change: spec_fn(PdInfoView) -> PdInfoView,
) -> PdParserView {
    match state.current {
        Some(b) => PdParserView { done: state.done, current: Some(change(b)) },
        None => state,
    }
}

/// The state after a line that reports `field` with the value `capture`.
///
/// The line with the enclosure's id starts a new drive, and the drive read
/// before it is done. Counts and ids are decimal numbers; one that is no such
/// number ends the reading with an error, also before the first drive. A line
/// before the first drive changes nothing else.
pub open spec fn apply(state: PdParserView, field: Field, capture: Option<Seq<char>>) -> Result<
    PdParserView,
    ErrorView,
> {
    match capture {
        None => match field {
            Field::EnclosureId => Ok(begin_drive(state, blank())),
            _ => Ok(state),
        },
        Some(text) => match field {
            Field::EnclosureId => match decimal_u8(text) {
                Ok(x) => Ok(
                    begin_drive(state, PdInfoView { enclosure_id: Some(x as u8), ..blank() }),
                ),
                Err(e) => Err(parse_int_failure(e)),
            },
            Field::SlotNumber => match decimal_u8(text) {
                Ok(x) => Ok(
                    with_current(
                        state,
                        |b: PdInfoView| PdInfoView { slot_number: Some(x as u8), ..b },
                    ),
                ),
                Err(e) => Err(parse_int_failure(e)),
            },
            Field::MediaErrors => match decimal_u32(text) {
                Ok(x) => Ok(
                    with_current(
                        state,
                        |b: PdInfoView| PdInfoView { media_errors: Some(x as u32), ..b },
                    ),
                ),
                Err(e) => Err(parse_int_failure(e)),
            },
            Field::OtherErrors => match decimal_u32(text) {
                Ok(x) => Ok(
                    with_current(
                        state,
                        |b: PdInfoView| PdInfoView { other_errors: Some(x as u32), ..b },
                    ),
                ),
                Err(e) => Err(parse_int_failure(e)),
            },
            Field::PredictiveFailures => match decimal_u32(text) {
                Ok(x) => Ok(
                    with_current(
                        state,
                        |b: PdInfoView|
                            PdInfoView { predictive_failure_errors: Some(x as u32), ..b },
                    ),
                ),
                Err(e) => Err(parse_int_failure(e)),
            },
            Field::LastPredictiveFailureEvent => match decimal_u32(text) {
                Ok(x) => Ok(
                    with_current(
                        state,
                        |b: PdInfoView|
                            PdInfoView {
                                last_predictive_failure_event_seqno: Some(x as u32),
                                ..b
                            },
                    ),
                ),
                Err(e) => Err(parse_int_failure(e)),
            },
            Field::SmartAlert => Ok(
                with_current(
                    state,
                    |b: PdInfoView|
                        PdInfoView { smart_flag: Some(lowercase_of(text) == "yes"@), ..b },
                ),
            ),
            Field::FirmwareState => match firmware_state_spec(text) {
                Some(x) => Ok(
                    with_current(state, |b: PdInfoView| PdInfoView { firmware_state: Some(x), ..b }),
                ),
                None => Ok(state),
            },
            Field::InquiryData => match inquiry_spec(text) {
                Some(d) => Ok(
                    with_current(
                        state,
                        |b: PdInfoView|
                            PdInfoView {
                                manufacturer: Some(d.manufacturer),
                                model: Some(d.model),
                                serial_number: Some(d.serial),
                                ..b
                            },
                    ),
                ),
                None => Ok(state),
            },
        },
    }
}

/// The state in which the drive that was being read is done and `next` is
/// being read.
pub open spec fn begin_drive(state: PdParserView, next: PdInfoView) -> PdParserView {
    PdParserView {
        done: match state.current {
            Some(b) => state.done.push(b),
            None => state.done,
        },
        current: Some(next),
    }
}

/// The drives of a state when the report has ended.
pub open spec fn finish(state: PdParserView) -> Seq<PdInfoView> {
    match state.current {
        Some(b) => state.done.push(b),
        None => state.done,
    }
}

impl PdParser {
    /// The state before the first line.
    pub fn new() -> (r: PdParser)
        ensures
            r@ == start(),
    {
        let p = PdParser { done: Vec::new(), current: None };
        assert(p@.done =~= start().done);
        p
    }

    /// Takes in a line that reports `field` with the value `capture`.
    pub fn step(self, field: Field, capture: Option<String>) -> (r: Result<PdParser, Error>)
        ensures
            match r {
                Ok(p) => apply(self@, field, opt_view(capture)) == Ok::<PdParserView, ErrorView>(
                    p@,
                ),
                Err(e) => apply(self@, field, opt_view(capture)) == Err::<
                    PdParserView,
                    ErrorView,
                >(e@),
            },
    {
        let PdParser { done, current } = self;
        let mut done = done;
        match field {
            Field::EnclosureId => {
                let mut next = PdInfoBuilder::new();
                match capture {
                    Some(text) => match parse_u8(text.as_str()) {
                        Ok(x) => {
                            next = next.enclosure_id(x);
                        },
                        Err(e) => {
                            return Err(Error::from_parse_int(e));
                        },
                    },
                    None => {},
                }
                match current {
                    Some(b) => {
                        let info = b.build();
                        proof {
                            assert(pdinfo_views(done@.push(info)) =~= pdinfo_views(done@).push(
                                info@,
                            ));
                        }
                        done.push(info);
                    },
                    None => {},
                }
                Ok(PdParser { done: done, current: Some(next) })
            },
            Field::SlotNumber => match capture {
                Some(text) => match parse_u8(text.as_str()) {
                    Ok(x) => Ok(
                        PdParser {
                            done: done,
                            current: match current {
                                Some(b) => Some(b.slot_number(x)),
                                None => None,
                            },
                        },
                    ),
                    Err(e) => Err(Error::from_parse_int(e)),
                },
                None => Ok(PdParser { done: done, current: current }),
            },
            Field::MediaErrors => match capture {
                Some(text) => match parse_u32(text.as_str()) {
                    Ok(x) => Ok(
                        PdParser {
                            done: done,
                            current: match current {
                                Some(b) => Some(b.media_errors(x)),
                                None => None,
                            },
                        },
                    ),
                    Err(e) => Err(Error::from_parse_int(e)),
                },
                None => Ok(PdParser { done: done, current: current }),
            },
            Field::OtherErrors => match capture {
                Some(text) => match parse_u32(text.as_str()) {
                    Ok(x) => Ok(
                        PdParser {
                            done: done,
                            current: match current {
                                Some(b) => Some(b.other_errors(x)),
                                None => None,
                            },
                        },
                    ),
                    Err(e) => Err(Error::from_parse_int(e)),
                },
                None => Ok(PdParser { done: done, current: current }),
            },
            Field::PredictiveFailures => match capture {
                Some(text) => match parse_u32(text.as_str()) {
                    Ok(x) => Ok(
                        PdParser {
                            done: done,
                            current: match current {
                                Some(b) => Some(b.predictive_failure_errors(x)),
                                None => None,
                            },
                        },
                    ),
                    Err(e) => Err(Error::from_parse_int(e)),
                },
                None => Ok(PdParser { done: done, current: current }),
            },
            Field::LastPredictiveFailureEvent => match capture {
                Some(text) => match parse_u32(text.as_str()) {
                    Ok(x) => Ok(
                        PdParser {
                            done: done,
                            current: match current {
                                Some(b) => Some(b.last_predictive_failure_event_seqno(x)),
                                None => None,
                            },
                        },
                    ),
                    Err(e) => Err(Error::from_parse_int(e)),
                },
                None => Ok(PdParser { done: done, current: current }),
            },
            Field::SmartAlert => match capture {
                Some(text) => {
                    let lowered = text.as_str().to_lowercase();
                    let flag = smart_alert(lowered.as_str());
                    Ok(
                        PdParser {
                            done: done,
                            current: match current {
                                Some(b) => Some(b.smart_flag(flag)),
                                None => None,
                            },
                        },
                    )
                },
                None => Ok(PdParser { done: done, current: current }),
            },
            Field::FirmwareState => match capture {
                Some(text) => match parse_firmware_state(text.as_str()) {
                    Some(x) => Ok(
                        PdParser {
                            done: done,
                            current: match current {
                                Some(b) => Some(b.firmware_state(x)),
                                None => None,
                            },
                        },
                    ),
                    None => Ok(PdParser { done: done, current: current }),
                },
                None => Ok(PdParser { done: done, current: current }),
            },
            Field::InquiryData => match capture {
                Some(text) => match parse_inquiry_data(text.as_str()) {
                    Some(d) => Ok(
                        PdParser {
                            done: done,
                            current: match current {
                                Some(b) => Some(
                                    b.manufacturer(d.manufacturer).model(d.model).serial_number(
                                        d.serial,
                                    ),
                                ),
                                None => None,
                            },
                        },
                    ),
                    None => Ok(PdParser { done: done, current: current }),
                },
                None => Ok(PdParser { done: done, current: current }),
            },
        }
    }

    /// The drives read, the one that was being read last.
    pub fn finish(self) -> (r: Vec<PdInfo>)
        ensures
            pdinfo_views(r@) == finish(self@),
    {
        let PdParser { done, current } = self;
        let mut done = done;
        match current {
            Some(b) => {
                let info = b.build();
                proof {
                    assert(pdinfo_views(done@.push(info)) =~= pdinfo_views(done@).push(info@));
                }
                done.push(info);
            },
            None => {},
        }
        done
    }
}

/// What a line says, if it says anything: the field that it reports and the
/// text of the field's value, if the line holds one.
pub type LineMatch = Option<(Field, Option<String>)>;

/// The views of what a sequence of lines says, element by element.
pub open spec fn match_views(matches: Seq<LineMatch>) -> Seq<Option<(Field, Option<Seq<char>>)>> {
    Seq::new(matches.len(), |i: int| capture_view(matches[i]))
}

/// The state after the lines from the `i`-th on, of each of which it is given
/// what it says, starting from `state`; an error where a line ends the
/// reading.
pub open spec fn fold_matches(
    matches: Seq<Option<(Field, Option<Seq<char>>)>>,
    i: int,
    state: PdParserView,
) -> Result<PdParserView, ErrorView>
    decreases matches.len() - i,
{
    if i < 0 || i >= matches.len() {
        Ok(state)
    } else {
        match matches[i] {
            None => fold_matches(matches, i + 1, state),
            Some((field, capture)) => match apply(state, field, capture) {
                Ok(next) => fold_matches(matches, i + 1, next),
                Err(e) => Err(e),
            },
        }
    }
}

/// The drives that a report describes, given what each of its lines says: a
/// drive for every line with an enclosure's id, with what the lines up to the
/// next such line say of it; or the error of the first line with a number that
/// is none.
pub open spec fn drives_of(matches: Seq<Option<(Field, Option<Seq<char>>)>>) -> Result<
    Seq<PdInfoView>,
    ErrorView,
> {
    match fold_matches(matches, 0, start()) {
        Ok(state) => Ok(finish(state)),
        Err(e) => Err(e),
    }
}

/// What each of the lines says.
pub open spec fn line_fields(lines: Seq<Seq<char>>) -> Seq<Option<(Field, Option<Seq<char>>)>> {
    Seq::new(lines.len(), |i: int| line_field(lines[i]))
}

/// The error for a report without a line.
pub open spec fn empty_report() -> ErrorView {
    ErrorView::CollectionError("Failed to parse MegaCli output"@)
}

/// The drives that a report describes, or the error that ends its reading.
pub open spec fn ldpdinfo_spec(stdout: Seq<char>) -> Result<Seq<PdInfoView>, ErrorView> {
    let lines = lines_of(stdout);
    if lines.len() == 0 {
        Err(empty_report())
    } else {
        drives_of(line_fields(lines))
    }
}

/// Gathers the drives of a report from what each of its lines says, in the
/// order of the lines.
pub fn read_matches(matches: Vec<LineMatch>) -> (r: Result<Vec<PdInfo>, Error>)
    ensures
        match r {
            Ok(v) => drives_of(match_views(matches@)) == Ok::<Seq<PdInfoView>, ErrorView>(
                pdinfo_views(v@),
            ),
            Err(e) => drives_of(match_views(matches@)) == Err::<Seq<PdInfoView>, ErrorView>(e@),
        },
{
    let ghost all = match_views(matches@);
    let mut parser = PdParser::new();
    for m in it: matches
        invariant
            it.seq() == matches@,
            all == match_views(matches@),
            fold_matches(all, 0, start()) == fold_matches(all, it.index() as int, parser@),
    {
        assert(all[it.index() as int] == capture_view(m));
        match m {
            None => {},
            Some((field, capture)) => match parser.step(field, capture) {
                Ok(next) => {
                    parser = next;
                },
                Err(e) => {
                    return Err(e);
                },
            },
        }
    }
    Ok(parser.finish())
}

fn read_lines(patterns: &Patterns, all: &Vec<String>) -> (r: Result<Vec<PdInfo>, Error>)
    ensures
        match r {
            Ok(v) => drives_of(line_fields(views(all@))) == Ok::<Seq<PdInfoView>, ErrorView>(
                pdinfo_views(v@),
            ),
            Err(e) => drives_of(line_fields(views(all@))) == Err::<Seq<PdInfoView>, ErrorView>(
                e@,
            ),
        },
{
    let mut matches: Vec<LineMatch> = Vec::new();
    let mut i: usize = 0;
    while i < all.len()
        invariant
            i <= all.len(),
            matches.len() == i,
            forall|k: int|
                0 <= k < i ==> capture_view(#[trigger] matches[k]) == line_field(all[k]@),
        decreases all.len() - i,
    {
        matches.push(match_line(patterns, all[i].as_str()));
        i += 1;
    }
    assert(match_views(matches@) =~= line_fields(views(all@)));
    read_matches(matches)
}

/// Reads the controller's report on its physical drives, line by line, with
/// the compiled patterns of the fields.
///
/// A report without a line is an error, and so is a count or an id that is no
/// number.
pub fn parse_ldpdinfo(patterns: &Patterns, stdout: &str) -> (r: Result<Vec<PdInfo>, Error>)
    ensures
        match r {
            Ok(v) => ldpdinfo_spec(stdout@) == Ok::<Seq<PdInfoView>, ErrorView>(
                pdinfo_views(v@),
            ),
            Err(e) => ldpdinfo_spec(stdout@) == Err::<Seq<PdInfoView>, ErrorView>(e@),
        },
{
    let all = lines(stdout);
    assert(views(all@).len() == all.len());
    if all.len() == 0 {
        return Err(Error::CollectionError(String::from_str("Failed to parse MegaCli output")));
    }
    read_lines(patterns, &all)
}

/// The decimal notation of a small number, where there is one.
pub open spec fn small_decimal(x: Option<u8>) -> Option<Seq<char>> {
    match x {
        Some(v) => Some(decimal_of(v as int)),
        None => None,
    }
}

/// The tags that tell a drive: its slot, its enclosure, its serial number,
/// its model and its maker, each as far as it is known.
pub open spec fn drive_tags(p: PdInfoView) -> Map<Seq<char>, Seq<char>> {
    let t = Map::<Seq<char>, Seq<char>>::empty();
    let t = with_tag(t, "slot_number"@, small_decimal(p.slot_number));
    let t = with_tag(t, "enclosure_id"@, small_decimal(p.enclosure_id));
    let t = with_tag(t, "serial_number"@, p.serial_number);
    let t = with_tag(t, "model"@, p.model);
    with_tag(t, "manufacturer"@, p.manufacturer)
}

/// A count as an integer, where there is one.
pub open spec fn count(x: Option<u32>) -> Option<int> {
    match x {
        Some(v) => Some(v as int),
        None => None,
    }
}

/// What is reported of a drive: its media errors, other errors and predicted
/// failures, its S.M.A.R.T. flag as 1 or 0, its firmware state and the number
/// of its last predicted failure event, each as far as it is known and all
/// with the drive's tags.
pub open spec fn drive_readings(p: PdInfoView) -> Seq<Reading> {
    let tags = drive_tags(p);
    let r = Seq::<Reading>::empty();
    let r = with_reading(r, "hw.storage.drivestats.mediaerrors"@, count(p.media_errors), tags);
    let r = with_reading(r, "hw.storage.drivestats.othererrors"@, count(p.other_errors), tags);
    let r = with_reading(
        r,
        "hw.storage.drivestats.predfailerrors"@,
        count(p.predictive_failure_errors),
        tags,
    );
    let r = with_reading(
        r,
        "hw.storage.drivestats.smartflag"@,
        match p.smart_flag {
            Some(flag) => Some(
                if flag {
                    1int
                } else {
                    0int
                },
            ),
            None => None,
        },
        tags,
    );
    let r = with_reading(
        r,
        "hw.storage.drivestats.firmwarestate"@,
        match p.firmware_state {
            Some(x) => Some(x as int),
            None => None,
        },
        tags,
    );
    with_reading(
        r,
        "hw.storage.drivestats.predfaileventno"@,
        count(p.last_predictive_failure_event_seqno),
        tags,
    )
}

/// The samples for one drive.
pub fn pdinfo_to_samples(pdinfo: PdInfo) -> (r: Vec<Sample>)
    ensures
        readings(r@) == drive_readings(pdinfo@),
{
    let mut tags = Tags::new();
    add_tag(
        &mut tags,
        "slot_number",
        match pdinfo.slot_number {
            Some(x) => Some(decimal_text(x as i64)),
            None => None,
        },
    );
    add_tag(
        &mut tags,
        "enclosure_id",
        match pdinfo.enclosure_id {
            Some(x) => Some(decimal_text(x as i64)),
            None => None,
        },
    );
    add_tag(&mut tags, "serial_number", pdinfo.serial_number);
    add_tag(&mut tags, "model", pdinfo.model);
    add_tag(&mut tags, "manufacturer", pdinfo.manufacturer);

    let mut samples: Vec<Sample> = Vec::new();
    assert(readings(samples@) =~= Seq::<Reading>::empty());
    add_sample(
        &mut samples,
        "hw.storage.drivestats.mediaerrors",
        match pdinfo.media_errors {
            Some(x) => Some(x as i64),
            None => None,
        },
        &tags,
    );
    add_sample(
        &mut samples,
        "hw.storage.drivestats.othererrors",
        match pdinfo.other_errors {
            Some(x) => Some(x as i64),
            None => None,
        },
        &tags,
    );
    add_sample(
        &mut samples,
        "hw.storage.drivestats.predfailerrors",
        match pdinfo.predictive_failure_errors {
            Some(x) => Some(x as i64),
            None => None,
        },
        &tags,
    );
    add_sample(
        &mut samples,
        "hw.storage.drivestats.smartflag",
        match pdinfo.smart_flag {
            Some(flag) => Some(
                if flag {
                    1
                } else {
                    0
                },
            ),
            None => None,
        },
        &tags,
    );
    add_sample(
        &mut samples,
        "hw.storage.drivestats.firmwarestate",
        match pdinfo.firmware_state {
            Some(x) => Some(x as i64),
            None => None,
        },
        &tags,
    );
    add_sample(
        &mut samples,
        "hw.storage.drivestats.predfaileventno",
        match pdinfo.last_predictive_failure_event_seqno {
            Some(x) => Some(x as i64),
            None => None,
        },
        &tags,
    );
    samples
}

/// What is reported of a sequence of drives: the readings of each, one drive
/// after the other.
pub open spec fn all_drive_readings(drives: Seq<PdInfoView>) -> Seq<Reading>
    decreases drives.len(),
{
    if drives.len() == 0 {
        Seq::<Reading>::empty()
    } else {
        all_drive_readings(drives.drop_last()) + drive_readings(drives.last())
    }
}

/// The samples for the drives, one drive after the other.
pub fn pdinfos_to_samples(pdinfos: Vec<PdInfo>) -> (r: Vec<Sample>)
    ensures
        readings(r@) == all_drive_readings(pdinfo_views(pdinfos@)),
{
    let ghost all = pdinfo_views(pdinfos@);
    let mut out: Vec<Sample> = Vec::new();
    assert(readings(out@) =~= all_drive_readings(all.take(0)));
    for info in it: pdinfos
        invariant
            it.seq() == pdinfos@,
            all == pdinfo_views(pdinfos@),
            readings(out@) == all_drive_readings(all.take(it.index() as int)),
    {
        proof {
            let at = it.index() as int;
            assert(all[at] == info@);
            assert(all.take(at + 1).drop_last() =~= all.take(at));
            assert(all.take(at + 1).last() == all[at]);
        }
        let mut samples = pdinfo_to_samples(info);
        let ghost before = out@;
        let ghost added = samples@;
        out.append(&mut samples);
        proof {
            assert(readings(before + added) =~= readings(before) + readings(added));
        }
    }
    assert(all.take(all.len() as int) =~= all);
    out
}

/// The MegaRAID collector: which command reports the drives, and of which
/// adapter.
#[derive(Debug)]
pub struct Megaraid {
    id: Id,
    tick_interval: i32,
    megacli_command: String,
    adapter: String,
}

/// The collector's settings, each optional.
#[derive(Debug)]
pub struct MegaraidConfig {
    /// On every how many ticks of the scheduler the drives are sampled.
    pub tick_interval: Option<i32>,
    /// The path of the controller's command line tool.
    pub megacli_command: Option<String>,
    /// The number of the adapter; all adapters where none is given.
    pub adapter: Option<i32>,
}

/// The collector over sequences of characters.
pub struct MegaraidView {
    pub id: Seq<char>,
    pub tick_interval: i32,
    pub megacli_command: Seq<char>,
    pub adapter: Seq<char>,
}

impl View for Megaraid {
    type V = MegaraidView;

    closed spec fn view(&self) -> MegaraidView {
        MegaraidView {
            id: self.id@,
            tick_interval: self.tick_interval,
            megacli_command: self.megacli_command@,
            adapter: self.adapter@,
        }
    }
}

/// The collector that the settings ask for: sampled on every tick, with the
/// tool at its usual place and for all adapters, unless they say otherwise.
pub open spec fn configured(cfg: MegaraidConfig) -> MegaraidView {
    MegaraidView {
        id: "megaraid#0"@,
        tick_interval: match cfg.tick_interval {
            Some(ti) => ti,
            None => 1i32,
        },
        megacli_command: match cfg.megacli_command {
            Some(command) => command@,
            None => "/opt/MegaRAID/MegaCli/MegaCli64"@,
        },
        adapter: match cfg.adapter {
            Some(adapter) => decimal_of(adapter as int),
            None => "ALL"@,
        },
    }
}

impl Megaraid {
    /// The collector that the settings ask for.
    pub fn from_config(cfg: &MegaraidConfig) -> (r: Megaraid)
        ensures
            r@ == configured(*cfg),
    {
        Megaraid {
            id: String::from_str("megaraid#0"),
            tick_interval: match cfg.tick_interval {
                Some(ti) => ti,
                None => 1,
            },
            megacli_command: match &cfg.megacli_command {
                Some(command) => command.clone(),
                None => String::from_str("/opt/MegaRAID/MegaCli/MegaCli64"),
            },
            adapter: match cfg.adapter {
                Some(adapter) => decimal_text(adapter as i64),
                None => String::from_str("ALL"),
            },
        }
    }

    pub fn id(&self) -> (r: &Id)
        ensures
            r@ == self@.id,
    {
        &self.id
    }

    /// On every how many ticks of the scheduler the drives are sampled.
    pub fn get_tick_interval(&self) -> (r: i32)
        ensures
            r == self@.tick_interval,
    {
        self.tick_interval
    }

    /// The path of the controller's command line tool.
    pub fn megacli_command(&self) -> (r: &String)
        ensures
            r@ == self@.megacli_command,
    {
        &self.megacli_command
    }

    /// The arguments with which the tool reports the drives of the adapter.
    pub fn arguments(&self) -> (r: Vec<String>)
        ensures
            views(r@) == seq!["-LdPdInfo"@, "-a"@ + self@.adapter, "-noLog"@],
    {
        let mut selector = String::from_str("-a");
        selector.append(self.adapter.as_str());
        let list: Vec<String> = vec![
            String::from_str("-LdPdInfo"),
            selector,
            String::from_str("-noLog"),
        ];
        assert(views(list@) =~= seq!["-LdPdInfo"@, "-a"@ + self@.adapter, "-noLog"@]);
        list
    }

    /// The descriptors of the metrics that the collector reports.
    pub fn metadata(&self) -> (r: Vec<Metadata>)
        ensures
            metadata_views(r@) == metadata_spec(),
    {
        metadata()
    }

    /// The samples that a run of the tool gives: those of the drives in its
    /// report. A run that failed is a collection error that describes it.
    pub fn collect_from(&self, output: &CommandOutput) -> (r: Result<Vec<Sample>, Error>)
        ensures
            !output.succeeded() ==> r is Err && r->Err_0@ == ErrorView::CollectionError(
                output.failure_text(self@.megacli_command),
            ),
            output.succeeded() && lines_of(output.stdout@).len() == 0 ==> r is Err && r->Err_0@
                == empty_report(),
            match r {
                Ok(samples) => output.succeeded() && ldpdinfo_spec(output.stdout@) is Ok
                    && readings(samples@) == all_drive_readings(
                    ldpdinfo_spec(output.stdout@)->Ok_0,
                ),
                Err(e) => e is CollectionError,
            },
            exists|compiled: Result<Patterns, String>|
                samples_view(r) == samples_of(
                    #[trigger] ldpdinfo_outcome(self@.megacli_command, *output, compiled),
                ),
    {
        let drives = get_ldpdinfo(self.megacli_command.as_str(), output);
        let ghost compiled = choose|compiled: Result<Patterns, String>|
            drives_view(drives) == #[trigger] ldpdinfo_outcome(
                self@.megacli_command,
                *output,
                compiled,
            );
        let r = match drives {
            Ok(pdinfos) => Ok(pdinfos_to_samples(pdinfos)),
            Err(e) => Err(e),
        };
        assert(samples_view(r) == samples_of(
            ldpdinfo_outcome(self@.megacli_command, *output, compiled),
        ));
        r
    }
}

/// The readings or the error of a collection.
pub open spec fn samples_view(r: Result<Vec<Sample>, Error>) -> Result<Seq<Reading>, ErrorView> {
    match r {
        Ok(samples) => Ok(readings(samples@)),
        Err(e) => Err(e@),
    }
}

/// The readings of the drives of a reading, or its error.
pub open spec fn samples_of(drives: Result<Seq<PdInfoView>, ErrorView>) -> Result<
    Seq<Reading>,
    ErrorView,
> {
    match drives {
        Ok(d) => Ok(all_drive_readings(d)),
        Err(e) => Err(e),
    }
}

/// Accepts the output of a run of `command` that succeeded; a run that failed
/// is a collection error that describes it.
pub fn handle_command_output(command: &str, output: &CommandOutput) -> (r: Result<(), Error>)
    ensures
        match r {
            Ok(_) => output.succeeded(),
            Err(e) => !output.succeeded() && e@ == ErrorView::CollectionError(
                output.failure_text(command@),
            ),
        },
{
    if output.success() {
        Ok(())
    } else {
        Err(Error::CollectionError(output.failure_message(command)))
    }
}

/// The collector for the configuration: one where it has a table for
/// MegaRAID, none where it has not.
pub fn create_instances(config: &Config) -> (r: Vec<Megaraid>)
    ensures
        match config.Megaraid {
            Some(cfg) => r.len() == 1 && r[0]@ == configured(cfg),
            None => r.len() == 0,
        },
{
    match &config.Megaraid {
        Some(cfg) => {
            let list: Vec<Megaraid> = vec![Megaraid::from_config(cfg)];
            list
        },
        None => Vec::new(),
    }
}

/// What a run of `cmd` gives once the patterns of the fields are compiled, or
/// cannot be compiled for the reason `compiled` gives: the error of a failed
/// run first, then that of a report without a line, then that of the
/// patterns, and at last the drives of the report or the error that ends its
/// reading.
pub open spec fn ldpdinfo_outcome(
    cmd: Seq<char>,
    output: CommandOutput,
    compiled: Result<Patterns, String>,
) -> Result<Seq<PdInfoView>, ErrorView> {
    if !output.succeeded() {
        Err(ErrorView::CollectionError(output.failure_text(cmd)))
    } else if lines_of(output.stdout@).len() == 0 {
        Err(empty_report())
    } else {
        match compiled {
            Err(message) => Err(ErrorView::CollectionError(message@)),
            Ok(_) => ldpdinfo_spec(output.stdout@),
        }
    }
}

/// The drives or the error of a reading, over sequences of characters.
pub open spec fn drives_view(r: Result<Vec<PdInfo>, Error>) -> Result<Seq<PdInfoView>, ErrorView> {
    match r {
        Ok(v) => Ok(pdinfo_views(v@)),
        Err(e) => Err(e@),
    }
}

/// Reads the drives from a run of `cmd`, the controller's command line tool,
/// given the outcome of compiling the patterns of the fields.
pub fn read_ldpdinfo(cmd: &str, output: &CommandOutput, compiled: Result<Patterns, String>) -> (r:
    Result<Vec<PdInfo>, Error>)
    ensures
        match r {
            Ok(v) => ldpdinfo_outcome(cmd@, *output, compiled) == Ok::<
                Seq<PdInfoView>,
                ErrorView,
            >(pdinfo_views(v@)),
            Err(e) => ldpdinfo_outcome(cmd@, *output, compiled) == Err::<
                Seq<PdInfoView>,
                ErrorView,
            >(e@),
        },
{
    match handle_command_output(cmd, output) {
        Err(e) => {
            return Err(e);
        },
        Ok(()) => {},
    }
    let all = lines(output.stdout.as_str());
    assert(views(all@).len() == all.len());
    if all.len() == 0 {
        return Err(Error::CollectionError(String::from_str("Failed to parse MegaCli output")));
    }
    match compiled {
        Err(message) => Err(Error::CollectionError(message)),
        Ok(patterns) => read_lines(&patterns, &all),
    }
}

/// Reads the drives from a run of `cmd`, the controller's command line tool.
/// A run that failed is a collection error that describes it, a report
/// without a line is one, and so is a count or an id that is no number. The
/// patterns of the fields are compiled for the reading; where the regular
/// expression compiler refuses one, its message is the collection error.
pub fn get_ldpdinfo(cmd: &str, output: &CommandOutput) -> (r: Result<Vec<PdInfo>, Error>)
    ensures
        !output.succeeded() ==> r is Err && r->Err_0@ == ErrorView::CollectionError(
            output.failure_text(cmd@),
        ),
        output.succeeded() && lines_of(output.stdout@).len() == 0 ==> r is Err && r->Err_0@
            == empty_report(),
        match r {
            Ok(v) => output.succeeded() && ldpdinfo_spec(output.stdout@) == Ok::<
                Seq<PdInfoView>,
                ErrorView,
            >(pdinfo_views(v@)),
            Err(e) => e is CollectionError,
        },
        exists|compiled: Result<Patterns, String>|
            drives_view(r) == #[trigger] ldpdinfo_outcome(cmd@, *output, compiled),
{
    let compiled = Patterns::compile();
    let ghost outcome = compiled;
    proof {
        lemma_reading_fails_as_collection(line_fields(lines_of(output.stdout@)), 0, start());
    }
    let r = read_ldpdinfo(cmd, output, compiled);
    assert(drives_view(r) == ldpdinfo_outcome(cmd@, *output, outcome));
    r
}

/// An error that ends the reading of a report is a collection error.
proof fn lemma_reading_fails_as_collection(
    matches: Seq<Option<(Field, Option<Seq<char>>)>>,
    i: int,
    state: PdParserView,
)
    ensures
        fold_matches(matches, i, state) is Err ==> fold_matches(matches, i, state)->Err_0
            is CollectionError,
    decreases matches.len() - i,
{
    if 0 <= i < matches.len() {
        match matches[i] {
            None => {
                lemma_reading_fails_as_collection(matches, i + 1, state);
            },
            Some((field, capture)) => match apply(state, field, capture) {
                Ok(next) => {
                    lemma_reading_fails_as_collection(matches, i + 1, next);
                },
                Err(_) => {},
            },
        }
    }
}

} // verus!
