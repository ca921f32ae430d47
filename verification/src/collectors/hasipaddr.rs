//! Bound addresses: whether the host has given IPv4 addresses.

use vstd::prelude::*;
use crate::bosun::{
    descriptor, metadata_views, readings, Metadata, MetadataView, Rate, Reading, Sample, Tags,
    Value, ValueView,
};
use crate::collectors::Id;
use crate::config::Config;
use crate::number::{decimal_of, decimal_text, digits_value};
use crate::text::{chars_of, join2, views};

verus! {

/// The addresses to look for, in dotted notation.
#[allow(non_snake_case)]
#[derive(Debug)]
pub struct HasIpAddrConfig {
    pub Ipv4: Vec<String>,
}

/// An IPv4 address by its four numbers.
#[derive(Clone, Copy, Debug, PartialEq, Eq, Structural)]
pub struct Ipv4 {
    pub a: u8,
    pub b: u8,
    pub c: u8,
    pub d: u8,
}

/// Where the run of characters other than points that starts at `i` ends.
pub open spec fn part_end(s: Seq<char>, i: int) -> int
    decreases s.len() - i,
{
    if 0 <= i < s.len() && s[i] != '.' {
        part_end(s, i + 1)
    } else {
        i
    }
}

/// The number that one part of an address in dotted notation stands for: one
/// to three decimal digits, without a zero in front of other digits, and not
/// above 255.
pub open spec fn octet(s: Seq<char>) -> Option<u8> {
    if 1 <= s.len() <= 3 && (forall|k: int| 0 <= k < s.len() ==> '0' <= #[trigger] s[k] <= '9') && (
    s.len() == 1 || s[0] != '0') && digits_value(s) <= 255 {
        Some(digits_value(s) as u8)
    } else {
        None
    }
}

/// The address that `s` writes in dotted notation: four parts with a point
/// between each two.
pub open spec fn ipv4_spec(s: Seq<char>) -> Option<Ipv4> {
    let e1 = part_end(s, 0);
    let e2 = part_end(s, e1 + 1);
    let e3 = part_end(s, e2 + 1);
    let e4 = part_end(s, e3 + 1);
    if e1 < s.len() && e2 < s.len() && e3 < s.len() && e4 == s.len() {
        match (
            octet(s.subrange(0, e1)),
            octet(s.subrange(e1 + 1, e2)),
            octet(s.subrange(e2 + 1, e3)),
            octet(s.subrange(e3 + 1, e4)),
        ) {
            (Some(a), Some(b), Some(c), Some(d)) => Some(Ipv4 { a: a, b: b, c: c, d: d }),
            _ => None,
        }
    } else {
        None
    }
}

fn scan_part(chars: &Vec<char>, from: usize) -> (r: usize)
    requires
        from <= chars.len(),
    ensures
        r == part_end(chars@, from as int),
        from <= r <= chars.len(),
{
    let mut j: usize = from;
    while j < chars.len() && chars[j] != '.'
        invariant
            from <= j <= chars.len(),
            part_end(chars@, from as int) == part_end(chars@, j as int),
        decreases chars.len() - j,
    {
        j += 1;
    }
    j
}

fn parse_octet(chars: &Vec<char>, from: usize, to: usize) -> (r: Option<u8>)
    requires
        from <= to <= chars.len(),
    ensures
        r == octet(chars@.subrange(from as int, to as int)),
{
    let ghost s = chars@.subrange(from as int, to as int);
    let n = to - from;
    if n < 1 || n > 3 {
        return None;
    }
    let mut value: u32 = 0;
    let mut k: usize = 0;
    while k < n
        invariant
            k <= n,
            n == to - from,
            1 <= n <= 3,
            from <= to <= chars.len(),
            s == chars@.subrange(from as int, to as int),
            forall|m: int| 0 <= m < k ==> '0' <= #[trigger] s[m] <= '9',
            value == digits_value(s.take(k as int)),
            value <= 999,
        decreases n - k,
    {
        let c = chars[from + k];
        assert(s[k as int] == c);
        if !('0' <= c && c <= '9') {
            return None;
        }
        proof {
            assert(s.take(k + 1).drop_last() =~= s.take(k as int));
            assert(s.take(k + 1).last() == c);
            lemma_short_number_bound(s.take(k as int));
        }
        value = value * 10 + (c as u32 - '0' as u32);
        k += 1;
        proof {
            lemma_short_number_bound(s.take(k as int));
        }
    }
    assert(s.take(n as int) =~= s);
    if n > 1 && chars[from] == '0' {
        assert(s[0] == '0');
        return None;
    }
    assert(n == 1 || s[0] != '0');
    if value > 255 {
        return None;
    }
    Some(value as u8)
}

/// A number of up to three digits is below a thousand.
proof fn lemma_short_number_bound(s: Seq<char>)
    requires
        s.len() <= 3,
        forall|m: int| 0 <= m < s.len() ==> '0' <= #[trigger] s[m] <= '9',
    ensures
        0 <= digits_value(s),
        s.len() == 0 ==> digits_value(s) == 0,
        s.len() <= 1 ==> digits_value(s) <= 9,
        s.len() <= 2 ==> digits_value(s) <= 99,
        digits_value(s) <= 999,
    decreases s.len(),
{
    if s.len() > 0 {
        assert forall|m: int| 0 <= m < s.drop_last().len() implies '0' <= #[trigger] s.drop_last()[m]
            <= '9' by {
            assert(s.drop_last()[m] == s[m]);
        }
        lemma_short_number_bound(s.drop_last());
        assert('0' <= s[s.len() - 1] <= '9');
    }
}

/// Reads an address in dotted notation, such as `192.168.0.1`.
pub fn parse_ipv4(s: &str) -> (r: Option<Ipv4>)
    ensures
        r == ipv4_spec(s@),
{
    let chars = chars_of(s);
    let n = chars.len();
    let e1 = scan_part(&chars, 0);
    if e1 >= n {
        return None;
    }
    let e2 = scan_part(&chars, e1 + 1);
    if e2 >= n {
        return None;
    }
    let e3 = scan_part(&chars, e2 + 1);
    if e3 >= n {
        return None;
    }
    let e4 = scan_part(&chars, e3 + 1);
    if e4 != n {
        return None;
    }
    let a = parse_octet(&chars, 0, e1);
    let b = parse_octet(&chars, e1 + 1, e2);
    let c = parse_octet(&chars, e2 + 1, e3);
    let d = parse_octet(&chars, e3 + 1, e4);
    match (a, b, c, d) {
        (Some(a), Some(b), Some(c), Some(d)) => Some(Ipv4 { a: a, b: b, c: c, d: d }),
        _ => None,
    }
}

impl Ipv4 {
    /// The address in dotted notation.
    pub open spec fn text_spec(self) -> Seq<char> {
        decimal_of(self.a as int) + seq!['.'] + decimal_of(self.b as int) + seq!['.'] + decimal_of(
            self.c as int,
        ) + seq!['.'] + decimal_of(self.d as int)
    }

    /// The address in dotted notation.
    pub fn text(&self) -> (r: String)
        ensures
            r@ == self.text_spec(),
    {
        let mut out = decimal_text(self.a as i64);
        out.push('.');
        out.append(decimal_text(self.b as i64).as_str());
        out.push('.');
        out.append(decimal_text(self.c as i64).as_str());
        out.push('.');
        out.append(decimal_text(self.d as i64).as_str());
        out
    }
}

/// The strings one after the other, with `sep` between each two.
pub open spec fn joined(parts: Seq<Seq<char>>, sep: Seq<char>) -> Seq<char>
    decreases parts.len(),
{
    if parts.len() == 0 {
        Seq::<char>::empty()
    } else if parts.len() == 1 {
        parts[0]
    } else {
        joined(parts.drop_last(), sep) + sep + parts.last()
    }
}

/// `itertools::Itertools::join` on the strings in their order: each string as
/// it is, with `sep` between each two; the empty string for no string.
#[verifier::external_body]
fn join(parts: &Vec<String>, sep: &str) -> (r: String)
    ensures
        r@ == joined(views(parts@), sep@),
{
    itertools::Itertools::join(&mut parts.iter(), sep)
}

/// The collector of bound addresses.
#[derive(Debug)]
pub struct HasIpAddr {
    id: Id,
    ipv4: Vec<Ipv4>,
}

/// The metric that says whether an address is bound.
pub const HAS_IP_METRIC_NAME: &'static str = "os.net.has_ipv4s";

/// The descriptor of the metric that the collector reports.
pub open spec fn metadata_spec() -> Seq<MetadataView> {
    seq![
        descriptor(
            "os.net.has_ipv4s"@,
            Rate::Gauge,
            ""@,
            "Shows whether a host bound a specified IPv4 address. [0 = No, 1 = Yes]"@,
        ),
    ]
}

/// Whether every string writes an address.
pub open spec fn all_addresses(texts: Seq<String>) -> bool {
    forall|i: int| 0 <= i < texts.len() ==> ipv4_spec((#[trigger] texts[i])@) is Some
}

/// The addresses that the strings write, in order.
pub open spec fn addresses(texts: Seq<String>) -> Seq<Ipv4> {
    Seq::new(texts.len(), |i: int| ipv4_spec(texts[i]@)->Some_0)
}

impl HasIpAddrConfig {
    /// Tells whether every one of the settings' strings writes an address.
    pub fn is_valid(&self) -> (r: bool)
        ensures
            r == all_addresses(self.Ipv4@),
    {
        let mut i: usize = 0;
        while i < self.Ipv4.len()
            invariant
                i <= self.Ipv4.len(),
                forall|k: int| 0 <= k < i ==> ipv4_spec((#[trigger] self.Ipv4@[k])@) is Some,
            decreases self.Ipv4.len() - i,
        {
            if parse_ipv4(self.Ipv4[i].as_str()).is_none() {
                return false;
            }
            i += 1;
        }
        true
    }
}

impl HasIpAddr {
    /// The collector's identity.
    pub closed spec fn id_spec(&self) -> Seq<char> {
        self.id@
    }

    /// The addresses that the collector looks for.
    pub closed spec fn ipv4_spec(&self) -> Seq<Ipv4> {
        self.ipv4@
    }

    pub fn id(&self) -> (r: &Id)
        ensures
            r@ == self.id_spec(),
    {
        &self.id
    }

    /// The addresses that the collector looks for.
    pub fn ipv4(&self) -> (r: &Vec<Ipv4>)
        ensures
            r@ == self.ipv4_spec(),
    {
        &self.ipv4
    }

    /// The descriptor of the metric that the collector reports, always the
    /// same.
    pub fn metadata(&self) -> (r: Vec<Metadata>)
        ensures
            metadata_views(r@) == metadata_spec(),
    {
        let list: Vec<Metadata> = vec![
            Metadata::new(
                HAS_IP_METRIC_NAME,
                Rate::Gauge,
                "",
                "Shows whether a host bound a specified IPv4 address. [0 = No, 1 = Yes]",
            ),
        ];
        assert(metadata_views(list@) =~= metadata_spec());
        list
    }

    /// The samples for the addresses that the collector looks for, given the
    /// addresses that the host has bound.
    pub fn collect_from(&self, local: &Vec<Ipv4>) -> (r: Vec<Sample>)
        ensures
            readings(r@) == bound_readings(self.ipv4_spec(), local@),
    {
        check_for_ip_addrs(&self.ipv4, local)
    }
}

/// The collector for the configuration: one where it has a table of
/// addresses, none where it has not. Every string of the table has to write
/// an address.
pub fn create_instances(config: &Config) -> (r: Vec<HasIpAddr>)
    requires
        config.HasIpAddr is Some ==> all_addresses(config.HasIpAddr->Some_0.Ipv4@),
    ensures
        match config.HasIpAddr {
            Some(cfg) => r.len() == 1 && r[0].id_spec() == "hasipaddr#"@ + joined(
                views(cfg.Ipv4@),
                ","@,
            ) && r[0].ipv4_spec() == addresses(cfg.Ipv4@),
            None => r.len() == 0,
        },
{
    match &config.HasIpAddr {
        Some(cfg) => {
            let list = join(&cfg.Ipv4, ",");
            let id = join2("hasipaddr#", list.as_str());
            let mut ipv4: Vec<Ipv4> = Vec::new();
            let mut i: usize = 0;
            while i < cfg.Ipv4.len()
                invariant
                    i <= cfg.Ipv4.len(),
                    all_addresses(cfg.Ipv4@),
                    ipv4.len() == i,
                    forall|k: int| 0 <= k < i ==> ipv4[k] == ipv4_spec(cfg.Ipv4@[k]@)->Some_0,
                decreases cfg.Ipv4.len() - i,
            {
                match parse_ipv4(cfg.Ipv4[i].as_str()) {
                    Some(ip) => {
                        ipv4.push(ip);
                    },
                    None => {
                        assert(ipv4_spec(cfg.Ipv4@[i as int]@) is Some);
                    },
                }
                i += 1;
            }
            assert(ipv4@ =~= addresses(cfg.Ipv4@));
            let collectors: Vec<HasIpAddr> = vec![HasIpAddr { id: id, ipv4: ipv4 }];
            collectors
        },
        None => Vec::new(),
    }
}

/// What is reported of an address: 1 where the host has bound it, 0 where it
/// has not, with the address as a tag.
pub open spec fn bound_reading(ip: Ipv4, local: Seq<Ipv4>) -> Reading {
    Reading {
        metric: "os.net.has_ipv4s"@,
        value: ValueView::Integer(
            if local.contains(ip) {
                1int
            } else {
                0int
            },
        ),
        tags: Map::<Seq<char>, Seq<char>>::empty().insert("ipv4"@, ip.text_spec()),
    }
}

/// What is reported of the addresses, in their order.
pub open spec fn bound_readings(ipv4s: Seq<Ipv4>, local: Seq<Ipv4>) -> Seq<Reading> {
    Seq::new(ipv4s.len(), |i: int| bound_reading(ipv4s[i], local))
}

fn is_bound(ip: Ipv4, local: &Vec<Ipv4>) -> (r: bool)
    ensures
        r == local@.contains(ip),
{
    let mut i: usize = 0;
    while i < local.len()
        invariant
            i <= local.len(),
            forall|k: int| 0 <= k < i ==> local@[k] != ip,
        decreases local.len() - i,
    {
        if local[i] == ip {
            return true;
        }
        i += 1;
    }
    false
}

/// Says of each of the addresses `ipv4s` whether it is among `local`, the
/// addresses that the host has bound.
pub fn check_for_ip_addrs(ipv4s: &Vec<Ipv4>, local: &Vec<Ipv4>) -> (r: Vec<Sample>)
    ensures
        readings(r@) == bound_readings(ipv4s@, local@),
{
    let mut out: Vec<Sample> = Vec::new();
    let mut i: usize = 0;
    while i < ipv4s.len()
        invariant
            i <= ipv4s.len(),
            out.len() == i,
            forall|k: int| 0 <= k < i ==> (#[trigger] out[k]).reading() == bound_reading(
                ipv4s[k],
                local@,
            ),
        decreases ipv4s.len() - i,
    {
        let ip = ipv4s[i];
        let mut tags = Tags::new();
        tags.insert(String::from_str("ipv4"), ip.text());
        let value: i64 = if is_bound(ip, local) {
            1
        } else {
            0
        };
        out.push(Sample::new_with_tags(HAS_IP_METRIC_NAME, Value::Integer(value), tags));
        i += 1;
    }
    assert(readings(out@) =~= bound_readings(ipv4s@, local@));
    out
}

} // verus!
