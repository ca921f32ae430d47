//! The configuration of the agent.

use vstd::prelude::*;
use crate::bosun::Tags;
use crate::collectors::galera::GaleraConfig;
use crate::collectors::hasipaddr::HasIpAddrConfig;
use crate::collectors::jvm::JvmConfig;
use crate::collectors::megaraid::MegaraidConfig;
use crate::collectors::mongo::MongoConfig;
use crate::collectors::postfix::PostfixConfig;
use crate::text::same_text;

verus! {

/// Where the remote endpoint is, what is added to every sample, and which
/// collectors are enabled.
#[allow(non_snake_case)]
#[derive(Debug)]
pub struct Config {
    /// Host and port of the remote endpoint
    pub Host: String,
    /// Local host name, the value of the `host` tag
    pub Hostname: String,
    /// Tags to add to every sample
    pub Tags: Tags,
    /// Galera settings; if enabled
    pub Galera: Option<GaleraConfig>,
    /// HasIpAddr settings; if enabled
    pub HasIpAddr: Option<HasIpAddrConfig>,
    /// JVM settings, one for each virtual machine
    pub Jvm: Vec<JvmConfig>,
    /// Mongo settings, one for each server
    pub Mongo: Vec<MongoConfig>,
    /// Postfix settings; if enabled
    pub Postfix: Option<PostfixConfig>,
    /// Megaraid settings; if enabled
    pub Megaraid: Option<MegaraidConfig>,
    /// Whether nothing is sent to the remote endpoint
    pub DontSend: Option<bool>,
}

impl Default for Config {
    /// The configuration for a remote endpoint on this host, port 8070, with
    /// no collector enabled.
    fn default() -> (r: Config)
        ensures
            r.Host@ == "localhost:8070"@,
            r.Hostname@ == "localhost"@,
            r.Tags@ == Map::<Seq<char>, Seq<char>>::empty(),
            r.Galera is None,
            r.HasIpAddr is None,
            r.Jvm@.len() == 0,
            r.Mongo@.len() == 0,
            r.Postfix is None,
            r.Megaraid is None,
            r.DontSend == Some(false),
    {
        Config {
            Host: String::from_str("localhost:8070"),
            Hostname: String::from_str("localhost"),
            Tags: Tags::new(),
            Galera: None,
            HasIpAddr: None,
            Jvm: Vec::new(),
            Mongo: Vec::new(),
            Postfix: None,
            Megaraid: None,
            DontSend: Some(false),
        }
    }
}

impl Config {
    /// Whether samples are sent to the remote endpoint: they are, unless the
    /// configuration says not to.
    pub open spec fn sends(&self) -> bool {
        self.DontSend != Some(true)
    }

    /// Whether samples are sent to the remote endpoint.
    pub fn sending(&self) -> (r: bool)
        ensures
            r == self.sends(),
    {
        match self.DontSend {
            Some(dont) => !dont,
            None => true,
        }
    }
}

/// The fields that a configuration may have at its top.
pub open spec fn known_keys() -> Seq<Seq<char>> {
    seq![
        "Host"@,
        "Hostname"@,
        "Tags"@,
        "DontSend"@,
        "Galera"@,
        "HasIpAddr"@,
        "Postfix"@,
        "Megaraid"@,
        "Jvm"@,
        "Mongo"@,
    ]
}

/// Tells whether `key` is a field that a configuration may have at its top; a
/// configuration with any other field is refused.
pub fn is_known_key(key: &str) -> (r: bool)
    ensures
        r == known_keys().contains(key@),
{
    let keys: Vec<&'static str> = vec![
        "Host",
        "Hostname",
        "Tags",
        "DontSend",
        "Galera",
        "HasIpAddr",
        "Postfix",
        "Megaraid",
        "Jvm",
        "Mongo",
    ];
    assert(Seq::new(keys.len() as nat, |i: int| keys[i]@) =~= known_keys());
    let mut i: usize = 0;
    while i < keys.len()
        invariant
            i <= keys.len(),
            Seq::new(keys.len() as nat, |i: int| keys[i]@) == known_keys(),
            forall|k: int| 0 <= k < i ==> known_keys()[k] != key@,
        decreases keys.len() - i,
    {
        assert(known_keys()[i as int] == keys[i as int]@);
        if same_text(key, keys[i]) {
            return true;
        }
        i += 1;
    }
    false
}

} // verus!
