//! What the user asks to have backed up.
use vstd::prelude::*;
use crate::entities::credentials::Credentials;
use crate::filter::Filter;
use crate::text::{same_str, surround};

verus! {

/// One item of the configuration: what kind of artifact to back up, whose,
/// where to, with which credentials, which of them, and the knobs of the
/// source (`api_url`, `query`, `refspecs`).
pub struct BackupPolicy {
    pub kind: String,
    pub from: String,
    pub to: String,
    pub credentials: Credentials,
    pub filter: Filter,
    pub properties: Vec<(String, String)>,
}

/// The value that `properties[..n]` hold under `key`: that of the first
/// pair with that key.
pub open spec fn property_of(properties: Seq<(String, String)>, n: int, key: Seq<char>) -> Option<
    Seq<char>,
>
    decreases n,
{
    if n <= 0 || n > properties.len() {
        None
    } else {
        match property_of(properties, n - 1, key) {
            Some(v) => Some(v),
            None => if properties[n - 1].0@ == key {
                Some(properties[n - 1].1@)
            } else {
                None
            },
        }
    }
}

/// The directory that backups go to where the policy names none.
pub fn default_backup_path() -> (path: String)
    ensures
        path@ == "./backups"@,
{
    String::from_str("./backups")
}

impl BackupPolicy {
    /// The value of the knob `key`, where the policy sets it.
    pub open spec fn knob(&self, key: Seq<char>) -> Option<Seq<char>> {
        property_of(self.properties@, self.properties@.len() as int, key)
    }

    /// The value of the knob `key`, where the policy sets it.
    pub fn property(&self, key: &str) -> (value: Option<&str>)
        ensures
            match self.knob(key@) {
                Some(v) => value matches Some(s) && s@ == v,
                None => value is None,
            },
    {
        let mut i: usize = 0;
        while i < self.properties.len()
            invariant
                i <= self.properties@.len(),
                property_of(self.properties@, i as int, key@) is None,
            decreases self.properties@.len() - i,
        {
            if same_str(self.properties[i].0.as_str(), key) {
                proof {
                    lemma_property_found(self.properties@, i as int + 1, key@);
                }
                return Some(self.properties[i].1.as_str());
            }
            i += 1;
        }
        None
    }

    /// The policy as it is shown to a person: `<kind>/<from>`.
    pub fn to_string(&self) -> (out: String)
        ensures
            out@ == self.kind@ + "/"@ + self.from@,
    {
        surround(self.kind.as_str(), "/", self.from.as_str())
    }
}

/// What was found among the first `n` pairs is what is found among all.
proof fn lemma_property_found(properties: Seq<(String, String)>, n: int, key: Seq<char>)
    requires
        0 <= n <= properties.len(),
        property_of(properties, n, key) is Some,
    ensures
        property_of(properties, properties.len() as int, key) == property_of(properties, n, key),
    decreases properties.len() - n,
{
    if n < properties.len() {
        lemma_property_found(properties, n + 1, key);
    }
}

} // verus!
