//! An in-memory configuration provider over textual entries. It decodes a
//! boolean the way a JSON document writes one: the exact texts `true` and
//! `false`. A key that is absent yields `NoKey`; a key whose text is neither
//! of the two yields `DeserializeFail`.

use vstd::prelude::*;

use crate::util::label::str_chars_eq;
use crate::{ConfigParseErr, ConfigProvider};

verus! {

/// A key-value snapshot held in memory: entries in insertion order, values
/// as raw text. A key may occur more than once; lookup takes the first.
pub struct MemoryProvider {
    pub entries: Vec<(String, String)>,
}

/// The text stored under the first entry whose key equals `key`, if any.
pub open spec fn lookup_spec(entries: Seq<(String, String)>, key: Seq<char>) -> Option<Seq<char>>
    decreases entries.len(),
{
    if entries.len() == 0 {
        None
    } else if entries[0].0@ == key {
        Some(entries[0].1@)
    } else {
        lookup_spec(entries.drop_first(), key)
    }
}

/// The boolean a JSON-style text denotes: `true`, `false`, or neither.
pub open spec fn bool_of_text(text: Seq<char>) -> Option<bool> {
    if text == "true"@ {
        Some(true)
    } else if text == "false"@ {
        Some(false)
    } else {
        None
    }
}

impl MemoryProvider {
    /// An empty snapshot: every extraction fails with `NoKey`.
    pub fn new() -> (r: MemoryProvider)
        ensures
            r.entries@.len() == 0,
    {
        MemoryProvider { entries: Vec::new() }
    }

    /// Append an entry to the snapshot.
    pub fn insert(&mut self, key: String, value: String)
        ensures
            final(self).entries@ == old(self).entries@.push((key, value)),
    {
        self.entries.push((key, value));
    }
}

/// Decode the boolean a text denotes, or report that it fits no boolean.
fn parse_bool_text(value: &str) -> (r: Result<bool, ConfigParseErr>)
    ensures
        bool_of_text(value@) matches Some(b) ==> r == Ok::<bool, ConfigParseErr>(b),
        bool_of_text(value@) is None ==> (r == Err::<bool, ConfigParseErr>(
            ConfigParseErr::DeserializeFail,
        )),
{
    if str_chars_eq(value, "true") {
        Ok(true)
    } else if str_chars_eq(value, "false") {
        Ok(false)
    } else {
        Err(ConfigParseErr::DeserializeFail)
    }
}

impl ConfigProvider<bool> for MemoryProvider {
    open spec fn extract_spec(&self, key: Seq<char>) -> Result<bool, ConfigParseErr> {
        match lookup_spec(self.entries@, key) {
            None => Err(ConfigParseErr::NoKey),
            Some(text) => match bool_of_text(text) {
                Some(b) => Ok(b),
                None => Err(ConfigParseErr::DeserializeFail),
            },
        }
    }

    fn extract(&self, key: &str) -> (r: Result<bool, ConfigParseErr>) {
        let ghost all = self.entries@;
        let n = self.entries.len();
        let mut i: usize = 0;
        proof {
            assert(all.subrange(0, n as int) =~= all);
        }
        while i < n
            invariant
                0 <= i <= n,
                n == all.len(),
                all == self.entries@,
                lookup_spec(all, key@) == lookup_spec(all.subrange(i as int, n as int), key@),
            decreases n - i,
        {
            proof {
                assert(all.subrange(i as int, n as int)[0] == all[i as int]);
                assert(all.subrange(i as int, n as int).drop_first() =~= all.subrange(
                    i + 1,
                    n as int,
                ));
            }
            let entry_key: &String = &self.entries[i].0;
            if str_chars_eq(entry_key.as_str(), key) {
                let value: &String = &self.entries[i].1;
                return parse_bool_text(value.as_str());
            }
            i = i + 1;
        }
        Err(ConfigParseErr::NoKey)
    }
}

} // verus!
