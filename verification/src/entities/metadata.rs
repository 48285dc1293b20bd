//! The bag of properties that a filter sees of an entity.
use vstd::prelude::*;
use crate::filter::value::{FilterValue, ValueView};
use crate::text::{ascii_lower, is_ascii_text};

verus! {

/// The form of a key under which it is stored and looked up: its Unicode
/// case folding. Keys that differ only in case have one form.
pub uninterp spec fn folded(key: Seq<char>) -> Seq<char>;

/// An ASCII text with every capital as its small letter.
pub open spec fn ascii_lowered(s: Seq<char>) -> Seq<char> {
    s.map_values(|c: char| ascii_lower(c))
}

/// The case folding of `key`.
///
/// Trusted: wraps `unicase::UniCase::new` and `UniCase::to_folded_case`. The
/// result depends on the text alone, and for a text of ASCII characters it
/// is the text with its capitals as small letters.
#[verifier::external_body]
fn fold_case(key: &str) -> (out: String)
    ensures
        out@ == folded(key@),
        is_ascii_text(key@) ==> out@ == ascii_lowered(key@),
{
    unicase::UniCase::new(key).to_folded_case()
}

/// One stored property.
struct Entry {
    key: String,
    value: FilterValue,
}

/// The value that `entries[..n]` hold under the stored form `key`: that of
/// the last entry with that form, or null.
pub open spec fn lookup(entries: Seq<(Seq<char>, ValueView)>, n: int, key: Seq<char>) -> ValueView
    decreases n,
{
    if n <= 0 || n > entries.len() {
        ValueView::Null
    } else if entries[n - 1].0 == key {
        entries[n - 1].1
    } else {
        lookup(entries, n - 1, key)
    }
}

/// The value under `key` once `pairs[..n]` have been written, in order,
/// over a bag that held `base` under it.
pub open spec fn value_after(
    base: ValueView,
    pairs: Seq<(Seq<char>, ValueView)>,
    n: int,
    key: Seq<char>,
) -> ValueView
    decreases n,
{
    if n <= 0 || n > pairs.len() {
        base
    } else if folded(pairs[n - 1].0) == folded(key) {
        pairs[n - 1].1
    } else {
        value_after(base, pairs, n - 1, key)
    }
}

/// A mapping from keys to values that does not tell keys apart by their
/// case. A key that was never written holds null.
pub struct Metadata {
    entries: Vec<Entry>,
}

impl Metadata {
    /// The stored forms and values, in the order in which they were written.
    pub closed spec fn stored(&self) -> Seq<(Seq<char>, ValueView)> {
        Seq::new(self.entries@.len(), |i: int| (self.entries@[i].key@, self.entries@[i].value@))
    }

    /// The value that the bag holds under `key`.
    pub closed spec fn value_of(&self, key: Seq<char>) -> ValueView {
        lookup(self.stored(), self.stored().len() as int, folded(key))
    }

    /// An empty bag.
    pub fn new() -> (bag: Metadata)
        ensures
            forall|key: Seq<char>| bag.value_of(key) == ValueView::Null,
    {
        Metadata { entries: Vec::new() }
    }

    /// Writes `value` under `key`, over what stood there under any spelling
    /// of the key.
    pub fn insert(&mut self, key: &str, value: FilterValue)
        ensures
            forall|k: Seq<char>|
                final(self).value_of(k) == if folded(k) == folded(key@) {
                    value@
                } else {
                    old(self).value_of(k)
                },
    {
        let ghost before = self.stored();
        let stored_key = fold_case(key);
        self.entries.push(Entry { key: stored_key, value });
        proof {
            let after = self.stored();
            assert(after.len() == before.len() + 1);
            assert(after[before.len() as int] == (folded(key@), value@));
            assert forall|k: Seq<char>|
                self.value_of(k) == if folded(k) == folded(key@) {
                    value@
                } else {
                    lookup(before, before.len() as int, folded(k))
                } by {
                lemma_lookup_prefix(before, after, before.len() as int, folded(k));
            }
        }
    }

    /// The value under `key`, whatever its spelling; null where nothing was
    /// written.
    pub fn get(&self, key: &str) -> (value: FilterValue)
        ensures
            value@ == self.value_of(key@),
    {
        let wanted = fold_case(key);
        let mut n = self.entries.len();
        while n > 0
            invariant
                n <= self.entries@.len(),
                wanted@ == folded(key@),
                lookup(self.stored(), n as int, wanted@) == self.value_of(key@),
            decreases n,
        {
            let entry = &self.entries[n - 1];
            if entry.key == wanted {
                return entry.value.duplicate();
            }
            n -= 1;
        }
        FilterValue::Null
    }

    /// A copy of this bag.
    pub fn duplicate(&self) -> (out: Metadata)
        ensures
            forall|key: Seq<char>| out.value_of(key) == self.value_of(key),
    {
        let mut entries: Vec<Entry> = Vec::new();
        let mut i: usize = 0;
        while i < self.entries.len()
            invariant
                i <= self.entries@.len(),
                entries@.len() == i,
                forall|j: int|
                    0 <= j < i ==> entries@[j].key@ == self.entries@[j].key@ && entries@[j].value@
                        == self.entries@[j].value@,
            decreases self.entries@.len() - i,
        {
            let entry = &self.entries[i];
            entries.push(Entry { key: entry.key.clone(), value: entry.value.duplicate() });
            i += 1;
        }
        let out = Metadata { entries };
        proof {
            assert(out.stored() =~= self.stored());
        }
        out
    }
}

/// Two runs of entries that agree on their first `n` hold the same values
/// there.
proof fn lemma_lookup_prefix(
    a: Seq<(Seq<char>, ValueView)>,
    b: Seq<(Seq<char>, ValueView)>,
    n: int,
    key: Seq<char>,
)
    requires
        0 <= n <= a.len(),
        n <= b.len(),
        forall|i: int| 0 <= i < n ==> a[i] == b[i],
    ensures
        lookup(a, n, key) == lookup(b, n, key),
    decreases n,
{
    if n > 0 {
        lemma_lookup_prefix(a, b, n - 1, key);
    }
}

impl Default for Metadata {
    fn default() -> (bag: Metadata)
        ensures
            forall|key: Seq<char>| bag.value_of(key) == ValueView::Null,
    {
        Metadata::new()
    }
}

/// Something that knows properties and can write them into a bag.
pub trait MetadataSource {
    /// The keys and values that this source writes, in order.
    open spec fn properties(&self) -> Seq<(Seq<char>, ValueView)> {
        arbitrary()
    }

    /// Writes the properties of this source into `metadata`.
    fn inject_metadata(&self, metadata: &mut Metadata)
        ensures
            forall|key: Seq<char>|
                final(metadata).value_of(key) == value_after(
                    old(metadata).value_of(key),
                    self.properties(),
                    self.properties().len() as int,
                    key,
                ),
    ;
}

} // verus!
