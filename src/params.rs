use vstd::prelude::*;

verus! {

/// A parameter value as it arrives in a request's parameter object.
pub enum ParamValue {
    Null,
    Bool(bool),
    /// A JSON number, truncated toward zero to an integer.
    Number(i64),
    Str(String),
    /// An array or an object.
    Other,
}

/// The untyped parameter bag of one request. Entries are kept in the order
/// in which they were inserted; a later entry for a key overrides earlier ones.
pub struct Params {
    entries: Vec<(String, ParamValue)>,
}

/// The value that a bag (as a sequence of entries) holds for a key: that of
/// the last entry with that key.
pub open spec fn lookup(entries: Seq<(Seq<char>, ParamValue)>, key: Seq<char>) -> Option<ParamValue>
    decreases entries.len(),
{
    if entries.len() == 0 {
        None
    } else if entries.last().0 == key {
        Some(entries.last().1)
    } else {
        lookup(entries.drop_last(), key)
    }
}

impl View for Params {
    type V = Seq<(Seq<char>, ParamValue)>;

    closed spec fn view(&self) -> Seq<(Seq<char>, ParamValue)> {
        self.entries@.map_values(|e: (String, ParamValue)| (e.0@, e.1))
    }
}

impl Params {
    /// An empty bag.
    pub fn new() -> (r: Params)
        ensures
            r@.len() == 0,
    {
        Params { entries: Vec::new() }
    }

    /// Sets `key` to `value`, overriding any earlier value of `key`.
    pub fn insert(&mut self, key: String, value: ParamValue)
        ensures
            final(self)@ == old(self)@.push((key@, value)),
            lookup(final(self)@, key@) == Some(value),
            forall|k: Seq<char>| k != key@ ==> lookup(final(self)@, k) == lookup(old(self)@, k),
    {
        let ghost k = key@;
        self.entries.push((key, value));
        assert(self@ =~= old(self)@.push((k, value)));
        assert(self@.drop_last() =~= old(self)@);
    }

    /// The value held for `key`, if any.
    pub fn get(&self, key: &String) -> (r: Option<&ParamValue>)
        ensures
            r is Some <==> lookup(self@, key@) is Some,
            r is Some ==> *r.unwrap() == lookup(self@, key@).unwrap(),
    {
        let mut i: usize = self.entries.len();
        assert(self@.take(i as int) =~= self@);
        while i > 0
            invariant
                i <= self.entries@.len(),
                self@.len() == self.entries@.len(),
                lookup(self@, key@) == lookup(self@.take(i as int), key@),
            decreases i,
        {
            let ghost t = self@.take(i as int);
            assert(t.drop_last() =~= self@.take(i - 1));
            if self.entries[i - 1].0 == *key {
                return Some(&self.entries[i - 1].1);
            }
            i = i - 1;
        }
        None
    }
}

} // verus!
