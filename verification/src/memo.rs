//! The memo of a run: which replacement each original cell value received.
use crate::catalog::plausible;
use crate::faker::FakerKind;
use vstd::prelude::*;

verus! {

/// Replacements by original cell value. A value that has received a
/// replacement keeps it for the memo's lifetime.
pub struct Memo {
    keys: Vec<String>,
    values: Vec<String>,
}

impl Memo {
    /// Each key has one value, and no key occurs twice.
    pub closed spec fn wf(self) -> bool {
        &&& self.keys.len() == self.values.len()
        &&& forall|i: int, j: int|
            0 <= i < j < self.keys.len() ==> self.keys[i]@ != self.keys[j]@
    }

    /// Where `key` stands among the keys.
    pub closed spec fn slot(self, key: Seq<char>) -> int {
        choose|i: int| 0 <= i < self.keys.len() && self.keys[i]@ == key
    }

    /// The memo as a map from original value to replacement.
    pub closed spec fn view(self) -> Map<Seq<char>, Seq<char>> {
        Map::new(
            |key: Seq<char>| exists|i: int| 0 <= i < self.keys.len() && self.keys[i]@ == key,
            |key: Seq<char>| self.values[self.slot(key)]@,
        )
    }

    /// A memo without entries.
    pub fn new() -> (memo: Memo)
        ensures
            memo.wf(),
            memo@ == Map::<Seq<char>, Seq<char>>::empty(),
    {
        Memo { keys: Vec::new(), values: Vec::new() }
    }

    /// The replacement that `key` has received, if any.
    pub fn get(&self, key: &str) -> (r: Option<String>)
        requires
            self.wf(),
        ensures
            match r {
                Some(value) => self@.contains_key(key@) && value@ == self@[key@],
                None => !self@.contains_key(key@),
            },
    {
        let wanted = key.to_owned();
        let mut i: usize = 0;
        while i < self.keys.len()
            invariant
                i <= self.keys.len(),
                self.wf(),
                wanted@ == key@,
                forall|j: int| 0 <= j < i ==> self.keys[j]@ != key@,
            decreases self.keys.len() - i,
        {
            if self.keys[i] == wanted {
                return Some(self.values[i].clone());
            }
            i += 1;
        }
        None
    }

    /// Records the replacement of a value that has none yet.
    pub fn insert(&mut self, key: String, value: String)
        requires
            old(self).wf(),
            !old(self)@.contains_key(key@),
        ensures
            final(self).wf(),
            final(self)@ == old(self)@.insert(key@, value@),
    {
        let ghost before = *self;
        self.keys.push(key);
        self.values.push(value);
        proof {
            let after = *self;
            assert forall|k: Seq<char>| #[trigger] after@.contains_key(k) implies after@[k]
                == before@.insert(key@, value@)[k] by {
                let s = after.slot(k);
            }
            assert forall|k: Seq<char>| before@.insert(key@, value@).contains_key(k) implies
                #[trigger] after@.contains_key(k) by {
                if k == key@ {
                    assert(after.keys[before.keys.len() as int]@ == k);
                } else {
                    let s = before.slot(k);
                    assert(after.keys[s]@ == k);
                }
            }
        }
    }

    /// The replacement of `cell`: the one it has received, or else a fresh
    /// value of kind `kind`, which the memo then keeps. The kind matters only
    /// for a value that has no replacement yet.
    pub fn resolve(&mut self, cell: &str, kind: &FakerKind) -> (r: String)
        requires
            old(self).wf(),
        ensures
            final(self).wf(),
            final(self)@.contains_key(cell@),
            final(self)@[cell@] == r@,
            old(self)@.contains_key(cell@) ==> final(self)@ == old(self)@,
            !old(self)@.contains_key(cell@) ==> {
                &&& final(self)@ == old(self)@.insert(cell@, r@)
                &&& plausible(*kind, r@)
            },
    {
        match self.get(cell) {
            Some(value) => value,
            None => {
                let value = kind.fake();
                self.insert(cell.to_owned(), value.clone());
                value
            },
        }
    }
}

} // verus!
