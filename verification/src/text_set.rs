//! Sets of texts.

use vstd::prelude::*;

use crate::text::{contains_string, string_texts};

verus! {

/// A set of texts: no text occurs twice.
#[derive(Debug, PartialEq, Eq)]
pub struct TextSet {
    items: Vec<String>,
}

impl View for TextSet {
    type V = Set<Seq<char>>;

    closed spec fn view(&self) -> Set<Seq<char>> {
        string_texts(self.items@).to_set()
    }
}

impl TextSet {
    /// No text occurs twice.
    #[verifier::type_invariant]
    spec fn is_distinct(self) -> bool {
        string_texts(self.items@).no_duplicates()
    }

    /// Creates the empty set.
    pub fn new() -> (r: TextSet)
        ensures
            r@ == Set::<Seq<char>>::empty(),
    {
        let items: Vec<String> = Vec::new();
        assert(string_texts(items@).to_set() =~= Set::<Seq<char>>::empty());
        TextSet { items }
    }

    /// Returns whether `text` is in the set.
    pub fn contains(&self, text: &str) -> (r: bool)
        ensures
            r == self@.contains(text@),
    {
        contains_string(self.items.as_slice(), text)
    }

    /// Returns the number of texts in the set.
    pub fn len(&self) -> (r: usize)
        ensures
            self@.finite(),
            r == self@.len(),
    {
        proof {
            use_type_invariant(self);
            string_texts(self.items@).unique_seq_to_set();
        }
        self.items.len()
    }

    /// Returns the texts of the set, each once.
    pub fn items(&self) -> (r: &[String])
        ensures
            string_texts(r@).to_set() == self@,
            string_texts(r@).no_duplicates(),
    {
        proof {
            use_type_invariant(self);
        }
        self.items.as_slice()
    }

    /// Adds a text, if it is not in the set already.
    pub fn insert(self, text: String) -> (r: TextSet)
        ensures
            r@ == self@.insert(text@),
    {
        proof {
            use_type_invariant(&self);
        }
        if self.contains(text.as_str()) {
            assert(self@.insert(text@) =~= self@);
            return self;
        }
        let mut items = self.items;
        let ghost before = string_texts(items@);
        items.push(text);
        assert(string_texts(items@) =~= before.push(text@));
        assert(!before.contains(text@));
        proof {
            let after = before.push(text@);
            assert(after.no_duplicates()) by {
                assert forall|i: int, j: int|
                    0 <= i < after.len() && 0 <= j < after.len() && i != j implies after[i]
                    != after[j] by {
                    if i == before.len() {
                        assert(before.contains(before[j]));
                    } else if j == before.len() {
                        assert(before.contains(before[i]));
                    }
                }
            }
            assert(after.to_set() =~= before.to_set().insert(text@)) by {
                assert forall|x: Seq<char>| after.to_set().contains(x)
                    == before.to_set().insert(text@).contains(x) by {
                    if after.contains(x) {
                        let k = choose|k: int| 0 <= k < after.len() && after[k] == x;
                        if k < before.len() {
                            assert(before[k] == x);
                        }
                    }
                    if before.contains(x) {
                        let k = choose|k: int| 0 <= k < before.len() && before[k] == x;
                        assert(after[k] == x);
                    }
                    assert(after[before.len() as int] == text@);
                }
            }
        }
        TextSet { items }
    }

    /// Returns whether both sets hold the same texts.
    pub fn same(&self, other: &TextSet) -> (r: bool)
        ensures
            r == (self@ == other@),
    {
        proof {
            use_type_invariant(self);
            use_type_invariant(other);
            string_texts(self.items@).unique_seq_to_set();
            string_texts(other.items@).unique_seq_to_set();
        }
        if self.items.len() != other.items.len() {
            return false;
        }
        let mut i: usize = 0;
        while i < self.items.len()
            invariant
                i <= self.items@.len(),
                forall|j: int| 0 <= j < i ==> other@.contains(#[trigger] self.items@[j]@),
            decreases self.items@.len() - i,
        {
            if !other.contains(self.items[i].as_str()) {
                assert(string_texts(self.items@)[i as int] == self.items@[i as int]@);
                assert(self@.contains(self.items@[i as int]@));
                return false;
            }
            i = i + 1;
        }
        proof {
            assert forall|x: Seq<char>| self@.contains(x) implies other@.contains(x) by {
                let k = choose|k: int|
                    0 <= k < string_texts(self.items@).len() && string_texts(self.items@)[k] == x;
                assert(self.items@[k]@ == x);
            }
            assert(self@.subset_of(other@));
            vstd::set_lib::lemma_subset_equality(self@, other@);
        }
        true
    }
}

} // verus!
