use crate::ast::Ident;
use vstd::prelude::*;

verus! {

/// A set of binding keys (binding names).
pub struct IdentKeySet {
    keys: Vec<String>,
}

impl View for IdentKeySet {
    type V = Set<Seq<char>>;

    closed spec fn view(&self) -> Set<Seq<char>> {
        Set::new(|k: Seq<char>| exists|i: int| 0 <= i < self.keys@.len() && self.keys@[i]@ == k)
    }
}

impl IdentKeySet {
    pub fn new() -> (r: Self)
        ensures
            r@ == Set::<Seq<char>>::empty(),
    {
        let r = IdentKeySet { keys: Vec::new() };
        assert(r@ =~= Set::<Seq<char>>::empty());
        r
    }

    /// Whether `key` is in the set.
    pub fn contains_key(&self, key: &String) -> (r: bool)
        ensures
            r == self@.contains(key@),
    {
        let mut i: usize = 0;
        while i < self.keys.len()
            invariant
                0 <= i <= self.keys@.len(),
                forall|j: int| 0 <= j < i ==> self.keys@[j]@ != key@,
            decreases self.keys@.len() - i,
        {
            if self.keys[i] == *key {
                return true;
            }
            i = i + 1;
        }
        false
    }

    /// Whether the binding of `ident` is in the set.
    pub fn contains(&self, ident: &Ident) -> (r: bool)
        ensures
            r == self@.contains(ident.sym@),
    {
        self.contains_key(&ident.sym)
    }

    /// Adds the binding of `ident`.
    pub fn insert(&mut self, ident: &Ident)
        ensures
            final(self)@ == old(self)@.insert(ident.sym@),
    {
        let key = ident.sym.clone();
        self.keys.push(key);
        assert(final(self)@ =~= old(self)@.insert(ident.sym@)) by {
            assert(self.keys@.last()@ == ident.sym@);
            assert forall|k: Seq<char>| old(self)@.contains(k) implies self@.contains(k) by {
                let j = choose|j: int| 0 <= j < old(self).keys@.len() && old(self).keys@[j]@ == k;
                assert(self.keys@[j] == old(self).keys@[j]);
            }
            assert forall|k: Seq<char>| #[trigger] self@.contains(k) implies old(self)@.insert(ident.sym@).contains(k) by {
                let j = choose|j: int| 0 <= j < self.keys@.len() && self.keys@[j]@ == k;
                if j < old(self).keys@.len() {
                    assert(old(self).keys@[j] == self.keys@[j]);
                }
            }
        }
    }
}

} // verus!
