//! String-keyed association list, the store behind the session's variable
//! bindings, function table, identity cache and canister metadata.
//!
//! Later insertions shadow earlier ones, so the abstraction is a map where
//! the last write wins; lookups scan from the newest entry backwards.

use vstd::prelude::*;

verus! {

pub struct Dict<V> {
    pub entries: Vec<(String, V)>,
}

impl<V> View for Dict<V> {
    type V = Map<Seq<char>, V>;

    open spec fn view(&self) -> Map<Seq<char>, V> {
        Dict::<V>::map_of(self.entries@)
    }
}

impl<V> Dict<V> {
    pub open spec fn map_of(s: Seq<(String, V)>) -> Map<Seq<char>, V>
        decreases s.len(),
    {
        if s.len() == 0 {
            Map::empty()
        } else {
            Dict::<V>::map_of(s.drop_last()).insert(s.last().0@, s.last().1)
        }
    }

    pub fn new() -> (r: Dict<V>)
        ensures
            r@ == Map::<Seq<char>, V>::empty(),
    {
        Dict { entries: Vec::new() }
    }

    pub fn insert(&mut self, k: String, v: V)
        ensures
            final(self)@ == old(self)@.insert(k@, v),
    {
        let ghost s0 = self.entries@;
        self.entries.push((k, v));
        proof {
            assert(self.entries@.drop_last() =~= s0);
        }
    }

    pub fn get(&self, k: &String) -> (r: Option<&V>)
        ensures
            match r {
                Some(v) => self@.contains_key(k@) && *v == self@[k@],
                None => !self@.contains_key(k@),
            },
    {
        let mut i: usize = self.entries.len();
        proof {
            assert(self.entries@.take(i as int) =~= self.entries@);
        }
        while i > 0
            invariant
                i <= self.entries@.len(),
                self@.contains_key(k@) == Dict::<V>::map_of(
                    self.entries@.take(i as int),
                ).contains_key(k@),
                self@.contains_key(k@) ==> Dict::<V>::map_of(self.entries@.take(i as int))[k@]
                    == self@[k@],
            decreases i,
        {
            proof {
                assert(self.entries@.take(i as int).drop_last() =~= self.entries@.take(
                    i as int - 1,
                ));
                assert(self.entries@.take(i as int).last() == self.entries@[i as int - 1]);
            }
            i = i - 1;
            if self.entries[i].0 == *k {
                return Some(&self.entries[i].1);
            }
        }
        proof {
            assert(self.entries@.take(0) =~= Seq::<(String, V)>::empty());
        }
        None
    }
}

} // verus!
