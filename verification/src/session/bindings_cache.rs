//! The flattened `"set/action"` to binding list index, rebuilt wholesale on
//! every bindings change so that per-frame lookups stay cheap.

use vstd::prelude::*;

use crate::assoc::distinct_keys;
use crate::assoc::lemma_assoc_contains;
use crate::assoc::lemma_assoc_index;
use crate::bindings::Binding;
use crate::bindings::list_table_insert;
use crate::bindings::list_table_map;
use crate::bindings::name_list_view;

verus! {

/// The flattened binding lookup table, keyed by full action names.
pub struct BindingsCache {
    bindings: Vec<(String, Vec<Binding>)>,
}

impl View for BindingsCache {
    type V = Map<Seq<char>, Seq<Binding>>;

    closed spec fn view(&self) -> Map<Seq<char>, Seq<Binding>> {
        list_table_map(self.bindings@)
    }
}

impl BindingsCache {
    /// The table never holds two lists under one name.
    #[verifier::type_invariant]
    spec fn wf(self) -> bool {
        distinct_keys(name_list_view(self.bindings@))
    }

    /// Creates an empty cache.
    pub fn new() -> (r: Self)
        ensures
            r@ == Map::<Seq<char>, Seq<Binding>>::empty(),
    {
        let r = BindingsCache { bindings: Vec::new() };
        proof {
            assert(name_list_view(r.bindings@) =~= Seq::<(Seq<char>, Seq<Binding>)>::empty());
            assert(r@ =~= Map::<Seq<char>, Seq<Binding>>::empty());
        }
        r
    }

    /// Wraps an already flattened table, as produced by a full rebuild.
    pub(crate) fn from_entries(entries: Vec<(String, Vec<Binding>)>) -> (r: Self)
        requires
            distinct_keys(name_list_view(entries@)),
        ensures
            r@ == list_table_map(entries@),
    {
        BindingsCache { bindings: entries }
    }

    /// Empties the cache.
    pub fn clear(&mut self)
        ensures
            final(self)@ == Map::<Seq<char>, Seq<Binding>>::empty(),
    {
        proof {
            use_type_invariant(&*self);
        }
        let mut entries: Vec<(String, Vec<Binding>)> = Vec::new();
        core::mem::swap(&mut entries, &mut self.bindings);
        proof {
            assert(name_list_view(self.bindings@) =~= Seq::<(Seq<char>, Seq<Binding>)>::empty());
            assert(self@ =~= Map::<Seq<char>, Seq<Binding>>::empty());
        }
    }

    /// The binding list cached under a full action name, if any.
    #[verifier::loop_isolation(false)]
    pub fn get(&self, action_name: &str) -> (r: Option<&[Binding]>)
        ensures
            match r {
                Some(v) => self@.contains_key(action_name@) && v@ == self@[action_name@],
                None => !self@.contains_key(action_name@),
            },
    {
        proof {
            use_type_invariant(self);
        }
        let key: String = action_name.to_owned();
        let n = self.bindings.len();
        let mut i: usize = 0;
        while i < n
            invariant
                i <= n,
                forall|j: int|
                    0 <= j < i ==> (#[trigger] name_list_view(self.bindings@)[j]).0
                        != action_name@,
            decreases n - i,
        {
            let pair = &self.bindings[i];
            proof {
                assert(name_list_view(self.bindings@)[i as int].0 == self.bindings@[i as int].0@);
            }
            if pair.0 == key {
                proof {
                    lemma_assoc_index(name_list_view(self.bindings@), i as int);
                }
                return Some(pair.1.as_slice());
            }
            i = i + 1;
        }
        proof {
            lemma_assoc_contains(name_list_view(self.bindings@), action_name@);
        }
        None
    }

    /// Caches `bindings` under a full action name, replacing any earlier
    /// list whole.
    pub fn insert(&mut self, action_name: String, bindings: Vec<Binding>)
        ensures
            final(self)@ == old(self)@.insert(action_name@, bindings@),
    {
        proof {
            use_type_invariant(&*self);
        }
        let mut entries: Vec<(String, Vec<Binding>)> = Vec::new();
        core::mem::swap(&mut entries, &mut self.bindings);
        list_table_insert(&mut entries, action_name, bindings);
        self.bindings = entries;
    }
}

} // verus!
