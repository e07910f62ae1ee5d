//! The declarative binding tables: action names to binding lists, grouped
//! into named action sets.

use vstd::prelude::*;
use vstd::string::StringExecFns;

use crate::assoc::assoc_map;
use crate::assoc::distinct_keys;
use crate::assoc::lemma_assoc_contains;
use crate::assoc::lemma_assoc_index;
use crate::assoc::lemma_assoc_remove;

mod binding;

pub use binding::Axis1dBinding;
pub use binding::Axis2dBinding;
pub use binding::Axis3dBinding;
pub use binding::Binding;

verus! {

/// The name table of an action list table, with names and lists abstracted
/// to their sequences.
pub(crate) open spec fn name_list_view(entries: Seq<(String, Vec<Binding>)>) -> Seq<
    (Seq<char>, Seq<Binding>),
> {
    entries.map_values(|p: (String, Vec<Binding>)| (p.0@, p.1@))
}

/// The map denoted by an action list table.
pub(crate) open spec fn list_table_map(entries: Seq<(String, Vec<Binding>)>) -> Map<
    Seq<char>,
    Seq<Binding>,
> {
    assoc_map(name_list_view(entries))
}

/// The name table of a set table, with names and sets abstracted.
pub(crate) open spec fn set_table_view(entries: Seq<(String, ActionSetBindings)>) -> Seq<
    (Seq<char>, Map<Seq<char>, Seq<Binding>>),
> {
    entries.map_values(|p: (String, ActionSetBindings)| (p.0@, p.1@))
}

/// The map denoted by a set table.
pub(crate) open spec fn set_table_map(entries: Seq<(String, ActionSetBindings)>) -> Map<
    Seq<char>,
    Map<Seq<char>, Seq<Binding>>,
> {
    assoc_map(set_table_view(entries))
}

/// The full name of an action: the set name, a slash, the action name.
pub open spec fn join_name_spec(set: Seq<char>, action: Seq<char>) -> Seq<char> {
    set + seq!['/'] + action
}

/// Whether `k` begins with the set name `s` followed by a slash.
pub open spec fn splits_as(k: Seq<char>, s: Seq<char>) -> bool {
    k.len() >= s.len() + 1 && k.take(s.len() as int) == s && k[s.len() as int] == '/'
}

/// The action part of a full name `k` that begins with set name `s`.
pub open spec fn rest_of(k: Seq<char>, s: Seq<char>) -> Seq<char> {
    k.skip(s.len() as int + 1)
}

/// Whether a name contains no slash.
pub open spec fn slash_free(s: Seq<char>) -> bool {
    forall|i: int| 0 <= i < s.len() ==> s[i] != '/'
}

/// Whether every set name of a binding table is slash free. Slash free set
/// names make full names unambiguous.
pub open spec fn sets_slash_free(b: Map<Seq<char>, Map<Seq<char>, Seq<Binding>>>) -> bool {
    forall|s| #[trigger] b.contains_key(s) ==> slash_free(s)
}

/// Whether every cached entry comes from some set and action of the
/// binding table, with exactly that action's binding list.
pub open spec fn cache_sound(
    c: Map<Seq<char>, Seq<Binding>>,
    b: Map<Seq<char>, Map<Seq<char>, Seq<Binding>>>,
) -> bool {
    forall|k|
        #[trigger] c.contains_key(k) ==> exists|s|
            #[trigger] b.contains_key(s) && splits_as(k, s) && b[s].contains_key(rest_of(k, s))
                && c[k] == b[s][rest_of(k, s)]
}

/// Whether every set and action of the binding table is cached under its
/// full name with exactly its binding list.
pub open spec fn cache_complete(
    c: Map<Seq<char>, Seq<Binding>>,
    b: Map<Seq<char>, Map<Seq<char>, Seq<Binding>>>,
) -> bool {
    forall|s, a|
        b.contains_key(s) && #[trigger] b[s].contains_key(a) ==> c.contains_key(
            join_name_spec(s, a),
        ) && c[join_name_spec(s, a)] == b[s][a]
}

/// Whether a flattened cache reflects a binding table: every cached entry
/// comes from some set and action of the table, and, when set names are
/// slash free (so full names are unambiguous), every set and action of the
/// table is cached under its full name with exactly its binding list.
pub open spec fn cache_reflects(
    c: Map<Seq<char>, Seq<Binding>>,
    b: Map<Seq<char>, Map<Seq<char>, Seq<Binding>>>,
) -> bool {
    cache_sound(c, b) && (sets_slash_free(b) ==> cache_complete(c, b))
}

/// How merging a binding table `upd` into `base` combines them: sets only
/// in one side are kept, sets in both are merged action by action with
/// `upd` winning.
pub open spec fn merge_sets_spec(
    base: Map<Seq<char>, Map<Seq<char>, Seq<Binding>>>,
    upd: Map<Seq<char>, Map<Seq<char>, Seq<Binding>>>,
) -> Map<Seq<char>, Map<Seq<char>, Seq<Binding>>> {
    Map::new(
        |s| base.contains_key(s) || upd.contains_key(s),
        |s|
            if upd.contains_key(s) {
                if base.contains_key(s) {
                    base[s].union_prefer_right(upd[s])
                } else {
                    upd[s]
                }
            } else {
                base[s]
            },
    )
}

/// Whether the first `up_to` sets of a set table are fully present in the
/// cache under their full names.
pub(crate) open spec fn prefix_cached(
    c: Map<Seq<char>, Seq<Binding>>,
    sets: Seq<(Seq<char>, Map<Seq<char>, Seq<Binding>>)>,
    up_to: int,
) -> bool {
    forall|j: int, a: Seq<char>|
        0 <= j < up_to && (#[trigger] sets[j].1.contains_key(a)) ==> c.contains_key(
            join_name_spec(sets[j].0, a),
        ) && c[join_name_spec(sets[j].0, a)] == sets[j].1[a]
}

/// Whether the first `up_to` actions of one set are present in the cache
/// under their full names.
pub(crate) open spec fn acts_cached(
    c: Map<Seq<char>, Seq<Binding>>,
    sname: Seq<char>,
    avs: Seq<(Seq<char>, Seq<Binding>)>,
    up_to: int,
) -> bool {
    forall|l: int|
        0 <= l < up_to ==> c.contains_key(join_name_spec(sname, (#[trigger] avs[l]).0)) && c[
            join_name_spec(sname, avs[l].0)] == avs[l].1
}

/// A full name splits back into the parts it was joined from.
pub proof fn lemma_join_splits(s: Seq<char>, a: Seq<char>)
    ensures
        splits_as(join_name_spec(s, a), s),
        rest_of(join_name_spec(s, a), s) == a,
{
    let k = join_name_spec(s, a);
    assert(k.take(s.len() as int) =~= s);
    assert(rest_of(k, s) =~= a);
}

/// A full name splits under at most one slash free set name.
pub proof fn lemma_splits_unique(k: Seq<char>, s1: Seq<char>, s2: Seq<char>)
    requires
        splits_as(k, s1),
        splits_as(k, s2),
        slash_free(s1),
        slash_free(s2),
    ensures
        s1 == s2,
{
    if s1.len() < s2.len() {
        assert(s2[s1.len() as int] == k[s1.len() as int]);
        assert(s2[s1.len() as int] == '/');
        assert(false);
    }
    if s2.len() < s1.len() {
        assert(s1[s2.len() as int] == k[s2.len() as int]);
        assert(s1[s2.len() as int] == '/');
        assert(false);
    }
    assert(s1 =~= s2);
}

/// Applying two binding tables in turn and reading through a cache that
/// reflects the merged result: an action named in the second table reads
/// its newest list only, while an action bound by the first table but
/// absent from the second table's version of its set (or whose whole set
/// the second table does not name) keeps its original list — merging
/// never deletes.
pub proof fn lemma_merge_latest_wins(
    b1: Map<Seq<char>, Map<Seq<char>, Seq<Binding>>>,
    b2: Map<Seq<char>, Map<Seq<char>, Seq<Binding>>>,
    c: Map<Seq<char>, Seq<Binding>>,
    s: Seq<char>,
    a: Seq<char>,
)
    requires
        cache_reflects(c, merge_sets_spec(b1, b2)),
        sets_slash_free(b1),
        sets_slash_free(b2),
    ensures
        b2.contains_key(s) && b2[s].contains_key(a) ==> c.contains_key(join_name_spec(s, a))
            && c[join_name_spec(s, a)] == b2[s][a],
        b1.contains_key(s) && b1[s].contains_key(a) && (!b2.contains_key(s)
            || !b2[s].contains_key(a)) ==> c.contains_key(join_name_spec(s, a)) && c[
            join_name_spec(s, a)] == b1[s][a],
{
    let m = merge_sets_spec(b1, b2);
    assert(sets_slash_free(m)) by {
        assert forall|s2| #[trigger] m.contains_key(s2) implies slash_free(s2) by {
            assert(b1.contains_key(s2) || b2.contains_key(s2));
        }
    }
    if b2.contains_key(s) && b2[s].contains_key(a) {
        assert(m.contains_key(s) && m[s].contains_key(a) && m[s][a] == b2[s][a]);
    }
    if b1.contains_key(s) && b1[s].contains_key(a) && (!b2.contains_key(s)
        || !b2[s].contains_key(a)) {
        assert(m.contains_key(s) && m[s].contains_key(a) && m[s][a] == b1[s][a]);
    }
}

/// Builds the full `"set/action"` name of an action.
pub(crate) fn join_name(set: &str, action: &str) -> (r: String)
    ensures
        r@ == join_name_spec(set@, action@),
{
    let mut r = set.to_owned();
    r.append("/");
    r.append(action);
    proof {
        reveal_strlit("/");
        assert(r@ =~= join_name_spec(set@, action@));
    }
    r
}

/// Copies a binding list.
pub(crate) fn copy_bindings(v: &Vec<Binding>) -> (r: Vec<Binding>)
    ensures
        r@ == v@,
{
    let n = v.len();
    let mut out: Vec<Binding> = Vec::new();
    let mut i: usize = 0;
    while i < n
        invariant
            n == v@.len(),
            i <= n,
            out@ == v@.take(i as int),
        decreases n - i,
    {
        out.push(v[i]);
        proof {
            assert(out@ =~= v@.take(i + 1));
        }
        i = i + 1;
    }
    proof {
        assert(v@.take(n as int) =~= v@);
    }
    out
}

/// Inserts or replaces an entry of an action list table, keeping the names
/// distinct.
pub(crate) fn list_table_insert(
    entries: &mut Vec<(String, Vec<Binding>)>,
    name: String,
    value: Vec<Binding>,
)
    requires
        distinct_keys(name_list_view(old(entries)@)),
    ensures
        distinct_keys(name_list_view(final(entries)@)),
        list_table_map(final(entries)@) == list_table_map(old(entries)@).insert(name@, value@),
{
    let n = entries.len();
    let mut i: usize = 0;
    while i < n
        invariant
            n == entries@.len(),
            i <= n,
            entries@ == old(entries)@,
            distinct_keys(name_list_view(entries@)),
            forall|j: int| 0 <= j < i ==> (#[trigger] name_list_view(entries@)[j]).0 != name@,
        decreases n - i,
    {
        let ghost m0 = name_list_view(entries@);
        let hit = entries[i].0 == name;
        proof {
            assert(name_list_view(entries@)[i as int].0 == entries@[i as int].0@);
        }
        if hit {
            proof {
                lemma_assoc_remove(m0, i as int);
            }
            entries.remove(i);
            entries.push((name, value));
            proof {
                let removed = name_list_view(old(entries)@.remove(i as int));
                assert(removed =~= m0.remove(i as int));
                assert(forall|j: int|
                    0 <= j < removed.len() ==> (#[trigger] removed[j]).0 != name@) by {
                    if exists|j: int| 0 <= j < removed.len() && (#[trigger] removed[j]).0 == name@ {
                        let j = choose|j: int|
                            0 <= j < removed.len() && (#[trigger] removed[j]).0 == name@;
                        let j0 = if j < i as int {
                            j
                        } else {
                            j + 1
                        };
                        assert(m0[j0].0 == name@);
                        assert(m0[i as int].0 == name@);
                    }
                }
                assert(name_list_view(entries@) =~= removed.push((name@, value@)));
                assert(name_list_view(entries@).drop_last() =~= removed);
                assert(assoc_map(name_list_view(entries@)) == assoc_map(removed).insert(
                    name@,
                    value@,
                ));
                assert(assoc_map(m0).remove(name@).insert(name@, value@) =~= assoc_map(m0).insert(
                    name@,
                    value@,
                ));
            }
            return ;
        }
        i = i + 1;
    }
    let ghost m0 = name_list_view(entries@);
    proof {
        lemma_assoc_contains(m0, name@);
    }
    entries.push((name, value));
    proof {
        assert(name_list_view(entries@) =~= m0.push((name@, value@)));
        assert(name_list_view(entries@).drop_last() =~= m0);
    }
}

/// Inserts or replaces one entry of a set table, keeping the names
/// distinct.
fn set_table_insert(
    entries: &mut Vec<(String, ActionSetBindings)>,
    name: String,
    value: ActionSetBindings,
)
    requires
        distinct_keys(set_table_view(old(entries)@)),
    ensures
        distinct_keys(set_table_view(final(entries)@)),
        set_table_map(final(entries)@) == set_table_map(old(entries)@).insert(name@, value@),
{
    let n = entries.len();
    let mut i: usize = 0;
    while i < n
        invariant
            n == entries@.len(),
            i <= n,
            entries@ == old(entries)@,
            distinct_keys(set_table_view(entries@)),
            forall|j: int| 0 <= j < i ==> (#[trigger] set_table_view(entries@)[j]).0 != name@,
        decreases n - i,
    {
        let ghost m0 = set_table_view(entries@);
        let hit = entries[i].0 == name;
        proof {
            assert(set_table_view(entries@)[i as int].0 == entries@[i as int].0@);
        }
        if hit {
            proof {
                lemma_assoc_remove(m0, i as int);
            }
            let ghost pre = entries@;
            entries.remove(i);
            entries.push((name, value));
            proof {
                let removed = set_table_view(pre.remove(i as int));
                assert(removed =~= m0.remove(i as int));
                assert(forall|j: int|
                    0 <= j < removed.len() ==> (#[trigger] removed[j]).0 != name@) by {
                    if exists|j: int| 0 <= j < removed.len() && (#[trigger] removed[j]).0
                        == name@ {
                        let j = choose|j: int|
                            0 <= j < removed.len() && (#[trigger] removed[j]).0 == name@;
                        let j0 = if j < i as int {
                            j
                        } else {
                            j + 1
                        };
                        assert(m0[j0].0 == name@);
                        assert(m0[i as int].0 == name@);
                    }
                }
                assert(set_table_view(entries@) =~~= removed.push((name@, value@)));
                assert(set_table_view(entries@).drop_last() =~~= removed);
                assert(assoc_map(set_table_view(entries@)) == assoc_map(removed).insert(
                    name@,
                    value@,
                ));
                assert(assoc_map(m0).remove(name@).insert(name@, value@) =~~= assoc_map(m0).insert(
                    name@,
                    value@,
                ));
            }
            return ;
        }
        i = i + 1;
    }
    let ghost m0 = set_table_view(entries@);
    proof {
        lemma_assoc_contains(m0, name@);
    }
    entries.push((name, value));
    proof {
        assert(set_table_view(entries@) =~~= m0.push((name@, value@)));
        assert(set_table_view(entries@).drop_last() =~~= m0);
    }
}

/// Merges one set into a set table: a new name is inserted whole, an
/// existing one is merged action by action with `aset` winning.
fn merge_set_entries(
    entries: &mut Vec<(String, ActionSetBindings)>,
    name: String,
    aset: ActionSetBindings,
)
    requires
        distinct_keys(set_table_view(old(entries)@)),
    ensures
        distinct_keys(set_table_view(final(entries)@)),
        set_table_map(final(entries)@) == (if set_table_map(old(entries)@).contains_key(name@) {
            set_table_map(old(entries)@).insert(
                name@,
                set_table_map(old(entries)@)[name@].union_prefer_right(aset@),
            )
        } else {
            set_table_map(old(entries)@).insert(name@, aset@)
        }),
{
    let n = entries.len();
    let mut i: usize = 0;
    while i < n
        invariant
            n == entries@.len(),
            i <= n,
            entries@ == old(entries)@,
            distinct_keys(set_table_view(entries@)),
            forall|j: int| 0 <= j < i ==> (#[trigger] set_table_view(entries@)[j]).0 != name@,
        decreases n - i,
    {
        let ghost m0 = set_table_view(entries@);
        let hit = entries[i].0 == name;
        proof {
            assert(set_table_view(entries@)[i as int].0 == entries@[i as int].0@);
        }
        if hit {
            proof {
                lemma_assoc_remove(m0, i as int);
                lemma_assoc_index(m0, i as int);
            }
            let ghost pre = entries@;
            let mut pair = entries.remove(i);
            pair.1.merge(aset);
            entries.push(pair);
            proof {
                let removed = set_table_view(pre.remove(i as int));
                let merged = assoc_map(m0)[name@].union_prefer_right(aset@);
                assert(removed =~~= m0.remove(i as int));
                assert(forall|j: int|
                    0 <= j < removed.len() ==> (#[trigger] removed[j]).0 != name@) by {
                    if exists|j: int| 0 <= j < removed.len() && (#[trigger] removed[j]).0
                        == name@ {
                        let j = choose|j: int|
                            0 <= j < removed.len() && (#[trigger] removed[j]).0 == name@;
                        let j0 = if j < i as int {
                            j
                        } else {
                            j + 1
                        };
                        assert(m0[j0].0 == name@);
                        assert(m0[i as int].0 == name@);
                    }
                }
                assert(m0[i as int].1 == pre[i as int].1@);
                assert(assoc_map(m0)[name@] == pre[i as int].1@);
                assert(set_table_view(entries@) =~~= removed.push((name@, merged)));
                assert(set_table_view(entries@).drop_last() =~~= removed);
                assert(assoc_map(set_table_view(entries@)) == assoc_map(removed).insert(
                    name@,
                    merged,
                ));
                assert(assoc_map(m0).remove(name@).insert(name@, merged) =~~= assoc_map(
                    m0,
                ).insert(name@, merged));
                assert forall|a: int, b: int|
                    0 <= a < b < set_table_view(entries@).len() implies (
                    #[trigger] set_table_view(entries@)[a]).0 != (#[trigger] set_table_view(
                    entries@,
                )[b]).0 by {
                    let stv = set_table_view(entries@);
                    assert(stv[a] == removed[a]);
                    if b == stv.len() - 1 {
                        assert(removed[a].0 != name@);
                    } else {
                        assert(stv[b] == removed[b]);
                        assert(removed[a].0 != removed[b].0);
                    }
                }
            }
            return ;
        }
        i = i + 1;
    }
    let ghost m0 = set_table_view(entries@);
    proof {
        lemma_assoc_contains(m0, name@);
    }
    entries.push((name, aset));
    proof {
        assert(set_table_view(entries@) =~~= m0.push((name@, aset@)));
        assert(set_table_view(entries@).drop_last() =~~= m0);
    }
}

/// Maps action names to the binding lists that drive them, within one
/// action set.
#[derive(Debug)]
pub struct ActionSetBindings {
    actions: Vec<(String, Vec<Binding>)>,
}

impl View for ActionSetBindings {
    type V = Map<Seq<char>, Seq<Binding>>;

    closed spec fn view(&self) -> Map<Seq<char>, Seq<Binding>> {
        list_table_map(self.actions@)
    }
}

impl ActionSetBindings {
    /// The table never holds two lists under one name.
    #[verifier::type_invariant]
    spec fn wf(self) -> bool {
        distinct_keys(name_list_view(self.actions@))
    }

    /// Creates an empty action table.
    pub fn new() -> (r: Self)
        ensures
            r@ == Map::<Seq<char>, Seq<Binding>>::empty(),
    {
        let r = ActionSetBindings { actions: Vec::new() };
        proof {
            assert(name_list_view(r.actions@) =~= Seq::<(Seq<char>, Seq<Binding>)>::empty());
            assert(r@ =~= Map::<Seq<char>, Seq<Binding>>::empty());
        }
        r
    }

    /// The binding list registered under `name`, if any.
    #[verifier::loop_isolation(false)]
    pub fn get(&self, name: &str) -> (r: Option<&Vec<Binding>>)
        ensures
            match r {
                Some(v) => self@.contains_key(name@) && v@ == self@[name@],
                None => !self@.contains_key(name@),
            },
    {
        proof {
            use_type_invariant(self);
        }
        let key: String = name.to_owned();
        let n = self.actions.len();
        let mut i: usize = 0;
        while i < n
            invariant
                i <= n,
                forall|j: int|
                    0 <= j < i ==> (#[trigger] name_list_view(self.actions@)[j]).0 != name@,
            decreases n - i,
        {
            let pair = &self.actions[i];
            proof {
                assert(name_list_view(self.actions@)[i as int].0 == self.actions@[i as int].0@);
            }
            if pair.0 == key {
                proof {
                    lemma_assoc_index(name_list_view(self.actions@), i as int);
                }
                return Some(&pair.1);
            }
            i = i + 1;
        }
        proof {
            lemma_assoc_contains(name_list_view(self.actions@), name@);
        }
        None
    }

    /// Registers `value` as the binding list of `name`, replacing any
    /// earlier list whole.
    pub fn insert(&mut self, name: &str, value: Vec<Binding>)
        ensures
            final(self)@ == old(self)@.insert(name@, value@),
    {
        proof {
            use_type_invariant(&*self);
        }
        let key: String = name.to_owned();
        let mut entries: Vec<(String, Vec<Binding>)> = Vec::new();
        core::mem::swap(&mut entries, &mut self.actions);
        list_table_insert(&mut entries, key, value);
        self.actions = entries;
    }

    /// Merges another table into this one: any action named in `other`
    /// fully replaces that action's list here; actions absent from `other`
    /// are untouched.
    pub fn merge(&mut self, other: ActionSetBindings)
        ensures
            final(self)@ == old(self)@.union_prefer_right(other@),
    {
        proof {
            use_type_invariant(&other);
        }
        let ghost gother = other@;
        let mut other = other;
        let mut src: Vec<(String, Vec<Binding>)> = Vec::new();
        core::mem::swap(&mut src, &mut other.actions);
        proof {
            assert(assoc_map(name_list_view(src@)) == gother);
        }
        loop
            invariant
                distinct_keys(name_list_view(src@)),
                self@.union_prefer_right(assoc_map(name_list_view(src@))) == old(
                    self,
                )@.union_prefer_right(gother),
            ensures
                src@.len() == 0,
            decreases src@.len(),
        {
            let ghost pre_src = src@;
            let popped = src.pop();
            match popped {
                None => {
                    break ;
                },
                Some(pair) => {
                    proof {
                        assert(src@ =~= pre_src.drop_last());
                        assert(name_list_view(src@) =~= name_list_view(pre_src).drop_last());
                        lemma_assoc_contains(name_list_view(src@), pair.0@);
                        assert(forall|j: int|
                            0 <= j < name_list_view(src@).len() ==> (#[trigger] name_list_view(
                                src@,
                            )[j]).0 != pair.0@) by {
                            assert(forall|j: int|
                                0 <= j < name_list_view(src@).len() ==> name_list_view(src@)[j]
                                    == name_list_view(pre_src)[j]);
                        }
                        assert(!assoc_map(name_list_view(src@)).contains_key(pair.0@));
                    }
                    let ghost pre_self = self@;
                    self.insert(pair.0.as_str(), pair.1);
                    proof {
                        assert(self@.union_prefer_right(assoc_map(name_list_view(src@)))
                            =~= pre_self.union_prefer_right(assoc_map(name_list_view(pre_src))));
                    }
                },
            }
        }
        proof {
            assert(name_list_view(src@) =~= Seq::<(Seq<char>, Seq<Binding>)>::empty());
            assert(assoc_map(name_list_view(src@)) =~= Map::<Seq<char>, Seq<Binding>>::empty());
            assert(self@.union_prefer_right(Map::<Seq<char>, Seq<Binding>>::empty()) =~= self@);
        }
    }
}

/// Defines how inputs should be mapped to actions, as named action sets.
#[derive(Debug)]
pub struct Bindings {
    action_sets: Vec<(String, ActionSetBindings)>,
}

impl View for Bindings {
    type V = Map<Seq<char>, Map<Seq<char>, Seq<Binding>>>;

    closed spec fn view(&self) -> Map<Seq<char>, Map<Seq<char>, Seq<Binding>>> {
        set_table_map(self.action_sets@)
    }
}

impl Bindings {
    /// The table never holds two sets under one name.
    #[verifier::type_invariant]
    spec fn wf(self) -> bool {
        distinct_keys(set_table_view(self.action_sets@))
    }

    /// Creates an empty binding table.
    pub fn new() -> (r: Self)
        ensures
            r@ == Map::<Seq<char>, Map<Seq<char>, Seq<Binding>>>::empty(),
    {
        let r = Bindings { action_sets: Vec::new() };
        proof {
            assert(set_table_view(r.action_sets@) =~= Seq::<
                (Seq<char>, Map<Seq<char>, Seq<Binding>>),
            >::empty());
            assert(r@ =~= Map::<Seq<char>, Map<Seq<char>, Seq<Binding>>>::empty());
        }
        r
    }

    /// The action set registered under `name`, if any.
    #[verifier::loop_isolation(false)]
    pub fn get(&self, name: &str) -> (r: Option<&ActionSetBindings>)
        ensures
            match r {
                Some(v) => self@.contains_key(name@) && v@ == self@[name@],
                None => !self@.contains_key(name@),
            },
    {
        proof {
            use_type_invariant(self);
        }
        let key: String = name.to_owned();
        let n = self.action_sets.len();
        let mut i: usize = 0;
        while i < n
            invariant
                i <= n,
                forall|j: int|
                    0 <= j < i ==> (#[trigger] set_table_view(self.action_sets@)[j]).0 != name@,
            decreases n - i,
        {
            let pair = &self.action_sets[i];
            proof {
                assert(set_table_view(self.action_sets@)[i as int].0 == self.action_sets@[i as int].0@);
            }
            if pair.0 == key {
                proof {
                    lemma_assoc_index(set_table_view(self.action_sets@), i as int);
                }
                return Some(&pair.1);
            }
            i = i + 1;
        }
        proof {
            lemma_assoc_contains(set_table_view(self.action_sets@), name@);
        }
        None
    }

    /// Registers `value` as the action set of `name`, replacing any earlier
    /// set whole.
    pub fn insert(&mut self, name: &str, value: ActionSetBindings)
        ensures
            final(self)@ == old(self)@.insert(name@, value@),
    {
        proof {
            use_type_invariant(&*self);
        }
        let key: String = name.to_owned();
        let mut entries: Vec<(String, ActionSetBindings)> = Vec::new();
        core::mem::swap(&mut entries, &mut self.action_sets);
        set_table_insert(&mut entries, key, value);
        self.action_sets = entries;
    }

    /// Merges another binding table into this one, overwriting any actions
    /// defined in `other`.
    ///
    /// Useful for applying user-specified bindings over the top of default
    /// bindings: sets absent from `other` are untouched, and within a set
    /// only the actions named in `other` are replaced.
    pub fn merge(&mut self, other: Bindings)
        ensures
            final(self)@ == merge_sets_spec(old(self)@, other@),
    {
        proof {
            use_type_invariant(&*self);
            use_type_invariant(&other);
        }
        let ghost gother = other@;
        let ghost gself = self@;
        let mut other = other;
        let mut src: Vec<(String, ActionSetBindings)> = Vec::new();
        core::mem::swap(&mut src, &mut other.action_sets);
        let mut entries: Vec<(String, ActionSetBindings)> = Vec::new();
        core::mem::swap(&mut entries, &mut self.action_sets);
        proof {
            assert(assoc_map(set_table_view(src@)) == gother);
            assert(set_table_map(entries@) == gself);
        }
        loop
            invariant
                distinct_keys(set_table_view(src@)),
                distinct_keys(set_table_view(entries@)),
                merge_sets_spec(
                    set_table_map(entries@),
                    assoc_map(set_table_view(src@)),
                ) == merge_sets_spec(gself, gother),
            ensures
                src@.len() == 0,
                merge_sets_spec(
                    set_table_map(entries@),
                    assoc_map(set_table_view(src@)),
                ) == merge_sets_spec(gself, gother),
            decreases src@.len(),
        {
            let ghost pre_src = src@;
            let popped = src.pop();
            match popped {
                None => {
                    break ;
                },
                Some(pair) => {
                    proof {
                        assert(src@ =~= pre_src.drop_last());
                        assert(set_table_view(src@) =~= set_table_view(pre_src).drop_last());
                        lemma_assoc_contains(set_table_view(src@), pair.0@);
                        assert(forall|j: int|
                            0 <= j < set_table_view(src@).len() ==> (#[trigger] set_table_view(
                                src@,
                            )[j]).0 != pair.0@) by {
                            assert(forall|j: int|
                                0 <= j < set_table_view(src@).len() ==> set_table_view(src@)[j]
                                    == set_table_view(pre_src)[j]);
                        }
                        assert(!assoc_map(set_table_view(src@)).contains_key(pair.0@));
                    }
                    let ghost pre_map = set_table_map(entries@);
                    merge_set_entries(&mut entries, pair.0, pair.1);
                    proof {
                        assert(merge_sets_spec(
                            set_table_map(entries@),
                            assoc_map(set_table_view(src@)),
                        ) =~~= merge_sets_spec(pre_map, assoc_map(set_table_view(pre_src))));
                    }
                },
            }
        }
        proof {
            assert(set_table_view(src@) =~= Seq::<
                (Seq<char>, Map<Seq<char>, Seq<Binding>>),
            >::empty());
            assert(assoc_map(set_table_view(src@)) =~= Map::<
                Seq<char>,
                Map<Seq<char>, Seq<Binding>>,
            >::empty());
            assert(merge_sets_spec(
                set_table_map(entries@),
                Map::<Seq<char>, Map<Seq<char>, Seq<Binding>>>::empty(),
            ) =~~= set_table_map(entries@));
        }
        self.action_sets = entries;
    }

    /// Flattens the table into `"set/action"` entries for the lookup cache.
    #[verifier::loop_isolation(false)]
    pub(crate) fn flattened(&self) -> (r: Vec<(String, Vec<Binding>)>)
        ensures
            distinct_keys(name_list_view(r@)),
            cache_reflects(list_table_map(r@), self@),
    {
        proof {
            use_type_invariant(self);
        }
        let ghost sets = set_table_view(self.action_sets@);
        let ghost b = self@;
        let mut out: Vec<(String, Vec<Binding>)> = Vec::new();
        proof {
            assert(name_list_view(out@) =~= Seq::<(Seq<char>, Seq<Binding>)>::empty());
            assert(list_table_map(out@) =~= Map::<Seq<char>, Seq<Binding>>::empty());
        }
        let n = self.action_sets.len();
        let mut i: usize = 0;
        while i < n
            invariant
                i <= n,
                distinct_keys(name_list_view(out@)),
                cache_sound(list_table_map(out@), b),
                sets_slash_free(b) ==> prefix_cached(list_table_map(out@), sets, i as int),
            decreases n - i,
        {
            let set_entry = &self.action_sets[i];
            proof {
                use_type_invariant(&set_entry.1);
                assert(sets[i as int] == (set_entry.0@, set_entry.1@));
            }
            let ghost avs = name_list_view(set_entry.1.actions@);
            let ghost sname = set_entry.0@;
            let m = set_entry.1.actions.len();
            let mut j: usize = 0;
            while j < m
                invariant
                    j <= m,
                    distinct_keys(name_list_view(out@)),
                    cache_sound(list_table_map(out@), b),
                    sets_slash_free(b) ==> prefix_cached(list_table_map(out@), sets, i as int),
                    sets_slash_free(b) ==> acts_cached(list_table_map(out@), sname, avs, j as int),
                decreases m - j,
            {
                let act_entry = &set_entry.1.actions[j];
                let full = join_name(set_entry.0.as_str(), act_entry.0.as_str());
                let copied = copy_bindings(&act_entry.1);
                let ghost pre_map = list_table_map(out@);
                let ghost k0 = join_name_spec(sname, avs[j as int].0);
                proof {
                    assert(avs[j as int] == (act_entry.0@, act_entry.1@));
                    assert(full@ == k0);
                    lemma_join_splits(sname, avs[j as int].0);
                    lemma_assoc_index(sets, i as int);
                    lemma_assoc_index(avs, j as int);
                }
                list_table_insert(&mut out, full, copied);
                proof {
                    let c = list_table_map(out@);
                    assert(c == pre_map.insert(k0, avs[j as int].1));
                    assert forall|k| #[trigger] c.contains_key(k) implies exists|s|
                        #[trigger] b.contains_key(s) && splits_as(k, s) && b[s].contains_key(
                        rest_of(k, s),
                    ) && c[k] == b[s][rest_of(k, s)] by {
                        if k == k0 {
                            assert(b.contains_key(sname) && splits_as(k0, sname)
                                && b[sname].contains_key(rest_of(k0, sname)) && c[k0]
                                == b[sname][rest_of(k0, sname)]);
                        } else {
                            assert(pre_map.contains_key(k) && c[k] == pre_map[k]);
                        }
                    }
                    if sets_slash_free(b) {
                        assert forall|jj: int, a: Seq<char>|
                            0 <= jj < i as int && (#[trigger] sets[jj].1.contains_key(
                                a,
                            )) implies c.contains_key(join_name_spec(sets[jj].0, a)) && c[
                            join_name_spec(sets[jj].0, a)] == sets[jj].1[a] by {
                            let kj = join_name_spec(sets[jj].0, a);
                            lemma_assoc_index(sets, jj);
                            lemma_join_splits(sets[jj].0, a);
                            if kj == k0 {
                                lemma_splits_unique(k0, sets[jj].0, sname);
                                assert(sets[jj].0 == sets[i as int].0);
                                assert(false);
                            }
                        }
                        assert forall|l: int| 0 <= l < j as int + 1 implies list_table_map(
                            out@,
                        ).contains_key(join_name_spec(sname, (#[trigger] avs[l]).0))
                            && list_table_map(out@)[join_name_spec(sname, avs[l].0)]
                            == avs[l].1 by {
                            if l < j as int {
                                let kl = join_name_spec(sname, avs[l].0);
                                if kl == k0 {
                                    lemma_join_splits(sname, avs[l].0);
                                    assert(avs[l].0 == avs[j as int].0);
                                    assert(false);
                                }
                            }
                        }
                    }
                }
                j = j + 1;
            }
            proof {
                if sets_slash_free(b) {
                    assert forall|jj: int, a: Seq<char>|
                        0 <= jj < i as int + 1 && (#[trigger] sets[jj].1.contains_key(
                            a,
                        )) implies list_table_map(out@).contains_key(join_name_spec(sets[jj].0, a))
                        && list_table_map(out@)[join_name_spec(sets[jj].0, a)] == sets[jj].1[a] by {
                        if jj == i as int {
                            lemma_assoc_contains(avs, a);
                            let l = choose|l: int|
                                0 <= l < avs.len() && (#[trigger] avs[l]).0 == a;
                            lemma_assoc_index(avs, l);
                        }
                    }
                }
            }
            i = i + 1;
        }
        proof {
            if sets_slash_free(b) {
                assert forall|s, a|
                    b.contains_key(s) && (#[trigger] b[s].contains_key(a)) implies list_table_map(
                    out@,
                ).contains_key(join_name_spec(s, a)) && list_table_map(out@)[join_name_spec(s, a)]
                    == b[s][a] by {
                    lemma_assoc_contains(sets, s);
                    let jj = choose|jj: int|
                        0 <= jj < sets.len() && (#[trigger] sets[jj]).0 == s;
                    lemma_assoc_index(sets, jj);
                }
            }
        }
        out
    }

    /// Empties the table.
    pub fn clear(&mut self)
        ensures
            final(self)@ == Map::<Seq<char>, Map<Seq<char>, Seq<Binding>>>::empty(),
    {
        proof {
            use_type_invariant(&*self);
        }
        let mut entries: Vec<(String, ActionSetBindings)> = Vec::new();
        core::mem::swap(&mut entries, &mut self.action_sets);
        proof {
            assert(set_table_view(self.action_sets@) =~= Seq::<
                (Seq<char>, Map<Seq<char>, Seq<Binding>>),
            >::empty());
            assert(self@ =~= Map::<Seq<char>, Map<Seq<char>, Seq<Binding>>>::empty());
        }
    }
}

} // verus!
