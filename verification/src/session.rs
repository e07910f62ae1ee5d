//! The concurrency-safe facade: a shared, lock-protected store behind
//! which event producers and action consumers interleave.
//!
//! The input state, the binding table and the lookup cache each sit behind
//! their own reader-writer lock. The lock-protected types carry their
//! invariants themselves, so the lock predicates accept any value; what an
//! action computes from one consistent snapshot is pinned down by
//! [`resolve_spec`] and proved in [`resolve_action`].

use vstd::prelude::*;
use vstd::rwlock::RwLock;
use vstd::rwlock::RwLockPredicate;

use std::sync::Arc;

use crate::actions::ActionKind;
use crate::bindings::Binding;
use crate::bindings::Bindings;
use crate::bindings::cache_reflects;
use crate::bindings::join_name;
use crate::bindings::join_name_spec;
use crate::event::Event;
use crate::math::Vec2;
use crate::state::InputModel;
use crate::state::InputState;

mod bindings_cache;

pub use bindings_cache::BindingsCache;

verus! {

/// A lock predicate that accepts every value: the protected types carry
/// their own invariants.
pub struct AnyValue<T> {
    marker: core::marker::PhantomData<T>,
}

/// The [`AnyValue`] predicate value.
pub closed spec fn any_value<T>() -> AnyValue<T> {
    AnyValue { marker: core::marker::PhantomData }
}

impl<T> RwLockPredicate<T> for AnyValue<T> {
    open spec fn inv(self, v: T) -> bool {
        true
    }
}

/// Clones a shared handle.
///
/// Relies on std's `Arc::clone`: the clone is a handle to the same
/// allocation, so its abstract value equals the original's.
#[verifier::external_body]
fn arc_clone<T>(arc: &Arc<T>) -> (r: Arc<T>)
    ensures
        r == *arc,
{
    Arc::clone(arc)
}

struct SessionInner {
    input: RwLock<InputState, AnyValue<InputState>>,
    bindings: RwLock<Bindings, AnyValue<Bindings>>,
    bindings_cache: RwLock<BindingsCache, AnyValue<BindingsCache>>,
}

/// The main entrypoint of the engine. [`ActionSet`]s are created from a
/// `Session`, which in turn create [`Action`]s; all of them share the
/// session's lock-protected store.
pub struct Session {
    inner: Arc<SessionInner>,
}

impl Session {
    /// Creates a new session with no state and no bindings.
    pub fn new() -> Self {
        let inner = Arc::new(
            SessionInner {
                input: RwLock::new(InputState::new(), Ghost(any_value())),
                bindings: RwLock::new(Bindings::new(), Ghost(any_value())),
                bindings_cache: RwLock::new(BindingsCache::new(), Ghost(any_value())),
            },
        );
        Session { inner }
    }

    /// Creates a new action set with the given name, initially enabled.
    #[must_use]
    pub fn create_action_set(&self, name: &str) -> (r: ActionSet)
        ensures
            r.spec_name() == name@,
    {
        ActionSet {
            session: arc_clone(&self.inner),
            enabled: Arc::new(RwLock::new(true, Ghost(any_value()))),
            name: name.to_owned(),
        }
    }

    /// Clears all bindings in the session: the binding table and the
    /// lookup cache are emptied together, under both writer locks.
    pub fn clear_bindings(&self) {
        let (mut bindings, bindings_handle) = self.inner.bindings.acquire_write();
        let (old_cache, cache_handle) = self.inner.bindings_cache.acquire_write();
        let mut cache = old_cache;
        bindings.clear();
        cache.clear();
        bindings_handle.release_write(bindings);
        cache_handle.release_write(cache);
    }

    /// Applies the given bindings to the session, merging them into the
    /// existing table, then rebuilds the lookup cache wholesale within the
    /// same critical section, so no reader ever observes a cache built
    /// from a partially merged table.
    pub fn use_bindings(&self, new: Bindings) {
        let (mut bindings, bindings_handle) = self.inner.bindings.acquire_write();
        let (_old_cache, cache_handle) = self.inner.bindings_cache.acquire_write();
        bindings.merge(new);
        let flat = bindings.flattened();
        let cache = BindingsCache::from_entries(flat);
        proof {
            assert(cache_reflects(cache@, bindings@));
        }
        bindings_handle.release_write(bindings);
        cache_handle.release_write(cache);
    }

    /// Sets the offset of the game viewport, used when reporting the
    /// cursor's position.
    pub fn set_viewport_position(&mut self, position: Vec2) {
        let (mut input, handle) = self.inner.input.acquire_write();
        input.set_viewport_position(position);
        handle.release_write(input);
    }

    /// Processes an event and updates the session's input state by
    /// [`crate::state::step_event`].
    pub fn handle_event(&mut self, event: Event) {
        let (mut input, handle) = self.inner.input.acquire_write();
        input.handle_event(event);
        handle.release_write(input);
    }

    /// Indicates that a game update has just run: resets edge-triggered
    /// inputs and relative motion, by [`crate::state::step_end`].
    pub fn end_update(&mut self) {
        let (mut input, handle) = self.inner.input.acquire_write();
        input.end_update();
        handle.release_write(input);
    }

    /// A snapshot of the current input state.
    pub fn state(&mut self) -> InputState {
        let read_handle = self.inner.input.acquire_read();
        let snapshot = read_handle.borrow().snapshot();
        read_handle.release_read();
        snapshot
    }
}

/// Defines a group of actions that a player can perform, enabled and
/// disabled as one.
///
/// Created with [`Session::create_action_set`].
pub struct ActionSet {
    session: Arc<SessionInner>,
    enabled: Arc<RwLock<bool, AnyValue<bool>>>,
    name: String,
}

impl ActionSet {
    /// The name this set was created under.
    pub closed spec fn spec_name(&self) -> Seq<char> {
        self.name@
    }

    /// Creates a new action that can be activated by the player. Its full
    /// name is this set's name, a slash, and the action's own name.
    #[must_use]
    pub fn create_action<K: ActionKind>(&self, name: &str, action: K) -> (r: Action<K>)
        ensures
            r.spec_name() == join_name_spec(self.spec_name(), name@),
    {
        let full_name = join_name(self.name.as_str(), name);
        Action {
            session: arc_clone(&self.session),
            set_enabled: arc_clone(&self.enabled),
            storage: RwLock::new(action, Ghost(any_value())),
            full_name,
        }
    }

    /// Enables or disables all actions within this action set.
    pub fn set_enabled(&self, value: bool) {
        let (_, handle) = self.enabled.acquire_write();
        handle.release_write(value);
    }

    /// Tells whether the action set is currently enabled.
    pub fn enabled(&self) -> bool {
        let handle = self.enabled.acquire_read();
        let value = *handle.borrow();
        handle.release_read();
        value
    }

    /// Returns the name of the action set given when it was created.
    pub fn name(&self) -> (r: &str)
        ensures
            r@ == self.spec_name(),
    {
        self.name.as_str()
    }
}

/// Defines something that a player can do.
///
/// Created with [`ActionSet::create_action`].
pub struct Action<K> {
    session: Arc<SessionInner>,
    set_enabled: Arc<RwLock<bool, AnyValue<bool>>>,
    storage: RwLock<K, AnyValue<K>>,
    full_name: String,
}

/// The readings an action kind takes from a binding list: the values of
/// the bindings that match the kind, in binding order.
pub open spec fn gather_spec<K: ActionKind>(kind: K, state: InputModel, bindings: Seq<Binding>) -> Seq<
    K::Output,
>
    decreases bindings.len(),
{
    if bindings.len() == 0 {
        Seq::empty()
    } else {
        let rest = gather_spec(kind, state, bindings.drop_last());
        match kind.spec_get(state, bindings.last()) {
            Some(v) => rest.push(v),
            None => rest,
        }
    }
}

/// What an action resolves to against one consistent snapshot: a disabled
/// set forces the empty binding list, otherwise the cache entry under the
/// action's full name is used, an absent entry meaning the empty list; the
/// matching readings are then combined by the kind's reduction.
pub open spec fn resolve_spec<K: ActionKind>(
    kind: K,
    state: InputModel,
    cache: Map<Seq<char>, Seq<Binding>>,
    enabled: bool,
    name: Seq<char>,
) -> K::Output {
    let bindings = if enabled && cache.contains_key(name) {
        cache[name]
    } else {
        Seq::empty()
    };
    kind.spec_reduce(gather_spec(kind, state, bindings))
}

/// Resolves one action against a snapshot of the input state and the
/// binding cache.
pub fn resolve_action<K: ActionKind>(
    kind: &mut K,
    state: &InputState,
    cache: &BindingsCache,
    enabled: bool,
    name: &str,
) -> (r: K::Output)
    ensures
        *final(kind) == *old(kind),
        r == resolve_spec(*old(kind), state@, cache@, enabled, name@),
{
    let ghost chosen = if enabled && cache@.contains_key(name@) {
        cache@[name@]
    } else {
        Seq::<Binding>::empty()
    };
    let list_opt: Option<&[Binding]> = if enabled {
        cache.get(name)
    } else {
        None
    };
    let mut outputs: Vec<K::Output> = Vec::new();
    match list_opt {
        Some(list) => {
            proof {
                assert(chosen == list@);
            }
            let n = list.len();
            let mut i: usize = 0;
            while i < n
                invariant
                    n == list@.len(),
                    i <= n,
                    chosen == list@,
                    *kind == *old(kind),
                    outputs@ == gather_spec(*old(kind), state@, chosen.take(i as int)),
                decreases n - i,
            {
                proof {
                    assert(chosen.take(i + 1).drop_last() =~= chosen.take(i as int));
                    assert(chosen.take(i + 1).last() == chosen[i as int]);
                }
                match kind.get(state, &list[i]) {
                    Some(v) => {
                        outputs.push(v);
                    },
                    None => {},
                }
                i = i + 1;
            }
            proof {
                assert(chosen.take(n as int) =~= chosen);
            }
        },
        None => {
            proof {
                assert(chosen =~= Seq::<Binding>::empty());
            }
        },
    }
    kind.reduce(outputs.as_slice())
}

/// A disabled action set forces every action in it to its kind's
/// empty-reduce identity, whatever the bindings; since [`resolve_spec`]
/// depends only on the snapshot it is given, re-enabling the set
/// immediately restores the value resolved from the same state and cache,
/// with no re-registration.
pub proof fn lemma_disabled_identity<K: ActionKind>(
    kind: K,
    state: InputModel,
    cache: Map<Seq<char>, Seq<Binding>>,
    name: Seq<char>,
)
    ensures
        resolve_spec(kind, state, cache, false, name) == kind.empty_value(),
{
    kind.reduce_empty();
}

impl<K: ActionKind> Action<K> {
    /// The full `"set/action"` name of this action.
    pub closed spec fn spec_name(&self) -> Seq<char> {
        self.full_name@
    }

    /// Gets the current state of the action: the kind's readings over the
    /// binding list cached under this action's full name, combined by the
    /// kind's reduction, as [`resolve_spec`] states; an absent entry or a
    /// disabled set yields the kind's empty-reduce identity.
    #[must_use]
    pub fn get(&self) -> K::Output {
        let input_handle = self.session.input.acquire_read();
        let cache_handle = self.session.bindings_cache.acquire_read();
        let enabled_handle = self.set_enabled.acquire_read();
        let enabled = *enabled_handle.borrow();
        enabled_handle.release_read();
        let (mut kind, storage_handle) = self.storage.acquire_write();
        let result = resolve_action(
            &mut kind,
            input_handle.borrow(),
            cache_handle.borrow(),
            enabled,
            self.full_name.as_str(),
        );
        storage_handle.release_write(kind);
        cache_handle.release_read();
        input_handle.release_read();
        result
    }

    /// Returns the full name of the action, including the action set it is
    /// part of: an action named `jump` in a set named `gameplay` is
    /// `gameplay/jump`.
    pub fn name(&self) -> (r: &str)
        ensures
            r@ == self.spec_name(),
    {
        self.full_name.as_str()
    }
}

} // verus!
