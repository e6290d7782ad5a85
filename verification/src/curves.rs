//! The ordered keyframe store, and the interface that every curve built on it
//! offers.
use crate::ordered::{
    exclusive_entries, first_within, get_mut, last_within, lemma_first_within,
    lemma_last_within, lemma_none_within, lists_range, range_all, range_all_mut, range_first,
    range_first_mut, range_last, range_last_mut, restricted, retain_within, shared_entries,
};
use crate::GameTick;
use std::collections::BTreeMap;
use std::ops::Bound;
use vstd::prelude::*;

verus! {

/// The earliest key of `m` at or after `tick`.
pub open spec fn next_key<T>(m: Map<u64, T>, tick: u64) -> Option<u64> {
    first_within(m, Bound::Included(tick), Bound::Unbounded)
}

/// The earliest key of `m` strictly after `tick`.
pub open spec fn next_key_after<T>(m: Map<u64, T>, tick: u64) -> Option<u64> {
    first_within(m, Bound::Excluded(tick), Bound::Unbounded)
}

/// The latest key of `m` at or before `tick`.
pub open spec fn prev_key<T>(m: Map<u64, T>, tick: u64) -> Option<u64> {
    last_within(m, Bound::Unbounded, Bound::Included(tick))
}

/// The latest key of `m` strictly before `tick`.
pub open spec fn prev_key_before<T>(m: Map<u64, T>, tick: u64) -> Option<u64> {
    last_within(m, Bound::Unbounded, Bound::Excluded(tick))
}

/// `m` without its keyframes at or after `tick`.
pub open spec fn without_future<T>(m: Map<u64, T>, tick: u64) -> Map<u64, T> {
    restricted(m, Bound::Unbounded, Bound::Excluded(tick))
}

/// `m` without its keyframes at or before `tick`.
pub open spec fn without_past<T>(m: Map<u64, T>, tick: u64) -> Map<u64, T> {
    restricted(m, Bound::Excluded(tick), Bound::Unbounded)
}

/// A tick that holds a keyframe is the latest key on or before itself, and
/// the earliest on or after itself.
pub proof fn lemma_key_at_keyframe<T>(m: Map<u64, T>, tick: u64)
    ensures
        m.contains_key(tick) ==> prev_key(m, tick) == Some(tick) && next_key(m, tick) == Some(tick),
{
    if m.contains_key(tick) {
        lemma_last_within(m, Bound::Unbounded, Bound::Included(tick), tick);
        lemma_first_within(m, Bound::Included(tick), Bound::Unbounded, tick);
    }
}

/// The generic keyframe store: at most one keyframe per tick, kept in the
/// order of the ticks. It backs each of the curve types, and a curve type of
/// one's own can be built on it in the same way.
///
/// Its view is the map from each occupied tick to the keyframe stored there.
#[derive(Debug)]
pub struct Curve<V> {
    map: BTreeMap<GameTick, V>,
}

impl<T> View for Curve<T> {
    type V = Map<u64, T>;

    closed spec fn view(&self) -> Map<u64, T> {
        self.map@
    }
}

impl<T> Curve<T> {
    /// An empty store.
    pub fn new() -> (curve: Curve<T>)
        ensures
            curve@ == Map::<u64, T>::empty(),
    {
        Curve { map: BTreeMap::new() }
    }

    /// A store of the keyframes in `map`.
    pub fn from_map(map: BTreeMap<GameTick, T>) -> (curve: Curve<T>)
        ensures
            curve@ == map@,
    {
        Curve { map }
    }

    /// The keyframes, as the ordered map that held them.
    pub fn into_map(self) -> (map: BTreeMap<GameTick, T>)
        ensures
            map@ == self@,
    {
        self.map
    }

    /// Stores `keyframe` at `tick`, in place of a keyframe that was there.
    pub fn insert_keyframe(&mut self, tick: GameTick, keyframe: T)
        ensures
            final(self)@ == old(self)@.insert(tick, keyframe),
    {
        self.map.insert(tick, keyframe);
    }

    /// Removes the keyframe at `tick` if there is one.
    pub fn remove_keyframe(&mut self, tick: GameTick)
        ensures
            final(self)@ == old(self)@.remove(tick),
    {
        self.map.remove(&tick);
    }

    /// The keyframe at `tick` if there is one.
    pub fn get_keyframe(&self, tick: GameTick) -> (keyframe: Option<&T>)
        ensures
            match keyframe {
                Some(value) => self@.contains_key(tick) && *value == self@[tick],
                None => !self@.contains_key(tick),
            },
    {
        self.map.get(&tick)
    }

    /// Mutable version of [`Self::get_keyframe`]: what is written through the
    /// reference becomes the keyframe at `tick`.
    pub fn get_keyframe_mut(&mut self, tick: GameTick) -> (keyframe: Option<&mut T>)
        ensures
            match keyframe {
                Some(value) => {
                    &&& old(self)@.contains_key(tick)
                    &&& *value == old(self)@[tick]
                    &&& final(self)@ == old(self)@.insert(tick, *final(value))
                },
                None => !old(self)@.contains_key(tick) && final(self)@ == old(self)@,
            },
    {
        get_mut(&mut self.map, tick)
    }

    /// All keyframes that come on or ***after*** `tick`, earliest first.
    pub fn iter_future_curves(&self, tick: GameTick) -> (frames: Vec<(&GameTick, &T)>)
        ensures
            lists_range(shared_entries(frames@), self@, Bound::Included(tick), Bound::Unbounded),
    {
        range_all(&self.map, Bound::Included(tick), Bound::Unbounded)
    }

    /// Mutable version of [`Self::iter_future_curves`]. The store keeps its
    /// ticks; a keyframe before `tick` stays as it is, and a listed one ends
    /// as what was last written through its reference.
    pub fn iter_future_curves_mut(&mut self, tick: GameTick) -> (frames: Vec<(&GameTick, &mut T)>)
        ensures
            lists_range(
                exclusive_entries(frames@),
                old(self)@,
                Bound::Included(tick),
                Bound::Unbounded,
            ),
            final(self)@.dom() == old(self)@.dom(),
            forall|k: u64| #[trigger]
                old(self)@.contains_key(k) && k < tick ==> final(self)@[k] == old(self)@[k],
            forall|i: int|
                0 <= i < frames.len() ==> final(self)@[*(#[trigger] frames[i]).0]
                    == *final(frames[i].1),
    {
        range_all_mut(&mut self.map, Bound::Included(tick), Bound::Unbounded)
    }

    /// The earliest keyframe on or after `tick`, if there is one.
    pub fn next_keyframe(&self, tick: GameTick) -> (frame: Option<(&GameTick, &T)>)
        ensures
            match frame {
                Some((k, v)) => next_key(self@, tick) == Some(*k) && *v == self@[*k],
                None => next_key(self@, tick) is None,
            },
    {
        let frame = range_first(&self.map, Bound::Included(tick), Bound::Unbounded);
        proof {
            match frame {
                Some((k, _)) => lemma_first_within(
                    self@,
                    Bound::Included(tick),
                    Bound::Unbounded,
                    *k,
                ),
                None => lemma_none_within(self@, Bound::Included(tick), Bound::Unbounded),
            }
        }
        frame
    }

    /// The earliest keyframe strictly after `tick`, if there is one.
    pub fn next_keyframe_after(&self, tick: GameTick) -> (frame: Option<(&GameTick, &T)>)
        ensures
            match frame {
                Some((k, v)) => next_key_after(self@, tick) == Some(*k) && *v == self@[*k],
                None => next_key_after(self@, tick) is None,
            },
    {
        let frame = range_first(&self.map, Bound::Excluded(tick), Bound::Unbounded);
        proof {
            match frame {
                Some((k, _)) => lemma_first_within(
                    self@,
                    Bound::Excluded(tick),
                    Bound::Unbounded,
                    *k,
                ),
                None => lemma_none_within(self@, Bound::Excluded(tick), Bound::Unbounded),
            }
        }
        frame
    }

    /// Mutable version of [`Self::next_keyframe`]: what is written through
    /// the reference becomes the keyframe at the tick found.
    pub fn next_keyframe_mut(&mut self, tick: GameTick) -> (frame: Option<(&GameTick, &mut T)>)
        ensures
            match frame {
                Some((k, v)) => {
                    &&& next_key(old(self)@, tick) == Some(*k)
                    &&& *v == old(self)@[*k]
                    &&& final(self)@ == old(self)@.insert(*k, *final(v))
                },
                None => next_key(old(self)@, tick) is None && final(self)@ == old(self)@,
            },
    {
        let ghost before = self@;
        let frame = range_first_mut(&mut self.map, Bound::Included(tick), Bound::Unbounded);
        proof {
            match frame {
                Some((k, _)) => lemma_first_within(
                    before,
                    Bound::Included(tick),
                    Bound::Unbounded,
                    *k,
                ),
                None => lemma_none_within(before, Bound::Included(tick), Bound::Unbounded),
            }
        }
        frame
    }

    /// All keyframes that come on or ***before*** `tick`, earliest first.
    pub fn iter_prev_curves(&self, tick: GameTick) -> (frames: Vec<(&GameTick, &T)>)
        ensures
            lists_range(shared_entries(frames@), self@, Bound::Unbounded, Bound::Included(tick)),
    {
        range_all(&self.map, Bound::Unbounded, Bound::Included(tick))
    }

    /// Mutable version of [`Self::iter_prev_curves`]. The store keeps its
    /// ticks; a keyframe after `tick` stays as it is, and a listed one ends
    /// as what was last written through its reference.
    pub fn iter_prev_curves_mut(&mut self, tick: GameTick) -> (frames: Vec<(&GameTick, &mut T)>)
        ensures
            lists_range(
                exclusive_entries(frames@),
                old(self)@,
                Bound::Unbounded,
                Bound::Included(tick),
            ),
            final(self)@.dom() == old(self)@.dom(),
            forall|k: u64| #[trigger]
                old(self)@.contains_key(k) && k > tick ==> final(self)@[k] == old(self)@[k],
            forall|i: int|
                0 <= i < frames.len() ==> final(self)@[*(#[trigger] frames[i]).0]
                    == *final(frames[i].1),
    {
        range_all_mut(&mut self.map, Bound::Unbounded, Bound::Included(tick))
    }

    /// The latest keyframe on or before `tick`, if there is one.
    pub fn prev_keyframe(&self, tick: GameTick) -> (frame: Option<(&GameTick, &T)>)
        ensures
            match frame {
                Some((k, v)) => prev_key(self@, tick) == Some(*k) && *v == self@[*k],
                None => prev_key(self@, tick) is None,
            },
    {
        let frame = range_last(&self.map, Bound::Unbounded, Bound::Included(tick));
        proof {
            match frame {
                Some((k, _)) => lemma_last_within(
                    self@,
                    Bound::Unbounded,
                    Bound::Included(tick),
                    *k,
                ),
                None => lemma_none_within(self@, Bound::Unbounded, Bound::Included(tick)),
            }
        }
        frame
    }

    /// The latest keyframe strictly before `tick`, if there is one.
    pub fn prev_keyframe_before(&self, tick: GameTick) -> (frame: Option<(&GameTick, &T)>)
        ensures
            match frame {
                Some((k, v)) => prev_key_before(self@, tick) == Some(*k) && *v == self@[*k],
                None => prev_key_before(self@, tick) is None,
            },
    {
        let frame = range_last(&self.map, Bound::Unbounded, Bound::Excluded(tick));
        proof {
            match frame {
                Some((k, _)) => lemma_last_within(
                    self@,
                    Bound::Unbounded,
                    Bound::Excluded(tick),
                    *k,
                ),
                None => lemma_none_within(self@, Bound::Unbounded, Bound::Excluded(tick)),
            }
        }
        frame
    }

    /// Mutable version of [`Self::prev_keyframe`]: what is written through
    /// the reference becomes the keyframe at the tick found.
    pub fn prev_keyframe_mut(&mut self, tick: GameTick) -> (frame: Option<(&GameTick, &mut T)>)
        ensures
            match frame {
                Some((k, v)) => {
                    &&& prev_key(old(self)@, tick) == Some(*k)
                    &&& *v == old(self)@[*k]
                    &&& final(self)@ == old(self)@.insert(*k, *final(v))
                },
                None => prev_key(old(self)@, tick) is None && final(self)@ == old(self)@,
            },
    {
        let ghost before = self@;
        let frame = range_last_mut(&mut self.map, Bound::Unbounded, Bound::Included(tick));
        proof {
            match frame {
                Some((k, _)) => lemma_last_within(
                    before,
                    Bound::Unbounded,
                    Bound::Included(tick),
                    *k,
                ),
                None => lemma_none_within(before, Bound::Unbounded, Bound::Included(tick)),
            }
        }
        frame
    }

    /// Removes every keyframe on or after `tick`.
    pub fn remove_future_keyframes(&mut self, tick: &GameTick)
        ensures
            final(self)@ == without_future(old(self)@, *tick),
    {
        retain_within(&mut self.map, Bound::Unbounded, Bound::Excluded(*tick));
    }

    /// Removes every keyframe on or before `tick`.
    pub fn remove_past_keyframes(&mut self, tick: &GameTick)
        ensures
            final(self)@ == without_past(old(self)@, *tick),
    {
        retain_within(&mut self.map, Bound::Excluded(*tick), Bound::Unbounded);
    }
}

} // verus!

verus! {

/// Core trait used to interact with all curves. The view of a curve is the
/// map from each occupied tick to the keyframe stored there; the curve types
/// differ only in [`Self::get_state`].
pub trait CurveTrait<T: Clone>: View<V = Map<u64, T>> + Sized {
    /// Creates a new, empty curve.
    fn new() -> (curve: Self)
        ensures
            curve@ == Map::<u64, T>::empty(),
    ;

    /// Stores `keyframe` at `tick`, in place of a keyframe that was there.
    fn insert_keyframe(&mut self, tick: GameTick, keyframe: T)
        ensures
            final(self)@ == old(self)@.insert(tick, keyframe),
    ;

    /// Removes the keyframe at `tick` if there is one.
    fn remove_keyframe(&mut self, tick: GameTick)
        ensures
            final(self)@ == old(self)@.remove(tick),
    ;

    /// The keyframe at `tick` if there is one.
    fn get_keyframe(&self, tick: GameTick) -> (keyframe: Option<&T>)
        ensures
            match keyframe {
                Some(value) => self@.contains_key(tick) && *value == self@[tick],
                None => !self@.contains_key(tick),
            },
    ;

    /// Mutable version of [`Self::get_keyframe`]: what is written through the
    /// reference becomes the keyframe at `tick`.
    fn get_keyframe_mut(&mut self, tick: GameTick) -> (keyframe: Option<&mut T>)
        ensures
            match keyframe {
                Some(value) => {
                    &&& old(self)@.contains_key(tick)
                    &&& *value == old(self)@[tick]
                    &&& final(self)@ == old(self)@.insert(tick, *final(value))
                },
                None => !old(self)@.contains_key(tick) && final(self)@ == old(self)@,
            },
    ;

    /// All keyframes that come on or ***after*** `tick`, earliest first.
    fn iter_future_curves(&self, tick: GameTick) -> (frames: Vec<(&GameTick, &T)>)
        ensures
            lists_range(shared_entries(frames@), self@, Bound::Included(tick), Bound::Unbounded),
    ;

    /// Mutable version of [`Self::iter_future_curves`]. The curve keeps its
    /// ticks; a keyframe before `tick` stays as it is, and a listed one ends
    /// as what was last written through its reference.
    fn iter_future_curves_mut(&mut self, tick: GameTick) -> (frames: Vec<(&GameTick, &mut T)>)
        ensures
            lists_range(
                exclusive_entries(frames@),
                old(self)@,
                Bound::Included(tick),
                Bound::Unbounded,
            ),
            final(self)@.dom() == old(self)@.dom(),
            forall|k: u64| #[trigger]
                old(self)@.contains_key(k) && k < tick ==> final(self)@[k] == old(self)@[k],
            forall|i: int|
                0 <= i < frames.len() ==> final(self)@[*(#[trigger] frames[i]).0]
                    == *final(frames[i].1),
    ;

    /// The earliest keyframe on or after `tick`, if there is one.
    fn next_keyframe(&self, tick: GameTick) -> (frame: Option<(&GameTick, &T)>)
        ensures
            match frame {
                Some((k, v)) => next_key(self@, tick) == Some(*k) && *v == self@[*k],
                None => next_key(self@, tick) is None,
            },
    ;

    /// The earliest keyframe strictly after `tick`, if there is one.
    fn next_keyframe_after(&self, tick: GameTick) -> (frame: Option<(&GameTick, &T)>)
        ensures
            match frame {
                Some((k, v)) => next_key_after(self@, tick) == Some(*k) && *v == self@[*k],
                None => next_key_after(self@, tick) is None,
            },
    ;

    /// Mutable version of [`Self::next_keyframe`]: what is written through
    /// the reference becomes the keyframe at the tick found.
    fn next_keyframe_mut(&mut self, tick: GameTick) -> (frame: Option<(&GameTick, &mut T)>)
        ensures
            match frame {
                Some((k, v)) => {
                    &&& next_key(old(self)@, tick) == Some(*k)
                    &&& *v == old(self)@[*k]
                    &&& final(self)@ == old(self)@.insert(*k, *final(v))
                },
                None => next_key(old(self)@, tick) is None && final(self)@ == old(self)@,
            },
    ;

    /// All keyframes that come on or ***before*** `tick`, earliest first.
    fn iter_prev_curves(&self, tick: GameTick) -> (frames: Vec<(&GameTick, &T)>)
        ensures
            lists_range(shared_entries(frames@), self@, Bound::Unbounded, Bound::Included(tick)),
    ;

    /// Mutable version of [`Self::iter_prev_curves`]. The curve keeps its
    /// ticks; a keyframe after `tick` stays as it is, and a listed one ends
    /// as what was last written through its reference.
    fn iter_prev_curves_mut(&mut self, tick: GameTick) -> (frames: Vec<(&GameTick, &mut T)>)
        ensures
            lists_range(
                exclusive_entries(frames@),
                old(self)@,
                Bound::Unbounded,
                Bound::Included(tick),
            ),
            final(self)@.dom() == old(self)@.dom(),
            forall|k: u64| #[trigger]
                old(self)@.contains_key(k) && k > tick ==> final(self)@[k] == old(self)@[k],
            forall|i: int|
                0 <= i < frames.len() ==> final(self)@[*(#[trigger] frames[i]).0]
                    == *final(frames[i].1),
    ;

    /// The latest keyframe on or before `tick`, if there is one.
    fn prev_keyframe(&self, tick: GameTick) -> (frame: Option<(&GameTick, &T)>)
        ensures
            match frame {
                Some((k, v)) => prev_key(self@, tick) == Some(*k) && *v == self@[*k],
                None => prev_key(self@, tick) is None,
            },
    ;

    /// The latest keyframe strictly before `tick`, if there is one.
    fn prev_keyframe_before(&self, tick: GameTick) -> (frame: Option<(&GameTick, &T)>)
        ensures
            match frame {
                Some((k, v)) => prev_key_before(self@, tick) == Some(*k) && *v == self@[*k],
                None => prev_key_before(self@, tick) is None,
            },
    ;

    /// Mutable version of [`Self::prev_keyframe`]: what is written through
    /// the reference becomes the keyframe at the tick found.
    fn prev_keyframe_mut(&mut self, tick: GameTick) -> (frame: Option<(&GameTick, &mut T)>)
        ensures
            match frame {
                Some((k, v)) => {
                    &&& prev_key(old(self)@, tick) == Some(*k)
                    &&& *v == old(self)@[*k]
                    &&& final(self)@ == old(self)@.insert(*k, *final(v))
                },
                None => prev_key(old(self)@, tick) is None && final(self)@ == old(self)@,
            },
    ;

    /// The state of the curve at `tick`. At a tick that holds a keyframe it
    /// is a clone of that keyframe, and where no keyframe lies on or before
    /// `tick` there is none. What it is elsewhere depends on the type of
    /// curve: see each type's own `get_state`.
    fn get_state(&self, tick: GameTick) -> (state: Option<T>)
        ensures
            self@.contains_key(tick) ==> state is Some && cloned(self@[tick], state->0),
            prev_key(self@, tick) is None ==> state is None,
    ;

    /// Removes every keyframe on or after `tick`.
    fn remove_future_keyframes(&mut self, tick: &GameTick)
        ensures
            final(self)@ == without_future(old(self)@, *tick),
    ;

    /// Removes every keyframe on or before `tick`.
    fn remove_past_keyframes(&mut self, tick: &GameTick)
        ensures
            final(self)@ == without_past(old(self)@, *tick),
    ;
}

} // verus!
