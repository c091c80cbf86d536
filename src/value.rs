//! A replicated value: a state machine holding one value, changed only by
//! its `set` command, which reports each change to subscribers.
use vstd::prelude::*;
use crate::ident::{ident_of, xxhash64_of_str};

verus! {

/// The change notifications that setting `vs` in turn on a value holding
/// `init` emits: one `(old, new)` pair per set, each `old` being the value
/// that the previous set left.
pub open spec fn notifications<T>(init: T, vs: Seq<T>) -> Seq<(T, T)>
    decreases vs.len(),
{
    if vs.len() == 0 {
        Seq::empty()
    } else {
        notifications(init, vs.drop_last()).push((last_value(init, vs.drop_last()), vs.last()))
    }
}

/// The value held after setting `vs` in turn on a value holding `init`.
pub open spec fn last_value<T>(init: T, vs: Seq<T>) -> T {
    if vs.len() == 0 {
        init
    } else {
        vs.last()
    }
}

/// A replicated value with its state machine id and whether a change
/// callback is attached.
pub struct Value<T> {
    val: T,
    id: u64,
    callback: bool,
}

impl<T: Clone> Value<T> {
    /// The value held.
    pub closed spec fn current(&self) -> T {
        self.val
    }

    /// The state machine id.
    pub closed spec fn sm_id(&self) -> u64 {
        self.id
    }

    /// Whether changes are reported.
    pub closed spec fn has_callback(&self) -> bool {
        self.callback
    }

    /// A value under state machine id `id`, with no callback yet.
    pub fn new(id: u64, val: T) -> (r: Value<T>)
        ensures
            r.current() == val,
            r.sm_id() == id,
            !r.has_callback(),
    {
        Value { val, id, callback: false }
    }

    /// A value whose id is the hash of `name`.
    pub fn new_by_name(name: &String, val: T) -> (r: Value<T>)
        ensures
            r.current() == val,
            r.sm_id() == ident_of(name@),
            !r.has_callback(),
    {
        Value::new(xxhash64_of_str(name.as_str()), val)
    }

    /// Attaches the change callback, once the value is registered with the
    /// replication layer.
    pub fn init_callback(&mut self)
        ensures
            final(self).current() == old(self).current(),
            final(self).sm_id() == old(self).sm_id(),
            final(self).has_callback(),
    {
        self.callback = true;
    }

    /// The `set` command: commits `v`. With a callback attached it returns
    /// the one `(old, new)` notification to deliver to subscribers, `new`
    /// being a clone of `v`; without one it returns `None`.
    pub fn set(&mut self, v: T) -> (r: Option<(T, T)>)
        ensures
            final(self).current() == v,
            final(self).sm_id() == old(self).sm_id(),
            final(self).has_callback() == old(self).has_callback(),
            match r {
                Some(n) => old(self).has_callback() && n.0 == old(self).current() && cloned(v, n.1),
                None => !old(self).has_callback(),
            },
    {
        if self.callback {
            let new_val = v.clone();
            let mut prior = v;
            std::mem::swap(&mut self.val, &mut prior);
            Some((prior, new_val))
        } else {
            self.val = v;
            None
        }
    }

    /// Replaces the value wholesale with one decoded from a snapshot. This
    /// is recovery, not a command: no notification is emitted.
    pub fn recover(&mut self, v: T)
        ensures
            final(self).current() == v,
            final(self).sm_id() == old(self).sm_id(),
            final(self).has_callback() == old(self).has_callback(),
    {
        self.val = v;
    }

    /// The `get` query: a clone of the current value.
    pub fn get(&self) -> (r: T)
        ensures
            cloned(self.current(), r),
    {
        self.val.clone()
    }

    /// The state machine id the replication layer routes commands by.
    pub fn id(&self) -> (r: u64)
        ensures
            r == self.sm_id(),
    {
        self.id
    }
}

/// Every set emits exactly one notification, in the order of the sets; the
/// notification of a set reports the value the previous set committed as
/// `old` and its own value as `new`, and the value read after the last
/// notification is the `new` it reported.
pub proof fn lemma_notifications_follow_commits<T>(init: T, vs: Seq<T>)
    ensures
        notifications(init, vs).len() == vs.len(),
        forall|i: int|
            0 <= i < vs.len() ==> #[trigger] notifications(init, vs)[i] == (
                last_value(init, vs.subrange(0, i)),
                vs[i],
            ),
        vs.len() > 0 ==> notifications(init, vs).last().1 == last_value(init, vs),
    decreases vs.len(),
{
    if vs.len() > 0 {
        let prefix = vs.drop_last();
        lemma_notifications_follow_commits(init, prefix);
        assert forall|i: int| 0 <= i < vs.len() implies #[trigger] notifications(init, vs)[i] == (
            last_value(init, vs.subrange(0, i)),
            vs[i],
        ) by {
            if i < vs.len() - 1 {
                assert(vs.subrange(0, i) =~= prefix.subrange(0, i));
                assert(notifications(init, vs)[i] == notifications(init, prefix)[i]);
            } else {
                assert(vs.subrange(0, i) =~= prefix);
            }
        }
    }
}

} // verus!
