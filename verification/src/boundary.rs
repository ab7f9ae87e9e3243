//! The boundary layer a foreign caller talks to.
//!
//! A [`Boundary`] owns every live counter and is the sole authority that
//! turns an opaque [`CounterHandle`] back into a counter. Each entry point
//! validates its arguments before touching any state, maps the outcome to a
//! [`RustFfiDemoStatus`], and records a human-readable message for every
//! failure in the last-error slot, which successes never touch.
//!
//! The shell around the library translates raw pointers into the plain
//! values these methods take: a possibly-null pointer argument arrives as a
//! `bool` saying whether it was null (plus its length where it had one), and
//! whatever must be written back through an out-parameter is returned.
//!
//! Handles here are integer tokens, never dereferenced by the caller, and a
//! released handle is remembered as dead: releasing or using a stale handle
//! is detected and rejected rather than left undefined.

use crate::counter::sat_add_i64;
use crate::counter::Counter;
use crate::label::check_label_bytes;
use crate::label::label_wf;
use crate::label::terminated_copy;
use crate::status::RustFfiDemoStatus;
use vstd::prelude::*;

verus! {

/// The opaque token a foreign caller holds in place of a counter reference.
/// The zero token is the null sentinel and never designates a counter.
#[derive(Copy, Clone, Debug, PartialEq, Eq, Structural)]
pub struct CounterHandle {
    id: usize,
}

impl CounterHandle {
    /// The raw token value; zero is the null sentinel.
    pub closed spec fn spec_id(&self) -> usize {
        self.id
    }

    /// True of the null sentinel.
    pub open spec fn spec_is_null(&self) -> bool {
        self.spec_id() == 0
    }

    /// The null sentinel.
    pub fn null() -> (h: CounterHandle)
        ensures
            h.spec_id() == 0,
    {
        CounterHandle { id: 0 }
    }

    /// True of the null sentinel.
    pub fn is_null(&self) -> (r: bool)
        ensures
            r == self.spec_is_null(),
    {
        self.id == 0
    }

    /// Rebuilds a handle from its raw token value, as the shell does when a
    /// caller hands a pointer-sized token back across the boundary.
    pub fn from_raw(id: usize) -> (h: CounterHandle)
        ensures
            h.spec_id() == id,
    {
        CounterHandle { id }
    }

    /// The raw token value, for the shell to hand across the boundary.
    pub fn raw(&self) -> (r: usize)
        ensures
            r == self.spec_id(),
    {
        self.id
    }
}

/// The process-side state of the boundary for one execution context: the
/// registry of live counters and the last-error slot.
pub struct Boundary<CB> {
    slots: Vec<Option<Counter<CB>>>,
    last_error: Option<String>,
}

impl<CB> Boundary<CB> {
    /// The registry: slot `i` backs the handle with token `i + 1`.
    pub closed spec fn spec_slots(&self) -> Seq<Option<Counter<CB>>> {
        self.slots@
    }

    /// The recorded last-error message, if any failure happened yet.
    pub closed spec fn spec_last_error(&self) -> Option<Seq<char>> {
        match self.last_error {
            Some(m) => Some(m@),
            None => None,
        }
    }

    /// The counter a raw token designates, if it designates one.
    pub open spec fn spec_counter_at(&self, id: int) -> Option<Counter<CB>> {
        if 1 <= id <= self.spec_slots().len() {
            self.spec_slots()[id - 1]
        } else {
            None
        }
    }

    /// True when `h` designates a live counter.
    pub open spec fn is_live(&self, h: CounterHandle) -> bool {
        self.spec_counter_at(h.spec_id() as int) is Some
    }

    /// The live counter `h` designates.
    pub open spec fn spec_counter(&self, h: CounterHandle) -> Counter<CB>
        recommends
            self.is_live(h),
    {
        self.spec_counter_at(h.spec_id() as int)->Some_0
    }

    /// Every stored counter satisfies its own invariant.
    pub open spec fn wf(&self) -> bool {
        forall|i: int|
            0 <= i < self.spec_slots().len() ==> (#[trigger] self.spec_slots()[i] matches Some(c)
                ==> c.wf())
    }

    /// Both states hold exactly the same counters under the same tokens.
    pub open spec fn counters_unchanged(&self, other: &Self) -> bool {
        self.spec_slots() == other.spec_slots()
    }

    /// Every token but `h` keeps its meaning: it designates the same live
    /// counter as in `other`, or remains dead in both.
    pub open spec fn counters_unchanged_except(&self, other: &Self, h: CounterHandle) -> bool {
        forall|id: int|
            id != h.spec_id() ==> #[trigger] self.spec_counter_at(id) == other.spec_counter_at(id)
    }

    /// The last-error slot is as in `other`: the mark of a succeeding call.
    pub open spec fn error_unchanged(&self, other: &Self) -> bool {
        self.spec_last_error() == other.spec_last_error()
    }

    /// The last-error slot holds exactly `msg`, and `msg` is not empty: the
    /// mark of a failing call.
    pub open spec fn error_is(&self, msg: Seq<char>) -> bool {
        &&& self.spec_last_error() == Some(msg)
        &&& msg.len() > 0
    }

    /// The outcome of handing a token that designates no live counter to an
    /// operation that needs one: no counter is touched, a message is
    /// recorded, and the status tells the null sentinel apart from a stale
    /// token.
    pub open spec fn rejected_handle(
        &self,
        prev: &Self,
        h: CounterHandle,
        r: RustFfiDemoStatus,
    ) -> bool {
        &&& self.counters_unchanged(prev)
        &&& if h.spec_is_null() {
            r == RustFfiDemoStatus::RustffiNullArg && self.error_is("null handle"@)
        } else {
            r == RustFfiDemoStatus::RustffiInvalidArg && self.error_is("stale counter handle"@)
        }
    }

    /// A fresh boundary: no counters yet, no error recorded yet.
    pub fn new() -> (b: Boundary<CB>)
        ensures
            b.wf(),
            b.spec_slots().len() == 0,
            b.spec_last_error() is None,
    {
        Boundary { slots: Vec::new(), last_error: None }
    }

    /// Overwrites the last-error slot. Counters are untouched: errors are
    /// recorded before any mutation, never beside one.
    fn record_error(&mut self, msg: &str)
        requires
            msg@.len() > 0,
        ensures
            final(self).spec_slots() == old(self).spec_slots(),
            final(self).error_is(msg@),
    {
        self.last_error = Some(msg.to_owned());
    }

    /// The most recent error message recorded in this execution context, or
    /// absent when no call has failed yet. Valid until the next failing
    /// call.
    pub fn last_error_message(&self) -> (r: Option<&str>)
        ensures
            (match r {
                Some(m) => self.spec_last_error() == Some(m@),
                None => self.spec_last_error() is None,
            }),
    {
        match &self.last_error {
            Some(m) => Some(m.as_str()),
            None => None,
        }
    }

    /// Allocates a new counter holding `initial` and mints a fresh handle
    /// for it. `out_slot_null` says whether the caller's out-parameter slot
    /// for the handle was the null sentinel; in that case nothing is
    /// allocated and no handle is returned.
    pub fn counter_new(&mut self, initial: i64, out_slot_null: bool) -> (r: (
        RustFfiDemoStatus,
        Option<CounterHandle>,
    ))
        requires
            old(self).wf(),
        ensures
            final(self).wf(),
            out_slot_null ==> {
                &&& r.0 == RustFfiDemoStatus::RustffiNullArg
                &&& r.1 is None
                &&& final(self).counters_unchanged(old(self))
                &&& final(self).error_is("out_counter is NULL"@)
            },
            !out_slot_null && old(self).spec_slots().len() < usize::MAX ==> {
                &&& r.0 == RustFfiDemoStatus::RustffiOk
                &&& r.1 matches Some(h) && {
                    &&& !h.spec_is_null()
                    &&& !old(self).is_live(h)
                    &&& final(self).is_live(h)
                    &&& final(self).spec_counter(h).spec_value() == initial
                    &&& final(self).spec_counter(h).spec_label() is None
                    &&& final(self).spec_counter(h).spec_callback() is None
                    &&& final(self).counters_unchanged_except(old(self), h)
                    &&& final(self).spec_slots().len() == old(self).spec_slots().len() + 1
                }
                &&& final(self).error_unchanged(old(self))
            },
            !out_slot_null && old(self).spec_slots().len() == usize::MAX ==> {
                &&& r.0 == RustFfiDemoStatus::RustffiInternalError
                &&& r.1 is None
                &&& final(self).counters_unchanged(old(self))
                &&& final(self).error_is("handle space exhausted"@)
            },
    {
        if out_slot_null {
            proof {
                reveal_strlit("out_counter is NULL");
            }
            self.record_error("out_counter is NULL");
            return (RustFfiDemoStatus::RustffiNullArg, None);
        }
        if self.slots.len() == usize::MAX {
            // The registry cannot mint a fresh nonzero token; treat the
            // exhausted registry as an unexpected internal failure.
            proof {
                reveal_strlit("handle space exhausted");
            }
            self.record_error("handle space exhausted");
            return (RustFfiDemoStatus::RustffiInternalError, None);
        }
        self.slots.push(Some(Counter::new(initial)));
        let h = CounterHandle { id: self.slots.len() };
        proof {
            let olds = old(self).spec_slots();
            let news = self.spec_slots();
            assert(news.len() == olds.len() + 1);
            assert(h.spec_id() - 1 == olds.len());
            assert(news[h.spec_id() - 1] is Some);
            assert forall|i: int| 0 <= i < news.len() && i != h.spec_id() - 1 implies #[trigger] news[i]
                == olds[i] by {}
            assert forall|i: int| 0 <= i < news.len() implies (#[trigger] news[i] matches Some(c)
                ==> c.wf()) by {
                if i < olds.len() {
                    assert(olds[i] matches Some(c) ==> c.wf());
                }
            }
        }
        (RustFfiDemoStatus::RustffiOk, Some(h))
    }

    /// Releases the counter `h` designates. The null sentinel, and any token
    /// that does not designate a live counter, is a no-op: release never
    /// fails and never reports.
    pub fn counter_free(&mut self, h: CounterHandle)
        requires
            old(self).wf(),
        ensures
            final(self).wf(),
            final(self).error_unchanged(old(self)),
            !old(self).is_live(h) ==> final(self).counters_unchanged(old(self)),
            old(self).is_live(h) ==> {
                &&& !final(self).is_live(h)
                &&& final(self).counters_unchanged_except(old(self), h)
                &&& final(self).spec_slots().len() == old(self).spec_slots().len()
            },
    {
        if h.id == 0 {
            return;
        }
        let i = h.id - 1;
        if i >= self.slots.len() {
            return;
        }
        let slot = &mut self.slots[i];
        *slot = None;
        proof {
            if !old(self).is_live(h) {
                assert(self.spec_slots() =~= old(self).spec_slots());
            }
        }
    }

    /// Rejects a token that designates no live counter, recording the
    /// message its status calls for.
    fn reject_handle(&mut self, h: CounterHandle) -> (r: RustFfiDemoStatus)
        requires
            !old(self).is_live(h),
        ensures
            final(self).spec_slots() == old(self).spec_slots(),
            final(self).rejected_handle(old(self), h, r),
    {
        if h.id == 0 {
            proof {
                reveal_strlit("null handle");
            }
            self.record_error("null handle");
            RustFfiDemoStatus::RustffiNullArg
        } else {
            proof {
                reveal_strlit("stale counter handle");
            }
            self.record_error("stale counter handle");
            RustFfiDemoStatus::RustffiInvalidArg
        }
    }

    /// Adds `delta` to the counter `h` designates, saturating at the bounds
    /// of the signed 64-bit range. On success the second component carries
    /// the new value exactly when a callback is registered: the shell must
    /// invoke the callback with it before returning to the caller.
    pub fn counter_increment(&mut self, h: CounterHandle, delta: i64) -> (r: (
        RustFfiDemoStatus,
        Option<i64>,
    ))
        requires
            old(self).wf(),
        ensures
            final(self).wf(),
            !old(self).is_live(h) ==> final(self).rejected_handle(old(self), h, r.0) && r.1
                is None,
            old(self).is_live(h) ==> ({
                let c0 = old(self).spec_counter(h);
                let c1 = final(self).spec_counter(h);
                &&& r.0 == RustFfiDemoStatus::RustffiOk
                &&& final(self).is_live(h)
                &&& c1.spec_value() as int == sat_add_i64(c0.spec_value() as int, delta as int)
                &&& c1.spec_label() == c0.spec_label()
                &&& c1.spec_callback() == c0.spec_callback()
                &&& r.1 == (if c0.has_callback() {
                    Some(c1.spec_value())
                } else {
                    None::<i64>
                })
                &&& final(self).counters_unchanged_except(old(self), h)
                &&& final(self).spec_slots().len() == old(self).spec_slots().len()
                &&& final(self).error_unchanged(old(self))
            }),
    {
        if h.id == 0 || h.id - 1 >= self.slots.len() {
            let st = self.reject_handle(h);
            return (st, None);
        }
        let i = h.id - 1;
        if self.slots[i].is_none() {
            let st = self.reject_handle(h);
            return (st, None);
        }
        let slot = &mut self.slots[i];
        let notify = match slot {
            Some(c) => c.increment(delta),
            None => None,
        };
        proof {
            self.lemma_one_slot_changed(old(self), h);
        }
        (RustFfiDemoStatus::RustffiOk, notify)
    }

    /// After an update of the single slot behind live `h`, every other token
    /// keeps its meaning and the well-formedness of untouched counters
    /// carries over.
    proof fn lemma_one_slot_changed(&self, prev: &Self, h: CounterHandle)
        requires
            prev.wf(),
            prev.is_live(h),
            self.spec_slots().len() == prev.spec_slots().len(),
            forall|j: int|
                0 <= j < self.spec_slots().len() && j != h.spec_id() - 1
                    ==> #[trigger] self.spec_slots()[j] == prev.spec_slots()[j],
            (self.spec_slots()[h.spec_id() - 1] matches Some(c) ==> c.wf()),
        ensures
            self.wf(),
            self.counters_unchanged_except(prev, h),
    {
        assert forall|id: int| id != h.spec_id() implies #[trigger] self.spec_counter_at(id)
            == prev.spec_counter_at(id) by {
            if 1 <= id <= self.spec_slots().len() {
                assert(self.spec_slots()[id - 1] == prev.spec_slots()[id - 1]);
            }
        }
        assert forall|j: int| 0 <= j < self.spec_slots().len() implies (
        #[trigger] self.spec_slots()[j] matches Some(c) ==> c.wf()) by {
            if j != h.spec_id() - 1 {
                assert(prev.spec_slots()[j] matches Some(c) ==> c.wf());
            }
        }
    }

    /// Reads the current value of the counter `h` designates. `out_null`
    /// says whether the caller's out-parameter slot for the value was the
    /// null sentinel; the value to write through it is returned. No call
    /// changes any counter.
    pub fn counter_value(&mut self, h: CounterHandle, out_null: bool) -> (r: (
        RustFfiDemoStatus,
        Option<i64>,
    ))
        requires
            old(self).wf(),
        ensures
            final(self).wf(),
            final(self).counters_unchanged(old(self)),
            out_null ==> {
                &&& r.0 == RustFfiDemoStatus::RustffiNullArg
                &&& r.1 is None
                &&& final(self).error_is("out_value is NULL"@)
            },
            !out_null && !old(self).is_live(h) ==> final(self).rejected_handle(old(self), h, r.0)
                && r.1 is None,
            !out_null && old(self).is_live(h) ==> {
                &&& r.0 == RustFfiDemoStatus::RustffiOk
                &&& r.1 == Some(old(self).spec_counter(h).spec_value())
                &&& final(self).error_unchanged(old(self))
            },
    {
        if out_null {
            proof {
                reveal_strlit("out_value is NULL");
            }
            self.record_error("out_value is NULL");
            return (RustFfiDemoStatus::RustffiNullArg, None);
        }
        if h.id == 0 || h.id - 1 >= self.slots.len() {
            let st = self.reject_handle(h);
            return (st, None);
        }
        let i = h.id - 1;
        let v = match &self.slots[i] {
            Some(c) => Some(c.value()),
            None => None,
        };
        match v {
            Some(value) => (RustFfiDemoStatus::RustffiOk, Some(value)),
            None => {
                let st = self.reject_handle(h);
                (st, None)
            },
        }
    }

    /// Sets the value of the counter `h` designates back to zero. On
    /// success the second component carries zero exactly when a callback is
    /// registered, for the shell to invoke it with.
    pub fn counter_reset(&mut self, h: CounterHandle) -> (r: (RustFfiDemoStatus, Option<i64>))
        requires
            old(self).wf(),
        ensures
            final(self).wf(),
            !old(self).is_live(h) ==> final(self).rejected_handle(old(self), h, r.0) && r.1
                is None,
            old(self).is_live(h) ==> ({
                let c0 = old(self).spec_counter(h);
                let c1 = final(self).spec_counter(h);
                &&& r.0 == RustFfiDemoStatus::RustffiOk
                &&& final(self).is_live(h)
                &&& c1.spec_value() == 0
                &&& c1.spec_label() == c0.spec_label()
                &&& c1.spec_callback() == c0.spec_callback()
                &&& r.1 == (if c0.has_callback() {
                    Some(0i64)
                } else {
                    None::<i64>
                })
                &&& final(self).counters_unchanged_except(old(self), h)
                &&& final(self).spec_slots().len() == old(self).spec_slots().len()
                &&& final(self).error_unchanged(old(self))
            }),
    {
        if h.id == 0 || h.id - 1 >= self.slots.len() {
            let st = self.reject_handle(h);
            return (st, None);
        }
        let i = h.id - 1;
        if self.slots[i].is_none() {
            let st = self.reject_handle(h);
            return (st, None);
        }
        let slot = &mut self.slots[i];
        let notify = match slot {
            Some(c) => c.reset(),
            None => None,
        };
        proof {
            self.lemma_one_slot_changed(old(self), h);
        }
        (RustFfiDemoStatus::RustffiOk, notify)
    }

    /// Stores `label` as the label of the counter `h` designates, or clears
    /// the label when `label` is absent (the caller passed the null
    /// sentinel). Present bytes must be valid UTF-8 with no embedded NUL;
    /// otherwise nothing changes and the call fails.
    pub fn counter_set_label(&mut self, h: CounterHandle, label: Option<Vec<u8>>) -> (r:
        RustFfiDemoStatus)
        requires
            old(self).wf(),
        ensures
            final(self).wf(),
            !old(self).is_live(h) ==> final(self).rejected_handle(old(self), h, r),
            old(self).is_live(h) && (label matches Some(b) && !label_wf(b@)) ==> {
                &&& r == RustFfiDemoStatus::RustffiInvalidArg
                &&& final(self).counters_unchanged(old(self))
                &&& final(self).error_is("label must be valid UTF-8 without NUL"@)
            },
            old(self).is_live(h) && (label matches Some(b) ==> label_wf(b@)) ==> ({
                let c0 = old(self).spec_counter(h);
                let c1 = final(self).spec_counter(h);
                &&& r == RustFfiDemoStatus::RustffiOk
                &&& final(self).is_live(h)
                &&& c1.spec_label() == (match label {
                    Some(b) => Some(b@),
                    None => None::<Seq<u8>>,
                })
                &&& c1.spec_value() == c0.spec_value()
                &&& c1.spec_callback() == c0.spec_callback()
                &&& final(self).counters_unchanged_except(old(self), h)
                &&& final(self).spec_slots().len() == old(self).spec_slots().len()
                &&& final(self).error_unchanged(old(self))
            }),
    {
        if h.id == 0 || h.id - 1 >= self.slots.len() {
            return self.reject_handle(h);
        }
        let i = h.id - 1;
        if self.slots[i].is_none() {
            return self.reject_handle(h);
        }
        match label {
            None => {
                let slot = &mut self.slots[i];
                match slot {
                    Some(c) => c.set_label(None),
                    None => (),
                }
                proof {
                    self.lemma_one_slot_changed(old(self), h);
                }
                RustFfiDemoStatus::RustffiOk
            },
            Some(b) => {
                if check_label_bytes(&b) {
                    let slot = &mut self.slots[i];
                    match slot {
                        Some(c) => c.set_label(Some(b)),
                        None => (),
                    }
                    proof {
                        self.lemma_one_slot_changed(old(self), h);
                    }
                    RustFfiDemoStatus::RustffiOk
                } else {
                    proof {
                        reveal_strlit("label must be valid UTF-8 without NUL");
                    }
                    self.record_error("label must be valid UTF-8 without NUL");
                    RustFfiDemoStatus::RustffiInvalidArg
                }
            },
        }
    }

    /// Reads the label of the counter `h` designates through the two-phase
    /// sizing protocol. `buf_null` and `buf_len` describe the caller's
    /// buffer; `out_needed_null` says whether the needed-size slot was
    /// addressable. The second component is the size to write into the
    /// needed-size slot: label length plus one for the terminating NUL, one
    /// when no label is set. The third component is the exact bytes the
    /// shell must copy into the buffer, handed out only when the buffer is
    /// present and large enough.
    pub fn counter_get_label(
        &mut self,
        h: CounterHandle,
        buf_null: bool,
        buf_len: usize,
        out_needed_null: bool,
    ) -> (r: (RustFfiDemoStatus, Option<usize>, Option<Vec<u8>>))
        requires
            old(self).wf(),
        ensures
            final(self).wf(),
            final(self).counters_unchanged(old(self)),
            out_needed_null ==> {
                &&& r.0 == RustFfiDemoStatus::RustffiNullArg
                &&& r.1 is None
                &&& r.2 is None
                &&& final(self).error_is("out_needed is NULL"@)
            },
            !out_needed_null && !old(self).is_live(h) ==> final(self).rejected_handle(
                old(self),
                h,
                r.0,
            ) && r.1 is None && r.2 is None,
            !out_needed_null && old(self).is_live(h) ==> ({
                let lbl = (match old(self).spec_counter(h).spec_label() {
                    Some(l) => l,
                    None => Seq::<u8>::empty(),
                });
                let needed = lbl.len() + 1;
                &&& r.1 == Some(needed as usize)
                &&& buf_null ==> {
                    &&& r.0 == RustFfiDemoStatus::RustffiOk
                    &&& r.2 is None
                    &&& final(self).error_unchanged(old(self))
                }
                &&& !buf_null && buf_len < needed ==> {
                    &&& r.0 == RustFfiDemoStatus::RustffiInvalidArg
                    &&& r.2 is None
                    &&& final(self).error_is("buffer too small for label"@)
                }
                &&& !buf_null && buf_len >= needed ==> {
                    &&& r.0 == RustFfiDemoStatus::RustffiOk
                    &&& (r.2 matches Some(bytes) && bytes@ == lbl.push(0u8))
                    &&& final(self).error_unchanged(old(self))
                }
            }),
    {
        if out_needed_null {
            proof {
                reveal_strlit("out_needed is NULL");
            }
            self.record_error("out_needed is NULL");
            return (RustFfiDemoStatus::RustffiNullArg, None, None);
        }
        if h.id == 0 || h.id - 1 >= self.slots.len() {
            let st = self.reject_handle(h);
            return (st, None, None);
        }
        let i = h.id - 1;
        if self.slots[i].is_none() {
            let st = self.reject_handle(h);
            return (st, None, None);
        }
        proof {
            assert(self.spec_slots()[i as int] matches Some(c) && c.wf());
        }
        let needed: usize = match &self.slots[i] {
            Some(c) => match c.label() {
                Some(l) => l.len() + 1,
                None => 1,
            },
            None => 1,
        };
        if buf_null {
            return (RustFfiDemoStatus::RustffiOk, Some(needed), None);
        }
        if buf_len < needed {
            proof {
                reveal_strlit("buffer too small for label");
            }
            self.record_error("buffer too small for label");
            return (RustFfiDemoStatus::RustffiInvalidArg, Some(needed), None);
        }
        let out: Vec<u8> = match &self.slots[i] {
            Some(c) => match c.label() {
                Some(l) => terminated_copy(l),
                None => {
                    let mut e: Vec<u8> = Vec::new();
                    e.push(0);
                    e
                },
            },
            None => Vec::new(),
        };
        (RustFfiDemoStatus::RustffiOk, Some(needed), Some(out))
    }

    /// Installs `cb` as the change callback of the counter `h` designates,
    /// replacing (and thereby dropping) any previous one; absent input
    /// clears the callback, so later increments and resets notify nobody.
    pub fn counter_set_callback(&mut self, h: CounterHandle, cb: Option<CB>) -> (r:
        RustFfiDemoStatus)
        requires
            old(self).wf(),
        ensures
            final(self).wf(),
            !old(self).is_live(h) ==> final(self).rejected_handle(old(self), h, r),
            old(self).is_live(h) ==> ({
                let c0 = old(self).spec_counter(h);
                let c1 = final(self).spec_counter(h);
                &&& r == RustFfiDemoStatus::RustffiOk
                &&& final(self).is_live(h)
                &&& c1.spec_callback() == cb
                &&& c1.spec_value() == c0.spec_value()
                &&& c1.spec_label() == c0.spec_label()
                &&& final(self).counters_unchanged_except(old(self), h)
                &&& final(self).spec_slots().len() == old(self).spec_slots().len()
                &&& final(self).error_unchanged(old(self))
            }),
    {
        if h.id == 0 || h.id - 1 >= self.slots.len() {
            return self.reject_handle(h);
        }
        let i = h.id - 1;
        if self.slots[i].is_none() {
            return self.reject_handle(h);
        }
        let slot = &mut self.slots[i];
        match slot {
            Some(c) => c.set_callback(cb),
            None => (),
        }
        proof {
            self.lemma_one_slot_changed(old(self), h);
        }
        RustFfiDemoStatus::RustffiOk
    }

    /// The registered callback of the counter `h` designates, if both
    /// exist: what the shell invokes with the value a mutating call hands
    /// back.
    pub fn counter_callback(&self, h: CounterHandle) -> (r: Option<&CB>)
        ensures
            (match r {
                Some(cb) => self.is_live(h) && self.spec_counter(h).spec_callback() == Some(*cb),
                None => !self.is_live(h) || self.spec_counter(h).spec_callback() is None,
            }),
    {
        if h.id == 0 {
            return None;
        }
        let i = h.id - 1;
        if i >= self.slots.len() {
            return None;
        }
        match &self.slots[i] {
            Some(c) => c.callback(),
            None => None,
        }
    }
}

/// The version text, constant for the process lifetime. The shell appends
/// the terminating NUL of the transport.
pub fn version() -> (r: &'static str)
    ensures
        r@ == "rust_ffi_demo 0.1.0"@,
        r@.len() > 0,
{
    proof {
        reveal_strlit("rust_ffi_demo 0.1.0");
    }
    "rust_ffi_demo 0.1.0"
}

} // verus!
