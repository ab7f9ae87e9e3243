//! The counter object: a saturating 64-bit value, an optional label, and an
//! optional change callback.
//!
//! The callback itself is opaque to the counter: it is any value of the type
//! parameter `CB`, owned by the counter and replaced or dropped as a whole.
//! Because invoking a foreign procedure is outside what this crate verifies,
//! the mutating operations return the value the callback is owed instead of
//! calling it; the shell around the library performs the call.

use crate::label::label_wf;
use vstd::prelude::*;

verus! {

/// Addition on the mathematical integers, clamped to the signed 64-bit range.
pub open spec fn sat_add_i64(a: int, b: int) -> int {
    if a + b > i64::MAX as int {
        i64::MAX as int
    } else if a + b < i64::MIN as int {
        i64::MIN as int
    } else {
        a + b
    }
}

/// The value a counter holds after applying `deltas` in order to `init`,
/// each step clamped to the signed 64-bit range.
pub open spec fn sat_fold_i64(init: int, deltas: Seq<i64>) -> int
    decreases deltas.len(),
{
    if deltas.len() == 0 {
        init
    } else {
        sat_fold_i64(sat_add_i64(init, deltas[0] as int), deltas.drop_first())
    }
}

/// A run of saturating increments never leaves the representable range:
/// however the deltas drive the value into a bound, it clamps instead of
/// wrapping.
pub proof fn lemma_sat_fold_in_range(init: int, deltas: Seq<i64>)
    requires
        i64::MIN <= init <= i64::MAX,
    ensures
        i64::MIN <= sat_fold_i64(init, deltas) <= i64::MAX,
    decreases deltas.len(),
{
    if deltas.len() > 0 {
        lemma_sat_fold_in_range(sat_add_i64(init, deltas[0] as int), deltas.drop_first());
    }
}

/// One more increment after a run of increments lands on the saturating sum
/// of the whole run: the value after deltas `d1 .. dn` is the n-fold
/// saturating sum, whatever n is.
pub proof fn lemma_sat_fold_push(init: int, deltas: Seq<i64>, d: i64)
    ensures
        sat_fold_i64(init, deltas.push(d)) == sat_add_i64(sat_fold_i64(init, deltas), d as int),
    decreases deltas.len(),
{
    if deltas.len() == 0 {
        assert(deltas.push(d).len() == 1);
        assert(deltas.push(d)[0] == d);
        assert(deltas.push(d).drop_first() =~= Seq::<i64>::empty());
        assert(sat_fold_i64(init, deltas.push(d)) == sat_fold_i64(
            sat_add_i64(init, d as int),
            deltas.push(d).drop_first(),
        ));
    } else {
        assert(deltas.push(d).drop_first() =~= deltas.drop_first().push(d));
        assert(deltas.push(d)[0] == deltas[0]);
        lemma_sat_fold_push(sat_add_i64(init, deltas[0] as int), deltas.drop_first(), d);
        assert(sat_fold_i64(init, deltas.push(d)) == sat_fold_i64(
            sat_add_i64(init, deltas[0] as int),
            deltas.push(d).drop_first(),
        ));
    }
}

/// The value after the first `k + 1` increments of a run is one saturating
/// step past the value after the first `k`: with a callback registered, the
/// notifications of a run carry the running saturating totals, in call
/// order.
pub proof fn lemma_sat_fold_prefix_step(init: int, deltas: Seq<i64>, k: int)
    requires
        0 <= k < deltas.len(),
    ensures
        sat_fold_i64(init, deltas.take(k + 1)) == sat_add_i64(
            sat_fold_i64(init, deltas.take(k)),
            deltas[k] as int,
        ),
{
    assert(deltas.take(k + 1) =~= deltas.take(k).push(deltas[k]));
    lemma_sat_fold_push(init, deltas.take(k), deltas[k]);
}

/// The plain, unclamped sum of the deltas.
pub open spec fn sum_i64(deltas: Seq<i64>) -> int
    decreases deltas.len(),
{
    if deltas.len() == 0 {
        0
    } else {
        deltas[0] + sum_i64(deltas.drop_first())
    }
}

/// Where no prefix of a run of increments leaves the representable range,
/// saturation never bites: the final value is exactly the initial value
/// plus the sum of the deltas.
pub proof fn lemma_sat_fold_exact_without_clamping(init: int, deltas: Seq<i64>)
    requires
        i64::MIN <= init <= i64::MAX,
        forall|k: int|
            0 <= k <= deltas.len() ==> i64::MIN <= init + sum_i64(#[trigger] deltas.take(k))
                <= i64::MAX,
    ensures
        sat_fold_i64(init, deltas) == init + sum_i64(deltas),
    decreases deltas.len(),
{
    if deltas.len() > 0 {
        let d0 = deltas[0] as int;
        let rest = deltas.drop_first();
        assert(deltas.take(1).drop_first() =~= Seq::<i64>::empty());
        assert(deltas.take(1)[0] == deltas[0]);
        assert(deltas.take(1).len() == 1);
        assert(sum_i64(Seq::<i64>::empty()) == 0);
        assert(sum_i64(deltas.take(1)) == deltas.take(1)[0] + sum_i64(deltas.take(1).drop_first()));
        assert(sum_i64(deltas.take(1)) == d0);
        assert(i64::MIN <= init + d0 <= i64::MAX);
        assert(sat_add_i64(init, d0) == init + d0);
        assert forall|k: int| 0 <= k <= rest.len() implies i64::MIN <= (init + d0) + sum_i64(
            #[trigger] rest.take(k),
        ) <= i64::MAX by {
            assert(deltas.take(k + 1).drop_first() =~= rest.take(k));
            assert(deltas.take(k + 1)[0] == deltas[0]);
            assert(sum_i64(deltas.take(k + 1)) == d0 + sum_i64(rest.take(k)));
            assert(i64::MIN <= init + sum_i64(deltas.take(k + 1)) <= i64::MAX);
        }
        lemma_sat_fold_exact_without_clamping(init + d0, rest);
        assert(deltas.take(deltas.len() as int) =~= deltas);
    }
}

/// Saturating addition on machine integers, proved against [`sat_add_i64`].
pub fn saturating_add_i64(a: i64, b: i64) -> (r: i64)
    ensures
        r as int == sat_add_i64(a as int, b as int),
{
    if b >= 0 {
        if a > i64::MAX - b {
            i64::MAX
        } else {
            a + b
        }
    } else {
        if a < i64::MIN - b {
            i64::MIN
        } else {
            a + b
        }
    }
}

/// A counter: a 64-bit signed value that increments by saturation, an
/// optional label, and an optional change callback of opaque type `CB`.
pub struct Counter<CB> {
    value: i64,
    label: Option<Vec<u8>>,
    callback: Option<CB>,
}

impl<CB> Counter<CB> {
    /// The held value.
    pub closed spec fn spec_value(&self) -> i64 {
        self.value
    }

    /// The stored label bytes, if a label is set.
    pub closed spec fn spec_label(&self) -> Option<Seq<u8>> {
        match self.label {
            Some(l) => Some(l@),
            None => None,
        }
    }

    /// The stored callback, if one is registered.
    pub closed spec fn spec_callback(&self) -> Option<CB> {
        self.callback
    }

    /// True when a change callback is registered.
    pub open spec fn has_callback(&self) -> bool {
        self.spec_callback() is Some
    }

    /// The counter's invariant: a stored label is always transportable text.
    pub open spec fn wf(&self) -> bool {
        self.spec_label() matches Some(l) ==> label_wf(l)
    }

    /// A fresh counter holding `initial`, with no label and no callback.
    pub fn new(initial: i64) -> (c: Counter<CB>)
        ensures
            c.spec_value() == initial,
            c.spec_label() is None,
            c.spec_callback() is None,
            c.wf(),
    {
        Counter { value: initial, label: None, callback: None }
    }

    /// Adds `delta` to the value, clamped to the signed 64-bit range.
    /// Returns the new value exactly when a callback is registered: that is
    /// the argument the callback is owed, synchronously, before the call
    /// returns to the foreign caller.
    pub fn increment(&mut self, delta: i64) -> (notify: Option<i64>)
        ensures
            final(self).spec_value() as int == sat_add_i64(
                old(self).spec_value() as int,
                delta as int,
            ),
            final(self).spec_label() == old(self).spec_label(),
            final(self).spec_callback() == old(self).spec_callback(),
            notify == (if old(self).has_callback() {
                Some(final(self).spec_value())
            } else {
                None::<i64>
            }),
            old(self).wf() ==> final(self).wf(),
    {
        self.value = saturating_add_i64(self.value, delta);
        if self.callback.is_some() {
            Some(self.value)
        } else {
            None
        }
    }

    /// The current value.
    pub fn value(&self) -> (r: i64)
        ensures
            r == self.spec_value(),
    {
        self.value
    }

    /// Sets the value to zero. Returns zero exactly when a callback is
    /// registered, as the argument the callback is owed.
    pub fn reset(&mut self) -> (notify: Option<i64>)
        ensures
            final(self).spec_value() == 0,
            final(self).spec_label() == old(self).spec_label(),
            final(self).spec_callback() == old(self).spec_callback(),
            notify == (if old(self).has_callback() {
                Some(0i64)
            } else {
                None::<i64>
            }),
            old(self).wf() ==> final(self).wf(),
    {
        self.value = 0;
        if self.callback.is_some() {
            Some(0)
        } else {
            None
        }
    }

    /// Stores `s` as the label, or clears the label when `s` is absent.
    pub fn set_label(&mut self, s: Option<Vec<u8>>)
        requires
            (s matches Some(l) ==> label_wf(l@)),
    ensures
            final(self).spec_label() == (match s {
                Some(l) => Some(l@),
                None => None::<Seq<u8>>,
            }),
            final(self).spec_value() == old(self).spec_value(),
            final(self).spec_callback() == old(self).spec_callback(),
            final(self).wf(),
    {
        self.label = s;
    }

    /// The stored label bytes, if a label is set.
    pub fn label(&self) -> (r: Option<&Vec<u8>>)
        ensures
            (match r {
                Some(l) => self.spec_label() == Some(l@),
                None => self.spec_label() is None,
            }),
    {
        self.label.as_ref()
    }

    /// Installs `callback`, replacing (and thereby dropping) any previous
    /// one; absent input clears the slot.
    pub fn set_callback(&mut self, callback: Option<CB>)
        ensures
            final(self).spec_callback() == callback,
            final(self).spec_value() == old(self).spec_value(),
            final(self).spec_label() == old(self).spec_label(),
            old(self).wf() ==> final(self).wf(),
    {
        self.callback = callback;
    }

    /// A copy of the counter's value and label. The callback, being owned
    /// by exactly one counter, does not travel: the copy starts with none.
    pub fn snapshot(&self) -> (c: Counter<CB>)
        ensures
            c.spec_value() == self.spec_value(),
            c.spec_label() == self.spec_label(),
            c.spec_callback() is None,
            self.wf() ==> c.wf(),
    {
        let label_copy: Option<Vec<u8>> = match &self.label {
            Some(l) => Some(crate::label::copy_bytes(l)),
            None => None,
        };
        Counter { value: self.value, label: label_copy, callback: None }
    }

    /// The registered callback, for the shell to invoke with a value the
    /// mutating operations hand back.
    pub fn callback(&self) -> (r: Option<&CB>)
        ensures
            (match r {
                Some(cb) => self.spec_callback() == Some(*cb),
                None => self.spec_callback() is None,
            }),
    {
        self.callback.as_ref()
    }
}

} // verus!
