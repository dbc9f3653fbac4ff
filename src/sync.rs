//! The per-parameter synchronizer: two timestamped value slots and the
//! election of the side whose value is pushed to the other.

use vstd::prelude::*;

use crate::side::Side;
use crate::value::{differs, distance, Transform, EPS, FORCE_SYNC_EPS};

verus! {

/// How long (in milliseconds) a side keeps its authority without reporting.
pub const MASTER_DURATION: u64 = 250;

/// The side that wins when the two sides disagree and neither reported anything new.
pub const DEFAULT_MASTER: Side = Side::Right;

/// One side's value and the time (in milliseconds) of its last recorded change.
pub struct SlotModel {
    pub value: i64,
    pub last_update: Option<u64>,
}

/// The state of a synchronizer, as the contracts speak of it.
pub struct SyncModel {
    pub left: SlotModel,
    pub right: SlotModel,
    pub last_flush: Option<u64>,
    pub current_master: Option<Side>,
    pub l2r: Transform,
    pub r2l: Transform,
}

/// `a > b` on optional timestamps, where `None` is below every `Some`.
pub open spec fn later(a: Option<u64>, b: Option<u64>) -> bool {
    match (a, b) {
        (Some(x), Some(y)) => x > y,
        (Some(_), None) => true,
        (None, _) => false,
    }
}

/// Whether a side last reported before `now - MASTER_DURATION` (or never).
pub open spec fn stale(last_update: Option<u64>, now: u64) -> bool {
    match last_update {
        Some(t) => t < now - MASTER_DURATION,
        None => true,
    }
}

impl SyncModel {
    pub open spec fn slot(self, side: Side) -> SlotModel {
        match side {
            Side::Left => self.left,
            Side::Right => self.right,
        }
    }

    /// The value of `side`, converted to the units of the other side.
    pub open spec fn transformed(self, side: Side) -> i64 {
        match side {
            Side::Left => self.l2r.spec_apply(self.left.value),
            Side::Right => self.r2l.spec_apply(self.right.value),
        }
    }

    /// The push that carries `side`'s value to the other side.
    pub open spec fn push_from(self, side: Side) -> Option<(i64, Side)> {
        Some((self.transformed(side), side.opposite()))
    }

    /// The side that reported last; a tie goes to the right side.
    pub open spec fn candidate(self) -> Side {
        if later(self.left.last_update, self.right.last_update) {
            Side::Left
        } else {
            Side::Right
        }
    }

    /// Whether a flush from this state forces the default master's value
    /// across: no master, nothing new from the side that reported last, and
    /// values that disagree by more than `FORCE_SYNC_EPS`.
    pub open spec fn forcing(self) -> bool {
        &&& self.current_master is None
        &&& !later(self.slot(self.candidate()).last_update, self.last_flush)
        &&& distance(self.l2r.spec_apply(self.left.value) as int, self.right.value as int)
            > FORCE_SYNC_EPS
    }

    pub open spec fn with_slot(self, side: Side, slot: SlotModel) -> SyncModel {
        match side {
            Side::Left => SyncModel { left: slot, ..self },
            Side::Right => SyncModel { right: slot, ..self },
        }
    }

    /// A value reported by `side` at time `now`.
    pub open spec fn after_update(self, side: Side, value: i64, now: u64) -> SyncModel {
        if differs(self.slot(side).value as int, value as int) {
            self.with_slot(side, SlotModel { value, last_update: Some(now) })
        } else {
            self
        }
    }

    /// One flush at time `now`: the next state and the push it asks for.
    pub open spec fn after_flush(self, now: u64) -> (SyncModel, Option<(i64, Side)>) {
        let flushed = SyncModel { last_flush: Some(now), ..self };
        match self.current_master {
            Some(master) => {
                if stale(self.slot(master).last_update, now) {
                    (SyncModel { current_master: None, ..flushed }, None)
                } else if later(self.slot(master).last_update, self.last_flush) {
                    (flushed, self.push_from(master))
                } else {
                    (flushed, None)
                }
            },
            None => {
                let side = self.candidate();
                if later(self.slot(side).last_update, self.last_flush) {
                    (SyncModel { current_master: Some(side), ..flushed }, self.push_from(side))
                } else if distance(self.l2r.spec_apply(self.left.value) as int, self.right.value as int)
                    > FORCE_SYNC_EPS {
                    (
                        SyncModel { current_master: Some(DEFAULT_MASTER), ..flushed },
                        self.push_from(DEFAULT_MASTER),
                    )
                } else {
                    (flushed, None)
                }
            },
        }
    }
}

#[derive(Clone)]
struct SyncItem {
    last_update: Option<u64>,
    value: i64,
}

impl SyncItem {
    spec fn model(&self) -> SlotModel {
        SlotModel { value: self.value, last_update: self.last_update }
    }

    fn new() -> (r: SyncItem)
        ensures
            r.model() == (SlotModel { value: 0, last_update: None }),
    {
        SyncItem { value: 0, last_update: None }
    }

    fn update(&mut self, new_value: i64, now: u64) -> (changed: bool)
        ensures
            changed == differs(old(self).value as int, new_value as int),
            final(self).model() == (if changed {
                SlotModel { value: new_value, last_update: Some(now) }
            } else {
                old(self).model()
            }),
    {
        let diff: i128 = self.value as i128 - new_value as i128;
        let gap: i128 = if diff >= 0 {
            diff
        } else {
            -diff
        };
        if gap > EPS as i128 {
            self.value = new_value;
            self.last_update = Some(now);
            true
        } else {
            false
        }
    }
}

/// Keeps one parameter consistent on both sides, deciding at each flush
/// which side's value is pushed to the other.
#[derive(Clone)]
pub struct Sync {
    name: String,
    left: SyncItem,
    right: SyncItem,
    last_flush: Option<u64>,
    current_master: Option<Side>,
    l2r: Transform,
    r2l: Transform,
}

impl View for Sync {
    type V = SyncModel;

    closed spec fn view(&self) -> SyncModel {
        SyncModel {
            left: self.left.model(),
            right: self.right.model(),
            last_flush: self.last_flush,
            current_master: self.current_master,
            l2r: self.l2r,
            r2l: self.r2l,
        }
    }
}

/// The state of a fresh synchronizer with the given transforms.
pub open spec fn initial(l2r: Transform, r2l: Transform) -> SyncModel {
    SyncModel {
        left: SlotModel { value: 0, last_update: None },
        right: SlotModel { value: 0, last_update: None },
        last_flush: None,
        current_master: None,
        l2r,
        r2l,
    }
}

impl Sync {
    pub closed spec fn spec_name(&self) -> Seq<char> {
        self.name@
    }

    /// A synchronizer whose two sides use the same units.
    pub fn new(name: String) -> (r: Sync)
        ensures
            r@ == initial(Transform::Identity, Transform::Identity),
            r.spec_name() == name@,
    {
        Sync::with_transform(name, Transform::Identity, Transform::Identity)
    }

    /// A synchronizer that converts with `l2r` from left to right and with
    /// `r2l` from right to left.
    pub fn with_transform(name: String, l2r: Transform, r2l: Transform) -> (r: Sync)
        ensures
            r@ == initial(l2r, r2l),
            r.spec_name() == name@,
    {
        Sync {
            name,
            left: SyncItem::new(),
            right: SyncItem::new(),
            current_master: None,
            last_flush: None,
            l2r,
            r2l,
        }
    }

    pub fn name(&self) -> (r: &str)
        ensures
            r@ == self.spec_name(),
    {
        self.name.as_str()
    }

    /// Records `value` as reported by `side` at time `now` (milliseconds),
    /// unless it is within noise of the stored value. Returns whether it was recorded.
    pub fn update(&mut self, side: Side, value: i64, now: u64) -> (changed: bool)
        ensures
            changed == differs(old(self)@.slot(side).value as int, value as int),
            final(self)@ == old(self)@.after_update(side, value, now),
            final(self).spec_name() == old(self).spec_name(),
    {
        match side {
            Side::Left => self.left.update(value, now),
            Side::Right => self.right.update(value, now),
        }
    }

    pub fn left_value(&self) -> (r: i64)
        ensures
            r == self@.left.value,
    {
        self.left.value
    }

    pub fn right_value(&self) -> (r: i64)
        ensures
            r == self@.right.value,
    {
        self.right.value
    }

    pub fn current_master(&self) -> (r: Option<Side>)
        ensures
            r == self@.current_master,
    {
        self.current_master
    }

    /// Decides at time `now` (milliseconds) whether one side's value must be
    /// pushed to the other; returns the value to send and its destination.
    pub fn flush(&mut self, now: u64) -> (r: Option<(i64, Side)>)
        ensures
            (final(self)@, r) == old(self)@.after_flush(now),
            final(self).spec_name() == old(self).spec_name(),
    {
        let prev_flush = self.last_flush;
        self.last_flush = Some(now);

        match self.current_master {
            Some(master) => {
                let last = self.get_item(master).last_update;
                if is_stale(last, now) {
                    self.current_master = None;
                    return None;
                }
                if is_later(last, prev_flush) {
                    return self.get_flush_result(master);
                }
            },
            None => {
                let side = if is_later(self.left.last_update, self.right.last_update) {
                    Side::Left
                } else {
                    Side::Right
                };
                if is_later(self.get_item(side).last_update, prev_flush) {
                    self.current_master = Some(side);
                    return self.get_flush_result(side);
                }
                let diff: i128 = self.l2r.apply(self.left.value) as i128 - self.right.value as i128;
                let gap: i128 = if diff >= 0 {
                    diff
                } else {
                    -diff
                };
                if gap > FORCE_SYNC_EPS as i128 {
                    self.current_master = Some(DEFAULT_MASTER);
                    return self.get_flush_result(DEFAULT_MASTER);
                }
            },
        }
        None
    }

    /// Whether the next flush forces the default master's value across.
    pub fn will_force(&self) -> (r: bool)
        ensures
            r == self@.forcing(),
    {
        if self.current_master.is_some() {
            return false;
        }
        let side = if is_later(self.left.last_update, self.right.last_update) {
            Side::Left
        } else {
            Side::Right
        };
        if is_later(self.get_item(side).last_update, self.last_flush) {
            return false;
        }
        let diff: i128 = self.l2r.apply(self.left.value) as i128 - self.right.value as i128;
        let gap: i128 = if diff >= 0 {
            diff
        } else {
            -diff
        };
        gap > FORCE_SYNC_EPS as i128
    }

    fn get_transformed(&self, side: Side) -> (r: i64)
        ensures
            r == self@.transformed(side),
    {
        match side {
            Side::Left => self.l2r.apply(self.left.value),
            Side::Right => self.r2l.apply(self.right.value),
        }
    }

    fn get_flush_result(&self, side: Side) -> (r: Option<(i64, Side)>)
        ensures
            r == self@.push_from(side),
    {
        Some((self.get_transformed(side), side.flip()))
    }

    fn get_item(&self, side: Side) -> (r: &SyncItem)
        ensures
            r.model() == self@.slot(side),
    {
        match side {
            Side::Left => &self.left,
            Side::Right => &self.right,
        }
    }
}

fn is_later(a: Option<u64>, b: Option<u64>) -> (r: bool)
    ensures
        r == later(a, b),
{
    match (a, b) {
        (Some(x), Some(y)) => x > y,
        (Some(_), None) => true,
        (None, _) => false,
    }
}

fn is_stale(last_update: Option<u64>, now: u64) -> (r: bool)
    ensures
        r == stale(last_update, now),
{
    match last_update {
        Some(t) => now >= MASTER_DURATION && t < now - MASTER_DURATION,
        None => true,
    }
}

} // verus!
