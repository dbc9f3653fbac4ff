//! Laws of the synchronizer, stated over its model.

use vstd::prelude::*;

use crate::side::Side;
use crate::sync::{later, stale, SyncModel, DEFAULT_MASTER, MASTER_DURATION};
use crate::value::{differs, distance, EPS, FORCE_SYNC_EPS};

verus! {

/// Epsilon suppression: once `v1` has been recorded for a side, a second
/// report `v2` within `EPS` of it changes nothing; the side keeps `v1` and
/// the timestamp of `v1`.
pub proof fn lemma_epsilon_suppression(
    m: SyncModel,
    side: Side,
    v1: i64,
    t1: u64,
    v2: i64,
    t2: u64,
)
    requires
        differs(m.slot(side).value as int, v1 as int),
        distance(v1 as int, v2 as int) <= EPS,
    ensures
        ({
            let m1 = m.after_update(side, v1, t1);
            let m2 = m1.after_update(side, v2, t2);
            &&& m2 == m1
            &&& m2.slot(side).value == v1
            &&& m2.slot(side).last_update == Some(t1)
        }),
{
}

/// Master hold: a flush never hands authority from one side straight to the
/// other; and while the master has reported within `MASTER_DURATION`, a
/// report from the other side leaves the master in place at the next flush.
pub proof fn lemma_master_hold(m: SyncModel, master: Side, v: i64, t: u64, now: u64)
    requires
        m.current_master == Some(master),
    ensures
        m.after_flush(now).0.current_master != Some(master.opposite()),
        !stale(m.slot(master).last_update, now) ==> m.after_update(
            master.opposite(),
            v,
            t,
        ).after_flush(now).0.current_master == Some(master),
{
}

/// Staleness reset: a master that has not reported for more than
/// `MASTER_DURATION` loses authority at the next flush, which pushes nothing.
pub proof fn lemma_staleness_reset(m: SyncModel, master: Side, now: u64)
    requires
        m.current_master == Some(master),
        stale(m.slot(master).last_update, now),
    ensures
        m.after_flush(now).1 is None,
        m.after_flush(now).0.current_master is None,
{
}

/// Force-sync convergence: with no master, nothing new from either side and
/// values that disagree by more than `FORCE_SYNC_EPS`, a flush makes the
/// default master authoritative and pushes its converted value to the other
/// side; the flush after it, with no report in between, pushes nothing.
pub proof fn lemma_force_sync(m: SyncModel, now1: u64, now2: u64)
    requires
        m.current_master is None,
        !later(m.left.last_update, m.last_flush),
        !later(m.right.last_update, m.last_flush),
        distance(m.l2r.spec_apply(m.left.value) as int, m.right.value as int) > FORCE_SYNC_EPS,
        match m.last_flush {
            Some(f) => f <= now1,
            None => true,
        },
    ensures
        m.after_flush(now1).1 == Some((m.r2l.spec_apply(m.right.value), Side::Left)),
        m.after_flush(now1).0.current_master == Some(DEFAULT_MASTER),
        m.after_flush(now1).0.after_flush(now2).1 is None,
{
}

/// A state that is `forcing` is exactly one whose next flush makes the
/// default master authoritative and pushes its value to the other side.
pub proof fn lemma_forcing_flush(m: SyncModel, now: u64)
    requires
        m.forcing(),
    ensures
        m.after_flush(now).0.current_master == Some(DEFAULT_MASTER),
        m.after_flush(now).1 == m.push_from(DEFAULT_MASTER),
{
}

/// Agreement is quiet: with no master, nothing new from either side and
/// values within `FORCE_SYNC_EPS` of each other, a flush pushes nothing and
/// leaves the parameter unsynchronized.
pub proof fn lemma_agreement_is_quiet(m: SyncModel, now: u64)
    requires
        m.current_master is None,
        !later(m.left.last_update, m.last_flush),
        !later(m.right.last_update, m.last_flush),
        distance(m.l2r.spec_apply(m.left.value) as int, m.right.value as int) <= FORCE_SYNC_EPS,
    ensures
        m.after_flush(now).1 is None,
        m.after_flush(now).0.current_master is None,
{
}

/// No self-echo: after a flush pushed the value of side `s`, no later flush
/// pushes again until `s` itself reports something new; in particular not
/// when the destination reports the pushed value back.
pub proof fn lemma_no_self_echo(m: SyncModel, now1: u64, echo: i64, t: u64, now2: u64)
    requires
        m.after_flush(now1).1 is Some,
        match m.slot(m.after_flush(now1).1.unwrap().1.opposite()).last_update {
            Some(u) => u <= now1,
            None => true,
        },
    ensures
        ({
            let (m1, pushed) = m.after_flush(now1);
            let destination = pushed.unwrap().1;
            m1.after_update(destination, echo, t).after_flush(now2).1 is None
        }),
{
}

} // verus!
