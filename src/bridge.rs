//! The registry of all synchronizers, which the control loop updates with
//! routed reports and flushes once per cycle.

use vstd::prelude::*;
use vstd::string::StringExecFns;

use crate::address::{address, address_of, decimal, param_of, push_decimal};
use crate::param::{lemma_index_param, lemma_param_index, param_at, Param, ParamKind, CHANNELS, PARAMS, REVERBS};
use crate::side::Side;
use crate::sync::{initial, Sync, SyncModel};
use crate::value::{differs, Transform};

verus! {

/// The transforms (left to right, right to left) of a parameter kind: gains
/// are converted between the units of the two devices, the rest is not.
pub open spec fn transforms(kind: ParamKind) -> (Transform, Transform) {
    match kind {
        ParamKind::Gain | ParamKind::ReverbGain => (
            Transform::GainDs100ToWing,
            Transform::GainWingToDs100,
        ),
        _ => (Transform::Identity, Transform::Identity),
    }
}

/// A value to be sent to the device of `destination`, under `address`;
/// `forced` where the two sides disagreed and the default master won.
pub struct Outgoing {
    pub param: Param,
    pub destination: Side,
    pub value: i64,
    pub address: String,
    pub forced: bool,
}

impl Outgoing {
    pub open spec fn model(&self) -> (Param, Side, i64) {
        (self.param, self.destination, self.value)
    }
}

/// The pushes that flushing the first `n` synchronizers of `models` at
/// `now` asks for, in registry order.
pub open spec fn pushes(models: Seq<SyncModel>, n: int, now: u64) -> Seq<(Param, Side, i64)>
    decreases n,
{
    if n <= 0 {
        seq![]
    } else {
        let before = pushes(models, n - 1, now);
        match models[n - 1].after_flush(now).1 {
            Some((value, destination)) => before.push((param_at(n - 1), destination, value)),
            None => before,
        }
    }
}

proof fn lemma_pushes_after_one_report(
    models: Seq<SyncModel>,
    p: Param,
    side: Side,
    value: i64,
    t: u64,
    now: u64,
    n: int,
)
    requires
        models.len() == PARAMS,
        forall|k: int|
            0 <= k < PARAMS ==> #[trigger] models[k] == initial(
                transforms(param_at(k).kind).0,
                transforms(param_at(k).kind).1,
            ),
        p.valid(),
        differs(0, value as int),
        0 <= n <= PARAMS,
    ensures
        ({
            let after = models.update(p.index(), models[p.index()].after_update(side, value, t));
            pushes(after, n, now) == if n <= p.index() {
                seq![]
            } else {
                seq![(p, side.opposite(), after[p.index()].transformed(side))]
            }
        }),
    decreases n,
{
    lemma_index_param(p);
    if n > 0 {
        lemma_pushes_after_one_report(models, p, side, value, t, now, n - 1);
    }
}

/// A single report reaches the other side once: on a registry where no
/// side has reported anything yet, one report of `value` for `p` that is
/// recorded leads the next flush to exactly one push, of `p`'s converted
/// value to the other side.
pub proof fn lemma_one_report_one_push(
    models: Seq<SyncModel>,
    p: Param,
    side: Side,
    value: i64,
    t: u64,
    now: u64,
)
    requires
        models.len() == PARAMS,
        forall|k: int|
            0 <= k < PARAMS ==> #[trigger] models[k] == initial(
                transforms(param_at(k).kind).0,
                transforms(param_at(k).kind).1,
            ),
        p.valid(),
        differs(0, value as int),
    ensures
        ({
            let after = models.update(p.index(), models[p.index()].after_update(side, value, t));
            pushes(after, PARAMS as int, now) == seq![
                (p, side.opposite(), after[p.index()].transformed(side)),
            ]
        }),
{
    lemma_index_param(p);
    lemma_pushes_after_one_report(models, p, side, value, t, now, PARAMS as int);
}

/// One synchronizer per bridged parameter, in the order of `param_at`.
pub struct Bridge {
    syncs: Vec<Sync>,
}

impl View for Bridge {
    type V = Seq<SyncModel>;

    closed spec fn view(&self) -> Seq<SyncModel> {
        self.syncs@.map_values(|s: Sync| s@)
    }
}

fn sync_name(letter: &str, n: usize, two_digits: bool) -> (r: String)
    ensures
        r@ == letter@ + (if two_digits && n < 10 {
            seq!['0']
        } else {
            seq![]
        }) + decimal(n as nat),
{
    let mut s = String::from_str(letter);
    if two_digits && n < 10 {
        proof {
            reveal_strlit("0");
        }
        s.append("0");
    }
    push_decimal(&mut s, n);
    s
}

fn index_of(param: Param) -> (r: usize)
    requires
        param.valid(),
    ensures
        r == param.index(),
{
    match param.kind {
        ParamKind::X => 3 * (param.number - 1),
        ParamKind::Y => 3 * (param.number - 1) + 1,
        ParamKind::Gain => 3 * (param.number - 1) + 2,
        ParamKind::ReverbGain => 3 * CHANNELS + param.number - 1,
    }
}

impl Bridge {
    pub open spec fn wf(&self) -> bool {
        &&& self@.len() == PARAMS
        &&& forall|k: int|
            0 <= k < PARAMS ==> (#[trigger] self@[k].l2r, self@[k].r2l) == transforms(
                param_at(k).kind,
            )
    }

    /// All parameters unsynchronized, with no value from either side.
    pub fn new() -> (r: Bridge)
        ensures
            r.wf(),
            forall|k: int|
                0 <= k < PARAMS ==> #[trigger] r@[k] == initial(
                    transforms(param_at(k).kind).0,
                    transforms(param_at(k).kind).1,
                ),
    {
        let mut syncs: Vec<Sync> = Vec::new();
        let mut n: usize = 1;
        while n <= CHANNELS
            invariant
                1 <= n <= CHANNELS + 1,
                syncs@.len() == 3 * (n - 1),
                forall|k: int|
                    0 <= k < syncs@.len() ==> #[trigger] syncs@[k]@ == initial(
                        transforms(param_at(k).kind).0,
                        transforms(param_at(k).kind).1,
                    ),
            decreases CHANNELS + 1 - n,
        {
            proof {
                reveal_strlit("x");
                reveal_strlit("y");
                reveal_strlit("g");
            }
            syncs.push(Sync::new(sync_name("x", n, true)));
            syncs.push(Sync::new(sync_name("y", n, true)));
            syncs.push(
                Sync::with_transform(
                    sync_name("g", n, true),
                    Transform::GainDs100ToWing,
                    Transform::GainWingToDs100,
                ),
            );
            n += 1;
        }
        let mut n: usize = 1;
        while n <= REVERBS
            invariant
                1 <= n <= REVERBS + 1,
                syncs@.len() == 3 * CHANNELS + n - 1,
                forall|k: int|
                    0 <= k < syncs@.len() ==> #[trigger] syncs@[k]@ == initial(
                        transforms(param_at(k).kind).0,
                        transforms(param_at(k).kind).1,
                    ),
            decreases REVERBS + 1 - n,
        {
            syncs.push(
                Sync::with_transform(
                    sync_name("rg", n, false),
                    Transform::GainDs100ToWing,
                    Transform::GainWingToDs100,
                ),
            );
            n += 1;
        }
        Bridge { syncs }
    }

    /// The synchronizer of `param`.
    pub fn get(&self, param: Param) -> (r: &Sync)
        requires
            self.wf(),
            param.valid(),
        ensures
            r@ == self@[param.index()],
    {
        &self.syncs[index_of(param)]
    }

    /// Hands a value that `side` reported for `param` at `now` to its
    /// synchronizer; an invalid parameter changes nothing.
    pub fn update(&mut self, param: Param, side: Side, value: i64, now: u64) -> (changed: bool)
        requires
            old(self).wf(),
        ensures
            final(self).wf(),
            param.valid() ==> changed == differs(
                old(self)@[param.index()].slot(side).value as int,
                value as int,
            ) && final(self)@ == old(self)@.update(
                param.index(),
                old(self)@[param.index()].after_update(side, value, now),
            ),
            !param.valid() ==> !changed && final(self)@ == old(self)@,
    {
        if !param.is_valid() {
            return false;
        }
        let k = index_of(param);
        let changed = self.syncs[k].update(side, value, now);
        assert(self@ =~= old(self)@.update(
            param.index(),
            old(self)@[param.index()].after_update(side, value, now),
        ));
        changed
    }

    /// Flushes every synchronizer at `now`, in registry order, and returns
    /// the values to send, each with the address its destination takes.
    pub fn flush_all(&mut self, now: u64) -> (r: Vec<Outgoing>)
        requires
            old(self).wf(),
        ensures
            final(self).wf(),
            final(self)@.len() == PARAMS,
            forall|k: int|
                0 <= k < PARAMS ==> #[trigger] final(self)@[k] == old(self)@[k].after_flush(now).0,
            r@.map_values(|o: Outgoing| o.model()) == pushes(old(self)@, PARAMS as int, now),
            forall|i: int|
                0 <= i < r@.len() ==> #[trigger] r@[i].address@ == address(
                    r@[i].param,
                    r@[i].destination,
                ),
            forall|i: int|
                0 <= i < r@.len() ==> #[trigger] r@[i].forced == old(self)@[r@[i].param.index()].forcing(),
    {
        let ghost start = self@;
        let mut out: Vec<Outgoing> = Vec::new();
        let mut k: usize = 0;
        while k < PARAMS
            invariant
                0 <= k <= PARAMS,
                start.len() == PARAMS,
                self@.len() == PARAMS,
                forall|j: int|
                    0 <= j < PARAMS ==> (#[trigger] start[j].l2r, start[j].r2l) == transforms(
                        param_at(j).kind,
                    ),
                forall|j: int| 0 <= j < k ==> #[trigger] self@[j] == start[j].after_flush(now).0,
                forall|j: int| k <= j < PARAMS ==> #[trigger] self@[j] == start[j],
                out@.map_values(|o: Outgoing| o.model()) == pushes(start, k as int, now),
                forall|i: int|
                    0 <= i < out@.len() ==> #[trigger] out@[i].address@ == address(
                        out@[i].param,
                        out@[i].destination,
                    ),
                forall|i: int|
                    0 <= i < out@.len() ==> #[trigger] out@[i].forced == start[out@[i].param.index()].forcing(),
            decreases PARAMS - k,
        {
            let ghost before = self.syncs@;
            let ghost before_view = self@;
            assert(self@[k as int] == start[k as int]);
            assert(before[k as int]@ == start[k as int]);
            let forced = self.syncs[k].will_force();
            let pushed = self.syncs[k].flush(now);
            proof {
                assert(self.syncs@[k as int]@ == start[k as int].after_flush(now).0);
                assert(pushed == start[k as int].after_flush(now).1);
                assert(self.syncs@ =~= before.update(k as int, self.syncs@[k as int]));
                assert(self@ =~= before_view.update(k as int, start[k as int].after_flush(now).0));
            }
            match pushed {
                Some((value, destination)) => {
                    let param = param_of(k);
                    let address = address_of(param, destination);
                    proof {
                        lemma_param_index(k as int);
                    }
                    out.push(Outgoing { param, destination, value, address, forced });
                },
                None => {},
            }
            assert(out@.map_values(|o: Outgoing| o.model()) =~= pushes(start, k + 1, now));
            k += 1;
        }
        out
    }
}

} // verus!
