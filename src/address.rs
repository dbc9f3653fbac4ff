//! Addresses of the bridged parameters on each device, and the addresses
//! polled to keep the devices reporting.

use vstd::prelude::*;
use vstd::string::StringExecFns;

use crate::param::{param_at, Param, ParamKind, CHANNELS, PARAMS, REVERBS};
use crate::side::Side;

verus! {

/// The character of a decimal digit.
pub open spec fn digit_char(d: nat) -> char {
    if d == 0 {
        '0'
    } else if d == 1 {
        '1'
    } else if d == 2 {
        '2'
    } else if d == 3 {
        '3'
    } else if d == 4 {
        '4'
    } else if d == 5 {
        '5'
    } else if d == 6 {
        '6'
    } else if d == 7 {
        '7'
    } else if d == 8 {
        '8'
    } else {
        '9'
    }
}

/// `n` written in decimal, without leading zeros.
pub open spec fn decimal(n: nat) -> Seq<char>
    decreases n,
{
    if n < 10 {
        seq![digit_char(n)]
    } else {
        decimal(n / 10) + seq![digit_char(n % 10)]
    }
}

fn digit_str(d: usize) -> (r: &'static str)
    requires
        d < 10,
    ensures
        r@ == seq![digit_char(d as nat)],
{
    proof {
        reveal_strlit("0");
        reveal_strlit("1");
        reveal_strlit("2");
        reveal_strlit("3");
        reveal_strlit("4");
        reveal_strlit("5");
        reveal_strlit("6");
        reveal_strlit("7");
        reveal_strlit("8");
        reveal_strlit("9");
    }
    if d == 0 {
        "0"
    } else if d == 1 {
        "1"
    } else if d == 2 {
        "2"
    } else if d == 3 {
        "3"
    } else if d == 4 {
        "4"
    } else if d == 5 {
        "5"
    } else if d == 6 {
        "6"
    } else if d == 7 {
        "7"
    } else if d == 8 {
        "8"
    } else {
        "9"
    }
}

/// Appends `n` in decimal to `s`.
pub fn push_decimal(s: &mut String, n: usize)
    ensures
        final(s)@ == old(s)@ + decimal(n as nat),
    decreases n,
{
    if n >= 10 {
        push_decimal(s, n / 10);
    }
    s.append(digit_str(n % 10));
    assert(final(s)@ =~= old(s)@ + decimal(n as nat));
}

/// What stands before and after the number in the address of a parameter
/// on the device of `side`.
pub open spec fn address_parts(kind: ParamKind, side: Side) -> (Seq<char>, Seq<char>) {
    match (side, kind) {
        (Side::Left, ParamKind::X) => ("/dbaudio1/coordinatemapping/source_position_x/1/"@, ""@),
        (Side::Left, ParamKind::Y) => ("/dbaudio1/coordinatemapping/source_position_y/1/"@, ""@),
        (Side::Left, ParamKind::Gain) => ("/dbaudio1/matrixinput/reverbsendgain/"@, ""@),
        (Side::Left, ParamKind::ReverbGain) => ("/dbaudio1/reverbinputprocessing/gain/"@, ""@),
        (Side::Right, ParamKind::X) => ("/ch/"@, "/send/1/pan"@),
        (Side::Right, ParamKind::Y) => ("/ch/"@, "/send/1/wid"@),
        (Side::Right, ParamKind::Gain) => ("/ch/"@, "/send/1/lvl"@),
        (Side::Right, ParamKind::ReverbGain) => ("/bus/"@, "/fdr"@),
    }
}

/// The address under which the device of `side` takes the value of `param`.
pub open spec fn address(param: Param, side: Side) -> Seq<char> {
    let (prefix, suffix) = address_parts(param.kind, side);
    prefix + decimal(param.number as nat) + suffix
}

fn parts(kind: ParamKind, side: Side) -> (r: (&'static str, &'static str))
    ensures
        (r.0@, r.1@) == address_parts(kind, side),
{
    match (side, kind) {
        (Side::Left, ParamKind::X) => ("/dbaudio1/coordinatemapping/source_position_x/1/", ""),
        (Side::Left, ParamKind::Y) => ("/dbaudio1/coordinatemapping/source_position_y/1/", ""),
        (Side::Left, ParamKind::Gain) => ("/dbaudio1/matrixinput/reverbsendgain/", ""),
        (Side::Left, ParamKind::ReverbGain) => ("/dbaudio1/reverbinputprocessing/gain/", ""),
        (Side::Right, ParamKind::X) => ("/ch/", "/send/1/pan"),
        (Side::Right, ParamKind::Y) => ("/ch/", "/send/1/wid"),
        (Side::Right, ParamKind::Gain) => ("/ch/", "/send/1/lvl"),
        (Side::Right, ParamKind::ReverbGain) => ("/bus/", "/fdr"),
    }
}

/// The address under which the device of `side` takes the value of `param`.
pub fn address_of(param: Param, side: Side) -> (r: String)
    ensures
        r@ == address(param, side),
{
    let (prefix, suffix) = parts(param.kind, side);
    let mut s = String::from_str(prefix);
    push_decimal(&mut s, param.number);
    s.append(suffix);
    s
}

} // verus!

verus! {

/// Number of addresses polled on the device of `side` each cycle.
pub open spec fn subscription_count(side: Side) -> int {
    match side {
        Side::Left => 2 * CHANNELS + REVERBS,
        Side::Right => PARAMS as int,
    }
}

/// The `k`-th address polled on the device of `side`: on the processor the
/// send gain and the x/y position of each channel, then the reverb gains; on
/// the console every parameter, in registry order.
pub open spec fn subscription(side: Side, k: int) -> Seq<char> {
    match side {
        Side::Left => if k < 2 * CHANNELS {
            if k % 2 == 0 {
                address(Param { kind: ParamKind::Gain, number: (k / 2 + 1) as usize }, Side::Left)
            } else {
                "/dbaudio1/coordinatemapping/source_position_xy/1/"@ + decimal((k / 2 + 1) as nat)
            }
        } else {
            address(
                Param { kind: ParamKind::ReverbGain, number: (k - 2 * CHANNELS + 1) as usize },
                Side::Left,
            )
        },
        Side::Right => address(param_at(k), Side::Right),
    }
}

/// The addresses to poll on the device of `side` so that it keeps reporting
/// the bridged parameters.
pub fn subscriptions(side: Side) -> (r: Vec<String>)
    ensures
        r@.len() == subscription_count(side),
        forall|k: int| 0 <= k < r@.len() ==> #[trigger] r@[k]@ == subscription(side, k),
{
    let mut out: Vec<String> = Vec::new();
    match side {
        Side::Left => {
            let mut n: usize = 1;
            while n <= CHANNELS
                invariant
                    1 <= n <= CHANNELS + 1,
                    out@.len() == 2 * (n - 1),
                    forall|k: int|
                        0 <= k < out@.len() ==> #[trigger] out@[k]@ == subscription(side, k),
                    side == Side::Left,
                decreases CHANNELS + 1 - n,
            {
                out.push(address_of(Param { kind: ParamKind::Gain, number: n }, Side::Left));
                let mut xy = String::from_str("/dbaudio1/coordinatemapping/source_position_xy/1/");
                push_decimal(&mut xy, n);
                out.push(xy);
                n += 1;
            }
            let mut n: usize = 1;
            while n <= REVERBS
                invariant
                    1 <= n <= REVERBS + 1,
                    out@.len() == 2 * CHANNELS + n - 1,
                    forall|k: int|
                        0 <= k < out@.len() ==> #[trigger] out@[k]@ == subscription(side, k),
                    side == Side::Left,
                decreases REVERBS + 1 - n,
            {
                out.push(address_of(Param { kind: ParamKind::ReverbGain, number: n }, Side::Left));
                n += 1;
            }
        },
        Side::Right => {
            let mut k: usize = 0;
            while k < PARAMS
                invariant
                    0 <= k <= PARAMS,
                    out@.len() == k,
                    forall|j: int|
                        0 <= j < out@.len() ==> #[trigger] out@[j]@ == subscription(side, j),
                    side == Side::Right,
                decreases PARAMS - k,
            {
                out.push(address_of(param_of(k), Side::Right));
                k += 1;
            }
        },
    }
    out
}

/// The parameter at position `k` of the registry.
pub fn param_of(k: usize) -> (r: Param)
    requires
        k < PARAMS,
    ensures
        r == param_at(k as int),
{
    if k < 3 * CHANNELS {
        let kind = if k % 3 == 0 {
            ParamKind::X
        } else if k % 3 == 1 {
            ParamKind::Y
        } else {
            ParamKind::Gain
        };
        Param { kind, number: k / 3 + 1 }
    } else {
        Param { kind: ParamKind::ReverbGain, number: k - 3 * CHANNELS + 1 }
    }
}

} // verus!
