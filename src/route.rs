//! The grammar of the addresses that the devices report under, and the
//! parameters each of them sets.

use vstd::prelude::*;
use vstd::string::StrSliceExecFns;

use crate::param::{Param, ParamKind, CHANNELS, REVERBS};
use crate::side::Side;

verus! {

/// Numbers above this are never a channel; parsing stops counting there.
pub const MAX_NUMBER: usize = 100_000;

pub open spec fn is_digit(c: char) -> bool {
    '0' <= c <= '9'
}

pub open spec fn digit_value(c: char) -> nat {
    (c as int - '0' as int) as nat
}

/// The number that the decimal digits `s` write.
pub open spec fn digits_value(s: Seq<char>) -> nat
    decreases s.len(),
{
    if s.len() == 0 {
        0
    } else {
        digits_value(s.drop_last()) * 10 + digit_value(s.last())
    }
}

/// The number in `addr` if `addr` is `prefix`, one or more decimal digits,
/// then `suffix`.
pub open spec fn number_between(addr: Seq<char>, prefix: Seq<char>, suffix: Seq<char>) -> Option<nat> {
    let end = addr.len() - suffix.len();
    if addr.len() > prefix.len() + suffix.len() && addr.subrange(0, prefix.len() as int) == prefix
        && addr.subrange(end, addr.len() as int) == suffix && forall|i: int|
        prefix.len() <= i < end ==> is_digit(#[trigger] addr[i]) {
        Some(digits_value(addr.subrange(prefix.len() as int, end)))
    } else {
        None
    }
}

/// The parameter of `kind` whose number `addr` holds between `prefix` and
/// `suffix`, if that number is one of a parameter.
pub open spec fn param_between(
    addr: Seq<char>,
    prefix: Seq<char>,
    suffix: Seq<char>,
    kind: ParamKind,
) -> Option<Param> {
    match number_between(addr, prefix, suffix) {
        Some(n) => {
            let limit = if kind == ParamKind::ReverbGain {
                REVERBS
            } else {
                CHANNELS
            };
            if 1 <= n <= limit {
                Some(Param { kind, number: n as usize })
            } else {
                None
            }
        },
        None => None,
    }
}

/// A parameter that a received message sets, and the position of the
/// message's argument that carries the value.
#[derive(Clone, Copy, Debug, PartialEq, Eq, Structural)]
pub struct Target {
    pub param: Param,
    pub arg: usize,
}

pub open spec fn xy_prefix() -> Seq<char> {
    "/dbaudio1/coordinatemapping/source_position_xy/1/"@
}

pub open spec fn send_gain_prefix() -> Seq<char> {
    "/dbaudio1/matrixinput/reverbsendgain/"@
}

pub open spec fn reverb_gain_prefix() -> Seq<char> {
    "/dbaudio1/reverbinputprocessing/gain/"@
}

/// The parameters that a message with address `addr` from the device of
/// `side` sets; empty where the address is not one of a bridged parameter.
pub open spec fn targets_of(side: Side, addr: Seq<char>) -> Seq<Target> {
    match side {
        Side::Left => {
            if let Some(p) = param_between(addr, xy_prefix(), ""@, ParamKind::X) {
                seq![
                    Target { param: p, arg: 0 },
                    Target { param: Param { kind: ParamKind::Y, number: p.number }, arg: 1 },
                ]
            } else if let Some(p) = param_between(addr, send_gain_prefix(), ""@, ParamKind::Gain) {
                seq![Target { param: p, arg: 0 }]
            } else if let Some(p) = param_between(
                addr,
                reverb_gain_prefix(),
                ""@,
                ParamKind::ReverbGain,
            ) {
                seq![Target { param: p, arg: 0 }]
            } else {
                seq![]
            }
        },
        Side::Right => {
            if let Some(p) = param_between(addr, "/ch/"@, "/send/1/pan"@, ParamKind::X) {
                seq![Target { param: p, arg: 2 }]
            } else if let Some(p) = param_between(addr, "/ch/"@, "/send/1/wid"@, ParamKind::Y) {
                seq![Target { param: p, arg: 2 }]
            } else if let Some(p) = param_between(addr, "/ch/"@, "/send/1/lvl"@, ParamKind::Gain) {
                seq![Target { param: p, arg: 2 }]
            } else if let Some(p) = param_between(
                addr,
                "/bus/"@,
                "/fdr"@,
                ParamKind::ReverbGain,
            ) {
                seq![Target { param: p, arg: 2 }]
            } else {
                seq![]
            }
        },
    }
}

proof fn lemma_digits_value_grows(s: Seq<char>, c: char)
    requires
        is_digit(c),
    ensures
        digits_value(s.push(c)) == digits_value(s) * 10 + digit_value(c),
        digits_value(s.push(c)) >= digits_value(s),
{
    assert(s.push(c).drop_last() =~= s);
}

/// Whether `addr` holds `part` at position `start`.
fn holds_at(addr: &str, start: usize, part: &str) -> (r: bool)
    requires
        start + part@.len() <= addr@.len() <= usize::MAX,
    ensures
        r == (addr@.subrange(start as int, start + part@.len()) == part@),
{
    let n = part.unicode_len();
    let mut i: usize = 0;
    while i < n
        invariant
            n == part@.len(),
            start + n <= addr@.len() <= usize::MAX,
            0 <= i <= n,
            forall|j: int| 0 <= j < i ==> addr@[start + j] == part@[j],
        decreases n - i,
    {
        if addr.get_char(start + i) != part.get_char(i) {
            assert(addr@.subrange(start as int, start + n)[i as int] != part@[i as int]);
            return false;
        }
        i += 1;
    }
    assert(addr@.subrange(start as int, start + n) =~= part@);
    true
}

/// The number between `prefix` and `suffix` in `addr`, if it is at most `MAX_NUMBER`.
pub fn number_in(addr: &str, prefix: &str, suffix: &str) -> (r: Option<usize>)
    ensures
        r == (match number_between(addr@, prefix@, suffix@) {
            Some(n) => if n <= MAX_NUMBER {
                Some(n as usize)
            } else {
                None
            },
            None => None,
        }),
{
    let len = addr.unicode_len();
    let p = prefix.unicode_len();
    let s = suffix.unicode_len();
    if len <= p || len - p <= s {
        return None;
    }
    let end = len - s;
    if !holds_at(addr, 0, prefix) || !holds_at(addr, end, suffix) {
        return None;
    }
    let ghost digits = addr@.subrange(p as int, end as int);
    let mut value: usize = 0;
    let mut big = false;
    let mut i: usize = p;
    while i < end
        invariant
            len == addr@.len(),
            p == prefix@.len(),
            end == addr@.len() - suffix@.len(),
            p <= i <= end,
            digits == addr@.subrange(p as int, end as int),
            forall|j: int| p <= j < i ==> is_digit(#[trigger] addr@[j]),
            !big ==> value == digits_value(addr@.subrange(p as int, i as int)),
            !big ==> value <= MAX_NUMBER,
            big ==> digits_value(addr@.subrange(p as int, i as int)) > MAX_NUMBER,
        decreases end - i,
    {
        let c = addr.get_char(i);
        if !('0' <= c && c <= '9') {
            assert(!is_digit(addr@[i as int]));
            return None;
        }
        proof {
            lemma_digits_value_grows(addr@.subrange(p as int, i as int), c);
            assert(addr@.subrange(p as int, i as int).push(c) =~= addr@.subrange(p as int, i + 1));
        }
        if !big {
            let d = (c as u32 - '0' as u32) as usize;
            if value > (MAX_NUMBER - d) / 10 {
                big = true;
            } else {
                value = value * 10 + d;
            }
        }
        i += 1;
    }
    assert(addr@.subrange(p as int, i as int) =~= digits);
    if big {
        None
    } else {
        Some(value)
    }
}

fn param_in(addr: &str, prefix: &str, suffix: &str, kind: ParamKind) -> (r: Option<Param>)
    ensures
        r == param_between(addr@, prefix@, suffix@, kind),
{
    let limit = if kind == ParamKind::ReverbGain {
        REVERBS
    } else {
        CHANNELS
    };
    match number_in(addr, prefix, suffix) {
        Some(n) => {
            if 1 <= n && n <= limit {
                Some(Param { kind, number: n })
            } else {
                None
            }
        },
        None => None,
    }
}

/// The parameters that a message with address `addr` from the device of
/// `side` sets, each with the argument that carries its value.
pub fn route(side: Side, addr: &str) -> (r: Vec<Target>)
    ensures
        r@ == targets_of(side, addr@),
{
    match side {
        Side::Left => {
            if let Some(p) = param_in(
                addr,
                "/dbaudio1/coordinatemapping/source_position_xy/1/",
                "",
                ParamKind::X,
            ) {
                vec![
                    Target { param: p, arg: 0 },
                    Target { param: Param { kind: ParamKind::Y, number: p.number }, arg: 1 },
                ]
            } else if let Some(p) = param_in(
                addr,
                "/dbaudio1/matrixinput/reverbsendgain/",
                "",
                ParamKind::Gain,
            ) {
                vec![Target { param: p, arg: 0 }]
            } else if let Some(p) = param_in(
                addr,
                "/dbaudio1/reverbinputprocessing/gain/",
                "",
                ParamKind::ReverbGain,
            ) {
                vec![Target { param: p, arg: 0 }]
            } else {
                Vec::new()
            }
        },
        Side::Right => {
            if let Some(p) = param_in(addr, "/ch/", "/send/1/pan", ParamKind::X) {
                vec![Target { param: p, arg: 2 }]
            } else if let Some(p) = param_in(addr, "/ch/", "/send/1/wid", ParamKind::Y) {
                vec![Target { param: p, arg: 2 }]
            } else if let Some(p) = param_in(addr, "/ch/", "/send/1/lvl", ParamKind::Gain) {
                vec![Target { param: p, arg: 2 }]
            } else if let Some(p) = param_in(addr, "/bus/", "/fdr", ParamKind::ReverbGain) {
                vec![Target { param: p, arg: 2 }]
            } else {
                Vec::new()
            }
        },
    }
}

} // verus!
