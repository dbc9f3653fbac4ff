use osc_bridge::address::{address_of, subscriptions};
use osc_bridge::bridge::Bridge;
use osc_bridge::param::{Param, ParamKind};
use osc_bridge::route::{number_in, route, Target};
use osc_bridge::side::Side;

fn param(kind: ParamKind, number: usize) -> Param {
    Param { kind, number }
}

#[test]
fn console_pan_reaches_processor_once() {
    let mut bridge = Bridge::new();
    let targets = route(Side::Right, "/ch/8/send/1/pan");
    assert_eq!(targets, vec![Target { param: param(ParamKind::X, 8), arg: 2 }]);
    assert!(bridge.update(targets[0].param, Side::Right, 300_000, 0));
    let out = bridge.flush_all(100);
    assert_eq!(out.len(), 1);
    assert_eq!(out[0].param, param(ParamKind::X, 8));
    assert_eq!(out[0].destination, Side::Left);
    assert_eq!(out[0].value, 300_000);
    assert_eq!(out[0].address, "/dbaudio1/coordinatemapping/source_position_x/1/8");
    assert!(!out[0].forced);
    // nothing new in the next cycle
    assert!(bridge.flush_all(200).is_empty());
}

#[test]
fn processor_position_reaches_console() {
    let mut bridge = Bridge::new();
    let targets = route(Side::Left, "/dbaudio1/coordinatemapping/source_position_xy/1/8");
    assert_eq!(
        targets,
        vec![
            Target { param: param(ParamKind::X, 8), arg: 0 },
            Target { param: param(ParamKind::Y, 8), arg: 1 },
        ]
    );
    bridge.update(targets[0].param, Side::Left, 300_000, 0);
    bridge.update(targets[1].param, Side::Left, 700_000, 0);
    let out = bridge.flush_all(100);
    assert_eq!(out.len(), 2);
    assert_eq!(out[0].address, "/ch/8/send/1/pan");
    assert_eq!(out[0].value, 300_000);
    assert_eq!(out[0].destination, Side::Right);
    assert_eq!(out[1].address, "/ch/8/send/1/wid");
    assert_eq!(out[1].value, 700_000);
}

#[test]
fn gains_are_converted_between_devices() {
    let mut bridge = Bridge::new();
    let targets = route(Side::Right, "/ch/3/send/1/lvl");
    assert_eq!(targets, vec![Target { param: param(ParamKind::Gain, 3), arg: 2 }]);
    bridge.update(targets[0].param, Side::Right, 10_000_000, 0);
    let out = bridge.flush_all(0);
    assert_eq!(out.len(), 1);
    assert_eq!(out[0].address, "/dbaudio1/matrixinput/reverbsendgain/3");
    assert_eq!(out[0].value, 24_000_000);
    assert_eq!(bridge.get(param(ParamKind::Gain, 3)).right_value(), 10_000_000);
    assert_eq!(bridge.get(param(ParamKind::Gain, 3)).current_master(), Some(Side::Right));
}

#[test]
fn reverb_gain_routes_both_ways() {
    let mut bridge = Bridge::new();
    assert_eq!(
        route(Side::Right, "/bus/4/fdr"),
        vec![Target { param: param(ParamKind::ReverbGain, 4), arg: 2 }]
    );
    let targets = route(Side::Left, "/dbaudio1/reverbinputprocessing/gain/2");
    assert_eq!(targets, vec![Target { param: param(ParamKind::ReverbGain, 2), arg: 0 }]);
    bridge.update(targets[0].param, Side::Left, -12_000_000, 0);
    let out = bridge.flush_all(0);
    assert_eq!(out.len(), 1);
    assert_eq!(out[0].address, "/bus/2/fdr");
    assert_eq!(out[0].value, -14_000_000);
}

#[test]
fn unknown_or_out_of_range_addresses_route_nowhere() {
    assert!(route(Side::Right, "/ch/41/send/1/pan").is_empty());
    assert!(route(Side::Right, "/ch/0/send/1/pan").is_empty());
    assert!(route(Side::Right, "/ch//send/1/pan").is_empty());
    assert!(route(Side::Right, "/ch/8/send/1/pan/x").is_empty());
    assert!(route(Side::Right, "/ch/8/send/2/pan").is_empty());
    assert!(route(Side::Right, "/bus/5/fdr").is_empty());
    assert!(route(Side::Left, "/ch/8/send/1/pan").is_empty());
    assert!(route(Side::Right, "/dbaudio1/matrixinput/reverbsendgain/3").is_empty());
    assert!(route(Side::Left, "/dbaudio1/matrixinput/reverbsendgain/x").is_empty());
    assert!(route(Side::Left, "").is_empty());
    assert!(route(Side::Right, "/ch/99999999999999999999999/send/1/pan").is_empty());
}

#[test]
fn leading_zeros_are_accepted() {
    assert_eq!(
        route(Side::Right, "/ch/08/send/1/wid"),
        vec![Target { param: param(ParamKind::Y, 8), arg: 2 }]
    );
}

#[test]
fn number_parsing() {
    assert_eq!(number_in("/a/123/b", "/a/", "/b"), Some(123));
    assert_eq!(number_in("/a/12x/b", "/a/", "/b"), None);
    assert_eq!(number_in("/a//b", "/a/", "/b"), None);
    assert_eq!(number_in("/a/100000/b", "/a/", "/b"), Some(100_000));
    assert_eq!(number_in("/a/100001/b", "/a/", "/b"), None);
}

#[test]
fn invalid_param_changes_nothing() {
    let mut bridge = Bridge::new();
    assert!(!bridge.update(param(ParamKind::ReverbGain, 5), Side::Left, 9_000_000, 0));
    assert!(!bridge.update(param(ParamKind::X, 0), Side::Left, 9_000_000, 0));
    assert!(bridge.flush_all(0).is_empty());
}

#[test]
fn addresses_per_side() {
    assert_eq!(address_of(param(ParamKind::X, 12), Side::Right), "/ch/12/send/1/pan");
    assert_eq!(address_of(param(ParamKind::Y, 40), Side::Right), "/ch/40/send/1/wid");
    assert_eq!(address_of(param(ParamKind::Gain, 1), Side::Right), "/ch/1/send/1/lvl");
    assert_eq!(address_of(param(ParamKind::ReverbGain, 3), Side::Right), "/bus/3/fdr");
    assert_eq!(
        address_of(param(ParamKind::Y, 7), Side::Left),
        "/dbaudio1/coordinatemapping/source_position_y/1/7"
    );
    assert_eq!(
        address_of(param(ParamKind::ReverbGain, 1), Side::Left),
        "/dbaudio1/reverbinputprocessing/gain/1"
    );
}

#[test]
fn subscription_lists() {
    let ds100 = subscriptions(Side::Left);
    assert_eq!(ds100.len(), 84);
    assert_eq!(ds100[0], "/dbaudio1/matrixinput/reverbsendgain/1");
    assert_eq!(ds100[1], "/dbaudio1/coordinatemapping/source_position_xy/1/1");
    assert_eq!(ds100[79], "/dbaudio1/coordinatemapping/source_position_xy/1/40");
    assert_eq!(ds100[83], "/dbaudio1/reverbinputprocessing/gain/4");
    let wing = subscriptions(Side::Right);
    assert_eq!(wing.len(), 124);
    assert_eq!(wing[0], "/ch/1/send/1/pan");
    assert_eq!(wing[1], "/ch/1/send/1/wid");
    assert_eq!(wing[2], "/ch/1/send/1/lvl");
    assert_eq!(wing[119], "/ch/40/send/1/lvl");
    assert_eq!(wing[120], "/bus/1/fdr");
    assert_eq!(wing[123], "/bus/4/fdr");
}

#[test]
fn synchronizer_names() {
    let bridge = Bridge::new();
    assert_eq!(bridge.get(param(ParamKind::X, 1)).name(), "x01");
    assert_eq!(bridge.get(param(ParamKind::Gain, 40)).name(), "g40");
    assert_eq!(bridge.get(param(ParamKind::ReverbGain, 2)).name(), "rg2");
}

#[test]
fn forced_push_is_flagged() {
    let mut bridge = Bridge::new();
    let p = param(ParamKind::Y, 5);
    bridge.update(p, Side::Right, 2_000_000, 0);
    let out = bridge.flush_all(0);
    assert_eq!(out.len(), 1);
    assert!(!out[0].forced);
    assert!(bridge.flush_all(300).is_empty());
    let out = bridge.flush_all(400);
    assert_eq!(out.len(), 1);
    assert!(out[0].forced);
    assert_eq!(out[0].destination, Side::Left);
    assert_eq!(out[0].value, 2_000_000);
    assert_eq!(out[0].address, "/dbaudio1/coordinatemapping/source_position_y/1/5");
}
