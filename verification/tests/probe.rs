use pmtu::Action;
use pmtu::CorrelationTable;
use pmtu::Event;
use pmtu::Probe;
use pmtu::Registration;
use pmtu::addr_key;
use pmtu::encode_echo_request;
use pmtu::handle_datagram;
use pmtu::resolve_perfect;
use pmtu::resolve_silent;
use pmtu::resolve_threshold;

#[test]
fn perfect_path_resolves_in_one_round() {
    assert_eq!(resolve_perfect(10_000), (1472, 1));
}

#[test]
fn threshold_paths_resolve_exactly() {
    for k in [548u16, 549, 560, 563, 777, 1000, 1366, 1456, 1471, 1472] {
        assert_eq!(resolve_threshold(30_000, k), k, "boundary {}", k);
    }
}

#[test]
fn threshold_off_grid_boundaries() {
    for k in 900u16..932 {
        assert_eq!(resolve_threshold(25_000, k), k, "boundary {}", k);
    }
}

#[test]
fn threshold_with_scant_budget_is_best_effort() {
    // the budget runs out mid-descent: the floor is confirmed but the
    // boundary is not reached, and the result stays below it
    assert_eq!(resolve_threshold(500, 1000), 548);
    // no budget at all: not even the floor is confirmed
    assert_eq!(resolve_threshold(0, 700), 0);
}

#[test]
fn silent_path_returns_zero_after_budget() {
    assert_eq!(resolve_silent(5_000), (0, 5_000));
    assert_eq!(resolve_silent(0), (0, 0));
    assert_eq!(resolve_silent(250), (0, 250));
}

#[test]
fn ceiling_probe_goes_out_first() {
    let (p, a) = Probe::start(10_000);
    assert_eq!(a, Action::Send { size: 1472, wait_ms: 300 });
    assert_eq!(p.min, 548);
    assert_eq!(p.ceiling, 1472);
    assert!(!p.confirmed);
}

#[test]
fn ceiling_reply_finishes_at_ceiling() {
    let (p, _) = Probe::start(10_000);
    let (p2, a2) = p.step(Event::Reply { len: 1472 });
    assert_eq!(a2, Action::Finish { mtu: 1472 });
    assert!(p2.confirmed);
}

#[test]
fn floor_confirmation_after_ceiling_timeout() {
    let (p, _) = Probe::start(10_000);
    let (p2, a2) = p.step(Event::Timeout);
    assert_eq!(a2, Action::Send { size: 548, wait_ms: 100 });
    assert_eq!(p2.budget_ms, 9_700);
}

#[test]
fn descent_starts_one_step_below_ceiling() {
    let (p, _) = Probe::start(10_000);
    let (p, _) = p.step(Event::Timeout);
    let (p, a) = p.step(Event::Reply { len: 548 });
    assert!(p.confirmed);
    assert_eq!(a, Action::Send { size: 1456, wait_ms: 300 });
}

#[test]
fn descent_success_switches_to_refinement() {
    let (p, _) = Probe::start(10_000);
    let (p, _) = p.step(Event::Timeout);
    let (p, _) = p.step(Event::Reply { len: 548 });
    let (p, _) = p.step(Event::Timeout);
    let (p, a) = p.step(Event::Reply { len: 1440 });
    assert_eq!(p.min, 1440);
    assert_eq!(a, Action::Send { size: 1448, wait_ms: 300 });
}

#[test]
fn silent_floor_gives_up_with_zero() {
    let (mut p, mut a) = Probe::start(1_000);
    let mut rounds = 0u32;
    loop {
        match a {
            Action::Finish { mtu } => {
                assert_eq!(mtu, 0);
                break;
            },
            _ => {
                let next = p.step(Event::Timeout);
                p = next.0;
                a = next.1;
            },
        }
        rounds += 1;
        assert!(rounds < 100, "the search must not loop forever");
    }
    assert_eq!(p.budget_ms, 0);
}

#[test]
fn receiver_routes_reply_to_registered_probe() {
    let mut t = CorrelationTable::new();
    let key = addr_key(0x0A00_0001, 0);
    let token = match t.register_or_attach(key) {
        Registration::Primary { token } => token,
        Registration::Secondary { .. } => panic!("first caller must be primary"),
    };
    let mut reply = vec![0u8; 8];
    reply.extend(std::iter::repeat(9).take(572));
    assert_eq!(handle_datagram(&t, &reply, key, false), Some((token, 572)));
    let other = addr_key(0x0A00_0002, 0);
    assert_eq!(handle_datagram(&t, &reply, other, false), None);
    let request = encode_echo_request(16);
    assert_eq!(handle_datagram(&t, &request, key, false), None);
}
