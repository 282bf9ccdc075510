use paranoia_sysinfo::channel::{Broadcaster, RecvOutcome};
use paranoia_sysinfo::driver::{connection_step, tick, HandlerStep};
use paranoia_sysinfo::message::json_message;
use paranoia_sysinfo::metrics::{snapshot, CounterSet, HardwareSnapshot};

fn counters(cpu_busy_pct: u64, core_count: u64, used: u64, total: u64, net: u64) -> CounterSet {
    CounterSet {
        cpu_busy_pct,
        core_count,
        used_memory: used,
        total_memory: total,
        net_bytes: net,
    }
}

#[test]
fn snapshot_concrete_scenario() {
    let s = snapshot(&counters(50, 2, 500, 1000, 2048));
    assert_eq!(s.cpu_pct, 25);
    assert_eq!(s.mem_pct, 50);
    assert_eq!(s.net_centi_kib, 200);
}

#[test]
fn zero_core_count_yields_zero_cpu() {
    let s = snapshot(&counters(0, 0, 10, 20, 0));
    assert_eq!(s.cpu_pct, 0);
}

#[test]
fn zero_total_memory_yields_zero_mem() {
    let s = snapshot(&counters(30, 1, 0, 0, 0));
    assert_eq!(s.mem_pct, 0);
}

#[test]
fn percentages_stay_within_bounds() {
    let readings = [
        counters(100, 1, 7, 7, 9999),
        counters(399, 4, 1, u64::MAX, 0),
        counters(0, 16, u64::MAX, u64::MAX, u64::MAX),
        counters(1599, 16, 123, 456, 1),
    ];
    for c in readings.iter() {
        let s = snapshot(c);
        assert!(s.cpu_pct <= 100);
        assert!(s.mem_pct <= 100);
    }
}

#[test]
fn percentages_truncate() {
    // 199 busy over 2 cores is 99.5, truncated to 99; 2 of 3 memory is 66.6,
    // truncated to 66.
    let s = snapshot(&counters(199, 2, 2, 3, 0));
    assert_eq!(s.cpu_pct, 99);
    assert_eq!(s.mem_pct, 66);
}

#[test]
fn net_rounds_half_away_from_zero() {
    // 128 bytes is 0.125 KiB; the half hundredth rounds away from zero.
    assert_eq!(snapshot(&counters(0, 1, 0, 1, 128)).net_centi_kib, 13);
    // 1536 bytes is exactly 1.50 KiB.
    assert_eq!(snapshot(&counters(0, 1, 0, 1, 1536)).net_centi_kib, 150);
    // 5 bytes is 0.0048 KiB, rounded down to 0.00.
    assert_eq!(snapshot(&counters(0, 1, 0, 1, 5)).net_centi_kib, 0);
    assert_eq!(snapshot(&counters(0, 1, 0, 1, 0)).net_centi_kib, 0);
}

#[test]
fn json_message_exact_bytes() {
    let s = HardwareSnapshot { cpu_pct: 25, mem_pct: 50, net_centi_kib: 200 };
    let m = json_message(&s);
    assert_eq!(m, b"{\"cpu\":25,\"mem\":50,\"net\":2.00}".to_vec());
}

#[test]
fn json_message_zero_keeps_two_fraction_digits() {
    let s = HardwareSnapshot { cpu_pct: 0, mem_pct: 0, net_centi_kib: 0 };
    let m = json_message(&s);
    assert_eq!(m, b"{\"cpu\":0,\"mem\":0,\"net\":0.00}".to_vec());
}

#[test]
fn json_message_fraction_only() {
    let s = HardwareSnapshot { cpu_pct: 100, mem_pct: 7, net_centi_kib: 13 };
    let m = json_message(&s);
    assert_eq!(m, b"{\"cpu\":100,\"mem\":7,\"net\":0.13}".to_vec());
}

#[test]
fn publish_without_subscribers_is_normal() {
    let mut b = Broadcaster::new();
    let a = HardwareSnapshot { cpu_pct: 1, mem_pct: 1, net_centi_kib: 1 };
    assert!(b.publish(a));
    assert!(b.publish(a));
    assert_eq!(b.seq_now(), 2);
    assert!(!b.closed_now());
}

#[test]
fn slow_subscriber_gets_latest_only() {
    let mut b = Broadcaster::new();
    let mut cur = b.subscribe();
    let a = HardwareSnapshot { cpu_pct: 10, mem_pct: 20, net_centi_kib: 30 };
    let bb = HardwareSnapshot { cpu_pct: 40, mem_pct: 50, net_centi_kib: 60 };
    b.publish(a);
    b.publish(bb);
    // The subscriber skipped sequence 1; it receives exactly the value of
    // sequence 2, once.
    assert_eq!(b.try_receive(&mut cur), RecvOutcome::Value(bb));
    assert_eq!(cur.position_now(), 2);
    assert_eq!(b.try_receive(&mut cur), RecvOutcome::Pending);
}

#[test]
fn received_sequences_strictly_increase() {
    let mut b = Broadcaster::new();
    let mut cur = b.subscribe();
    let a = HardwareSnapshot { cpu_pct: 1, mem_pct: 2, net_centi_kib: 3 };
    let c = HardwareSnapshot { cpu_pct: 4, mem_pct: 5, net_centi_kib: 6 };
    b.publish(a);
    assert_eq!(b.try_receive(&mut cur), RecvOutcome::Value(a));
    assert_eq!(cur.position_now(), 1);
    b.publish(c);
    assert_eq!(b.try_receive(&mut cur), RecvOutcome::Value(c));
    assert_eq!(cur.position_now(), 2);
}

#[test]
fn subscriber_waits_for_next_publish() {
    let mut b = Broadcaster::new();
    let a = HardwareSnapshot { cpu_pct: 9, mem_pct: 9, net_centi_kib: 9 };
    b.publish(a);
    // The cursor starts at the current sequence: the value published before
    // subscribing is never delivered.
    let mut cur = b.subscribe();
    assert_eq!(b.try_receive(&mut cur), RecvOutcome::Pending);
    b.publish(a);
    assert_eq!(b.try_receive(&mut cur), RecvOutcome::Value(a));
}

#[test]
fn close_resolves_blocked_and_future_receives() {
    let mut b = Broadcaster::new();
    let mut blocked = b.subscribe();
    assert_eq!(b.try_receive(&mut blocked), RecvOutcome::Pending);
    b.close();
    assert_eq!(b.try_receive(&mut blocked), RecvOutcome::Closed);
    assert_eq!(b.try_receive(&mut blocked), RecvOutcome::Closed);
    let mut late = b.subscribe();
    assert_eq!(b.try_receive(&mut late), RecvOutcome::Closed);
    // close is idempotent
    b.close();
    assert!(b.closed_now());
    assert_eq!(b.try_receive(&mut late), RecvOutcome::Closed);
}

#[test]
fn close_never_delivers_a_pending_value() {
    let mut b = Broadcaster::new();
    let mut cur = b.subscribe();
    let a = HardwareSnapshot { cpu_pct: 3, mem_pct: 3, net_centi_kib: 3 };
    b.publish(a);
    b.close();
    // An unconsumed value is not delivered after closure.
    assert_eq!(b.try_receive(&mut cur), RecvOutcome::Closed);
}

#[test]
fn publish_after_close_is_refused() {
    let mut b = Broadcaster::new();
    let a = HardwareSnapshot { cpu_pct: 2, mem_pct: 2, net_centi_kib: 2 };
    b.publish(a);
    b.close();
    assert!(!b.publish(a));
    assert_eq!(b.seq_now(), 1);
}

#[test]
fn tick_publishes_derived_snapshot() {
    let mut b = Broadcaster::new();
    let mut cur = b.subscribe();
    assert!(tick(&mut b, Some(counters(50, 2, 500, 1000, 2048))));
    assert_eq!(b.seq_now(), 1);
    let expected = HardwareSnapshot { cpu_pct: 25, mem_pct: 50, net_centi_kib: 200 };
    assert_eq!(b.try_receive(&mut cur), RecvOutcome::Value(expected));
}

#[test]
fn tick_skips_failed_reading() {
    let mut b = Broadcaster::new();
    assert!(!tick(&mut b, None));
    assert_eq!(b.seq_now(), 0);
    assert!(tick(&mut b, Some(counters(0, 1, 0, 1, 0))));
    assert!(!tick(&mut b, None));
    assert_eq!(b.seq_now(), 1);
}

#[test]
fn connection_step_forwards_waits_and_stops() {
    let mut b = Broadcaster::new();
    let mut cur = b.subscribe();
    match connection_step(&b, &mut cur) {
        HandlerStep::Wait => {}
        _ => panic!("expected to wait with nothing published"),
    }
    let s = HardwareSnapshot { cpu_pct: 25, mem_pct: 50, net_centi_kib: 200 };
    b.publish(s);
    match connection_step(&b, &mut cur) {
        HandlerStep::Forward(m) => {
            assert_eq!(m, b"{\"cpu\":25,\"mem\":50,\"net\":2.00}".to_vec());
        }
        _ => panic!("expected the fresh value to be forwarded"),
    }
    assert_eq!(cur.position_now(), 1);
    b.close();
    match connection_step(&b, &mut cur) {
        HandlerStep::Stop => {}
        _ => panic!("expected the handler to stop after close"),
    }
}
