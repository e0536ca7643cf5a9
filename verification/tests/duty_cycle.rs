use sensor_node::payload::EnvironmentalPayload;
use sensor_node::scheduler::Scheduler;

fn reading() -> EnvironmentalPayload {
    EnvironmentalPayload {
        temperature: -120,
        pressure: 99_000,
        humidity: 61_234,
        gas_resistance: 1_000,
    }
}

const NWK_SKEY: u128 = 0x000102030405060708090a0b0c0d0e0f;
const APP_SKEY: u128 = 0xf0e0d0c0b0a090807060504030201000;

#[test]
fn signal_starts_set_and_grants_exactly_one_cycle() {
    let mut s = Scheduler::new();
    assert_eq!(s.fcnt, 0);
    // The first pass works immediately.
    assert!(s.take_signal());
    // Until the timer fires again, no further cycle is granted.
    assert!(!s.take_signal());
    assert!(!s.take_signal());
    // One fire, one more cycle, no more.
    s.timer_fired();
    assert!(s.take_signal());
    assert!(!s.take_signal());
}

#[test]
fn a_fire_during_a_busy_cycle_is_not_dropped() {
    let mut s = Scheduler::new();
    assert!(s.take_signal());
    // The timer fires while the main loop is still busy; the pending
    // signal is honoured on the next poll, but only once.
    s.timer_fired();
    s.timer_fired();
    assert!(s.take_signal());
    assert!(!s.take_signal());
}

#[test]
fn counter_advances_by_one_each_cycle_and_is_never_reused() {
    let mut s = Scheduler::new();
    let mut seen = Vec::new();
    for i in 0..5u32 {
        if i > 0 {
            s.timer_fired();
        }
        assert!(s.take_signal());
        let before = s.fcnt;
        let frame = s.run_cycle(&reading(), 0x00c0_ffee, NWK_SKEY, APP_SKEY);
        // The counter the frame carries is the one the cycle started
        // from.
        assert_eq!(&frame[6..8], &[(before & 0xff) as u8, ((before >> 8) & 0xff) as u8]);
        assert_eq!(s.fcnt, before + 1);
        assert!(!seen.contains(&before));
        seen.push(before);
    }
    assert_eq!(seen, vec![0, 1, 2, 3, 4]);
}

#[test]
fn take_signal_leaves_counter_alone() {
    let mut s = Scheduler::new();
    assert!(s.take_signal());
    let _ = s.run_cycle(&reading(), 1, NWK_SKEY, APP_SKEY);
    let fcnt = s.fcnt;
    s.timer_fired();
    assert!(s.take_signal());
    assert_eq!(s.fcnt, fcnt);
}
