use psu_control::fixed::ONE;
use psu_control::kalman::Kalman;
use psu_control::pid::PID;
use psu_control::regulator::{burst_compare, check_limits, saturate_action, Config, Regulator, StageCommand};
use psu_control::state::{FaultCode, FaultState, State};

const I_MAX: i64 = 3800 * ONE / 30;

fn config(v_timeout: u64) -> Config {
    Config {
        v_set: 370 * ONE,
        v_lim: 400 * ONE,
        i_lim: ONE / 10,
        v_min: 340 * ONE,
        v_timeout,
        vin_min: 20 * ONE,
        vin_max: 30 * ONE,
        iin_max: 3 * ONE,
        iref_max: 3800,
    }
}

fn regulator_at(v_timeout: u64, vout: i64) -> Regulator {
    Regulator::new(
        config(v_timeout),
        PID::new(ONE / 10000, 20 * ONE, 30 * ONE, 8 * ONE, -I_MAX, I_MAX),
        Kalman::new(80 * ONE, ONE / 1000, 4761, vout),
        Kalman::new(ONE / 100, ONE / 500, 4761, 0),
    )
}

fn regulator() -> Regulator {
    regulator_at(500_000_000, 0)
}

/// Output voltage, output current, input current, input voltage counts.
fn readings(vout: u16, iout: u16) -> [u16; 4] {
    [vout, iout, 1000, 2821]
}

fn feed_until_disabled(r: &mut Regulator, buf1: [u16; 4], now: u64) -> usize {
    for n in 0..50 {
        match r.sample(buf1, [0, 0], now) {
            StageCommand::Disable => return n,
            c => assert_eq!(c, StageCommand::Hold),
        }
    }
    panic!("no fault after 50 samples");
}

#[test]
fn run_input_starts_a_stopped_supply() {
    let mut r = regulator();
    assert_eq!(r.state.fault_state, FaultState::Stopped);
    assert_eq!(r.heartbeat(false, 10), StageCommand::Hold);
    assert_eq!(r.state.fault_state, FaultState::Stopped);
    r.state.fault_code = FaultCode::VLim;
    assert_eq!(r.heartbeat(true, 100), StageCommand::Enable);
    assert_eq!(r.state.fault_state, FaultState::Running);
    assert_eq!(r.state.fault_code, FaultCode::NoFault);
    assert_eq!(r.start_time, 100);
    assert!(!r.start_elapsed);
}

#[test]
fn overvoltage_end_to_end() {
    let mut r = regulator();
    assert_eq!(r.heartbeat(true, 7), StageCommand::Enable);
    assert_eq!(r.state.fault_state, FaultState::Running);
    assert_eq!(r.state.fault_code, FaultCode::NoFault);
    assert_eq!(r.start_time, 7);
    r.control_tick();
    let n = feed_until_disabled(&mut r, readings(4095, 1000), 8);
    assert!(n >= 1);
    assert!(r.state.v_out >= 400 * ONE);
    assert_eq!(r.state.fault_state, FaultState::Fault);
    assert_eq!(r.state.fault_code, FaultCode::VLim);
    assert_eq!(r.control_tick(), 0);
    assert_eq!(r.state.ref_i_q, 0);
    assert_eq!(r.pid.get_i(), 0);
}

#[test]
fn overvoltage_wins_over_overcurrent() {
    let mut s = State::new();
    s.v_out = 500 * ONE;
    s.i_out = ONE;
    s.v_in = 25 * ONE;
    s.i_in = ONE;
    assert_eq!(check_limits(&config(0), &s, true), FaultCode::VLim);
    s.v_in = 0;
    s.i_in = 10 * ONE;
    assert_eq!(check_limits(&config(0), &s, true), FaultCode::VLim);

    let mut r = regulator();
    r.heartbeat(true, 0);
    feed_until_disabled(&mut r, readings(4095, 4095), 1);
    assert_eq!(r.state.fault_code, FaultCode::VLim);
}

#[test]
fn limits_are_checked_in_priority_order() {
    let c = config(0);
    let mut s = State::new();
    s.v_out = 370 * ONE;
    s.i_out = ONE / 100;
    s.v_in = 25 * ONE;
    s.i_in = ONE;
    assert_eq!(check_limits(&c, &s, true), FaultCode::NoFault);
    s.v_out = 300 * ONE;
    assert_eq!(check_limits(&c, &s, false), FaultCode::NoFault);
    assert_eq!(check_limits(&c, &s, true), FaultCode::NoVOut);
    s.i_in = 3 * ONE;
    assert_eq!(check_limits(&c, &s, true), FaultCode::IInHigh);
    s.v_in = 30 * ONE;
    assert_eq!(check_limits(&c, &s, true), FaultCode::VInHigh);
    s.v_in = 20 * ONE;
    assert_eq!(check_limits(&c, &s, true), FaultCode::VInLow);
    s.i_out = ONE / 10;
    assert_eq!(check_limits(&c, &s, true), FaultCode::ILim);
    s.v_out = 400 * ONE;
    assert_eq!(check_limits(&c, &s, true), FaultCode::VLim);
}

#[test]
fn each_limit_faults_through_samples() {
    let cases = [
        ([2289, 4095, 1000, 2821], FaultCode::ILim),
        ([2289, 1000, 1000, 1000], FaultCode::VInLow),
        ([2289, 1000, 1000, 4000], FaultCode::VInHigh),
        ([2289, 1000, 4000, 2821], FaultCode::IInHigh),
    ];
    for (buf1, code) in cases {
        let mut r = regulator_at(500_000_000, 370 * ONE);
        r.heartbeat(true, 0);
        feed_until_disabled(&mut r, buf1, 1);
        assert_eq!(r.state.fault_state, FaultState::Fault);
        assert_eq!(r.state.fault_code, code);
    }
}

#[test]
fn fault_is_latched_until_stopped() {
    let mut r = regulator();
    r.heartbeat(true, 0);
    feed_until_disabled(&mut r, readings(4095, 1000), 1);
    assert_eq!(r.state.fault_code, FaultCode::VLim);
    for t in 0..200 {
        assert_eq!(r.sample(readings(2289, 1000), [0, 0], 2 + t), StageCommand::Hold);
        assert_eq!(r.state.fault_state, FaultState::Fault);
        assert_eq!(r.state.fault_code, FaultCode::VLim);
    }
    assert!(r.state.v_out < 400 * ONE);
    assert_eq!(r.heartbeat(true, 300), StageCommand::Hold);
    assert_eq!(r.state.fault_state, FaultState::Fault);
    assert_eq!(r.heartbeat(false, 301), StageCommand::Hold);
    assert_eq!(r.state.fault_state, FaultState::Stopped);
    assert_eq!(r.heartbeat(true, 302), StageCommand::Enable);
    assert_eq!(r.state.fault_state, FaultState::Running);
    assert_eq!(r.state.fault_code, FaultCode::NoFault);
}

#[test]
fn no_output_fault_waits_for_the_startup_timeout() {
    let mut r = regulator_at(1_000_000, 300 * ONE);
    r.heartbeat(true, 1000);
    let low = readings(1856, 1000);
    assert_eq!(r.sample(low, [0, 0], 1000 + 500_000), StageCommand::Hold);
    assert!(r.state.v_out < 340 * ONE);
    assert_eq!(r.state.fault_state, FaultState::Running);
    assert_eq!(r.sample(low, [0, 0], 1000 + 1_000_000), StageCommand::Hold);
    assert_eq!(r.state.fault_state, FaultState::Running);
    assert!(!r.start_elapsed);
    assert_eq!(r.sample(low, [0, 0], 1000 + 1_000_001), StageCommand::Disable);
    assert_eq!(r.state.fault_state, FaultState::Fault);
    assert_eq!(r.state.fault_code, FaultCode::NoVOut);
}

#[test]
fn heartbeat_latches_the_startup_timeout() {
    let mut r = regulator_at(100, 370 * ONE);
    r.heartbeat(true, 50);
    assert_eq!(r.heartbeat(true, 150), StageCommand::Hold);
    assert!(!r.start_elapsed);
    assert_eq!(r.heartbeat(true, 151), StageCommand::Hold);
    assert!(r.start_elapsed);
}

#[test]
fn run_deasserted_stops_a_running_supply() {
    let mut r = regulator();
    r.heartbeat(true, 0);
    assert_eq!(r.heartbeat(false, 1), StageCommand::Disable);
    assert_eq!(r.state.fault_state, FaultState::Stopped);
}

#[test]
fn hardware_fault_disables_and_keeps_first_cause() {
    let mut r = regulator();
    r.heartbeat(true, 0);
    assert_eq!(r.hardware_fault(), StageCommand::Disable);
    assert_eq!(r.state.fault_state, FaultState::Fault);
    assert_eq!(r.state.fault_code, FaultCode::NoRun);

    let mut s = regulator();
    assert_eq!(s.hardware_fault(), StageCommand::Disable);
    assert_eq!(s.state.fault_state, FaultState::Fault);
    assert_eq!(s.state.fault_code, FaultCode::NoRun);

    let mut t = regulator();
    t.heartbeat(true, 0);
    feed_until_disabled(&mut t, readings(4095, 1000), 1);
    assert_eq!(t.hardware_fault(), StageCommand::Disable);
    assert_eq!(t.state.fault_code, FaultCode::VLim);
}

#[test]
fn control_tick_drives_towards_setpoint_while_running() {
    let mut r = regulator_at(500_000_000, 360 * ONE);
    r.heartbeat(true, 0);
    assert_eq!(r.control_tick(), 200);
    assert_eq!(r.state.ref_i_q, 200);

    let mut far = regulator_at(500_000_000, 0);
    far.heartbeat(true, 0);
    assert_eq!(far.control_tick(), 3800);

    let mut high = regulator_at(500_000_000, 390 * ONE);
    high.heartbeat(true, 0);
    assert_eq!(high.control_tick(), 0);
}

#[test]
fn control_tick_resets_when_not_running() {
    let mut r = regulator_at(500_000_000, 360 * ONE);
    r.heartbeat(true, 0);
    r.control_tick();
    assert!(r.pid.get_i() > 0);
    r.heartbeat(false, 1);
    assert_eq!(r.control_tick(), 0);
    assert_eq!(r.pid.get_i(), 0);
    assert_eq!(r.state.ref_i_q, 0);
}

#[test]
fn actions_saturate_to_actuator_range() {
    assert_eq!(saturate_action(-ONE, 3800), 0);
    assert_eq!(saturate_action(-1, 3800), 0);
    assert_eq!(saturate_action(5000 * ONE, 3800), 3800);
    assert_eq!(saturate_action(12 * ONE + ONE / 2, 3800), 12);
    assert_eq!(saturate_action(i64::MAX, 3800), 3800);
}

#[test]
fn duty_cycle_maps_to_idle_share() {
    assert_eq!(burst_compare(0), 1000);
    assert_eq!(burst_compare(250), 750);
    assert_eq!(burst_compare(1000), 0);
    assert_eq!(burst_compare(4000), 0);
}

#[test]
fn output_exactly_at_minimum_keeps_running() {
    let c = config(0);
    let mut s = State::new();
    s.v_out = 340 * ONE;
    s.i_out = ONE / 100;
    s.v_in = 25 * ONE;
    s.i_in = ONE;
    assert_eq!(check_limits(&c, &s, true), FaultCode::NoFault);
    s.v_out = 340 * ONE - 1;
    assert_eq!(check_limits(&c, &s, true), FaultCode::NoVOut);
}
