//! The supervisor and the control cycle.
//!
//! Four events drive a [`Regulator`]; each is one method that decides the
//! next state and tells the caller what to do with the power stage:
//!
//! * `heartbeat`: the periodic supervisory poll of the run input;
//! * `sample`: a completed ADC sequence: convert, filter, check limits;
//! * `control_tick`: the fixed-rate control step, giving the actuation;
//! * `hardware_fault`: the asynchronous fault interrupt.
use vstd::prelude::*;
use crate::fixed::{fx_floor, ONE};
use crate::kalman::{corrected, predicted, Kalman};
use crate::pid::{control_action, next_integrator, PID};
use crate::state::{
    counts_to_fixed, empty_record, FaultCode, FaultState, State, IIN_DEN, IIN_NUM, IOUT_DEN, IOUT_NUM, VIN_DEN,
    VIN_NUM, VOUT_DEN, VOUT_NUM, VQ_DEN, VQ_NUM, IQ_DEN, IQ_NUM,
};

verus! {

/// Setpoint, safety limits and timing of the supply. Voltages in volts,
/// currents in amps (fixed-point); the timeout in timestamp units.
#[derive(Clone, Copy)]
pub struct Config {
    /// Output voltage setpoint.
    pub v_set: i64,
    /// Output voltage at or above which the supply faults.
    pub v_lim: i64,
    /// Output current at or above which the supply faults.
    pub i_lim: i64,
    /// Output voltage below which the supply faults once the startup
    /// timeout has elapsed.
    pub v_min: i64,
    /// Time after start by which the output must reach `v_min`.
    pub v_timeout: u64,
    /// Input voltage at or below which the supply faults.
    pub vin_min: i64,
    /// Input voltage at or above which the supply faults.
    pub vin_max: i64,
    /// Input current at or above which the supply faults.
    pub iin_max: i64,
    /// Largest actuation command.
    pub iref_max: u16,
}

/// What the caller does with the power stage after an event.
#[derive(Clone, Copy, Debug, PartialEq, Eq, Structural)]
pub enum StageCommand {
    /// Start driving the power stage.
    Enable,
    /// Stop driving the power stage.
    Disable,
    /// Leave the power stage as it is.
    Hold,
}

/// Full scale of the power stage's burst-mode duty cycle.
pub const DUTY_FULL: u16 = 1000;

/// The burst-mode compare value for a duty cycle `duty` out of
/// [`DUTY_FULL`]: the idle share of the period, with `duty` limited to full
/// scale (0 keeps the outputs always off, full scale never forces them off).
pub fn burst_compare(duty: u16) -> (r: u32)
    ensures
        r == DUTY_FULL - (if duty > DUTY_FULL { DUTY_FULL } else { duty }),
{
    let d = if duty > DUTY_FULL {
        DUTY_FULL
    } else {
        duty
    };
    (DUTY_FULL - d) as u32
}

/// The first safety limit that `st` violates, in priority order:
/// overvoltage, overcurrent, input voltage low, input voltage high, input
/// current high, and (only once the startup timeout has elapsed) no output;
/// `NoFault` if none is.
pub open spec fn violated_limit(c: Config, st: State, elapsed: bool) -> FaultCode {
    if st.v_out >= c.v_lim {
        FaultCode::VLim
    } else if st.i_out >= c.i_lim {
        FaultCode::ILim
    } else if st.v_in <= c.vin_min {
        FaultCode::VInLow
    } else if st.v_in >= c.vin_max {
        FaultCode::VInHigh
    } else if st.i_in >= c.iin_max {
        FaultCode::IInHigh
    } else if elapsed && st.v_out < c.v_min {
        FaultCode::NoVOut
    } else {
        FaultCode::NoFault
    }
}

/// Whether more than `timeout` has passed from `start` to `now`.
pub open spec fn timeout_passed(start: u64, now: u64, timeout: u64) -> bool {
    now >= start && now - start > timeout
}

/// The actuation command for a control action: its whole part, limited to
/// `[0, max]`.
pub open spec fn actuation(action: int, max: u16) -> u16 {
    if action < 0 {
        0
    } else if fx_floor(action) > max {
        max
    } else {
        fx_floor(action) as u16
    }
}

/// Checks the readings of `st` against the limits of `c`.
pub fn check_limits(c: &Config, st: &State, elapsed: bool) -> (r: FaultCode)
    ensures
        r == violated_limit(*c, *st, elapsed),
{
    if st.v_out >= c.v_lim {
        FaultCode::VLim
    } else if st.i_out >= c.i_lim {
        FaultCode::ILim
    } else if st.v_in <= c.vin_min {
        FaultCode::VInLow
    } else if st.v_in >= c.vin_max {
        FaultCode::VInHigh
    } else if st.i_in >= c.iin_max {
        FaultCode::IInHigh
    } else if elapsed && st.v_out < c.v_min {
        FaultCode::NoVOut
    } else {
        FaultCode::NoFault
    }
}

/// Limits a control action to an actuation command in `[0, max]`.
pub fn saturate_action(action: i64, max: u16) -> (r: u16)
    ensures
        r == actuation(action as int, max),
        r <= max,
{
    if action < 0 {
        0
    } else {
        let whole = action / ONE;
        if whole > max as i64 {
            max
        } else {
            whole as u16
        }
    }
}

/// Precedence law: whenever the output voltage is over its limit, the fault
/// recorded is overvoltage, whatever else is out of range at the same time.
pub proof fn lemma_overvoltage_takes_precedence(c: Config, st: State, elapsed: bool)
    requires
        st.v_out >= c.v_lim,
    ensures
        violated_limit(c, st, elapsed) == FaultCode::VLim,
{
}

/// The supervisor's part of a [`Regulator`].
pub ghost struct Supervision {
    pub fault_state: FaultState,
    pub fault_code: FaultCode,
    pub start_time: u64,
    pub start_elapsed: bool,
}

/// Latches the startup timeout once more than `timeout` has passed since
/// the start.
pub open spec fn with_timeout(s: Supervision, now: u64, timeout: u64) -> Supervision {
    if !s.start_elapsed && timeout_passed(s.start_time, now, timeout) {
        Supervision { start_elapsed: true, ..s }
    } else {
        s
    }
}

/// The supervisory poll with run input `run` at time `now`:
///
/// * `Stopped` and run asserted: start running, clear the fault code,
///   record the start time, reset the timeout and enable the power stage;
/// * `Running` and run deasserted: stop and disable the power stage;
///   otherwise keep running and latch the startup timeout once it elapses;
/// * `Fault` and run deasserted: stop (the power stage is already off);
///   a `Fault` with run asserted stays.
pub open spec fn heartbeat_step(s: Supervision, run: bool, now: u64, timeout: u64) -> (
    Supervision,
    StageCommand,
) {
    match s.fault_state {
        FaultState::Stopped => if run {
            (
                Supervision {
                    fault_state: FaultState::Running,
                    fault_code: FaultCode::NoFault,
                    start_time: now,
                    start_elapsed: false,
                },
                StageCommand::Enable,
            )
        } else {
            (s, StageCommand::Hold)
        },
        FaultState::Running => if run {
            (with_timeout(s, now, timeout), StageCommand::Hold)
        } else {
            (Supervision { fault_state: FaultState::Stopped, ..s }, StageCommand::Disable)
        },
        FaultState::Fault => if run {
            (s, StageCommand::Hold)
        } else {
            (Supervision { fault_state: FaultState::Stopped, ..s }, StageCommand::Hold)
        },
    }
}

/// The limit evaluation after a sample with readings `st` at time `now`:
/// while running, latch the startup timeout if it elapsed, then fault on
/// the first violated limit and disable the power stage. Outside `Running`
/// nothing changes.
pub open spec fn sample_step(s: Supervision, st: State, now: u64, c: Config) -> (
    Supervision,
    StageCommand,
) {
    if s.fault_state == FaultState::Running {
        let t = with_timeout(s, now, c.v_timeout);
        let f = violated_limit(c, st, t.start_elapsed);
        if f == FaultCode::NoFault {
            (t, StageCommand::Hold)
        } else {
            (Supervision { fault_state: FaultState::Fault, fault_code: f, ..t }, StageCommand::Disable)
        }
    } else {
        (s, StageCommand::Hold)
    }
}

/// The hardware fault handler: enter `Fault` with cause `NoRun`, unless a
/// fault is already latched, whose cause is then kept.
pub open spec fn fault_step(s: Supervision) -> Supervision {
    if s.fault_state == FaultState::Fault {
        s
    } else {
        Supervision { fault_state: FaultState::Fault, fault_code: FaultCode::NoRun, ..s }
    }
}

/// Overvoltage law: a running supply whose filtered output voltage reaches
/// its limit faults on that sample with cause `VLim` and disables the power
/// stage, whatever else is out of range.
pub proof fn lemma_overvoltage_faults_running_supply(s: Supervision, st: State, now: u64, c: Config)
    requires
        s.fault_state == FaultState::Running,
        st.v_out >= c.v_lim,
    ensures
        sample_step(s, st, now, c).0.fault_state == FaultState::Fault,
        sample_step(s, st, now, c).0.fault_code == FaultCode::VLim,
        sample_step(s, st, now, c).1 == StageCommand::Disable,
{
}

/// Startup law: while running with the output voltage below its
/// minimum and every other reading in range, a sample faults with cause
/// `NoVOut` exactly when the startup timeout has elapsed, or elapses at
/// that sample.
pub proof fn lemma_no_output_waits_for_timeout(s: Supervision, st: State, now: u64, c: Config)
    requires
        s.fault_state == FaultState::Running,
        st.v_out < c.v_min,
        st.v_out < c.v_lim,
        st.i_out < c.i_lim,
        c.vin_min < st.v_in < c.vin_max,
        st.i_in < c.iin_max,
    ensures
        s.start_elapsed || timeout_passed(s.start_time, now, c.v_timeout) ==> sample_step(
            s,
            st,
            now,
            c,
        ) == (Supervision { fault_state: FaultState::Fault, fault_code: FaultCode::NoVOut, start_elapsed: true, ..s },
        StageCommand::Disable),
        !(s.start_elapsed || timeout_passed(s.start_time, now, c.v_timeout)) ==> sample_step(
            s,
            st,
            now,
            c,
        ) == (s, StageCommand::Hold),
{
}

/// Latch law: a latched fault is left only through `Stopped`. Limit
/// evaluations keep it whatever the readings, the hardware fault handler
/// keeps its cause, and no poll goes from `Fault` to `Running`.
pub proof fn lemma_fault_is_latched(
    s: Supervision,
    st: State,
    c: Config,
    run: bool,
    now: u64,
)
    requires
        s.fault_state == FaultState::Fault,
    ensures
        sample_step(s, st, now, c) == (s, StageCommand::Hold),
        fault_step(s) == s,
        heartbeat_step(s, run, now, c.v_timeout).0.fault_state != FaultState::Running,
{
}

/// Filters, controller, telemetry record and supervisor state of one supply.
pub struct Regulator {
    pub config: Config,
    pub state: State,
    pub pid: PID,
    pub vout_kal: Kalman,
    pub iout_kal: Kalman,
    /// When the supply last started running.
    pub start_time: u64,
    /// Whether the startup timeout has elapsed since `start_time`.
    pub start_elapsed: bool,
}

impl Regulator {
    /// A stopped regulator with an empty record.
    pub fn new(config: Config, pid: PID, vout_kal: Kalman, iout_kal: Kalman) -> (r: Regulator)
        ensures
            r.config == config,
            r.pid@ == pid@,
            r.vout_kal@ == vout_kal@,
            r.iout_kal@ == iout_kal@,
            r.state == empty_record(),
            r.start_time == 0,
            !r.start_elapsed,
    {
        Regulator {
            config,
            state: State::new(),
            pid,
            vout_kal,
            iout_kal,
            start_time: 0,
            start_elapsed: false,
        }
    }
    /// The supervisor's part of this regulator.
    pub open spec fn supervision(&self) -> Supervision {
        Supervision {
            fault_state: self.state.fault_state,
            fault_code: self.state.fault_code,
            start_time: self.start_time,
            start_elapsed: self.start_elapsed,
        }
    }

    /// `self` and `other` agree on everything but the supervisor's part.
    pub open spec fn same_but_supervision(&self, other: &Regulator) -> bool {
        &&& self.config == other.config
        &&& self.pid@ == other.pid@
        &&& self.vout_kal@ == other.vout_kal@
        &&& self.iout_kal@ == other.iout_kal@
        &&& self.state == (State {
            fault_code: self.state.fault_code,
            fault_state: self.state.fault_state,
            ..other.state
        })
    }

    /// Latches the startup timeout once it has elapsed.
    fn refresh_timeout(&mut self, now: u64)
        ensures
            final(self).supervision() == with_timeout(
                old(self).supervision(),
                now,
                old(self).config.v_timeout,
            ),
            final(self).same_but_supervision(old(self)),
    {
        if !self.start_elapsed && now >= self.start_time && now - self.start_time
            > self.config.v_timeout {
            self.start_elapsed = true;
        }
    }

    /// Supervisory poll of the run input `run` at time `now`.
    pub fn heartbeat(&mut self, run: bool, now: u64) -> (r: StageCommand)
        ensures
            (final(self).supervision(), r) == heartbeat_step(
                old(self).supervision(),
                run,
                now,
                old(self).config.v_timeout,
            ),
            final(self).same_but_supervision(old(self)),
    {
        match self.state.fault_state {
            FaultState::Stopped => {
                if run {
                    self.start_time = now;
                    self.start_elapsed = false;
                    self.state.fault_code = FaultCode::NoFault;
                    self.state.fault_state = FaultState::Running;
                    StageCommand::Enable
                } else {
                    StageCommand::Hold
                }
            },
            FaultState::Running => {
                if run {
                    self.refresh_timeout(now);
                    StageCommand::Hold
                } else {
                    self.state.fault_state = FaultState::Stopped;
                    StageCommand::Disable
                }
            },
            FaultState::Fault => {
                if !run {
                    self.state.fault_state = FaultState::Stopped;
                }
                StageCommand::Hold
            },
        }
    }

    /// A completed ADC sequence at time `now`: converts the counts, runs a
    /// predict and an update on both output filters, records the filtered
    /// output voltage and current, and checks the limits.
    pub fn sample(&mut self, buf1: [u16; 4], buf2: [u16; 2], now: u64) -> (r: StageCommand)
        ensures
            final(self).config == old(self).config,
            final(self).pid@ == old(self).pid@,
            final(self).vout_kal@ == corrected(
                predicted(old(self).vout_kal@),
                counts_to_fixed(buf1@[0] as int, VOUT_NUM as int, VOUT_DEN as int),
            ),
            final(self).iout_kal@ == corrected(
                predicted(old(self).iout_kal@),
                counts_to_fixed(buf1@[1] as int, IOUT_NUM as int, IOUT_DEN as int),
            ),
            final(self).state.v_out == final(self).vout_kal@.x0,
            final(self).state.i_out == final(self).iout_kal@.x0,
            final(self).state.i_in == counts_to_fixed(buf1@[2] as int, IIN_NUM as int, IIN_DEN as int),
            final(self).state.v_in == counts_to_fixed(buf1@[3] as int, VIN_NUM as int, VIN_DEN as int),
            final(self).state.v_q == counts_to_fixed(buf2@[0] as int, VQ_NUM as int, VQ_DEN as int),
            final(self).state.i_q == counts_to_fixed(buf2@[1] as int, IQ_NUM as int, IQ_DEN as int),
            final(self).state.ref_i_q == old(self).state.ref_i_q,
            (final(self).supervision(), r) == sample_step(
                old(self).supervision(),
                final(self).state,
                now,
                old(self).config,
            ),
            old(self).state.fault_state == FaultState::Fault ==> final(self).state.fault_state
                == FaultState::Fault && final(self).state.fault_code == old(self).state.fault_code,
    {
        self.state.update_adc(buf1, buf2);

        self.vout_kal.predict();
        self.vout_kal.update(self.state.v_out);
        self.iout_kal.predict();
        self.iout_kal.update(self.state.i_out);

        let (vout, _) = self.vout_kal.get();
        let (iout, _) = self.iout_kal.get();
        self.state.v_out = vout;
        self.state.i_out = iout;

        if self.state.fault_state == FaultState::Running {
            self.refresh_timeout(now);
            let fault = check_limits(&self.config, &self.state, self.start_elapsed);
            if fault != FaultCode::NoFault {
                self.state.fault_code = fault;
                self.state.fault_state = FaultState::Fault;
                return StageCommand::Disable;
            }
        }
        StageCommand::Hold
    }

    /// The fixed-rate control step. While running, steps the PID controller
    /// towards the setpoint from the filtered output voltage and its
    /// derivative and returns the limited actuation; otherwise resets the
    /// integrator and returns zero. The command is recorded as the reference.
    pub fn control_tick(&mut self) -> (r: u16)
        ensures
            final(self).config == old(self).config,
            final(self).vout_kal@ == old(self).vout_kal@,
            final(self).iout_kal@ == old(self).iout_kal@,
            final(self).supervision() == old(self).supervision(),
            final(self).state == (State { ref_i_q: r, ..old(self).state }),
            old(self).state.fault_state == FaultState::Running ==> {
                &&& final(self).pid@ == old(self).pid@.with_i(
                    next_integrator(
                        old(self).pid@,
                        old(self).config.v_set as int,
                        old(self).vout_kal@.x0,
                    ),
                )
                &&& r == actuation(
                    control_action(
                        old(self).pid@,
                        old(self).config.v_set as int,
                        old(self).vout_kal@.x0,
                        old(self).vout_kal@.x1,
                    ),
                    old(self).config.iref_max,
                )
            },
            old(self).state.fault_state != FaultState::Running ==> final(self).pid@ == old(
                self,
            ).pid@.with_i(0) && r == 0,
            r <= old(self).config.iref_max,
    {
        let (vout, dvout) = self.vout_kal.get();
        let out = if self.state.fault_state == FaultState::Running {
            let action = self.pid.control_step(self.config.v_set, vout, dvout);
            saturate_action(action, self.config.iref_max)
        } else {
            self.pid.zero();
            0
        };
        self.state.update_ref_i_q(out);
        out
    }

    /// The hardware fault interrupt: the run input was deasserted or the
    /// power stage reported a fault. Always disables the power stage.
    pub fn hardware_fault(&mut self) -> (r: StageCommand)
        ensures
            final(self).supervision() == fault_step(old(self).supervision()),
            final(self).same_but_supervision(old(self)),
            r == StageCommand::Disable,
    {
        if self.state.fault_state != FaultState::Fault {
            self.state.fault_code = FaultCode::NoRun;
            self.state.fault_state = FaultState::Fault;
        }
        StageCommand::Disable
    }
}

} // verus!
