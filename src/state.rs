//! The supervisor's observable record: latest readings, commanded reference,
//! fault cause and supervisor state, and its fixed little-endian wire form.
use vstd::prelude::*;
use crate::fixed::ONE;
use crate::binary32::{binary32_bits, binary32_of};

verus! {

/// Cause of the latest fault; `NoFault` while none is latched.
#[derive(Clone, Copy, Debug, PartialEq, Eq, Structural)]
pub enum FaultCode {
    /// No fault.
    NoFault,
    /// Run input deasserted or system fault, seen by the hardware fault handler.
    NoRun,
    /// Output voltage at or above its limit.
    VLim,
    /// Output current at or above its limit.
    ILim,
    /// Input voltage at or below its minimum.
    VInLow,
    /// Input voltage at or above its maximum.
    VInHigh,
    /// Input current at or above its maximum.
    IInHigh,
    /// Output voltage below its minimum after the startup timeout.
    NoVOut,
}

/// State of the supervisor.
#[derive(Clone, Copy, Debug, PartialEq, Eq, Structural)]
pub enum FaultState {
    /// Power stage off, waiting for the run input.
    Stopped,
    /// Power stage on and regulated.
    Running,
    /// Power stage off after a fault; left only through `Stopped`.
    Fault,
}

/// The wire value of a fault code.
pub open spec fn fault_code_byte(c: FaultCode) -> u8 {
    match c {
        FaultCode::NoFault => 0,
        FaultCode::NoRun => 1,
        FaultCode::VLim => 2,
        FaultCode::ILim => 3,
        FaultCode::VInLow => 4,
        FaultCode::VInHigh => 5,
        FaultCode::IInHigh => 6,
        FaultCode::NoVOut => 7,
    }
}

/// The wire value of a supervisor state.
pub open spec fn fault_state_byte(s: FaultState) -> u8 {
    match s {
        FaultState::Stopped => 0,
        FaultState::Running => 1,
        FaultState::Fault => 2,
    }
}

impl FaultCode {
    /// The wire value of this fault code.
    pub fn code(&self) -> (r: u8)
        ensures
            r == fault_code_byte(*self),
    {
        match self {
            FaultCode::NoFault => 0,
            FaultCode::NoRun => 1,
            FaultCode::VLim => 2,
            FaultCode::ILim => 3,
            FaultCode::VInLow => 4,
            FaultCode::VInHigh => 5,
            FaultCode::IInHigh => 6,
            FaultCode::NoVOut => 7,
        }
    }
}

impl FaultState {
    /// The wire value of this state.
    pub fn code(&self) -> (r: u8)
        ensures
            r == fault_state_byte(*self),
    {
        match self {
            FaultState::Stopped => 0,
            FaultState::Running => 1,
            FaultState::Fault => 2,
        }
    }
}

/// Marker that starts every record on the wire ("tele" read as a
/// little-endian word).
pub const MAGIC: u32 = 0x74656c65;

/// Length of a record on the wire.
pub const RECORD_LEN: usize = 32;

/// ADC counts to volts or amps, as a fraction `num / den` per count: a
/// 3.3 V full scale over 4096 counts times each channel's divider or
/// sense gain.
pub const VIN_NUM: u64 = 363;
pub const VIN_DEN: u64 = 40960;
pub const IIN_NUM: u64 = 33;
pub const IIN_DEN: u64 = 40960;
pub const VOUT_NUM: u64 = 33099;
pub const VOUT_DEN: u64 = 204800;
pub const IOUT_NUM: u64 = 33;
pub const IOUT_DEN: u64 = 1024000;
pub const VQ_NUM: u64 = 693;
pub const VQ_DEN: u64 = 40960;
pub const IQ_NUM: u64 = 55;
pub const IQ_DEN: u64 = 34816;

/// The fixed-point physical value of `counts` ADC counts at `num / den`
/// units per count, rounded down.
pub open spec fn counts_to_fixed(counts: int, num: int, den: int) -> int {
    (counts * num * ONE) / den
}

/// `n` little-endian bytes of `v`.
pub open spec fn le_bytes(v: nat, n: nat) -> Seq<u8>
    decreases n,
{
    if n == 0 {
        seq![]
    } else {
        seq![(v % 256) as u8] + le_bytes(v / 256, (n - 1) as nat)
    }
}

/// Telemetry record: latest filtered or converted readings (fixed-point
/// volts and amps), commanded reference, fault cause and supervisor state.
pub struct State {
    pub v_in: i64,
    pub i_in: i64,
    pub v_out: i64,
    pub i_out: i64,
    pub v_q: i64,
    pub i_q: i64,
    pub ref_i_q: u16,
    pub fault_code: FaultCode,
    pub fault_state: FaultState,
}

/// An empty record: all readings zero, no fault, supervisor stopped.
pub open spec fn empty_record() -> State {
    State {
        v_in: 0,
        i_in: 0,
        v_out: 0,
        i_out: 0,
        v_q: 0,
        i_q: 0,
        ref_i_q: 0,
        fault_code: FaultCode::NoFault,
        fault_state: FaultState::Stopped,
    }
}

/// The wire form of a record: the marker, the six readings (input voltage
/// and current, output voltage and current, auxiliary voltage and current)
/// as IEEE 754 single-precision floats, the reference, the fault code and a
/// zero pad byte, all little-endian.
pub open spec fn record_bytes(s: State) -> Seq<u8> {
    le_bytes(MAGIC as nat, 4) + le_bytes(binary32_bits(s.v_in as int), 4) + le_bytes(
        binary32_bits(s.i_in as int),
        4,
    ) + le_bytes(binary32_bits(s.v_out as int), 4) + le_bytes(binary32_bits(s.i_out as int), 4)
        + le_bytes(binary32_bits(s.v_q as int), 4) + le_bytes(binary32_bits(s.i_q as int), 4)
        + le_bytes(s.ref_i_q as nat, 2) + seq![fault_code_byte(s.fault_code), 0u8]
}

/// Converts ADC counts to a fixed-point physical value.
fn scale_counts(counts: u16, num: u64, den: u64) -> (r: i64)
    requires
        0 < den,
        num <= 32768 * den,
    ensures
        r == counts_to_fixed(counts as int, num as int, den as int),
{
    let c = counts as u128;
    let n = num as u128;
    let d = den as u128;
    proof {
        assert(c * n <= 0xffff * 0xffff_ffff_ffff_ffff) by (nonlinear_arith)
            requires
                c <= 0xffff,
                n <= 0xffff_ffff_ffff_ffff,
        ;
        assert(c * n * 0x1_0000_0000 <= 0xffff * 0xffff_ffff_ffff_ffff * 0x1_0000_0000)
            by (nonlinear_arith)
            requires
                c * n <= 0xffff * 0xffff_ffff_ffff_ffff,
        ;
        assert(c * n * 0x1_0000_0000 <= 0xffff * 32768 * 0x1_0000_0000 * d) by (nonlinear_arith)
            requires
                c <= 0xffff,
                n <= 32768 * d,
        ;
        let p: int = c * n * 0x1_0000_0000;
        let big: int = 0xffff * 32768 * 0x1_0000_0000int;
        let di = d as int;
        assert(di * big == big * di) by (nonlinear_arith);
        vstd::arithmetic::div_mod::lemma_div_is_ordered(p, big * di, di);
        vstd::arithmetic::div_mod::lemma_div_multiples_vanish(big, di);
    }
    let q = c * n * 0x1_0000_0000u128 / d;
    q as i64
}

/// Writes the four little-endian bytes of `v` at `at`.
fn put_u32(out: &mut [u8; RECORD_LEN], at: usize, v: u32)
    requires
        at + 4 <= RECORD_LEN,
    ensures
        forall|j: int|
            0 <= j < RECORD_LEN ==> final(out)@[j] == if at <= j < at + 4 {
                le_bytes(v as nat, 4)[j - at]
            } else {
                old(out)@[j]
            },
{
    proof {
        reveal_with_fuel(le_bytes, 5);
    }
    out[at] = (v % 256) as u8;
    out[at + 1] = (v / 256 % 256) as u8;
    out[at + 2] = (v / 256 / 256 % 256) as u8;
    out[at + 3] = (v / 256 / 256 / 256 % 256) as u8;
}

/// Writes the two little-endian bytes of `v` at `at`.
fn put_u16(out: &mut [u8; RECORD_LEN], at: usize, v: u16)
    requires
        at + 2 <= RECORD_LEN,
    ensures
        forall|j: int|
            0 <= j < RECORD_LEN ==> final(out)@[j] == if at <= j < at + 2 {
                le_bytes(v as nat, 2)[j - at]
            } else {
                old(out)@[j]
            },
{
    proof {
        reveal_with_fuel(le_bytes, 3);
    }
    out[at] = (v % 256) as u8;
    out[at + 1] = (v / 256 % 256) as u8;
}

/// A record whose wire form is stated by `wire`.
pub trait ToBytes {
    /// The bytes that `to_bytes` produces.
    spec fn wire(&self) -> Seq<u8>;

    /// Serialises the record into a fixed-size buffer.
    fn to_bytes(&self) -> (r: [u8; RECORD_LEN])
        ensures
            r@ == self.wire(),
    ;
}

impl ToBytes for State {
    open spec fn wire(&self) -> Seq<u8> {
        record_bytes(*self)
    }

    fn to_bytes(&self) -> (r: [u8; RECORD_LEN]) {
        let mut out = [0u8; RECORD_LEN];
        put_u32(&mut out, 0, MAGIC);
        put_u32(&mut out, 4, binary32_of(self.v_in));
        put_u32(&mut out, 8, binary32_of(self.i_in));
        put_u32(&mut out, 12, binary32_of(self.v_out));
        put_u32(&mut out, 16, binary32_of(self.i_out));
        put_u32(&mut out, 20, binary32_of(self.v_q));
        put_u32(&mut out, 24, binary32_of(self.i_q));
        put_u16(&mut out, 28, self.ref_i_q);
        out[30] = self.fault_code.code();
        out[31] = 0;
        proof {
            reveal_with_fuel(le_bytes, 5);
        }
        assert(out@ =~= record_bytes(*self));
        out
    }
}

impl State {
    /// An empty record: all readings zero, no fault, supervisor stopped.
    pub fn new() -> (r: State)
        ensures
            r == empty_record(),
    {
        State {
            v_in: 0,
            i_in: 0,
            v_out: 0,
            i_out: 0,
            v_q: 0,
            i_q: 0,
            ref_i_q: 0,
            fault_code: FaultCode::NoFault,
            fault_state: FaultState::Stopped,
        }
    }

    /// Converts one ADC sequence into physical readings. `buf1` holds output
    /// voltage, output current, input current and input voltage; `buf2`
    /// holds the auxiliary voltage and current.
    pub fn update_adc(&mut self, buf1: [u16; 4], buf2: [u16; 2])
        ensures
            final(self).v_out == counts_to_fixed(buf1@[0] as int, VOUT_NUM as int, VOUT_DEN as int),
            final(self).i_out == counts_to_fixed(buf1@[1] as int, IOUT_NUM as int, IOUT_DEN as int),
            final(self).i_in == counts_to_fixed(buf1@[2] as int, IIN_NUM as int, IIN_DEN as int),
            final(self).v_in == counts_to_fixed(buf1@[3] as int, VIN_NUM as int, VIN_DEN as int),
            final(self).v_q == counts_to_fixed(buf2@[0] as int, VQ_NUM as int, VQ_DEN as int),
            final(self).i_q == counts_to_fixed(buf2@[1] as int, IQ_NUM as int, IQ_DEN as int),
            final(self).ref_i_q == old(self).ref_i_q,
            final(self).fault_code == old(self).fault_code,
            final(self).fault_state == old(self).fault_state,
    {
        self.v_out = scale_counts(buf1[0], VOUT_NUM, VOUT_DEN);
        self.i_out = scale_counts(buf1[1], IOUT_NUM, IOUT_DEN);
        self.i_in = scale_counts(buf1[2], IIN_NUM, IIN_DEN);
        self.v_in = scale_counts(buf1[3], VIN_NUM, VIN_DEN);
        self.v_q = scale_counts(buf2[0], VQ_NUM, VQ_DEN);
        self.i_q = scale_counts(buf2[1], IQ_NUM, IQ_DEN);
    }

    /// Records the commanded reference.
    pub fn update_ref_i_q(&mut self, ref_i_q: u16)
        ensures
            *final(self) == (State { ref_i_q, ..*old(self) }),
    {
        self.ref_i_q = ref_i_q;
    }

    /// Records a fault cause.
    pub fn set_fault(&mut self, fault: FaultCode)
        ensures
            *final(self) == (State { fault_code: fault, ..*old(self) }),
    {
        self.fault_code = fault;
    }
}

} // verus!
