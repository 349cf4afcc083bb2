use psu_control::fixed::ONE;
use psu_control::binary32::binary32_of;
use psu_control::state::{FaultCode, FaultState, State, ToBytes, MAGIC, RECORD_LEN};

#[test]
fn new_record_is_empty_and_stopped() {
    let s = State::new();
    assert_eq!((s.v_in, s.i_in, s.v_out, s.i_out, s.v_q, s.i_q), (0, 0, 0, 0, 0, 0));
    assert_eq!(s.ref_i_q, 0);
    assert_eq!(s.fault_code, FaultCode::NoFault);
    assert_eq!(s.fault_state, FaultState::Stopped);
}

#[test]
fn adc_counts_convert_to_physical_units() {
    let mut s = State::new();
    s.update_adc([4095, 0, 0, 2821], [4095, 1]);
    assert_eq!(s.v_out, 2842488314265);
    assert_eq!(s.i_out, 0);
    assert_eq!(s.i_in, 0);
    assert_eq!(s.v_in, 107376594124);
    assert_eq!(s.v_q, 297568567296);
    assert_eq!(s.i_q, 6784903);
    // 2821 counts of input voltage is 25.0 V to within a millivolt
    assert!((s.v_in - 25 * ONE).abs() < ONE / 1000);
}

#[test]
fn reference_and_fault_are_recorded() {
    let mut s = State::new();
    s.update_ref_i_q(1234);
    s.set_fault(FaultCode::ILim);
    assert_eq!(s.ref_i_q, 1234);
    assert_eq!(s.fault_code, FaultCode::ILim);
    assert_eq!(s.fault_state, FaultState::Stopped);
}

#[test]
fn record_has_fixed_little_endian_layout() {
    let mut s = State::new();
    s.v_in = 25 * ONE;
    s.i_in = -2;
    s.v_out = 370 * ONE + ONE / 2;
    s.i_q = ONE / 4;
    s.ref_i_q = 3800;
    s.fault_code = FaultCode::VLim;
    s.fault_state = FaultState::Fault;
    let b = s.to_bytes();
    assert_eq!(b.len(), RECORD_LEN);
    assert_eq!(b.len(), 32);
    assert_eq!(&b[0..4], &MAGIC.to_le_bytes());
    assert_eq!(&b[0..4], &[0x65, 0x6c, 0x65, 0x74]);
    assert_eq!(&b[4..8], &25.0f32.to_le_bytes());
    assert_eq!(&b[8..12], &(-2.0f32 / 4294967296.0f32).to_le_bytes());
    assert_eq!(&b[12..16], &370.5f32.to_le_bytes());
    assert_eq!(&b[16..20], &0.0f32.to_le_bytes());
    assert_eq!(&b[20..24], &[0, 0, 0, 0]);
    assert_eq!(&b[24..28], &0.25f32.to_le_bytes());
    assert_eq!(&b[28..30], &[0xd8, 0x0e]);
    assert_eq!(b[30], 2);
    assert_eq!(b[31], 0);
}

#[test]
fn readings_encode_as_rounded_single_floats() {
    let one = 4294967296.0f64;
    let samples: [i64; 12] = [
        1,
        -1,
        ONE,
        -ONE,
        (1 << 24) + 1,
        (1 << 24) + 3,
        (1 << 25) + 2,
        (1 << 25) + 6,
        123_456_789_012,
        -987_654_321_987,
        (1 << 52) - 1,
        2842488314265,
    ];
    for raw in samples {
        let expected = ((raw as f64) / one) as f32;
        assert_eq!(binary32_of(raw), expected.to_bits(), "raw {}", raw);
    }
    let mut raw: i64 = 7;
    for _ in 0..2000 {
        raw = raw.wrapping_mul(6364136223846793005).wrapping_add(1442695040888963407) >> 12;
        let expected = ((raw as f64) / one) as f32;
        assert_eq!(binary32_of(raw), expected.to_bits(), "raw {}", raw);
    }
    assert_eq!(binary32_of(0), 0);
    assert_eq!(binary32_of(i64::MIN), (-2147483648.0f32).to_bits());
    assert_eq!(binary32_of(i64::MAX), 2147483648.0f32.to_bits());
}

#[test]
fn wire_codes_are_distinct() {
    let codes = [
        FaultCode::NoFault,
        FaultCode::NoRun,
        FaultCode::VLim,
        FaultCode::ILim,
        FaultCode::VInLow,
        FaultCode::VInHigh,
        FaultCode::IInHigh,
        FaultCode::NoVOut,
    ];
    for (i, c) in codes.iter().enumerate() {
        assert_eq!(c.code() as usize, i);
    }
    assert_eq!(FaultState::Stopped.code(), 0);
    assert_eq!(FaultState::Running.code(), 1);
    assert_eq!(FaultState::Fault.code(), 2);
}
