use tpg::ctrl::{Ctrl, SizeOpt};
use tpg::data::Data;
use tpg::errors::{TpgError, UnsupportedField};
use tpg::frame::{resolve_total, Frame};
use tpg::plan::GenerationPlan;
use tpg::reg::Reg;

fn plan_for(ctrl: u16, data: u16) -> GenerationPlan {
    let ctrl = Ctrl::from_reg(Reg(ctrl)).unwrap();
    let data = Data::from_reg(Reg(data));
    GenerationPlan::new(&ctrl, &data).unwrap()
}

#[test]
fn header_layout_and_length_field() {
    // Size pattern 0 fixes the total length at 64: a 46-octet payload.
    let plan = plan_for(0x3 | (2 << 8), 0x9f55);
    let frame = Frame::synthesize(&plan).unwrap();
    assert_eq!(frame.bytes.len(), 60);
    assert_eq!(&frame.bytes[0..6], &[0x00, 0x03, 0x19, 0xff, 0xff, 0xf9]);
    assert_eq!(&frame.bytes[6..12], &[0x00, 0x03, 0x19, 0xff, 0xff, 0xff]);
    assert_eq!(frame.bytes[12], 0);
    assert_eq!(frame.bytes[13], 46);
}

#[test]
fn length_field_is_big_endian() {
    // Size pattern 1 fixes the total length at 2048: a 2030-octet payload.
    let plan = plan_for(0x3 | (1 << 4) | (2 << 8), 0x0000);
    let frame = Frame::synthesize(&plan).unwrap();
    assert_eq!(frame.bytes.len(), 2044);
    assert_eq!(frame.bytes[12], (2030u16 / 256) as u8);
    assert_eq!(frame.bytes[13], (2030u16 % 256) as u8);
}

#[test]
fn byte_increment_payload_counts_from_zero() {
    // Packet type 1 is the byte-increment fill; total length 2048 makes the
    // payload long enough to wrap past 255.
    let plan = plan_for(0x3 | (1 << 4) | (1 << 8), 0x0000);
    let frame = Frame::synthesize(&plan).unwrap();
    assert_eq!(frame.bytes.len(), 2044);
    for i in 0..2030usize {
        assert_eq!(frame.bytes[14 + i], (i % 256) as u8);
    }
}

#[test]
fn predefined_payload_repeats_data_byte_zero() {
    let plan = plan_for(0x3 | (2 << 8), 0x9f55);
    let frame = Frame::synthesize(&plan).unwrap();
    for i in 0..46usize {
        assert_eq!(frame.bytes[14 + i], 0x55);
    }
}

#[test]
fn deterministic_payloads_synthesize_identically() {
    for ctrl in [0x3 | (1 << 8), 0x3 | (2 << 8), 0x3 | (5 << 4) | (1 << 8)] {
        let plan = plan_for(ctrl, 0x9f55);
        let f1 = Frame::synthesize(&plan).unwrap();
        let f2 = Frame::synthesize(&plan).unwrap();
        assert_eq!(f1.bytes, f2.bytes);
    }
}

#[test]
fn debug_packet_type_is_refused() {
    let plan = plan_for(0x3 | (3 << 8), 0x0000);
    assert!(matches!(
        Frame::synthesize(&plan),
        Err(TpgError::UnimplementedOption { field: UnsupportedField::DebugPacketType })
    ));
    assert!(matches!(
        Frame::synthesize_with_total(&plan, 64),
        Err(TpgError::UnimplementedOption { field: UnsupportedField::DebugPacketType })
    ));
}

#[test]
fn random_size_draws_stay_in_the_documented_set() {
    for _ in 0..64 {
        let total = resolve_total(&SizeOpt::Random);
        assert!(matches!(total, 64 | 256 | 1024 | 1518));
    }
    assert_eq!(resolve_total(&SizeOpt::Fixed { len: 9000 }), 9000);
}

#[test]
fn random_size_frames_have_a_documented_length() {
    // Size pattern 7 draws the length per frame; the byte count is always
    // the drawn total minus the 18-octet allowance plus the 14-octet header.
    let plan = plan_for(0x3 | (7 << 4) | (2 << 8), 0x0000);
    for _ in 0..32 {
        let frame = Frame::synthesize(&plan).unwrap();
        let total = frame.bytes.len() + 4;
        assert!(matches!(total, 64 | 256 | 1024 | 1518));
    }
}

#[test]
fn random_payload_is_not_constant_across_frames() {
    // Packet type 0 fills the payload from the random source; two 2030-octet
    // payloads coinciding by chance is beyond unlikely.
    let plan = plan_for(0x3 | (1 << 4), 0x0000);
    let f1 = Frame::synthesize(&plan).unwrap();
    let f2 = Frame::synthesize(&plan).unwrap();
    assert_eq!(f1.bytes.len(), 2044);
    assert_eq!(f2.bytes.len(), 2044);
    assert_eq!(&f1.bytes[0..14], &f2.bytes[0..14]);
    assert_ne!(&f1.bytes[14..], &f2.bytes[14..]);
}

#[test]
fn explicit_total_pins_the_frame_length() {
    let plan = plan_for(0x3 | (7 << 4) | (1 << 8), 0x0000);
    let frame = Frame::synthesize_with_total(&plan, 256).unwrap();
    assert_eq!(frame.bytes.len(), 252);
    assert_eq!(frame.bytes[12], 0);
    assert_eq!(frame.bytes[13], 238);
}
