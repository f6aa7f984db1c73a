use mipidsi::dcs::{Dcs, SetAddressMode};
use mipidsi::error::{BusFault, InitError, PinFault};
use mipidsi::ili9488::ILI9488Rgb565;
use mipidsi::interface::TxnRec;
use mipidsi::options::{ColorOrder, ModelOptions, Rotation};
use mipidsi::record::{RecordingDelay, RecordingResetLine, RecordingTransport};

fn opcodes(records: &[TxnRec]) -> Vec<u8> {
    let mut out = Vec::new();
    for rec in records {
        if rec.is_command() {
            out.push(rec.opcode());
        }
    }
    out
}

fn flatten(records: &[TxnRec]) -> Vec<(bool, u8, Vec<u8>)> {
    let mut out = Vec::new();
    for rec in records {
        if rec.is_command() {
            out.push((true, rec.opcode(), Vec::new()));
        } else {
            out.push((false, 0, rec.payload().clone()));
        }
    }
    out
}

fn run_init(
    options: &ModelOptions,
    with_reset_line: bool,
) -> (Result<SetAddressMode, InitError>, Vec<TxnRec>, Vec<u32>, Vec<bool>) {
    let mut model = ILI9488Rgb565;
    let mut dcs = Dcs::from_interface(RecordingTransport::new());
    let mut delay = RecordingDelay::new();
    let mut rst = if with_reset_line {
        Some(RecordingResetLine::new())
    } else {
        None
    };
    let r = model.init(&mut dcs, &mut delay, options, &mut rst);
    let transport = dcs.release();
    let levels = match rst {
        Some(line) => line.levels,
        None => Vec::new(),
    };
    (r, transport.sent, delay.waits, levels)
}

const COMMON_OPCODES: [u8; 11] = [
    0x11, 0x3a, 0x36, 0x21, 0xc5, 0xb1, 0xe0, 0xe1, 0xb6, 0x13, 0x29,
];

#[test]
fn opcode_order_is_fixed_regardless_of_options() {
    let plain = ModelOptions::default_portrait();
    let wild = ModelOptions {
        rotation: Rotation::Deg270,
        mirrored: true,
        invert_colors: true,
        color_order: ColorOrder::Bgr,
    };
    let (r1, recs1, _, _) = run_init(&plain, false);
    let (r2, recs2, _, _) = run_init(&wild, false);
    assert!(r1.is_ok());
    assert!(r2.is_ok());
    assert_eq!(opcodes(&recs1), opcodes(&recs2));
    let mut expected = vec![0x01];
    expected.extend_from_slice(&COMMON_OPCODES);
    assert_eq!(opcodes(&recs1), expected);

    let (r3, recs3, _, _) = run_init(&plain, true);
    let (r4, recs4, _, _) = run_init(&wild, true);
    assert!(r3.is_ok());
    assert!(r4.is_ok());
    assert_eq!(opcodes(&recs3), opcodes(&recs4));
    assert_eq!(opcodes(&recs3), COMMON_OPCODES.to_vec());
}

#[test]
fn soft_reset_opens_sequence_without_reset_line() {
    let (r, recs, waits, _) = run_init(&ModelOptions::default_portrait(), false);
    assert!(r.is_ok());
    assert!(recs[0].is_command());
    assert_eq!(recs[0].opcode(), 0x01);
    assert_eq!(recs.len(), 20);
    assert_eq!(waits, vec![120_000, 120_000]);
}

#[test]
fn reset_line_pulses_once_and_no_soft_reset() {
    let (r, recs, waits, levels) = run_init(&ModelOptions::default_portrait(), true);
    assert!(r.is_ok());
    assert_eq!(levels, vec![false, true]);
    assert!(!opcodes(&recs).contains(&0x01));
    assert_eq!(recs.len(), 19);
    assert_eq!(waits, vec![10, 120_000, 120_000]);
}

#[test]
fn parameters_follow_options() {
    let opts = ModelOptions {
        rotation: Rotation::Deg90,
        mirrored: true,
        invert_colors: true,
        color_order: ColorOrder::Bgr,
    };
    let (r, recs, _, _) = run_init(&opts, false);
    // rotation 0x60, mirror flips the column bit, BGR sets bit 3
    let expected_madctl = (0x60u8 ^ 0x40) | 0x08;
    assert_eq!(r.unwrap(), SetAddressMode { madctl: expected_madctl });
    // pixel format, orientation and inversion parameter payloads
    assert_eq!(recs[2].opcode(), 0x3a);
    assert_eq!(recs[3].payload().as_slice(), &[0x55]);
    assert_eq!(recs[4].opcode(), 0x36);
    assert_eq!(recs[5].payload().as_slice(), &[expected_madctl]);
    assert_eq!(recs[6].opcode(), 0x21);
    assert_eq!(recs[7].payload().as_slice(), &[0x01]);
}

#[test]
fn default_options_give_zero_madctl_and_fixed_tables() {
    let (r, recs, _, _) = run_init(&ModelOptions::default_portrait(), false);
    assert_eq!(r.unwrap(), SetAddressMode { madctl: 0x00 });
    assert_eq!(recs[5].payload().as_slice(), &[0x00]);
    assert_eq!(recs[7].payload().as_slice(), &[0x00]);
    assert_eq!(recs[9].payload().as_slice(), &[0x00, 0x1e, 0x80, 0xb1]);
    assert_eq!(recs[11].payload().as_slice(), &[0xb0]);
    assert_eq!(
        recs[13].payload().as_slice(),
        &[0x00, 0x13, 0x18, 0x04, 0x0f, 0x06, 0x3a, 0x56, 0x4d, 0x03, 0x0a, 0x06, 0x30, 0x3e, 0x0f]
    );
    assert_eq!(
        recs[15].payload().as_slice(),
        &[0x00, 0x13, 0x18, 0x01, 0x11, 0x06, 0x38, 0x34, 0x4d, 0x06, 0x0d, 0x0b, 0x31, 0x37, 0x0f]
    );
    assert_eq!(recs[17].payload().as_slice(), &[0x00, 0x42]);
}

#[test]
fn transport_failure_stops_the_sequence() {
    let opts = ModelOptions::default_portrait();
    // fail from the fifth transaction on: nothing beyond it may be sent
    let mut model = ILI9488Rgb565;
    let mut dcs = Dcs::from_interface(RecordingTransport::failing_from(5, 3));
    let mut delay = RecordingDelay::new();
    let mut rst: Option<RecordingResetLine> = None;
    let r = model.init(&mut dcs, &mut delay, &opts, &mut rst);
    assert_eq!(r, Err(InitError::CommandFailure(BusFault { code: 3 })));
    let transport = dcs.release();
    assert_eq!(transport.sent.len(), 5);
}

#[test]
fn transport_failure_at_first_command() {
    let opts = ModelOptions::default_portrait();
    let mut model = ILI9488Rgb565;
    let mut dcs = Dcs::from_interface(RecordingTransport::failing_from(0, 7));
    let mut delay = RecordingDelay::new();
    let mut rst: Option<RecordingResetLine> = None;
    let r = model.init(&mut dcs, &mut delay, &opts, &mut rst);
    assert_eq!(r, Err(InitError::CommandFailure(BusFault { code: 7 })));
    assert_eq!(dcs.release().sent.len(), 0);
}

#[test]
fn reset_line_failure_precedes_every_command() {
    let opts = ModelOptions::default_portrait();
    let mut model = ILI9488Rgb565;
    let mut dcs = Dcs::from_interface(RecordingTransport::new());
    let mut delay = RecordingDelay::new();
    let mut rst = Some(RecordingResetLine::failing_from(0, 9));
    let r = model.init(&mut dcs, &mut delay, &opts, &mut rst);
    assert_eq!(r, Err(InitError::ResetLineFailure(PinFault { code: 9 })));
    assert_eq!(dcs.release().sent.len(), 0);

    let mut dcs2 = Dcs::from_interface(RecordingTransport::new());
    let mut rst2 = Some(RecordingResetLine::failing_from(1, 9));
    let r2 = model.init(&mut dcs2, &mut delay, &opts, &mut rst2);
    assert_eq!(r2, Err(InitError::ResetLineFailure(PinFault { code: 9 })));
    assert_eq!(dcs2.release().sent.len(), 0);
    assert_eq!(rst2.unwrap().levels, vec![false]);
}

#[test]
fn init_twice_emits_identical_sequences() {
    let opts = ModelOptions {
        rotation: Rotation::Deg180,
        mirrored: false,
        invert_colors: true,
        color_order: ColorOrder::Rgb,
    };
    let mut model = ILI9488Rgb565;
    let mut dcs = Dcs::from_interface(RecordingTransport::new());
    let mut delay = RecordingDelay::new();
    let mut rst: Option<RecordingResetLine> = None;
    let r1 = model.init(&mut dcs, &mut delay, &opts, &mut rst);
    let r2 = model.init(&mut dcs, &mut delay, &opts, &mut rst);
    assert_eq!(r1.unwrap(), r2.unwrap());
    let transport = dcs.release();
    assert_eq!(transport.sent.len(), 40);
    let first = flatten(&transport.sent[0..20]);
    let second = flatten(&transport.sent[20..40]);
    assert_eq!(first, second);
}

#[test]
fn framebuffer_size_is_fixed() {
    let model = ILI9488Rgb565;
    assert_eq!(model.framebuffer_size(), (320, 480));
}
