use crate::color::{pixel_bytes, Rgb565Color};
use crate::dcs::{
    BitsPerPixel, Dcs, EnterNormalMode, ExitSleepMode, PixelFormat, SetAddressMode, SetDisplayOn,
    SetInvertMode, SetPixelFormat, SoftReset, WriteMemoryStart,
};
use crate::error::{Error, InitError};
use crate::interface::{Delay, ResetLine, Transport, Txn};
use crate::options::ModelOptions;
use vstd::prelude::*;

verus! {

/// Settle delay observed after reset and again after display-on, in
/// microseconds. Commands issued before the panel has finished its internal
/// reset routine, or pixel data pushed right after display-on, corrupt the
/// interface on real hardware: the waits are a hard timing contract.
pub const SETTLE_DELAY_US: u32 = 120_000;

/// How long the reset line is held low during a hardware reset, in
/// microseconds.
pub const RESET_HOLD_US: u32 = 10;

/// VCOM control register parameters, datasheet constants.
pub open spec fn vcom_control_params() -> Seq<u8> {
    seq![0x00u8, 0x1eu8, 0x80u8, 0xb1u8]
}

/// Frame-rate control register parameter, a datasheet constant.
pub open spec fn frame_rate_params() -> Seq<u8> {
    seq![0xb0u8]
}

/// Positive-polarity gamma correction table, a datasheet constant.
pub open spec fn gamma_positive_params() -> Seq<u8> {
    seq![
        0x00u8,
        0x13u8,
        0x18u8,
        0x04u8,
        0x0fu8,
        0x06u8,
        0x3au8,
        0x56u8,
        0x4du8,
        0x03u8,
        0x0au8,
        0x06u8,
        0x30u8,
        0x3eu8,
        0x0fu8,
    ]
}

/// Negative-polarity gamma correction table, a datasheet constant.
pub open spec fn gamma_negative_params() -> Seq<u8> {
    seq![
        0x00u8,
        0x13u8,
        0x18u8,
        0x01u8,
        0x11u8,
        0x06u8,
        0x38u8,
        0x34u8,
        0x4du8,
        0x06u8,
        0x0du8,
        0x0bu8,
        0x31u8,
        0x37u8,
        0x0fu8,
    ]
}

/// Auxiliary scan-direction register parameters. The second byte is the one
/// scan-direction encoding empirically confirmed to render correctly for the
/// default orientation; the full mapping from orientation options to this
/// register is an acknowledged gap, so the value is a fixed constant rather
/// than a derived one.
pub open spec fn scan_direction_params() -> Seq<u8> {
    seq![0x00u8, 0x42u8]
}

/// The pixel format this model programs: sixteen bits per pixel on both
/// interface fields, matching the RGB565 wire encoding of the pixel writer.
pub open spec fn rgb565_pixel_format() -> PixelFormat {
    PixelFormat { dpi: BitsPerPixel::Sixteen, dbi: BitsPerPixel::Sixteen }
}

/// The bus transactions of the shared configuration sequence, in their
/// fixed order: sleep exit, pixel format, orientation, inversion, vendor
/// tuning, the two gamma tables, the auxiliary scan-direction register,
/// normal mode, display on. Caller options change only the parameter bytes
/// of the orientation and inversion writes, never the order.
pub open spec fn common_init_txns(options: ModelOptions, pixel_format_byte: u8) -> Seq<Txn> {
    seq![
        Txn::Command(0x11),
        Txn::Command(0x3a),
        Txn::Data(seq![pixel_format_byte]),
        Txn::Command(0x36),
        Txn::Data(seq![options.spec_madctl()]),
        Txn::Command(0x21),
        Txn::Data(seq![if options.invert_colors { 1u8 } else { 0u8 }]),
        Txn::Command(0xc5),
        Txn::Data(vcom_control_params()),
        Txn::Command(0xb1),
        Txn::Data(frame_rate_params()),
        Txn::Command(0xe0),
        Txn::Data(gamma_positive_params()),
        Txn::Command(0xe1),
        Txn::Data(gamma_negative_params()),
        Txn::Command(0xb6),
        Txn::Data(scan_direction_params()),
        Txn::Command(0x13),
        Txn::Command(0x29),
    ]
}

/// Every bus transaction of a full initialization. A hardware reset clears
/// the controller over the dedicated line, so no software reset command is
/// sent; without a reset line the sequence starts with the software reset.
pub open spec fn init_txns(options: ModelOptions, hardware_reset: bool) -> Seq<Txn> {
    if hardware_reset {
        common_init_txns(options, rgb565_pixel_format().spec_byte())
    } else {
        seq![Txn::Command(0x01)] + common_init_txns(options, rgb565_pixel_format().spec_byte())
    }
}

/// The waits of a successful initialization, in order: the reset hold time
/// when the hardware line is used, the settle delay after reset, and the
/// settle delay after display-on.
pub open spec fn init_delays(hardware_reset: bool) -> Seq<u32> {
    if hardware_reset {
        seq![RESET_HOLD_US, SETTLE_DELAY_US, SETTLE_DELAY_US]
    } else {
        seq![SETTLE_DELAY_US, SETTLE_DELAY_US]
    }
}

/// The instruction bytes of a transaction sequence, in order, with the data
/// payloads left out.
pub open spec fn opcodes_of(txns: Seq<Txn>) -> Seq<u8>
    decreases txns.len(),
{
    if txns.len() == 0 {
        Seq::empty()
    } else {
        match txns.last() {
            Txn::Command(op) => opcodes_of(txns.drop_last()).push(op),
            Txn::Data(_) => opcodes_of(txns.drop_last()),
        }
    }
}

/// Appending a command appends its opcode.
pub proof fn lemma_opcodes_push_command(txns: Seq<Txn>, op: u8)
    ensures
        opcodes_of(txns.push(Txn::Command(op))) == opcodes_of(txns).push(op),
{
    assert(txns.push(Txn::Command(op)).drop_last() =~= txns);
}

/// Appending a data payload leaves the opcode sequence unchanged.
pub proof fn lemma_opcodes_push_data(txns: Seq<Txn>, data: Seq<u8>)
    ensures
        opcodes_of(txns.push(Txn::Data(data))) == opcodes_of(txns),
{
    assert(txns.push(Txn::Data(data)).drop_last() =~= txns);
}

/// The opcode sequence of a concatenation is the concatenation of the
/// opcode sequences.
pub proof fn lemma_opcodes_concat(a: Seq<Txn>, b: Seq<Txn>)
    ensures
        opcodes_of(a + b) == opcodes_of(a) + opcodes_of(b),
    decreases b.len(),
{
    if b.len() == 0 {
        assert(a + b =~= a);
        assert(opcodes_of(a) + opcodes_of(b) =~= opcodes_of(a));
    } else {
        lemma_opcodes_concat(a, b.drop_last());
        assert((a + b).drop_last() =~= a + b.drop_last());
        assert((a + b).last() == b.last());
        match b.last() {
            Txn::Command(op) => {
                assert(opcodes_of(a) + opcodes_of(b.drop_last()).push(op) =~= (opcodes_of(a)
                    + opcodes_of(b.drop_last())).push(op));
            },
            Txn::Data(_) => {},
        }
    }
}

/// The instruction bytes of the shared configuration sequence: a fixed
/// list, independent of the caller's options.
pub open spec fn common_opcodes() -> Seq<u8> {
    seq![0x11u8, 0x3au8, 0x36u8, 0x21u8, 0xc5u8, 0xb1u8, 0xe0u8, 0xe1u8, 0xb6u8, 0x13u8, 0x29u8]
}

/// The instruction bytes of a full initialization: the software reset first
/// when no reset line is supplied, then the fixed configuration list.
pub open spec fn init_opcodes(hardware_reset: bool) -> Seq<u8> {
    if hardware_reset {
        common_opcodes()
    } else {
        seq![0x01u8] + common_opcodes()
    }
}

proof fn lemma_common_opcodes(options: ModelOptions, pixel_format_byte: u8)
    ensures
        opcodes_of(common_init_txns(options, pixel_format_byte)) == common_opcodes(),
{
    let t0 = Seq::<Txn>::empty();
    let t1 = t0.push(Txn::Command(0x11));
    let t2 = t1.push(Txn::Command(0x3a));
    let t3 = t2.push(Txn::Data(seq![pixel_format_byte]));
    let t4 = t3.push(Txn::Command(0x36));
    let t5 = t4.push(Txn::Data(seq![options.spec_madctl()]));
    let t6 = t5.push(Txn::Command(0x21));
    let t7 = t6.push(Txn::Data(seq![if options.invert_colors { 1u8 } else { 0u8 }]));
    let t8 = t7.push(Txn::Command(0xc5));
    let t9 = t8.push(Txn::Data(vcom_control_params()));
    let t10 = t9.push(Txn::Command(0xb1));
    let t11 = t10.push(Txn::Data(frame_rate_params()));
    let t12 = t11.push(Txn::Command(0xe0));
    let t13 = t12.push(Txn::Data(gamma_positive_params()));
    let t14 = t13.push(Txn::Command(0xe1));
    let t15 = t14.push(Txn::Data(gamma_negative_params()));
    let t16 = t15.push(Txn::Command(0xb6));
    let t17 = t16.push(Txn::Data(scan_direction_params()));
    let t18 = t17.push(Txn::Command(0x13));
    let t19 = t18.push(Txn::Command(0x29));
    assert(common_init_txns(options, pixel_format_byte) =~= t19);
    lemma_opcodes_push_command(t0, 0x11);
    lemma_opcodes_push_command(t1, 0x3a);
    lemma_opcodes_push_data(t2, seq![pixel_format_byte]);
    lemma_opcodes_push_command(t3, 0x36);
    lemma_opcodes_push_data(t4, seq![options.spec_madctl()]);
    lemma_opcodes_push_command(t5, 0x21);
    lemma_opcodes_push_data(t6, seq![if options.invert_colors { 1u8 } else { 0u8 }]);
    lemma_opcodes_push_command(t7, 0xc5);
    lemma_opcodes_push_data(t8, vcom_control_params());
    lemma_opcodes_push_command(t9, 0xb1);
    lemma_opcodes_push_data(t10, frame_rate_params());
    lemma_opcodes_push_command(t11, 0xe0);
    lemma_opcodes_push_data(t12, gamma_positive_params());
    lemma_opcodes_push_command(t13, 0xe1);
    lemma_opcodes_push_data(t14, gamma_negative_params());
    lemma_opcodes_push_command(t15, 0xb6);
    lemma_opcodes_push_data(t16, scan_direction_params());
    lemma_opcodes_push_command(t17, 0x13);
    lemma_opcodes_push_command(t18, 0x29);
    assert(opcodes_of(t19) =~= common_opcodes());
}

/// The emitted instruction sequence of an initialization is the fixed,
/// documented list, whatever the caller's options: options change only
/// parameter bytes of the orientation, inversion and pixel-format writes,
/// never which instructions are sent nor their order.
pub proof fn lemma_init_opcodes_fixed(options: ModelOptions, hardware_reset: bool)
    ensures
        opcodes_of(init_txns(options, hardware_reset)) == init_opcodes(hardware_reset),
{
    lemma_common_opcodes(options, rgb565_pixel_format().spec_byte());
    if !hardware_reset {
        let reset = seq![Txn::Command(0x01)];
        lemma_opcodes_concat(reset, common_init_txns(options, rgb565_pixel_format().spec_byte()));
        assert(reset.drop_last() =~= Seq::<Txn>::empty());
        assert(opcodes_of(Seq::<Txn>::empty()) == Seq::<u8>::empty());
        assert(opcodes_of(reset) =~= seq![0x01u8]);
    }
}

/// Without a reset line, the software reset is the very first transaction
/// of an initialization; with one, no software reset is ever sent.
pub proof fn lemma_soft_reset_placement(options: ModelOptions)
    ensures
        init_txns(options, false).first() == Txn::Command(0x01),
        forall|i: int|
            0 <= i < init_txns(options, true).len() ==> #[trigger] init_txns(options, true)[i]
                != Txn::Command(0x01),
{
}

/// Initialization is repeatable: two successful runs with the same options
/// and the same reset strategy append identical transaction sequences to
/// their transports, whatever each transport had seen before.
pub proof fn lemma_init_idempotent(
    log1: Seq<Txn>,
    log2: Seq<Txn>,
    options: ModelOptions,
    hardware_reset: bool,
)
    ensures
        (log1 + init_txns(options, hardware_reset)).skip(log1.len() as int) == (log2 + init_txns(
            options,
            hardware_reset,
        )).skip(log2.len() as int),
{
    assert((log1 + init_txns(options, hardware_reset)).skip(log1.len() as int) =~= init_txns(
        options,
        hardware_reset,
    ));
    assert((log2 + init_txns(options, hardware_reset)).skip(log2.len() as int) =~= init_txns(
        options,
        hardware_reset,
    ));
}

/// ILI9488 display in RGB565 color mode.
pub struct ILI9488Rgb565;

impl ILI9488Rgb565 {
    /// Native framebuffer dimensions of the controller, (width, height) in
    /// pixels: fixed constants of the model.
    pub fn framebuffer_size(&self) -> (r: (u16, u16))
        ensures
            r == (320u16, 480u16),
    {
        (320, 480)
    }

    /// Toggles the reset line low, holds it, and releases it high. On
    /// success the line saw exactly one low-then-high transition; a failure
    /// is reported as a reset-line failure, distinct from bus faults.
    pub fn hard_reset<RST: ResetLine, DELAY: Delay>(
        &mut self,
        rst: &mut RST,
        delay: &mut DELAY,
    ) -> (r: Result<(), InitError>)
        ensures
            r is Ok ==> final(rst).pin_log() == old(rst).pin_log() + seq![false, true] && final(delay).delay_log() == old(delay).delay_log().push(RESET_HOLD_US),
            r matches Err(e) ==> (e matches InitError::ResetLineFailure(_) && (final(rst).pin_log() == old(rst).pin_log() || final(rst).pin_log() == old(rst).pin_log().push(
                false,
            ))),
    {
        match rst.set_low() {
            Ok(()) => {},
            Err(fault) => {
                return Err(InitError::ResetLineFailure(fault));
            },
        }
        delay.delay_us(RESET_HOLD_US);
        match rst.set_high() {
            Ok(()) => {},
            Err(fault) => {
                return Err(InitError::ResetLineFailure(fault));
            },
        }
        proof {
            assert(rst.pin_log() =~= old(rst).pin_log() + seq![false, true]);
        }
        Ok(())
    }

    /// Brings the panel from reset or sleep into a configured, ready state.
    ///
    /// With a reset line supplied the line is pulsed low-then-high and no
    /// software reset is sent; without one the software reset command opens
    /// the sequence. Either path observes the settle delay before further
    /// commands, then the shared configuration sequence runs, ending with
    /// the second settle delay after display-on. On success the transport
    /// saw exactly [`init_txns`], the delay source exactly [`init_delays`],
    /// and the confirmed orientation register value is returned. On any
    /// failure the sequence stops at once: the transport saw a strict
    /// prefix of [`init_txns`], and a reset-line failure precedes every
    /// command.
    pub fn init<RST: ResetLine, DELAY: Delay, DI: Transport>(
        &mut self,
        dcs: &mut Dcs<DI>,
        delay: &mut DELAY,
        options: &ModelOptions,
        rst: &mut Option<RST>,
    ) -> (r: Result<SetAddressMode, InitError>)
        ensures
            r matches Ok(mode) ==> ({
                &&& final(dcs).di.log() == old(dcs).di.log() + init_txns(
                    *options,
                    (*old(rst)) is Some,
                )
                &&& final(delay).delay_log() == old(delay).delay_log() + init_delays(
                    (*old(rst)) is Some,
                )
                &&& mode.madctl == options.spec_madctl()
                &&& ((*old(rst)) matches Some(start) ==> ((*final(rst)) matches Some(line)
                    && line.pin_log() == start.pin_log() + seq![false, true]))
            }),
            r matches Err(e) ==> (e matches InitError::ResetLineFailure(_) ==> final(dcs).di.log() == old(dcs).di.log() && (*old(rst)) is Some),
            r matches Err(e) ==> (e matches InitError::CommandFailure(_) ==> exists|k: int|
                0 <= k < init_txns(*options, (*old(rst)) is Some).len() && final(dcs).di.log()
                    == old(dcs).di.log() + (#[trigger] init_txns(*options, (*old(rst)) is Some).take(k))),
    {
        let ghost hardware_reset = (*rst) is Some;
        let ghost full = init_txns(*options, hardware_reset);
        match rst {
            Some(line) => {
                match self.hard_reset(line, delay) {
                    Ok(()) => {},
                    Err(e) => {
                        return Err(e);
                    },
                }
            },
            None => {
                match dcs.write_command(SoftReset) {
                    Ok(()) => {},
                    Err(e) => {
                        match e {
                            Error::CommandFailure(fault) => {
                                proof {
                                    assert(dcs.di.log() =~= old(dcs).di.log() + full.take(0));
                                }
                                return Err(InitError::CommandFailure(fault));
                            },
                            Error::BufferTooSmall => {
                                proof {
                                    assert(false);
                                }
                                unreached()
                            },
                        }
                    },
                }
            },
        }
        delay.delay_us(SETTLE_DELAY_US);
        let ghost mid_log = dcs.di.log();
        proof {
            if hardware_reset {
                assert(mid_log =~= old(dcs).di.log());
            } else {
                assert(mid_log =~= old(dcs).di.log() + seq![Txn::Command(0x01)]);
            }
        }
        let pf = PixelFormat::with_all(Rgb565Color::bits_per_pixel());
        match init_common(dcs, delay, options, pf) {
            Ok(mode) => {
                proof {
                    assert(dcs.di.log() =~= old(dcs).di.log() + full);
                    if hardware_reset {
                        assert(delay.delay_log() =~= old(delay).delay_log() + init_delays(true));
                    } else {
                        assert(delay.delay_log() =~= old(delay).delay_log() + init_delays(false));
                    }
                }
                Ok(mode)
            },
            Err(e) => {
                match e {
                    Error::CommandFailure(fault) => {
                        proof {
                            let common = common_init_txns(*options, pf.spec_byte());
                            let k = choose|k: int|
                                0 <= k < common.len() && dcs.di.log() == mid_log + common.take(k);
                            if hardware_reset {
                                assert(mid_log + common.take(k) =~= old(dcs).di.log() + full.take(
                                    k,
                                ));
                            } else {
                                assert(mid_log + common.take(k) =~= old(dcs).di.log() + full.take(
                                    k + 1,
                                ));
                            }
                        }
                        Err(InitError::CommandFailure(fault))
                    },
                    Error::BufferTooSmall => {
                        proof {
                            assert(false);
                        }
                        unreached()
                    },
                }
            },
        }
    }

    /// Streams a pixel sequence into frame memory: one begin-memory-write
    /// command, then every pixel's two wire bytes, big-endian, in pixel
    /// order, as a single data payload.
    pub fn write_pixels<DI: Transport>(
        &mut self,
        dcs: &mut Dcs<DI>,
        colors: &[Rgb565Color],
    ) -> (r: Result<(), Error>)
        ensures
            r is Ok ==> final(dcs).di.log() == old(dcs).di.log() + seq![
                Txn::Command(0x2c),
                Txn::Data(pixel_bytes(colors@)),
            ],
            r matches Err(e) ==> (e matches Error::CommandFailure(_) && (final(dcs).di.log()
                == old(dcs).di.log() || final(dcs).di.log() == old(dcs).di.log().push(
                Txn::Command(0x2c),
            ))),
    {
        match dcs.write_command(WriteMemoryStart) {
            Ok(()) => {},
            Err(e) => {
                proof {
                    assert(e matches Error::CommandFailure(_));
                }
                return Err(e);
            },
        }
        let payload = crate::color::encode_pixels(colors);
        match dcs.di.send_data(payload.as_slice()) {
            Ok(()) => {
                proof {
                    assert(dcs.di.log() =~= old(dcs).di.log() + seq![
                        Txn::Command(0x2c),
                        Txn::Data(pixel_bytes(colors@)),
                    ]);
                }
                Ok(())
            },
            Err(fault) => {
                Err(Error::CommandFailure(fault))
            },
        }
    }
}

/// Runs the configuration sequence shared by every color-format model of
/// this controller: sleep exit through display-on, with the given pixel
/// format, ending with the settle delay. On success the transport saw
/// exactly [`common_init_txns`]; on a bus failure it saw a strict prefix of
/// it and the sequence stopped at once.
pub fn init_common<DELAY: Delay, DI: Transport>(
    dcs: &mut Dcs<DI>,
    delay: &mut DELAY,
    options: &ModelOptions,
    pixel_format: PixelFormat,
) -> (r: Result<SetAddressMode, Error>)
    ensures
        r matches Ok(mode) ==> ({
            &&& final(dcs).di.log() == old(dcs).di.log() + common_init_txns(
                *options,
                pixel_format.spec_byte(),
            )
            &&& final(delay).delay_log() == old(delay).delay_log().push(SETTLE_DELAY_US)
            &&& mode.madctl == options.spec_madctl()
        }),
        r matches Err(e) ==> ({
            &&& e matches Error::CommandFailure(_)
            &&& exists|k: int|
                0 <= k < common_init_txns(*options, pixel_format.spec_byte()).len() && final(dcs).di.log() == old(dcs).di.log() + common_init_txns(
                    *options,
                    pixel_format.spec_byte(),
                ).take(k)
            &&& final(delay).delay_log() == old(delay).delay_log()
        }),
{
    let ghost full = common_init_txns(*options, pixel_format.spec_byte());
    let madctl = SetAddressMode::from_options(options);
    match dcs.write_command(ExitSleepMode) {
        Ok(()) => {},
        Err(e) => {
            proof {
                assert(dcs.di.log() =~= old(dcs).di.log() + full.take(0));
            }
            return Err(e);
        },
    }
    proof {
        assert(dcs.di.log() =~= old(dcs).di.log() + full.take(1));
    }
    match dcs.write_command(SetPixelFormat::new(pixel_format)) {
        Ok(()) => {},
        Err(e) => {
            proof {
                assert((old(dcs).di.log() + full.take(1)).push(Txn::Command(0x3a)) =~= old(dcs).di.log() + full.take(2));
            }
            return Err(e);
        },
    }
    proof {
        assert(dcs.di.log() =~= old(dcs).di.log() + full.take(3));
    }
    match dcs.write_command(madctl) {
        Ok(()) => {},
        Err(e) => {
            proof {
                assert((old(dcs).di.log() + full.take(3)).push(Txn::Command(0x36)) =~= old(dcs).di.log() + full.take(4));
            }
            return Err(e);
        },
    }
    proof {
        assert(dcs.di.log() =~= old(dcs).di.log() + full.take(5));
    }
    match dcs.write_command(SetInvertMode::new(options.invert_colors)) {
        Ok(()) => {},
        Err(e) => {
            proof {
                assert((old(dcs).di.log() + full.take(5)).push(Txn::Command(0x21)) =~= old(dcs).di.log() + full.take(6));
            }
            return Err(e);
        },
    }
    proof {
        assert(dcs.di.log() =~= old(dcs).di.log() + full.take(7));
    }
    let vcom: [u8; 4] = [0x00, 0x1e, 0x80, 0xb1];
    proof {
        assert(vcom@ =~= vcom_control_params());
    }
    match dcs.write_raw(0xc5, vcom.as_slice()) {
        Ok(()) => {},
        Err(e) => {
            proof {
                assert((old(dcs).di.log() + full.take(7)).push(Txn::Command(0xc5)) =~= old(dcs).di.log() + full.take(8));
            }
            return Err(e);
        },
    }
    proof {
        assert(dcs.di.log() =~= old(dcs).di.log() + full.take(9));
    }
    let frame_rate: [u8; 1] = [0xb0];
    proof {
        assert(frame_rate@ =~= frame_rate_params());
    }
    match dcs.write_raw(0xb1, frame_rate.as_slice()) {
        Ok(()) => {},
        Err(e) => {
            proof {
                assert((old(dcs).di.log() + full.take(9)).push(Txn::Command(0xb1)) =~= old(dcs).di.log() + full.take(10));
            }
            return Err(e);
        },
    }
    proof {
        assert(dcs.di.log() =~= old(dcs).di.log() + full.take(11));
    }
    let gamma_pos: [u8; 15] = [
        0x00,
        0x13,
        0x18,
        0x04,
        0x0f,
        0x06,
        0x3a,
        0x56,
        0x4d,
        0x03,
        0x0a,
        0x06,
        0x30,
        0x3e,
        0x0f,
    ];
    proof {
        assert(gamma_pos@ =~= gamma_positive_params());
    }
    match dcs.write_raw(0xe0, gamma_pos.as_slice()) {
        Ok(()) => {},
        Err(e) => {
            proof {
                assert((old(dcs).di.log() + full.take(11)).push(Txn::Command(0xe0)) =~= old(dcs).di.log() + full.take(12));
            }
            return Err(e);
        },
    }
    proof {
        assert(dcs.di.log() =~= old(dcs).di.log() + full.take(13));
    }
    let gamma_neg: [u8; 15] = [
        0x00,
        0x13,
        0x18,
        0x01,
        0x11,
        0x06,
        0x38,
        0x34,
        0x4d,
        0x06,
        0x0d,
        0x0b,
        0x31,
        0x37,
        0x0f,
    ];
    proof {
        assert(gamma_neg@ =~= gamma_negative_params());
    }
    match dcs.write_raw(0xe1, gamma_neg.as_slice()) {
        Ok(()) => {},
        Err(e) => {
            proof {
                assert((old(dcs).di.log() + full.take(13)).push(Txn::Command(0xe1)) =~= old(dcs).di.log() + full.take(14));
            }
            return Err(e);
        },
    }
    proof {
        assert(dcs.di.log() =~= old(dcs).di.log() + full.take(15));
    }
    let scan_direction: [u8; 2] = [0x00, 0x42];
    proof {
        assert(scan_direction@ =~= scan_direction_params());
    }
    match dcs.write_raw(0xb6, scan_direction.as_slice()) {
        Ok(()) => {},
        Err(e) => {
            proof {
                assert((old(dcs).di.log() + full.take(15)).push(Txn::Command(0xb6)) =~= old(dcs).di.log() + full.take(16));
            }
            return Err(e);
        },
    }
    proof {
        assert(dcs.di.log() =~= old(dcs).di.log() + full.take(17));
    }
    match dcs.write_command(EnterNormalMode) {
        Ok(()) => {},
        Err(e) => {
            proof {
                assert(dcs.di.log() =~= old(dcs).di.log() + full.take(17));
            }
            return Err(e);
        },
    }
    proof {
        assert(dcs.di.log() =~= old(dcs).di.log() + full.take(18));
    }
    match dcs.write_command(SetDisplayOn) {
        Ok(()) => {},
        Err(e) => {
            proof {
                assert(dcs.di.log() =~= old(dcs).di.log() + full.take(18));
            }
            return Err(e);
        },
    }
    proof {
        assert(dcs.di.log() =~= old(dcs).di.log() + full);
    }
    delay.delay_us(SETTLE_DELAY_US);
    Ok(madctl)
}

} // verus!
