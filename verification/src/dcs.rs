use crate::bytes::{hi_byte, hi_byte_of, lo_byte, lo_byte_of};
use crate::error::Error;
use crate::interface::{Transport, Txn};
use crate::options::ModelOptions;
use vstd::prelude::*;

verus! {

/// Capacity of the parameter buffer a dispatcher encodes into. No DCS
/// command of this driver carries more parameter bytes than this.
pub const MAX_PARAMS: usize = 16;

/// A display command: one instruction byte plus zero or more parameter
/// bytes. The codec is a pure format mapping: encoding is deterministic,
/// side-effect-free, and never truncates silently.
pub trait DcsCommand: Sized {
    /// The instruction byte, in the model.
    spec fn spec_instruction(&self) -> u8;

    /// The parameter bytes, in order, in the model.
    spec fn spec_params(&self) -> Seq<u8>;

    /// The instruction byte.
    fn instruction(&self) -> (r: u8)
        ensures
            r == self.spec_instruction(),
    ;

    /// Packs the parameter bytes into the front of `buf` and returns how
    /// many bytes were written. When `buf` cannot hold them all, fails with
    /// [`Error::BufferTooSmall`] and writes nothing.
    fn fill_params_buf(&self, buf: &mut [u8]) -> (r: Result<usize, Error>)
        ensures
            old(buf)@.len() >= self.spec_params().len() ==> (r matches Ok(n) && n
                == self.spec_params().len() && final(buf)@ == self.spec_params() + old(
                buf,
            )@.skip(self.spec_params().len() as int)),
            old(buf)@.len() < self.spec_params().len() ==> (r == Err::<usize, Error>(
                Error::BufferTooSmall,
            ) && final(buf)@ == old(buf)@),
    ;
}

/// Software reset.
pub struct SoftReset;

impl DcsCommand for SoftReset {
    open spec fn spec_instruction(&self) -> u8 {
        0x01
    }

    open spec fn spec_params(&self) -> Seq<u8> {
        Seq::empty()
    }

    fn instruction(&self) -> (r: u8) {
        0x01
    }

    fn fill_params_buf(&self, buf: &mut [u8]) -> (r: Result<usize, Error>) {
        proof {
            assert(self.spec_params() + buf@.skip(0) =~= buf@);
        }
        Ok(0)
    }
}

/// Leave sleep mode, waking the display pipeline.
pub struct ExitSleepMode;

impl DcsCommand for ExitSleepMode {
    open spec fn spec_instruction(&self) -> u8 {
        0x11
    }

    open spec fn spec_params(&self) -> Seq<u8> {
        Seq::empty()
    }

    fn instruction(&self) -> (r: u8) {
        0x11
    }

    fn fill_params_buf(&self, buf: &mut [u8]) -> (r: Result<usize, Error>) {
        proof {
            assert(self.spec_params() + buf@.skip(0) =~= buf@);
        }
        Ok(0)
    }
}

/// Enter normal display mode.
pub struct EnterNormalMode;

impl DcsCommand for EnterNormalMode {
    open spec fn spec_instruction(&self) -> u8 {
        0x13
    }

    open spec fn spec_params(&self) -> Seq<u8> {
        Seq::empty()
    }

    fn instruction(&self) -> (r: u8) {
        0x13
    }

    fn fill_params_buf(&self, buf: &mut [u8]) -> (r: Result<usize, Error>) {
        proof {
            assert(self.spec_params() + buf@.skip(0) =~= buf@);
        }
        Ok(0)
    }
}

/// Turn the display on.
pub struct SetDisplayOn;

impl DcsCommand for SetDisplayOn {
    open spec fn spec_instruction(&self) -> u8 {
        0x29
    }

    open spec fn spec_params(&self) -> Seq<u8> {
        Seq::empty()
    }

    fn instruction(&self) -> (r: u8) {
        0x29
    }

    fn fill_params_buf(&self, buf: &mut [u8]) -> (r: Result<usize, Error>) {
        proof {
            assert(self.spec_params() + buf@.skip(0) =~= buf@);
        }
        Ok(0)
    }
}

/// Begin a frame-memory write; pixel data follows as the data payload.
pub struct WriteMemoryStart;

impl DcsCommand for WriteMemoryStart {
    open spec fn spec_instruction(&self) -> u8 {
        0x2c
    }

    open spec fn spec_params(&self) -> Seq<u8> {
        Seq::empty()
    }

    fn instruction(&self) -> (r: u8) {
        0x2c
    }

    fn fill_params_buf(&self, buf: &mut [u8]) -> (r: Result<usize, Error>) {
        proof {
            assert(self.spec_params() + buf@.skip(0) =~= buf@);
        }
        Ok(0)
    }
}

/// Color-inversion register write. The enable flag travels as the parameter
/// byte, so the instruction sequence of an initialization never depends on
/// the caller's options.
pub struct SetInvertMode {
    pub invert: bool,
}

impl SetInvertMode {
    pub fn new(invert: bool) -> (r: Self)
        ensures
            r.invert == invert,
    {
        SetInvertMode { invert }
    }
}

impl DcsCommand for SetInvertMode {
    open spec fn spec_instruction(&self) -> u8 {
        0x21
    }

    open spec fn spec_params(&self) -> Seq<u8> {
        seq![if self.invert { 1u8 } else { 0u8 }]
    }

    fn instruction(&self) -> (r: u8) {
        0x21
    }

    fn fill_params_buf(&self, buf: &mut [u8]) -> (r: Result<usize, Error>) {
        if buf.len() < 1 {
            return Err(Error::BufferTooSmall);
        }
        buf[0] = if self.invert {
            1
        } else {
            0
        };
        proof {
            assert(buf@ =~= self.spec_params() + old(buf)@.skip(1));
        }
        Ok(1)
    }
}

/// Memory-access-control (orientation) register write. Also the value `init`
/// returns, confirming the active orientation so the caller can track it
/// without reissuing the write.
#[derive(Clone, Copy, PartialEq, Eq, Structural, Debug)]
pub struct SetAddressMode {
    /// The register value: scan directions and RGB/BGR order.
    pub madctl: u8,
}

impl SetAddressMode {
    /// Derives the orientation register value from the caller's options.
    pub fn from_options(options: &ModelOptions) -> (r: Self)
        ensures
            r.madctl == options.spec_madctl(),
    {
        SetAddressMode { madctl: options.madctl() }
    }
}

impl DcsCommand for SetAddressMode {
    open spec fn spec_instruction(&self) -> u8 {
        0x36
    }

    open spec fn spec_params(&self) -> Seq<u8> {
        seq![self.madctl]
    }

    fn instruction(&self) -> (r: u8) {
        0x36
    }

    fn fill_params_buf(&self, buf: &mut [u8]) -> (r: Result<usize, Error>) {
        if buf.len() < 1 {
            return Err(Error::BufferTooSmall);
        }
        buf[0] = self.madctl;
        proof {
            assert(buf@ =~= self.spec_params() + old(buf)@.skip(1));
        }
        Ok(1)
    }
}

/// Color depth a pixel-format register field can name.
#[derive(Clone, Copy, PartialEq, Eq, Structural, Debug)]
pub enum BitsPerPixel {
    Sixteen,
    Eighteen,
    TwentyFour,
}

impl BitsPerPixel {
    /// The three-bit register code of this depth.
    pub open spec fn spec_code(&self) -> u8 {
        match self {
            BitsPerPixel::Sixteen => 0x5,
            BitsPerPixel::Eighteen => 0x6,
            BitsPerPixel::TwentyFour => 0x7,
        }
    }

    /// The three-bit register code of this depth.
    pub fn code(&self) -> (r: u8)
        ensures
            r == self.spec_code(),
    {
        match self {
            BitsPerPixel::Sixteen => 0x5,
            BitsPerPixel::Eighteen => 0x6,
            BitsPerPixel::TwentyFour => 0x7,
        }
    }
}

/// Pixel-format register value: the color depth of the display-pixel
/// interface (high nibble) and of the bus interface (low nibble). It must
/// agree with the wire encoding the pixel writer emits, or colors come out
/// wrong with no protocol-level error.
#[derive(Clone, Copy, PartialEq, Eq, Structural, Debug)]
pub struct PixelFormat {
    pub dpi: BitsPerPixel,
    pub dbi: BitsPerPixel,
}

impl PixelFormat {
    /// Uses one depth for both interface fields.
    pub fn with_all(bpp: BitsPerPixel) -> (r: Self)
        ensures
            r == (PixelFormat { dpi: bpp, dbi: bpp }),
    {
        PixelFormat { dpi: bpp, dbi: bpp }
    }

    /// The register byte: both depth codes packed into one value.
    pub open spec fn spec_byte(&self) -> u8 {
        (self.dpi.spec_code() << 4) | self.dbi.spec_code()
    }

    /// The register byte: both depth codes packed into one value.
    pub fn byte(&self) -> (r: u8)
        ensures
            r == self.spec_byte(),
    {
        (self.dpi.code() << 4) | self.dbi.code()
    }
}

/// Pixel-format register write.
pub struct SetPixelFormat {
    pub format: PixelFormat,
}

impl SetPixelFormat {
    pub fn new(format: PixelFormat) -> (r: Self)
        ensures
            r.format == format,
    {
        SetPixelFormat { format }
    }
}

impl DcsCommand for SetPixelFormat {
    open spec fn spec_instruction(&self) -> u8 {
        0x3a
    }

    open spec fn spec_params(&self) -> Seq<u8> {
        seq![self.format.spec_byte()]
    }

    fn instruction(&self) -> (r: u8) {
        0x3a
    }

    fn fill_params_buf(&self, buf: &mut [u8]) -> (r: Result<usize, Error>) {
        if buf.len() < 1 {
            return Err(Error::BufferTooSmall);
        }
        buf[0] = self.format.byte();
        proof {
            assert(buf@ =~= self.spec_params() + old(buf)@.skip(1));
        }
        Ok(1)
    }
}

/// Column-address window write: first and last column, each as a big-endian
/// 16-bit value.
pub struct SetColumnAddress {
    pub start_column: u16,
    pub end_column: u16,
}

impl SetColumnAddress {
    pub fn new(start_column: u16, end_column: u16) -> (r: Self)
        ensures
            r.start_column == start_column,
            r.end_column == end_column,
    {
        SetColumnAddress { start_column, end_column }
    }
}

impl DcsCommand for SetColumnAddress {
    open spec fn spec_instruction(&self) -> u8 {
        0x2a
    }

    open spec fn spec_params(&self) -> Seq<u8> {
        seq![
            hi_byte(self.start_column),
            lo_byte(self.start_column),
            hi_byte(self.end_column),
            lo_byte(self.end_column),
        ]
    }

    fn instruction(&self) -> (r: u8) {
        0x2a
    }

    fn fill_params_buf(&self, buf: &mut [u8]) -> (r: Result<usize, Error>) {
        if buf.len() < 4 {
            return Err(Error::BufferTooSmall);
        }
        buf[0] = hi_byte_of(self.start_column);
        buf[1] = lo_byte_of(self.start_column);
        buf[2] = hi_byte_of(self.end_column);
        buf[3] = lo_byte_of(self.end_column);
        proof {
            assert(buf@ =~= self.spec_params() + old(buf)@.skip(4));
        }
        Ok(4)
    }
}

/// Page-address (row) window write: first and last row, each as a
/// big-endian 16-bit value.
pub struct SetPageAddress {
    pub start_row: u16,
    pub end_row: u16,
}

impl SetPageAddress {
    pub fn new(start_row: u16, end_row: u16) -> (r: Self)
        ensures
            r.start_row == start_row,
            r.end_row == end_row,
    {
        SetPageAddress { start_row, end_row }
    }
}

impl DcsCommand for SetPageAddress {
    open spec fn spec_instruction(&self) -> u8 {
        0x2b
    }

    open spec fn spec_params(&self) -> Seq<u8> {
        seq![
            hi_byte(self.start_row),
            lo_byte(self.start_row),
            hi_byte(self.end_row),
            lo_byte(self.end_row),
        ]
    }

    fn instruction(&self) -> (r: u8) {
        0x2b
    }

    fn fill_params_buf(&self, buf: &mut [u8]) -> (r: Result<usize, Error>) {
        if buf.len() < 4 {
            return Err(Error::BufferTooSmall);
        }
        buf[0] = hi_byte_of(self.start_row);
        buf[1] = lo_byte_of(self.start_row);
        buf[2] = hi_byte_of(self.end_row);
        buf[3] = lo_byte_of(self.end_row);
        proof {
            assert(buf@ =~= self.spec_params() + old(buf)@.skip(4));
        }
        Ok(4)
    }
}

/// The bus transactions one command write causes: the instruction byte in
/// command mode, then the parameter bytes in data mode (sent only when there
/// are any).
pub open spec fn txns_of_command(instruction: u8, params: Seq<u8>) -> Seq<Txn> {
    if params.len() == 0 {
        seq![Txn::Command(instruction)]
    } else {
        seq![Txn::Command(instruction), Txn::Data(params)]
    }
}

/// Command dispatcher: sends encoded commands and their payloads through the
/// transport as single logical transactions. It holds nothing but the
/// transport handle; failures are wrapped, never retried.
pub struct Dcs<DI: Transport> {
    /// The transport collaborator.
    pub di: DI,
}

impl<DI: Transport> Dcs<DI> {
    /// Wraps a transport.
    pub fn from_interface(di: DI) -> (r: Self)
        ensures
            r.di == di,
    {
        Dcs { di }
    }

    /// Hands the transport back.
    pub fn release(self) -> (r: DI)
        ensures
            r == self.di,
    {
        self.di
    }

    /// Sends a command: its instruction byte, then its parameter bytes when
    /// it has any. On success the transport saw exactly the command's
    /// transactions, in order; on a transport failure nothing beyond the
    /// instruction byte was sent and the error wraps the fault.
    pub fn write_command<C: DcsCommand>(&mut self, command: C) -> (r: Result<(), Error>)
        ensures
            r is Ok ==> final(self).di.log() == old(self).di.log() + txns_of_command(
                command.spec_instruction(),
                command.spec_params(),
            ),
            command.spec_params().len() > MAX_PARAMS <==> r == Err::<(), Error>(
                Error::BufferTooSmall,
            ),
            r == Err::<(), Error>(Error::BufferTooSmall) ==> final(self).di.log() == old(
                self,
            ).di.log(),
            r matches Err(e) ==> (e matches Error::CommandFailure(_) ==> final(self).di.log()
                == old(self).di.log() || (command.spec_params().len() > 0 && final(self).di.log()
                == old(self).di.log().push(Txn::Command(command.spec_instruction())))),
    {
        let mut buf: [u8; 16] = [0u8; 16];
        let filled = command.fill_params_buf(vstd::array::ref_mut_array_unsizing_coercion(&mut buf));
        let n = match filled {
            Ok(n) => n,
            Err(e) => {
                return Err(e);
            },
        };
        match self.di.send_command(command.instruction()) {
            Ok(()) => {},
            Err(fault) => {
                return Err(Error::CommandFailure(fault));
            },
        }
        if n > 0 {
            let params = vstd::slice::slice_subrange(buf.as_slice(), 0, n);
            proof {
                assert(params@ =~= command.spec_params());
            }
            match self.di.send_data(params) {
                Ok(()) => {},
                Err(fault) => {
                    return Err(Error::CommandFailure(fault));
                },
            }
        }
        proof {
            assert(self.di.log() =~= old(self).di.log() + txns_of_command(
                command.spec_instruction(),
                command.spec_params(),
            ));
        }
        Ok(())
    }

    /// Sends a raw register write: the instruction byte, then the given
    /// parameter bytes when there are any. Used for vendor tuning registers
    /// whose opcode and parameters are datasheet constants.
    pub fn write_raw(&mut self, instruction: u8, param_bytes: &[u8]) -> (r: Result<(), Error>)
        ensures
            r is Ok ==> final(self).di.log() == old(self).di.log() + txns_of_command(
                instruction,
                param_bytes@,
            ),
            r matches Err(e) ==> (e matches Error::CommandFailure(_) && (final(self).di.log()
                == old(self).di.log() || final(self).di.log() == old(self).di.log().push(
                Txn::Command(instruction),
            ))),
    {
        match self.di.send_command(instruction) {
            Ok(()) => {},
            Err(fault) => {
                return Err(Error::CommandFailure(fault));
            },
        }
        if param_bytes.len() > 0 {
            match self.di.send_data(param_bytes) {
                Ok(()) => {},
                Err(fault) => {
                    return Err(Error::CommandFailure(fault));
                },
            }
        }
        proof {
            assert(self.di.log() =~= old(self).di.log() + txns_of_command(
                instruction,
                param_bytes@,
            ));
        }
        Ok(())
    }
}

} // verus!
