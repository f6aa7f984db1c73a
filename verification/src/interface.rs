use crate::error::{BusFault, PinFault};
use vstd::prelude::*;

verus! {

/// One transaction on the command/data bus, as the mathematical model sees
/// it: either an instruction byte sent in command mode, or a data payload
/// sent in data mode.
#[verifier::ext_equal]
pub enum Txn {
    Command(u8),
    Data(Seq<u8>),
}

/// One recorded bus transaction, the executable counterpart of [`Txn`].
pub enum TxnRec {
    Command(u8),
    Data(Vec<u8>),
}

impl View for TxnRec {
    type V = Txn;

    open spec fn view(&self) -> Txn {
        match self {
            TxnRec::Command(op) => Txn::Command(*op),
            TxnRec::Data(d) => Txn::Data(d@),
        }
    }
}

impl TxnRec {
    /// True when this record is an instruction byte, not a data payload.
    pub fn is_command(&self) -> (r: bool)
        ensures
            r == (self@ is Command),
    {
        match self {
            TxnRec::Command(_) => true,
            TxnRec::Data(_) => false,
        }
    }

    /// The instruction byte of a command record.
    pub fn opcode(&self) -> (r: u8)
        requires
            self@ is Command,
        ensures
            self@ == Txn::Command(r),
    {
        match self {
            TxnRec::Command(op) => *op,
            TxnRec::Data(_) => 0,
        }
    }

    /// The payload of a data record.
    pub fn payload(&self) -> (r: &Vec<u8>)
        requires
            self@ is Data,
        ensures
            self@ == Txn::Data(r@),
    {
        match self {
            TxnRec::Data(d) => d,
            TxnRec::Command(_) => unreached(),
        }
    }
}

/// Write-only command/data transport, the bus collaborator.
///
/// `log()` is the ghost history of everything the transport has sent, oldest
/// first. A transport may fail any transaction (a bus fault); a failed
/// transaction sends nothing. The driver never retries: after a failure the
/// controller state is unknown and recovery belongs to the caller.
pub trait Transport: Sized {
    /// Every transaction sent so far, oldest first. Implementations the
    /// verifier checks override this; the default serves implementations
    /// outside its view, which carry no ghost history.
    open spec fn log(&self) -> Seq<Txn> {
        Seq::empty()
    }

    /// Send one instruction byte in command mode.
    fn send_command(&mut self, opcode: u8) -> (r: Result<(), BusFault>)
        ensures
            r is Ok ==> final(self).log() == old(self).log().push(Txn::Command(opcode)),
            r is Err ==> final(self).log() == old(self).log(),
    ;

    /// Send a data payload in data mode.
    fn send_data(&mut self, data: &[u8]) -> (r: Result<(), BusFault>)
        ensures
            r is Ok ==> final(self).log() == old(self).log().push(Txn::Data(data@)),
            r is Err ==> final(self).log() == old(self).log(),
    ;
}

/// Blocking delay source, the timing collaborator.
///
/// `delay_log()` is the ghost history of every wait that was requested, in
/// order; the driver's timing contract is stated over it.
pub trait Delay: Sized {
    /// Every wait requested so far, in microseconds, oldest first.
    /// Implementations the verifier checks override this; the default
    /// serves implementations outside its view.
    open spec fn delay_log(&self) -> Seq<u32> {
        Seq::empty()
    }

    /// Block for `us` microseconds.
    fn delay_us(&mut self, us: u32)
        ensures
            final(self).delay_log() == old(self).delay_log().push(us),
    ;
}

/// Dedicated reset GPIO line, the optional reset collaborator.
///
/// `pin_log()` is the ghost history of the levels driven onto the pin, in
/// order (`false` is low, `true` is high). A failed drive leaves the pin
/// history unchanged.
pub trait ResetLine: Sized {
    /// Every level driven so far, oldest first. Implementations the
    /// verifier checks override this; the default serves implementations
    /// outside its view.
    open spec fn pin_log(&self) -> Seq<bool> {
        Seq::empty()
    }

    /// Drive the line low.
    fn set_low(&mut self) -> (r: Result<(), PinFault>)
        ensures
            r is Ok ==> final(self).pin_log() == old(self).pin_log().push(false),
            r is Err ==> final(self).pin_log() == old(self).pin_log(),
    ;

    /// Drive the line high.
    fn set_high(&mut self) -> (r: Result<(), PinFault>)
        ensures
            r is Ok ==> final(self).pin_log() == old(self).pin_log().push(true),
            r is Err ==> final(self).pin_log() == old(self).pin_log(),
    ;
}

} // verus!
