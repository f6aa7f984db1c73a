use crate::error::{BusFault, PinFault};
use crate::interface::{Delay, ResetLine, Transport, Txn, TxnRec};
use vstd::prelude::*;

verus! {

/// A transport that records every transaction instead of driving hardware.
///
/// It is the host-side collaborator for inspecting what a driver emits, and
/// it can induce a bus fault: with `fail_from == Some(k)` every transaction
/// from the `k`-th one on (counting from zero) fails with `fault_code`.
pub struct RecordingTransport {
    /// The transactions sent so far, oldest first.
    pub sent: Vec<TxnRec>,
    /// Fail every transaction once this many have been recorded.
    pub fail_from: Option<usize>,
    /// The code reported with each induced fault.
    pub fault_code: u8,
}

impl RecordingTransport {
    /// A transport that accepts every transaction.
    pub fn new() -> (t: Self)
        ensures
            t.log() == Seq::<Txn>::empty(),
    {
        RecordingTransport { sent: Vec::new(), fail_from: None, fault_code: 0 }
    }

    /// A transport whose transactions all fail from the `k`-th one on,
    /// reporting `code`.
    pub fn failing_from(k: usize, code: u8) -> (t: Self)
        ensures
            t.log() == Seq::<Txn>::empty(),
    {
        RecordingTransport { sent: Vec::new(), fail_from: Some(k), fault_code: code }
    }

    /// The recorded transactions, for inspection.
    pub fn records(&self) -> (r: &Vec<TxnRec>)
        ensures
            r@.map_values(|rec: TxnRec| rec@) == self.log(),
    {
        &self.sent
    }

    fn at_fault(&self) -> (r: bool)
        ensures
            r == self.spec_at_fault(),
    {
        match self.fail_from {
            Some(k) => self.sent.len() >= k,
            None => false,
        }
    }

    /// True when the next transaction is set up to fail.
    pub open spec fn spec_at_fault(&self) -> bool {
        match self.fail_from {
            Some(k) => self.sent@.len() >= k,
            None => false,
        }
    }
}

impl Transport for RecordingTransport {
    open spec fn log(&self) -> Seq<Txn> {
        self.sent@.map_values(|rec: TxnRec| rec@)
    }

    fn send_command(&mut self, opcode: u8) -> (r: Result<(), BusFault>) {
        if self.at_fault() {
            Err(BusFault { code: self.fault_code })
        } else {
            self.sent.push(TxnRec::Command(opcode));
            proof {
                assert(self.log() =~= old(self).log().push(Txn::Command(opcode)));
            }
            Ok(())
        }
    }

    fn send_data(&mut self, data: &[u8]) -> (r: Result<(), BusFault>) {
        if self.at_fault() {
            Err(BusFault { code: self.fault_code })
        } else {
            let owned: Vec<u8> = vstd::slice::slice_to_vec(data);
            self.sent.push(TxnRec::Data(owned));
            proof {
                assert(self.log() =~= old(self).log().push(Txn::Data(data@)));
            }
            Ok(())
        }
    }
}

/// A delay source that records every requested wait and does not block.
pub struct RecordingDelay {
    /// The waits requested so far, in microseconds, oldest first.
    pub waits: Vec<u32>,
}

impl RecordingDelay {
    /// A delay source with an empty history.
    pub fn new() -> (d: Self)
        ensures
            d.delay_log() == Seq::<u32>::empty(),
    {
        RecordingDelay { waits: Vec::new() }
    }
}

impl Delay for RecordingDelay {
    open spec fn delay_log(&self) -> Seq<u32> {
        self.waits@
    }

    fn delay_us(&mut self, us: u32) {
        self.waits.push(us);
    }
}

/// A reset line that records every level driven onto it.
///
/// With `fail_from == Some(k)` every drive from the `k`-th one on fails with
/// `fault_code`.
pub struct RecordingResetLine {
    /// The levels driven so far, oldest first (`false` is low).
    pub levels: Vec<bool>,
    /// Fail every drive once this many have been recorded.
    pub fail_from: Option<usize>,
    /// The code reported with each induced fault.
    pub fault_code: u8,
}

impl RecordingResetLine {
    /// A reset line that accepts every drive.
    pub fn new() -> (p: Self)
        ensures
            p.pin_log() == Seq::<bool>::empty(),
    {
        RecordingResetLine { levels: Vec::new(), fail_from: None, fault_code: 0 }
    }

    /// A reset line whose drives all fail from the `k`-th one on, reporting
    /// `code`.
    pub fn failing_from(k: usize, code: u8) -> (p: Self)
        ensures
            p.pin_log() == Seq::<bool>::empty(),
    {
        RecordingResetLine { levels: Vec::new(), fail_from: Some(k), fault_code: code }
    }

    fn at_fault(&self) -> (r: bool)
        ensures
            r == self.spec_at_fault(),
    {
        match self.fail_from {
            Some(k) => self.levels.len() >= k,
            None => false,
        }
    }

    /// True when the next drive is set up to fail.
    pub open spec fn spec_at_fault(&self) -> bool {
        match self.fail_from {
            Some(k) => self.levels@.len() >= k,
            None => false,
        }
    }
}

impl ResetLine for RecordingResetLine {
    open spec fn pin_log(&self) -> Seq<bool> {
        self.levels@
    }

    fn set_low(&mut self) -> (r: Result<(), PinFault>) {
        if self.at_fault() {
            Err(PinFault { code: self.fault_code })
        } else {
            self.levels.push(false);
            Ok(())
        }
    }

    fn set_high(&mut self) -> (r: Result<(), PinFault>) {
        if self.at_fault() {
            Err(PinFault { code: self.fault_code })
        } else {
            self.levels.push(true);
            Ok(())
        }
    }
}

} // verus!
