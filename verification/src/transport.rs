use vstd::prelude::*;

use crate::errors::TransportError;

verus! {

/// One operation attempted on the USB device handle. A handle keeps a ghost
/// record of every attempt, successful or not, so that session contracts can
/// state exactly which transfers an operation performs and in what order.
pub enum HandleOp {
    /// An interface was claimed.
    ClaimInterface(u8),
    /// A frame was written on the interrupt channel: endpoint, then the
    /// exact bytes handed to the transport.
    WriteInterrupt(u8, Seq<u8>),
    /// A payload was written on the bulk channel: endpoint, then the exact
    /// bytes handed to the transport.
    WriteBulk(u8, Seq<u8>),
    /// A read was issued on the interrupt channel from the given endpoint.
    ReadInterrupt(u8),
    /// An interface was released.
    ReleaseInterface(u8),
    /// The device was reset.
    Reset,
    /// Automatic kernel-driver detach was switched on or off.
    AutoDetachKernelDriver(bool),
}

/// A bidirectional USB channel to the cooler, supplied by the caller:
/// blocking interrupt writes and reads plus bulk writes, each attempt
/// either returning a byte count or failing with a `TransportError`.
///
/// Implementations apply the fixed transfer timeouts themselves
/// (10 s for writes, 3 s for reads) and do no retrying or buffering of
/// their own. The ghost `log` records every attempted operation, oldest
/// first, whether or not it succeeded.
pub trait NZXTDeviceHandle: Sized {
    /// The operations attempted on this handle so far, oldest first.
    /// An implementation outside the verifier inherits this default, an
    /// arbitrary sequence: nothing is proved about such an
    /// implementation, and nothing can refute it either.
    open spec fn log(&self) -> Seq<HandleOp> {
        vstd::pervasive::arbitrary()
    }

    /// Claim the given USB interface for exclusive use.
    fn claim_interface(&mut self, iface: u8) -> (r: Result<(), TransportError>)
        ensures
            final(self).log() == old(self).log().push(HandleOp::ClaimInterface(iface)),
    ;

    /// Write `buf` to the given interrupt endpoint, blocking up to the
    /// write timeout.
    fn write_interrupt(&mut self, endpoint: u8, buf: &Vec<u8>) -> (r: Result<
        usize,
        TransportError,
    >)
        ensures
            final(self).log() == old(self).log().push(
                HandleOp::WriteInterrupt(endpoint, buf@),
            ),
    ;

    /// Write `buf` to the given bulk endpoint, blocking up to the write
    /// timeout.
    fn write_bulk(&mut self, endpoint: u8, buf: &Vec<u8>) -> (r: Result<usize, TransportError>)
        ensures
            final(self).log() == old(self).log().push(HandleOp::WriteBulk(endpoint, buf@)),
    ;

    /// Read from the given interrupt endpoint into `buf`, blocking up to
    /// the read timeout. The buffer keeps its length; what it holds after
    /// the call is whatever the device sent.
    fn read_interrupt(&mut self, endpoint: u8, buf: &mut Vec<u8>) -> (r: Result<
        usize,
        TransportError,
    >)
        ensures
            final(self).log() == old(self).log().push(HandleOp::ReadInterrupt(endpoint)),
            final(buf)@.len() == old(buf)@.len(),
    ;

    /// Release the given USB interface.
    fn release_interface(&mut self, iface: u8) -> (r: Result<(), TransportError>)
        ensures
            final(self).log() == old(self).log().push(HandleOp::ReleaseInterface(iface)),
    ;

    /// Reset the device.
    fn reset(&mut self) -> (r: Result<(), TransportError>)
        ensures
            final(self).log() == old(self).log().push(HandleOp::Reset),
    ;

    /// Ask the operating system to detach (and later reattach) a kernel
    /// driver bound to an interface when it is claimed.
    fn set_auto_detach_kernel_driver(&mut self, auto_detach: bool) -> (r: Result<
        (),
        TransportError,
    >)
        ensures
            final(self).log() == old(self).log().push(
                HandleOp::AutoDetachKernelDriver(auto_detach),
            ),
    ;
}

/// One operation recorded by a scripted transport, with the exact bytes
/// it was handed.
#[derive(Debug, PartialEq, Eq)]
pub enum RecordedOp {
    /// An interface was claimed.
    ClaimInterface(u8),
    /// A frame was written on the interrupt channel.
    WriteInterrupt(u8, Vec<u8>),
    /// A payload was written on the bulk channel.
    WriteBulk(u8, Vec<u8>),
    /// A read was issued from the given endpoint.
    ReadInterrupt(u8),
    /// An interface was released.
    ReleaseInterface(u8),
    /// The device was reset.
    Reset,
    /// Automatic kernel-driver detach was switched on or off.
    AutoDetachKernelDriver(bool),
}

impl View for RecordedOp {
    type V = HandleOp;

    open spec fn view(&self) -> HandleOp {
        match self {
            RecordedOp::ClaimInterface(iface) => HandleOp::ClaimInterface(*iface),
            RecordedOp::WriteInterrupt(endpoint, data) => HandleOp::WriteInterrupt(
                *endpoint,
                data@,
            ),
            RecordedOp::WriteBulk(endpoint, data) => HandleOp::WriteBulk(*endpoint, data@),
            RecordedOp::ReadInterrupt(endpoint) => HandleOp::ReadInterrupt(*endpoint),
            RecordedOp::ReleaseInterface(iface) => HandleOp::ReleaseInterface(*iface),
            RecordedOp::Reset => HandleOp::Reset,
            RecordedOp::AutoDetachKernelDriver(auto_detach) => HandleOp::AutoDetachKernelDriver(
                *auto_detach,
            ),
        }
    }
}

/// A deterministic in-memory transport: it performs no I/O, records every
/// attempted operation, answers reads from a canned response, and fails
/// exactly the operation kinds it is told to fail. It drives the session
/// logic in tests without real hardware.
#[derive(Debug)]
pub struct ScriptedHandle {
    /// Every operation attempted on the handle, oldest first.
    pub ops: Vec<RecordedOp>,
    /// The bytes a successful read copies into the caller's buffer.
    pub read_response: Vec<u8>,
    /// Fail every claim and every auto-detach request.
    pub fail_claim: bool,
    /// Fail every interrupt and bulk write.
    pub fail_write: bool,
    /// Fail every read.
    pub fail_read: bool,
    /// Fail every release and every reset.
    pub fail_teardown: bool,
}

impl ScriptedHandle {
    /// A fresh handle that lets every operation succeed and answers
    /// reads with an empty response.
    pub fn new() -> (h: ScriptedHandle)
        ensures
            h.log() == Seq::<HandleOp>::empty(),
    {
        let h = ScriptedHandle {
            ops: Vec::new(),
            read_response: Vec::new(),
            fail_claim: false,
            fail_write: false,
            fail_read: false,
            fail_teardown: false,
        };
        proof {
            assert(h.log() =~= Seq::<HandleOp>::empty());
        }
        h
    }
}

impl NZXTDeviceHandle for ScriptedHandle {
    open spec fn log(&self) -> Seq<HandleOp> {
        self.ops@.map_values(|op: RecordedOp| op@)
    }

    fn claim_interface(&mut self, iface: u8) -> (r: Result<(), TransportError>) {
        self.ops.push(RecordedOp::ClaimInterface(iface));
        proof {
            assert(self.log() =~= old(self).log().push(HandleOp::ClaimInterface(iface)));
        }
        if self.fail_claim {
            Err(TransportError)
        } else {
            Ok(())
        }
    }

    fn write_interrupt(&mut self, endpoint: u8, buf: &Vec<u8>) -> (r: Result<
        usize,
        TransportError,
    >) {
        let data = buf.clone();
        proof {
            assert(data@ =~= buf@);
        }
        self.ops.push(RecordedOp::WriteInterrupt(endpoint, data));
        proof {
            assert(self.log() =~= old(self).log().push(HandleOp::WriteInterrupt(endpoint, buf@)));
        }
        if self.fail_write {
            Err(TransportError)
        } else {
            Ok(buf.len())
        }
    }

    fn write_bulk(&mut self, endpoint: u8, buf: &Vec<u8>) -> (r: Result<usize, TransportError>) {
        let data = buf.clone();
        proof {
            assert(data@ =~= buf@);
        }
        self.ops.push(RecordedOp::WriteBulk(endpoint, data));
        proof {
            assert(self.log() =~= old(self).log().push(HandleOp::WriteBulk(endpoint, buf@)));
        }
        if self.fail_write {
            Err(TransportError)
        } else {
            Ok(buf.len())
        }
    }

    fn read_interrupt(&mut self, endpoint: u8, buf: &mut Vec<u8>) -> (r: Result<
        usize,
        TransportError,
    >) {
        self.ops.push(RecordedOp::ReadInterrupt(endpoint));
        let ghost logged = self.log();
        proof {
            assert(logged =~= old(self).log().push(HandleOp::ReadInterrupt(endpoint)));
        }
        if self.fail_read {
            return Err(TransportError);
        }
        let mut count: usize = buf.len();
        if self.read_response.len() < count {
            count = self.read_response.len();
        }
        let mut i: usize = 0;
        while i < count
            invariant
                i <= count,
                count <= buf@.len(),
                count <= self.read_response@.len(),
                buf@.len() == old(buf)@.len(),
                self.log() == logged,
            decreases count - i,
        {
            buf[i] = self.read_response[i];
            i = i + 1;
        }
        Ok(count)
    }

    fn release_interface(&mut self, iface: u8) -> (r: Result<(), TransportError>) {
        self.ops.push(RecordedOp::ReleaseInterface(iface));
        proof {
            assert(self.log() =~= old(self).log().push(HandleOp::ReleaseInterface(iface)));
        }
        if self.fail_teardown {
            Err(TransportError)
        } else {
            Ok(())
        }
    }

    fn reset(&mut self) -> (r: Result<(), TransportError>) {
        self.ops.push(RecordedOp::Reset);
        proof {
            assert(self.log() =~= old(self).log().push(HandleOp::Reset));
        }
        if self.fail_teardown {
            Err(TransportError)
        } else {
            Ok(())
        }
    }

    fn set_auto_detach_kernel_driver(&mut self, auto_detach: bool) -> (r: Result<
        (),
        TransportError,
    >) {
        self.ops.push(RecordedOp::AutoDetachKernelDriver(auto_detach));
        proof {
            assert(self.log() =~= old(self).log().push(
                HandleOp::AutoDetachKernelDriver(auto_detach),
            ));
        }
        if self.fail_claim {
            Err(TransportError)
        } else {
            Ok(())
        }
    }
}

} // verus!
