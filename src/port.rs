use vstd::prelude::*;

use crate::error::{lift, lifted, Error};
use crate::settings::{COMSettings, Dcb};
use vstd::string::StringSliceAdditionalSpecFns;

verus! {

/// The platform's sentinel for a handle that could not be opened.
pub const INVALID_HANDLE_VALUE: usize = usize::MAX;

/// The read timeout that every freshly opened port starts with.
pub const DEFAULT_TIMEOUT_MS: u64 = 100;

pub const SETRTS: u32 = 3;
pub const CLRRTS: u32 = 4;
pub const SETDTR: u32 = 5;
pub const CLRDTR: u32 = 6;

pub const MS_CTS_ON: u32 = 0x0010;
pub const MS_DSR_ON: u32 = 0x0020;
pub const MS_RING_ON: u32 = 0x0040;
pub const MS_RLSD_ON: u32 = 0x0080;

pub const PURGE_TXABORT: u32 = 0x0001;
pub const PURGE_RXABORT: u32 = 0x0002;
pub const PURGE_TXCLEAR: u32 = 0x0004;
pub const PURGE_RXCLEAR: u32 = 0x0008;

/// A span of time, as whole seconds and nanoseconds.
#[derive(Clone, Copy, Debug, PartialEq, Eq, Structural)]
pub struct Timeout {
    pub secs: u64,
    pub nanos: u32,
}

/// Whole milliseconds in a timeout.
pub open spec fn millis_of(t: Timeout) -> int {
    t.secs * 1000 + t.nanos / 1_000_000
}

/// The timeout of `ms` milliseconds.
pub open spec fn timeout_from_millis(ms: u64) -> Timeout {
    Timeout { secs: ms / 1000, nanos: ((ms % 1000) * 1_000_000) as u32 }
}

impl Timeout {
    pub fn from_millis(ms: u64) -> (r: Timeout)
        ensures
            r == timeout_from_millis(ms),
            r.nanos < 1_000_000_000,
            millis_of(r) == ms,
    {
        let rem = ms % 1000;
        assert(rem * 1_000_000 < 1_000_000_000) by (nonlinear_arith)
            requires
                rem < 1000,
        ;
        assert((rem * 1_000_000) / 1_000_000 == rem) by (nonlinear_arith);
        assert((ms / 1000) * 1000 + ms % 1000 == ms) by (nonlinear_arith);
        Timeout { secs: ms / 1000, nanos: (rem * 1_000_000) as u32 }
    }
}

/// The driver's timeout block.
#[derive(Clone, Copy, Debug, PartialEq, Eq, Structural)]
pub struct CommTimeouts {
    pub read_interval_timeout: u32,
    pub read_total_timeout_multiplier: u32,
    pub read_total_timeout_constant: u32,
    pub write_total_timeout_multiplier: u32,
    pub write_total_timeout_constant: u32,
}

/// The driver's properties block (its one-character trailer left out).
#[derive(Clone, Copy, Debug, PartialEq, Eq, Structural)]
pub struct CommProp {
    pub packet_length: u16,
    pub packet_version: u16,
    pub service_mask: u32,
    pub reserved1: u32,
    pub max_tx_queue: u32,
    pub max_rx_queue: u32,
    pub max_baud: u32,
    pub prov_sub_type: u32,
    pub prov_capabilities: u32,
    pub settable_params: u32,
    pub settable_baud: u32,
    pub settable_data: u16,
    pub settable_stop_parity: u16,
    pub current_tx_queue: u32,
    pub current_rx_queue: u32,
    pub prov_spec1: u32,
    pub prov_spec2: u32,
}

/// The driver's communication status block.
#[derive(Clone, Copy, Debug, PartialEq, Eq, Structural)]
pub struct ComStat {
    /// Flag word of hold and end-of-file states.
    pub flags: u32,
    /// Bytes received and not yet read.
    pub cb_in_que: u32,
    /// Bytes written and not yet sent.
    pub cb_out_que: u32,
}

/// Whether a name can stand after the device prefix: not empty, and free of
/// NUL bytes and path separators.
pub open spec fn valid_name(bytes: Seq<u8>) -> bool {
    &&& bytes.len() > 0
    &&& forall|i: int| 0 <= i < bytes.len() ==> bytes[i] != 0 && bytes[i] != 0x5c && bytes[i] != 0x2f
}

/// The prefix that turns a port name into a device path: `\\.\`.
pub open spec fn device_prefix() -> Seq<char> {
    seq!['\\', '\\', '.', '\\']
}

/// The timeout block for a read timeout: a constant total only, no interval
/// and no per-byte components, and no write timeout.
pub open spec fn timeout_block(t: Timeout) -> CommTimeouts {
    CommTimeouts {
        read_interval_timeout: 0,
        read_total_timeout_multiplier: 0,
        read_total_timeout_constant: millis_of(t) as u32,
        write_total_timeout_multiplier: 0,
        write_total_timeout_constant: 0,
    }
}

/// Whether a timeout's milliseconds fit the driver's timeout field.
pub open spec fn timeout_fits(t: Timeout) -> bool {
    millis_of(t) <= u32::MAX
}

/// The abstract state of an open port: its handle and its cached read timeout.
pub struct PortView {
    pub handle: usize,
    pub timeout: Timeout,
}

/// An open COM port: the one owner of its device handle.
///
/// `close` consumes the port and hands the handle back for release, so a
/// handle is released at most once.
pub struct COMPort {
    handle: usize,
    timeout: Timeout,
}

impl View for COMPort {
    type V = PortView;

    closed spec fn view(&self) -> PortView {
        PortView { handle: self.handle, timeout: self.timeout }
    }
}

/// A port on its way to being opened: the device path is known, the
/// driver's handle not yet.
pub struct OpenRequest {
    path: String,
}

impl View for OpenRequest {
    type V = Seq<char>;

    closed spec fn view(&self) -> Seq<char> {
        self.path@
    }
}

impl OpenRequest {
    /// The device path to open, read and write, unshared.
    pub fn path(&self) -> (r: &str)
        ensures
            r@ == self@,
    {
        self.path.as_str()
    }

    /// Takes ownership of the handle that opening the device path gave.
    /// The sentinel handle means the device could not be opened. The port
    /// starts with the default read timeout, which the caller then applies
    /// through `timeouts_for` and `set_timeout`.
    pub fn attach(self, handle: usize) -> (r: Result<COMPort, Error>)
        ensures
            handle == INVALID_HANDLE_VALUE ==> r == Err::<COMPort, Error>(Error::NoDevice),
            handle != INVALID_HANDLE_VALUE ==> (r matches Ok(p) && p@ == (PortView {
                handle,
                timeout: timeout_from_millis(DEFAULT_TIMEOUT_MS),
            }) && timeout_fits(p@.timeout)),
    {
        if handle == INVALID_HANDLE_VALUE {
            Err(Error::NoDevice)
        } else {
            Ok(COMPort { handle, timeout: Timeout::from_millis(DEFAULT_TIMEOUT_MS) })
        }
    }
}

impl COMPort {
    /// The device path to open for a port name such as `COM1`, good for any
    /// device number; a malformed name is refused before any driver call.
    pub fn device_path(name: &str) -> (r: Result<String, Error>)
        ensures
            valid_name(name.spec_bytes()) ==> (r matches Ok(p) && p@ == device_prefix() + name@),
            !valid_name(name.spec_bytes()) ==> r == Err::<String, Error>(Error::InvalidInput),
    {
        let bytes = name.as_bytes();
        let n = bytes.len();
        if n == 0 {
            return Err(Error::InvalidInput);
        }
        let mut i: usize = 0;
        while i < n
            invariant
                n == bytes@.len(),
                bytes@ == name.spec_bytes(),
                i <= n,
                forall|k: int| 0 <= k < i ==> bytes@[k] != 0 && bytes@[k] != 0x5c && bytes@[k] != 0x2f,
            decreases n - i,
        {
            let b = bytes[i];
            if b == 0 || b == 0x5c || b == 0x2f {
                return Err(Error::InvalidInput);
            }
            i = i + 1;
        }
        proof {
            reveal_strlit("\\\\.\\");
        }
        let mut path = String::from_str("\\\\.\\");
        path.append(name);
        assert(path@ =~= device_prefix() + name@);
        Ok(path)
    }

    /// Starts opening the port named `name`, such as `COM1`: a malformed name
    /// is refused with `InvalidInput` before any driver call; otherwise the
    /// request holds the device path for the caller to open.
    pub fn open(name: &str) -> (r: Result<OpenRequest, Error>)
        ensures
            valid_name(name.spec_bytes()) ==> (r matches Ok(q) && q@ == device_prefix() + name@),
            !valid_name(name.spec_bytes()) ==> (r matches Err(e) && e == Error::InvalidInput),
    {
        match Self::device_path(name) {
            Ok(path) => Ok(OpenRequest { path }),
            Err(e) => Err(e),
        }
    }

    /// The raw device handle.
    pub fn as_raw_handle(&self) -> (r: usize)
        ensures
            r == self@.handle,
    {
        self.handle
    }

    /// Gives up the port, handing back the handle to release.
    pub fn close(self) -> (r: usize)
        ensures
            r == self@.handle,
    {
        self.handle
    }

    /// The cached read timeout.
    pub fn timeout(&self) -> (r: Timeout)
        ensures
            r == self@.timeout,
    {
        self.timeout
    }

    /// The timeout block that applies a read timeout; a timeout whose
    /// milliseconds do not fit the driver's field is refused.
    pub fn timeouts_for(timeout: Timeout) -> (r: Result<CommTimeouts, Error>)
        ensures
            timeout_fits(timeout) ==> r == Ok::<CommTimeouts, Error>(timeout_block(timeout)),
            !timeout_fits(timeout) ==> r == Err::<CommTimeouts, Error>(Error::InvalidInput),
    {
        if timeout.secs > 4_294_967 {
            return Err(Error::InvalidInput);
        }
        let ms: u64 = timeout.secs * 1000 + (timeout.nanos as u64) / 1_000_000;
        if ms > (u32::MAX as u64) {
            return Err(Error::InvalidInput);
        }
        Ok(
            CommTimeouts {
                read_interval_timeout: 0,
                read_total_timeout_multiplier: 0,
                read_total_timeout_constant: ms as u32,
                write_total_timeout_multiplier: 0,
                write_total_timeout_constant: 0,
            },
        )
    }

    /// Records a new read timeout once the driver has taken its timeout block
    /// (`applied` is the outcome of that call). On any failure the cached
    /// timeout stays as it was.
    pub fn set_timeout(&mut self, timeout: Timeout, applied: Result<(), u32>) -> (r: Result<
        (),
        Error,
    >)
        ensures
            final(self)@.handle == old(self)@.handle,
            !timeout_fits(timeout) ==> r == Err::<(), Error>(Error::InvalidInput) && final(self)@
                == old(self)@,
            timeout_fits(timeout) ==> r == lifted(applied),
            r is Ok ==> final(self)@.timeout == timeout,
            r is Err ==> final(self)@ == old(self)@,
    {
        match Self::timeouts_for(timeout) {
            Err(e) => Err(e),
            Ok(_) => match applied {
                Ok(()) => {
                    self.timeout = timeout;
                    Ok(())
                },
                Err(code) => Err(crate::error::os_error(code)),
            },
        }
    }

    /// How many bytes one driver transfer asks for, given a buffer's length:
    /// the length, capped at what the driver's count field holds.
    pub fn transfer_len(buf_len: usize) -> (r: u32)
        ensures
            r == if buf_len <= u32::MAX {
                buf_len as u32
            } else {
                u32::MAX
            },
    {
        if buf_len <= (u32::MAX as usize) {
            buf_len as u32
        } else {
            u32::MAX
        }
    }

    /// The outcome of a read: a call that transferred nothing means the read
    /// timeout elapsed, never the end of the stream.
    pub fn read(&self, reply: Result<u32, u32>) -> (r: Result<usize, Error>)
        ensures
            reply matches Err(code) ==> r == Err::<usize, Error>(Error::Io(code)),
            reply == Ok::<u32, u32>(0) ==> r == Err::<usize, Error>(Error::TimedOut),
            reply matches Ok(n) ==> (n > 0 ==> r == Ok::<usize, Error>(n as usize)),
    {
        match reply {
            Err(code) => Err(crate::error::os_error(code)),
            Ok(n) => {
                if n != 0 {
                    Ok(n as usize)
                } else {
                    Err(Error::TimedOut)
                }
            },
        }
    }

    /// The outcome of a write: how many bytes the driver accepted, which may
    /// be fewer than were given.
    pub fn write(&self, reply: Result<u32, u32>) -> (r: Result<usize, Error>)
        ensures
            reply matches Err(code) ==> r == Err::<usize, Error>(Error::Io(code)),
            reply matches Ok(n) ==> r == Ok::<usize, Error>(n as usize),
    {
        match reply {
            Err(code) => Err(crate::error::os_error(code)),
            Ok(n) => Ok(n as usize),
        }
    }

    /// The outcome of waiting until every written byte has been sent.
    pub fn flush(&self, reply: Result<(), u32>) -> (r: Result<(), Error>)
        ensures
            r == lifted(reply),
    {
        lift(reply)
    }

    /// The line-control command that sets RTS to `level`.
    pub fn rts_function(level: bool) -> (r: u32)
        ensures
            r == if level {
                SETRTS
            } else {
                CLRRTS
            },
    {
        if level {
            SETRTS
        } else {
            CLRRTS
        }
    }

    /// The line-control command that sets DTR to `level`.
    pub fn dtr_function(level: bool) -> (r: u32)
        ensures
            r == if level {
                SETDTR
            } else {
                CLRDTR
            },
    {
        if level {
            SETDTR
        } else {
            CLRDTR
        }
    }

    /// The outcome of a line-control command.
    pub fn escape_comm_function(&self, reply: Result<(), u32>) -> (r: Result<(), Error>)
        ensures
            r == lifted(reply),
    {
        lift(reply)
    }

    /// One bit of the modem status word, given the outcome of reading that word.
    pub fn read_pin(&self, status: Result<u32, u32>, pin: u32) -> (r: Result<bool, Error>)
        ensures
            status matches Err(code) ==> r == Err::<bool, Error>(Error::Io(code)),
            status matches Ok(s) ==> r == Ok::<bool, Error>(s & pin != 0),
    {
        match status {
            Err(code) => Err(crate::error::os_error(code)),
            Ok(s) => Ok(s & pin != 0),
        }
    }

    /// Clear To Send, from the modem status word.
    pub fn read_cts(&self, status: Result<u32, u32>) -> (r: Result<bool, Error>)
        ensures
            status matches Err(code) ==> r == Err::<bool, Error>(Error::Io(code)),
            status matches Ok(s) ==> r == Ok::<bool, Error>(s & MS_CTS_ON != 0),
    {
        self.read_pin(status, MS_CTS_ON)
    }

    /// Data Set Ready, from the modem status word.
    pub fn read_dsr(&self, status: Result<u32, u32>) -> (r: Result<bool, Error>)
        ensures
            status matches Err(code) ==> r == Err::<bool, Error>(Error::Io(code)),
            status matches Ok(s) ==> r == Ok::<bool, Error>(s & MS_DSR_ON != 0),
    {
        self.read_pin(status, MS_DSR_ON)
    }

    /// Ring Indicator, from the modem status word.
    pub fn read_ri(&self, status: Result<u32, u32>) -> (r: Result<bool, Error>)
        ensures
            status matches Err(code) ==> r == Err::<bool, Error>(Error::Io(code)),
            status matches Ok(s) ==> r == Ok::<bool, Error>(s & MS_RING_ON != 0),
    {
        self.read_pin(status, MS_RING_ON)
    }

    /// Carrier Detect, from the modem status word.
    pub fn read_cd(&self, status: Result<u32, u32>) -> (r: Result<bool, Error>)
        ensures
            status matches Err(code) ==> r == Err::<bool, Error>(Error::Io(code)),
            status matches Ok(s) ==> r == Ok::<bool, Error>(s & MS_RLSD_ON != 0),
    {
        self.read_pin(status, MS_RLSD_ON)
    }

    /// The outcome of querying the driver's properties.
    pub fn driver_properties(&self, reply: Result<CommProp, u32>) -> (r: Result<
        CommProp,
        Error,
    >)
        ensures
            r == lifted(reply),
    {
        lift(reply)
    }

    /// Bytes queued for sending, from the driver's properties.
    pub fn tx_buffer(&self, reply: Result<CommProp, u32>) -> (r: Result<u32, Error>)
        ensures
            reply matches Err(code) ==> r == Err::<u32, Error>(Error::Io(code)),
            reply matches Ok(p) ==> r == Ok::<u32, Error>(p.current_tx_queue),
    {
        match self.driver_properties(reply) {
            Err(e) => Err(e),
            Ok(x) => Ok(x.current_tx_queue),
        }
    }

    /// Bytes queued on receipt, from the driver's properties.
    pub fn rx_buffer(&self, reply: Result<CommProp, u32>) -> (r: Result<u32, Error>)
        ensures
            reply matches Err(code) ==> r == Err::<u32, Error>(Error::Io(code)),
            reply matches Ok(p) ==> r == Ok::<u32, Error>(p.current_rx_queue),
    {
        match self.driver_properties(reply) {
            Err(e) => Err(e),
            Ok(x) => Ok(x.current_rx_queue),
        }
    }

    /// The outcome of aborting pending reads.
    pub fn purge_rxabort(&self, reply: Result<(), u32>) -> (r: Result<(), Error>)
        ensures
            r == lifted(reply),
    {
        lift(reply)
    }

    /// The outcome of clearing the input buffer.
    pub fn purge_rxclear(&self, reply: Result<(), u32>) -> (r: Result<(), Error>)
        ensures
            r == lifted(reply),
    {
        lift(reply)
    }

    /// The outcome of aborting pending writes.
    pub fn purge_txabort(&self, reply: Result<(), u32>) -> (r: Result<(), Error>)
        ensures
            r == lifted(reply),
    {
        lift(reply)
    }

    /// The outcome of clearing the output buffer.
    pub fn purge_txclear(&self, reply: Result<(), u32>) -> (r: Result<(), Error>)
        ensures
            r == lifted(reply),
    {
        lift(reply)
    }

    /// Bytes received and not yet read, from the communication status.
    pub fn bytes_in(&self, reply: Result<ComStat, u32>) -> (r: Result<u64, Error>)
        ensures
            reply matches Err(code) ==> r == Err::<u64, Error>(Error::Io(code)),
            reply matches Ok(s) ==> r == Ok::<u64, Error>(s.cb_in_que as u64),
    {
        match reply {
            Err(code) => Err(crate::error::os_error(code)),
            Ok(s) => Ok(s.cb_in_que as u64),
        }
    }

    /// Bytes written and not yet sent, from the communication status.
    pub fn bytes_out(&self, reply: Result<ComStat, u32>) -> (r: Result<u64, Error>)
        ensures
            reply matches Err(code) ==> r == Err::<u64, Error>(Error::Io(code)),
            reply matches Ok(s) ==> r == Ok::<u64, Error>(s.cb_out_que as u64),
    {
        match reply {
            Err(code) => Err(crate::error::os_error(code)),
            Ok(s) => Ok(s.cb_out_que as u64),
        }
    }

    /// The settings read from the driver's control block.
    pub fn read_settings(&self, reply: Result<Dcb, u32>) -> (r: Result<COMSettings, Error>)
        ensures
            reply matches Err(code) ==> (r matches Err(e) && e == Error::Io(code)),
            reply matches Ok(d) ==> (r matches Ok(s) && s@ == d),
    {
        match reply {
            Err(code) => Err(crate::error::os_error(code)),
            Ok(d) => Ok(COMSettings::from_dcb(d)),
        }
    }

    /// The outcome of handing the driver a control block, unchecked: the
    /// driver alone refuses an invalid one.
    pub fn write_settings(&self, reply: Result<(), u32>) -> (r: Result<(), Error>)
        ensures
            r == lifted(reply),
    {
        lift(reply)
    }
}

} // verus!
