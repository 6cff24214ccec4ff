//! A COM serial port: its line configuration block, and the decisions taken
//! around each driver call (opening, timeouts, transfers, status queries).
//!
//! The driver calls themselves are made by the caller, who hands each call's
//! outcome to the matching function here: `Ok` with what the driver wrote, or
//! `Err` with the platform error code that the call left behind.

pub mod error;
pub mod port;
pub mod settings;

pub use error::{lift, os_error, Error};
pub use port::{
    CommProp, CommTimeouts, ComStat, COMPort, OpenRequest, PortView, Timeout, CLRDTR, CLRRTS,
    DEFAULT_TIMEOUT_MS, INVALID_HANDLE_VALUE, MS_CTS_ON, MS_DSR_ON, MS_RING_ON, MS_RLSD_ON,
    PURGE_RXABORT, PURGE_RXCLEAR, PURGE_TXABORT, PURGE_TXCLEAR, SETDTR, SETRTS,
};
pub use settings::{
    BaudRate, CharSize, COMSettings, Dcb, FlowControl, Parity, StopBits,
};
