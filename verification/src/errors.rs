use vstd::prelude::*;

verus! {

/// Everything that can go wrong while listing, opening or talking to a
/// serial device.  Each I/O variant carries the message of the underlying
/// device error; none of them is ever retried by this library.
#[derive(Debug)]
pub enum SerialError {
    /// The host-level enumeration of serial devices failed.
    Enumeration(String),
    /// The named device could not be opened at the fixed configuration.
    Open(String),
    /// A command was sent while no connection was open.
    NotConnected,
    /// Writing the framed command to the open device failed.
    Write(String),
    /// Flushing the open device after a successful write failed.
    Flush(String),
    /// Reading a response from the open device failed.
    Read(String),
}

} // verus!
