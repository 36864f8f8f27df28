use vstd::prelude::*;

mod errors;
mod ports;
mod serial;

pub use errors::SerialError;
pub use ports::filter_port_names;
pub use ports::accepted_names;
pub use ports::included_class;
pub use ports::DeviceDescriptor;
pub use ports::PortClass;
pub use serial::framed_bytes;
pub use serial::lossy_decode;
pub use serial::ConnView;
pub use serial::IoEvent;
pub use serial::SerialConnection;
pub use serial::READ_BUFFER_BYTES;

verus! {

/// Bit rate at which every connection is opened.
pub const BAUD_RATE: u32 = 115200;

/// Read/write timeout, in seconds, applied to every connection.
pub const TIMEOUT_SECS: u64 = 1;

/// The state after a successful connect: a fresh connection to the named
/// device replaces whatever the slot held before, and its log is empty.
pub open spec fn spec_connect(state: Option<ConnView>, device: Seq<char>) -> Option<ConnView> {
    Some(ConnView { device, log: Seq::empty() })
}

/// The state after a disconnect: the slot is empty, whatever it held before.
pub open spec fn spec_disconnect(state: Option<ConnView>) -> Option<ConnView> {
    None
}

/// The connection after a fully successful send of the given command: the
/// framed bytes were written as one write, then the device was flushed.
pub open spec fn spec_send(conn: ConnView, command: Seq<char>) -> ConnView {
    ConnView {
        device: conn.device,
        log: conn.log + seq![IoEvent::Write(framed_bytes(command)), IoEvent::Flush],
    }
}

/// The application's single connection slot: it holds zero or one open
/// connections, and every operation against it runs to completion before
/// the next one starts.  Its view is `None` while disconnected, and the
/// view of the one open connection while connected.
pub struct AppState {
    serial: Option<SerialConnection>,
}

impl View for AppState {
    type V = Option<ConnView>;

    closed spec fn view(&self) -> Option<ConnView> {
        match self.serial {
            Some(conn) => Some(conn@),
            None => None,
        }
    }
}

impl AppState {
    /// A fresh slot, holding no connection.
    pub fn new() -> (r: AppState)
        ensures
            r@ is None,
    {
        AppState { serial: None }
    }

    /// Whether the slot currently holds an open connection.
    pub fn is_connected(&self) -> (r: bool)
        ensures
            r == (self@ is Some),
    {
        self.serial.is_some()
    }

    /// The identifier of the connected device, if any.
    pub fn connected_device(&self) -> (r: Option<&String>)
        ensures
            (r is Some) == (self@ is Some),
            r is Some ==> r->0@ == self@->0.device,
    {
        match &self.serial {
            Some(conn) => Some(conn.device_name()),
            None => None,
        }
    }

    /// Opens the named device at the fixed configuration and stores the
    /// fresh connection in the slot, replacing and thereby releasing any
    /// prior one.  A failed open surfaces as `Open` and leaves the prior
    /// state untouched.
    pub fn connect_port(&mut self, port_name: &str) -> (r: Result<(), SerialError>)
        ensures
            r is Ok ==> final(self)@ == spec_connect(old(self)@, port_name@),
            r is Err ==> final(self)@ == old(self)@ && r->Err_0 is Open,
    {
        match SerialConnection::new(port_name) {
            Ok(conn) => {
                self.serial = Some(conn);
                Ok(())
            },
            Err(e) => Err(e),
        }
    }

    /// Empties the slot, releasing the connection if one was open.  Always
    /// succeeds; disconnecting while already disconnected is a no-op.
    pub fn disconnect_port(&mut self)
        ensures
            final(self)@ == spec_disconnect(old(self)@),
            final(self)@ is None,
    {
        self.serial = None;
    }

    /// Sends one newline-terminated command over the open connection.
    /// While disconnected this fails with `NotConnected` and performs no
    /// I/O; while connected the connection stays open on the same device,
    /// and the log records exactly the operations that succeeded.
    pub fn send_command(&mut self, command: &str) -> (r: Result<(), SerialError>)
        ensures
            old(self)@ is None ==> r is Err && r->Err_0 is NotConnected && final(self)@ == old(
                self,
            )@,
            old(self)@ is Some ==> final(self)@ is Some && final(self)@->0.device == old(
                self,
            )@->0.device,
            old(self)@ is Some && r is Ok ==> final(self)@->0 == spec_send(
                old(self)@->0,
                command@,
            ),
            old(self)@ is Some && r is Err ==> (r->Err_0 is Write && final(self)@->0.log == old(
                self,
            )@->0.log) || (r->Err_0 is Flush && final(self)@->0.log == old(self)@->0.log.push(
                IoEvent::Write(framed_bytes(command@)),
            )),
    {
        match &mut self.serial {
            Some(conn) => conn.send_command(command),
            None => Err(SerialError::NotConnected),
        }
    }
}

/// Disconnect is idempotent: a second disconnect succeeds as well, changes
/// nothing further, and the state stays `Disconnected`.
pub proof fn lemma_disconnect_idempotent(state: Option<ConnView>)
    ensures
        spec_disconnect(spec_disconnect(state)) == spec_disconnect(state),
        spec_disconnect(state) is None,
{
}

/// Connect replaces connect: connecting to device `b` while already
/// connected to device `a` ends connected to `b` exactly as if the slot had
/// been empty; the slot holds one connection, so the one for `a` is no
/// longer held.
pub proof fn lemma_connect_replaces_connect(
    state: Option<ConnView>,
    a: Seq<char>,
    b: Seq<char>,
)
    ensures
        spec_connect(spec_connect(state, a), b) == spec_connect(state, b),
        spec_connect(spec_connect(state, a), b) is Some,
        spec_connect(spec_connect(state, a), b)->0.device == b,
{
}

} // verus!
