use vstd::prelude::*;

use crate::errors::SerialError;
use crate::BAUD_RATE;
use crate::TIMEOUT_SECS;

verus! {

use vstd::string::StrSliceExecFns;
use vstd::utf8::decode_utf8;
use vstd::utf8::encode_utf8;
use vstd::utf8::valid_utf8;

/// Size, in bytes, of the buffer a single response read is bounded by.
pub const READ_BUFFER_BYTES: usize = 1024;

/// Declares serialport's native port handle so that it can stand in fields
/// and signatures; the open device behind it is opaque to the verifier.
#[verifier::external_type_specification]
#[verifier::external_body]
pub struct ExTTYPort(serialport::TTYPort);

/// One completed operation against an open device, as recorded in a
/// connection's log.
pub enum IoEvent {
    /// One successful write call, with exactly the bytes handed to the device.
    Write(Seq<u8>),
    /// One successful flush of the device's pending output.
    Flush,
}

/// The mathematical state of one open connection: the identifier of the
/// device it was opened on, and the log of completed writes and flushes.
pub struct ConnView {
    pub device: Seq<char>,
    pub log: Seq<IoEvent>,
}

/// The exact bytes a command is framed into before writing: its UTF-8
/// encoding followed by a single trailing newline.
pub open spec fn framed_bytes(command: Seq<char>) -> Seq<u8> {
    encode_utf8(command).push(10u8)
}

/// What `String::from_utf8_lossy` returns for the given bytes; the result
/// depends on the bytes alone.
pub uninterp spec fn lossy_decode(bytes: Seq<u8>) -> Seq<char>;

/// Relies on serialport's `SerialPortBuilder::open_native`: opens the named
/// device at the given bit rate and read/write timeout with default framing
/// (8 data bits, no parity, one stop bit), returning the handle or the
/// device error's message.
#[verifier::external_body]
fn open_device(port_name: &str, baud_rate: u32, timeout_secs: u64) -> (r: Result<
    serialport::TTYPort,
    String,
>) {
    serialport::new(port_name, baud_rate)
        .timeout(std::time::Duration::from_secs(timeout_secs))
        .open_native()
        .map_err(|e| format!("{}", e))
}

/// Relies on `std::io::Write::write_all` for serialport's native port: on
/// success the whole buffer was handed to the device; on failure the error's
/// message comes back and how much was written is unknown.
#[verifier::external_body]
fn write_all_device(port: &mut serialport::TTYPort, data: &Vec<u8>) -> (r: Result<(), String>) {
    std::io::Write::write_all(port, data.as_slice()).map_err(|e| format!("{}", e))
}

/// Relies on `std::io::Write::flush` for serialport's native port: blocks
/// until all written output has reached the device, or returns the error's
/// message.
#[verifier::external_body]
fn flush_device(port: &mut serialport::TTYPort) -> (r: Result<(), String>) {
    std::io::Write::flush(port).map_err(|e| format!("{}", e))
}

/// Relies on `std::io::Read::read` for serialport's native port: reads at
/// most `buf.len()` bytes into the front of `buf`, returning how many.  What
/// arrives depends on the device, so nothing is promised of the contents.
#[verifier::external_body]
fn read_device(port: &mut serialport::TTYPort, buf: &mut Vec<u8>) -> (r: Result<usize, String>)
    ensures
        final(buf)@.len() == old(buf)@.len(),
        r is Ok ==> r->Ok_0 <= final(buf)@.len(),
{
    std::io::Read::read(port, buf.as_mut_slice()).map_err(|e| format!("{}", e))
}

/// Relies on `String::from_utf8_lossy`: decodes the bytes as UTF-8,
/// replacing invalid sequences rather than failing; valid UTF-8 decodes
/// without replacement.
#[verifier::external_body]
fn decode_lossy(bytes: &Vec<u8>) -> (r: String)
    ensures
        r@ == lossy_decode(bytes@),
        valid_utf8(bytes@) ==> r@ == decode_utf8(bytes@),
{
    String::from_utf8_lossy(bytes.as_slice()).into_owned()
}

/// One open serial connection: the native handle, the identifier of the
/// device it was opened on, and the log of completed writes and flushes.
pub struct SerialConnection {
    port: serialport::TTYPort,
    device: String,
    log: Ghost<Seq<IoEvent>>,
}

impl View for SerialConnection {
    type V = ConnView;

    closed spec fn view(&self) -> ConnView {
        ConnView { device: self.device@, log: self.log@ }
    }
}

impl SerialConnection {
    /// Opens the named device at the fixed configuration.  A fresh
    /// connection remembers the identifier it was opened on and starts with
    /// an empty log; on failure the device error comes back as `Open`.
    pub fn new(port_name: &str) -> (r: Result<SerialConnection, SerialError>)
        ensures
            r is Ok ==> r->Ok_0@.device == port_name@,
            r is Ok ==> r->Ok_0@.log == Seq::<IoEvent>::empty(),
            r is Err ==> r->Err_0 is Open,
    {
        match open_device(port_name, BAUD_RATE, TIMEOUT_SECS) {
            Ok(port) => Ok(
                SerialConnection {
                    port,
                    device: port_name.to_owned(),
                    log: Ghost(Seq::empty()),
                },
            ),
            Err(m) => Err(SerialError::Open(m)),
        }
    }

    /// The identifier of the device this connection was opened on.
    pub fn device_name(&self) -> (r: &String)
        ensures
            r@ == self@.device,
    {
        &self.device
    }

    /// Appends a single trailing newline to the command, writes the framed
    /// bytes to the device as one write, then flushes.  The log records
    /// exactly the operations that succeeded, and the connection survives a
    /// failed send.
    pub fn send_command(&mut self, command: &str) -> (r: Result<(), SerialError>)
        ensures
            final(self)@.device == old(self)@.device,
            r is Ok ==> final(self)@.log == old(self)@.log + seq![
                IoEvent::Write(framed_bytes(command@)),
                IoEvent::Flush,
            ],
            r is Err ==> (r->Err_0 is Write || r->Err_0 is Flush),
            r is Err && r->Err_0 is Write ==> final(self)@.log == old(self)@.log,
            r is Err && r->Err_0 is Flush ==> final(self)@.log == old(self)@.log.push(
                IoEvent::Write(framed_bytes(command@)),
            ),
    {
        let mut data = command.as_bytes_vec();
        data.push(10u8);
        match write_all_device(&mut self.port, &data) {
            Err(m) => Err(SerialError::Write(m)),
            Ok(()) => {
                self.log = Ghost(self.log@.push(IoEvent::Write(data@)));
                match flush_device(&mut self.port) {
                    Err(m) => Err(SerialError::Flush(m)),
                    Ok(()) => {
                        self.log = Ghost(self.log@.push(IoEvent::Flush));
                        proof {
                            assert(old(self)@.log + seq![
                                IoEvent::Write(framed_bytes(command@)),
                                IoEvent::Flush,
                            ] =~= old(self)@.log.push(IoEvent::Write(framed_bytes(command@))).push(
                                IoEvent::Flush,
                            ));
                        }
                        Ok(())
                    },
                }
            },
        }
    }

    /// Performs one bounded-size read from the device and decodes it as
    /// UTF-8, replacing invalid byte sequences rather than failing.  What
    /// arrives depends on the device; reads are not recorded in the log.
    pub fn read_response(&mut self) -> (r: Result<String, SerialError>)
        ensures
            final(self)@ == old(self)@,
            r is Ok ==> exists |bytes: Seq<u8>|
                bytes.len() <= READ_BUFFER_BYTES && r->Ok_0@ == lossy_decode(bytes),
            r is Err ==> r->Err_0 is Read,
    {
        let mut buf: Vec<u8> = vec![0u8; READ_BUFFER_BYTES];
        match read_device(&mut self.port, &mut buf) {
            Ok(n) => {
                buf.truncate(n);
                let text = decode_lossy(&buf);
                proof {
                    assert(buf@.len() <= READ_BUFFER_BYTES && text@ == lossy_decode(buf@));
                }
                Ok(text)
            },
            Err(m) => Err(SerialError::Read(m)),
        }
    }
}

} // verus!
