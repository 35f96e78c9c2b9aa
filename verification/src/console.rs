//! The console.
//!
//! What is written to the console is gathered in a small buffer and handed
//! to the device behind it a line at a time: when a line ends, or when the
//! buffer cannot take what is written. The buffer is a `heapless::Vec`, which
//! the verifier knows through [`line_bytes`] and the functions that state
//! what its methods do.

use vstd::prelude::*;
use crate::bytes::{append, contains_line_feed, take_all, LINE_FEED};
use crate::io::Error;
use crate::serial_device::SerialDevice;

verus! {

/// How many bytes the console gathers before it must hand them on.
pub const SERIAL_BUFFER_SIZE: usize = 256;

/// `heapless::Vec`, a vector of at most `N` elements that lives where it is
/// declared. Opaque to the verifier.
#[verifier::external_type_specification]
#[verifier::external_body]
#[verifier::reject_recursive_types(T)]
pub struct ExHeaplessVec<T, const N: usize>(heapless::Vec<T, N>);

/// The bytes that a line buffer holds, oldest first.
pub uninterp spec fn line_bytes(buffer: heapless::Vec<u8, SERIAL_BUFFER_SIZE>) -> Seq<u8>;

/// `heapless::Vec::new`: an empty buffer.
#[verifier::external_body]
fn line_new() -> (buffer: heapless::Vec<u8, SERIAL_BUFFER_SIZE>)
    ensures
        line_bytes(buffer) == Seq::<u8>::empty(),
{
    heapless::Vec::new()
}

/// `<[u8]>::len`, on the buffer as a slice: the number of bytes it holds.
#[verifier::external_body]
fn line_len(buffer: &heapless::Vec<u8, SERIAL_BUFFER_SIZE>) -> (len: usize)
    ensures
        len == line_bytes(*buffer).len(),
{
    buffer.len()
}

/// `heapless::Vec::is_empty`: whether the buffer holds no byte.
#[verifier::external_body]
fn line_is_empty(buffer: &heapless::Vec<u8, SERIAL_BUFFER_SIZE>) -> (empty: bool)
    ensures
        empty == (line_bytes(*buffer).len() == 0),
{
    buffer.is_empty()
}

/// `heapless::Vec::as_slice`: the bytes of the buffer.
#[verifier::external_body]
fn line_as_slice(buffer: &heapless::Vec<u8, SERIAL_BUFFER_SIZE>) -> (bytes: &[u8])
    ensures
        bytes@ == line_bytes(*buffer),
{
    buffer.as_slice()
}

/// `heapless::Vec::clear`: afterwards the buffer is empty.
#[verifier::external_body]
fn line_clear(buffer: &mut heapless::Vec<u8, SERIAL_BUFFER_SIZE>)
    ensures
        line_bytes(*final(buffer)) == Seq::<u8>::empty(),
{
    buffer.clear()
}

/// `heapless::Vec::extend_from_slice`: when the buffer can take `other`
/// without holding more than `SERIAL_BUFFER_SIZE` bytes, `other` is appended;
/// when it cannot, the buffer is left as it was. The result says which.
#[verifier::external_body]
fn line_extend_from_slice(buffer: &mut heapless::Vec<u8, SERIAL_BUFFER_SIZE>, other: &[u8]) -> (fits:
    bool)
    ensures
        fits == (line_bytes(*old(buffer)).len() + other@.len() <= SERIAL_BUFFER_SIZE),
        line_bytes(*final(buffer)) == (if fits {
            line_bytes(*old(buffer)) + other@
        } else {
            line_bytes(*old(buffer))
        }),
{
    buffer.extend_from_slice(other).is_ok()
}

/// The console of the uhyve hypervisor, which takes whole byte strings.
pub struct UhyveSerial {
    output: Vec<u8>,
}

impl UhyveSerial {
    /// The bytes that are to go to the hypervisor and have not been taken,
    /// oldest first.
    pub closed spec fn output(&self) -> Seq<u8> {
        self.output@
    }

    /// A console with nothing to send.
    pub fn new() -> (serial: Self)
        ensures
            serial.output() == Seq::<u8>::empty(),
    {
        UhyveSerial { output: Vec::new() }
    }

    /// Queues `buf` to go to the hypervisor.
    pub fn write(&mut self, buf: &[u8])
        ensures
            final(self).output() == old(self).output() + buf@,
    {
        append(&mut self.output, buf);
    }

    /// Reads nothing: the hypervisor has no input for the console.
    pub fn read(&self, _buf: &mut [u8]) -> (count: Result<usize, Error>)
        ensures
            count == Ok::<usize, Error>(0),
            final(_buf)@ == old(_buf)@,
    {
        Ok(0)
    }

    /// Never: the hypervisor has no input for the console.
    pub fn can_read(&self) -> (ready: bool)
        ensures
            !ready,
    {
        false
    }

    /// Never: the hypervisor has no input for the console.
    pub fn read_ready(&self) -> (ready: bool)
        ensures
            !ready,
    {
        false
    }

    /// Takes the bytes that are to go to the hypervisor, leaving none.
    pub fn take_output(&mut self) -> (bytes: Vec<u8>)
        ensures
            bytes@ == old(self).output(),
            final(self).output() == Seq::<u8>::empty(),
    {
        take_all(&mut self.output)
    }
}

/// The device behind the console.
pub enum IoDevice {
    Uhyve(UhyveSerial),
    Uart(SerialDevice),
}

impl IoDevice {
    /// The bytes that are to go out through the device and have not been
    /// taken, oldest first.
    pub open spec fn output(&self) -> Seq<u8> {
        match self {
            IoDevice::Uhyve(s) => s.output(),
            IoDevice::Uart(s) => s.output(),
        }
    }

    /// The bytes that have arrived at the device and have not been read,
    /// oldest first.
    pub open spec fn received(&self) -> Seq<u8> {
        match self {
            IoDevice::Uhyve(s) => Seq::empty(),
            IoDevice::Uart(s) => s.received(),
        }
    }

    /// Whether two states are of the same kind of device.
    pub open spec fn same_kind(&self, other: &IoDevice) -> bool {
        match (self, other) {
            (IoDevice::Uhyve(_), IoDevice::Uhyve(_)) => true,
            (IoDevice::Uart(a), IoDevice::Uart(b)) => a.inner() == b.inner(),
            _ => false,
        }
    }

    /// Queues `buf` to go out through the device.
    pub fn write(&mut self, buf: &[u8])
        ensures
            final(self).same_kind(old(self)),
            final(self).received() == old(self).received(),
            final(self).output() == old(self).output() + buf@,
    {
        match self {
            IoDevice::Uhyve(s) => {
                s.write(buf);
            },
            IoDevice::Uart(s) => {
                s.send(buf);
            },
        }
    }

    /// Moves the oldest bytes that have arrived to the front of `buf`, as
    /// many as there are or as `buf` takes, and returns their number.
    pub fn read(&mut self, buf: &mut [u8]) -> (count: Result<usize, Error>)
        ensures
            final(self).same_kind(old(self)),
            final(self).output() == old(self).output(),
            count matches Ok(n) && n == vstd::math::min(
                old(buf)@.len() as int,
                old(self).received().len() as int,
            ),
            final(buf)@ == old(self).received().take(count->Ok_0 as int) + old(buf)@.skip(count->Ok_0 as int),
            final(self).received() == old(self).received().skip(count->Ok_0 as int),
    {
        match self {
            IoDevice::Uhyve(s) => {
                let count = s.read(buf);
                assert(buf@ =~= old(self).received().take(0) + old(buf)@.skip(0));
                assert(self.received() =~= old(self).received().skip(0));
                count
            },
            IoDevice::Uart(s) => s.read(buf),
        }
    }

    /// Whether something has arrived that can be read.
    pub fn can_read(&self) -> (ready: bool)
        ensures
            ready == (self.received().len() > 0),
    {
        match self {
            IoDevice::Uhyve(s) => s.can_read(),
            IoDevice::Uart(s) => s.can_read(),
        }
    }

    /// Whether something has arrived that can be read.
    pub fn read_ready(&self) -> (ready: bool)
        ensures
            ready == (self.received().len() > 0),
    {
        match self {
            IoDevice::Uhyve(s) => s.read_ready(),
            IoDevice::Uart(s) => s.read_ready(),
        }
    }

    /// Takes the bytes that are to go out through the device, leaving none.
    pub fn take_output(&mut self) -> (bytes: Vec<u8>)
        ensures
            final(self).same_kind(old(self)),
            final(self).received() == old(self).received(),
            bytes@ == old(self).output(),
            final(self).output() == Seq::<u8>::empty(),
    {
        match self {
            IoDevice::Uhyve(s) => s.take_output(),
            IoDevice::Uart(s) => s.take_output(),
        }
    }
}

/// What a write of `buf` to a console that has gathered `gathered` hands to
/// the device.
pub open spec fn handed_on(gathered: Seq<u8>, buf: Seq<u8>) -> Seq<u8> {
    if SERIAL_BUFFER_SIZE - gathered.len() >= buf.len() {
        if buf.contains(LINE_FEED) {
            gathered + buf
        } else {
            Seq::empty()
        }
    } else if buf.len() >= SERIAL_BUFFER_SIZE || buf.contains(LINE_FEED) {
        gathered + buf
    } else {
        gathered
    }
}

/// What a console that has gathered `gathered` holds after a write of `buf`.
pub open spec fn kept_back(gathered: Seq<u8>, buf: Seq<u8>) -> Seq<u8> {
    if SERIAL_BUFFER_SIZE - gathered.len() >= buf.len() {
        if buf.contains(LINE_FEED) {
            Seq::empty()
        } else {
            gathered + buf
        }
    } else if buf.len() >= SERIAL_BUFFER_SIZE || buf.contains(LINE_FEED) {
        Seq::empty()
    } else {
        buf
    }
}

/// A write loses nothing and changes no order: what is handed on followed
/// by what is kept back is what was gathered followed by what was written.
/// What is kept back fits the buffer and holds no line feed if what was
/// gathered held none.
pub proof fn lemma_write_keeps_stream(gathered: Seq<u8>, buf: Seq<u8>)
    requires
        gathered.len() <= SERIAL_BUFFER_SIZE,
    ensures
        handed_on(gathered, buf) + kept_back(gathered, buf) == gathered + buf,
        kept_back(gathered, buf).len() <= SERIAL_BUFFER_SIZE,
        !gathered.contains(LINE_FEED) ==> !kept_back(gathered, buf).contains(LINE_FEED),
{
    assert(handed_on(gathered, buf) + kept_back(gathered, buf) =~= gathered + buf);
    if !gathered.contains(LINE_FEED) && !buf.contains(LINE_FEED) {
        let both = gathered + buf;
        assert forall|i: int| 0 <= i < both.len() implies both[i] != LINE_FEED by {
            if i < gathered.len() {
                assert(gathered[i] == both[i]);
            } else {
                assert(buf[i - gathered.len()] == both[i]);
            }
        }
    }
}

/// A device and the bytes gathered for it.
pub struct Console {
    device: IoDevice,
    buffer: heapless::Vec<u8, SERIAL_BUFFER_SIZE>,
}

impl Console {
    /// The device behind the console.
    pub closed spec fn device(&self) -> IoDevice {
        self.device
    }

    /// The bytes that the console has gathered and not yet handed on.
    pub closed spec fn gathered(&self) -> Seq<u8> {
        line_bytes(self.buffer)
    }

    /// What has been gathered fits the buffer.
    pub closed spec fn wf(&self) -> bool {
        line_bytes(self.buffer).len() <= SERIAL_BUFFER_SIZE
    }

    /// A console on `device` that has gathered nothing.
    pub fn new(device: IoDevice) -> (console: Self)
        ensures
            console.wf(),
            console.device() == device,
            console.gathered() == Seq::<u8>::empty(),
    {
        Console { device, buffer: line_new() }
    }

    /// Writes a buffer to the console.
    ///
    /// The content is gathered until a line ends or the console cannot take
    /// more. To hand on early what has been gathered, use
    /// [`flush`](Self::flush).
    pub fn write(&mut self, buf: &[u8])
        requires
            old(self).wf(),
        ensures
            final(self).wf(),
            final(self).device().same_kind(&old(self).device()),
            final(self).device().received() == old(self).device().received(),
            final(self).device().output() == old(self).device().output() + handed_on(
                old(self).gathered(),
                buf@,
            ),
            final(self).gathered() == kept_back(old(self).gathered(), buf@),
    {
        if SERIAL_BUFFER_SIZE - line_len(&self.buffer) >= buf.len() {
            line_extend_from_slice(&mut self.buffer, buf);
            if contains_line_feed(buf) {
                self.flush();
                assert(self.device.output() =~= old(self).device.output() + (old(self).gathered()
                    + buf@));
            } else {
                assert(self.device.output() =~= old(self).device.output() + Seq::<u8>::empty());
            }
        } else {
            self.device.write(line_as_slice(&self.buffer));
            line_clear(&mut self.buffer);
            if buf.len() >= SERIAL_BUFFER_SIZE {
                self.device.write(buf);
                assert(self.device.output() =~= old(self).device.output() + (old(self).gathered()
                    + buf@));
            } else {
                line_extend_from_slice(&mut self.buffer, buf);
                assert(self.gathered() =~= buf@);
                if contains_line_feed(buf) {
                    self.flush();
                    assert(self.device.output() =~= old(self).device.output() + (old(self).gathered() + buf@));
                }
            }
        }
    }

    /// Hands on at once everything that has been gathered.
    pub fn flush(&mut self)
        requires
            old(self).wf(),
        ensures
            final(self).wf(),
            final(self).device().same_kind(&old(self).device()),
            final(self).device().received() == old(self).device().received(),
            final(self).device().output() == old(self).device().output() + old(self).gathered(),
            final(self).gathered() == Seq::<u8>::empty(),
    {
        if !line_is_empty(&self.buffer) {
            self.device.write(line_as_slice(&self.buffer));
            line_clear(&mut self.buffer);
        } else {
            assert(self.gathered() =~= Seq::<u8>::empty());
            assert(self.device.output() =~= old(self).device.output() + old(self).gathered());
        }
    }

    /// Moves the oldest bytes that have arrived at the device to the front
    /// of `buf`, as many as there are or as `buf` takes, and returns their
    /// number.
    pub fn read(&mut self, buf: &mut [u8]) -> (count: Result<usize, Error>)
        requires
            old(self).wf(),
        ensures
            final(self).wf(),
            final(self).gathered() == old(self).gathered(),
            final(self).device().same_kind(&old(self).device()),
            final(self).device().output() == old(self).device().output(),
            count matches Ok(n) && n == vstd::math::min(
                old(buf)@.len() as int,
                old(self).device().received().len() as int,
            ),
            final(buf)@ == old(self).device().received().take(count->Ok_0 as int) + old(buf)@.skip(count->Ok_0 as int),
            final(self).device().received() == old(self).device().received().skip(count->Ok_0 as int),
    {
        self.device.read(buf)
    }

    /// Whether something has arrived at the device that can be read.
    pub fn can_read(&self) -> (ready: bool)
        ensures
            ready == (self.device().received().len() > 0),
    {
        self.device.can_read()
    }

    /// Puts `device` behind the console. What has been gathered stays.
    pub fn replace_device(&mut self, device: IoDevice)
        ensures
            final(self).device() == device,
            final(self).gathered() == old(self).gathered(),
            final(self).wf() == old(self).wf(),
    {
        self.device = device;
    }

    /// Takes the bytes that have been handed to the device and are to go
    /// out, leaving none.
    pub fn take_output(&mut self) -> (bytes: Vec<u8>)
        ensures
            final(self).wf() == old(self).wf(),
            final(self).gathered() == old(self).gathered(),
            final(self).device().same_kind(&old(self).device()),
            final(self).device().received() == old(self).device().received(),
            bytes@ == old(self).device().output(),
            final(self).device().output() == Seq::<u8>::empty(),
    {
        self.device.take_output()
    }
}

} // verus!
