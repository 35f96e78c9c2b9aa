//! The serial device of an x86-64 machine.
//!
//! The device keeps what it has received until a reader takes it, and what
//! it has been asked to send until the caller, who alone can reach the
//! hardware, takes it to the wire.

use std::collections::VecDeque;
use vstd::prelude::*;
use crate::bytes::{append, take_all, CARRIAGE_RETURN, LINE_FEED};
use crate::io::Error;

verus! {

/// What is behind a serial device.
#[derive(PartialEq, Eq, Structural, Clone, Copy, Debug)]
pub enum SerialInner {
    /// A 16550 UART.
    Uart,
    /// The console of the uhyve hypervisor.
    Uhyve,
    /// A virtio console.
    Virtio,
}

/// The byte that is kept for a byte that arrived: a carriage return is kept
/// as a line feed.
pub open spec fn received_as(c: u8) -> u8 {
    if c == CARRIAGE_RETURN {
        LINE_FEED
    } else {
        c
    }
}

/// A serial device: what is behind it, what it has received and what it is
/// to send.
pub struct SerialDevice {
    inner: SerialInner,
    buffer: VecDeque<u8>,
    output: Vec<u8>,
}

impl SerialDevice {
    /// What is behind the device.
    pub closed spec fn inner(&self) -> SerialInner {
        self.inner
    }

    /// The bytes that have arrived and have not been read, oldest first.
    pub closed spec fn received(&self) -> Seq<u8> {
        self.buffer@
    }

    /// The bytes that are to go out and have not been taken, oldest first.
    pub closed spec fn output(&self) -> Seq<u8> {
        self.output@
    }

    /// A device on the console of the hypervisor if `uhyve` is set, on the
    /// UART otherwise, with nothing received and nothing to send.
    pub fn new(uhyve: bool) -> (device: Self)
        ensures
            device.inner() == (if uhyve {
                SerialInner::Uhyve
            } else {
                SerialInner::Uart
            }),
            device.received() == Seq::<u8>::empty(),
            device.output() == Seq::<u8>::empty(),
    {
        SerialDevice {
            inner: if uhyve {
                SerialInner::Uhyve
            } else {
                SerialInner::Uart
            },
            buffer: VecDeque::new(),
            output: Vec::new(),
        }
    }

    /// Keeps the byte `c` that the UART has received, a carriage return as a
    /// line feed, and says whether a waiting reader is to be woken.
    ///
    /// A device that is not on a UART receives nothing.
    pub fn buffer_input(&mut self, c: u8) -> (wake: bool)
        ensures
            final(self).inner() == old(self).inner(),
            final(self).output() == old(self).output(),
            wake == (old(self).inner() == SerialInner::Uart),
            final(self).received() == (if wake {
                old(self).received().push(received_as(c))
            } else {
                old(self).received()
            }),
    {
        match self.inner {
            SerialInner::Uart => {
                if c == CARRIAGE_RETURN {
                    self.buffer.push_back(LINE_FEED);
                } else {
                    self.buffer.push_back(c);
                }
                true
            },
            _ => false,
        }
    }

    /// Takes the oldest byte that has arrived, if there is one.
    pub fn read_byte(&mut self) -> (byte: Option<u8>)
        ensures
            final(self).inner() == old(self).inner(),
            final(self).output() == old(self).output(),
            byte == (if old(self).received().len() > 0 {
                Some(old(self).received()[0])
            } else {
                None
            }),
            final(self).received() == (if old(self).received().len() > 0 {
                old(self).received().skip(1)
            } else {
                old(self).received()
            }),
    {
        let byte = self.buffer.pop_front();
        assert(self.buffer@ =~= (if old(self).buffer@.len() > 0 {
            old(self).buffer@.skip(1)
        } else {
            old(self).buffer@
        }));
        byte
    }

    /// Moves the oldest bytes that have arrived to the front of `buf`, as
    /// many as there are or as `buf` takes, and returns their number.
    pub fn read(&mut self, buf: &mut [u8]) -> (count: Result<usize, Error>)
        ensures
            final(self).inner() == old(self).inner(),
            final(self).output() == old(self).output(),
            count matches Ok(n) && n == vstd::math::min(
                old(buf)@.len() as int,
                old(self).received().len() as int,
            ),
            final(buf)@ == old(self).received().take(count->Ok_0 as int) + old(buf)@.skip(
                count->Ok_0 as int),
            final(self).received() == old(self).received().skip(count->Ok_0 as int),
    {
        let mut n: usize = 0;
        while n < buf.len() && self.buffer.len() > 0
            invariant
                self.inner == old(self).inner,
                self.output@ == old(self).output@,
                buf@.len() == old(buf)@.len(),
                n <= buf@.len(),
                n <= old(self).buffer@.len(),
                self.buffer@ == old(self).buffer@.skip(n as int),
                buf@ == old(self).buffer@.take(n as int) + old(buf)@.skip(n as int),
            decreases buf@.len() - n,
        {
            let ghost before = buf@;
            let byte = self.buffer.pop_front();
            buf[n] = byte.unwrap();
            n += 1;
            assert(self.buffer@ =~= old(self).buffer@.skip(n as int));
            assert(buf@ =~= old(self).buffer@.take(n as int) + old(buf)@.skip(n as int));
        }
        Ok(n)
    }

    /// Whether nothing has arrived that has not been read.
    pub fn is_empty(&self) -> (empty: bool)
        ensures
            empty == (self.received().len() == 0),
    {
        self.buffer.len() == 0
    }

    /// Whether something has arrived that can be read.
    pub fn read_ready(&self) -> (ready: bool)
        ensures
            ready == (self.received().len() > 0),
    {
        self.buffer.len() > 0
    }

    /// Whether something has arrived that can be read.
    pub fn can_read(&self) -> (ready: bool)
        ensures
            ready == (self.received().len() > 0),
    {
        self.read_ready()
    }

    /// Queues `buf` to go out through whatever is behind the device.
    pub fn send(&mut self, buf: &[u8])
        ensures
            final(self).inner() == old(self).inner(),
            final(self).received() == old(self).received(),
            final(self).output() == old(self).output() + buf@,
    {
        append(&mut self.output, buf);
    }

    /// Queues all of `buf` to go out and returns its length.
    pub fn write(&mut self, buf: &[u8]) -> (count: Result<usize, Error>)
        ensures
            final(self).inner() == old(self).inner(),
            final(self).received() == old(self).received(),
            final(self).output() == old(self).output() + buf@,
            count == Ok::<usize, Error>(buf@.len() as usize),
    {
        self.send(buf);
        Ok(buf.len())
    }

    /// Has nothing to do: what was written is queued already.
    pub fn flush(&mut self) -> (done: Result<(), Error>)
        ensures
            *final(self) == *old(self),
            done is Ok,
    {
        Ok(())
    }

    /// From now on the device sends through the virtio console.
    pub fn switch_to_virtio_console(&mut self)
        ensures
            final(self).inner() == SerialInner::Virtio,
            final(self).received() == old(self).received(),
            final(self).output() == old(self).output(),
    {
        self.inner = SerialInner::Virtio;
    }

    /// What is behind the device.
    pub fn kind(&self) -> (inner: SerialInner)
        ensures
            inner == self.inner(),
    {
        self.inner
    }

    /// Takes the bytes that are to go out, leaving none.
    pub fn take_output(&mut self) -> (bytes: Vec<u8>)
        ensures
            final(self).inner() == old(self).inner(),
            final(self).received() == old(self).received(),
            bytes@ == old(self).output(),
            final(self).output() == Seq::<u8>::empty(),
    {
        take_all(&mut self.output)
    }
}

} // verus!
