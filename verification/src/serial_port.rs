//! The serial port of an AArch64 machine.
//!
//! A real serial port wants every line feed preceded by a carriage return.
//! The port works out what has to go over the wire and keeps it until the
//! caller, who alone can reach the hardware, takes it there.

use vstd::prelude::*;
use crate::bytes::{append, take_all, CARRIAGE_RETURN, LINE_FEED};

verus! {

/// What is behind a serial port.
#[derive(PartialEq, Eq, Structural, Clone, Copy, Debug)]
pub enum SerialInner {
    /// Nothing: what is written is dropped.
    Absent,
    /// A UART whose data register is at the given address.
    Uart(u32),
    /// The console of the uhyve hypervisor.
    Uhyve,
    /// A virtio console.
    Virtio,
}

/// `bytes` as a UART sends them: a carriage return before every line feed.
pub open spec fn crlf(bytes: Seq<u8>) -> Seq<u8>
    decreases bytes.len(),
{
    if bytes.len() == 0 {
        Seq::empty()
    } else if bytes.last() == LINE_FEED {
        crlf(bytes.drop_last()).push(CARRIAGE_RETURN).push(LINE_FEED)
    } else {
        crlf(bytes.drop_last()).push(bytes.last())
    }
}

/// How many line feeds `bytes` holds.
pub open spec fn line_feeds(bytes: Seq<u8>) -> nat
    decreases bytes.len(),
{
    if bytes.len() == 0 {
        0
    } else {
        line_feeds(bytes.drop_last()) + (if bytes.last() == LINE_FEED {
            1nat
        } else {
            0nat
        })
    }
}

/// A UART sends one byte more for every line feed, and nothing else.
pub proof fn lemma_crlf_len(bytes: Seq<u8>)
    ensures
        crlf(bytes).len() == bytes.len() + line_feeds(bytes),
    decreases bytes.len(),
{
    if bytes.len() > 0 {
        lemma_crlf_len(bytes.drop_last());
    }
}

/// What a UART sends for two byte strings in a row is what it sends for the
/// one followed by what it sends for the other.
pub proof fn lemma_crlf_concat(a: Seq<u8>, b: Seq<u8>)
    ensures
        crlf(a + b) == crlf(a) + crlf(b),
    decreases b.len(),
{
    if b.len() == 0 {
        assert(a + b =~= a);
        assert(crlf(a) + crlf(b) =~= crlf(a));
    } else {
        lemma_crlf_concat(a, b.drop_last());
        assert((a + b).drop_last() =~= a + b.drop_last());
        assert((a + b).last() == b.last());
        if b.last() == LINE_FEED {
            assert(crlf(a + b) =~= crlf(a) + crlf(b));
        } else {
            assert(crlf(a + b) =~= crlf(a) + crlf(b));
        }
    }
}

/// What a port with `inner` behind it puts on the wire for `bytes`.
pub open spec fn on_the_wire(inner: SerialInner, bytes: Seq<u8>) -> Seq<u8> {
    match inner {
        SerialInner::Absent => Seq::empty(),
        SerialInner::Uart(_) => crlf(bytes),
        SerialInner::Uhyve => bytes,
        SerialInner::Virtio => bytes,
    }
}

/// A serial port: what is behind it and what is to go over the wire.
pub struct SerialPort {
    inner: SerialInner,
    output: Vec<u8>,
}

impl SerialPort {
    /// What is behind the port.
    pub closed spec fn inner(&self) -> SerialInner {
        self.inner
    }

    /// The bytes that are to go over the wire and have not been taken, oldest
    /// first.
    pub closed spec fn output(&self) -> Seq<u8> {
        self.output@
    }

    /// A port on the console of the hypervisor if `uhyve` is set; otherwise
    /// on the UART at `port_address`, or on nothing if there is no address.
    ///
    /// The address of a UART fits 32 bits.
    pub fn new(uhyve: bool, port_address: Option<u64>) -> (port: Self)
        requires
            !uhyve ==> (port_address matches Some(address) ==> address <= u32::MAX),
        ensures
            port.output() == Seq::<u8>::empty(),
            port.inner() == (if uhyve {
                SerialInner::Uhyve
            } else {
                match port_address {
                    Some(address) => SerialInner::Uart(address as u32),
                    None => SerialInner::Absent,
                }
            }),
    {
        let inner = if uhyve {
            SerialInner::Uhyve
        } else {
            match port_address {
                Some(address) => SerialInner::Uart(address as u32),
                None => SerialInner::Absent,
            }
        };
        SerialPort { inner, output: Vec::new() }
    }

    /// From now on the port sends through the virtio console.
    pub fn switch_to_virtio_console(&mut self)
        ensures
            final(self).inner() == SerialInner::Virtio,
            final(self).output() == old(self).output(),
    {
        self.inner = SerialInner::Virtio;
    }

    /// Queues what has to go over the wire for `buf`: nothing where there is
    /// no port, `buf` with a carriage return before every line feed on a
    /// UART, and `buf` as it is otherwise.
    pub fn write_buf(&mut self, buf: &[u8])
        ensures
            final(self).inner() == old(self).inner(),
            final(self).output() == old(self).output() + on_the_wire(old(self).inner(), buf@),
    {
        match self.inner {
            SerialInner::Absent => {
                assert(self.output@ =~= old(self).output@ + Seq::<u8>::empty());
            },
            SerialInner::Uart(_) => {
                let mut i: usize = 0;
                while i < buf.len()
                    invariant
                        self.inner == old(self).inner,
                        i <= buf@.len(),
                        self.output@ == old(self).output@ + crlf(buf@.take(i as int)),
                    decreases buf@.len() - i,
                {
                    let byte = buf[i];
                    if byte == LINE_FEED {
                        self.output.push(CARRIAGE_RETURN);
                    }
                    self.output.push(byte);
                    i += 1;
                    proof {
                        assert(buf@.take(i as int).drop_last() =~= buf@.take(i - 1));
                        assert(buf@.take(i as int).last() == byte);
                        assert(self.output@ =~= old(self).output@ + crlf(buf@.take(i as int)));
                    }
                }
                assert(buf@.take(buf@.len() as int) =~= buf@);
            },
            SerialInner::Uhyve => {
                append(&mut self.output, buf);
            },
            SerialInner::Virtio => {
                append(&mut self.output, buf);
            },
        }
    }

    /// Has nothing to set up.
    pub fn init(&self, _baudrate: u32) {
    }

    /// What is behind the port.
    pub fn kind(&self) -> (inner: SerialInner)
        ensures
            inner == self.inner(),
    {
        self.inner
    }

    /// Takes the bytes that are to go over the wire, leaving none.
    pub fn take_output(&mut self) -> (bytes: Vec<u8>)
        ensures
            final(self).inner() == old(self).inner(),
            bytes@ == old(self).output(),
            final(self).output() == Seq::<u8>::empty(),
    {
        take_all(&mut self.output)
    }
}

} // verus!
