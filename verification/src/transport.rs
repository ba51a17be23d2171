//! The capability interfaces a transfer runs over: a half-duplex byte
//! channel, a sequential byte source and a sequential byte sink, together
//! with in-memory implementations.
//!
//! The channel and the streams are supplied by the caller; a serial port
//! and plain files satisfy the same interfaces outside the library.

use vstd::prelude::*;

verus! {

/// A blocking, timeout-bounded, byte-oriented duplex channel.
///
/// `outbound` is every byte this side has written. `inbound` is the finite
/// sequence of bytes that will still arrive from the peer, in arrival
/// order: a session is specified against any such sequence, which is why
/// the engines decide correctly whatever arrives. Reads hand the inbound
/// bytes out in order or time out; nothing a read returns is promised
/// beyond that, since the peer may send anything.
pub trait Transport {
    /// Every byte this side has written to the channel, in order.
    spec fn outbound(&self) -> Seq<u8>;

    /// The bytes that will still arrive from the peer, in order.
    spec fn inbound(&self) -> Seq<u8>;

    /// Writes `data` to the channel. Delivery is best-effort: when the
    /// peer saw nothing it times out, and the retry policy recovers.
    fn write_bytes(&mut self, data: &[u8])
        ensures
            final(self).outbound() == old(self).outbound() + data@,
            final(self).inbound() == old(self).inbound(),
    ;

    /// Reads one byte, blocking up to the transport's own timeout.
    /// `None` is a timeout or a read failure; the engines treat the two
    /// as one retryable condition.
    fn read_byte(&mut self) -> (r: Option<u8>)
        ensures
            final(self).outbound() == old(self).outbound(),
            (match r {
                Some(b) => old(self).inbound().len() > 0 && b == old(self).inbound()[0]
                    && final(self).inbound() == old(self).inbound().skip(1),
                None => final(self).inbound() == old(self).inbound(),
            }),
    ;

    /// Reads exactly `n` bytes, or `None` when the timeout struck before
    /// all of them arrived.
    fn read_exact(&mut self, n: usize) -> (r: Option<Vec<u8>>)
        ensures
            final(self).outbound() == old(self).outbound(),
            (match r {
                Some(data) => {
                    &&& data@.len() == n
                    &&& old(self).inbound().len() >= n
                    &&& data@ == old(self).inbound().take(n as int)
                    &&& final(self).inbound() == old(self).inbound().skip(n as int)
                },
                None => final(self).inbound().len() <= old(self).inbound().len(),
            }),
    ;

    /// Discards inbound bytes that are waiting unread.
    fn clear_input(&mut self)
        ensures
            final(self).outbound() == old(self).outbound(),
            final(self).inbound().len() <= old(self).inbound().len(),
    ;

    /// How many inbound bytes are waiting unread.
    fn bytes_available(&self) -> usize;
}

/// A sequential byte source: the stream a sender transmits.
pub trait ByteSource {
    /// The bytes the source has not yet handed out.
    spec fn remaining(&self) -> Seq<u8>;

    /// Reads up to `max` bytes off the front of the source. An empty
    /// result means the source is exhausted; `None` is a read failure.
    fn read_block(&mut self, max: usize) -> (r: Option<Vec<u8>>)
        requires
            max >= 1,
        ensures
            (match r {
                Some(data) => {
                    &&& data@.len() <= max
                    &&& data@.len() <= old(self).remaining().len()
                    &&& data@ == old(self).remaining().take(data@.len() as int)
                    &&& final(self).remaining() == old(self).remaining().skip(
                        data@.len() as int,
                    )
                    &&& (data@.len() == 0 <==> old(self).remaining().len() == 0)
                },
                None => final(self).remaining() == old(self).remaining(),
            }),
    ;
}

/// A sequential byte sink: the stream a receiver fills.
pub trait ByteSink {
    /// The bytes accepted so far.
    spec fn data(&self) -> Seq<u8>;

    /// Appends `bytes` to the sink; `false` is a write failure that left
    /// the sink as it was.
    fn write_all(&mut self, bytes: &[u8]) -> (ok: bool)
        ensures
            ok ==> final(self).data() == old(self).data() + bytes@,
            !ok ==> final(self).data() == old(self).data(),
    ;
}

/// Copies `src[from..to]` into a fresh vector.
pub(crate) fn copy_range(src: &Vec<u8>, from: usize, to: usize) -> (r: Vec<u8>)
    requires
        from <= to <= src@.len(),
    ensures
        r@ == src@.subrange(from as int, to as int),
{
    let mut out: Vec<u8> = Vec::new();
    let mut j: usize = from;
    while j < to
        invariant
            from <= j <= to <= src@.len(),
            out@ == src@.subrange(from as int, j as int),
        decreases to - j,
    {
        out.push(src[j]);
        proof {
            assert(out@ =~= src@.subrange(from as int, j as int + 1));
        }
        j = j + 1;
    }
    out
}

/// An in-memory channel: reads follow a script given up front, and
/// everything written is recorded.
pub struct MemTransport {
    script: Vec<u8>,
    written: Vec<u8>,
}

impl MemTransport {
    /// A channel whose reads will hand out `script` byte by byte and then
    /// time out.
    pub fn new(script: Vec<u8>) -> (r: Self)
        ensures
            r.outbound() == Seq::<u8>::empty(),
            r.inbound() == script@,
    {
        MemTransport { script, written: Vec::new() }
    }

    /// Everything written to the channel so far.
    pub fn written(&self) -> (r: &Vec<u8>)
        ensures
            r@ == self.outbound(),
    {
        &self.written
    }
}

impl Transport for MemTransport {
    closed spec fn outbound(&self) -> Seq<u8> {
        self.written@
    }

    closed spec fn inbound(&self) -> Seq<u8> {
        self.script@
    }

    fn write_bytes(&mut self, data: &[u8]) {
        let mut j: usize = 0;
        while j < data.len()
            invariant
                j <= data@.len(),
                self.written@ == old(self).written@ + data@.take(j as int),
                self.script == old(self).script,
            decreases data@.len() - j,
        {
            self.written.push(data[j]);
            proof {
                assert(self.written@ =~= old(self).written@ + data@.take(j as int + 1));
            }
            j = j + 1;
        }
        proof {
            assert(old(self).written@ + data@.take(data@.len() as int) =~= old(
                self,
            ).written@ + data@);
        }
    }

    fn read_byte(&mut self) -> (r: Option<u8>) {
        if self.script.len() > 0 {
            let b = self.script.remove(0);
            proof {
                assert(self.script@ =~= old(self).script@.skip(1));
            }
            Some(b)
        } else {
            None
        }
    }

    fn read_exact(&mut self, n: usize) -> (r: Option<Vec<u8>>) {
        if n <= self.script.len() {
            let out = copy_range(&self.script, 0, n);
            let rest = copy_range(&self.script, n, self.script.len());
            proof {
                assert(out@ =~= self.script@.take(n as int));
                assert(rest@ =~= self.script@.skip(n as int));
            }
            self.script = rest;
            Some(out)
        } else {
            // A short script models a peer that went quiet: the read times
            // out, and what is left of the script stays unread.
            None
        }
    }

    fn clear_input(&mut self) {
        // The script stands for bytes that have not yet arrived, so there
        // is nothing buffered to discard.
    }

    fn bytes_available(&self) -> usize {
        self.script.len()
    }
}

/// An in-memory byte source.
pub struct MemSource {
    data: Vec<u8>,
}

impl MemSource {
    /// A source that will hand out exactly `data`.
    pub fn new(data: Vec<u8>) -> (r: Self)
        ensures
            r.remaining() == data@,
    {
        MemSource { data }
    }
}

impl ByteSource for MemSource {
    closed spec fn remaining(&self) -> Seq<u8> {
        self.data@
    }

    fn read_block(&mut self, max: usize) -> (r: Option<Vec<u8>>) {
        let n = if max < self.data.len() {
            max
        } else {
            self.data.len()
        };
        let out = copy_range(&self.data, 0, n);
        let rest = copy_range(&self.data, n, self.data.len());
        proof {
            assert(out@ =~= old(self).remaining().take(n as int));
            assert(rest@ =~= old(self).remaining().skip(n as int));
        }
        self.data = rest;
        Some(out)
    }
}

/// An in-memory byte sink.
pub struct MemSink {
    data: Vec<u8>,
}

impl MemSink {
    /// An empty sink.
    pub fn new() -> (r: Self)
        ensures
            r.data() == Seq::<u8>::empty(),
    {
        MemSink { data: Vec::new() }
    }

    /// Everything the sink has accepted.
    pub fn bytes(&self) -> (r: &Vec<u8>)
        ensures
            r@ == self.data(),
    {
        &self.data
    }
}

impl ByteSink for MemSink {
    closed spec fn data(&self) -> Seq<u8> {
        self.data@
    }

    fn write_all(&mut self, bytes: &[u8]) -> (ok: bool) {
        let mut j: usize = 0;
        while j < bytes.len()
            invariant
                j <= bytes@.len(),
                self.data@ == old(self).data@ + bytes@.take(j as int),
            decreases bytes@.len() - j,
        {
            self.data.push(bytes[j]);
            proof {
                assert(self.data@ =~= old(self).data@ + bytes@.take(j as int + 1));
            }
            j = j + 1;
        }
        proof {
            assert(old(self).data@ + bytes@.take(bytes@.len() as int) =~= old(
                self,
            ).data@ + bytes@);
        }
        true
    }
}

/// A byte source whose reads always fail, for exercising a transfer's
/// stream-failure path.
pub struct FailingSource {
}

impl FailingSource {
    /// A source that will refuse every read.
    pub fn new() -> (r: Self)
        ensures
            r.remaining() == Seq::<u8>::empty(),
    {
        FailingSource {  }
    }
}

impl ByteSource for FailingSource {
    closed spec fn remaining(&self) -> Seq<u8> {
        Seq::empty()
    }

    fn read_block(&mut self, max: usize) -> (r: Option<Vec<u8>>) {
        None
    }
}

/// A byte sink whose writes always fail, for exercising a transfer's
/// stream-failure path.
pub struct FailingSink {
}

impl FailingSink {
    /// A sink that will refuse every write.
    pub fn new() -> (r: Self)
        ensures
            r.data() == Seq::<u8>::empty(),
    {
        FailingSink {  }
    }
}

impl ByteSink for FailingSink {
    closed spec fn data(&self) -> Seq<u8> {
        Seq::empty()
    }

    fn write_all(&mut self, bytes: &[u8]) -> (ok: bool) {
        false
    }
}

} // verus!

