//! The bit-extraction component: `BitReader` adapts a byte-producing source
//! into a sequential source of `Bit` values, most-significant bit first by
//! default, with a sticky end-of-stream signal and verbatim error
//! forwarding.

use crate::bit::Bit;
use vstd::prelude::*;

verus! {

/// One response of a byte source to a fetch: the next byte, or an I/O
/// failure carrying the source's own error value. End-of-data is not an
/// event; it is the exhaustion of the event sequence.
#[derive(Clone, Copy, PartialEq, Eq, Debug)]
pub enum SourceEvent<E> {
    Byte(u8),
    Failure(E),
}

/// A minimal pull-based byte cursor: fetch the next byte, or report
/// end-of-data, or report an I/O failure.
///
/// The responses the source will give are modelled as a sequence of
/// events. A fetch consumes the front event and answers with it; once the
/// sequence is empty, every fetch reports end-of-data. A consumed failure
/// is not replayed: a retried fetch moves on to the next event.
pub trait ByteSource {
    /// The error type of the source's I/O failures, surfaced verbatim.
    type Err;

    /// The responses this source will give to coming fetches, in order.
    /// An empty sequence means the source has no more data.
    spec fn events(&self) -> Seq<SourceEvent<Self::Err>>;

    /// Fetches the next byte, or reports end-of-data, or reports an I/O
    /// failure.
    fn next_byte(&mut self) -> (r: Result<Option<u8>, Self::Err>)
        ensures
            old(self).events().len() == 0 ==> ({
                &&& r == Ok::<Option<u8>, Self::Err>(None)
                &&& final(self).events() == old(self).events()
            }),
            old(self).events().len() > 0 ==> ({
                &&& final(self).events() == old(self).events().skip(1)
                &&& match old(self).events()[0] {
                    SourceEvent::Byte(b) => r == Ok::<Option<u8>, Self::Err>(Some(b)),
                    SourceEvent::Failure(e) => r == Err::<Option<u8>, Self::Err>(e),
                }
            }),
    ;
}

/// The order in which the bits of one byte are yielded. It is fixed when a
/// reader is made and never changes within one reader instance.
#[derive(PartialEq, Eq, Structural, Debug, Clone, Copy)]
pub enum BitOrder {
    /// Bit 7 first, down to bit 0: the conventional choice for bitstream
    /// codecs and the default.
    MsbFirst,
    /// Bit 0 first, up to bit 7.
    LsbFirst,
}

/// The bit of `byte` at position `i` in most-significant-bit-first order:
/// position 0 is bit 7 and position 7 is bit 0.
pub open spec fn bit_of_byte(byte: u8, i: int) -> Bit {
    if (byte >> ((7 - i) as u8)) & 1 == 1 {
        Bit::One
    } else {
        Bit::Zero
    }
}

/// The bit of `byte` at position `i` in the given order.
pub open spec fn bit_in_order(order: BitOrder, byte: u8, i: int) -> Bit {
    match order {
        BitOrder::MsbFirst => bit_of_byte(byte, i),
        BitOrder::LsbFirst => bit_of_byte(byte, 7 - i),
    }
}

/// The eight bits of a byte in the given order.
pub open spec fn byte_bits_in(order: BitOrder, byte: u8) -> Seq<Bit> {
    Seq::new(8, |i: int| bit_in_order(order, byte, i))
}

/// An in-memory byte source: yields the bytes of a buffer in order, then
/// reports end-of-data. It never fails.
pub struct MemReader {
    buffer: Vec<u8>,
    pos: usize,
}

impl MemReader {
    #[verifier::type_invariant]
    spec fn inv(&self) -> bool {
        self.pos <= self.buffer@.len()
    }

    /// The bytes not yet yielded.
    pub closed spec fn remaining(&self) -> Seq<u8> {
        self.buffer@.skip(self.pos as int)
    }

    /// Wraps a buffer; every byte of it is yet to be yielded.
    pub fn new(buffer: Vec<u8>) -> (r: MemReader)
        ensures
            r.remaining() == buffer@,
    {
        let r = MemReader { buffer, pos: 0 };
        proof {
            assert(r.remaining() =~= r.buffer@);
        }
        r
    }

    /// Whether every byte has been yielded.
    pub fn eof(&self) -> (r: bool)
        ensures
            r == (self.remaining().len() == 0),
    {
        proof {
            use_type_invariant(self);
        }
        self.pos == self.buffer.len()
    }
}

impl ByteSource for MemReader {
    type Err = ();

    /// Every coming response is a byte of the buffer, in order.
    open spec fn events(&self) -> Seq<SourceEvent<()>> {
        self.remaining().map(|i: int, b: u8| SourceEvent::Byte(b))
    }

    fn next_byte(&mut self) -> (r: Result<Option<u8>, ()>) {
        proof {
            use_type_invariant(&*self);
        }
        if self.pos < self.buffer.len() {
            let b = self.buffer[self.pos];
            self.pos = self.pos + 1;
            proof {
                assert(self.remaining() =~= old(self).remaining().skip(1));
                assert(self.events() =~= old(self).events().skip(1));
                assert(old(self).events()[0] == SourceEvent::<()>::Byte(b));
            }
            Ok(Some(b))
        } else {
            proof {
                assert(self.events().len() == 0);
            }
            Ok(None)
        }
    }
}

/// A byte source driven by a fixed script of events: it replays bytes and
/// injected failures in order, then reports end-of-data. A reported
/// failure is consumed, so a retried fetch moves on to the next event, as
/// with a source whose fault has cleared.
pub struct ScriptedSource<E> {
    script: Vec<SourceEvent<E>>,
    pos: usize,
}

impl<E> ScriptedSource<E> {
    #[verifier::type_invariant]
    spec fn inv(&self) -> bool {
        self.pos <= self.script@.len()
    }

    /// The events not yet replayed.
    pub closed spec fn pending(&self) -> Seq<SourceEvent<E>> {
        self.script@.skip(self.pos as int)
    }

    /// Wraps a script; every event of it is yet to be replayed.
    pub fn new(script: Vec<SourceEvent<E>>) -> (r: ScriptedSource<E>)
        ensures
            r.pending() == script@,
    {
        let r = ScriptedSource { script, pos: 0 };
        proof {
            assert(r.pending() =~= r.script@);
        }
        r
    }
}

impl<E: Copy> ByteSource for ScriptedSource<E> {
    type Err = E;

    /// The coming responses are exactly the events not yet replayed.
    open spec fn events(&self) -> Seq<SourceEvent<E>> {
        self.pending()
    }

    fn next_byte(&mut self) -> (r: Result<Option<u8>, E>) {
        proof {
            use_type_invariant(&*self);
        }
        if self.pos < self.script.len() {
            let ev = self.script[self.pos];
            self.pos = self.pos + 1;
            proof {
                assert(self.pending() =~= old(self).pending().skip(1));
                assert(old(self).pending()[0] == ev);
            }
            match ev {
                SourceEvent::Byte(b) => Ok(Some(b)),
                SourceEvent::Failure(e) => Err(e),
            }
        } else {
            proof {
                assert(self.pending().len() == 0);
            }
            Ok(None)
        }
    }
}

/// Adapts a byte source into a sequential source of bits. Bits come in the
/// reader's bit order within each byte, most-significant bit first unless
/// least-significant-bit-first was asked for, and the order never changes
/// within one reader instance; a new byte is pulled from the source only
/// when the buffered byte is exhausted; end-of-stream is a sticky terminal
/// signal distinct from any bit and from any failure; an I/O failure is
/// forwarded verbatim and leaves the buffered-byte state untouched, so the
/// fetch can be retried.
pub struct BitReader<S: ByteSource> {
    source: S,
    order: BitOrder,
    byte: u8,
    cursor: u8,
    exhausted: bool,
}

impl<S: ByteSource> BitReader<S> {
    /// The underlying source.
    pub closed spec fn source(&self) -> S {
        self.source
    }

    /// The responses the underlying source will give, in order.
    pub open spec fn source_events(&self) -> Seq<SourceEvent<S::Err>> {
        self.source().events()
    }

    /// The order in which the bits of each byte are yielded.
    pub closed spec fn order(&self) -> BitOrder {
        self.order
    }

    /// The bits of the buffered byte not yet yielded. The cursor never
    /// passes 8 in a reader the constructor made, but the sequence is
    /// empty for any state beyond, so no validity precondition is needed.
    pub closed spec fn buffered(&self) -> Seq<Bit> {
        if self.exhausted || self.cursor > 8 {
            Seq::empty()
        } else {
            byte_bits_in(self.order, self.byte).skip(self.cursor as int)
        }
    }

    /// Whether the reader has reported end-of-stream; once true, it stays
    /// true and every later read reports end-of-stream again.
    pub closed spec fn is_exhausted(&self) -> bool {
        self.exhausted
    }

    /// Wraps a source, yielding bits most-significant bit first. No byte
    /// is buffered yet: the first read pulls one.
    pub fn new(source: S) -> (r: BitReader<S>)
        ensures
            r.source() == source,
            r.order() == BitOrder::MsbFirst,
            r.buffered() == Seq::<Bit>::empty(),
            !r.is_exhausted(),
    {
        Self::with_order(source, BitOrder::MsbFirst)
    }

    /// Wraps a source with an explicit bit order, fixed for the life of
    /// the reader. No byte is buffered yet: the first read pulls one.
    pub fn with_order(source: S, order: BitOrder) -> (r: BitReader<S>)
        ensures
            r.source() == source,
            r.order() == order,
            r.buffered() == Seq::<Bit>::empty(),
            !r.is_exhausted(),
    {
        let r = BitReader { source, order, byte: 0, cursor: 8, exhausted: false };
        proof {
            assert(r.buffered() =~= Seq::<Bit>::empty());
        }
        r
    }

    /// Yields the next bit, or reports end-of-stream (`Ok(None)`), or
    /// forwards the source's I/O failure.
    ///
    /// A buffered bit is yielded without touching the source. With the
    /// buffer exhausted, one byte is fetched: a byte refills the buffer
    /// and its first bit in the reader's order is yielded; end-of-data
    /// puts the reader in its sticky terminal state; a failure is
    /// forwarded with the reader's own state unchanged, so the same fetch
    /// is re-attempted on the next call. The bit order never changes.
    pub fn read_bit(&mut self) -> (r: Result<Option<Bit>, S::Err>)
        ensures
            final(self).order() == old(self).order(),
            old(self).buffered().len() > 0 ==> ({
                &&& r == Ok::<Option<Bit>, S::Err>(Some(old(self).buffered()[0]))
                &&& final(self).buffered() == old(self).buffered().skip(1)
                &&& final(self).source() == old(self).source()
                &&& !final(self).is_exhausted()
            }),
            old(self).buffered().len() == 0 && old(self).is_exhausted() ==> ({
                &&& r == Ok::<Option<Bit>, S::Err>(None)
                &&& *final(self) == *old(self)
            }),
            old(self).buffered().len() == 0 && !old(self).is_exhausted() ==> ({
                if old(self).source_events().len() == 0 {
                    &&& r == Ok::<Option<Bit>, S::Err>(None)
                    &&& final(self).buffered() == Seq::<Bit>::empty()
                    &&& final(self).is_exhausted()
                    &&& final(self).source_events() == old(self).source_events()
                } else {
                    match old(self).source_events()[0] {
                        SourceEvent::Byte(b) => ({
                            &&& r == Ok::<Option<Bit>, S::Err>(Some(
                                byte_bits_in(old(self).order(), b)[0],
                            ))
                            &&& final(self).buffered() == byte_bits_in(
                                old(self).order(),
                                b,
                            ).skip(1)
                            &&& !final(self).is_exhausted()
                            &&& final(self).source_events() == old(self).source_events().skip(
                                1,
                            )
                        }),
                        SourceEvent::Failure(e) => ({
                            &&& r == Err::<Option<Bit>, S::Err>(e)
                            &&& final(self).buffered() == old(self).buffered()
                            &&& !final(self).is_exhausted()
                            &&& final(self).source_events() == old(self).source_events().skip(
                                1,
                            )
                        }),
                    }
                }
            }),
    {
        if self.exhausted {
            return Ok(None);
        }
        if self.cursor < 8 {
            let bit = bit_at(self.order, self.byte, self.cursor);
            self.cursor = self.cursor + 1;
            proof {
                assert(old(self).buffered()[0] == bit);
                assert(self.buffered() =~= old(self).buffered().skip(1));
            }
            return Ok(Some(bit));
        }
        match self.source.next_byte() {
            Ok(Some(b)) => {
                self.byte = b;
                self.cursor = 1;
                let bit = bit_at(self.order, b, 0);
                proof {
                    assert(self.buffered() =~= byte_bits_in(self.order, b).skip(1));
                }
                Ok(Some(bit))
            },
            Ok(None) => {
                self.exhausted = true;
                proof {
                    assert(self.buffered() =~= Seq::<Bit>::empty());
                }
                Ok(None)
            },
            Err(e) => {
                proof {
                    assert(self.buffered() =~= old(self).buffered());
                }
                Err(e)
            },
        }
    }
}

/// The bit of `byte` at position `idx` in the given order.
fn bit_at(order: BitOrder, byte: u8, idx: u8) -> (r: Bit)
    requires
        idx < 8,
    ensures
        r == byte_bits_in(order, byte)[idx as int],
{
    let shift: u8 = match order {
        BitOrder::MsbFirst => 7 - idx,
        BitOrder::LsbFirst => idx,
    };
    if (byte >> shift) & 1 == 1 {
        Bit::One
    } else {
        Bit::Zero
    }
}

} // verus!
