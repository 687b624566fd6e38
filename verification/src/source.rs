//! The byte source the decoder pulls from.
//!
//! A pull-based source is modelled as the sequence of bytes it will yield
//! followed by how it ends: a clean end of stream, or a read error. The
//! decoder never reads past the first error, so any byte-producing source,
//! drained up to its first error, fits this model.

use vstd::prelude::*;

use crate::insn::InstructionDecodingError;

verus! {

/// The error that a failed byte read reports: a source that ended in an
/// error gives `ReadError`; one that ended cleanly mid-instruction gives
/// `PartialInstruction`.
pub open spec fn stream_end_error(fail: bool) -> InstructionDecodingError {
    if fail {
        InstructionDecodingError::ReadError
    } else {
        InstructionDecodingError::PartialInstruction
    }
}

/// A byte stream held in memory: the bytes the underlying source yields, a
/// cursor, and whether the source ends with a read error instead of a clean
/// end of stream.
pub struct ByteSource {
    bytes: Vec<u8>,
    pos: usize,
    fail: bool,
}

impl ByteSource {
    /// The cursor never passes the end of the bytes.
    pub closed spec fn wf(self) -> bool {
        self.pos <= self.bytes@.len()
    }

    /// The bytes not yet consumed.
    pub closed spec fn remaining(self) -> Seq<u8> {
        self.bytes@.skip(self.pos as int)
    }

    /// Whether the source ends with a read error.
    pub closed spec fn fails(self) -> bool {
        self.fail
    }

    /// A source over the given bytes that ends cleanly.
    pub fn new(bytes: Vec<u8>) -> (r: ByteSource)
        ensures
            r.wf(),
            r.remaining() == bytes@,
            !r.fails(),
    {
        let r = ByteSource { bytes, pos: 0, fail: false };
        proof {
            assert(r.remaining() =~= r.bytes@);
        }
        r
    }

    /// A source over the given bytes that then reports a read error.
    pub fn with_trailing_error(bytes: Vec<u8>) -> (r: ByteSource)
        ensures
            r.wf(),
            r.remaining() == bytes@,
            r.fails(),
    {
        let r = ByteSource { bytes, pos: 0, fail: true };
        proof {
            assert(r.remaining() =~= r.bytes@);
        }
        r
    }

    /// Whether a peek would see anything — a byte, or the pending read
    /// error. Only a clean end of stream makes this false.
    pub fn has_more(&self) -> (r: bool)
        requires
            self.wf(),
        ensures
            r == (self.remaining().len() > 0 || self.fails()),
    {
        self.pos < self.bytes.len() || self.fail
    }

    /// Consume one byte. At the end of the bytes, reports how the source
    /// ends and consumes nothing.
    pub fn expect_byte(&mut self) -> (r: Result<u8, InstructionDecodingError>)
        requires
            old(self).wf(),
        ensures
            final(self).wf(),
            final(self).fails() == old(self).fails(),
            ({
                let s = old(self).remaining();
                if s.len() > 0 {
                    r == Ok::<u8, InstructionDecodingError>(s[0]) && final(self).remaining() == s.skip(1)
                } else {
                    r == Err::<u8, InstructionDecodingError>(stream_end_error(old(self).fails()))
                        && final(self).remaining() == s
                }
            }),
    {
        if self.pos < self.bytes.len() {
            let b = self.bytes[self.pos];
            self.pos = self.pos + 1;
            proof {
                assert(self.remaining() =~= old(self).remaining().skip(1));
                assert(b == old(self).remaining()[0]);
            }
            Ok(b)
        } else if self.fail {
            Err(InstructionDecodingError::ReadError)
        } else {
            Err(InstructionDecodingError::PartialInstruction)
        }
    }
}

/// Skipping `a` bytes and then `b` bytes is skipping `a + b` bytes.
pub proof fn lemma_skip_skip(s: Seq<u8>, a: int, b: int)
    requires
        0 <= a,
        0 <= b,
        a + b <= s.len(),
    ensures
        s.skip(a).skip(b) == s.skip(a + b),
{
    assert(s.skip(a).skip(b) =~= s.skip(a + b));
}

} // verus!
