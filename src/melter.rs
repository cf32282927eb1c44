use vstd::prelude::*;

use crate::errors::{LibError, PdsError};

verus! {

/// The outcome of melting a save.
#[derive(Debug)]
pub enum MeltedBuffer {
    /// The input was already plaintext: callers use the original bytes.
    Verbatim,
    /// A decompressed plaintext save behind a header that declares text.
    Text { header: Vec<u8>, body: Vec<u8> },
    /// A binary save translated to plaintext.
    Binary { body: Vec<u8>, unknown_tokens: bool },
}

impl MeltedBuffer {
    /// The bytes that a write of this result produces, in order.
    pub open spec fn bytes(&self) -> Seq<u8> {
        match self {
            MeltedBuffer::Verbatim => Seq::empty(),
            MeltedBuffer::Text { header, body } => header@ + body@,
            MeltedBuffer::Binary { body, .. } => body@,
        }
    }

    pub open spec fn is_verbatim_spec(&self) -> bool {
        self is Verbatim
    }

    pub open spec fn unknown_tokens_spec(&self) -> bool {
        match self {
            MeltedBuffer::Binary { unknown_tokens, .. } => *unknown_tokens,
            _ => false,
        }
    }

    /// Length in bytes of the melted output.
    pub fn len(&self) -> (r: usize)
        requires
            self.bytes().len() <= usize::MAX,
        ensures
            r == self.bytes().len(),
    {
        match self {
            MeltedBuffer::Verbatim => 0,
            MeltedBuffer::Text { header, body } => header.len() + body.len(),
            MeltedBuffer::Binary { body, .. } => body.len(),
        }
    }

    /// True when the melter performed no work on the input.
    pub fn is_verbatim(&self) -> (r: bool)
        ensures
            r == self.is_verbatim_spec(),
    {
        match self {
            MeltedBuffer::Verbatim => true,
            _ => false,
        }
    }

    /// True when a binary input held tokens that the resolver could not name.
    pub fn has_unknown_tokens(&self) -> (r: bool)
        ensures
            r == self.unknown_tokens_spec(),
    {
        match self {
            MeltedBuffer::Binary { unknown_tokens, .. } => *unknown_tokens,
            _ => false,
        }
    }

    /// Copies the melted output into `buffer`, header first, and returns the
    /// number of bytes written. When `buffer` is shorter than the output,
    /// nothing is written and 0 is returned.
    pub fn write_data(&self, buffer: &mut [u8]) -> (r: usize)
        requires
            self.bytes().len() <= usize::MAX,
        ensures
            fits_output(self.bytes(), old(buffer)@) ==> {
                &&& r == self.bytes().len()
                &&& written_prefix(final(buffer)@, old(buffer)@, self.bytes())
            },
            !fits_output(self.bytes(), old(buffer)@) ==> r == 0 && final(buffer)@ == old(buffer)@,
    {
        let total = self.len();
        if buffer.len() < total {
            return 0;
        }
        match self {
            MeltedBuffer::Verbatim => {
                proof {
                    assert(buffer@.subrange(0, 0) =~= self.bytes());
                    lemma_whole_copy(old(buffer)@, buffer@, self.bytes());
                }
            },
            MeltedBuffer::Text { header, body } => {
                copy_at(buffer, 0, header.as_slice());
                let ghost mid = buffer@;
                copy_at(buffer, header.len(), body.as_slice());
                proof {
                    assert forall|k: int| 0 <= k < header@.len() implies #[trigger] buffer@[k]
                        == header@[k] by {
                        assert(mid[k] == mid.subrange(0, header@.len() as int)[k]);
                    }
                    assert forall|k: int| 0 <= k < body@.len() implies #[trigger] buffer@[
                        header@.len() + k] == body@[k] by {
                        assert(buffer@[header@.len() + k] == buffer@.subrange(
                            header@.len() as int,
                            (header@.len() + body@.len()) as int,
                        )[k]);
                    }
                    assert(buffer@.subrange(0, self.bytes().len() as int) =~= self.bytes());
                    assert(buffer@.subrange(self.bytes().len() as int, buffer@.len() as int)
                        =~= old(buffer)@.subrange(self.bytes().len() as int, buffer@.len() as int));
                }
            },
            MeltedBuffer::Binary { body, .. } => {
                copy_at(buffer, 0, body.as_slice());
                proof {
                    lemma_whole_copy(old(buffer)@, buffer@, body@);
                }
            },
        }
        total
    }
}

/// A melt outcome handed to a caller: the melted output or the error, until
/// one of them is taken out.
pub enum MeltedBufferResult {
    Value(MeltedBuffer),
    Failure(LibError),
}

impl MeltedBufferResult {
    /// Taking the error out of this result succeeds.
    pub open spec fn yields_error(&self) -> bool {
        self is Failure
    }

    /// Taking the value out of this result succeeds.
    pub open spec fn yields_value(&self) -> bool {
        self is Value
    }

    /// The result as a `Result`.
    pub open spec fn as_result(self) -> Result<MeltedBuffer, LibError> {
        match self {
            MeltedBufferResult::Value(m) => Ok(m),
            MeltedBufferResult::Failure(e) => Err(e),
        }
    }

    /// Hands `r` over as a single-use result.
    pub fn from_result(r: Result<MeltedBuffer, LibError>) -> (res: MeltedBufferResult)
        ensures
            res.as_result() == r,
    {
        match r {
            Ok(m) => MeltedBufferResult::Value(m),
            Err(e) => MeltedBufferResult::Failure(e),
        }
    }

    pub fn is_err(&self) -> (r: bool)
        ensures
            r == self.yields_error(),
    {
        match self {
            MeltedBufferResult::Value(_) => false,
            MeltedBufferResult::Failure(_) => true,
        }
    }

    /// Consumes the result and returns the message of its error; a result
    /// that holds a value is handed back unchanged.
    pub fn take_error(self) -> (r: Result<PdsError, MeltedBufferResult>)
        ensures
            r is Ok <==> self.yields_error(),
            self.yields_error() ==> self->Failure_0.described_by(r->Ok_0.text()),
            !self.yields_error() ==> r == Err::<PdsError, MeltedBufferResult>(self),
    {
        match self {
            MeltedBufferResult::Failure(e) => Ok(PdsError::from(&e)),
            MeltedBufferResult::Value(v) => Err(MeltedBufferResult::Value(v)),
        }
    }

    /// Consumes the result and returns its melted output; a result that
    /// holds an error is handed back unchanged.
    pub fn take_value(self) -> (r: Result<MeltedBuffer, MeltedBufferResult>)
        ensures
            r is Ok <==> self.yields_value(),
            self.yields_value() ==> r == Ok::<MeltedBuffer, MeltedBufferResult>(self->Value_0),
            !self.yields_value() ==> r == Err::<MeltedBuffer, MeltedBufferResult>(self),
    {
        match self {
            MeltedBufferResult::Value(v) => Ok(v),
            MeltedBufferResult::Failure(e) => Err(MeltedBufferResult::Failure(e)),
        }
    }
}

/// Exactly one of taking the error and taking the value succeeds on a melt
/// result; the other hands the result back.
pub proof fn lemma_melt_result_one_branch(r: MeltedBufferResult)
    ensures
        r.yields_error() != r.yields_value(),
{
}

/// A buffer of `buf` bytes can take all of `out`.
pub open spec fn fits_output(out: Seq<u8>, buf: Seq<u8>) -> bool {
    out.len() <= buf.len()
}

/// `new` is `old` with its first `out.len()` bytes replaced by `out`.
pub open spec fn written_prefix(new: Seq<u8>, old: Seq<u8>, out: Seq<u8>) -> bool {
    &&& out.len() <= old.len()
    &&& new.len() == old.len()
    &&& new.subrange(0, out.len() as int) == out
    &&& new.subrange(out.len() as int, new.len() as int) == old.subrange(out.len() as int, old.len() as int)
}

/// A copy of `out` to the front of `old` that left the rest alone is a
/// written prefix.
pub(crate) proof fn lemma_whole_copy(old: Seq<u8>, new: Seq<u8>, out: Seq<u8>)
    requires
        out.len() <= old.len(),
        new.len() == old.len(),
        new.subrange(0, out.len() as int) == out,
        forall|k: int| out.len() <= k < old.len() ==> #[trigger] new[k] == old[k],
    ensures
        written_prefix(new, old, out),
{
    assert(new.subrange(out.len() as int, new.len() as int) =~= old.subrange(
        out.len() as int,
        old.len() as int,
    ));
}

/// Copies `src` into `buffer` starting at `start`, leaving the rest untouched.
pub(crate) fn copy_at(buffer: &mut [u8], start: usize, src: &[u8])
    requires
        start + src@.len() <= old(buffer)@.len(),
    ensures
        final(buffer)@.len() == old(buffer)@.len(),
        final(buffer)@.subrange(start as int, start + src@.len()) == src@,
        forall|k: int|
            0 <= k < old(buffer)@.len() && !(start <= k < start + src@.len())
                ==> #[trigger] final(buffer)@[k] == old(buffer)@[k],
{
    let n = buffer.len();
    let mut i: usize = 0;
    while i < src.len()
        invariant
            i <= src@.len(),
            n == old(buffer)@.len(),
            start + src@.len() <= old(buffer)@.len(),
            buffer@.len() == old(buffer)@.len(),
            forall|k: int| 0 <= k < i ==> #[trigger] buffer@[start + k] == src@[k],
            forall|k: int|
                0 <= k < old(buffer)@.len() && !(start <= k < start + i)
                    ==> #[trigger] buffer@[k] == old(buffer)@[k],
        decreases src@.len() - i,
    {
        buffer[start + i] = src[i];
        i = i + 1;
    }
    assert(buffer@.subrange(start as int, start + src@.len()) =~= src@) by {
        assert forall|k: int| 0 <= k < src@.len() implies
            buffer@.subrange(start as int, start + src@.len())[k] == src@[k] by {
            assert(buffer@[start + k] == src@[k]);
        }
    }
}

} // verus!
