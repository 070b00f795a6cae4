//! The reading side of the pipe bridge.
//!
//! While a worker asks the remote service to write its dump into a pipe, the
//! calling thread drains that pipe into a [`Capture`]. Each read attempt is
//! handed to [`Capture::feed`], which says whether to read again; once the
//! stream has ended and the worker has been joined, [`Capture::finish`] turns
//! what was gathered into the result of the call.

use vstd::prelude::*;
use crate::error::{DumpError, StatusCode};
use crate::text::{decode, text_of};

verus! {

/// The bytes drained from the pipe so far, in the order they arrived.
pub struct Capture {
    bytes: Vec<u8>,
}

impl View for Capture {
    type V = Seq<u8>;

    closed spec fn view(&self) -> Seq<u8> {
        self.bytes@
    }
}

/// The chunks of a stream laid end to end, starting from `start`.
pub open spec fn fed(start: Seq<u8>, chunks: Seq<Seq<u8>>) -> Seq<u8>
    decreases chunks.len(),
{
    if chunks.len() == 0 {
        start
    } else {
        fed(start, chunks.drop_last()) + chunks.last()
    }
}

/// The number of bytes in all of `chunks` together.
pub open spec fn total_len(chunks: Seq<Seq<u8>>) -> nat
    decreases chunks.len(),
{
    if chunks.len() == 0 {
        0
    } else {
        total_len(chunks.drop_last()) + chunks.last().len()
    }
}

/// What a dump call yields, given the bytes captured, how draining the pipe
/// ended, and what the worker reported for the remote call.
///
/// A failed remote call is reported before anything else; a failed read
/// comes next; only when both went well is there text, and then it is the
/// text of everything captured.
pub open spec fn outcome_of(
    captured: Seq<u8>,
    drained: Result<(), std::io::Error>,
    worker: Result<(), StatusCode>,
) -> Result<Seq<char>, DumpError> {
    match worker {
        Err(status) => Err(DumpError::Remote(status)),
        Ok(_) => match drained {
            Err(err) => Err(DumpError::Io(err)),
            Ok(_) => Ok(text_of(captured)),
        },
    }
}

/// The result of a dump call whose captured bytes were already decoded to
/// `text`: the text if both the drain and the remote call went well, and
/// otherwise the error, with the text dropped.
pub fn settle(
    text: String,
    drained: Result<(), std::io::Error>,
    worker: Result<(), StatusCode>,
) -> (res: Result<String, DumpError>)
    ensures
        res == (match worker {
            Err(status) => Err::<String, DumpError>(DumpError::Remote(status)),
            Ok(_) => match drained {
                Err(err) => Err::<String, DumpError>(DumpError::Io(err)),
                Ok(_) => Ok::<String, DumpError>(text),
            },
        }),
{
    match worker {
        Err(status) => Err(DumpError::Remote(status)),
        Ok(_) => match drained {
            Err(err) => Err(DumpError::Io(err)),
            Ok(_) => Ok(text),
        },
    }
}

/// Feeding chunks one after another gathers them end to end: what the
/// capture held before, then every chunk whole, once, in the order given.
pub proof fn fed_is_concatenation(start: Seq<u8>, chunks: Seq<Seq<u8>>)
    ensures
        fed(start, chunks) == start + chunks.flatten(),
        fed(start, chunks).len() == start.len() + total_len(chunks),
    decreases chunks.len(),
{
    if chunks.len() == 0 {
        assert(start + chunks.flatten() =~= start);
    } else {
        let front = chunks.drop_last();
        fed_is_concatenation(start, front);
        front.lemma_flatten_push(chunks.last());
        assert(front.push(chunks.last()) =~= chunks);
        assert(fed(start, chunks) =~= start + chunks.flatten());
    }
}

/// A dump that drained its pipe to the end and whose remote call succeeded
/// returns the text of exactly the bytes that were written: nothing cut off,
/// nothing twice.
pub proof fn success_returns_all_bytes(chunks: Seq<Seq<u8>>)
    ensures
        outcome_of(fed(Seq::empty(), chunks), Ok(()), Ok(())) == Ok::<Seq<char>, DumpError>(
            text_of(chunks.flatten()),
        ),
{
    fed_is_concatenation(Seq::empty(), chunks);
    assert(Seq::<u8>::empty() + chunks.flatten() =~= chunks.flatten());
}

/// A remote call that came back with a failure status makes the dump fail
/// with that status, whatever was captured and however the drain ended: no
/// text is returned.
pub proof fn remote_failure_returns_no_text(
    captured: Seq<u8>,
    drained: Result<(), std::io::Error>,
    status: StatusCode,
)
    ensures
        outcome_of(captured, drained, Err(status)) == Err::<Seq<char>, DumpError>(
            DumpError::Remote(status),
        ),
{
}

impl Capture {
    /// A capture that holds nothing yet.
    pub fn new() -> (capture: Capture)
        ensures
            capture@ == Seq::<u8>::empty(),
    {
        Capture { bytes: Vec::new() }
    }

    /// The bytes captured, in order.
    pub fn as_bytes(&self) -> (bytes: &[u8])
        ensures
            bytes@ == self@,
    {
        self.bytes.as_slice()
    }

    /// Takes in the bytes of one read attempt and says whether to read again.
    ///
    /// The chunk is appended whole. An empty chunk is the end of the stream:
    /// it changes nothing and the answer is `false`.
    pub fn feed(&mut self, chunk: &[u8]) -> (more: bool)
        ensures
            final(self)@ == old(self)@ + chunk@,
            more == (chunk@.len() > 0),
    {
        self.bytes.extend_from_slice(chunk);
        proof {
            assert(self.bytes@ =~= old(self).bytes@ + chunk@);
        }
        chunk.len() > 0
    }

    /// Ends the capture and gives the result of the dump call.
    ///
    /// `drained` says how reading the pipe ended and `worker` what the remote
    /// call returned. On success the result is the text of every byte
    /// captured; on failure nothing of the capture is returned.
    pub fn finish(
        self,
        drained: Result<(), std::io::Error>,
        worker: Result<(), StatusCode>,
    ) -> (res: Result<String, DumpError>)
        ensures
            match res {
                Ok(text) => outcome_of(self@, drained, worker) == Ok::<Seq<char>, DumpError>(
                    text@,
                ),
                Err(err) => outcome_of(self@, drained, worker) == Err::<Seq<char>, DumpError>(
                    err,
                ),
            },
            worker is Err ==> res == Err::<String, DumpError>(DumpError::Remote(worker->Err_0)),
            worker is Ok && drained is Ok ==> res is Ok && res->Ok_0@ == text_of(self@),
    {
        let text = decode(self.bytes.as_slice());
        settle(text, drained, worker)
    }
}

} // verus!
