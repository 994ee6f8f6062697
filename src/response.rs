use vstd::prelude::*;
use crate::error::ClientError;

verus! {

/// Largest payload read into one fixed buffer in a single call.
pub const SMALL_RESPONSE_THRESHOLD: u32 = 4096;

/// Largest payload read in 16 KiB chunks.
pub const MEDIUM_RESPONSE_THRESHOLD: u32 = 65536;

/// Largest payload read in 64 KiB chunks; above it chunks are 256 KiB.
pub const LARGE_RESPONSE_THRESHOLD: u32 = 1048576;

/// How the payload of a successful response is read.
#[derive(Debug, Clone, Copy, PartialEq, Eq, Structural)]
pub enum ReadStrategy {
    /// No payload follows the header.
    Empty,
    /// The whole payload is read into one fixed buffer in one call.
    Fixed,
    /// The payload is read in chunks of the given size.
    Chunked(u32),
}

/// The read strategy for a declared payload length.
pub open spec fn strategy_for(length: u32) -> ReadStrategy {
    if length <= 1 {
        ReadStrategy::Empty
    } else if length <= SMALL_RESPONSE_THRESHOLD {
        ReadStrategy::Fixed
    } else if length <= MEDIUM_RESPONSE_THRESHOLD {
        ReadStrategy::Chunked(16384)
    } else if length <= LARGE_RESPONSE_THRESHOLD {
        ReadStrategy::Chunked(65536)
    } else {
        ReadStrategy::Chunked(262144)
    }
}

/// The number of payload bytes that a header with this length announces.
pub open spec fn payload_len(length: u32) -> nat {
    if length <= 1 {
        0
    } else {
        length as nat
    }
}

/// The largest single read for a strategy.
pub open spec fn strategy_chunk(s: ReadStrategy) -> nat {
    match s {
        ReadStrategy::Chunked(c) => c as nat,
        _ => SMALL_RESPONSE_THRESHOLD as nat,
    }
}

/// Picks the read strategy for a declared payload length.
pub fn read_strategy(length: u32) -> (r: ReadStrategy)
    ensures
        r == strategy_for(length),
{
    if length <= 1 {
        ReadStrategy::Empty
    } else if length <= SMALL_RESPONSE_THRESHOLD {
        ReadStrategy::Fixed
    } else if length <= MEDIUM_RESPONSE_THRESHOLD {
        ReadStrategy::Chunked(16384)
    } else if length <= LARGE_RESPONSE_THRESHOLD {
        ReadStrategy::Chunked(65536)
    } else {
        ReadStrategy::Chunked(262144)
    }
}

/// The progress of a payload read, as plain values.
pub struct ReadProgress {
    pub expected: nat,
    pub chunk: nat,
    pub received: Seq<u8>,
    pub done: bool,
    pub error: Option<ClientError>,
}

/// The progress before the first read of a payload of this length.
pub open spec fn initial_progress(length: u32) -> ReadProgress {
    ReadProgress {
        expected: payload_len(length),
        chunk: strategy_chunk(strategy_for(length)),
        received: Seq::empty(),
        done: payload_len(length) == 0,
        error: None,
    }
}

/// How many bytes the next read asks for: the chunk size or what is left,
/// whichever is smaller; none once the read is over.
pub open spec fn next_len(p: ReadProgress) -> nat {
    if p.done {
        0
    } else if p.chunk <= p.expected - p.received.len() {
        p.chunk
    } else {
        (p.expected - p.received.len()) as nat
    }
}

/// The progress after a read delivered `data`: the bytes are kept, and the
/// read is over on end of stream, on a read shorter than asked, or when all
/// bytes have come.
pub open spec fn after_data(p: ReadProgress, data: Seq<u8>) -> ReadProgress {
    let received = p.received + data;
    ReadProgress {
        received,
        done: data.len() == 0 || data.len() < next_len(p) || received.len() >= p.expected,
        ..p
    }
}

/// The progress after a read failed: the read is over, and it fails only
/// when nothing had been received.
pub open spec fn after_error(p: ReadProgress, e: ClientError) -> ReadProgress {
    ReadProgress {
        done: true,
        error: if p.received.len() == 0 {
            Some(e)
        } else {
            None
        },
        ..p
    }
}

/// What a finished read returns.
pub open spec fn read_outcome(p: ReadProgress) -> Result<Seq<u8>, ClientError> {
    match p.error {
        Some(e) => Err(e),
        None => Ok(p.received),
    }
}

/// The progress after a peer that sends `delivered` and then ends the
/// stream has answered every read, each with as many of the remaining bytes
/// as were asked for.
pub open spec fn progress_on(p: ReadProgress, delivered: Seq<u8>) -> ReadProgress
    decreases delivered.len(), if p.done {
        0int
    } else {
        1int
    },
{
    if p.done {
        p
    } else {
        let k = if next_len(p) <= delivered.len() {
            next_len(p)
        } else {
            delivered.len()
        };
        if k == 0 {
            after_data(p, Seq::empty())
        } else {
            progress_on(after_data(p, delivered.subrange(0, k as int)), delivered.subrange(k as int, delivered.len() as int))
        }
    }
}

/// Well-formed progress: never more bytes than expected, a positive chunk,
/// and no error while the read goes on.
pub open spec fn progress_wf(p: ReadProgress) -> bool {
    &&& p.received.len() <= p.expected
    &&& p.chunk > 0
    &&& (!p.done ==> p.error is None && p.received.len() < p.expected)
}

proof fn lemma_progress_on_prefix(p: ReadProgress, delivered: Seq<u8>)
    requires
        progress_wf(p),
        !p.done,
    ensures
        progress_on(p, delivered).error is None,
        progress_on(p, delivered).received == p.received + delivered.subrange(
            0,
            if p.expected - p.received.len() <= delivered.len() {
                p.expected - p.received.len()
            } else {
                delivered.len() as int
            },
        ),
    decreases delivered.len(),
{
    let rest = p.expected - p.received.len();
    let m = if rest <= delivered.len() { rest } else { delivered.len() as int };
    let k = if next_len(p) <= delivered.len() {
        next_len(p)
    } else {
        delivered.len()
    };
    assert(next_len(p) > 0);
    if k == 0 {
        assert(progress_on(p, delivered) == after_data(p, Seq::empty()));
        assert(delivered.subrange(0, m) =~= Seq::<u8>::empty());
        assert(p.received + Seq::<u8>::empty() =~= p.received);
    } else {
        let d = delivered.subrange(0, k as int);
        let tail = delivered.subrange(k as int, delivered.len() as int);
        let q = after_data(p, d);
        assert(progress_on(p, delivered) == progress_on(q, tail));
        if q.done {
            assert(progress_on(q, tail) == q);
            assert(k == m);
            assert(delivered.subrange(0, m) =~= d);
        } else {
            assert(progress_wf(q));
            lemma_progress_on_prefix(q, tail);
            let rest2 = q.expected - q.received.len();
            let m2 = if rest2 <= tail.len() { rest2 } else { tail.len() as int };
            assert(m == k + m2);
            assert(q.received + tail.subrange(0, m2) =~= p.received + delivered.subrange(0, m));
        }
    }
}

/// A successful response of declared length `length` yields exactly the
/// first bytes that followed its header, as many as were announced or as
/// many as the peer delivered, whichever is fewer; a length of at most one
/// yields none.
pub proof fn lemma_payload_is_delivered_prefix(length: u32, delivered: Seq<u8>)
    ensures
        read_outcome(progress_on(initial_progress(length), delivered)) == Ok::<Seq<u8>, ClientError>(
            delivered.subrange(
                0,
                if payload_len(length) <= delivered.len() {
                    payload_len(length) as int
                } else {
                    delivered.len() as int
                },
            ),
        ),
{
    let p = initial_progress(length);
    if payload_len(length) == 0 {
        assert(delivered.subrange(0, 0) =~= Seq::<u8>::empty());
    } else {
        lemma_progress_on_prefix(p, delivered);
        assert(Seq::<u8>::empty() + delivered.subrange(0, if payload_len(length) <= delivered.len() { payload_len(length) as int } else { delivered.len() as int }) =~= delivered.subrange(0, if payload_len(length) <= delivered.len() { payload_len(length) as int } else { delivered.len() as int }));
    }
}

/// What the status of a response header means: success for zero, and the
/// command-specific error that the status names otherwise.
pub open spec fn status_result(status: u32) -> Result<(), ClientError> {
    if status == 0 {
        Ok(())
    } else {
        Err(ClientError::Status(status))
    }
}

/// The status with which the server reports that a topic of that name
/// already exists.
pub const TOPIC_NAME_ALREADY_EXISTS: u32 = 4011;

/// The error statuses of the already-exists kind: expected outcomes that are
/// logged at debug level rather than as errors.
pub open spec fn already_exists_status(status: u32) -> bool {
    status == TOPIC_NAME_ALREADY_EXISTS
}

/// Whether an error status is of the already-exists kind.
pub fn is_already_exists_status(status: u32) -> (r: bool)
    ensures
        r == already_exists_status(status),
{
    status == TOPIC_NAME_ALREADY_EXISTS
}

/// Reads the payload of a successful response step by step: the caller
/// asks how many bytes to read next, reads them, and hands back what came.
pub struct PayloadReader {
    expected: usize,
    chunk: usize,
    received: Vec<u8>,
    done: bool,
    error: Option<ClientError>,
}

impl View for PayloadReader {
    type V = ReadProgress;

    closed spec fn view(&self) -> ReadProgress {
        ReadProgress {
            expected: self.expected as nat,
            chunk: self.chunk as nat,
            received: self.received@,
            done: self.done,
            error: self.error,
        }
    }
}

impl PayloadReader {
    /// The reader's progress is well formed.
    pub closed spec fn wf(&self) -> bool {
        progress_wf(self@)
    }

    /// A reader for a payload of declared length `length`.
    pub fn new(length: u32) -> (r: PayloadReader)
        ensures
            r@ == initial_progress(length),
            r.wf(),
    {
        let strategy = read_strategy(length);
        let chunk: usize = match strategy {
            ReadStrategy::Chunked(c) => c as usize,
            _ => SMALL_RESPONSE_THRESHOLD as usize,
        };
        let expected: usize = if length <= 1 {
            0
        } else {
            length as usize
        };
        PayloadReader { expected, chunk, received: Vec::new(), done: expected == 0, error: None }
    }

    /// Whether the read is over.
    pub fn is_done(&self) -> (r: bool)
        ensures
            r == self@.done,
    {
        self.done
    }

    /// How many bytes the next read asks for; zero once the read is over.
    pub fn next_read_len(&self) -> (r: usize)
        requires
            self.wf(),
        ensures
            r == next_len(self@),
    {
        if self.done {
            0
        } else {
            let rest = self.expected - self.received.len();
            if self.chunk <= rest {
                self.chunk
            } else {
                rest
            }
        }
    }

    /// Takes the bytes that the last read delivered.
    pub fn on_data(&mut self, data: &[u8])
        requires
            old(self).wf(),
            !old(self)@.done,
            data@.len() <= next_len(old(self)@),
        ensures
            final(self).wf(),
            final(self)@ == after_data(old(self)@, data@),
    {
        let asked = self.next_read_len();
        let mut i: usize = 0;
        while i < data.len()
            invariant
                i <= data@.len(),
                self.received@ == old(self).received@ + data@.subrange(0, i as int),
                self.expected == old(self).expected,
                self.chunk == old(self).chunk,
                self.done == old(self).done,
                self.error == old(self).error,
            decreases data@.len() - i,
        {
            self.received.push(data[i]);
            i = i + 1;
            assert(self.received@ =~= old(self).received@ + data@.subrange(0, i as int));
        }
        assert(data@.subrange(0, i as int) =~= data@);
        self.done = data.len() == 0 || data.len() < asked || self.received.len() >= self.expected;
    }

    /// Takes the error that the last read failed with.
    pub fn on_error(&mut self, e: ClientError)
        requires
            old(self).wf(),
            !old(self)@.done,
        ensures
            final(self).wf(),
            final(self)@ == after_error(old(self)@, e),
    {
        self.done = true;
        if self.received.len() == 0 {
            self.error = Some(e);
        }
    }

    /// The payload read, or the error when a read failed before any byte
    /// came.
    pub fn into_result(self) -> (r: Result<Vec<u8>, ClientError>)
        requires
            self@.done,
        ensures
            match r {
                Ok(v) => read_outcome(self@) == Ok::<Seq<u8>, ClientError>(v@),
                Err(e) => read_outcome(self@) == Err::<Seq<u8>, ClientError>(e),
            },
    {
        match self.error {
            Some(e) => Err(e),
            None => Ok(self.received),
        }
    }
}

/// Handles a decoded response header: a non-zero status is returned as
/// the error it names, and a zero status gives the reader for the payload.
pub fn handle_response(status: u32, length: u32) -> (r: Result<PayloadReader, ClientError>)
    ensures
        match r {
            Ok(reader) => status_result(status) is Ok && reader@ == initial_progress(length)
                && reader.wf(),
            Err(e) => status_result(status) == Err::<(), ClientError>(e),
        },
{
    if status != 0 {
        return Err(ClientError::Status(status));
    }
    Ok(PayloadReader::new(length))
}

} // verus!
