//! The bidirectional relay, modelled one direction at a time. A `Direction`
//! accounts for one copy stream (inbound→outbound or outbound→inbound): every
//! chunk read from the source is handed to `forward_chunk`, which returns the
//! exact bytes to write to the sink and extends the direction's transcript.
//! Each direction ends independently, on end-of-stream or on an I/O error,
//! and the session's outcome can only be formed once both have ended — the
//! join that gives the relay its half-close semantics.
use vstd::prelude::*;

verus! {

/// Whether one copy direction is still running, ended at end-of-stream, or
/// ended on an I/O error.
#[derive(Debug, PartialEq, Eq, Structural, Clone, Copy)]
pub enum DirStatus {
    Open,
    Eof,
    Failed,
}

/// The mathematical state of one copy direction: its status and the exact
/// sequence of bytes forwarded so far.
pub struct DirModel {
    pub status: DirStatus,
    pub transcript: Seq<u8>,
}

/// Forwarding a chunk appends it, unchanged and in order, to the transcript.
pub open spec fn spec_forward(d: DirModel, chunk: Seq<u8>) -> DirModel {
    DirModel { status: d.status, transcript: d.transcript + chunk }
}

/// The relay session is over only when neither direction is still open.
pub open spec fn spec_relay_closed(a: DirModel, b: DirModel) -> bool {
    a.status != DirStatus::Open && b.status != DirStatus::Open
}

/// One copy direction of a live relay.
pub struct Direction {
    pub status: DirStatus,
    pub bytes_copied: u64,
    pub transcript: Ghost<Seq<u8>>,
}

impl View for Direction {
    type V = DirModel;

    open spec fn view(&self) -> DirModel {
        DirModel { status: self.status, transcript: self.transcript@ }
    }
}

impl Direction {
    /// The byte counter matches the transcript it accounts for.
    pub open spec fn wf(self) -> bool {
        self.transcript@.len() == self.bytes_copied
    }

    /// A direction starts open with nothing forwarded.
    pub fn new() -> (d: Direction)
        ensures
            d.wf(),
            d@ == (DirModel { status: DirStatus::Open, transcript: Seq::<u8>::empty() }),
            d.bytes_copied == 0,
    {
        Direction { status: DirStatus::Open, bytes_copied: 0, transcript: Ghost(Seq::empty()) }
    }

    /// Hands one chunk read from the source on to the sink: the returned
    /// bytes are exactly the chunk, nothing added, dropped or reordered, and
    /// the transcript grows by exactly that chunk.
    pub fn forward_chunk(&mut self, chunk: &Vec<u8>) -> (out: Vec<u8>)
        requires
            old(self).wf(),
            old(self).status == DirStatus::Open,
            old(self).bytes_copied + chunk@.len() <= u64::MAX,
        ensures
            final(self).wf(),
            out@ == chunk@,
            final(self)@ == spec_forward(old(self)@, chunk@),
            final(self).bytes_copied == old(self).bytes_copied + chunk@.len(),
    {
        let mut out: Vec<u8> = Vec::new();
        let mut i: usize = 0;
        while i < chunk.len()
            invariant
                i <= chunk@.len(),
                out@.len() == i,
                forall|k: int| 0 <= k < i ==> out@[k] == chunk@[k],
            decreases chunk@.len() - i,
        {
            out.push(chunk[i]);
            i = i + 1;
        }
        proof {
            assert(out@ =~= chunk@);
        }
        self.bytes_copied = self.bytes_copied + chunk.len() as u64;
        self.transcript = Ghost(self.transcript@ + chunk@);
        out
    }

    /// The source reached end-of-stream: this direction is done, its
    /// transcript final.
    pub fn finish_eof(&mut self)
        requires
            old(self).wf(),
            old(self).status == DirStatus::Open,
        ensures
            final(self).wf(),
            final(self)@ == (DirModel { status: DirStatus::Eof, transcript: old(self)@.transcript }),
            final(self).bytes_copied == old(self).bytes_copied,
    {
        self.status = DirStatus::Eof;
    }

    /// A read or write failed: this direction is done, its transcript final;
    /// the failure is contained here and says nothing of the other direction.
    pub fn finish_error(&mut self)
        requires
            old(self).wf(),
            old(self).status == DirStatus::Open,
        ensures
            final(self).wf(),
            final(self)@ == (DirModel { status: DirStatus::Failed, transcript: old(self)@.transcript }),
            final(self).bytes_copied == old(self).bytes_copied,
    {
        self.status = DirStatus::Failed;
    }

    /// Whether this direction still runs.
    pub fn is_open(&self) -> (b: bool)
        ensures
            b == (self@.status == DirStatus::Open),
    {
        matches!(self.status, DirStatus::Open)
    }
}

/// How one direction ended: cleanly after the given number of bytes, or on an
/// I/O error after the given number of bytes.
#[derive(Debug, PartialEq, Eq, Structural, Clone, Copy)]
pub enum DirOutcome {
    Done(u64),
    Failed(u64),
}

/// The disposition of a finished relay session: one independent result per
/// direction, used only for logging, never retried.
pub struct RelayOutcome {
    pub inbound_to_outbound: DirOutcome,
    pub outbound_to_inbound: DirOutcome,
}

/// What a finished direction reports.
pub open spec fn spec_dir_outcome(d: Direction) -> DirOutcome {
    if d.status == DirStatus::Eof {
        DirOutcome::Done(d.bytes_copied)
    } else {
        DirOutcome::Failed(d.bytes_copied)
    }
}

/// Joins the two directions into the session's outcome. Both must have ended:
/// the relay waits for both copies (a join, not a race), so one direction's
/// end-of-stream never cuts the other short.
pub fn relay_outcome(inbound_to_outbound: &Direction, outbound_to_inbound: &Direction) -> (r: RelayOutcome)
    requires
        spec_relay_closed(inbound_to_outbound@, outbound_to_inbound@),
    ensures
        r.inbound_to_outbound == spec_dir_outcome(*inbound_to_outbound),
        r.outbound_to_inbound == spec_dir_outcome(*outbound_to_inbound),
{
    let a = if matches!(inbound_to_outbound.status, DirStatus::Eof) {
        DirOutcome::Done(inbound_to_outbound.bytes_copied)
    } else {
        DirOutcome::Failed(inbound_to_outbound.bytes_copied)
    };
    let b = if matches!(outbound_to_inbound.status, DirStatus::Eof) {
        DirOutcome::Done(outbound_to_inbound.bytes_copied)
    } else {
        DirOutcome::Failed(outbound_to_inbound.bytes_copied)
    };
    RelayOutcome { inbound_to_outbound: a, outbound_to_inbound: b }
}

/// The concatenation of a sequence of chunks, in order.
pub open spec fn concat_chunks(chunks: Seq<Seq<u8>>) -> Seq<u8>
    decreases chunks.len(),
{
    if chunks.len() == 0 {
        Seq::empty()
    } else {
        concat_chunks(chunks.drop_last()) + chunks.last()
    }
}

/// A whole run of one direction: every chunk forwarded, first to last.
pub open spec fn spec_forward_all(d: DirModel, chunks: Seq<Seq<u8>>) -> DirModel
    decreases chunks.len(),
{
    if chunks.len() == 0 {
        d
    } else {
        spec_forward(spec_forward_all(d, chunks.drop_last()), chunks.last())
    }
}

/// Relay byte-exactness: however a byte sequence is cut into chunks, the
/// sink receives exactly the concatenation of those chunks, in order — no
/// byte added, dropped, duplicated or reordered — and forwarding never ends
/// the direction by itself.
pub proof fn lemma_relay_byte_exact(d: DirModel, chunks: Seq<Seq<u8>>)
    ensures
        spec_forward_all(d, chunks).transcript =~= d.transcript + concat_chunks(chunks),
        spec_forward_all(d, chunks).status == d.status,
    decreases chunks.len(),
{
    if chunks.len() == 0 {
        assert(d.transcript + concat_chunks(chunks) =~= d.transcript);
    } else {
        lemma_relay_byte_exact(d, chunks.drop_last());
    }
}

/// Half-close independence: one direction reaching end-of-stream does not
/// close the session, and the still-open direction keeps forwarding exactly
/// what it reads; a client that half-closes after its request still receives
/// the whole response.
pub proof fn lemma_half_close_independence(done: DirModel, open_dir: DirModel, chunk: Seq<u8>)
    requires
        done.status == DirStatus::Eof,
        open_dir.status == DirStatus::Open,
    ensures
        !spec_relay_closed(done, open_dir),
        spec_forward(open_dir, chunk).transcript == open_dir.transcript + chunk,
        spec_forward(open_dir, chunk).status == DirStatus::Open,
{
}

} // verus!
