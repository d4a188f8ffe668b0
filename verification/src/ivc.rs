//! Framing of message batches for a mailbox of small fixed frames.
//!
//! A batch of at most `MAX_BATCH` bytes travels as a train of frames. Each frame
//! starts with two little-endian 16-bit numbers, the length of the whole batch and
//! the offset of the frame's payload in it; up to `MAX_PAYLOAD` payload bytes follow.
//! [`fragment`] cuts a batch into its train and [`Reassembler`] puts trains back
//! together. The channel is assumed to keep frame boundaries and order.

use vstd::prelude::*;

verus! {

/// Largest frame that the mailbox carries, in bytes.
pub const FRAME_SIZE: usize = 64;

/// Length of the header at the start of each frame, in bytes.
pub const HEADER_SIZE: usize = 4;

/// Payload bytes that fit behind the header.
pub const MAX_PAYLOAD: usize = FRAME_SIZE - HEADER_SIZE;

/// Longest batch that may be sent, in bytes.
pub const MAX_BATCH: usize = 2048;

// ---------------------------------------------------------------------------
// The wire format
// ---------------------------------------------------------------------------

/// The number that two bytes stand for, low byte first.
pub open spec fn le16(lo: u8, hi: u8) -> int {
    lo + 256 * hi
}

/// Batch length that a frame announces.
pub open spec fn frame_total(frame: Seq<u8>) -> int {
    le16(frame[0], frame[1])
}

/// Place of a frame's payload in its batch.
pub open spec fn frame_offset(frame: Seq<u8>) -> int {
    le16(frame[2], frame[3])
}

/// What a frame carries behind its header.
pub open spec fn frame_payload(frame: Seq<u8>) -> Seq<u8> {
    frame.skip(HEADER_SIZE as int)
}

/// A frame of four zero header bytes tells only that the peer is alive.
pub open spec fn is_keep_alive(frame: Seq<u8>) -> bool {
    frame.len() >= HEADER_SIZE && frame_total(frame) == 0 && frame_offset(frame) == 0
}

/// The frame with this header and payload.
pub open spec fn make_frame(total: int, offset: int, payload: Seq<u8>) -> Seq<u8> {
    seq![
        (total % 256) as u8,
        (total / 256) as u8,
        (offset % 256) as u8,
        (offset / 256) as u8,
    ] + payload
}

/// Number of frames that a batch of this length takes: one for each `MAX_PAYLOAD` bytes,
/// and one for what is left.
pub open spec fn frame_count(len: int) -> int {
    (len + 59) / 60
}

/// End of the payload that starts at `offset` in a batch of length `len`.
pub open spec fn payload_end(len: int, offset: int) -> int {
    if len - offset < 60 {
        len
    } else {
        offset + 60
    }
}

/// The `k`-th frame of a batch's train.
pub open spec fn nth_frame(batch: Seq<u8>, k: int) -> Seq<u8> {
    let offset = k * 60;
    make_frame(
        batch.len() as int,
        offset,
        batch.subrange(offset, payload_end(batch.len() as int, offset)),
    )
}

/// All frames of a batch, in the order in which they are sent.
pub open spec fn frame_train(batch: Seq<u8>) -> Seq<Seq<u8>> {
    Seq::new(frame_count(batch.len() as int) as nat, |k: int| nth_frame(batch, k))
}

// ---------------------------------------------------------------------------
// Sending
// ---------------------------------------------------------------------------

/// The batch is not too long.
pub open spec fn sendable(batch: Seq<u8>) -> bool {
    batch.len() <= MAX_BATCH
}

/// A batch was longer than `MAX_BATCH`.
#[derive(Clone, Copy, Debug, PartialEq, Eq, Structural)]
pub struct BatchTooLong;

/// One frame, as bytes.
fn encode_frame(total: u16, offset: u16, batch: &[u8], from: usize, to: usize) -> (frame: Vec<u8>)
    requires
        from <= to <= batch@.len(),
    ensures
        frame@ == make_frame(total as int, offset as int, batch@.subrange(from as int, to as int)),
{
    let mut frame: Vec<u8> = Vec::new();
    frame.push((total % 256) as u8);
    frame.push((total / 256) as u8);
    frame.push((offset % 256) as u8);
    frame.push((offset / 256) as u8);
    let ghost header = frame@;
    let mut i: usize = from;
    while i < to
        invariant
            from <= i <= to <= batch@.len(),
            frame@ == header + batch@.subrange(from as int, i as int),
        decreases to - i,
    {
        frame.push(batch[i]);
        i = i + 1;
    }
    frame
}

/// Cuts a batch into its frame train. A batch longer than `MAX_BATCH` is refused; an
/// empty batch takes no frame.
pub fn fragment(batch: &[u8]) -> (result: Result<Vec<Vec<u8>>, BatchTooLong>)
    ensures
        result is Err <==> batch@.len() > MAX_BATCH,
        result is Ok <==> sendable(batch@),
        result matches Ok(frames) ==> frames.deep_view() == frame_train(batch@),
{
    if batch.len() > MAX_BATCH {
        return Err(BatchTooLong);
    }
    let total: u16 = batch.len() as u16;
    let mut frames: Vec<Vec<u8>> = Vec::new();
    let mut offset: usize = 0;
    while offset < batch.len()
        invariant
            batch@.len() <= MAX_BATCH,
            total == batch@.len(),
            offset <= batch@.len(),
            offset == batch@.len() || offset == frames@.len() * 60,
            frames@.len() == frame_count(offset as int),
            forall|k: int| 0 <= k < frames@.len() ==> #[trigger] frames@[k]@ == nth_frame(
                batch@,
                k,
            ),
        decreases batch@.len() - offset,
    {
        let left: usize = batch.len() - offset;
        let chunk: usize = if left < MAX_PAYLOAD { left } else { MAX_PAYLOAD };
        let frame = encode_frame(total, offset as u16, batch, offset, offset + chunk);
        assert(frame@ == nth_frame(batch@, frames@.len() as int));
        frames.push(frame);
        offset = offset + chunk;
    }
    assert(frames.deep_view() =~= frame_train(batch@)) by {
        assert forall|k: int| 0 <= k < frames@.len() implies frames.deep_view()[k]
            == frame_train(batch@)[k] by {
            assert(frames.deep_view()[k] =~= frames@[k]@);
        }
    }
    Ok(frames)
}

// ---------------------------------------------------------------------------
// Receiving
// ---------------------------------------------------------------------------

/// What a reassembler remembers between two frames.
#[verifier::ext_equal]
pub struct Reassembly {
    /// Bytes written so far; those not yet written in this batch are left over from
    /// earlier ones.
    pub buffer: Seq<u8>,
    /// Length of the batch under way, 0 between batches.
    pub expected: int,
    /// Payload bytes taken for the batch under way.
    pub received: int,
}

/// What became of one frame.
#[verifier::ext_equal]
pub enum Outcome {
    /// Shorter than a header: the batch under way is abandoned.
    Runt,
    /// Keep-alive: nothing changes.
    KeepAlive,
    /// The announced length exceeds `MAX_BATCH`: the batch under way is abandoned.
    Oversized,
    /// The first bytes of a batch do not belong at its start: they are dropped.
    Misplaced,
    /// The payload reaches beyond the end of the batch: the batch is abandoned.
    Overrun,
    /// The payload was stored, and more is to come.
    Partial,
    /// The payload was stored and completed this batch.
    Complete(Seq<u8>),
}

impl Reassembly {
    /// Between batches nothing is counted, and a batch under way fits in the buffer.
    pub open spec fn wf(self) -> bool {
        &&& self.buffer.len() == MAX_BATCH
        &&& 0 <= self.expected <= MAX_BATCH
        &&& 0 <= self.received <= u16::MAX
        &&& self.expected == 0 ==> self.received == 0
    }

    /// No batch is under way.
    pub open spec fn idle(self) -> bool {
        self.expected == 0 && self.received == 0
    }

    /// The same buffer with no batch under way.
    pub open spec fn reset(self) -> Reassembly {
        Reassembly { buffer: self.buffer, expected: 0, received: 0 }
    }

    /// The state in which a frame of a batch of length `total` is taken: the batch under
    /// way if its length is the same, else a new one.
    pub open spec fn in_batch(self, total: int) -> Reassembly {
        if self.expected == total {
            self
        } else {
            Reassembly { buffer: self.buffer, expected: total, received: 0 }
        }
    }

    /// The payload copied to its place.
    pub open spec fn stored(self, offset: int, payload: Seq<u8>) -> Seq<u8> {
        self.buffer.take(offset) + payload + self.buffer.skip(offset + payload.len())
    }

    /// State and outcome after one more frame.
    pub open spec fn after(self, frame: Seq<u8>) -> (Reassembly, Outcome) {
        let total = frame_total(frame);
        let offset = frame_offset(frame);
        let payload = frame_payload(frame);
        let batch = self.in_batch(total);
        if frame.len() < HEADER_SIZE {
            (self.reset(), Outcome::Runt)
        } else if is_keep_alive(frame) {
            (self, Outcome::KeepAlive)
        } else if total > MAX_BATCH {
            (self.reset(), Outcome::Oversized)
        } else if batch.received == 0 && offset != 0 {
            (self.reset(), Outcome::Misplaced)
        } else if offset + payload.len() > total {
            (self.reset(), Outcome::Overrun)
        } else {
            let buffer = self.stored(offset, payload);
            let received = batch.received + payload.len();
            if received == total {
                (
                    Reassembly { buffer, expected: 0, received: 0 },
                    Outcome::Complete(buffer.take(total)),
                )
            } else {
                (Reassembly { buffer, expected: total, received }, Outcome::Partial)
            }
        }
    }

    /// The frame can be handled in 16-bit arithmetic. Only a frame that continues a batch
    /// can fail this: its payload would end beyond offset `u16::MAX`, or repeated payloads
    /// would bring the count of received bytes beyond it.
    pub open spec fn accepts(self, frame: Seq<u8>) -> bool {
        let end = frame_offset(frame) + frame_payload(frame).len();
        (frame.len() >= HEADER_SIZE && frame_total(frame) == self.expected && self.received > 0)
            ==> {
            &&& end <= u16::MAX
            &&& end <= self.expected ==> self.received + frame_payload(frame).len() <= u16::MAX
        }
    }

    /// The frame is neither too short nor a keep-alive nor of too long a batch, and belongs
    /// to another batch than the one under way.
    pub open spec fn changed_by(self, frame: Seq<u8>) -> bool {
        &&& frame.len() >= HEADER_SIZE
        &&& !is_keep_alive(frame)
        &&& frame_total(frame) <= MAX_BATCH
        &&& self.expected != 0
        &&& frame_total(frame) != self.expected
    }

    /// State and outcomes after several frames.
    pub open spec fn after_all(self, frames: Seq<Seq<u8>>) -> (Reassembly, Seq<Outcome>)
        decreases frames.len(),
    {
        if frames.len() == 0 {
            (self, seq![])
        } else {
            let (before, outcomes) = self.after_all(frames.drop_last());
            let (state, outcome) = before.after(frames.last());
            (state, outcomes.push(outcome))
        }
    }

    /// Each frame can be handled in the state that it meets.
    pub open spec fn accepts_all(self, frames: Seq<Seq<u8>>) -> bool {
        forall|k: int|
            0 <= k < frames.len() ==> self.after_all(frames.take(k)).0.accepts(#[trigger] frames[k])
    }
}

/// What became of one frame.
#[derive(Debug, PartialEq, Eq)]
pub enum Receipt {
    /// The frame is shorter than a header.
    Runt,
    /// The frame is a keep-alive.
    KeepAlive,
    /// The frame announces a batch of this many bytes, more than `MAX_BATCH`.
    Oversized { total: u16 },
    /// The first payload of a batch starts at this offset instead of 0.
    Misplaced { offset: u16 },
    /// The payload reaches beyond the end of the batch.
    Overrun { offset: u16, payload: u16, total: u16 },
    /// More frames of this batch are to come.
    Partial,
    /// The batch is complete.
    Complete(Vec<u8>),
}

impl View for Receipt {
    type V = Outcome;

    open spec fn view(&self) -> Outcome {
        match self {
            Receipt::Runt => Outcome::Runt,
            Receipt::KeepAlive => Outcome::KeepAlive,
            Receipt::Oversized { .. } => Outcome::Oversized,
            Receipt::Misplaced { .. } => Outcome::Misplaced,
            Receipt::Overrun { .. } => Outcome::Overrun,
            Receipt::Partial => Outcome::Partial,
            Receipt::Complete(batch) => Outcome::Complete(batch@),
        }
    }
}

impl Receipt {
    /// The numbers in a refusal are those of the refused frame.
    pub open spec fn describes(self, frame: Seq<u8>) -> bool {
        match self {
            Receipt::Oversized { total } => total == frame_total(frame),
            Receipt::Misplaced { offset } => offset == frame_offset(frame),
            Receipt::Overrun { offset, payload, total } => {
                &&& offset == frame_offset(frame)
                &&& payload == frame_payload(frame).len()
                &&& total == frame_total(frame)
            },
            _ => true,
        }
    }
}

/// Puts frame trains back together into batches.
#[derive(Debug)]
pub struct Reassembler {
    buffer: Vec<u8>,
    expected: u16,
    received: u16,
}

impl View for Reassembler {
    type V = Reassembly;

    closed spec fn view(&self) -> Reassembly {
        Reassembly {
            buffer: self.buffer@,
            expected: self.expected as int,
            received: self.received as int,
        }
    }
}

/// The 16-bit number in two bytes, low byte first.
fn read_le16(lo: u8, hi: u8) -> (number: u16)
    ensures
        number == le16(lo, hi),
{
    lo as u16 + 256 * (hi as u16)
}

/// The batch length that a frame announces.
pub fn announced_total(frame: &[u8]) -> (total: u16)
    requires
        frame@.len() >= HEADER_SIZE,
    ensures
        total == frame_total(frame@),
{
    read_le16(frame[0], frame[1])
}

impl Reassembler {
    /// A reassembler between batches, with a zeroed buffer.
    pub fn new() -> (reassembler: Reassembler)
        ensures
            reassembler@.wf(),
            reassembler@.idle(),
            reassembler@.buffer == Seq::new(MAX_BATCH as nat, |i: int| 0u8),
    {
        let mut buffer: Vec<u8> = Vec::new();
        let mut i: usize = 0;
        while i < MAX_BATCH
            invariant
                i <= MAX_BATCH,
                buffer@ == Seq::new(i as nat, |i: int| 0u8),
            decreases MAX_BATCH - i,
        {
            buffer.push(0);
            i = i + 1;
        }
        Reassembler { buffer, expected: 0, received: 0 }
    }

    /// Length of the batch under way, 0 between batches.
    pub fn expected_total(&self) -> (expected: u16)
        ensures
            expected == self@.expected,
    {
        self.expected
    }

    /// Whether the frame belongs to another batch than the one under way, which it then
    /// ends before its time.
    pub fn changes_batch(&self, frame: &[u8]) -> (r: bool)
        ensures
            r == self@.changed_by(frame@),
    {
        if frame.len() < HEADER_SIZE {
            return false;
        }
        let total: u16 = read_le16(frame[0], frame[1]);
        let offset: u16 = read_le16(frame[2], frame[3]);
        if total == 0 && offset == 0 {
            return false;
        }
        total as usize <= MAX_BATCH && self.expected != 0 && total != self.expected
    }

    /// Whether [`Reassembler::receive`] may be called with this frame.
    pub fn can_receive(&self, frame: &[u8]) -> (can: bool)
        requires
            self@.wf(),
            frame@.len() <= FRAME_SIZE,
        ensures
            can == self@.accepts(frame@),
    {
        if frame.len() < HEADER_SIZE {
            return true;
        }
        let total: u16 = read_le16(frame[0], frame[1]);
        let offset: u16 = read_le16(frame[2], frame[3]);
        let payload: u16 = (frame.len() - HEADER_SIZE) as u16;
        if total != self.expected || self.received == 0 {
            return true;
        }
        if offset > u16::MAX - payload {
            return false;
        }
        offset + payload > self.expected || self.received <= u16::MAX - payload
    }

    /// Takes one frame. A keep-alive changes nothing. A frame that is too short, announces
    /// too long a batch, opens a batch elsewhere than at its start or reaches beyond its
    /// end abandons the batch under way, and nothing of it is handed on. A frame of
    /// another total length abandons the batch under way and opens a new one. The batch is
    /// handed on once as many bytes as it announces have been received.
    pub fn receive(&mut self, frame: &[u8]) -> (receipt: Receipt)
        requires
            old(self)@.wf(),
            frame@.len() <= FRAME_SIZE,
            old(self)@.accepts(frame@),
        ensures
            final(self)@.wf(),
            (final(self)@, receipt@) == old(self)@.after(frame@),
            receipt.describes(frame@),
    {
        let n: usize = frame.len();
        if n < HEADER_SIZE {
            self.expected = 0;
            self.received = 0;
            return Receipt::Runt;
        }
        let total: u16 = read_le16(frame[0], frame[1]);
        let offset: u16 = read_le16(frame[2], frame[3]);
        let payload: u16 = (n - HEADER_SIZE) as u16;
        if total == 0 && offset == 0 {
            return Receipt::KeepAlive;
        }
        if total as usize > MAX_BATCH {
            self.expected = 0;
            self.received = 0;
            return Receipt::Oversized { total };
        }
        if self.expected != total {
            self.expected = total;
            self.received = 0;
        }
        if self.received == 0 && offset != 0 {
            self.expected = 0;
            self.received = 0;
            return Receipt::Misplaced { offset };
        }
        if offset + payload > total {
            self.expected = 0;
            self.received = 0;
            return Receipt::Overrun { offset, payload, total };
        }
        let ghost buffer = self.buffer@;
        let ghost received = self.received;
        let mut i: usize = 0;
        while i < payload as usize
            invariant
                i <= payload,
                payload == n - HEADER_SIZE,
                n == frame@.len(),
                n <= FRAME_SIZE,
                buffer.len() == MAX_BATCH,
                offset + payload <= total <= MAX_BATCH,
                self.buffer@ =~= buffer.take(offset as int) + frame@.subrange(
                    HEADER_SIZE as int,
                    HEADER_SIZE + i,
                ) + buffer.skip(offset + i),
                self.expected == total,
                self.received == received,
            decreases payload - i,
        {
            self.buffer.set(offset as usize + i, frame[HEADER_SIZE + i]);
            i = i + 1;
        }
        self.received = self.received + payload;
        if self.received == total {
            let batch = self.copy_prefix(total as usize);
            self.expected = 0;
            self.received = 0;
            return Receipt::Complete(batch);
        }
        Receipt::Partial
    }

    /// The first `len` bytes of the buffer.
    fn copy_prefix(&self, len: usize) -> (prefix: Vec<u8>)
        requires
            len <= self@.buffer.len(),
        ensures
            prefix@ == self@.buffer.take(len as int),
    {
        let mut prefix: Vec<u8> = Vec::new();
        let mut i: usize = 0;
        while i < len
            invariant
                i <= len <= self.buffer@.len(),
                prefix@ == self.buffer@.take(i as int),
            decreases len - i,
        {
            prefix.push(self.buffer[i]);
            i = i + 1;
        }
        prefix
    }
}

// ---------------------------------------------------------------------------
// Laws
// ---------------------------------------------------------------------------

/// A frame holds the header and the payload that it was made with.
pub proof fn lemma_frame_fields(total: int, offset: int, payload: Seq<u8>)
    requires
        0 <= total <= u16::MAX,
        0 <= offset <= u16::MAX,
    ensures
        make_frame(total, offset, payload).len() == HEADER_SIZE + payload.len(),
        frame_total(make_frame(total, offset, payload)) == total,
        frame_offset(make_frame(total, offset, payload)) == offset,
        frame_payload(make_frame(total, offset, payload)) == payload,
{
    assert(frame_payload(make_frame(total, offset, payload)) =~= payload);
}

/// Every frame of a train fits in the mailbox and carries at least one payload byte, and
/// none is a keep-alive.
pub proof fn law_train_frames_fit(batch: Seq<u8>, k: int)
    requires
        batch.len() <= MAX_BATCH,
        0 <= k < frame_count(batch.len() as int),
    ensures
        HEADER_SIZE < nth_frame(batch, k).len() <= FRAME_SIZE,
        frame_total(nth_frame(batch, k)) == batch.len(),
        frame_offset(nth_frame(batch, k)) == k * 60,
        frame_payload(nth_frame(batch, k)) == batch.subrange(
            k * 60,
            payload_end(batch.len() as int, k * 60),
        ),
        !is_keep_alive(nth_frame(batch, k)),
{
    lemma_frame_fields(
        batch.len() as int,
        k * 60,
        batch.subrange(k * 60, payload_end(batch.len() as int, k * 60)),
    );
}

/// State after the first `k` frames of a train, `k` short of the whole train.
proof fn lemma_train_prefix(state: Reassembly, batch: Seq<u8>, k: int)
    requires
        state.wf(),
        1 <= batch.len() <= MAX_BATCH,
        state.expected != batch.len(),
        0 <= k < frame_count(batch.len() as int),
    ensures
        ({
            let (reached, outcomes) = state.after_all(frame_train(batch).take(k));
            &&& reached.wf()
            &&& reached.in_batch(batch.len() as int).received == k * 60
            &&& k > 0 ==> reached.expected == batch.len()
            &&& reached.buffer.take(k * 60) == batch.take(k * 60)
            &&& outcomes == Seq::new(k as nat, |i: int| Outcome::Partial)
            &&& reached.accepts(nth_frame(batch, k))
        }),
    decreases k,
{
    let train = frame_train(batch);
    law_train_frames_fit(batch, k);
    if k == 0 {
        assert(train.take(0) =~= seq![]);
        assert(state.buffer.take(0) =~= batch.take(0));
        assert(state.after_all(train.take(0)).1 =~= Seq::new(0, |i: int| Outcome::Partial));
    } else {
        lemma_train_prefix(state, batch, k - 1);
        law_train_frames_fit(batch, k - 1);
        assert(train.take(k).drop_last() =~= train.take(k - 1));
        assert(train.take(k).last() == nth_frame(batch, k - 1));
        let (before, outcomes) = state.after_all(train.take(k - 1));
        let (reached, outcome) = before.after(nth_frame(batch, k - 1));
        assert(reached.buffer.take(k * 60) =~= batch.take(k * 60)) by {
            assert forall|i: int| 0 <= i < k * 60 implies reached.buffer[i] == batch[i] by {
                if i < (k - 1) * 60 {
                    assert(before.buffer.take((k - 1) * 60)[i] == batch.take((k - 1) * 60)[i]);
                }
            }
        }
        assert(outcomes.push(outcome) =~= Seq::new(k as nat, |i: int| Outcome::Partial));
    }
}

proof fn lemma_train_is_accepted(state: Reassembly, batch: Seq<u8>)
    requires
        state.wf(),
        1 <= batch.len() <= MAX_BATCH,
        state.expected != batch.len(),
    ensures
        state.accepts_all(frame_train(batch)),
{
    let train = frame_train(batch);
    assert forall|k: int| 0 <= k < train.len() implies state.after_all(train.take(k)).0.accepts(
        #[trigger] train[k],
    ) by {
        lemma_train_prefix(state, batch, k);
    }
}

/// What was sent is received: the train of any batch, taken frame by frame, hands that
/// batch on with its last frame and nothing before, leaves the reassembler between
/// batches, and never exceeds 16-bit arithmetic. It is enough that no batch of the very
/// same length is under way.
#[verifier::spinoff_prover]
#[verifier::rlimit(80)]
pub proof fn law_train_delivers_batch(state: Reassembly, batch: Seq<u8>)
    requires
        state.wf(),
        1 <= batch.len() <= MAX_BATCH,
        state.expected != batch.len(),
    ensures
        state.accepts_all(frame_train(batch)),
        state.after_all(frame_train(batch)).0.wf(),
        state.after_all(frame_train(batch)).0.idle(),
        state.after_all(frame_train(batch)).1 == Seq::new(
            (frame_count(batch.len() as int) - 1) as nat,
            |i: int| Outcome::Partial,
        ).push(Outcome::Complete(batch)),
{
    let train = frame_train(batch);
    let last = frame_count(batch.len() as int) - 1;
    lemma_train_is_accepted(state, batch);
    lemma_train_prefix(state, batch, last);
    law_train_frames_fit(batch, last);
    assert(train.drop_last() =~= train.take(last));
    let (before, outcomes) = state.after_all(train.take(last));
    let (reached, outcome) = before.after(nth_frame(batch, last));
    assert(reached.buffer.take(batch.len() as int) =~= batch) by {
        assert forall|i: int| 0 <= i < batch.len() implies reached.buffer[i] == batch[i] by {
            if i < last * 60 {
                assert(before.buffer.take(last * 60)[i] == batch.take(last * 60)[i]);
            }
        }
    }
}

/// The batches that a run of outcomes handed on, in order.
pub open spec fn delivered(outcomes: Seq<Outcome>) -> Seq<Seq<u8>>
    decreases outcomes.len(),
{
    if outcomes.len() == 0 {
        seq![]
    } else {
        let before = delivered(outcomes.drop_last());
        match outcomes.last() {
            Outcome::Complete(batch) => before.push(batch),
            _ => before,
        }
    }
}

/// The trains of several batches, one behind the other.
pub open spec fn trains(batches: Seq<Seq<u8>>) -> Seq<Seq<u8>>
    decreases batches.len(),
{
    if batches.len() == 0 {
        seq![]
    } else {
        trains(batches.drop_last()) + frame_train(batches.last())
    }
}

proof fn lemma_after_all_concat(state: Reassembly, first: Seq<Seq<u8>>, second: Seq<Seq<u8>>)
    ensures
        state.after_all(first + second).0 == state.after_all(first).0.after_all(second).0,
        state.after_all(first + second).1 == state.after_all(first).1 + state.after_all(
            first,
        ).0.after_all(second).1,
    decreases second.len(),
{
    if second.len() == 0 {
        assert(first + second =~= first);
        assert(state.after_all(first).1 + seq![] =~= state.after_all(first).1);
    } else {
        lemma_after_all_concat(state, first, second.drop_last());
        assert((first + second).drop_last() =~= first + second.drop_last());
        assert(state.after_all(first + second).1 =~= state.after_all(first).1 + state.after_all(
            first,
        ).0.after_all(second).1);
    }
}

proof fn lemma_delivered_concat(first: Seq<Outcome>, second: Seq<Outcome>)
    ensures
        delivered(first + second) == delivered(first) + delivered(second),
    decreases second.len(),
{
    if second.len() == 0 {
        assert(first + second =~= first);
        assert(delivered(first) + seq![] =~= delivered(first));
    } else {
        lemma_delivered_concat(first, second.drop_last());
        assert((first + second).drop_last() =~= first + second.drop_last());
        assert(delivered(first + second) =~= delivered(first) + delivered(second));
    }
}

proof fn lemma_partials_deliver_nothing(n: nat)
    ensures
        delivered(Seq::new(n, |i: int| Outcome::Partial)) == Seq::<Seq<u8>>::empty(),
    decreases n,
{
    if n > 0 {
        lemma_partials_deliver_nothing((n - 1) as nat);
        assert(Seq::new(n, |i: int| Outcome::Partial).drop_last() =~= Seq::new(
            (n - 1) as nat,
            |i: int| Outcome::Partial,
        ));
    }
}

/// Frames that are accepted one behind the other are accepted as a whole.
proof fn lemma_accepts_all_concat(state: Reassembly, first: Seq<Seq<u8>>, second: Seq<Seq<u8>>)
    requires
        state.accepts_all(first),
        state.after_all(first).0.accepts_all(second),
    ensures
        state.accepts_all(first + second),
{
    let all = first + second;
    assert forall|k: int| 0 <= k < all.len() implies state.after_all(all.take(k)).0.accepts(
        #[trigger] all[k],
    ) by {
        if k < first.len() {
            assert(all.take(k) =~= first.take(k));
            assert(all[k] == first[k]);
        } else {
            let j = k - first.len();
            assert(all.take(k) =~= first + second.take(j));
            lemma_after_all_concat(state, first, second.take(j));
            assert(all[k] == second[j]);
        }
    }
}

proof fn lemma_trains_arrive_in_order(state: Reassembly, batches: Seq<Seq<u8>>)
    requires
        state.wf(),
        state.idle(),
        forall|i: int| 0 <= i < batches.len() ==> 1 <= (#[trigger] batches[i]).len() <= MAX_BATCH,
    ensures
        state.accepts_all(trains(batches)),
        state.after_all(trains(batches)).0.wf(),
        state.after_all(trains(batches)).0.idle(),
        delivered(state.after_all(trains(batches)).1) == batches,
    decreases batches.len(),
{
    if batches.len() == 0 {
        assert(delivered(seq![]) =~= batches);
    } else {
        let sent = trains(batches.drop_last());
        let batch = batches.last();
        assert forall|i: int| 0 <= i < batches.drop_last().len() implies 1 <= (
        #[trigger] batches.drop_last()[i]).len() <= MAX_BATCH by {
            assert(batches.drop_last()[i] == batches[i]);
        }
        lemma_trains_arrive_in_order(state, batches.drop_last());
        let reached = state.after_all(sent).0;
        law_train_delivers_batch(reached, batch);
        lemma_after_all_concat(state, sent, frame_train(batch));
        lemma_accepts_all_concat(state, sent, frame_train(batch));
        let partials = Seq::new(
            (frame_count(batch.len() as int) - 1) as nat,
            |i: int| Outcome::Partial,
        );
        let outcomes = reached.after_all(frame_train(batch)).1;
        lemma_partials_deliver_nothing((frame_count(batch.len() as int) - 1) as nat);
        assert(outcomes.drop_last() =~= partials);
        assert(delivered(outcomes) =~= seq![batch]);
        lemma_delivered_concat(state.after_all(sent).1, outcomes);
        assert(batches.drop_last() + seq![batch] =~= batches);
    }
}

/// The frames that are no keep-alives, in their order.
pub open spec fn without_keep_alives(frames: Seq<Seq<u8>>) -> Seq<Seq<u8>>
    decreases frames.len(),
{
    if frames.len() == 0 {
        seq![]
    } else if is_keep_alive(frames.last()) {
        without_keep_alives(frames.drop_last())
    } else {
        without_keep_alives(frames.drop_last()).push(frames.last())
    }
}

/// Keep-alives matter neither for the state nor for what is handed on.
proof fn lemma_keep_alives_do_not_matter(state: Reassembly, frames: Seq<Seq<u8>>)
    ensures
        state.after_all(frames).0 == state.after_all(without_keep_alives(frames)).0,
        delivered(state.after_all(frames).1) == delivered(
            state.after_all(without_keep_alives(frames)).1,
        ),
    decreases frames.len(),
{
    if frames.len() > 0 {
        let before = frames.drop_last();
        let kept = without_keep_alives(before);
        lemma_keep_alives_do_not_matter(state, before);
        let (reached, outcome) = state.after_all(before).0.after(frames.last());
        assert(state.after_all(frames).1.drop_last() =~= state.after_all(before).1);
        if !is_keep_alive(frames.last()) {
            let more = kept.push(frames.last());
            assert(more.drop_last() =~= kept);
            assert(state.after_all(more).1.drop_last() =~= state.after_all(kept).1);
        }
    }
}

/// Each frame of a run can be handled if those that are no keep-alives can.
proof fn lemma_keep_alives_are_accepted(state: Reassembly, frames: Seq<Seq<u8>>)
    requires
        state.wf(),
        state.accepts_all(without_keep_alives(frames)),
        forall|i: int| 0 <= i < frames.len() ==> (#[trigger] frames[i]).len() <= FRAME_SIZE,
    ensures
        state.accepts_all(frames),
        state.after_all(frames).0.wf(),
    decreases frames.len(),
{
    if frames.len() > 0 {
        let before = frames.drop_last();
        let last = frames.last();
        let kept = without_keep_alives(before);
        assert forall|i: int| 0 <= i < before.len() implies (#[trigger] before[i]).len()
            <= FRAME_SIZE by {
            assert(before[i] == frames[i]);
        }
        if !is_keep_alive(last) {
            let more = kept.push(last);
            assert(more == without_keep_alives(frames));
            assert forall|k: int| 0 <= k < kept.len() implies state.after_all(
                kept.take(k),
            ).0.accepts(#[trigger] kept[k]) by {
                assert(more.take(k) =~= kept.take(k));
                assert(more[k] == kept[k]);
            }
            assert(state.after_all(more.take(kept.len() as int)).0.accepts(
                more[kept.len() as int],
            ));
            assert(more.take(kept.len() as int) =~= kept);
        }
        lemma_keep_alives_are_accepted(state, before);
        lemma_keep_alives_do_not_matter(state, before);
        assert(state.after_all(before).0.accepts(last));
        assert forall|k: int| 0 <= k < frames.len() implies state.after_all(
            frames.take(k),
        ).0.accepts(#[trigger] frames[k]) by {
            if k < before.len() {
                assert(frames.take(k) =~= before.take(k));
                assert(frames[k] == before[k]);
            } else {
                assert(frames.take(k) =~= before);
            }
        }
        assert(last == frames[frames.len() - 1]);
        law_outcome_bounds(state.after_all(before).0, last);
    }
}

/// Batches sent one after the other arrive complete, unaltered and in the same order, and
/// 16-bit arithmetic suffices, wherever keep-alives come in between.
pub proof fn law_batches_arrive_in_order(
    state: Reassembly,
    batches: Seq<Seq<u8>>,
    frames: Seq<Seq<u8>>,
)
    requires
        state.wf(),
        state.idle(),
        forall|i: int| 0 <= i < batches.len() ==> 1 <= (#[trigger] batches[i]).len() <= MAX_BATCH,
        forall|i: int| 0 <= i < frames.len() ==> (#[trigger] frames[i]).len() <= FRAME_SIZE,
        without_keep_alives(frames) == trains(batches),
    ensures
        state.accepts_all(frames),
        state.after_all(frames).0.wf(),
        state.after_all(frames).0.idle(),
        delivered(state.after_all(frames).1) == batches,
{
    lemma_trains_arrive_in_order(state, batches);
    lemma_keep_alives_do_not_matter(state, frames);
    lemma_keep_alives_are_accepted(state, frames);
}

/// The state stays well formed whatever arrives, and a batch that is handed on has the
/// length that its frames announced, at least 1 and at most `MAX_BATCH`.
pub proof fn law_outcome_bounds(state: Reassembly, frame: Seq<u8>)
    requires
        state.wf(),
        frame.len() <= FRAME_SIZE,
        state.accepts(frame),
    ensures
        state.after(frame).0.wf(),
        state.after(frame).1 matches Outcome::Complete(batch) ==> {
            &&& batch.len() == frame_total(frame)
            &&& 1 <= batch.len() <= MAX_BATCH
            &&& state.after(frame).0.idle()
        },
{
}

/// A frame that breaks the wire format hands nothing on and leaves the reassembler
/// between batches, so that the next train is received whatever came before.
pub proof fn law_violation_resets(state: Reassembly, frame: Seq<u8>)
    requires
        state.wf(),
        frame.len() < HEADER_SIZE || (frame.len() <= FRAME_SIZE && !is_keep_alive(frame) && (
        frame_total(frame) > MAX_BATCH || frame_offset(frame) + frame_payload(frame).len()
            > frame_total(frame))),
    ensures
        state.after(frame).0 == state.reset(),
        !(state.after(frame).1 is Partial),
        !(state.after(frame).1 is Complete),
        !(state.after(frame).1 is KeepAlive),
{
}

/// Keep-alives are dropped in silence wherever they come.
pub proof fn law_keep_alive_changes_nothing(state: Reassembly, frame: Seq<u8>)
    requires
        is_keep_alive(frame),
    ensures
        state.after(frame) == (state, Outcome::KeepAlive),
{
}

/// The sizes of the mailbox: frames of 64 bytes, four of which are the header, and batches of
/// at most 2048 bytes.
pub proof fn law_sizes_of_the_mailbox()
    ensures
        FRAME_SIZE == 64,
        HEADER_SIZE == 4,
        MAX_PAYLOAD == 60,
        MAX_BATCH == 2048,
{
}

/// What goes over the wire, byte by byte: in each frame of a train the low and the high byte of
/// the batch's length, those of the offset, and then the bytes of the batch from that offset
/// on, 60 of them or all that are left. The frames follow each other without a gap, and there
/// are just enough of them.
pub proof fn law_bytes_on_the_wire(batch: Seq<u8>, k: int)
    requires
        batch.len() <= 2048,
        0 <= k < frame_train(batch).len(),
    ensures
        ({
            let frame = frame_train(batch)[k];
            let left = batch.len() - 60 * k;
            &&& left > 0
            &&& k == frame_train(batch).len() - 1 <==> left <= 60
            &&& frame.len() == 4 + if left < 60 {
                left
            } else {
                60
            }
            &&& frame[0] as int == batch.len() % 256
            &&& frame[1] as int == batch.len() as int / 256
            &&& frame[2] as int == (60 * k) % 256
            &&& frame[3] as int == (60 * k) / 256
            &&& forall|i: int| 4 <= i < frame.len() ==> #[trigger] frame[i] == batch[60 * k + i - 4]
        }),
{
}

/// Only an empty batch takes no frame.
pub proof fn law_empty_batch_takes_no_frame(batch: Seq<u8>)
    ensures
        frame_train(batch).len() == 0 <==> batch.len() == 0,
{
}

/// What becomes of a frame, by its bytes. Less than a header, a keep-alive and a batch that is
/// too long are each told apart, and so are a batch that does not open at its start and a
/// payload that does not fit. Any other frame is stored.
pub proof fn law_what_becomes_of_a_frame(state: Reassembly, frame: Seq<u8>)
    requires
        state.wf(),
    ensures
        ({
            let total = frame[0] + 256 * frame[1];
            let offset = frame[2] + 256 * frame[3];
            let opens = state.expected != total || state.received == 0;
            let outcome = state.after(frame).1;
            &&& outcome is Runt <==> frame.len() < 4
            &&& frame.len() >= 4 ==> {
                let framed = !(total == 0 && offset == 0);
                let short = total <= 2048;
                let placed = !opens || offset == 0;
                let fits = offset + frame.len() - 4 <= total;
                &&& outcome is KeepAlive <==> !framed
                &&& outcome is Oversized <==> framed && !short
                &&& outcome is Misplaced <==> framed && short && !placed
                &&& outcome is Overrun <==> framed && short && placed && !fits
                &&& (outcome is Partial || outcome is Complete) <==> framed && short && placed
                    && fits
            }
        }),
{
}

/// A frame that is refused abandons the batch under way; one that is kept belongs to the batch
/// of the length that it announces, which goes on if it has that length and else is a new one.
pub proof fn law_refused_frames_abandon_the_batch(state: Reassembly, frame: Seq<u8>)
    requires
        state.wf(),
    ensures
        ({
            let (after, outcome) = state.after(frame);
            &&& outcome is Runt || outcome is Oversized || outcome is Misplaced
                || outcome is Overrun ==> after.idle() && after.buffer == state.buffer
            &&& outcome is KeepAlive ==> after == state
            &&& outcome is Complete ==> after.idle()
            &&& outcome is Partial ==> after.expected == frame[0] + 256 * frame[1]
        }),
{
}

/// A payload that is stored lands at its offset, byte by byte, and touches nothing else. The
/// bytes received are counted from the start of the batch, and the batch is handed on, as it
/// stands in the buffer, exactly when as many have come as it announced.
pub proof fn law_payload_is_stored_in_its_place(state: Reassembly, frame: Seq<u8>)
    requires
        state.wf(),
        state.after(frame).1 is Partial || state.after(frame).1 is Complete,
    ensures
        ({
            let (after, outcome) = state.after(frame);
            let total = frame[0] + 256 * frame[1];
            let offset = frame[2] + 256 * frame[3];
            let end = offset + frame.len() - 4;
            let before: int = if state.expected == total {
                state.received
            } else {
                0
            };
            let received = before + frame.len() - 4;
            &&& after.buffer.len() == 2048
            &&& forall|i: int|
                0 <= i < 2048 ==> #[trigger] after.buffer[i] == if offset <= i < end {
                    frame[4 + i - offset]
                } else {
                    state.buffer[i]
                }
            &&& outcome is Complete <==> received == total
            &&& outcome matches Outcome::Complete(batch) ==> {
                &&& batch.len() == total
                &&& forall|i: int| 0 <= i < total ==> #[trigger] batch[i] == after.buffer[i]
            }
            &&& outcome is Partial ==> after.received == received && after.expected == total
        }),
{
}

/// A frame ends a batch before its time exactly if it announces another length, may open a
/// batch of that length, and one was under way.
pub proof fn law_when_a_batch_ends_before_its_time(state: Reassembly, frame: Seq<u8>)
    requires
        frame.len() >= 4,
    ensures
        state.changed_by(frame) <==> {
            &&& state.expected != 0
            &&& frame[0] + 256 * frame[1] != state.expected
            &&& frame[0] + 256 * frame[1] <= 2048
            &&& !(frame[0] == 0 && frame[1] == 0 && frame[2] == 0 && frame[3] == 0)
        },
{
}

/// A receipt that refuses a frame tells the length and the offset that stand in the frame, and
/// how many bytes of payload it has.
pub proof fn law_receipts_tell_what_stands_in_the_frame(receipt: Receipt, frame: Seq<u8>)
    requires
        frame.len() >= 4,
        receipt.describes(frame),
    ensures
        receipt matches Receipt::Oversized { total } ==> total == frame[0] + 256 * frame[1],
        receipt matches Receipt::Misplaced { offset } ==> offset == frame[2] + 256 * frame[3],
        receipt matches Receipt::Overrun { offset, payload, total } ==> {
            &&& offset == frame[2] + 256 * frame[3]
            &&& payload == frame.len() - 4
            &&& total == frame[0] + 256 * frame[1]
        },
{
}

/// A batch can be sent exactly if it has at most 2048 bytes.
pub proof fn law_what_can_be_sent(batch: Seq<u8>)
    ensures
        sendable(batch) <==> batch.len() <= 2048,
{
}

/// Between batches, and for a batch of another length than the one under way, every frame can be
/// taken. A frame that goes on with a batch can be, unless its payload would end beyond 65535 or
/// would bring the bytes received beyond that.
pub proof fn law_when_a_frame_can_be_taken(state: Reassembly, frame: Seq<u8>)
    requires
        state.wf(),
        frame.len() >= 4,
    ensures
        ({
            let total = frame[0] + 256 * frame[1];
            let end = frame[2] + 256 * frame[3] + frame.len() - 4;
            let goes_on = total == state.expected && state.received > 0;
            &&& !goes_on ==> state.accepts(frame)
            &&& goes_on && end <= total ==> (state.accepts(frame) <==> state.received
                + frame.len() - 4 <= 65535)
            &&& goes_on && end > total ==> (state.accepts(frame) <==> end <= 65535)
        }),
{
}

} // verus!
