//! The per-draw-call attribute buffer: a CPU-side queue of quads, the GPU
//! buffer it is uploaded into, and the grow-only reuse policy.
use vstd::prelude::*;

use crate::geometry::TexQuad;

verus! {

/// Bytes in one vertex: three 4-byte position components, two 4-byte
/// texture coordinates and four color bytes.
pub const VERTEX_STRIDE: usize = 24;

/// Vertices in one quad.
pub const QUAD_VERTICES: usize = 6;

/// Bytes in one quad.
pub const QUAD_BYTES: usize = 144;

/// The most quads a queue can hold: beyond it the payload size would not
/// fit in `usize` (and no allocation could hold the queue anyway).
pub const MAX_QUEUED_QUADS: usize = usize::MAX / QUAD_BYTES;

/// What an upload of a queue to its GPU buffer has to do.
#[derive(Clone, Copy, Debug, PartialEq, Eq, Structural)]
pub enum UploadAction {
    /// Nothing is queued: no upload and no draw.
    Skip,
    /// The payload fits the allocated buffer: write it in place.
    UpdateInPlace { bytes: usize },
    /// The payload outgrows the buffer: reallocate it at exactly `bytes`.
    Reallocate { bytes: usize },
}

/// The reuse policy: an empty payload is skipped, one that fits the
/// allocation is written in place, anything larger reallocates.
pub open spec fn upload_action_spec(payload: usize, capacity: usize) -> UploadAction {
    if payload == 0 {
        UploadAction::Skip
    } else if payload <= capacity {
        UploadAction::UpdateInPlace { bytes: payload }
    } else {
        UploadAction::Reallocate { bytes: payload }
    }
}

/// The allocated capacity after `action` was carried out.
pub open spec fn capacity_after(action: UploadAction, capacity: usize) -> usize {
    match action {
        UploadAction::Reallocate { bytes } => bytes,
        _ => capacity,
    }
}

/// Decides how a payload of `payload` bytes reaches a buffer that holds
/// `capacity` bytes.
pub fn plan_upload(payload: usize, capacity: usize) -> (a: UploadAction)
    ensures
        a == upload_action_spec(payload, capacity),
{
    if payload == 0 {
        UploadAction::Skip
    } else if payload <= capacity {
        UploadAction::UpdateInPlace { bytes: payload }
    } else {
        UploadAction::Reallocate { bytes: payload }
    }
}

/// The CPU queue and GPU objects of one draw call.
pub struct AttributeBuffer<T> {
    /// The GPU vertex buffer.
    pub vbo: u32,
    /// The vertex-layout object; present only on the modern profile.
    pub vao: Option<u32>,
    /// Quads appended since the last flush, in append order.
    pub queue: Vec<TexQuad<T>>,
    /// Bytes allocated for `vbo` so far; never decreases.
    pub allocated_capacity: usize,
}

impl<T> AttributeBuffer<T> {
    /// The queue is small enough for its payload size to be computed.
    pub open spec fn wf(&self) -> bool {
        self.queue.len() <= MAX_QUEUED_QUADS
    }

    /// Bytes that the queued quads take up.
    pub open spec fn payload_spec(&self) -> usize {
        (self.queue.len() * QUAD_BYTES) as usize
    }

    /// A buffer with an empty queue and nothing allocated yet.
    pub fn new(vbo: u32, vao: Option<u32>) -> (b: Self)
        ensures
            b.wf(),
            b.vbo == vbo,
            b.vao == vao,
            b.queue@.len() == 0,
            b.allocated_capacity == 0,
    {
        AttributeBuffer { vbo, vao, queue: Vec::new(), allocated_capacity: 0 }
    }

    /// Bytes that the queued quads take up.
    pub fn payload_size(&self) -> (r: usize)
        requires
            self.wf(),
        ensures
            r == self.payload_spec(),
            r as int == self.queue.len() * QUAD_BYTES,
    {
        proof {
            assert(self.queue.len() * QUAD_BYTES <= usize::MAX) by (nonlinear_arith)
                requires
                    self.queue.len() <= MAX_QUEUED_QUADS,
                    MAX_QUEUED_QUADS == usize::MAX / QUAD_BYTES,
                    QUAD_BYTES == 144,
            ;
        }
        self.queue.len() * QUAD_BYTES
    }

    /// Appends one quad to the queue; no GPU work.
    pub fn append(&mut self, quad: TexQuad<T>)
        requires
            old(self).queue.len() < MAX_QUEUED_QUADS,
        ensures
            final(self).wf(),
            final(self).queue@ == old(self).queue@.push(quad),
            final(self).vbo == old(self).vbo,
            final(self).vao == old(self).vao,
            final(self).allocated_capacity == old(self).allocated_capacity,
    {
        self.queue.push(quad);
    }

    /// Plans the upload of the queue, moves the queue out (leaving it
    /// empty) and records the capacity the upload leaves allocated.
    pub fn flush(&mut self) -> (r: (UploadAction, Vec<TexQuad<T>>))
        requires
            old(self).wf(),
        ensures
            r.0 == upload_action_spec(old(self).payload_spec(), old(self).allocated_capacity),
            r.1@ == old(self).queue@,
            final(self).wf(),
            final(self).queue@.len() == 0,
            final(self).allocated_capacity == capacity_after(r.0, old(self).allocated_capacity),
            final(self).allocated_capacity >= old(self).allocated_capacity,
            final(self).vbo == old(self).vbo,
            final(self).vao == old(self).vao,
    {
        let payload = self.payload_size();
        let action = plan_upload(payload, self.allocated_capacity);
        if let UploadAction::Reallocate { bytes } = action {
            self.allocated_capacity = bytes;
        }
        let mut taken: Vec<TexQuad<T>> = Vec::new();
        std::mem::swap(&mut self.queue, &mut taken);
        (action, taken)
    }
}


/// The capacity left after flushing payloads of the sizes in `payloads`, in
/// order, starting from `capacity`.
pub open spec fn capacity_after_flushes(capacity: usize, payloads: Seq<usize>) -> usize
    decreases payloads.len(),
{
    if payloads.len() == 0 {
        capacity
    } else {
        let before = capacity_after_flushes(capacity, payloads.drop_last());
        capacity_after(upload_action_spec(payloads.last(), before), before)
    }
}

/// The allocated capacity never shrinks, and after a flush it holds at
/// least the payload that was flushed.
pub proof fn lemma_capacity_grows(capacity: usize, payload: usize)
    ensures
        capacity_after(upload_action_spec(payload, capacity), capacity) >= capacity,
        capacity_after(upload_action_spec(payload, capacity), capacity) >= payload,
{
}

/// Over any run of flushes, the capacity never shrinks and covers every
/// payload flushed so far.
pub proof fn lemma_capacity_covers_history(capacity: usize, payloads: Seq<usize>)
    ensures
        capacity_after_flushes(capacity, payloads) >= capacity,
        forall|j: int| 0 <= j < payloads.len() ==> capacity_after_flushes(capacity, payloads) >= #[trigger] payloads[j],
    decreases payloads.len(),
{
    if payloads.len() > 0 {
        let rest = payloads.drop_last();
        lemma_capacity_covers_history(capacity, rest);
        let before = capacity_after_flushes(capacity, rest);
        lemma_capacity_grows(before, payloads.last());
        assert forall|j: int| 0 <= j < payloads.len() implies capacity_after_flushes(capacity, payloads) >= #[trigger] payloads[j] by {
            if j < payloads.len() - 1 {
                assert(payloads[j] == rest[j]);
            }
        }
    }
}

/// A flush reallocates only when its payload is larger than every payload
/// flushed before it: once a size has been reached, flushes of that size or
/// less update the buffer in place (or are skipped when empty).
pub proof fn lemma_no_reallocation_below_peak(capacity: usize, payloads: Seq<usize>, k: int, j: int)
    requires
        0 <= j < k < payloads.len(),
        payloads[k] <= payloads[j],
    ensures
        !(upload_action_spec(payloads[k], capacity_after_flushes(capacity, payloads.take(k))) is Reallocate),
{
    let prefix = payloads.take(k);
    lemma_capacity_covers_history(capacity, prefix);
    assert(prefix[j] == payloads[j]);
}

} // verus!
