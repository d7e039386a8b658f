//! A GPU buffer of per-instance data, refilled every frame.
//!
//! Each update either writes the new bytes over the start of the current
//! buffer (the in-place path) or, when they do not fit, replaces the buffer
//! by one of exactly their length, allocated and filled in one step (the
//! reallocate path). Capacities are counted in bytes.
//!
//! A buffer's capacity and what is known of its bytes change only through
//! the wgpu calls that allocate or write it.
use vstd::prelude::*;
use crate::gpu::{GpuDevice, COPY_BUFFER_ALIGNMENT, MAX_BUFFER_SIZE};
use crate::statistics::Statistics;
use std::sync::Arc;

verus! {

/// How an update reached the GPU.
#[derive(Clone, Copy, Debug, PartialEq, Eq, Structural)]
pub enum UploadPath {
    /// A new buffer sized to the data was allocated and filled.
    Reallocate,
    /// The data was written over the start of the existing buffer.
    InPlace,
}

/// The path taken for `len` bytes against a buffer of `capacity` bytes.
pub open spec fn upload_path_for(len: nat, capacity: nat) -> UploadPath {
    if len > capacity {
        UploadPath::Reallocate
    } else {
        UploadPath::InPlace
    }
}

/// The capacity after uploading `len` bytes into a buffer of `capacity`.
pub open spec fn capacity_after(len: nat, capacity: nat) -> nat {
    if len > capacity {
        len
    } else {
        capacity
    }
}

/// The capacity after uploading each length of `lens` in turn.
pub open spec fn capacity_after_all(initial: nat, lens: Seq<nat>) -> nat
    decreases lens.len(),
{
    if lens.len() == 0 {
        initial
    } else {
        capacity_after(lens.last(), capacity_after_all(initial, lens.drop_last()))
    }
}

/// What a buffer holds, as far as its users can tell: its capacity in bytes
/// and `written`, the bytes from offset zero whose values are known. Bytes
/// past `written` hold whatever they held before.
pub struct BufferModel {
    pub capacity: nat,
    pub written: Seq<u8>,
}

/// `old` with its start overwritten by `data`: the bytes of `old` past the
/// length of `data` are kept.
pub open spec fn overwrite_start(old: Seq<u8>, data: Seq<u8>) -> Seq<u8> {
    if data.len() >= old.len() {
        data
    } else {
        data + old.subrange(data.len() as int, old.len() as int)
    }
}

impl BufferModel {
    /// No byte is known past the capacity.
    pub open spec fn wf(self) -> bool {
        self.written.len() <= self.capacity
    }

    pub open spec fn update(self, data: Seq<u8>) -> (Self, UploadPath) {
        if data.len() > self.capacity {
            (BufferModel { capacity: data.len(), written: data }, UploadPath::Reallocate)
        } else {
            (
                BufferModel { capacity: self.capacity, written: overwrite_start(self.written, data) },
                UploadPath::InPlace,
            )
        }
    }

    /// The buffer after one update per frame of `frames`, oldest first.
    pub open spec fn update_all(self, frames: Seq<Seq<u8>>) -> Self
        decreases frames.len(),
    {
        if frames.len() == 0 {
            self
        } else {
            self.update_all(frames.drop_last()).update(frames.last()).0
        }
    }
}

/// Picks the path for `data_len` bytes against `capacity` bytes.
pub fn choose_upload_path(data_len: u64, capacity: u64) -> (r: UploadPath)
    ensures
        r == upload_path_for(data_len as nat, capacity as nat),
        r == UploadPath::Reallocate <==> data_len > capacity,
{
    if data_len > capacity {
        UploadPath::Reallocate
    } else {
        UploadPath::InPlace
    }
}

/// The capacity bookkeeping of an instance buffer on its own, without a
/// GPU: the same decision and the same capacity rule.
pub struct UploadPlanner {
    capacity: u64,
}

impl View for UploadPlanner {
    type V = nat;

    closed spec fn view(&self) -> nat {
        self.capacity as nat
    }
}

impl UploadPlanner {
    pub fn new(capacity: u64) -> (r: Self)
        ensures
            r@ == capacity,
    {
        UploadPlanner { capacity }
    }

    pub fn capacity(&self) -> (r: u64)
        ensures
            r == self@,
    {
        self.capacity
    }

    /// Decides the path for `data_len` bytes and records the capacity that
    /// results from taking it.
    pub fn plan(&mut self, data_len: u64) -> (r: UploadPath)
        ensures
            r == upload_path_for(data_len as nat, old(self)@),
            final(self)@ == capacity_after(data_len as nat, old(self)@),
    {
        let path = choose_upload_path(data_len, self.capacity);
        if data_len > self.capacity {
            self.capacity = data_len;
        }
        path
    }
}

/// A GPU vertex buffer of instance records. `buffer` was made by the device
/// of `gpu`, and `capacity` is its size; both change together, only in
/// [`allocate`] and [`reallocate_with`].
pub struct InstanceStreamBuffer {
    label: String,
    gpu: Arc<GpuDevice>,
    buffer: wgpu::Buffer,
    capacity: u64,
    written: Ghost<Seq<u8>>,
}

impl View for InstanceStreamBuffer {
    type V = BufferModel;

    closed spec fn view(&self) -> BufferModel {
        BufferModel { capacity: self.capacity as nat, written: self.written@ }
    }
}

/// Relies on wgpu::Device::create_buffer, which allocates an unmapped buffer
/// of the requested size (refused, with a panic, over the device's
/// `max_buffer_size`), and wgpu::Buffer::size, which reports the size given
/// at creation. Nothing is known of the new buffer's bytes.
#[verifier::external_body]
fn allocate(gpu: &Arc<GpuDevice>, label: &str, capacity: u64) -> (r: InstanceStreamBuffer)
    requires
        capacity <= MAX_BUFFER_SIZE,
    ensures
        r@ == (BufferModel { capacity: capacity as nat, written: Seq::empty() }),
{
    let usage = wgpu::BufferUsages::VERTEX | wgpu::BufferUsages::COPY_DST;
    let descriptor =
        wgpu::BufferDescriptor { label: Some(label), size: capacity, usage, mapped_at_creation: false };
    let buffer = gpu.device.create_buffer(&descriptor);
    let capacity = buffer.size();
    let gpu = Arc::clone(gpu);
    InstanceStreamBuffer { label: label.to_owned(), gpu, buffer, capacity, written: Ghost(Seq::empty()) }
}

/// Relies on wgpu::util::DeviceExt::create_buffer_init, which allocates a
/// buffer of the contents' length rounded up to COPY_BUFFER_ALIGNMENT (the
/// length itself here) and fills it with the contents in the same step, and
/// on wgpu::Buffer::size, which reports that size. The old buffer is dropped.
#[verifier::external_body]
fn reallocate_with(target: &mut InstanceStreamBuffer, data: &[u8])
    requires
        0 < data@.len() <= MAX_BUFFER_SIZE,
        data@.len() % (COPY_BUFFER_ALIGNMENT as nat) == 0,
    ensures
        final(target)@ == (BufferModel { capacity: data@.len(), written: data@ }),
{
    let usage = wgpu::BufferUsages::VERTEX | wgpu::BufferUsages::COPY_DST;
    let descriptor =
        wgpu::util::BufferInitDescriptor { label: Some(&target.label), contents: data, usage };
    let buffer = wgpu::util::DeviceExt::create_buffer_init(&target.gpu.device, &descriptor);
    target.capacity = buffer.size();
    target.buffer = buffer;
}

/// Relies on wgpu::Queue::write_buffer, which copies `data` to offset zero
/// of the buffer, as seen by all work submitted afterwards, leaving the
/// rest of the buffer as it was. The queue belongs to the device that made
/// the buffer; wgpu refuses (with a panic) a length that is not a multiple
/// of COPY_BUFFER_ALIGNMENT or that overruns the buffer.
#[verifier::external_body]
fn write_to_start(target: &mut InstanceStreamBuffer, data: &[u8])
    requires
        data@.len() % (COPY_BUFFER_ALIGNMENT as nat) == 0,
        data@.len() <= old(target)@.capacity,
    ensures
        final(target)@ == (BufferModel {
            capacity: old(target)@.capacity,
            written: overwrite_start(old(target)@.written, data@),
        }),
{
    target.gpu.queue.write_buffer(&target.buffer, 0, data)
}

impl InstanceStreamBuffer {
    /// Allocates a buffer of `capacity` bytes on `gpu`, whose queue all
    /// later writes go through.
    pub fn new(gpu: &Arc<GpuDevice>, label: &str, capacity: u64) -> (r: Self)
        requires
            capacity <= MAX_BUFFER_SIZE,
        ensures
            r@ == (BufferModel { capacity: capacity as nat, written: Seq::empty() }),
            r@.wf(),
    {
        allocate(gpu, label, capacity)
    }

    pub fn capacity(&self) -> (r: u64)
        ensures
            r == self@.capacity,
    {
        self.capacity
    }

    /// The GPU buffer, to bind for drawing.
    pub fn buffer(&self) -> &wgpu::Buffer {
        &self.buffer
    }

    /// Uploads `data` as this frame's instance bytes: a new buffer of
    /// exactly their length, filled on allocation, when they exceed the
    /// capacity; otherwise a write over the start of the current buffer.
    pub fn update(&mut self, data: &[u8]) -> (r: UploadPath)
        requires
            old(self)@.wf(),
            data@.len() % (COPY_BUFFER_ALIGNMENT as nat) == 0,
            data@.len() <= MAX_BUFFER_SIZE,
        ensures
            final(self)@.wf(),
            (final(self)@, r) == old(self)@.update(data@),
    {
        let path = choose_upload_path(data.len() as u64, self.capacity);
        match path {
            UploadPath::Reallocate => reallocate_with(self, data),
            UploadPath::InPlace => write_to_start(self, data),
        }
        path
    }
}

/// The metric that an upload's duration is reported under.
pub open spec fn path_metric(path: UploadPath, reallocate: Seq<char>, in_place: Seq<char>) -> Seq<
    char,
> {
    match path {
        UploadPath::Reallocate => reallocate,
        UploadPath::InPlace => in_place,
    }
}

/// Records one upload: `elapsed` under the metric of the path taken, then
/// the data size under `size_metric`.
pub fn report_upload<V>(
    statistics: &mut Statistics<V>,
    path: UploadPath,
    reallocate_metric: &str,
    in_place_metric: &str,
    size_metric: &str,
    elapsed: V,
    data_size: V,
)
    requires
        old(statistics).wf(),
    ensures
        final(statistics).wf(),
        final(statistics)@ == old(statistics)@.report_with_name(
            path_metric(path, reallocate_metric@, in_place_metric@),
            elapsed,
        ).report_with_name(size_metric@, data_size),
{
    match path {
        UploadPath::Reallocate => statistics.report_value_with_name(reallocate_metric, elapsed),
        UploadPath::InPlace => statistics.report_value_with_name(in_place_metric, elapsed),
    }
    statistics.report_value_with_name(size_metric, data_size);
}

/// Along any sequence of uploads the capacity covers the latest data, equals
/// its length whenever that upload reallocated, and never shrinks.
pub proof fn lemma_capacity_covers_latest(initial: nat, lens: Seq<nat>)
    requires
        lens.len() > 0,
    ensures
        capacity_after_all(initial, lens) >= lens.last(),
        capacity_after_all(initial, lens) >= capacity_after_all(initial, lens.drop_last()),
        upload_path_for(lens.last(), capacity_after_all(initial, lens.drop_last()))
            == UploadPath::Reallocate ==> capacity_after_all(initial, lens) == lens.last(),
{
}

/// After any sequence of frames the buffer starts with the latest frame's bytes,
/// its capacity covers them and equals their length when that frame
/// reallocated, and the capacity never shrank.
pub proof fn lemma_buffer_over_frames(m: BufferModel, frames: Seq<Seq<u8>>)
    requires
        frames.len() > 0,
    ensures
        ({
            let before = m.update_all(frames.drop_last());
            let (after, path) = before.update(frames.last());
            &&& after == m.update_all(frames)
            &&& after.written.len() >= frames.last().len()
            &&& after.written.subrange(0, frames.last().len() as int) == frames.last()
            &&& after.capacity >= frames.last().len()
            &&& after.capacity >= before.capacity
            &&& path == UploadPath::Reallocate ==> after.capacity == frames.last().len()
        }),
{
    let before = m.update_all(frames.drop_last());
    lemma_update_starts_with(before, frames.last());
}

/// The capacity after a sequence of uploads is at least the initial one and
/// at least every length uploaded.
pub proof fn lemma_capacity_covers_all(initial: nat, lens: Seq<nat>)
    ensures
        capacity_after_all(initial, lens) >= initial,
        forall|i: int| 0 <= i < lens.len() ==> capacity_after_all(initial, lens) >= #[trigger] lens[i],
    decreases lens.len(),
{
    if lens.len() > 0 {
        lemma_capacity_covers_all(initial, lens.drop_last());
        assert forall|i: int| 0 <= i < lens.len() implies capacity_after_all(initial, lens)
            >= #[trigger] lens[i] by {
            if i < lens.len() - 1 {
                assert(lens[i] == lens.drop_last()[i]);
            }
        }
    }
}

/// Reallocation happens exactly when the data is longer than the capacity;
/// equal or shorter data is written in place.
pub proof fn lemma_reallocate_iff_longer(len: nat, capacity: nat)
    ensures
        upload_path_for(len, capacity) == UploadPath::Reallocate <==> len > capacity,
        upload_path_for(len, capacity) == UploadPath::InPlace <==> len <= capacity,
{
}

/// After an update the buffer starts with the data, its capacity covers
/// it, and the capacity follows `capacity_after`; the path follows
/// `upload_path_for`.
pub proof fn lemma_update_starts_with(m: BufferModel, data: Seq<u8>)
    ensures
        ({
            let (m1, p) = m.update(data);
            &&& m1.capacity == capacity_after(data.len(), m.capacity)
            &&& p == upload_path_for(data.len(), m.capacity)
            &&& m1.written.len() >= data.len()
            &&& m1.written.subrange(0, data.len() as int) == data
        }),
{
    let (m1, _) = m.update(data);
    assert(m1.written.subrange(0, data.len() as int) =~= data);
}

/// An in-place write keeps the capacity and every known byte past the data.
pub proof fn lemma_in_place_keeps_tail(m: BufferModel, data: Seq<u8>)
    requires
        data.len() < m.written.len(),
        data.len() <= m.capacity,
    ensures
        ({
            let (m1, p) = m.update(data);
            &&& p == UploadPath::InPlace
            &&& m1.capacity == m.capacity
            &&& m1.written.len() == m.written.len()
            &&& m1.written.subrange(data.len() as int, m.written.len() as int)
                == m.written.subrange(data.len() as int, m.written.len() as int)
        }),
{
    let (m1, _) = m.update(data);
    assert(m1.written.subrange(data.len() as int, m.written.len() as int)
        =~= m.written.subrange(data.len() as int, m.written.len() as int));
}

/// Uploading the same data twice leaves the buffer as the first upload left
/// it, and the second upload is written in place.
pub proof fn lemma_update_idempotent(m: BufferModel, data: Seq<u8>)
    ensures
        ({
            let (m1, _) = m.update(data);
            let (m2, p2) = m1.update(data);
            &&& m2 == m1
            &&& p2 == UploadPath::InPlace
            &&& m1.written.subrange(0, data.len() as int) == data
        }),
{
    let (m1, _) = m.update(data);
    lemma_update_starts_with(m, data);
    let (m2, _) = m1.update(data);
    if data.len() < m1.written.len() {
        assert(m2.written =~= m1.written);
    } else {
        assert(m1.written =~= data);
    }
}

} // verus!
