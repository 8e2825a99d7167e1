//! A fixed-capacity batch of instances, mirrored on the host and reconciled
//! with a device buffer region by region.

use crate::bindings::{
    create_binding_layout, BindingLayout, BindingType, BufferBindingType, ShaderStages,
};
use crate::buffer::{BufferDescriptor, BufferUsages};
use crate::dirty::{DirtyFlags, DIRTY_FLAG_BITS_PER_BLOCK};
use crate::instance::{BatchInstance, INSTANCE_SIZE};
use crate::metadata::{BatchMetadata, METADATA_SIZE};
use vstd::prelude::*;

verus! {

/// Number of 64-bit blocks in the dirty flags of a batch.
pub const BATCH_DIRTY_FLAG_COUNT: usize = 4;

/// Number of instance slots that one dirty flag stands for.
pub const INSTANCES_PER_REGION: u32 = 16;

/// Number of regions that the dirty flags of a batch can tell apart.
pub const REGION_COUNT: usize = DIRTY_FLAG_BITS_PER_BLOCK * BATCH_DIRTY_FLAG_COUNT;

/// The largest capacity that a batch can have: as many instances as the
/// dirty flags have regions for.
#[verifier::nonlinear]
pub const MAX_BATCH_SIZE: usize = REGION_COUNT * (INSTANCES_PER_REGION as usize);

/// Number of bytes that one region takes in the instance buffer.
pub const REGION_BYTES: usize = (INSTANCES_PER_REGION as usize) * INSTANCE_SIZE;

/// The shader stages that can see the metadata of a batch: the vertex stage.
pub const BATCH_VISIBLE_SHADER_STAGES: u32 = crate::bindings::VERTEX;

/// The usages of the instance buffer: a copy target read as vertex data.
pub const INSTANCE_BUFFER_USAGES: u32 = crate::buffer::COPY_DST | crate::buffer::VERTEX;

/// The usages of the metadata buffer: a copy target read as uniform data.
pub const METADATA_BUFFER_USAGES: u32 = crate::buffer::COPY_DST | crate::buffer::UNIFORM;

/// One copy into the device's instance buffer: the bytes of the regions
/// from `first_region` up to, not including, `end_region`.
#[derive(Debug)]
pub struct BufferWrite {
    pub first_region: usize,
    pub end_region: usize,
    pub offset: u64,
    pub bytes: Vec<u8>,
}

/// What one flush has to copy to the device.
#[derive(Debug)]
pub struct FlushPlan {
    /// The bytes for the metadata buffer, if it has to be written.
    pub metadata: Option<Vec<u8>>,
    /// The copies into the instance buffer, in ascending order of offset.
    pub instances: Vec<BufferWrite>,
}

/// Why an instance could not be added to a batch.
#[derive(Clone, Copy, Debug, PartialEq, Eq, Structural)]
pub enum BatchError {
    /// The batch already holds as many instances as its capacity allows.
    Full,
}

/// The host side of a batch.
pub struct Batch {
    capacity: usize,
    metadata: BatchMetadata,
    flushed_metadata: Option<BatchMetadata>,
    instance_dirty_flag: DirtyFlags<BATCH_DIRTY_FLAG_COUNT>,
    instance_local_array: Vec<BatchInstance>,
    size: u32,
}

/// A batch as its contracts see it.
pub struct BatchView {
    /// How many instances the batch can hold.
    pub capacity: nat,
    /// The instances pushed so far, in the order of the pushes.
    pub instances: Seq<BatchInstance>,
    /// For each region, whether the host copy has changed since the last flush.
    pub dirty: Seq<bool>,
    /// The metadata as it stands on the host.
    pub metadata: BatchMetadata,
    /// The metadata that the last flush handed to the device, if there was one.
    pub flushed_metadata: Option<BatchMetadata>,
}

/// All-zero bytes, as a fresh device buffer holds them.
pub open spec fn zeros(len: nat) -> Seq<u8> {
    Seq::new(len, |k: int| 0u8)
}

/// The buffer `device` after `bytes` were copied to it at `offset`.
pub open spec fn apply_write(device: Seq<u8>, offset: int, bytes: Seq<u8>) -> Seq<u8> {
    Seq::new(
        device.len(),
        |k: int|
            if offset <= k < offset + bytes.len() {
                bytes[k - offset]
            } else {
                device[k]
            },
    )
}

/// The buffer `device` after the copies of `writes`, made in order.
pub open spec fn apply_writes(device: Seq<u8>, writes: Seq<BufferWrite>) -> Seq<u8>
    decreases writes.len(),
{
    if writes.len() == 0 {
        device
    } else {
        apply_write(
            apply_writes(device, writes.drop_last()),
            writes.last().offset as int,
            writes.last().bytes@,
        )
    }
}

/// Whether one of `writes` copies region `region`.
pub open spec fn covers(writes: Seq<BufferWrite>, region: int) -> bool {
    exists|k: int|
        0 <= k < writes.len() && (#[trigger] writes[k]).first_region <= region
            < writes[k].end_region
}

/// The metadata buffer `device` after the metadata part of a flush.
pub open spec fn apply_metadata_write(device: Seq<u8>, write: Option<Vec<u8>>) -> Seq<u8> {
    match write {
        Some(bytes) => bytes@,
        None => device,
    }
}

impl BatchView {
    /// What holds of every batch.
    pub open spec fn wf(self) -> bool {
        &&& self.capacity <= MAX_BATCH_SIZE
        &&& self.instances.len() <= self.capacity
        &&& self.dirty.len() == REGION_COUNT
        &&& forall|r: int|
            0 <= r < REGION_COUNT && #[trigger] self.dirty[r] ==> r * 16 < self.instances.len()
    }

    /// A new batch: empty, with every region clean and nothing flushed yet.
    pub open spec fn new(capacity: nat, metadata: BatchMetadata) -> BatchView {
        BatchView {
            capacity,
            instances: Seq::empty(),
            dirty: Seq::new(REGION_COUNT as nat, |r: int| false),
            metadata,
            flushed_metadata: None,
        }
    }

    /// Number of bytes of the device's instance buffer that hold instances
    /// of the batch.
    pub open spec fn live_bytes(self) -> nat {
        self.instances.len() * 20
    }

    /// Whether the batch has no room for another instance.
    pub open spec fn is_full(self) -> bool {
        self.instances.len() >= self.capacity
    }

    /// The batch after `instance` was pushed.
    pub open spec fn push(self, instance: BatchInstance) -> BatchView {
        BatchView {
            instances: self.instances.push(instance),
            dirty: self.dirty.update(self.instances.len() as int / 16, true),
            ..self
        }
    }

    /// The batch after the instances of `pushed` were pushed in order.
    pub open spec fn push_all(self, pushed: Seq<BatchInstance>) -> BatchView
        decreases pushed.len(),
    {
        if pushed.len() == 0 {
            self
        } else {
            self.push_all(pushed.drop_last()).push(pushed.last())
        }
    }

    /// The batch with other metadata.
    pub open spec fn with_metadata(self, metadata: BatchMetadata) -> BatchView {
        BatchView { metadata, ..self }
    }

    /// Whether the metadata on the host differs from what the device was
    /// last given. A new batch is dirty: the device was given nothing.
    pub open spec fn metadata_dirty(self) -> bool {
        self.flushed_metadata != Some(self.metadata)
    }

    /// The batch after a flush: nothing is dirty any more.
    pub open spec fn flushed(self) -> BatchView {
        BatchView {
            dirty: Seq::new(REGION_COUNT as nat, |r: int| false),
            flushed_metadata: Some(self.metadata),
            ..self
        }
    }

    /// The bytes of slot `slot` in the host copy: those of the instance
    /// pushed there, or zeros where none was.
    pub open spec fn slot_bytes(self, slot: int) -> Seq<u8> {
        if 0 <= slot < self.instances.len() {
            self.instances[slot].encode()
        } else {
            zeros(INSTANCE_SIZE as nat)
        }
    }

    /// The bytes of the slots from `first_slot` up to, not including,
    /// `end_slot` in the host copy.
    pub open spec fn mirror_bytes(self, first_slot: int, end_slot: int) -> Seq<u8> {
        Seq::new(
            ((end_slot - first_slot) * 20) as nat,
            |k: int| self.slot_bytes(first_slot + k / 20)[k % 20],
        )
    }

    /// The first slot after region `end_region - 1` that the device buffer has.
    pub open spec fn end_slot(self, end_region: int) -> int {
        if end_region * 16 <= self.capacity {
            end_region * 16
        } else {
            self.capacity as int
        }
    }

    /// Whether `write` copies one run of dirty regions, whole: its bytes are
    /// those of the host copy, and it ends where the device buffer ends if
    /// the last region reaches beyond that.
    pub open spec fn is_run_write(self, write: BufferWrite) -> bool {
        &&& write.first_region < write.end_region <= REGION_COUNT
        &&& forall|r: int| write.first_region <= r < write.end_region ==> #[trigger] self.dirty[r]
        &&& write.offset == write.first_region * REGION_BYTES
        &&& write.bytes@ == self.mirror_bytes(
            write.first_region * 16,
            self.end_slot(write.end_region as int),
        )
    }

    /// Whether `writes` are the copies that a flush of this batch makes into
    /// the instance buffer: one for each maximal run of dirty regions, in
    /// ascending order, and nothing else.
    pub open spec fn is_instance_plan(self, writes: Seq<BufferWrite>) -> bool {
        &&& forall|k: int| 0 <= k < writes.len() ==> self.is_run_write(#[trigger] writes[k])
        &&& forall|k: int|
            0 <= k < writes.len() - 1 ==> (#[trigger] writes[k]).end_region < writes[k
                + 1].first_region
        &&& forall|r: int|
            0 <= r < REGION_COUNT && #[trigger] self.dirty[r] ==> covers(writes, r)
    }

    /// Whether `write` is what a flush of this batch does to the metadata
    /// buffer: the bytes of the metadata if it is dirty, and nothing if not.
    pub open spec fn is_metadata_plan(self, write: Option<Vec<u8>>) -> bool {
        match write {
            Some(bytes) => self.metadata_dirty() && bytes@ == self.metadata.encode(),
            None => !self.metadata_dirty(),
        }
    }

    /// Whether `plan` is what a flush of this batch hands out.
    pub open spec fn is_flush_plan(self, plan: FlushPlan) -> bool {
        &&& self.is_metadata_plan(plan.metadata)
        &&& self.is_instance_plan(plan.instances@)
    }

    /// Whether the instance buffer `device` agrees with the host copy in
    /// every slot of a clean region.
    pub open spec fn in_sync(self, device: Seq<u8>) -> bool {
        &&& device.len() == self.capacity * 20
        &&& forall|k: int|
            0 <= k < device.len() && !self.dirty[k / 320] ==> #[trigger] device[k]
                == self.slot_bytes(k / 20)[k % 20]
    }

    /// Whether the metadata buffer `device` holds what the batch last
    /// flushed. Before the first flush any contents will do.
    pub open spec fn metadata_in_sync(self, device: Seq<u8>) -> bool {
        match self.flushed_metadata {
            Some(flushed) => device == flushed.encode(),
            None => true,
        }
    }
}

impl View for Batch {
    type V = BatchView;

    closed spec fn view(&self) -> BatchView {
        BatchView {
            capacity: self.capacity as nat,
            instances: self.instance_local_array@.take(self.size as int),
            dirty: self.instance_dirty_flag@,
            metadata: self.metadata,
            flushed_metadata: self.flushed_metadata,
        }
    }
}

impl Batch {
    /// What holds of every batch between calls.
    pub closed spec fn wf(&self) -> bool {
        &&& self.size <= self.capacity <= MAX_BATCH_SIZE
        &&& self.instance_local_array@.len() == MAX_BATCH_SIZE
        &&& self@.wf()
        &&& forall|i: int|
            self.size <= i < MAX_BATCH_SIZE ==> (#[trigger] self.instance_local_array@[i]).is_zeroed()
    }

    /// A well-formed batch has a well-formed view.
    pub proof fn lemma_wf(&self)
        requires
            self.wf(),
        ensures
            self@.wf(),
    {
    }

    /// An empty batch for up to `capacity` instances.
    ///
    /// The metadata starts out dirty, so that the first flush writes it.
    /// A capacity above `MAX_BATCH_SIZE` is a caller error.
    pub fn new(capacity: usize, metadata: BatchMetadata) -> (batch: Batch)
        requires
            capacity <= MAX_BATCH_SIZE,
        ensures
            batch.wf(),
            batch@ == BatchView::new(capacity as nat, metadata),
    {
        let instance_dirty_flag = DirtyFlags::<BATCH_DIRTY_FLAG_COUNT>::new();
        let mut instance_local_array: Vec<BatchInstance> = Vec::new();
        let mut i: usize = 0;
        while i < MAX_BATCH_SIZE
            invariant
                i <= MAX_BATCH_SIZE,
                instance_local_array@.len() == i,
                forall|j: int| 0 <= j < i ==> (#[trigger] instance_local_array@[j]).is_zeroed(),
            decreases MAX_BATCH_SIZE - i,
        {
            instance_local_array.push(BatchInstance::zeroed());
            i += 1;
        }
        let batch = Batch {
            capacity,
            metadata,
            flushed_metadata: None,
            instance_dirty_flag,
            instance_local_array,
            size: 0,
        };
        assert(batch@.instances =~= Seq::empty());
        assert(batch@.dirty =~= Seq::new(REGION_COUNT as nat, |r: int| false));
        batch
    }

    /// The instance buffer that the device has to allocate for the batch:
    /// room for as many instances as the capacity says.
    pub fn instance_buffer_descriptor(&self) -> (descriptor: BufferDescriptor)
        requires
            self.wf(),
        ensures
            descriptor.size == self@.capacity * INSTANCE_SIZE,
            descriptor.usage.spec_bits() == INSTANCE_BUFFER_USAGES,
    {
        BufferDescriptor {
            size: (self.capacity as u64) * (INSTANCE_SIZE as u64),
            usage: BufferUsages::from_bits(INSTANCE_BUFFER_USAGES),
        }
    }

    /// The metadata buffer that the device has to allocate for a batch: room
    /// for one metadata record.
    pub fn metadata_buffer_descriptor() -> (descriptor: BufferDescriptor)
        ensures
            descriptor.size == METADATA_SIZE,
            descriptor.usage.spec_bits() == METADATA_BUFFER_USAGES,
    {
        BufferDescriptor {
            size: METADATA_SIZE as u64,
            usage: BufferUsages::from_bits(METADATA_BUFFER_USAGES),
        }
    }

    /// The layout through which shaders see the metadata of a batch: one
    /// slot, a uniform buffer, visible to the vertex stage.
    pub fn binding_layout() -> (layout: BindingLayout)
        ensures
            layout@.len() == 1,
            layout@[0].binding == 0,
            layout@[0].visibility.spec_bits() == BATCH_VISIBLE_SHADER_STAGES,
            layout@[0].ty == (BindingType::Buffer {
                ty: BufferBindingType::Uniform,
                has_dynamic_offset: false,
                min_binding_size: 0,
            }),
    {
        let mut kinds: Vec<BindingType> = Vec::new();
        kinds.push(
            BindingType::Buffer {
                ty: BufferBindingType::Uniform,
                has_dynamic_offset: false,
                min_binding_size: 0,
            },
        );
        create_binding_layout(ShaderStages::from_bits(BATCH_VISIBLE_SHADER_STAGES), kinds)
    }

    /// Adds `instance` behind those already in the batch and marks its
    /// region dirty. Pushing into a full batch is a caller error.
    pub fn push_unchecked(&mut self, instance: BatchInstance)
        requires
            old(self).wf(),
            !old(self)@.is_full(),
        ensures
            final(self).wf(),
            final(self)@ == old(self)@.push(instance),
    {
        let idx = self.size;
        self.instance_dirty_flag.mark((idx / INSTANCES_PER_REGION) as usize);
        self.size += 1;
        self.instance_local_array[idx as usize] = instance;
        proof {
            assert(self@.instances =~= old(self)@.instances.push(instance));
        }
    }

    /// Adds `instance` if the batch has room for it, and reports
    /// `BatchError::Full` without changing anything if it has not.
    pub fn push(&mut self, instance: BatchInstance) -> (pushed: Result<(), BatchError>)
        requires
            old(self).wf(),
        ensures
            final(self).wf(),
            old(self)@.is_full() ==> pushed == Err::<(), BatchError>(BatchError::Full),
            old(self)@.is_full() ==> final(self)@ == old(self)@,
            !old(self)@.is_full() ==> pushed is Ok,
            !old(self)@.is_full() ==> final(self)@ == old(self)@.push(instance),
    {
        if (self.size as usize) < self.capacity {
            self.push_unchecked(instance);
            Ok(())
        } else {
            Err(BatchError::Full)
        }
    }

    /// Number of instances in the batch.
    pub fn size(&self) -> (n: u64)
        requires
            self.wf(),
        ensures
            n == self@.instances.len(),
    {
        self.size as u64
    }

    /// The capacity that the batch was made with.
    pub fn capacity(&self) -> (n: usize)
        ensures
            n == self@.capacity,
    {
        self.capacity
    }

    /// Whether the metadata differs from what the device was last given.
    pub fn is_metadata_dirty(&self) -> (dirty: bool)
        ensures
            dirty == self@.metadata_dirty(),
    {
        match self.flushed_metadata {
            Some(flushed) => flushed != self.metadata,
            None => true,
        }
    }

    /// The metadata as it stands on the host.
    pub fn metadata(&self) -> (metadata: BatchMetadata)
        ensures
            metadata == self@.metadata,
    {
        self.metadata
    }

    /// Replaces the metadata by what `mutator` makes of it.
    ///
    /// Only the host copy changes. The next flush writes the metadata if it
    /// then differs from what the device was last given, so a mutation that
    /// changes nothing causes no write.
    pub fn mutate_metadata<F: FnOnce(BatchMetadata) -> BatchMetadata>(&mut self, mutator: F)
        requires
            old(self).wf(),
            call_requires(mutator, (old(self)@.metadata,)),
        ensures
            final(self).wf(),
            call_ensures(mutator, (old(self)@.metadata,), final(self)@.metadata),
            final(self)@ == old(self)@.with_metadata(final(self)@.metadata),
    {
        let metadata_before_mutator = self.metadata;
        self.metadata = mutator(metadata_before_mutator);
    }

    /// The bytes of the slots from `first_slot` up to, not including,
    /// `end_slot` of the host copy.
    fn encode_slots(&self, first_slot: usize, end_slot: usize) -> (bytes: Vec<u8>)
        requires
            self.wf(),
            first_slot <= end_slot <= MAX_BATCH_SIZE,
        ensures
            bytes@ == self@.mirror_bytes(first_slot as int, end_slot as int),
    {
        let mut bytes: Vec<u8> = Vec::new();
        let mut slot = first_slot;
        while slot < end_slot
            invariant
                self.wf(),
                first_slot <= slot <= end_slot <= MAX_BATCH_SIZE,
                bytes@ == self@.mirror_bytes(first_slot as int, slot as int),
            decreases end_slot - slot,
        {
            let instance = self.instance_local_array[slot];
            instance.write_to(&mut bytes);
            proof {
                if slot >= self.size {
                    instance.lemma_zeroed_encoding();
                }
                assert(instance.encode() == self@.slot_bytes(slot as int));
                assert(bytes@ =~= self@.mirror_bytes(first_slot as int, slot + 1));
            }
            slot += 1;
        }
        bytes
    }

    /// Works out what has to be copied to the device, and marks everything
    /// clean.
    ///
    /// The metadata is copied if it is dirty. Of the instances, each maximal
    /// run of dirty regions becomes one copy, so that neighbouring regions
    /// travel together and no clean region travels at all. The caller carries
    /// the copies out; until it has, the device lags behind.
    pub fn flush(&mut self) -> (plan: FlushPlan)
        requires
            old(self).wf(),
        ensures
            final(self).wf(),
            old(self)@.is_flush_plan(plan),
            final(self)@ == old(self)@.flushed(),
    {
        let ghost batch = self@;
        let metadata = if self.is_metadata_dirty() {
            Some(self.metadata.to_bytes())
        } else {
            None
        };
        let mut instances: Vec<BufferWrite> = Vec::new();
        let mut region: usize = 0;
        while region < REGION_COUNT
            invariant
                self.wf(),
                self@ == batch,
                region <= REGION_COUNT,
                forall|k: int| 0 <= k < instances@.len() ==> batch.is_run_write(#[trigger] instances@[k]),
                forall|k: int|
                    0 <= k < instances@.len() - 1 ==> (#[trigger] instances@[k]).end_region
                        < instances@[k + 1].first_region,
                instances@.len() > 0 ==> instances@.last().end_region <= region,
                instances@.len() > 0 && region < REGION_COUNT && batch.dirty[region as int]
                    ==> instances@.last().end_region < region,
                forall|r: int| 0 <= r < region && #[trigger] batch.dirty[r] ==> covers(instances@, r),
            decreases REGION_COUNT - region,
        {
            if self.instance_dirty_flag.is_marked(region) {
                let first_region = region;
                region += 1;
                while region < REGION_COUNT && self.instance_dirty_flag.is_marked(region)
                    invariant
                        self@ == batch,
                        first_region < region <= REGION_COUNT,
                        forall|r: int| first_region <= r < region ==> #[trigger] batch.dirty[r],
                    decreases REGION_COUNT - region,
                {
                    region += 1;
                }
                let first_slot = first_region * (INSTANCES_PER_REGION as usize);
                let end_slot = if region * (INSTANCES_PER_REGION as usize) <= self.capacity {
                    region * (INSTANCES_PER_REGION as usize)
                } else {
                    self.capacity
                };
                assert(batch.dirty[first_region as int]);
                let bytes = self.encode_slots(first_slot, end_slot);
                let ghost before = instances@;
                instances.push(
                    BufferWrite {
                        first_region,
                        end_region: region,
                        offset: (first_region * REGION_BYTES) as u64,
                        bytes,
                    },
                );
                proof {
                    let last = before.len() as int;
                    assert(instances@[last].first_region == first_region);
                    assert forall|r: int| 0 <= r < region && #[trigger] batch.dirty[r] implies covers(
                        instances@,
                        r,
                    ) by {
                        if r < first_region {
                            let k = choose|k: int|
                                0 <= k < before.len() && (#[trigger] before[k]).first_region <= r
                                    < before[k].end_region;
                            assert(instances@[k] == before[k]);
                        } else {
                            assert(instances@[last].first_region <= r < instances@[last].end_region);
                        }
                    }
                    assert forall|k: int| 0 <= k < instances@.len() - 1 implies (
                    #[trigger] instances@[k]).end_region < instances@[k + 1].first_region by {
                        assert(instances@[k] == before[k]);
                        if k + 1 < last {
                            assert(instances@[k + 1] == before[k + 1]);
                        }
                    }
                }
            } else {
                region += 1;
            }
        }
        self.instance_dirty_flag.clear();
        self.flushed_metadata = Some(self.metadata);
        proof {
            assert(self@.dirty =~= Seq::new(REGION_COUNT as nat, |r: int| false));
        }
        FlushPlan { metadata, instances }
    }

    /// The byte range of the device's instance buffer that holds the
    /// instances of the batch: a draw must not read beyond it.
    pub fn buffer_slice(&self) -> (range: core::ops::Range<u64>)
        requires
            self.wf(),
        ensures
            range.start == 0,
            range.end == self@.live_bytes(),
    {
        let bytes_size = self.size() * (INSTANCE_SIZE as u64);
        0..bytes_size
    }
}

} // verus!
