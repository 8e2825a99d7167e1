//! Why flushing keeps the device in step with the host.
//!
//! The batch never sees the device. A flush hands out copies, and whoever
//! holds the device carries them out. The statements below say what the
//! device then holds, for every device buffer that was in step before.

use crate::batch::{
    apply_metadata_write, apply_writes, covers, zeros, BatchView, BufferWrite, FlushPlan,
    MAX_BATCH_SIZE, REGION_BYTES, REGION_COUNT,
};
use crate::instance::BatchInstance;
use crate::metadata::BatchMetadata;
use vstd::prelude::*;

verus! {

/// The bytes of `instances` one after the other.
pub open spec fn encode_all(instances: Seq<BatchInstance>) -> Seq<u8> {
    Seq::new((instances.len() * 20) as nat, |k: int| instances[k / 20].encode()[k % 20])
}

/// A batch of any capacity up to `MAX_BATCH_SIZE` takes exactly that many
/// pushes: while fewer instances than the capacity have been pushed it is
/// not full, so the next push is allowed, and once as many have been pushed
/// it is full, so that no further push is. The instances stay in the order
/// in which they came, none lost and none twice.
pub proof fn lemma_push_all(capacity: nat, metadata: BatchMetadata, pushed: Seq<BatchInstance>)
    requires
        capacity <= MAX_BATCH_SIZE,
        pushed.len() <= capacity,
    ensures
        BatchView::new(capacity, metadata).push_all(pushed).wf(),
        BatchView::new(capacity, metadata).push_all(pushed).capacity == capacity,
        BatchView::new(capacity, metadata).push_all(pushed).instances == pushed,
        BatchView::new(capacity, metadata).push_all(pushed).is_full() <==> pushed.len()
            == capacity,
    decreases pushed.len(),
{
    let fresh = BatchView::new(capacity, metadata);
    if pushed.len() == 0 {
        assert(fresh.push_all(pushed).instances =~= pushed);
    } else {
        lemma_push_all(capacity, metadata, pushed.drop_last());
        let before = fresh.push_all(pushed.drop_last());
        lemma_push_keeps_wf(before, pushed.last());
        assert(before.push(pushed.last()).instances =~= pushed);
    }
}

/// A new batch is well-formed, and in step with a device whose instance
/// buffer is fresh, that is, all zero.
pub proof fn lemma_new_in_sync(capacity: nat, metadata: BatchMetadata)
    requires
        capacity <= MAX_BATCH_SIZE,
    ensures
        BatchView::new(capacity, metadata).wf(),
        BatchView::new(capacity, metadata).in_sync(zeros(capacity * 20)),
        BatchView::new(capacity, metadata).metadata_dirty(),
{
}

/// A push into a batch that is not full leaves it well-formed.
pub proof fn lemma_push_keeps_wf(batch: BatchView, instance: BatchInstance)
    requires
        batch.wf(),
        !batch.is_full(),
    ensures
        batch.push(instance).wf(),
{
    let after = batch.push(instance);
    assert forall|r: int| 0 <= r < REGION_COUNT && #[trigger] after.dirty[r] implies r * 16
        < after.instances.len() by {
        if r != batch.instances.len() as int / 16 {
            assert(batch.dirty[r]);
        }
    }
}

/// A push does not bring the batch out of step with the device: the region
/// that it changes is dirty afterwards.
pub proof fn lemma_push_keeps_in_sync(batch: BatchView, instance: BatchInstance, device: Seq<u8>)
    requires
        batch.wf(),
        !batch.is_full(),
        batch.in_sync(device),
    ensures
        batch.push(instance).in_sync(device),
{
    let after = batch.push(instance);
    let at = batch.instances.len() as int;
    assert forall|k: int| 0 <= k < device.len() && !after.dirty[k / 320] implies #[trigger] device[k]
        == after.slot_bytes(k / 20)[k % 20] by {
        assert(k / 20 / 16 == k / 320);
        assert(k / 320 != at / 16);
        assert(!batch.dirty[k / 320]);
        assert(k / 20 != at);
    }
}

/// Each byte of the instance buffer is, after the copies of a flush, what it
/// was before or what the host copy holds there; and it is what the host
/// copy holds wherever a copy reached its region.
proof fn lemma_copied_byte(batch: BatchView, device: Seq<u8>, writes: Seq<BufferWrite>, k: int)
    requires
        batch.wf(),
        device.len() == batch.capacity * 20,
        forall|j: int| 0 <= j < writes.len() ==> batch.is_run_write(#[trigger] writes[j]),
        0 <= k < device.len(),
    ensures
        apply_writes(device, writes).len() == device.len(),
        apply_writes(device, writes)[k] == device[k] || apply_writes(device, writes)[k]
            == batch.slot_bytes(k / 20)[k % 20],
        covers(writes, k / 320) ==> apply_writes(device, writes)[k] == batch.slot_bytes(
            k / 20,
        )[k % 20],
    decreases writes.len(),
{
    if writes.len() > 0 {
        let earlier = writes.drop_last();
        let last = writes.last();
        lemma_copied_byte(batch, device, earlier, k);
        let first_slot = last.first_region * 16;
        let end_slot = batch.end_slot(last.end_region as int);
        assert(batch.is_run_write(writes[writes.len() - 1]));
        assert(batch.dirty[last.first_region as int]);
        assert(first_slot < end_slot);
        let offset = last.offset as int;
        if offset <= k < offset + last.bytes@.len() {
            assert(last.bytes@[k - offset] == batch.slot_bytes(first_slot + (k - offset) / 20)[(k
                - offset) % 20]);
            assert(first_slot + (k - offset) / 20 == k / 20);
            assert((k - offset) % 20 == k % 20);
        }
        if covers(writes, k / 320) {
            let j = choose|j: int|
                0 <= j < writes.len() && (#[trigger] writes[j]).first_region <= k / 320
                    < writes[j].end_region;
            if j < writes.len() - 1 {
                assert(earlier[j] == writes[j]);
                assert(covers(earlier, k / 320));
            } else {
                assert(offset <= k < offset + last.bytes@.len());
            }
        }
    }
}

/// Carrying out the instance copies of a flush brings the device's
/// instance buffer, whole, to what the host copy holds; so the first
/// `size` instances on the device are the pushed ones, byte for byte and in
/// the order of the pushes, and the flushed batch is in step with the device.
pub proof fn lemma_flush_reconciles(batch: BatchView, writes: Seq<BufferWrite>, device: Seq<u8>)
    requires
        batch.wf(),
        batch.in_sync(device),
        batch.is_instance_plan(writes),
    ensures
        apply_writes(device, writes) == batch.mirror_bytes(0, batch.capacity as int),
        apply_writes(device, writes).subrange(0, batch.instances.len() as int * 20) == encode_all(
            batch.instances,
        ),
        batch.flushed().wf(),
        batch.flushed().in_sync(apply_writes(device, writes)),
{
    let after = apply_writes(device, writes);
    let mirror = batch.mirror_bytes(0, batch.capacity as int);
    assert forall|k: int| 0 <= k < device.len() implies after.len() == device.len() && after[k]
        == batch.slot_bytes(k / 20)[k % 20] by {
        lemma_copied_byte(batch, device, writes, k);
        assert(k / 320 < REGION_COUNT);
        if !batch.dirty[k / 320] {
            assert(device[k] == batch.slot_bytes(k / 20)[k % 20]);
        }
    }
    lemma_length_kept(device, writes);
    assert(after =~= mirror);
    assert(after.subrange(0, batch.instances.len() as int * 20) =~= encode_all(batch.instances));
}

/// Copies into a buffer leave its length as it is.
proof fn lemma_length_kept(device: Seq<u8>, writes: Seq<BufferWrite>)
    ensures
        apply_writes(device, writes).len() == device.len(),
    decreases writes.len(),
{
    if writes.len() > 0 {
        lemma_length_kept(device, writes.drop_last());
    }
}

/// From a fresh device on, whatever was pushed is on the device after one
/// flush: its instance buffer starts with the bytes of the pushed
/// instances in the order of the pushes.
pub proof fn lemma_flush_publishes_pushes(
    capacity: nat,
    metadata: BatchMetadata,
    pushed: Seq<BatchInstance>,
    writes: Seq<BufferWrite>,
)
    requires
        capacity <= MAX_BATCH_SIZE,
        pushed.len() <= capacity,
        BatchView::new(capacity, metadata).push_all(pushed).is_instance_plan(writes),
    ensures
        apply_writes(zeros(capacity * 20), writes).subrange(0, pushed.len() as int * 20) == encode_all(
            pushed,
        ),
{
    lemma_pushes_keep_in_sync(capacity, metadata, pushed);
    lemma_push_all(capacity, metadata, pushed);
    lemma_flush_reconciles(
        BatchView::new(capacity, metadata).push_all(pushed),
        writes,
        zeros(capacity * 20),
    );
}

/// Pushes alone never bring a batch out of step with a fresh device.
proof fn lemma_pushes_keep_in_sync(
    capacity: nat,
    metadata: BatchMetadata,
    pushed: Seq<BatchInstance>,
)
    requires
        capacity <= MAX_BATCH_SIZE,
        pushed.len() <= capacity,
    ensures
        BatchView::new(capacity, metadata).push_all(pushed).in_sync(zeros(capacity * 20)),
    decreases pushed.len(),
{
    if pushed.len() == 0 {
        lemma_new_in_sync(capacity, metadata);
    } else {
        lemma_pushes_keep_in_sync(capacity, metadata, pushed.drop_last());
        lemma_push_all(capacity, metadata, pushed.drop_last());
        lemma_push_keeps_in_sync(
            BatchView::new(capacity, metadata).push_all(pushed.drop_last()),
            pushed.last(),
            zeros(capacity * 20),
        );
    }
}

/// Each copy of a flush stays within the device's instance buffer, is not
/// empty, and starts and ends on a multiple of four bytes.
pub proof fn lemma_writes_fit_the_buffer(batch: BatchView, writes: Seq<BufferWrite>, k: int)
    requires
        batch.wf(),
        batch.is_instance_plan(writes),
        0 <= k < writes.len(),
    ensures
        writes[k].bytes@.len() > 0,
        writes[k].offset + writes[k].bytes@.len() <= batch.capacity * 20,
        writes[k].offset % 4 == 0,
        writes[k].bytes@.len() % 4 == 0,
{
    assert(batch.is_run_write(writes[k]));
    lemma_run_fits(batch, writes[k]);
}

/// A copy of one run of dirty regions stays within the device's instance
/// buffer, is not empty, and starts and ends on a multiple of four bytes.
proof fn lemma_run_fits(batch: BatchView, write: BufferWrite)
    requires
        batch.wf(),
        batch.is_run_write(write),
    ensures
        write.bytes@.len() > 0,
        write.offset + write.bytes@.len() <= batch.capacity * 20,
        write.offset % 4 == 0,
        write.bytes@.len() % 4 == 0,
{
    let first_slot = write.first_region as int * 16;
    let end_slot = batch.end_slot(write.end_region as int);
    let offset = write.offset as int;
    let len = write.bytes@.len() as int;
    assert(batch.dirty[write.first_region as int]);
    assert(first_slot < end_slot <= batch.capacity);
    assert(REGION_BYTES == 320);
    assert(offset == first_slot * 20);
    assert(len == (end_slot - first_slot) * 20);
    assert(offset == (first_slot * 5) * 4);
    assert(len == ((end_slot - first_slot) * 5) * 4);
}

/// In a flush plan, a copy that comes earlier ends before a later one starts.
proof fn lemma_runs_ascend(batch: BatchView, writes: Seq<BufferWrite>, i: int, j: int)
    requires
        batch.is_instance_plan(writes),
        0 <= i < j < writes.len(),
    ensures
        writes[i].end_region < writes[j].first_region,
    decreases j - i,
{
    assert(batch.is_run_write(writes[j - 1]));
    if i < j - 1 {
        lemma_runs_ascend(batch, writes, i, j - 1);
    }
}

/// The copies of a flush plan are maximal runs: the region before a copy
/// and the region after it are clean.
pub proof fn lemma_runs_are_maximal(batch: BatchView, writes: Seq<BufferWrite>, k: int)
    requires
        batch.wf(),
        batch.is_instance_plan(writes),
        0 <= k < writes.len(),
    ensures
        writes[k].first_region > 0 ==> !batch.dirty[writes[k].first_region - 1],
        writes[k].end_region < REGION_COUNT ==> !batch.dirty[writes[k].end_region as int],
{
    let first = writes[k].first_region as int;
    let end = writes[k].end_region as int;
    assert(batch.is_run_write(writes[k]));
    if first > 0 {
        lemma_clean_beside(batch, writes, k, first - 1);
    }
    if end < REGION_COUNT {
        lemma_clean_beside(batch, writes, k, end);
    }
}

/// The region right before or right after a copy of a flush plan is
/// clean: were it dirty, no copy of the plan could hold it.
proof fn lemma_clean_beside(batch: BatchView, writes: Seq<BufferWrite>, k: int, r: int)
    requires
        batch.is_instance_plan(writes),
        0 <= k < writes.len(),
        0 <= r < REGION_COUNT,
        r == writes[k].first_region - 1 || r == writes[k].end_region,
    ensures
        !batch.dirty[r],
{
    assert(batch.is_run_write(writes[k]));
    if batch.dirty[r] {
        assert(covers(writes, r));
        let j = choose|j: int|
            0 <= j < writes.len() && (#[trigger] writes[j]).first_region <= r
                < writes[j].end_region;
        if j < k {
            lemma_runs_ascend(batch, writes, j, k);
        } else if j > k {
            lemma_runs_ascend(batch, writes, k, j);
        }
    }
}

/// If two flush plans of one batch agree in their first `k` copies, the
/// next copy of the first plan starts no earlier than that of the second.
proof fn lemma_next_start(
    batch: BatchView,
    a: Seq<BufferWrite>,
    b: Seq<BufferWrite>,
    k: int,
)
    requires
        batch.is_instance_plan(a),
        batch.is_instance_plan(b),
        0 <= k < a.len(),
        k <= b.len(),
        forall|j: int| 0 <= j < k ==> (#[trigger] a[j]).end_region == b[j].end_region,
    ensures
        k < b.len(),
        a[k].first_region >= b[k].first_region,
{
    let r = a[k].first_region as int;
    assert(batch.is_run_write(a[k]));
    assert(batch.dirty[r]);
    assert(covers(b, r));
    let j = choose|j: int|
        0 <= j < b.len() && (#[trigger] b[j]).first_region <= r < b[j].end_region;
    if j < k {
        assert(a[j].end_region == b[j].end_region);
        lemma_runs_ascend(batch, a, j, k);
    } else if j > k {
        lemma_runs_ascend(batch, b, k, j);
        assert(batch.is_run_write(b[k]));
    }
}

/// Two flush plans of one batch agree in their first `k + 1` copies.
proof fn lemma_same_runs(batch: BatchView, a: Seq<BufferWrite>, b: Seq<BufferWrite>, k: int)
    requires
        batch.wf(),
        batch.is_instance_plan(a),
        batch.is_instance_plan(b),
        0 <= k < a.len(),
    ensures
        k < b.len(),
        forall|j: int|
            0 <= j <= k ==> (#[trigger] a[j]).first_region == b[j].first_region && a[j].end_region
                == b[j].end_region,
    decreases k,
{
    if k > 0 {
        lemma_same_runs(batch, a, b, k - 1);
    }
    lemma_next_start(batch, a, b, k);
    lemma_next_start(batch, b, a, k);
    lemma_runs_are_maximal(batch, a, k);
    lemma_runs_are_maximal(batch, b, k);
    assert(batch.is_run_write(a[k]));
    assert(batch.is_run_write(b[k]));
    let first = a[k].first_region as int;
    if a[k].end_region < b[k].end_region {
        assert(batch.dirty[a[k].end_region as int]);
    }
    if b[k].end_region < a[k].end_region {
        assert(batch.dirty[b[k].end_region as int]);
    }
}

/// A batch has one flush plan only: any two agree in the number of their
/// copies, and copy by copy in the regions, the offset and the bytes.
pub proof fn lemma_plan_is_unique(batch: BatchView, a: Seq<BufferWrite>, b: Seq<BufferWrite>)
    requires
        batch.wf(),
        batch.is_instance_plan(a),
        batch.is_instance_plan(b),
    ensures
        a.len() == b.len(),
        forall|k: int|
            0 <= k < a.len() ==> {
                &&& (#[trigger] a[k]).first_region == b[k].first_region
                &&& a[k].end_region == b[k].end_region
                &&& a[k].offset == b[k].offset
                &&& a[k].bytes@ == b[k].bytes@
            },
{
    if a.len() > 0 {
        lemma_same_runs(batch, a, b, a.len() - 1);
    }
    if b.len() > 0 {
        lemma_same_runs(batch, b, a, b.len() - 1);
    }
    assert forall|k: int| 0 <= k < a.len() implies {
        &&& (#[trigger] a[k]).first_region == b[k].first_region
        &&& a[k].end_region == b[k].end_region
        &&& a[k].offset == b[k].offset
        &&& a[k].bytes@ == b[k].bytes@
    } by {
        assert(batch.is_run_write(a[k]));
        assert(batch.is_run_write(b[k]));
    }
}

/// The live part of the instance buffer grows by one instance with each
/// push, from nothing in a new batch.
pub proof fn lemma_live_bytes(batch: BatchView, instance: BatchInstance, metadata: BatchMetadata)
    ensures
        BatchView::new(batch.capacity, metadata).live_bytes() == 0,
        batch.push(instance).live_bytes() == batch.live_bytes() + 20,
        batch.flushed().live_bytes() == batch.live_bytes(),
        batch.with_metadata(metadata).live_bytes() == batch.live_bytes(),
{
}

/// A flush right after a flush has nothing to copy, so it leaves both
/// device buffers as they are.
pub proof fn lemma_second_flush_is_empty(
    batch: BatchView,
    plan: FlushPlan,
    instance_buffer: Seq<u8>,
    metadata_buffer: Seq<u8>,
)
    requires
        batch.wf(),
        batch.flushed().is_flush_plan(plan),
    ensures
        plan.metadata is None,
        plan.instances@.len() == 0,
        apply_writes(instance_buffer, plan.instances@) == instance_buffer,
        apply_metadata_write(metadata_buffer, plan.metadata) == metadata_buffer,
{
    if plan.instances@.len() > 0 {
        let write = plan.instances@[0];
        assert(batch.flushed().is_run_write(write));
        assert(batch.flushed().dirty[write.first_region as int]);
    }
}

/// Carrying out the metadata part of a flush leaves the device's metadata
/// buffer with exactly the bytes of the host's metadata, and the flushed
/// batch clean.
pub proof fn lemma_flush_writes_metadata(
    batch: BatchView,
    write: Option<Vec<u8>>,
    device: Seq<u8>,
)
    requires
        batch.metadata_in_sync(device),
        batch.is_metadata_plan(write),
    ensures
        apply_metadata_write(device, write) == batch.metadata.encode(),
        batch.flushed().metadata_in_sync(apply_metadata_write(device, write)),
        !batch.flushed().metadata_dirty(),
{
}

/// Setting the metadata to `value` and flushing puts the bytes of `value`
/// in the device's metadata buffer; setting it to `value` once more leaves
/// the batch clean, so that the next flush writes no metadata.
pub proof fn lemma_metadata_round_trip(
    batch: BatchView,
    value: BatchMetadata,
    write: Option<Vec<u8>>,
    device: Seq<u8>,
)
    requires
        batch.metadata_in_sync(device),
        batch.with_metadata(value).is_metadata_plan(write),
    ensures
        batch.with_metadata(value).metadata_in_sync(device),
        apply_metadata_write(device, write) == value.encode(),
        !batch.with_metadata(value).flushed().with_metadata(value).metadata_dirty(),
        forall|again: Option<Vec<u8>>|
            batch.with_metadata(value).flushed().with_metadata(value).is_metadata_plan(again)
                ==> again is None,
{
    lemma_flush_writes_metadata(batch.with_metadata(value), write, device);
}

/// Changing the metadata touches neither the instances nor their dirty
/// regions, and a change to the value it already has changes nothing.
pub proof fn lemma_same_metadata_changes_nothing(batch: BatchView)
    ensures
        batch.with_metadata(batch.metadata) == batch,
{
}

} // verus!
