//! Device-visible buffers of 32-bit words: allocating one with given contents, and
//! reading one back.
//!
//! Every buffer here is an array of words. The scene and the camera are uploaded as
//! their images, so that what the kernel finds in memory does not depend on how the
//! compiler lays out a struct.
use crate::binding::BufferRole;
use crate::error::TracerError;
use std::sync::Arc;
use vstd::prelude::*;
use vulkano::buffer::cpu_access::ReadLockError;
use vulkano::buffer::{BufferUsage, CpuAccessibleBuffer};
use vulkano::device::{Device, Queue};
use vulkano::memory::pool::{PotentialDedicatedAllocation, StdMemoryPoolAlloc};
use vulkano::memory::DeviceMemoryAllocError;

verus! {

/// `vulkano::device::Device`, opaque here.
#[verifier::external_type_specification]
#[verifier::external_body]
pub struct ExDevice(Device);

/// `vulkano::device::Queue`, opaque here.
#[verifier::external_type_specification]
#[verifier::external_body]
pub struct ExQueue(Queue);

/// `vulkano::buffer::CpuAccessibleBuffer`, opaque here.
#[verifier::external_type_specification]
#[verifier::external_body]
#[verifier::reject_recursive_types(T)]
#[verifier::reject_recursive_types(A)]
pub struct ExCpuAccessibleBuffer<T: ?Sized, A>(CpuAccessibleBuffer<T, A>);

/// `vulkano::memory::pool::PotentialDedicatedAllocation`, the memory behind a buffer;
/// opaque here.
#[verifier::external_type_specification]
#[verifier::external_body]
#[verifier::reject_recursive_types(A)]
pub struct ExPotentialDedicatedAllocation<A>(PotentialDedicatedAllocation<A>);

/// `vulkano::memory::pool::StdMemoryPoolAlloc`, the memory behind a buffer; opaque here.
#[verifier::external_type_specification]
#[verifier::external_body]
pub struct ExStdMemoryPoolAlloc(StdMemoryPoolAlloc);

/// `vulkano::memory::DeviceMemoryAllocError`, opaque here.
#[verifier::external_type_specification]
#[verifier::external_body]
pub struct ExDeviceMemoryAllocError(DeviceMemoryAllocError);

/// `vulkano::buffer::cpu_access::ReadLockError`, opaque here.
#[verifier::external_type_specification]
#[verifier::external_body]
pub struct ExReadLockError(ReadLockError);

/// The size of a word in bytes.
pub const WORD_BYTES: usize = 4;

/// A buffer of words that both the host and the device can reach.
pub type WordBuffer = CpuAccessibleBuffer<[u32]>;

/// The words that a buffer was allocated with, in order. They are a fact of the
/// buffer's creation and fix its length for good. What the buffer holds at a later time
/// is not named: the device changes it.
pub uninterp spec fn initial_words(buffer: CpuAccessibleBuffer<[u32]>) -> Seq<u32>;

/// The number of words that a buffer has room for.
pub open spec fn word_capacity(buffer: CpuAccessibleBuffer<[u32]>) -> nat {
    initial_words(buffer).len()
}

/// `CpuAccessibleBuffer::from_iter` with every usage allowed and no preference for
/// host-cached memory, on the words of `words` in order. It multiplies the number of
/// words by their size, so that product has to fit. A buffer that it returns was made
/// for exactly the words it was given, which it copied in. Whether the allocation
/// succeeds depends on the device.
#[verifier::external_body]
fn allocate_words(device: &Arc<Device>, words: &Vec<u32>) -> (made: Result<
    Arc<CpuAccessibleBuffer<[u32]>>,
    DeviceMemoryAllocError,
>)
    requires
        words@.len() * WORD_BYTES <= usize::MAX,
    ensures
        made matches Ok(buffer) ==> initial_words(*buffer) == words@,
{
    CpuAccessibleBuffer::from_iter(device.clone(), BufferUsage::all(), false, words.iter().copied())
}

/// `CpuAccessibleBuffer::read`, and a copy of what the lock gives access to. The copy
/// has as many words as the buffer was made for. The lock is refused while the buffer is
/// locked for writing by the host or by the device.
#[verifier::external_body]
fn read_words(buffer: &Arc<CpuAccessibleBuffer<[u32]>>) -> (read: Result<Vec<u32>, ReadLockError>)
    ensures
        read matches Ok(words) ==> words@.len() == word_capacity(**buffer),
{
    buffer.read().map(|content| content.to_vec())
}

/// `count` words, all zero: what the output buffer holds before the kernel has run.
pub fn zeroed(count: usize) -> (words: Vec<u32>)
    ensures
        words@.len() == count,
        forall|i: int| 0 <= i < count ==> words@[i] == 0,
{
    let mut words: Vec<u32> = Vec::new();
    let mut filled: usize = 0;
    while filled < count
        invariant
            filled <= count,
            words@.len() == filled,
            forall|i: int| 0 <= i < filled ==> words@[i] == 0,
        decreases count - filled,
    {
        words.push(0);
        filled = filled + 1;
    }
    words
}

/// What an allocation for `role` comes to: the buffer, or the error that names the
/// role.
pub fn allocated(
    made: Result<Arc<CpuAccessibleBuffer<[u32]>>, DeviceMemoryAllocError>,
    role: BufferRole,
) -> (buffer: Result<Arc<CpuAccessibleBuffer<[u32]>>, TracerError>)
    ensures
        match made {
            Ok(given) => buffer == Ok::<Arc<CpuAccessibleBuffer<[u32]>>, TracerError>(given),
            Err(_) => buffer == Err::<Arc<CpuAccessibleBuffer<[u32]>>, TracerError>(
                TracerError::BufferAllocation(role),
            ),
        },
{
    match made {
        Ok(given) => Ok(given),
        Err(_) => Err(TracerError::BufferAllocation(role)),
    }
}

/// What a read-back comes to, for a buffer meant to hold `expected` words: the words
/// where the read succeeded and gave that many; else `BufferMap`.
pub fn delivered(read: Result<Vec<u32>, ReadLockError>, expected: usize) -> (pixels: Result<
    Vec<u32>,
    TracerError,
>)
    ensures
        match read {
            Ok(words) => if words@.len() == expected {
                pixels == Ok::<Vec<u32>, TracerError>(words)
            } else {
                pixels == Err::<Vec<u32>, TracerError>(TracerError::BufferMap)
            },
            Err(_) => pixels == Err::<Vec<u32>, TracerError>(TracerError::BufferMap),
        },
{
    match read {
        Ok(words) => if words.len() == expected {
            Ok(words)
        } else {
            Err(TracerError::BufferMap)
        },
        Err(_) => Err(TracerError::BufferMap),
    }
}

/// Allocates a buffer on `device` that holds `words`, for the given role. The buffer is
/// made with exactly these words. A failed allocation is
/// `BufferAllocation(role)`, and so is a buffer of more bytes than the machine can
/// address, which is not asked for.
pub fn upload(device: &Arc<Device>, words: &Vec<u32>, role: BufferRole) -> (buffer: Result<
    Arc<CpuAccessibleBuffer<[u32]>>,
    TracerError,
>)
    ensures
        words@.len() * WORD_BYTES > usize::MAX ==> buffer is Err,
        buffer matches Ok(made) ==> initial_words(*made) == words@,
        buffer matches Err(error) ==> error == TracerError::BufferAllocation(role),
{
    if words.len() > usize::MAX / WORD_BYTES {
        return Err(TracerError::BufferAllocation(role));
    }
    allocated(allocate_words(device, words), role)
}

/// Reads back all the words of `buffer`, which was made for `expected` words. A refused
/// lock is `BufferMap`.
pub fn download(buffer: &Arc<CpuAccessibleBuffer<[u32]>>, expected: usize) -> (pixels: Result<
    Vec<u32>,
    TracerError,
>)
    ensures
        pixels matches Ok(words) ==> words@.len() == expected && expected == word_capacity(
            **buffer,
        ),
        pixels matches Err(error) ==> error == TracerError::BufferMap,
{
    delivered(read_words(buffer), expected)
}

} // verus!
