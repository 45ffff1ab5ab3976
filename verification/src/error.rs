//! What can go wrong, by the stage at which it does.
use crate::binding::BufferRole;
use vstd::prelude::*;

verus! {

/// The four kinds of failure.
#[derive(Clone, Copy, Debug, PartialEq, Eq, Structural)]
pub enum ErrorKind {
    /// The machine offers nothing to compute on.
    EnvironmentAbsence,
    /// A buffer, a pipeline or a descriptor set could not be had.
    ResourceExhaustion,
    /// Recording the commands or handing them to the queue failed.
    Submission,
    /// Waiting for the device, or reading what it wrote, failed.
    Synchronization,
}

/// A failure, named by the stage that failed. None of them is recovered from.
#[derive(Clone, Copy, Debug, PartialEq, Eq, Structural)]
pub enum TracerError {
    /// The Vulkan instance could not be created.
    NoInstance,
    /// The instance lists no device.
    NoDevice,
    /// No queue family of any device supports compute operations.
    NoComputeQueue,
    /// The logical device could not be created.
    DeviceCreation,
    /// The buffer of this role could not be allocated.
    BufferAllocation(BufferRole),
    /// The kernel module could not be loaded.
    ShaderModule,
    /// The compute pipeline could not be created.
    Pipeline,
    /// The descriptor set could not be built.
    DescriptorSet,
    /// The dispatch could not be recorded.
    Recording,
    /// The command buffer could not be submitted.
    Submission,
    /// The fence could not be signalled or waited for.
    FenceWait,
    /// The output was asked for before the fence was signalled.
    NotSignaled,
    /// The output buffer could not be mapped for reading.
    BufferMap,
}

impl TracerError {
    /// The kind of failure that this is.
    pub open spec fn kind_of(self) -> ErrorKind {
        match self {
            TracerError::NoInstance => ErrorKind::EnvironmentAbsence,
            TracerError::NoDevice => ErrorKind::EnvironmentAbsence,
            TracerError::NoComputeQueue => ErrorKind::EnvironmentAbsence,
            TracerError::DeviceCreation => ErrorKind::EnvironmentAbsence,
            TracerError::BufferAllocation(_) => ErrorKind::ResourceExhaustion,
            TracerError::ShaderModule => ErrorKind::ResourceExhaustion,
            TracerError::Pipeline => ErrorKind::ResourceExhaustion,
            TracerError::DescriptorSet => ErrorKind::ResourceExhaustion,
            TracerError::Recording => ErrorKind::Submission,
            TracerError::Submission => ErrorKind::Submission,
            TracerError::FenceWait => ErrorKind::Synchronization,
            TracerError::NotSignaled => ErrorKind::Synchronization,
            TracerError::BufferMap => ErrorKind::Synchronization,
        }
    }

    /// The words that tell the user which stage failed.
    pub open spec fn message_of(self) -> Seq<char> {
        match self {
            TracerError::NoInstance => "Failed to create instance"@,
            TracerError::NoDevice => "No vulkan device available"@,
            TracerError::NoComputeQueue => "Couldn't find compute queue family"@,
            TracerError::DeviceCreation => "failed to create device"@,
            TracerError::BufferAllocation(_) => "Failed to create buffer"@,
            TracerError::ShaderModule => "Failed to create shader module"@,
            TracerError::Pipeline => "Failed to create compute pipeline"@,
            TracerError::DescriptorSet => "Failed to build descriptor set"@,
            TracerError::Recording => "Failed to record dispatch"@,
            TracerError::Submission => "Failed to submit command buffer"@,
            TracerError::FenceWait => "Failed to wait for fence"@,
            TracerError::NotSignaled => "Output read before fence was signaled"@,
            TracerError::BufferMap => "Failed to map output buffer"@,
        }
    }

    /// The kind of failure that this is.
    pub fn kind(&self) -> (kind: ErrorKind)
        ensures
            kind == self.kind_of(),
    {
        match self {
            TracerError::NoInstance => ErrorKind::EnvironmentAbsence,
            TracerError::NoDevice => ErrorKind::EnvironmentAbsence,
            TracerError::NoComputeQueue => ErrorKind::EnvironmentAbsence,
            TracerError::DeviceCreation => ErrorKind::EnvironmentAbsence,
            TracerError::BufferAllocation(_) => ErrorKind::ResourceExhaustion,
            TracerError::ShaderModule => ErrorKind::ResourceExhaustion,
            TracerError::Pipeline => ErrorKind::ResourceExhaustion,
            TracerError::DescriptorSet => ErrorKind::ResourceExhaustion,
            TracerError::Recording => ErrorKind::Submission,
            TracerError::Submission => ErrorKind::Submission,
            TracerError::FenceWait => ErrorKind::Synchronization,
            TracerError::NotSignaled => ErrorKind::Synchronization,
            TracerError::BufferMap => ErrorKind::Synchronization,
        }
    }

    /// The words that tell the user which stage failed.
    pub fn message(&self) -> (text: &'static str)
        ensures
            text@ == self.message_of(),
    {
        match self {
            TracerError::NoInstance => "Failed to create instance",
            TracerError::NoDevice => "No vulkan device available",
            TracerError::NoComputeQueue => "Couldn't find compute queue family",
            TracerError::DeviceCreation => "failed to create device",
            TracerError::BufferAllocation(_) => "Failed to create buffer",
            TracerError::ShaderModule => "Failed to create shader module",
            TracerError::Pipeline => "Failed to create compute pipeline",
            TracerError::DescriptorSet => "Failed to build descriptor set",
            TracerError::Recording => "Failed to record dispatch",
            TracerError::Submission => "Failed to submit command buffer",
            TracerError::FenceWait => "Failed to wait for fence",
            TracerError::NotSignaled => "Output read before fence was signaled",
            TracerError::BufferMap => "Failed to map output buffer",
        }
    }
}

} // verus!
