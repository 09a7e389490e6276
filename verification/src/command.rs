//! The vocabulary between the library and the code that talks to the GPU.
//!
//! Every Vulkan call is `unsafe` and depends on a driver, so the library never
//! makes one itself.  Each operation of the library is a small state machine:
//! it hands out a [`Command`] to perform, is fed back the [`Outcome`], and
//! eventually finishes with a value, with a failure (after naming the objects
//! to release), or with an abort where the program is meant to stop.
//! Handles are carried as their raw integer values (`0` is the null handle).
use vstd::prelude::*;

verus! {

/// A Vulkan error code (the raw value of `vk::ErrorCode`).
#[derive(Clone, Copy, Debug, PartialEq, Eq, Structural)]
pub struct VkError {
    pub code: i32,
}

/// A compute-to-compute barrier on the whole of one buffer.
#[derive(Clone, Copy, Debug, PartialEq, Eq, Structural)]
pub struct BufferBarrier {
    pub buffer: u64,
    pub size: u64,
    pub queue_family: u32,
}

/// One Vulkan call for the executor to make.
#[derive(Debug)]
pub enum Command {
    /// Load Vulkan and create the instance (with the validation layer,
    /// its features and the debug-utils extension when `validation` is set).
    CreateInstance { validation: bool, application_version: u32, engine_version: u32, api_version: u32 },
    /// Create the debug messenger that reports validation messages.
    CreateDebugMessenger,
    /// List the physical devices (outcome: `Handles`).
    EnumeratePhysicalDevices,
    /// Read the queue flags of every queue family (outcome: `QueueFamilies`).
    GetQueueFamilyFlags { physical_device: u64 },
    /// Create the logical device with one queue of the family (synchronization2 on).
    CreateDevice { physical_device: u64, queue_family: u32 },
    /// Fetch a queue of the device (outcome: `Handle`).
    GetDeviceQueue { queue_family: u32, index: u32 },
    /// Create a resettable command pool (outcome: `Handle`).
    CreateCommandPool { queue_family: u32 },
    /// Allocate primary command buffers (outcome: `Handles`).
    AllocateCommandBuffers { pool: u64, count: u32 },
    /// Create an exclusive buffer with the usage bits (outcome: `Handle`).
    CreateBuffer { size: u64, usage: u32 },
    /// Read the buffer's memory type mask and the property flags of every
    /// memory type of the device (outcome: `MemoryReport`).
    GetMemoryReport { buffer: u64, physical_device: u64 },
    /// Allocate device memory (outcome: `Handle`).
    AllocateMemory { size: u64, memory_type: u32 },
    /// Bind memory to a buffer at offset 0.
    BindBufferMemory { buffer: u64, memory: u64 },
    /// Map the first `size` bytes of host-visible memory, copy the words
    /// (each as the bits of an `f32`, in the machine's byte order) to its
    /// start, and unmap it.
    WriteMemory { memory: u64, size: u64, words: Vec<u32> },
    /// Map the first `size` bytes of host-visible memory, read `count` words
    /// from its start, and unmap it (outcome: `Words`).
    ReadMemory { memory: u64, size: u64, count: usize },
    /// Create a descriptor set layout of compute storage-buffer bindings, one per number.
    CreateDescriptorSetLayout { bindings: Vec<u32> },
    /// Create a pipeline layout with one set layout and a compute push-constant range.
    CreatePipelineLayout { set_layout: u64, push_constant_size: u32 },
    /// Create a shader module from SPIR-V words.
    CreateShaderModule { code_size: usize, code: Vec<u32> },
    /// Create one compute pipeline whose entry point is `main` (outcome: `Handles`).
    CreateComputePipeline { layout: u64, module: u64 },
    /// Create a descriptor pool for one set of storage-buffer descriptors.
    CreateDescriptorPool { descriptor_count: u32 },
    /// Allocate one descriptor set (outcome: `Handles`).
    AllocateDescriptorSet { pool: u64, layout: u64 },
    /// Point a storage-buffer binding of a set at a buffer.
    WriteStorageDescriptor { set: u64, binding: u32, buffer: u64, range: u64 },
    /// Record buffer barriers (shader write before shader read).
    PipelineBarrier { command_buffer: u64, barriers: Vec<BufferBarrier> },
    /// Record binding a descriptor set as set 0 for compute.
    BindDescriptorSet { command_buffer: u64, layout: u64, set: u64 },
    /// Record pushing constants at offset 0 for the compute stage.
    PushConstants { command_buffer: u64, layout: u64, bytes: Vec<u8> },
    /// Record binding a compute pipeline.
    BindPipeline { command_buffer: u64, pipeline: u64 },
    /// Record a dispatch.
    Dispatch { command_buffer: u64, group_count_x: u32, group_count_y: u32, group_count_z: u32 },
    DestroyBuffer { buffer: u64 },
    FreeMemory { memory: u64 },
    DestroyShaderModule { module: u64 },
    DestroyPipeline { pipeline: u64 },
    DestroyPipelineLayout { layout: u64 },
    DestroyDescriptorSetLayout { layout: u64 },
    DestroyDescriptorPool { pool: u64 },
    DestroyCommandPool { pool: u64 },
    DestroyDebugMessenger { messenger: u64 },
    DestroyDevice,
    DestroyInstance,
}

/// What performing a command gave.
#[derive(Debug)]
pub enum Outcome {
    /// The call succeeded and returns nothing the library keeps.
    Done,
    /// The call created one object.
    Handle(u64),
    /// The call returned a list of objects.
    Handles(Vec<u64>),
    /// Words read from memory.
    Words(Vec<u32>),
    /// The queue flags of each queue family, in order.
    QueueFamilies(Vec<u32>),
    /// A buffer's allowed memory types and each memory type's property flags.
    MemoryReport { type_bits: u32, type_flags: Vec<u32> },
    /// The call failed.
    Failed(VkError),
}

/// Why an operation stops the program instead of reporting an error.
#[derive(Clone, Copy, Debug, PartialEq, Eq, Structural)]
pub enum AbortReason {
    /// The debug messenger could not be created.
    MessengerFailed,
    /// No physical device is present.
    NoPhysicalDevice,
    /// No queue family supports compute work.
    NoComputeQueue,
    /// No memory type suits device-local buffers.
    NoDeviceLocalMemory,
    /// No memory type suits host-visible buffers.
    NoHostVisibleMemory,
    /// Device-local arrays are not supported.
    DeviceLocalUnsupported,
    /// A call returned fewer objects than were asked for.
    MissingHandle,
    /// The outcome does not answer the command that was handed out.
    UnexpectedOutcome,
}

/// What an operation wants next.
#[derive(Debug)]
pub enum Next<T> {
    /// Perform this command and feed its outcome back.
    Issue(Command),
    /// The operation failed: perform these release commands, in order, then
    /// report the error.
    Fail(Vec<Command>, VkError),
    /// The operation is complete.
    Ready(T),
    /// The program must stop.
    Abort(AbortReason),
}

} // verus!
