//! The device context: setting up the instance, device, queue, command pool
//! and memory types; tearing them down in reverse order; and allocating,
//! binding and releasing host-visible `f32` arrays.
use vstd::prelude::*;
use crate::command::{AbortReason, Command, Next, Outcome, VkError};
use crate::selection::{find_compute_family, find_memory_type, is_first_compute_family, memory_type_fits, supports_compute};
use crate::vulkan::{
    make_version, memory_device_local_bit, memory_host_visible_bit, usage_storage_buffer_bit,
    usage_transfer_dst_bit, usage_transfer_src_bit,
};

verus! {

/// A buffer of `count` `f32` values bound to its own memory.
#[derive(Clone, Copy, Debug, PartialEq, Eq, Structural)]
pub struct DeviceF32Array {
    pub buffer: u64,
    pub memory: u64,
    pub is_dev_local: bool,
    /// Number of `f32` elements.
    pub count: usize,
    /// Size in bytes.
    pub size: usize,
}

/// The array that refers to nothing.
pub open spec fn null_array() -> DeviceF32Array {
    DeviceF32Array { buffer: 0, memory: 0, is_dev_local: false, count: 0, size: 0 }
}

impl Default for DeviceF32Array {
    fn default() -> (r: Self)
        ensures
            r == null_array(),
    {
        DeviceF32Array { buffer: 0, memory: 0, is_dev_local: false, count: 0, size: 0 }
    }
}

/// The usage of every array buffer: storage, transfer source and transfer destination.
pub open spec fn array_usage() -> u32 {
    35
}

/// `STORAGE_BUFFER | TRANSFER_DST | TRANSFER_SRC`.
fn storage_transfer_usage() -> (r: u32)
    ensures
        r == array_usage(),
{
    let storage = usage_storage_buffer_bit();
    let dst = usage_transfer_dst_bit();
    let src = usage_transfer_src_bit();
    assert((32u32 | 2u32) | 1u32 == 35u32) by (bit_vector);
    storage | dst | src
}

/// An object that the context owns and releases when it is torn down.
#[derive(Clone, Copy, Debug, PartialEq, Eq, Structural)]
pub enum Cleanup {
    Instance,
    DebugMessenger(u64),
    Device,
    CommandPool(u64),
}

/// The command that releases a registered object.
pub open spec fn cleanup_command(c: Cleanup) -> Command {
    match c {
        Cleanup::Instance => Command::DestroyInstance,
        Cleanup::DebugMessenger(m) => Command::DestroyDebugMessenger { messenger: m },
        Cleanup::Device => Command::DestroyDevice,
        Cleanup::CommandPool(p) => Command::DestroyCommandPool { pool: p },
    }
}

fn cleanup_to_command(c: Cleanup) -> (r: Command)
    ensures
        r == cleanup_command(c),
{
    match c {
        Cleanup::Instance => Command::DestroyInstance,
        Cleanup::DebugMessenger(m) => Command::DestroyDebugMessenger { messenger: m },
        Cleanup::Device => Command::DestroyDevice,
        Cleanup::CommandPool(p) => Command::DestroyCommandPool { pool: p },
    }
}

/// The release commands for registered objects, newest first.
pub open spec fn teardown_plan(steps: Seq<Cleanup>) -> Seq<Command> {
    Seq::new(steps.len(), |k: int| cleanup_command(steps[steps.len() - 1 - k]))
}

/// Law: tearing down releases the newest object first: after registering
/// `c`, the plan starts with `c`'s release and goes on with the plan from
/// before; and each registered object is released exactly once, by the
/// command that destroys it.
pub proof fn lemma_teardown_newest_first(steps: Seq<Cleanup>, c: Cleanup)
    ensures
        teardown_plan(steps.push(c)) == seq![cleanup_command(c)] + teardown_plan(steps),
        teardown_plan(steps).len() == steps.len(),
        forall|i: int| 0 <= i < steps.len() ==> teardown_plan(steps)[steps.len() - 1 - i] == cleanup_command(#[trigger] steps[i]),
        cleanup_command(Cleanup::Instance) == Command::DestroyInstance,
        cleanup_command(Cleanup::Device) == Command::DestroyDevice,
        forall|m: u64| #[trigger] cleanup_command(Cleanup::DebugMessenger(m)) == (Command::DestroyDebugMessenger { messenger: m }),
        forall|p: u64| #[trigger] cleanup_command(Cleanup::CommandPool(p)) == (Command::DestroyCommandPool { pool: p }),
{
    assert(teardown_plan(steps.push(c)) =~= seq![cleanup_command(c)] + teardown_plan(steps));
}

/// The objects registered for release, in the order they were acquired.
#[derive(Debug)]
pub struct CleanupStack {
    steps: Vec<Cleanup>,
}

impl CleanupStack {
    pub closed spec fn view(&self) -> Seq<Cleanup> {
        self.steps@
    }

    pub fn new() -> (r: Self)
        ensures
            r@ == Seq::<Cleanup>::empty(),
    {
        CleanupStack { steps: Vec::new() }
    }

    /// Registers one more object to release.
    pub fn register(&mut self, c: Cleanup)
        ensures
            final(self)@ == old(self)@.push(c),
    {
        self.steps.push(c);
    }

    /// Release every registered object, newest first.
    pub fn teardown(&self) -> (r: Vec<Command>)
        ensures
            r@ == teardown_plan(self@),
    {
        let n = self.steps.len();
        let mut r: Vec<Command> = Vec::new();
        let mut i: usize = n;
        while i > 0
            invariant
                n == self.steps@.len(),
                i <= n,
                r@.len() == n - i,
                forall|k: int| 0 <= k < n - i ==> #[trigger] r@[k] == cleanup_command(self.steps@[n - 1 - k]),
            decreases i,
        {
            i = i - 1;
            let c = cleanup_to_command(self.steps[i]);
            r.push(c);
        }
        assert(r@ =~= teardown_plan(self@));
        r
    }
}

/// The objects of a device context.  The instance and device themselves stay
/// with the executor; the context records the handles and choices the rest of
/// the library needs, and what to release, in the order it was acquired.
#[derive(Debug)]
pub struct Context {
    pub messenger: u64,
    pub phy_dev: u64,
    pub comp_fam: u32,
    pub cleanup: CleanupStack,
    pub comp_queue: u64,
    pub cmd_pool: u64,
    pub cmd_buff: u64,
    pub copy_cmd_buff: u64,
    /// Memory type for host-visible (and, for now, device-local) buffers.
    pub vis_buff_mem_type: u32,
    /// Memory type for device-local buffers.
    pub loc_buff_mem_type: u32,
}

/// A context with nothing set and nothing registered.
pub open spec fn blank_context(c: Context) -> bool {
    &&& c.messenger == 0
    &&& c.phy_dev == 0
    &&& c.comp_fam == 0
    &&& c.cleanup@ == Seq::<Cleanup>::empty()
    &&& c.comp_queue == 0
    &&& c.cmd_pool == 0
    &&& c.cmd_buff == 0
    &&& c.copy_cmd_buff == 0
    &&& c.vis_buff_mem_type == 0
    &&& c.loc_buff_mem_type == 0
}

fn blank() -> (r: Context)
    ensures
        blank_context(r),
{
    Context {
        messenger: 0,
        phy_dev: 0,
        comp_fam: 0,
        cleanup: CleanupStack::new(),
        comp_queue: 0,
        cmd_pool: 0,
        cmd_buff: 0,
        copy_cmd_buff: 0,
        vis_buff_mem_type: 0,
        loc_buff_mem_type: 0,
    }
}

/// The objects an array holds while it is being set up.
#[derive(Clone, Copy, Debug, PartialEq, Eq, Structural)]
pub enum ArrayStage {
    /// Waiting for the buffer.
    Buffer,
    /// Waiting for the memory; the buffer exists.
    Memory { buffer: u64 },
    /// Waiting for the binding; buffer and memory exist.
    Bind { buffer: u64, memory: u64 },
    Finished,
}

/// What releases the objects an array setup holds at a stage.
pub open spec fn array_stage_releases(stage: ArrayStage) -> Seq<Command> {
    match stage {
        ArrayStage::Memory { buffer } => seq![Command::DestroyBuffer { buffer }],
        ArrayStage::Bind { buffer, memory } => seq![
            Command::DestroyBuffer { buffer },
            Command::FreeMemory { memory },
        ],
        _ => Seq::empty(),
    }
}

/// The stage an array setup moves to when `outcome` answers the command it
/// handed out at `stage`: after the buffer, the memory (device-local arrays
/// stop there); after the memory, the binding; after that, or on any
/// failure, it is finished.
pub open spec fn array_next_stage(stage: ArrayStage, is_dev_local: bool, outcome: Outcome) -> ArrayStage {
    match (stage, outcome) {
        (ArrayStage::Buffer, Outcome::Handle(b)) => if is_dev_local {
            ArrayStage::Finished
        } else {
            ArrayStage::Memory { buffer: b }
        },
        (ArrayStage::Memory { buffer }, Outcome::Handle(m)) => ArrayStage::Bind { buffer, memory: m },
        _ => ArrayStage::Finished,
    }
}

/// The command an array setup hands out on entering a waiting stage.
pub open spec fn array_stage_command(stage: ArrayStage, size: u64, memory_type: u32) -> Command {
    match stage {
        ArrayStage::Bind { buffer, memory } => Command::BindBufferMemory { buffer, memory },
        _ => Command::AllocateMemory { size, memory_type },
    }
}

/// The setup of one array: create the buffer, allocate its memory, bind them.
pub struct ArrayAllocation {
    count: usize,
    is_dev_local: bool,
    size: u64,
    memory_type: u32,
    stage: ArrayStage,
}

impl ArrayAllocation {
    pub closed spec fn count(&self) -> usize {
        self.count
    }

    pub closed spec fn is_dev_local(&self) -> bool {
        self.is_dev_local
    }

    pub closed spec fn size(&self) -> u64 {
        self.size
    }

    pub closed spec fn memory_type(&self) -> u32 {
        self.memory_type
    }

    pub closed spec fn stage(&self) -> ArrayStage {
        self.stage
    }

    /// The size is four bytes per element.
    pub closed spec fn wf(&self) -> bool {
        self.size == self.count * 4
    }

    /// Feeds the outcome of the last command handed out.
    ///
    /// If making the memory or binding it fails, what was already made is
    /// released; on success the array owns the buffer and the memory.
    pub fn step(&mut self, outcome: Outcome) -> (r: Next<DeviceF32Array>)
        requires
            old(self).wf(),
        ensures
            final(self).wf(),
            final(self).count() == old(self).count(),
            final(self).is_dev_local() == old(self).is_dev_local(),
            final(self).size() == old(self).size(),
            final(self).memory_type() == old(self).memory_type(),
            r matches Next::Fail(rel, _) ==> rel@ == array_stage_releases(old(self).stage()),
            r matches Next::Ready(arr) ==> arr.size == (arr.count * 4) as usize,
            final(self).stage() == array_next_stage(old(self).stage(), old(self).is_dev_local(), outcome),
            match final(self).stage() {
                ArrayStage::Memory { .. } | ArrayStage::Bind { .. } => r == Next::<DeviceF32Array>::Issue(
                    array_stage_command(final(self).stage(), old(self).size(), old(self).memory_type()),
                ),
                _ => match (old(self).stage(), outcome) {
                    (ArrayStage::Bind { buffer, memory }, Outcome::Done) => r == Next::Ready(
                        DeviceF32Array {
                            buffer,
                            memory,
                            is_dev_local: old(self).is_dev_local(),
                            count: old(self).count(),
                            size: old(self).size() as usize,
                        },
                    ),
                    (ArrayStage::Buffer, Outcome::Failed(e)) | (ArrayStage::Memory { .. }, Outcome::Failed(e)) | (
                        ArrayStage::Bind { .. },
                        Outcome::Failed(e),
                    ) => r matches Next::Fail(rel, err) && err == e && rel@ == array_stage_releases(old(self).stage()),
                    (ArrayStage::Buffer, Outcome::Handle(_)) => r == Next::<DeviceF32Array>::Abort(
                        AbortReason::DeviceLocalUnsupported,
                    ),
                    _ => r == Next::<DeviceF32Array>::Abort(AbortReason::UnexpectedOutcome),
                },
            },
    {
        let stage = self.stage;
        self.stage = ArrayStage::Finished;
        match (stage, outcome) {
            (ArrayStage::Buffer, Outcome::Handle(b)) => {
                if self.is_dev_local {
                    Next::Abort(AbortReason::DeviceLocalUnsupported)
                } else {
                    self.stage = ArrayStage::Memory { buffer: b };
                    Next::Issue(Command::AllocateMemory { size: self.size, memory_type: self.memory_type })
                }
            },
            (ArrayStage::Memory { buffer }, Outcome::Handle(m)) => {
                self.stage = ArrayStage::Bind { buffer, memory: m };
                Next::Issue(Command::BindBufferMemory { buffer, memory: m })
            },
            (ArrayStage::Bind { buffer, memory }, Outcome::Done) => {
                Next::Ready(
                    DeviceF32Array {
                        buffer,
                        memory,
                        is_dev_local: self.is_dev_local,
                        count: self.count,
                        size: self.size as usize,
                    },
                )
            },
            (ArrayStage::Buffer, Outcome::Failed(e)) => Next::Fail(Vec::new(), e),
            (ArrayStage::Memory { buffer }, Outcome::Failed(e)) => {
                let mut rel: Vec<Command> = Vec::new();
                rel.push(Command::DestroyBuffer { buffer });
                Next::Fail(rel, e)
            },
            (ArrayStage::Bind { buffer, memory }, Outcome::Failed(e)) => {
                let mut rel: Vec<Command> = Vec::new();
                rel.push(Command::DestroyBuffer { buffer });
                rel.push(Command::FreeMemory { memory });
                Next::Fail(rel, e)
            },
            _ => Next::Abort(AbortReason::UnexpectedOutcome),
        }
    }
}

/// The version number that `vk::make_version` packs.
pub open spec fn packed_version(major: u32, minor: u32, patch: u32) -> u32 {
    (major << 22u32) | (minor << 12u32) | patch
}

/// Law: a packed version keeps its three parts in their fields: the major
/// number in bits 22 and up, the minor number in bits 12 to 21 and the
/// patch number in bits 0 to 11, whenever each part fits its field.
pub proof fn lemma_packed_version_fields(major: u32, minor: u32, patch: u32)
    requires
        major < 0x400,
        minor < 0x400,
        patch < 0x1000,
    ensures
        packed_version(major, minor, patch) >> 22u32 == major,
        (packed_version(major, minor, patch) >> 12u32) & 0x3ffu32 == minor,
        packed_version(major, minor, patch) & 0xfffu32 == patch,
{
    let v = packed_version(major, minor, patch);
    assert(v >> 22u32 == major && (v >> 12u32) & 0x3ffu32 == minor && v & 0xfffu32 == patch) by (bit_vector)
        requires
            v == (major << 22u32) | (minor << 12u32) | patch,
            major < 0x400,
            minor < 0x400,
            patch < 0x1000,
    ;
}

/// Where the setup of a context stands: which outcome it waits for.
#[derive(Clone, Copy, Debug, PartialEq, Eq, Structural)]
pub enum SetupStage {
    Instance,
    Messenger,
    PhysicalDevices,
    QueueFamilies,
    Device,
    Queue,
    CommandPool,
    CommandBuffers,
    ProbeBuffer,
    MemoryReport { probe: u64 },
    ProbeRelease,
    Finished,
}

/// The objects registered once the device exists: the instance, the
/// messenger when validating, the device.
pub open spec fn device_cleanups(validation: bool, messenger: u64) -> Seq<Cleanup> {
    if validation {
        seq![Cleanup::Instance, Cleanup::DebugMessenger(messenger), Cleanup::Device]
    } else {
        seq![Cleanup::Instance, Cleanup::Device]
    }
}

/// What the setup releases when the call it waits for fails.  Before the
/// device exists only the instance is destroyed; afterwards everything
/// registered is released, newest first.
pub open spec fn setup_failure_releases(stage: SetupStage, registered: Seq<Cleanup>) -> Seq<Command> {
    match stage {
        SetupStage::PhysicalDevices | SetupStage::Device => seq![Command::DestroyInstance],
        SetupStage::CommandPool | SetupStage::CommandBuffers | SetupStage::ProbeBuffer => teardown_plan(registered),
        _ => Seq::empty(),
    }
}

/// Whether some queue family supports compute work.
pub open spec fn has_compute_family(fams: Seq<u32>) -> bool {
    exists|i: int| is_first_compute_family(fams, i)
}

/// The first queue family that supports compute work (meaningful when there is one).
pub open spec fn first_compute_family(fams: Seq<u32>) -> int {
    choose|i: int| is_first_compute_family(fams, i)
}

proof fn lemma_first_compute_family_unique(fams: Seq<u32>, i: int)
    requires
        is_first_compute_family(fams, i),
    ensures
        has_compute_family(fams),
        first_compute_family(fams) == i,
{
    let j = first_compute_family(fams);
    assert(is_first_compute_family(fams, j));
    if j < i {
        assert(!supports_compute(fams[j]));
    } else if i < j {
        assert(!supports_compute(fams[i]));
    }
}

/// Whether `i` is the first memory type that fits.
pub open spec fn is_first_fit(type_bits: u32, type_flags: Seq<u32>, required: u32, i: int) -> bool {
    &&& memory_type_fits(type_bits, type_flags, required, i)
    &&& forall|j: int| 0 <= j < i ==> !#[trigger] memory_type_fits(type_bits, type_flags, required, j)
}

/// Whether some memory type fits.
pub open spec fn has_fit(type_bits: u32, type_flags: Seq<u32>, required: u32) -> bool {
    exists|i: int| is_first_fit(type_bits, type_flags, required, i)
}

/// The first memory type that fits (meaningful when there is one).
pub open spec fn first_fit(type_bits: u32, type_flags: Seq<u32>, required: u32) -> int {
    choose|i: int| is_first_fit(type_bits, type_flags, required, i)
}

proof fn lemma_first_fit_unique(type_bits: u32, type_flags: Seq<u32>, required: u32, i: int)
    requires
        is_first_fit(type_bits, type_flags, required, i),
    ensures
        has_fit(type_bits, type_flags, required),
        first_fit(type_bits, type_flags, required) == i,
{
    let j = first_fit(type_bits, type_flags, required);
    assert(is_first_fit(type_bits, type_flags, required, j));
    if j < i {
        assert(!memory_type_fits(type_bits, type_flags, required, j));
    } else if i < j {
        assert(!memory_type_fits(type_bits, type_flags, required, i));
    }
}

/// The properties asked of device-local memory.
pub open spec fn device_local_properties() -> u32 {
    1
}

/// The properties asked of host-visible memory: device-local and host-visible.
pub open spec fn host_visible_properties() -> u32 {
    3
}

/// The size in bytes of the buffer used to learn the memory types.
pub open spec fn probe_size() -> u64 {
    32
}

/// The setup of a context.
pub struct ContextSetup {
    validation: bool,
    stage: SetupStage,
    ctx: Context,
}

impl ContextSetup {
    pub closed spec fn validation(&self) -> bool {
        self.validation
    }

    pub closed spec fn stage(&self) -> SetupStage {
        self.stage
    }

    /// The context built so far.
    pub closed spec fn context(&self) -> Context {
        self.ctx
    }

    /// What is registered for release matches what has been acquired.
    pub closed spec fn wf(&self) -> bool {
        let steps = self.ctx.cleanup@;
        let dev = device_cleanups(self.validation, self.ctx.messenger);
        match self.stage {
            SetupStage::Queue | SetupStage::CommandPool => steps == dev,
            SetupStage::CommandBuffers
            | SetupStage::ProbeBuffer
            | SetupStage::MemoryReport { .. }
            | SetupStage::ProbeRelease => steps == dev.push(Cleanup::CommandPool(self.ctx.cmd_pool)),
            SetupStage::Finished => true,
            _ => steps == Seq::<Cleanup>::empty(),
        }
    }

    /// Feeds the outcome of the last command handed out.
    pub fn step(&mut self, outcome: Outcome) -> (r: Next<Context>)
        requires
            old(self).wf(),
        ensures
            final(self).wf(),
            final(self).validation() == old(self).validation(),
            r matches Next::Ready(made) ==> made.cleanup@ == device_cleanups(old(self).validation(), made.messenger).push(
                Cleanup::CommandPool(made.cmd_pool),
            ),
            r matches Next::Fail(rel, _) ==> rel@ == setup_failure_releases(
                old(self).stage(),
                old(self).context().cleanup@,
            ),
            ({
                let c = old(self).context();
                let v = old(self).validation();
                match (old(self).stage(), outcome) {
                    (SetupStage::Instance, Outcome::Done) => if v {
                        &&& r == Next::<Context>::Issue(Command::CreateDebugMessenger)
                        &&& final(self).stage() == SetupStage::Messenger
                        &&& final(self).context() == c
                    } else {
                        &&& r == Next::<Context>::Issue(Command::EnumeratePhysicalDevices)
                        &&& final(self).stage() == SetupStage::PhysicalDevices
                        &&& final(self).context() == c
                    },
                    (SetupStage::Messenger, Outcome::Handle(m)) => {
                        &&& r == Next::<Context>::Issue(Command::EnumeratePhysicalDevices)
                        &&& final(self).stage() == SetupStage::PhysicalDevices
                        &&& final(self).context() == (Context { messenger: m, ..c })
                    },
                    (SetupStage::Messenger, Outcome::Failed(_)) => {
                        &&& r == Next::<Context>::Abort(AbortReason::MessengerFailed)
                        &&& final(self).stage() == SetupStage::Finished
                    },
                    (SetupStage::PhysicalDevices, Outcome::Handles(devs)) => if devs@.len() == 0 {
                        &&& r == Next::<Context>::Abort(AbortReason::NoPhysicalDevice)
                        &&& final(self).stage() == SetupStage::Finished
                    } else {
                        &&& r == Next::<Context>::Issue(Command::GetQueueFamilyFlags { physical_device: devs@[0] })
                        &&& final(self).stage() == SetupStage::QueueFamilies
                        &&& final(self).context() == (Context { phy_dev: devs@[0], ..c })
                    },
                    (SetupStage::QueueFamilies, Outcome::QueueFamilies(fams)) => {
                        let i = first_compute_family(fams@);
                        if has_compute_family(fams@) && #[verifier::truncate] (i as i32) >= 0 {
                            &&& r == Next::<Context>::Issue(
                                Command::CreateDevice { physical_device: c.phy_dev, queue_family: i as u32 },
                            )
                            &&& final(self).stage() == SetupStage::Device
                            &&& final(self).context() == (Context { comp_fam: i as u32, ..c })
                        } else {
                            &&& r == Next::<Context>::Abort(AbortReason::NoComputeQueue)
                            &&& final(self).stage() == SetupStage::Finished
                        }
                    },
                    (SetupStage::Device, Outcome::Done) => {
                        &&& r == Next::<Context>::Issue(Command::GetDeviceQueue { queue_family: c.comp_fam, index: 0 })
                        &&& final(self).stage() == SetupStage::Queue
                        &&& final(self).context().cleanup@ == device_cleanups(v, c.messenger)
                        &&& final(self).context() == (Context { cleanup: final(self).context().cleanup, ..c })
                    },
                    (SetupStage::Queue, Outcome::Handle(q)) => {
                        &&& r == Next::<Context>::Issue(Command::CreateCommandPool { queue_family: c.comp_fam })
                        &&& final(self).stage() == SetupStage::CommandPool
                        &&& final(self).context() == (Context { comp_queue: q, ..c })
                    },
                    (SetupStage::CommandPool, Outcome::Handle(p)) => {
                        &&& r == Next::<Context>::Issue(Command::AllocateCommandBuffers { pool: p, count: 2 })
                        &&& final(self).stage() == SetupStage::CommandBuffers
                        &&& final(self).context().cleanup@ == c.cleanup@.push(Cleanup::CommandPool(p))
                        &&& final(self).context() == (Context { cleanup: final(self).context().cleanup, cmd_pool: p, ..c })
                    },
                    (SetupStage::CommandBuffers, Outcome::Handles(bufs)) => if bufs@.len() < 2 {
                        &&& r == Next::<Context>::Abort(AbortReason::MissingHandle)
                        &&& final(self).stage() == SetupStage::Finished
                    } else {
                        &&& r == Next::<Context>::Issue(Command::CreateBuffer { size: probe_size(), usage: array_usage() })
                        &&& final(self).stage() == SetupStage::ProbeBuffer
                        &&& final(self).context() == (Context { cmd_buff: bufs@[0], copy_cmd_buff: bufs@[1], ..c })
                    },
                    (SetupStage::ProbeBuffer, Outcome::Handle(t)) => {
                        &&& r == Next::<Context>::Issue(Command::GetMemoryReport { buffer: t, physical_device: c.phy_dev })
                        &&& final(self).stage() == (SetupStage::MemoryReport { probe: t })
                        &&& final(self).context() == c
                    },
                    (SetupStage::MemoryReport { probe }, Outcome::MemoryReport { type_bits, type_flags }) => if type_flags@.len() > 32 {
                        &&& r == Next::<Context>::Abort(AbortReason::UnexpectedOutcome)
                        &&& final(self).stage() == SetupStage::Finished
                    } else if !has_fit(type_bits, type_flags@, device_local_properties()) {
                        &&& r == Next::<Context>::Abort(AbortReason::NoDeviceLocalMemory)
                        &&& final(self).stage() == SetupStage::Finished
                    } else if !has_fit(type_bits, type_flags@, host_visible_properties()) {
                        &&& r == Next::<Context>::Abort(AbortReason::NoHostVisibleMemory)
                        &&& final(self).stage() == SetupStage::Finished
                    } else {
                        &&& r == Next::<Context>::Issue(Command::DestroyBuffer { buffer: probe })
                        &&& final(self).stage() == SetupStage::ProbeRelease
                        &&& final(self).context() == (Context {
                            loc_buff_mem_type: first_fit(type_bits, type_flags@, device_local_properties()) as u32,
                            vis_buff_mem_type: first_fit(type_bits, type_flags@, host_visible_properties()) as u32,
                            ..c
                        })
                    },
                    (SetupStage::ProbeRelease, Outcome::Done) => {
                        &&& r == Next::Ready(c)
                        &&& final(self).stage() == SetupStage::Finished
                    },
                    (SetupStage::Instance, Outcome::Failed(e))
                    | (SetupStage::PhysicalDevices, Outcome::Failed(e))
                    | (SetupStage::Device, Outcome::Failed(e))
                    | (SetupStage::CommandPool, Outcome::Failed(e))
                    | (SetupStage::CommandBuffers, Outcome::Failed(e))
                    | (SetupStage::ProbeBuffer, Outcome::Failed(e)) => {
                        &&& r matches Next::Fail(_, err) && err == e
                        &&& final(self).stage() == SetupStage::Finished
                    },
                    _ => {
                        &&& r == Next::<Context>::Abort(AbortReason::UnexpectedOutcome)
                        &&& final(self).stage() == SetupStage::Finished
                    },
                }
            }),
    {
        let stage = self.stage;
        self.stage = SetupStage::Finished;
        match (stage, outcome) {
            (SetupStage::Instance, Outcome::Done) => {
                if self.validation {
                    self.stage = SetupStage::Messenger;
                    Next::Issue(Command::CreateDebugMessenger)
                } else {
                    self.stage = SetupStage::PhysicalDevices;
                    Next::Issue(Command::EnumeratePhysicalDevices)
                }
            },
            (SetupStage::Messenger, Outcome::Handle(m)) => {
                self.ctx.messenger = m;
                self.stage = SetupStage::PhysicalDevices;
                Next::Issue(Command::EnumeratePhysicalDevices)
            },
            (SetupStage::Messenger, Outcome::Failed(_)) => Next::Abort(AbortReason::MessengerFailed),
            (SetupStage::PhysicalDevices, Outcome::Handles(devs)) => {
                if devs.len() == 0 {
                    Next::Abort(AbortReason::NoPhysicalDevice)
                } else {
                    let phy = devs[0];
                    self.ctx.phy_dev = phy;
                    self.stage = SetupStage::QueueFamilies;
                    Next::Issue(Command::GetQueueFamilyFlags { physical_device: phy })
                }
            },
            (SetupStage::QueueFamilies, Outcome::QueueFamilies(fams)) => {
                match find_compute_family(fams.as_slice()) {
                    None => Next::Abort(AbortReason::NoComputeQueue),
                    Some(i) => {
                        proof {
                            lemma_first_compute_family_unique(fams@, i as int);
                        }
                        let fam_inx = #[verifier::truncate] (i as i32);
                        if fam_inx < 0 {
                            Next::Abort(AbortReason::NoComputeQueue)
                        } else {
                            let fam = i as u32;
                            self.ctx.comp_fam = fam;
                            self.stage = SetupStage::Device;
                            Next::Issue(Command::CreateDevice { physical_device: self.ctx.phy_dev, queue_family: fam })
                        }
                    },
                }
            },
            (SetupStage::Device, Outcome::Done) => {
                self.ctx.cleanup.register(Cleanup::Instance);
                if self.validation {
                    self.ctx.cleanup.register(Cleanup::DebugMessenger(self.ctx.messenger));
                }
                self.ctx.cleanup.register(Cleanup::Device);
                self.stage = SetupStage::Queue;
                assert(self.ctx.cleanup@ =~= device_cleanups(self.validation, self.ctx.messenger));
                Next::Issue(Command::GetDeviceQueue { queue_family: self.ctx.comp_fam, index: 0 })
            },
            (SetupStage::Queue, Outcome::Handle(q)) => {
                self.ctx.comp_queue = q;
                self.stage = SetupStage::CommandPool;
                Next::Issue(Command::CreateCommandPool { queue_family: self.ctx.comp_fam })
            },
            (SetupStage::CommandPool, Outcome::Handle(p)) => {
                self.ctx.cmd_pool = p;
                self.ctx.cleanup.register(Cleanup::CommandPool(p));
                self.stage = SetupStage::CommandBuffers;
                Next::Issue(Command::AllocateCommandBuffers { pool: p, count: 2 })
            },
            (SetupStage::CommandBuffers, Outcome::Handles(bufs)) => {
                if bufs.len() < 2 {
                    Next::Abort(AbortReason::MissingHandle)
                } else {
                    self.ctx.cmd_buff = bufs[0];
                    self.ctx.copy_cmd_buff = bufs[1];
                    self.stage = SetupStage::ProbeBuffer;
                    let usage = storage_transfer_usage();
                    Next::Issue(Command::CreateBuffer { size: 32, usage })
                }
            },
            (SetupStage::ProbeBuffer, Outcome::Handle(t)) => {
                self.stage = SetupStage::MemoryReport { probe: t };
                Next::Issue(Command::GetMemoryReport { buffer: t, physical_device: self.ctx.phy_dev })
            },
            (SetupStage::MemoryReport { probe }, Outcome::MemoryReport { type_bits, type_flags }) => {
                if type_flags.len() > 32 {
                    Next::Abort(AbortReason::UnexpectedOutcome)
                } else {
                    let local = memory_device_local_bit();
                    let visible = memory_host_visible_bit();
                    assert(1u32 | 2u32 == 3u32) by (bit_vector);
                    match find_memory_type(type_bits, type_flags.as_slice(), local) {
                        None => {
                            assert(!has_fit(type_bits, type_flags@, device_local_properties()));
                            Next::Abort(AbortReason::NoDeviceLocalMemory)
                        },
                        Some(loc) => {
                            proof {
                                lemma_first_fit_unique(type_bits, type_flags@, device_local_properties(), loc as int);
                            }
                            match find_memory_type(type_bits, type_flags.as_slice(), local | visible) {
                                None => {
                                    assert(!has_fit(type_bits, type_flags@, host_visible_properties()));
                                    Next::Abort(AbortReason::NoHostVisibleMemory)
                                },
                                Some(vis) => {
                                    proof {
                                        lemma_first_fit_unique(type_bits, type_flags@, host_visible_properties(), vis as int);
                                    }
                                    self.ctx.loc_buff_mem_type = loc;
                                    self.ctx.vis_buff_mem_type = vis;
                                    self.stage = SetupStage::ProbeRelease;
                                    Next::Issue(Command::DestroyBuffer { buffer: probe })
                                },
                            }
                        },
                    }
                }
            },
            (SetupStage::ProbeRelease, Outcome::Done) => {
                let mut ctx = blank();
                std::mem::swap(&mut ctx, &mut self.ctx);
                Next::Ready(ctx)
            },
            (SetupStage::Instance, Outcome::Failed(e)) => Next::Fail(Vec::new(), e),
            (SetupStage::PhysicalDevices, Outcome::Failed(e)) | (SetupStage::Device, Outcome::Failed(e)) => {
                let mut rel: Vec<Command> = Vec::new();
                rel.push(Command::DestroyInstance);
                Next::Fail(rel, e)
            },
            (SetupStage::CommandPool, Outcome::Failed(e))
            | (SetupStage::CommandBuffers, Outcome::Failed(e))
            | (SetupStage::ProbeBuffer, Outcome::Failed(e)) => {
                let rel = self.ctx.teardown();
                Next::Fail(rel, e)
            },
            _ => Next::Abort(AbortReason::UnexpectedOutcome),
        }
    }
}

/// The commands that tear down a fully set-up context, newest object first.
pub open spec fn context_release_order(validation: bool, messenger: u64, pool: u64) -> Seq<Command> {
    if validation {
        seq![
            Command::DestroyCommandPool { pool },
            Command::DestroyDevice,
            Command::DestroyDebugMessenger { messenger },
            Command::DestroyInstance,
        ]
    } else {
        seq![Command::DestroyCommandPool { pool }, Command::DestroyDevice, Command::DestroyInstance]
    }
}

/// Law: the objects of a context are released in the reverse of the order
/// they were created in: command pool, device, messenger (when validating),
/// instance.  This is what dropping a context made by [`ContextSetup`] does,
/// and what a setup that fails after making the command pool releases.
pub proof fn lemma_context_release_order(c: Context, validation: bool)
    requires
        c.cleanup@ == device_cleanups(validation, c.messenger).push(Cleanup::CommandPool(c.cmd_pool)),
    ensures
        teardown_plan(c.cleanup@) == context_release_order(validation, c.messenger, c.cmd_pool),
{
    assert(teardown_plan(c.cleanup@) =~= context_release_order(validation, c.messenger, c.cmd_pool));
}

/// Whether `c` writes `values` into array `a`: the values are copied to the
/// start of the array's memory, mapped over its `4 * count` bytes.
pub open spec fn writes_array(c: Command, a: DeviceF32Array, values: Seq<u32>) -> bool {
    c matches Command::WriteMemory { memory, size, words } && memory == a.memory && size == a.count * 4
        && words@ == values
}

/// Whether `c` reads all the values of array `a` from its memory.
pub open spec fn reads_array(c: Command, a: DeviceF32Array) -> bool {
    c == (Command::ReadMemory { memory: a.memory, size: (a.count * 4) as u64, count: a.count })
}

/// What a host access does to host-visible memory, seen as the words each
/// allocation holds (by its handle): a write puts its words at the start
/// of the allocation and keeps the words after them; a read changes
/// nothing.
pub open spec fn after_host_access(mem: Map<u64, Seq<u32>>, c: Command) -> Map<u64, Seq<u32>> {
    match c {
        Command::WriteMemory { memory, words, .. } => mem.insert(
            memory,
            words@ + mem[memory].skip(words@.len() as int),
        ),
        _ => mem,
    }
}

/// The words a read gives back: the first `count` words of the allocation.
pub open spec fn words_read(mem: Map<u64, Seq<u32>>, c: Command) -> Seq<u32> {
    match c {
        Command::ReadMemory { memory, count, .. } => mem[memory].take(count as int),
        _ => Seq::empty(),
    }
}

/// Law: reading an array after writing values into it gives back the
/// values, followed by what the array held after them; when as many values
/// as the array holds were written, exactly the values.  The write leaves
/// every other allocation as it was.
pub proof fn lemma_read_after_write(
    mem: Map<u64, Seq<u32>>,
    a: DeviceF32Array,
    values: Seq<u32>,
    w: Command,
    r: Command,
)
    requires
        writes_array(w, a, values),
        reads_array(r, a),
        values.len() <= a.count,
        mem.dom().contains(a.memory),
        mem[a.memory].len() >= a.count,
    ensures
        words_read(after_host_access(mem, w), r) == values + mem[a.memory].subrange(values.len() as int, a.count as int),
        values.len() == a.count ==> words_read(after_host_access(mem, w), r) == values,
        forall|m: u64| m != a.memory ==> #[trigger] after_host_access(mem, w).dom().contains(m) == mem.dom().contains(m)
            && after_host_access(mem, w)[m] == mem[m],
{
    let after = after_host_access(mem, w);
    assert(after[a.memory].take(a.count as int) =~= values + mem[a.memory].subrange(values.len() as int, a.count as int));
    assert(values + mem[a.memory].subrange(a.count as int, a.count as int) =~= values);
}

/// Law: a read changes no memory, so two reads of an array with no write
/// between them give back the same words.
pub proof fn lemma_reads_agree(mem: Map<u64, Seq<u32>>, a: DeviceF32Array, r1: Command, r2: Command)
    requires
        reads_array(r1, a),
        reads_array(r2, a),
    ensures
        after_host_access(mem, r1) == mem,
        words_read(after_host_access(mem, r1), r2) == words_read(mem, r1),
{
}

impl Context {
    /// Starts setting up a context.  With `validation`, the validation layer
    /// is enabled and a debug messenger is created.
    pub fn new(validation: bool) -> (r: (ContextSetup, Command))
        ensures
            r.0.wf(),
            r.0.validation() == validation,
            r.0.stage() == SetupStage::Instance,
            blank_context(r.0.context()),
            r.1 == (Command::CreateInstance {
                validation,
                application_version: packed_version(1, 0, 0),
                engine_version: packed_version(1, 0, 0),
                api_version: packed_version(1, 3, 0),
            }),
    {
        let application_version = make_version(1, 0, 0);
        let engine_version = make_version(1, 0, 0);
        let api_version = make_version(1, 3, 0);
        (
            ContextSetup { validation, stage: SetupStage::Instance, ctx: blank() },
            Command::CreateInstance { validation, application_version, engine_version, api_version },
        )
    }

    /// What dropping the context does: release every registered object,
    /// newest first.
    pub fn teardown(&self) -> (r: Vec<Command>)
        ensures
            r@ == teardown_plan(self.cleanup@),
    {
        self.cleanup.teardown()
    }

    /// Starts making an array of `count` `f32` values: a buffer of
    /// `4 * count` bytes usable as storage and for transfers, memory of the
    /// host-visible type, and the binding of the two.
    pub fn new_array(&self, count: usize, is_dev_local: bool) -> (r: (ArrayAllocation, Command))
        requires
            count * 4 <= u64::MAX,
        ensures
            r.0.wf(),
            r.0.count() == count,
            r.0.is_dev_local() == is_dev_local,
            r.0.size() == (count * 4) as u64,
            r.0.memory_type() == (if is_dev_local { self.loc_buff_mem_type } else { self.vis_buff_mem_type }),
            r.0.stage() == ArrayStage::Buffer,
            r.1 == (Command::CreateBuffer { size: (count * 4) as u64, usage: array_usage() }),
    {
        let size: u64 = (count as u64) * 4;
        let memory_type = if is_dev_local {
            self.loc_buff_mem_type
        } else {
            self.vis_buff_mem_type
        };
        let usage = storage_transfer_usage();
        (
            ArrayAllocation { count, is_dev_local, size, memory_type, stage: ArrayStage::Buffer },
            Command::CreateBuffer { size, usage },
        )
    }

    /// What writing values into an array does: the values (the bits of
    /// `f32`s) are copied to the start of the array's memory, mapped over
    /// the array's `4 * count` bytes.
    pub fn write_array(&self, array: &DeviceF32Array, values: &[u32]) -> (r: Command)
        requires
            values@.len() <= array.count,
            array.count * 4 <= u64::MAX,
        ensures
            writes_array(r, *array, values@),
    {
        let buff_size = (array.count as u64) * 4;
        let mut words: Vec<u32> = Vec::new();
        let n = values.len();
        let mut i: usize = 0;
        while i < n
            invariant
                n == values@.len(),
                i <= n,
                words@ =~= values@.take(i as int),
            decreases n - i,
        {
            words.push(values[i]);
            i = i + 1;
        }
        assert(values@.take(n as int) =~= values@);
        Command::WriteMemory { memory: array.memory, size: buff_size, words }
    }

    /// What reading an array does: its `count` values (the bits of `f32`s)
    /// are read from its memory, mapped over the array's `4 * count` bytes.
    pub fn read_array(&self, array: &DeviceF32Array) -> (r: Command)
        requires
            array.count * 4 <= u64::MAX,
        ensures
            reads_array(r, *array),
    {
        let buff_size = (array.count as u64) * 4;
        Command::ReadMemory { memory: array.memory, size: buff_size, count: array.count }
    }

    /// What freeing an array does: destroy its buffer, then free its memory.
    pub fn drop_array(&self, array: &DeviceF32Array) -> (r: Vec<Command>)
        ensures
            r@ == seq![Command::DestroyBuffer { buffer: array.buffer }, Command::FreeMemory { memory: array.memory }],
    {
        let mut r: Vec<Command> = Vec::new();
        r.push(Command::DestroyBuffer { buffer: array.buffer });
        r.push(Command::FreeMemory { memory: array.memory });
        assert(r@ =~= seq![Command::DestroyBuffer { buffer: array.buffer }, Command::FreeMemory { memory: array.memory }]);
        r
    }
}

} // verus!
