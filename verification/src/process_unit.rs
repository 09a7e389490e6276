//! Compute "factories" and the objects they produce.
//!
//! A [`Factory`] owns a compute pipeline (its descriptor set layout, pipeline
//! layout and pipeline).  Each object produced by it owns a descriptor pool
//! and set, its output arrays and the bytes of its push constants, and refers
//! to input arrays set before each use.
use vstd::prelude::*;
use crate::command::{AbortReason, BufferBarrier, Command, Next, Outcome, VkError};
use crate::context::{
    array_next_stage, array_stage_command, array_stage_releases, array_usage, null_array, ArrayAllocation, ArrayStage,
    Context, DeviceF32Array,
};
use crate::vulkan::{bytecode_code, bytecode_code_size, bytecode_words, ShaderCodeError};

verus! {

/// The kind of a scalar argument of a compute program.
#[derive(Clone, Copy, Debug, PartialEq, Eq, Structural)]
pub enum ScalarArgType {
    ArrayLen,
    U32,
    F32,
}

/// A scalar argument.  `F32` holds the bit pattern of the `f32` value.
#[derive(Clone, Copy, Debug)]
pub enum ScalarArgVal<'a> {
    ArrayLen(&'a DeviceF32Array),
    U32(u32),
    F32(u32),
}

/// The 32-bit word that a scalar argument passes: the array's size in bytes,
/// the integer, or the bits of the float.
pub open spec fn scalar_word(v: ScalarArgVal) -> u32 {
    match v {
        ScalarArgVal::ArrayLen(arr) => arr.size as u32,
        ScalarArgVal::U32(x) => x,
        ScalarArgVal::F32(bits) => bits,
    }
}

/// The four bytes of `v`, least significant first.
pub open spec fn le_bytes(v: u32) -> Seq<u8> {
    seq![(v % 0x100) as u8, ((v / 0x100) % 0x100) as u8, ((v / 0x10000) % 0x100) as u8, (v / 0x1000000) as u8]
}

/// The four bytes of `v`, most significant first.
pub open spec fn be_bytes(v: u32) -> Seq<u8> {
    seq![(v / 0x1000000) as u8, ((v / 0x10000) % 0x100) as u8, ((v / 0x100) % 0x100) as u8, (v % 0x100) as u8]
}

/// Whether `bytes` are the bytes of `v` in one of the two byte orders.
pub open spec fn native_bytes_of(bytes: Seq<u8>, v: u32) -> bool {
    bytes == le_bytes(v) || bytes == be_bytes(v)
}

/// The word whose four bytes, least significant first, are `b`.
pub open spec fn word_from_le(b: Seq<u8>) -> int {
    b[0] + b[1] * 0x100 + b[2] * 0x10000 + b[3] * 0x1000000
}

/// The word whose four bytes, most significant first, are `b`.
pub open spec fn word_from_be(b: Seq<u8>) -> int {
    b[3] + b[2] * 0x100 + b[1] * 0x10000 + b[0] * 0x1000000
}

/// Law: the bytes of a word in either byte order decode, in that same
/// order, back to the word.
pub proof fn lemma_word_bytes_round_trip(v: u32)
    ensures
        le_bytes(v).len() == 4,
        be_bytes(v).len() == 4,
        word_from_le(le_bytes(v)) == v,
        word_from_be(be_bytes(v)) == v,
{
    assert(v % 0x100 + ((v / 0x100) % 0x100) * 0x100 + ((v / 0x10000) % 0x100) * 0x10000 + (v / 0x1000000)
        * 0x1000000 == v) by (bit_vector);
    assert(v / 0x1000000 < 0x100) by (bit_vector);
}

/// Law: the four bytes that pass a scalar argument decode, in the byte
/// order they were produced in, back to the argument's word.
pub proof fn lemma_scalar_bytes_round_trip(v: ScalarArgVal, bytes: Seq<u8>)
    requires
        native_bytes_of(bytes, scalar_word(v)),
    ensures
        bytes.len() == 4,
        bytes == le_bytes(scalar_word(v)) ==> word_from_le(bytes) == scalar_word(v),
        bytes == be_bytes(scalar_word(v)) ==> word_from_be(bytes) == scalar_word(v),
        word_from_le(bytes) == scalar_word(v) || word_from_be(bytes) == scalar_word(v),
{
    lemma_word_bytes_round_trip(scalar_word(v));
}

/// `u32::to_ne_bytes`: the memory representation of the integer in the
/// machine's byte order, which is little- or big-endian.
#[verifier::external_body]
fn u32_to_ne_bytes(v: u32) -> (r: [u8; 4])
    ensures
        native_bytes_of(r@, v),
{
    v.to_ne_bytes()
}

impl<'a> ScalarArgVal<'a> {
    /// The bytes that pass the argument as a push constant.
    pub fn to_ne_vec(&self) -> (r: Vec<u8>)
        ensures
            native_bytes_of(r@, scalar_word(*self)),
    {
        let word = match self {
            ScalarArgVal::U32(v) => *v,
            ScalarArgVal::F32(v) => *v,
            ScalarArgVal::ArrayLen(arr_ref) => arr_ref.size as u32,
        };
        let bytes = u32_to_ne_bytes(word);
        let mut r: Vec<u8> = Vec::new();
        r.push(bytes[0]);
        r.push(bytes[1]);
        r.push(bytes[2]);
        r.push(bytes[3]);
        assert(r@ =~= bytes@);
        r
    }
}

/// The kind of a scalar argument.
pub open spec fn scalar_type_of(v: ScalarArgVal) -> ScalarArgType {
    match v {
        ScalarArgVal::ArrayLen(_) => ScalarArgType::ArrayLen,
        ScalarArgVal::U32(_) => ScalarArgType::U32,
        ScalarArgVal::F32(_) => ScalarArgType::F32,
    }
}

/// Whether a scalar argument is of the expected kind.
pub fn scalar_arg_type_ok(p_type: ScalarArgType, p_val: &ScalarArgVal) -> (r: bool)
    ensures
        r == (scalar_type_of(*p_val) == p_type),
{
    match p_val {
        ScalarArgVal::ArrayLen(_) => p_type == ScalarArgType::ArrayLen,
        ScalarArgVal::U32(_) => p_type == ScalarArgType::U32,
        ScalarArgVal::F32(_) => p_type == ScalarArgType::F32,
    }
}


/// What releases the output arrays of an object: each array's buffer, then
/// its memory, array after array.
pub open spec fn output_releases(outs: Seq<DeviceF32Array>) -> Seq<Command> {
    Seq::new(
        2 * outs.len(),
        |k: int|
            if k % 2 == 0 {
                Command::DestroyBuffer { buffer: outs[k / 2].buffer }
            } else {
                Command::FreeMemory { memory: outs[k / 2].memory }
            },
    )
}

/// What releases a descriptor pool, unless it is the null handle.
pub open spec fn pool_release(pool: u64) -> Seq<Command> {
    if pool != 0 {
        seq![Command::DestroyDescriptorPool { pool }]
    } else {
        Seq::empty()
    }
}

/// An input slot with no array set and no expected length.
pub open spec fn cleared_inputs<'a>(n: nat) -> Seq<(Option<&'a DeviceF32Array>, u32)> {
    Seq::new(n, |i: int| (None, 0u32))
}

/// The input slots of a new object: none set, each expecting its length.
pub open spec fn unset_inputs<'a>(sizes: Seq<u32>) -> Seq<(Option<&'a DeviceF32Array>, u32)> {
    Seq::new(sizes.len(), |i: int| (None, sizes[i]))
}

/// The barrier for each input array: the whole buffer, on the compute queue family.
pub open spec fn input_barriers<'a>(inputs: Seq<(Option<&'a DeviceF32Array>, u32)>, queue_family: u32) -> Seq<BufferBarrier> {
    Seq::new(
        inputs.len(),
        |i: int| BufferBarrier { buffer: inputs[i].0.unwrap().buffer, size: inputs[i].0.unwrap().size as u64, queue_family },
    )
}

/// Law: the barriers of a use name, for every input slot `i` in order, the
/// buffer and whole size of the array set in slot `i`, on the given queue
/// family; one barrier per input, for any number of inputs.
pub proof fn lemma_input_barriers_follow_inputs<'a>(inputs: Seq<(Option<&'a DeviceF32Array>, u32)>, queue_family: u32)
    ensures
        input_barriers(inputs, queue_family).len() == inputs.len(),
        forall|i: int|
            0 <= i < inputs.len() ==> {
                &&& (#[trigger] input_barriers(inputs, queue_family)[i]).buffer == inputs[i].0.unwrap().buffer
                &&& input_barriers(inputs, queue_family)[i].size == inputs[i].0.unwrap().size as u64
                &&& input_barriers(inputs, queue_family)[i].queue_family == queue_family
            },
{
}

/// Law: releasing output arrays destroys, for every output `i` in order,
/// the buffer and then the memory of array `i`, and nothing else.
pub proof fn lemma_output_releases_each_array(outs: Seq<DeviceF32Array>)
    ensures
        output_releases(outs).len() == 2 * outs.len(),
        forall|i: int|
            0 <= i < outs.len() ==> #[trigger] output_releases(outs)[2 * i] == (Command::DestroyBuffer {
                buffer: outs[i].buffer,
            }) && output_releases(outs)[2 * i + 1] == (Command::FreeMemory { memory: outs[i].memory }),
{
    assert forall|i: int| 0 <= i < outs.len() implies #[trigger] output_releases(outs)[2 * i] == (Command::DestroyBuffer {
        buffer: outs[i].buffer,
    }) && output_releases(outs)[2 * i + 1] == (Command::FreeMemory { memory: outs[i].memory }) by {
        assert((2 * i) % 2 == 0 && (2 * i) / 2 == i);
        assert((2 * i + 1) % 2 == 1 && (2 * i + 1) / 2 == i);
    }
}

/// Law: the input slots of a new object are, for every requested length
/// `sizes[i]` in order, a slot with no array set that expects `sizes[i]`
/// elements.
pub proof fn lemma_unset_inputs_follow_sizes<'a>(sizes: Seq<u32>)
    ensures
        unset_inputs::<'a>(sizes).len() == sizes.len(),
        forall|i: int| 0 <= i < sizes.len() ==> (#[trigger] unset_inputs::<'a>(sizes)[i]) == (None::<&'a DeviceF32Array>, sizes[i]),
{
}

/// The state shared by every object a factory produces.
#[derive(Debug)]
pub struct FactoryObjectBase<'a> {
    desc_pool: u64,
    desc_set: u64,
    /// Each input array (once set) and the number of elements it must have.
    inputs: Vec<(Option<&'a DeviceF32Array>, u32)>,
    outputs: Vec<DeviceF32Array>,
    /// The push-constant bytes, four per scalar.
    scalars: Vec<u8>,
    pub factory: Option<&'a Factory<'a>>,
}

impl<'a> Default for FactoryObjectBase<'a> {
    fn default() -> (r: Self)
        ensures
            r.desc_pool() == 0,
            r.desc_set() == 0,
            r.inputs() == Seq::<(Option<&'a DeviceF32Array>, u32)>::empty(),
            r.outputs() == Seq::<DeviceF32Array>::empty(),
            r.scalars() == Seq::<u8>::empty(),
            r.factory_of() == None::<&'a Factory<'a>>,
    {
        FactoryObjectBase {
            desc_pool: 0,
            desc_set: 0,
            inputs: Vec::new(),
            outputs: Vec::new(),
            scalars: Vec::new(),
            factory: None,
        }
    }
}

impl<'a> FactoryObjectBase<'a> {
    pub closed spec fn desc_pool(&self) -> u64 {
        self.desc_pool
    }

    pub closed spec fn desc_set(&self) -> u64 {
        self.desc_set
    }

    pub closed spec fn inputs(&self) -> Seq<(Option<&'a DeviceF32Array>, u32)> {
        self.inputs@
    }

    pub closed spec fn outputs(&self) -> Seq<DeviceF32Array> {
        self.outputs@
    }

    pub closed spec fn scalars(&self) -> Seq<u8> {
        self.scalars@
    }

    pub closed spec fn factory_of(&self) -> Option<&'a Factory<'a>> {
        self.factory
    }

    /// The context of the factory that produced the object.
    pub open spec fn context_of(&self) -> Option<&'a Context> {
        match self.factory_of() {
            Some(f) => f.ctx,
            None => None,
        }
    }

    /// Whether every input array has been set.
    pub open spec fn inputs_set(&self) -> bool {
        forall|i: int| 0 <= i < self.inputs().len() ==> (#[trigger] self.inputs()[i]).0 is Some
    }

    /// What releasing the object's resources does.
    pub open spec fn releases(&self) -> Seq<Command> {
        output_releases(self.outputs()) + pool_release(self.desc_pool())
    }

    pub fn ctx(&self) -> (r: Option<&'a Context>)
        ensures
            r == self.context_of(),
    {
        match self.factory {
            Some(f) => f.ctx,
            None => None,
        }
    }

    /// What dropping the object does.  Without a context nothing happens.
    /// Otherwise every output array is released and replaced by the null
    /// array, the inputs are forgotten, and the descriptor pool (and with it
    /// the set) is destroyed unless it is null.
    pub fn clean(&mut self) -> (r: Vec<Command>)
        ensures
            final(self).factory_of() == old(self).factory_of(),
            final(self).scalars() == old(self).scalars(),
            old(self).context_of() is None ==> {
                &&& r@ == Seq::<Command>::empty()
                &&& final(self).desc_pool() == old(self).desc_pool()
                &&& final(self).desc_set() == old(self).desc_set()
                &&& final(self).inputs() == old(self).inputs()
                &&& final(self).outputs() == old(self).outputs()
            },
            old(self).context_of() is Some ==> {
                &&& r@.len() == 2 * old(self).outputs().len() + (if old(self).desc_pool() != 0 { 1int } else { 0int })
                &&& forall|i: int|
                    0 <= i < old(self).outputs().len() ==> #[trigger] r@[2 * i] == (Command::DestroyBuffer {
                        buffer: old(self).outputs()[i].buffer,
                    }) && r@[2 * i + 1] == (Command::FreeMemory { memory: old(self).outputs()[i].memory })
                &&& old(self).desc_pool() != 0 ==> r@[2 * old(self).outputs().len() as int] == (Command::DestroyDescriptorPool {
                    pool: old(self).desc_pool(),
                })
            },
            old(self).context_of() is Some ==> {
                &&& r@ == old(self).releases()
                &&& final(self).desc_pool() == 0
                &&& final(self).desc_set() == 0
                &&& final(self).inputs() == cleared_inputs::<'a>(old(self).inputs().len())
                &&& final(self).outputs() == Seq::new(old(self).outputs().len(), |i: int| null_array())
            },
    {
        let mut r: Vec<Command> = Vec::new();
        match self.ctx() {
            None => {},
            Some(ctx) => {
                let n = self.outputs.len();
                let ghost outs = self.outputs@;
                let mut i: usize = 0;
                while i < n
                    invariant
                        n == outs.len(),
                        self.outputs@.len() == n,
                        i <= n,
                        r@ == output_releases(outs.take(i as int)),
                        forall|j: int| 0 <= j < i ==> self.outputs@[j] == null_array(),
                        forall|j: int| i <= j < n ==> self.outputs@[j] == outs[j],
                        self.factory == old(self).factory,
                        self.scalars@ == old(self).scalars@,
                        self.inputs@ == old(self).inputs@,
                        self.desc_pool == old(self).desc_pool,
                        self.desc_set == old(self).desc_set,
                    decreases n - i,
                {
                    let mut d = ctx.drop_array(&self.outputs[i]);
                    r.append(&mut d);
                    self.outputs.set(i, DeviceF32Array::default());
                    assert(output_releases(outs.take(i + 1)) =~= output_releases(outs.take(i as int)) + seq![
                        Command::DestroyBuffer { buffer: outs[i as int].buffer },
                        Command::FreeMemory { memory: outs[i as int].memory },
                    ]);
                    i = i + 1;
                }
                assert(outs.take(n as int) =~= outs);
                let m = self.inputs.len();
                let mut cleared: Vec<(Option<&'a DeviceF32Array>, u32)> = Vec::new();
                let mut k: usize = 0;
                while k < m
                    invariant
                        m == self.inputs@.len(),
                        k <= m,
                        cleared@ =~= cleared_inputs::<'a>(k as nat),
                    decreases m - k,
                {
                    cleared.push((None, 0));
                    k = k + 1;
                }
                self.inputs = cleared;
                if self.desc_pool != 0 {
                    r.push(Command::DestroyDescriptorPool { pool: self.desc_pool });
                    self.desc_pool = 0;
                }
                self.desc_set = 0;
                assert(self.outputs@ =~= Seq::new(n as nat, |j: int| null_array()));
                proof {
                    lemma_output_releases_each_array(outs);
                    assert forall|i: int| 0 <= i < outs.len() implies #[trigger] r@[2 * i] == (Command::DestroyBuffer {
                        buffer: outs[i].buffer,
                    }) && r@[2 * i + 1] == (Command::FreeMemory { memory: outs[i].memory }) by {
                        assert(output_releases(outs)[2 * i] == (Command::DestroyBuffer { buffer: outs[i].buffer }));
                    }
                }
            },
        }
        r
    }

    /// Sets input `inx` to an array of the expected length and returns the
    /// descriptor write that points binding `inx` at it.
    pub fn write_input(&mut self, inx: usize, arr_ref: &'a DeviceF32Array) -> (r: Command)
        requires
            old(self).context_of() is Some,
            inx < old(self).inputs().len(),
            arr_ref.count as u32 == old(self).inputs()[inx as int].1,
        ensures
            final(self).inputs() == old(self).inputs().update(inx as int, (Some(arr_ref), old(self).inputs()[inx as int].1)),
            final(self).outputs() == old(self).outputs(),
            final(self).scalars() == old(self).scalars(),
            final(self).desc_pool() == old(self).desc_pool(),
            final(self).desc_set() == old(self).desc_set(),
            final(self).factory_of() == old(self).factory_of(),
            r == (Command::WriteStorageDescriptor {
                set: old(self).desc_set(),
                binding: inx as u32,
                buffer: arr_ref.buffer,
                range: arr_ref.size as u64,
            }),
    {
        let expected = self.inputs[inx].1;
        self.inputs.set(inx, (Some(arr_ref), expected));
        Command::WriteStorageDescriptor {
            set: self.desc_set,
            binding: inx as u32,
            buffer: arr_ref.buffer,
            range: arr_ref.size as u64,
        }
    }

    /// Stores scalar `inx` as the four push-constant bytes at `4 * inx`.
    pub fn write_scalar(&mut self, inx: usize, scalar_val: ScalarArgVal)
        requires
            old(self).context_of() is Some,
            inx * 4 + 4 <= old(self).scalars().len(),
        ensures
            final(self).scalars().len() == old(self).scalars().len(),
            final(self).scalars().subrange(0, inx * 4) == old(self).scalars().subrange(0, inx * 4),
            native_bytes_of(final(self).scalars().subrange(inx * 4, inx * 4 + 4), scalar_word(scalar_val)),
            final(self).scalars().subrange(inx * 4 + 4, old(self).scalars().len() as int) == old(self).scalars().subrange(
                inx * 4 + 4,
                old(self).scalars().len() as int,
            ),
            final(self).inputs() == old(self).inputs(),
            final(self).outputs() == old(self).outputs(),
            final(self).desc_pool() == old(self).desc_pool(),
            final(self).desc_set() == old(self).desc_set(),
            final(self).factory_of() == old(self).factory_of(),
    {
        let len = self.scalars.len();
        let vec_inx = inx * 4;
        assert(vec_inx + 4 <= len);
        let bytes = scalar_val.to_ne_vec();
        self.scalars.set(vec_inx, bytes[0]);
        self.scalars.set(vec_inx + 1, bytes[1]);
        self.scalars.set(vec_inx + 2, bytes[2]);
        self.scalars.set(vec_inx + 3, bytes[3]);
        assert(self.scalars@.subrange(vec_inx as int, vec_inx + 4) =~= bytes@);
        assert(self.scalars@.subrange(0, vec_inx as int) =~= old(self).scalars@.subrange(0, vec_inx as int));
        assert(self.scalars@.subrange(vec_inx + 4, self.scalars@.len() as int) =~= old(self).scalars@.subrange(
            vec_inx + 4,
            old(self).scalars@.len() as int,
        ));
    }

    /// Records what must precede the dispatches of a use of the object: a
    /// barrier on every input array (compute-shader writes before
    /// compute-shader reads, on the compute queue family), binding the
    /// object's descriptor set, pushing its scalar bytes, and binding the
    /// factory's pipeline.
    pub fn setup_pre_cmd(&self, cmd_buf: u64) -> (r: Vec<Command>)
        requires
            self.factory_of() is Some,
            self.context_of() is Some,
            self.inputs_set(),
        ensures
            r@.len() == 4,
            r@[0] matches Command::PipelineBarrier { command_buffer, barriers } && command_buffer == cmd_buf
                && barriers@ == input_barriers(self.inputs(), self.context_of().unwrap().comp_fam),
            r@[0] matches Command::PipelineBarrier { barriers, .. } && barriers@.len() == self.inputs().len() && forall|i: int|
                0 <= i < self.inputs().len() ==> {
                    &&& (#[trigger] barriers@[i]).buffer == self.inputs()[i].0.unwrap().buffer
                    &&& barriers@[i].size == self.inputs()[i].0.unwrap().size as u64
                    &&& barriers@[i].queue_family == self.context_of().unwrap().comp_fam
                },
            r@[1] == (Command::BindDescriptorSet {
                command_buffer: cmd_buf,
                layout: self.factory_of().unwrap().pipe_layout,
                set: self.desc_set(),
            }),
            r@[2] matches Command::PushConstants { command_buffer, layout, bytes } && command_buffer == cmd_buf
                && layout == self.factory_of().unwrap().pipe_layout && bytes@ == self.scalars(),
            r@[3] == (Command::BindPipeline { command_buffer: cmd_buf, pipeline: self.factory_of().unwrap().pipeline }),
    {
        let fact = self.factory.unwrap();
        let ctx = fact.ctx.unwrap();
        let n = self.inputs.len();
        let mut buff_barrs: Vec<BufferBarrier> = Vec::new();
        let mut inx: usize = 0;
        while inx < n
            invariant
                n == self.inputs@.len(),
                inx <= n,
                self.inputs_set(),
                buff_barrs@ =~= input_barriers(self.inputs(), ctx.comp_fam).take(inx as int),
            decreases n - inx,
        {
            let (x, _) = self.inputs[inx];
            assert(self.inputs()[inx as int].0 is Some);
            match x {
                None => {},
                Some(arr_ref) => {
                    buff_barrs.push(BufferBarrier { buffer: arr_ref.buffer, size: arr_ref.size as u64, queue_family: ctx.comp_fam });
                },
            }
            inx = inx + 1;
        }
        let mut scalars: Vec<u8> = Vec::new();
        let m = self.scalars.len();
        let mut k: usize = 0;
        while k < m
            invariant
                m == self.scalars@.len(),
                k <= m,
                scalars@ =~= self.scalars@.take(k as int),
            decreases m - k,
        {
            scalars.push(self.scalars[k]);
            k = k + 1;
        }
        proof {
            lemma_input_barriers_follow_inputs(self.inputs(), ctx.comp_fam);
            assert(input_barriers(self.inputs(), ctx.comp_fam).take(n as int) =~= input_barriers(self.inputs(), ctx.comp_fam));
        }
        let mut r: Vec<Command> = Vec::new();
        r.push(Command::PipelineBarrier { command_buffer: cmd_buf, barriers: buff_barrs });
        r.push(Command::BindDescriptorSet { command_buffer: cmd_buf, layout: fact.pipe_layout, set: self.desc_set });
        r.push(Command::PushConstants { command_buffer: cmd_buf, layout: fact.pipe_layout, bytes: scalars });
        r.push(Command::BindPipeline { command_buffer: cmd_buf, pipeline: fact.pipeline });
        r
    }

    /// Output array `inx`.
    pub fn get_output(&self, inx: usize) -> (r: &DeviceF32Array)
        requires
            inx < self.outputs().len(),
        ensures
            *r == self.outputs()[inx as int],
    {
        &self.outputs[inx]
    }
}

/// A compute pipeline and its layouts.
#[derive(Debug)]
pub struct Factory<'a> {
    pub desc_layout: u64,
    pub pipe_layout: u64,
    pub pipeline: u64,
    pub ctx: Option<&'a Context>,
}

impl<'a> Default for Factory<'a> {
    fn default() -> (r: Self)
        ensures
            r.desc_layout == 0,
            r.pipe_layout == 0,
            r.pipeline == 0,
            r.ctx == None::<&'a Context>,
    {
        Factory { desc_layout: 0, pipe_layout: 0, pipeline: 0, ctx: None }
    }
}

/// What releases a factory's objects: the pipeline, then the pipeline
/// layout, then the descriptor set layout, each unless it is null.
pub open spec fn factory_releases(f: Factory) -> Seq<Command> {
    (if f.pipeline != 0 { seq![Command::DestroyPipeline { pipeline: f.pipeline }] } else { Seq::empty() })
        + (if f.pipe_layout != 0 { seq![Command::DestroyPipelineLayout { layout: f.pipe_layout }] } else { Seq::empty() })
        + (if f.desc_layout != 0 { seq![Command::DestroyDescriptorSetLayout { layout: f.desc_layout }] } else { Seq::empty() })
}

/// Law: a factory releases the pipeline, then the pipeline layout, then the
/// descriptor set layout, each exactly when it is not the null handle.
pub proof fn lemma_factory_release_order(f: Factory)
    ensures
        f.pipeline != 0 && f.pipe_layout != 0 && f.desc_layout != 0 ==> factory_releases(f) == seq![
            Command::DestroyPipeline { pipeline: f.pipeline },
            Command::DestroyPipelineLayout { layout: f.pipe_layout },
            Command::DestroyDescriptorSetLayout { layout: f.desc_layout },
        ],
        f.pipeline == 0 && f.pipe_layout == 0 && f.desc_layout == 0 ==> factory_releases(f).len() == 0,
        factory_releases(f).len() == (if f.pipeline != 0 { 1int } else { 0int }) + (if f.pipe_layout != 0 { 1int } else { 0int })
            + (if f.desc_layout != 0 { 1int } else { 0int }),
        f.pipeline != 0 ==> factory_releases(f)[0] == (Command::DestroyPipeline { pipeline: f.pipeline }),
        f.desc_layout != 0 ==> factory_releases(f).last() == (Command::DestroyDescriptorSetLayout { layout: f.desc_layout }),
{
    if f.pipeline != 0 && f.pipe_layout != 0 && f.desc_layout != 0 {
        assert(factory_releases(f) =~= seq![
            Command::DestroyPipeline { pipeline: f.pipeline },
            Command::DestroyPipelineLayout { layout: f.pipe_layout },
            Command::DestroyDescriptorSetLayout { layout: f.desc_layout },
        ]);
    }
}

/// Law: the descriptor set layout of a factory for `n` arrays has the
/// bindings `0, 1, ..., n - 1`, in order.
pub proof fn lemma_binding_numbers_count_up(n: nat)
    requires
        n <= 0x1_0000_0000,
    ensures
        binding_numbers(n).len() == n,
        forall|i: int| 0 <= i < n ==> #[trigger] binding_numbers(n)[i] as int == i,
{
}

/// Law: a cleaned object's input slots hold no array and expect nothing.
pub proof fn lemma_cleared_inputs_are_empty<'a>(n: nat)
    ensures
        cleared_inputs::<'a>(n).len() == n,
        forall|i: int| 0 <= i < n ==> (#[trigger] cleared_inputs::<'a>(n)[i]) == (None::<&'a DeviceF32Array>, 0u32),
{
}

/// Law: once a factory is cleaned, cleaning it again releases nothing.
pub proof fn lemma_factory_clean_settles(f: Factory)
    requires
        f.pipeline == 0,
        f.pipe_layout == 0,
        f.desc_layout == 0,
    ensures
        factory_releases(f) == Seq::<Command>::empty(),
{
    assert(factory_releases(f) =~= Seq::<Command>::empty());
}

/// Law: once an object is cleaned, cleaning it again releases no live
/// object: the descriptor pool is not destroyed again, and the only commands
/// name the null buffer and null memory its output slots were reset to.
pub proof fn lemma_object_clean_settles(n: nat)
    ensures
        ({
            let again = output_releases(Seq::new(n, |i: int| null_array())) + pool_release(0);
            &&& again.len() == 2 * n
            &&& forall|k: int|
                0 <= k < again.len() ==> #[trigger] again[k] == (if k % 2 == 0 {
                    Command::DestroyBuffer { buffer: 0 }
                } else {
                    Command::FreeMemory { memory: 0 }
                })
        }),
{
    let again = output_releases(Seq::new(n, |i: int| null_array())) + pool_release(0);
    assert(pool_release(0) =~= Seq::<Command>::empty());
    assert(again =~= output_releases(Seq::new(n, |i: int| null_array())));
}

impl<'a> Factory<'a> {
    /// What dropping the factory does.  Without a context nothing happens;
    /// otherwise every non-null object is destroyed and its handle nulled.
    pub fn clean(&mut self) -> (r: Vec<Command>)
        ensures
            final(self).ctx == old(self).ctx,
            old(self).ctx is None ==> r@ == Seq::<Command>::empty() && *final(self) == *old(self),
            old(self).ctx is Some ==> {
                &&& r@ == factory_releases(*old(self))
                &&& final(self).pipeline == 0
                &&& final(self).pipe_layout == 0
                &&& final(self).desc_layout == 0
            },
    {
        let mut r: Vec<Command> = Vec::new();
        match self.ctx {
            None => {},
            Some(_ctx) => {
                if self.pipeline != 0 {
                    r.push(Command::DestroyPipeline { pipeline: self.pipeline });
                    self.pipeline = 0;
                }
                if self.pipe_layout != 0 {
                    r.push(Command::DestroyPipelineLayout { layout: self.pipe_layout });
                    self.pipe_layout = 0;
                }
                if self.desc_layout != 0 {
                    r.push(Command::DestroyDescriptorSetLayout { layout: self.desc_layout });
                    self.desc_layout = 0;
                }
                assert(r@ =~= factory_releases(*old(self)));
            },
        }
        r
    }
}


fn copy_u32s(s: &[u32]) -> (r: Vec<u32>)
    ensures
        r@ == s@,
{
    let mut r: Vec<u32> = Vec::new();
    let n = s.len();
    let mut i: usize = 0;
    while i < n
        invariant
            n == s@.len(),
            i <= n,
            r@ =~= s@.take(i as int),
        decreases n - i,
    {
        r.push(s[i]);
        i = i + 1;
    }
    assert(s@.take(n as int) =~= s@);
    r
}

/// `n` zero bytes.
pub open spec fn zero_bytes(n: nat) -> Seq<u8> {
    Seq::new(n, |i: int| 0u8)
}

/// Whether `a` is a host-visible array of `n` elements.
pub open spec fn is_array_of(a: DeviceF32Array, n: u32) -> bool {
    &&& a.count == n as usize
    &&& a.size == (a.count * 4) as usize
    &&& !a.is_dev_local
}

/// Whether each output made so far is an array of the requested length.
pub open spec fn outputs_made(outs: Seq<DeviceF32Array>, sizes: Seq<u32>) -> bool {
    &&& outs.len() <= sizes.len()
    &&& forall|i: int| 0 <= i < outs.len() ==> is_array_of(#[trigger] outs[i], sizes[i])
}

/// Whether `b` is an object fully set up by `factory` for these sizes.
pub open spec fn is_produced_base<'a>(
    b: FactoryObjectBase<'a>,
    factory: &'a Factory<'a>,
    input_sizes: Seq<u32>,
    output_sizes: Seq<u32>,
    scalar_count: nat,
) -> bool {
    &&& b.factory_of() == Some(factory)
    &&& b.inputs() == unset_inputs::<'a>(input_sizes)
    &&& b.scalars() == zero_bytes(4 * scalar_count)
    &&& b.outputs().len() == output_sizes.len()
    &&& outputs_made(b.outputs(), output_sizes)
}

/// Law: an object fully set up for input lengths `ins`, output lengths
/// `outs` and `k` scalars has, for every `i`, an unset input slot `i`
/// expecting `ins[i]` elements; for every `i`, a host-visible output array
/// `i` of `outs[i]` elements; and `4 * k` zero scalar bytes.
pub proof fn lemma_produced_base_slots<'a>(
    b: FactoryObjectBase<'a>,
    factory: &'a Factory<'a>,
    ins: Seq<u32>,
    outs: Seq<u32>,
    k: nat,
)
    requires
        is_produced_base(b, factory, ins, outs, k),
    ensures
        b.factory_of() == Some(factory),
        b.inputs().len() == ins.len(),
        forall|i: int| 0 <= i < ins.len() ==> (#[trigger] b.inputs()[i]) == (None::<&'a DeviceF32Array>, ins[i]),
        b.outputs().len() == outs.len(),
        forall|i: int|
            0 <= i < outs.len() ==> (#[trigger] b.outputs()[i]).count == outs[i] as usize && !b.outputs()[i].is_dev_local,
        b.scalars().len() == 4 * k,
        forall|j: int| 0 <= j < 4 * k ==> #[trigger] b.scalars()[j] == 0u8,
{
    lemma_unset_inputs_follow_sizes(ins);
    assert forall|i: int| 0 <= i < outs.len() implies (#[trigger] b.outputs()[i]).count == outs[i] as usize
        && !b.outputs()[i].is_dev_local by {
        assert(is_array_of(b.outputs()[i], outs[i]));
    }
}

/// Where the setup of a produced object stands.
#[derive(Clone, Copy, Debug, PartialEq, Eq, Structural)]
pub enum ObjectStage {
    /// Waiting for the descriptor pool.
    DescriptorPool,
    /// Waiting for the descriptor set.
    DescriptorSet,
    /// Making output array `index`.
    Output { index: usize },
    /// Waiting for output array `index` to be written to the set.
    Write { index: usize },
    Finished,
}

/// The setup of an object produced by a factory: its descriptor pool and
/// set, then each output array, written to the set after the inputs'
/// bindings.
pub struct ObjectSetup<'a> {
    base: FactoryObjectBase<'a>,
    factory: &'a Factory<'a>,
    ctx: &'a Context,
    input_sizes: Vec<u32>,
    output_sizes: Vec<u32>,
    scalar_count: usize,
    stage: ObjectStage,
    array: Option<ArrayAllocation>,
}

/// Whether `a` is an array setup that has just asked for the buffer of a
/// host-visible array of `n` elements, whose memory will be of `memory_type`.
pub open spec fn starts_array(a: ArrayAllocation, n: u32, memory_type: u32) -> bool {
    &&& a.stage() == ArrayStage::Buffer
    &&& a.count() == n as usize
    &&& a.size() == (n * 4) as u64
    &&& !a.is_dev_local()
    &&& a.memory_type() == memory_type
}

/// One step of an object setup: `new` and `r` are the state and result
/// after feeding `outcome` to `old`.
pub open spec fn object_step<'a>(
    old: ObjectSetup<'a>,
    outcome: Outcome,
    new: ObjectSetup<'a>,
    r: Next<FactoryObjectBase<'a>>,
) -> bool {
    &&& new.factory() == old.factory()
    &&& new.input_sizes() == old.input_sizes()
    &&& new.output_sizes() == old.output_sizes()
    &&& new.scalar_count() == old.scalar_count()
    &&& r matches Next::Fail(rel, _) ==> rel@ == old.failure_releases()
    &&& r matches Next::Ready(made) ==> made.releases() == old.base().releases()
    &&& r matches Next::Ready(_) ==> old.stage() is DescriptorSet || old.stage() is Write
    &&& r matches Next::Ready(b) ==> is_produced_base(
        b,
        old.factory(),
        old.input_sizes(),
        old.output_sizes(),
        old.scalar_count() as nat,
    )
    &&& ({
            let b = old.base();
            let fb = new.base();
            match (old.stage(), outcome) {
                (ObjectStage::DescriptorPool, Outcome::Handle(p)) => {
                    &&& r == Next::<FactoryObjectBase<'a>>::Issue(
                        Command::AllocateDescriptorSet { pool: p, layout: old.factory().desc_layout },
                    )
                    &&& new.stage() == ObjectStage::DescriptorSet
                    &&& fb.desc_pool() == p
                    &&& fb.desc_set() == b.desc_set()
                    &&& fb.factory_of() == b.factory_of()
                    &&& fb.outputs() == b.outputs()
                    &&& fb.inputs() == b.inputs()
                    &&& fb.scalars() == b.scalars()
                },
                (ObjectStage::DescriptorSet, Outcome::Handles(sets)) => if sets@.len() == 0 {
                    &&& r == Next::<FactoryObjectBase<'a>>::Abort(AbortReason::MissingHandle)
                    &&& new.stage() == ObjectStage::Finished
                } else if old.output_sizes().len() == 0 {
                    &&& r matches Next::Ready(made) && made.desc_set() == sets@[0] && made.desc_pool() == b.desc_pool()
                    &&& new.stage() == ObjectStage::Finished
                } else {
                    &&& r == Next::<FactoryObjectBase<'a>>::Issue(
                        Command::CreateBuffer { size: (old.output_sizes()[0] * 4) as u64, usage: array_usage() },
                    )
                    &&& new.stage() == (ObjectStage::Output { index: 0 })
                    &&& starts_array(new.pending(), old.output_sizes()[0], old.factory().ctx.unwrap().vis_buff_mem_type)
                    &&& fb.desc_set() == sets@[0]
                    &&& fb.desc_pool() == b.desc_pool()
                    &&& fb.factory_of() == b.factory_of()
                    &&& fb.outputs() == b.outputs()
                    &&& fb.inputs() == unset_inputs::<'a>(old.input_sizes())
                    &&& fb.scalars() == zero_bytes(4 * old.scalar_count() as nat)
                },
                (ObjectStage::Output { index }, _) => {
                    let a = old.pending();
                    match (a.stage(), outcome) {
                        (ArrayStage::Bind { buffer, memory }, Outcome::Done) => {
                            &&& r == Next::<FactoryObjectBase<'a>>::Issue(
                                Command::WriteStorageDescriptor {
                                    set: b.desc_set(),
                                    binding: (old.input_sizes().len() + index) as u32,
                                    buffer,
                                    range: (a.size() as usize) as u64,
                                },
                            )
                            &&& new.stage() == (ObjectStage::Write { index })
                            &&& fb.outputs() == b.outputs().push(
                                DeviceF32Array {
                                    buffer,
                                    memory,
                                    is_dev_local: false,
                                    count: a.count(),
                                    size: a.size() as usize,
                                },
                            )
                            &&& fb.desc_set() == b.desc_set()
                            &&& fb.desc_pool() == b.desc_pool()
                        },
                        (_, Outcome::Failed(e)) => {
                            &&& r matches Next::Fail(_, err) && err == e
                            &&& new.stage() == ObjectStage::Finished
                        },
                        _ => {
                            let next = array_next_stage(a.stage(), false, outcome);
                            if next is Memory || next is Bind {
                                &&& r == Next::<FactoryObjectBase<'a>>::Issue(
                                    array_stage_command(next, a.size(), a.memory_type()),
                                )
                                &&& new.stage() == (ObjectStage::Output { index })
                                &&& new.pending().stage() == next
                                &&& new.pending().count() == a.count()
                                &&& new.pending().size() == a.size()
                                &&& new.pending().memory_type() == a.memory_type()
                                &&& new.pending().is_dev_local() == a.is_dev_local()
                                &&& fb == b
                            } else {
                                &&& r == Next::<FactoryObjectBase<'a>>::Abort(AbortReason::UnexpectedOutcome)
                                &&& new.stage() == ObjectStage::Finished
                            }
                        },
                    }
                },
                (ObjectStage::Write { index }, Outcome::Done) => if index + 1 < old.output_sizes().len() {
                    &&& r == Next::<FactoryObjectBase<'a>>::Issue(
                        Command::CreateBuffer {
                            size: (old.output_sizes()[index + 1] * 4) as u64,
                            usage: array_usage(),
                        },
                    )
                    &&& new.stage() == (ObjectStage::Output { index: (index + 1) as usize })
                    &&& starts_array(
                        new.pending(),
                        old.output_sizes()[index + 1],
                        old.factory().ctx.unwrap().vis_buff_mem_type,
                    )
                    &&& fb == b
                } else {
                    &&& r == Next::Ready(b)
                    &&& new.stage() == ObjectStage::Finished
                },
                (ObjectStage::DescriptorPool, Outcome::Failed(e)) | (ObjectStage::DescriptorSet, Outcome::Failed(e)) => {
                    &&& r matches Next::Fail(_, err) && err == e
                    &&& new.stage() == ObjectStage::Finished
                },
                _ => {
                    &&& r == Next::<FactoryObjectBase<'a>>::Abort(AbortReason::UnexpectedOutcome)
                    &&& new.stage() == ObjectStage::Finished
                },
            }
        })
}

impl<'a> ObjectSetup<'a> {
    pub closed spec fn base(&self) -> FactoryObjectBase<'a> {
        self.base
    }

    pub closed spec fn factory(&self) -> &'a Factory<'a> {
        self.factory
    }

    pub closed spec fn input_sizes(&self) -> Seq<u32> {
        self.input_sizes@
    }

    pub closed spec fn output_sizes(&self) -> Seq<u32> {
        self.output_sizes@
    }

    pub closed spec fn scalar_count(&self) -> usize {
        self.scalar_count
    }

    pub closed spec fn stage(&self) -> ObjectStage {
        self.stage
    }

    /// The array being made while at an `Output` stage.
    pub closed spec fn pending(&self) -> ArrayAllocation {
        self.array.unwrap()
    }

    /// What a failure at the current stage releases: whatever the array
    /// being made holds, then everything the object holds.
    pub open spec fn failure_releases(&self) -> Seq<Command> {
        match self.stage() {
            ObjectStage::Output { .. } => array_stage_releases(self.pending().stage()) + self.base().releases(),
            _ => self.base().releases(),
        }
    }

    pub closed spec fn wf(&self) -> bool {
        &&& self.factory.ctx == Some(self.ctx)
        &&& self.scalar_count * 4 <= usize::MAX
        &&& self.input_sizes@.len() + self.output_sizes@.len() <= usize::MAX
        &&& self.stage != ObjectStage::Finished ==> {
            &&& self.base.factory == Some(self.factory)
            &&& outputs_made(self.base.outputs@, self.output_sizes@)
        }
        &&& match self.stage {
            ObjectStage::DescriptorPool => {
                &&& self.base.desc_pool == 0
                &&& self.base.inputs@.len() == 0
                &&& self.base.outputs@.len() == 0
                &&& self.base.scalars@.len() == 0
            },
            ObjectStage::DescriptorSet => {
                &&& self.base.inputs@.len() == 0
                &&& self.base.outputs@.len() == 0
                &&& self.base.scalars@.len() == 0
            },
            ObjectStage::Output { index } => {
                &&& index < self.output_sizes@.len()
                &&& self.base.outputs@.len() == index
                &&& self.base.inputs@ == unset_inputs::<'a>(self.input_sizes@)
                &&& self.base.scalars@ == zero_bytes(4 * self.scalar_count as nat)
                &&& self.array is Some
                &&& self.array.unwrap().wf()
                &&& self.array.unwrap().count() == self.output_sizes@[index as int] as usize
                &&& !self.array.unwrap().is_dev_local()
                &&& self.array.unwrap().stage() != ArrayStage::Finished
            },
            ObjectStage::Write { index } => {
                &&& index < self.output_sizes@.len()
                &&& self.base.outputs@.len() == index + 1
                &&& self.base.inputs@ == unset_inputs::<'a>(self.input_sizes@)
                &&& self.base.scalars@ == zero_bytes(4 * self.scalar_count as nat)
            },
            ObjectStage::Finished => true,
        }
    }

    /// Starts making output array `index`.
    fn start_output(&mut self, index: usize) -> (r: Next<FactoryObjectBase<'a>>)
        requires
            index < old(self).output_sizes@.len(),
            old(self).factory.ctx == Some(old(self).ctx),
        ensures
            final(self).base == old(self).base,
            final(self).factory == old(self).factory,
            final(self).ctx == old(self).ctx,
            final(self).input_sizes@ == old(self).input_sizes@,
            final(self).output_sizes@ == old(self).output_sizes@,
            final(self).scalar_count == old(self).scalar_count,
            final(self).stage == (ObjectStage::Output { index }),
            final(self).array is Some,
            final(self).array.unwrap().wf(),
            final(self).array.unwrap().count() == old(self).output_sizes@[index as int] as usize,
            !final(self).array.unwrap().is_dev_local(),
            final(self).array.unwrap().stage() == ArrayStage::Buffer,
            starts_array(final(self).array.unwrap(), old(self).output_sizes@[index as int], old(self).ctx.vis_buff_mem_type),
            r == Next::<FactoryObjectBase<'a>>::Issue(
                Command::CreateBuffer { size: (old(self).output_sizes@[index as int] * 4) as u64, usage: array_usage() },
            ),
    {
        let count = self.output_sizes[index] as usize;
        let (a, c) = self.ctx.new_array(count, false);
        self.array = Some(a);
        self.stage = ObjectStage::Output { index };
        Next::Issue(c)
    }

    /// Hands out the finished object, leaving a default one behind.
    fn take_base(&mut self) -> (r: FactoryObjectBase<'a>)
        ensures
            r == old(self).base,
            final(self).factory == old(self).factory,
            final(self).ctx == old(self).ctx,
            final(self).input_sizes@ == old(self).input_sizes@,
            final(self).output_sizes@ == old(self).output_sizes@,
            final(self).scalar_count == old(self).scalar_count,
            final(self).stage == old(self).stage,
            final(self).array == old(self).array,
    {
        let mut b = FactoryObjectBase::default();
        std::mem::swap(&mut b, &mut self.base);
        b
    }

    /// Feeds the outcome of the last command handed out.  A failure releases
    /// what the object and its array in progress hold (what dropping the
    /// half-made object does).
    pub fn step(&mut self, outcome: Outcome) -> (r: Next<FactoryObjectBase<'a>>)
        requires
            old(self).wf(),
        ensures
            final(self).wf(),
            object_step(*old(self), outcome, *final(self), r),
    {
        let stage = self.stage;
        self.stage = ObjectStage::Finished;
        match stage {
            ObjectStage::DescriptorPool => match outcome {
                Outcome::Handle(p) => {
                    self.base.desc_pool = p;
                    self.stage = ObjectStage::DescriptorSet;
                    Next::Issue(Command::AllocateDescriptorSet { pool: p, layout: self.factory.desc_layout })
                },
                Outcome::Failed(e) => {
                    let rel = self.base.clean();
                    Next::Fail(rel, e)
                },
                _ => Next::Abort(AbortReason::UnexpectedOutcome),
            },
            ObjectStage::DescriptorSet => match outcome {
                Outcome::Handles(sets) => {
                    if sets.len() == 0 {
                        Next::Abort(AbortReason::MissingHandle)
                    } else {
                        self.base.desc_set = sets[0];
                        let n = self.input_sizes.len();
                        let mut inputs: Vec<(Option<&'a DeviceF32Array>, u32)> = Vec::new();
                        let mut i: usize = 0;
                        while i < n
                            invariant
                                n == self.input_sizes@.len(),
                                i <= n,
                                inputs@ =~= unset_inputs::<'a>(self.input_sizes@.take(i as int)),
                            decreases n - i,
                        {
                            inputs.push((None, self.input_sizes[i]));
                            i = i + 1;
                        }
                        assert(self.input_sizes@.take(n as int) =~= self.input_sizes@);
                        self.base.inputs = inputs;
                        let m = self.scalar_count * 4;
                        let mut scalars: Vec<u8> = Vec::new();
                        let mut k: usize = 0;
                        while k < m
                            invariant
                                k <= m,
                                scalars@ =~= zero_bytes(k as nat),
                            decreases m - k,
                        {
                            scalars.push(0);
                            k = k + 1;
                        }
                        self.base.scalars = scalars;
                        assert(self.base.scalars@ =~= zero_bytes(4 * self.scalar_count as nat));
                        if self.output_sizes.len() == 0 {
                            Next::Ready(self.take_base())
                        } else {
                            self.start_output(0)
                        }
                    }
                },
                Outcome::Failed(e) => {
                    let rel = self.base.clean();
                    Next::Fail(rel, e)
                },
                _ => Next::Abort(AbortReason::UnexpectedOutcome),
            },
            ObjectStage::Output { index } => {
                let mut pending: Option<ArrayAllocation> = None;
                std::mem::swap(&mut pending, &mut self.array);
                match pending {
                    None => Next::Abort(AbortReason::UnexpectedOutcome),
                    Some(mut a) => {
                        match a.step(outcome) {
                            Next::Issue(c) => {
                                self.array = Some(a);
                                self.stage = ObjectStage::Output { index };
                                Next::Issue(c)
                            },
                            Next::Ready(arr) => {
                                self.base.outputs.push(arr);
                                self.stage = ObjectStage::Write { index };
                                let binding = (self.input_sizes.len() + index) as u32;
                                Next::Issue(
                                    Command::WriteStorageDescriptor {
                                        set: self.base.desc_set,
                                        binding,
                                        buffer: arr.buffer,
                                        range: arr.size as u64,
                                    },
                                )
                            },
                            Next::Fail(mut rel, e) => {
                                let mut more = self.base.clean();
                                rel.append(&mut more);
                                Next::Fail(rel, e)
                            },
                            Next::Abort(reason) => Next::Abort(reason),
                        }
                    },
                }
            },
            ObjectStage::Write { index } => match outcome {
                Outcome::Done => {
                    if index + 1 < self.output_sizes.len() {
                        self.start_output(index + 1)
                    } else {
                        Next::Ready(self.take_base())
                    }
                },
                _ => Next::Abort(AbortReason::UnexpectedOutcome),
            },
            ObjectStage::Finished => Next::Abort(AbortReason::UnexpectedOutcome),
        }
    }
}

impl<'a> FactoryObjectBase<'a> {
    /// Starts setting up an object of `factory` with input arrays of the
    /// given lengths, output arrays of the given lengths and `scalar_count`
    /// four-byte scalars: first a descriptor pool for one set with a
    /// storage-buffer descriptor per array.
    pub fn new(factory: &'a Factory<'a>, input_sizes: &[u32], output_sizes: &[u32], scalar_count: usize) -> (r: (
        ObjectSetup<'a>,
        Command,
    ))
        requires
            factory.ctx is Some,
            input_sizes@.len() + output_sizes@.len() <= usize::MAX,
            scalar_count * 4 <= usize::MAX,
        ensures
            r.0.wf(),
            r.0.stage() == ObjectStage::DescriptorPool,
            r.0.factory() == factory,
            r.0.input_sizes() == input_sizes@,
            r.0.output_sizes() == output_sizes@,
            r.0.scalar_count() == scalar_count,
            r.0.base().releases() == Seq::<Command>::empty(),
            r.1 == (Command::CreateDescriptorPool { descriptor_count: (input_sizes@.len() + output_sizes@.len()) as u32 }),
    {
        let mut base = FactoryObjectBase::default();
        base.factory = Some(factory);
        let ctx = factory.ctx.unwrap();
        let count = (input_sizes.len() + output_sizes.len()) as u32;
        let setup = ObjectSetup {
            base,
            factory,
            ctx,
            input_sizes: copy_u32s(input_sizes),
            output_sizes: copy_u32s(output_sizes),
            scalar_count,
            stage: ObjectStage::DescriptorPool,
            array: None,
        };
        assert(setup.base.outputs@ =~= Seq::<DeviceF32Array>::empty());
        assert(output_releases(Seq::<DeviceF32Array>::empty()) =~= Seq::<Command>::empty());
        (setup, Command::CreateDescriptorPool { descriptor_count: count })
    }
}


/// Where the setup of a factory stands.
#[derive(Clone, Copy, Debug, PartialEq, Eq, Structural)]
pub enum FactoryStage {
    /// Waiting for the descriptor set layout.
    SetLayout,
    /// Waiting for the pipeline layout.
    PipelineLayout,
    /// Waiting for the shader module.
    ShaderModule,
    /// Waiting for the pipeline; the shader module exists.
    Pipeline { module: u64 },
    /// Waiting for the shader module to be destroyed.
    ModuleRelease,
    /// Waiting for the shader module to be destroyed after the pipeline
    /// call returned no pipeline; the setup then aborts.
    ModuleReleaseBeforeAbort,
    Finished,
}

/// The binding numbers of a descriptor set layout with `n` bindings.
pub open spec fn binding_numbers(n: nat) -> Seq<u32> {
    Seq::new(n, |i: int| i as u32)
}

/// The setup of a factory: its descriptor set layout (one storage-buffer
/// binding per array), pipeline layout (one push-constant range of four
/// bytes per scalar), shader module and compute pipeline; the shader module
/// is destroyed once the pipeline exists.
pub struct FactorySetup<'a> {
    factory: Factory<'a>,
    stage: FactoryStage,
    push_constant_size: u32,
    code_size: usize,
    code: Vec<u32>,
}

impl<'a> FactorySetup<'a> {
    pub closed spec fn factory(&self) -> Factory<'a> {
        self.factory
    }

    pub closed spec fn stage(&self) -> FactoryStage {
        self.stage
    }

    pub closed spec fn push_constant_size(&self) -> u32 {
        self.push_constant_size
    }

    pub closed spec fn code_size(&self) -> usize {
        self.code_size
    }

    /// The shader words, until they are handed out.
    pub closed spec fn code(&self) -> Seq<u32> {
        self.code@
    }

    /// What a failure at the current stage releases: the shader module when
    /// it exists, then the factory's objects.
    pub open spec fn failure_releases(&self) -> Seq<Command> {
        match self.stage() {
            FactoryStage::Pipeline { module } => seq![Command::DestroyShaderModule { module }] + factory_releases(
                self.factory(),
            ),
            _ => factory_releases(self.factory()),
        }
    }

    pub closed spec fn wf(&self) -> bool {
        self.stage != FactoryStage::Finished ==> self.factory.ctx is Some
    }

    fn take_factory(&mut self) -> (r: Factory<'a>)
        ensures
            r == old(self).factory,
            final(self).stage == old(self).stage,
            final(self).push_constant_size == old(self).push_constant_size,
            final(self).code_size == old(self).code_size,
    {
        let mut f = Factory::default();
        std::mem::swap(&mut f, &mut self.factory);
        f
    }

    /// Feeds the outcome of the last command handed out.  A failure releases
    /// the shader module if it exists and then what the factory holds (what
    /// dropping the half-made factory does).
    pub fn step(&mut self, outcome: Outcome) -> (r: Next<Factory<'a>>)
        requires
            old(self).wf(),
        ensures
            final(self).wf(),
            final(self).push_constant_size() == old(self).push_constant_size(),
            final(self).code_size() == old(self).code_size(),
            r matches Next::Fail(rel, _) ==> rel@ == old(self).failure_releases(),
            ({
                let f = old(self).factory();
                match (old(self).stage(), outcome) {
                    (FactoryStage::SetLayout, Outcome::Handle(layout)) => {
                        &&& r == Next::<Factory<'a>>::Issue(
                            Command::CreatePipelineLayout {
                                set_layout: layout,
                                push_constant_size: old(self).push_constant_size(),
                            },
                        )
                        &&& final(self).stage() == FactoryStage::PipelineLayout
                        &&& final(self).factory() == (Factory { desc_layout: layout, ..f })
                        &&& final(self).code() == old(self).code()
                    },
                    (FactoryStage::PipelineLayout, Outcome::Handle(layout)) => {
                        &&& r matches Next::Issue(Command::CreateShaderModule { code_size, code })
                            && code_size == old(self).code_size() && code@ == old(self).code()
                        &&& final(self).stage() == FactoryStage::ShaderModule
                        &&& final(self).factory() == (Factory { pipe_layout: layout, ..f })
                    },
                    (FactoryStage::ShaderModule, Outcome::Handle(module)) => {
                        &&& r == Next::<Factory<'a>>::Issue(
                            Command::CreateComputePipeline { layout: f.pipe_layout, module },
                        )
                        &&& final(self).stage() == (FactoryStage::Pipeline { module })
                        &&& final(self).factory() == f
                    },
                    (FactoryStage::Pipeline { module }, Outcome::Handles(pipes)) => if pipes@.len() == 0 {
                        &&& r == Next::<Factory<'a>>::Issue(Command::DestroyShaderModule { module })
                        &&& final(self).stage() == FactoryStage::ModuleReleaseBeforeAbort
                        &&& final(self).factory() == f
                    } else {
                        &&& r == Next::<Factory<'a>>::Issue(Command::DestroyShaderModule { module })
                        &&& final(self).stage() == FactoryStage::ModuleRelease
                        &&& final(self).factory() == (Factory { pipeline: pipes@[0], ..f })
                    },
                    (FactoryStage::ModuleRelease, Outcome::Done) => {
                        &&& r == Next::Ready(f)
                        &&& final(self).stage() == FactoryStage::Finished
                    },
                    (FactoryStage::ModuleReleaseBeforeAbort, Outcome::Done) => {
                        &&& r == Next::<Factory<'a>>::Abort(AbortReason::MissingHandle)
                        &&& final(self).stage() == FactoryStage::Finished
                    },
                    (FactoryStage::SetLayout, Outcome::Failed(e))
                    | (FactoryStage::PipelineLayout, Outcome::Failed(e))
                    | (FactoryStage::ShaderModule, Outcome::Failed(e))
                    | (FactoryStage::Pipeline { .. }, Outcome::Failed(e)) => {
                        &&& r matches Next::Fail(_, err) && err == e
                        &&& final(self).stage() == FactoryStage::Finished
                    },
                    _ => {
                        &&& r == Next::<Factory<'a>>::Abort(AbortReason::UnexpectedOutcome)
                        &&& final(self).stage() == FactoryStage::Finished
                    },
                }
            }),
    {
        let stage = self.stage;
        self.stage = FactoryStage::Finished;
        match (stage, outcome) {
            (FactoryStage::SetLayout, Outcome::Handle(layout)) => {
                self.factory.desc_layout = layout;
                self.stage = FactoryStage::PipelineLayout;
                Next::Issue(Command::CreatePipelineLayout { set_layout: layout, push_constant_size: self.push_constant_size })
            },
            (FactoryStage::PipelineLayout, Outcome::Handle(layout)) => {
                self.factory.pipe_layout = layout;
                self.stage = FactoryStage::ShaderModule;
                let mut code: Vec<u32> = Vec::new();
                std::mem::swap(&mut code, &mut self.code);
                Next::Issue(Command::CreateShaderModule { code_size: self.code_size, code })
            },
            (FactoryStage::ShaderModule, Outcome::Handle(module)) => {
                self.stage = FactoryStage::Pipeline { module };
                Next::Issue(Command::CreateComputePipeline { layout: self.factory.pipe_layout, module })
            },
            (FactoryStage::Pipeline { module }, Outcome::Handles(pipes)) => {
                if pipes.len() == 0 {
                    self.stage = FactoryStage::ModuleReleaseBeforeAbort;
                    Next::Issue(Command::DestroyShaderModule { module })
                } else {
                    self.factory.pipeline = pipes[0];
                    self.stage = FactoryStage::ModuleRelease;
                    Next::Issue(Command::DestroyShaderModule { module })
                }
            },
            (FactoryStage::ModuleRelease, Outcome::Done) => Next::Ready(self.take_factory()),
            (FactoryStage::ModuleReleaseBeforeAbort, Outcome::Done) => Next::Abort(AbortReason::MissingHandle),
            (FactoryStage::SetLayout, Outcome::Failed(e))
            | (FactoryStage::PipelineLayout, Outcome::Failed(e))
            | (FactoryStage::ShaderModule, Outcome::Failed(e)) => {
                let rel = self.factory.clean();
                Next::Fail(rel, e)
            },
            (FactoryStage::Pipeline { module }, Outcome::Failed(e)) => {
                let mut rel: Vec<Command> = Vec::new();
                rel.push(Command::DestroyShaderModule { module });
                let mut more = self.factory.clean();
                rel.append(&mut more);
                Next::Fail(rel, e)
            },
            _ => Next::Abort(AbortReason::UnexpectedOutcome),
        }
    }
}

/// A kind of compute object: the arrays and scalars its program takes, how
/// it is built from a factory's object, and what running it records.
pub trait FactoryObject: Sized {
    /// The number of input arrays; the same for every object of the kind.
    const INPUT_ARRAY_COUNT: usize;
    /// The number of scalar arguments.
    const INPUT_SCALAR_COUNT: usize;
    /// The number of output arrays.
    const OUTPUT_ARRAY_COUNT: usize;

    /// The kind of each scalar argument.
    fn input_scalar_types() -> (r: Vec<ScalarArgType>)
        ensures
            r@.len() == Self::INPUT_SCALAR_COUNT,
    ;

    /// What an object of the kind is configured with.
    type Knobs: Copy;

    /// The lengths of the input arrays for a configuration.
    spec fn spec_input_array_sizes(knobs: Self::Knobs) -> Seq<u32>;

    /// The lengths of the output arrays for a configuration.
    spec fn spec_output_array_sizes(knobs: Self::Knobs) -> Seq<u32>;

    /// The length of each input array for the given configuration.
    fn input_array_sizes(knobs: Self::Knobs) -> (r: Vec<u32>)
        ensures
            r@ == Self::spec_input_array_sizes(knobs),
            r@.len() == Self::INPUT_ARRAY_COUNT,
    ;

    /// The length of each output array for the given configuration.
    fn output_array_sizes(knobs: Self::Knobs) -> (r: Vec<u32>)
        ensures
            r@ == Self::spec_output_array_sizes(knobs),
            r@.len() == Self::OUTPUT_ARRAY_COUNT,
    ;

    /// Starts making the factory for the kind from its SPIR-V program; fails
    /// only if the bytecode buffer cannot be allocated.
    fn factory<'c>(ctx: &'c Context, spirv: &[u8]) -> (r: Result<(FactorySetup<'c>, Command), ShaderCodeError>)
        requires
            spirv@.len() > 0,
            spirv@.len() % 4 == 0,
    ;

    /// The object an object of the kind wraps: a [`FactoryObjectBase`]
    /// borrowing from its factory for as long as the object lives.
    type Base;

    /// Whether `self` wraps the object `base` made for `knobs`.
    spec fn made_from(&self, base: Self::Base, knobs: Self::Knobs) -> bool;

    /// Wraps a produced object.  On failure the object is handed back so
    /// that it can be released.
    fn new(base_obj: Self::Base, knobs: Self::Knobs) -> (r: Result<Self, (Self::Base, VkError)>)
        ensures
            r matches Ok(obj) ==> obj.made_from(base_obj, knobs),
            r matches Err((b, _)) ==> b == base_obj,
    ;

    /// What one use of an object takes.
    type Inputs: Copy;

    /// Whether the object can be used with these arguments.
    spec fn accepts(&self, args: Self::Inputs) -> bool;

    /// Sets the arguments and returns the commands to record one use.
    fn exec_cmd(&mut self, cmd_buf: u64, args: Self::Inputs) -> (r: Vec<Command>)
        requires
            old(self).accepts(args),
    ;
}

impl<'a> Factory<'a> {
    /// Starts making the factory for kind `T` from its bytecode: a
    /// descriptor set layout with bindings `0..n` for the kind's `n` input
    /// and output arrays, then the rest as [`FactorySetup`] describes.
    pub fn new<T: FactoryObject>(ctx: &'a Context, shader_code: &vulkanalia::bytecode::Bytecode) -> (r: (FactorySetup<'a>, Command))
        requires
            T::INPUT_ARRAY_COUNT + T::OUTPUT_ARRAY_COUNT <= usize::MAX,
            4 * (T::INPUT_SCALAR_COUNT as u32) <= u32::MAX,
        ensures
            r.0.wf(),
            r.0.stage() == FactoryStage::SetLayout,
            r.0.factory() == (Factory { desc_layout: 0, pipe_layout: 0, pipeline: 0, ctx: Some(ctx) }),
            r.0.push_constant_size() == 4 * (T::INPUT_SCALAR_COUNT as u32),
            r.0.code() == bytecode_words(*shader_code),
            r.0.code_size() == bytecode_words(*shader_code).len() * 4,
            r.1 matches Command::CreateDescriptorSetLayout { bindings } && bindings@ == binding_numbers(
                (T::INPUT_ARRAY_COUNT + T::OUTPUT_ARRAY_COUNT) as nat,
            ),
    {
        Factory::new_with_counts(ctx, shader_code, T::INPUT_ARRAY_COUNT + T::OUTPUT_ARRAY_COUNT, T::INPUT_SCALAR_COUNT)
    }

    /// Starts making a factory for a program with `array_count` arrays and
    /// `scalar_count` scalars.
    pub fn new_with_counts(
        ctx: &'a Context,
        shader_code: &vulkanalia::bytecode::Bytecode,
        array_count: usize,
        scalar_count: usize,
    ) -> (r: (FactorySetup<'a>, Command))
        requires
            4 * (scalar_count as u32) <= u32::MAX,
        ensures
            r.0.wf(),
            r.0.stage() == FactoryStage::SetLayout,
            r.0.factory() == (Factory { desc_layout: 0, pipe_layout: 0, pipeline: 0, ctx: Some(ctx) }),
            r.0.push_constant_size() == 4 * (scalar_count as u32),
            r.0.code() == bytecode_words(*shader_code),
            r.0.code_size() == bytecode_words(*shader_code).len() * 4,
            r.1 matches Command::CreateDescriptorSetLayout { bindings } && bindings@ == binding_numbers(array_count as nat),
    {
        let mut bindings: Vec<u32> = Vec::new();
        let mut i: usize = 0;
        while i < array_count
            invariant
                i <= array_count,
                bindings@ =~= binding_numbers(i as nat),
            decreases array_count - i,
        {
            bindings.push(i as u32);
            i = i + 1;
        }
        let words = bytecode_code(shader_code);
        let code = copy_u32s(words);
        let code_size = bytecode_code_size(shader_code);
        let push_constant_size = 4 * (scalar_count as u32);
        let factory = Factory { desc_layout: 0, pipe_layout: 0, pipeline: 0, ctx: Some(ctx) };
        (
            FactorySetup { factory, stage: FactoryStage::SetLayout, push_constant_size, code_size, code },
            Command::CreateDescriptorSetLayout { bindings },
        )
    }

    /// Starts producing an object of kind `T` configured by `knobs`: an
    /// object with the kind's array lengths and scalar count, then wrapped
    /// by `T::new`.
    pub fn produce<T: FactoryObject<Base = FactoryObjectBase<'a>>>(&'a self, knobs: T::Knobs) -> (r: (Production<'a, T>, Command))
        requires
            self.ctx is Some,
            T::INPUT_ARRAY_COUNT + T::OUTPUT_ARRAY_COUNT <= usize::MAX,
            T::INPUT_SCALAR_COUNT * 4 <= usize::MAX,
        ensures
            r.0.wf(),
            r.0.knobs() == knobs,
            r.0.setup().stage() == ObjectStage::DescriptorPool,
            r.0.setup().factory() == self,
            r.0.setup().input_sizes() == T::spec_input_array_sizes(knobs),
            r.0.setup().output_sizes() == T::spec_output_array_sizes(knobs),
            r.0.setup().input_sizes().len() == T::INPUT_ARRAY_COUNT,
            r.0.setup().output_sizes().len() == T::OUTPUT_ARRAY_COUNT,
            r.0.setup().scalar_count() == T::INPUT_SCALAR_COUNT,
            r.1 == (Command::CreateDescriptorPool {
                descriptor_count: (T::INPUT_ARRAY_COUNT + T::OUTPUT_ARRAY_COUNT) as u32,
            }),
    {
        let input_sizes = T::input_array_sizes(knobs);
        let output_sizes = T::output_array_sizes(knobs);
        let (setup, c) = FactoryObjectBase::new(self, input_sizes.as_slice(), output_sizes.as_slice(), T::INPUT_SCALAR_COUNT);
        (Production { setup, knobs }, c)
    }
}

/// What a production passes on when the setup of the shared state steps
/// with result `r0`: commands, failures and aborts unchanged; for a
/// finished object, what `T::new` returned on it and the knobs: the object
/// it made, or its error after releasing the object it handed back.
pub open spec fn production_result<'a, T: FactoryObject<Base = FactoryObjectBase<'a>>>(
    r0: Next<FactoryObjectBase<'a>>,
    r: Next<T>,
    knobs: T::Knobs,
) -> bool {
    match r0 {
        Next::Issue(c) => r == Next::<T>::Issue(c),
        Next::Abort(reason) => r == Next::<T>::Abort(reason),
        Next::Fail(rel0, e0) => r matches Next::Fail(rel, e) && rel@ == rel0@ && e == e0,
        Next::Ready(b) => exists|res: Result<T, (FactoryObjectBase<'a>, VkError)>|
            #[trigger] call_ensures(T::new, (b, knobs), res) && match res {
                Ok(obj) => r == Next::<T>::Ready(obj),
                Err((b2, e)) => r matches Next::Fail(rel, e2) && e2 == e && rel@ == b2.releases(),
            },
    }
}

/// Whether `obj` wraps, for `knobs`, an object fully set up as `setup`
/// asks: by its factory, for its array lengths and scalar count.
pub open spec fn wraps_produced_base<'a, T: FactoryObject<Base = FactoryObjectBase<'a>>>(
    obj: T,
    setup: ObjectSetup<'a>,
    knobs: T::Knobs,
) -> bool {
    exists|b: FactoryObjectBase<'a>|
        #[trigger] obj.made_from(b, knobs) && is_produced_base(
            b,
            setup.factory(),
            setup.input_sizes(),
            setup.output_sizes(),
            setup.scalar_count() as nat,
        )
}

/// The production of an object of kind `T`: the setup of its shared state,
/// then wrapping it.
pub struct Production<'a, T: FactoryObject<Base = FactoryObjectBase<'a>>> {
    setup: ObjectSetup<'a>,
    knobs: T::Knobs,
}

impl<'a, T: FactoryObject<Base = FactoryObjectBase<'a>>> Production<'a, T> {
    pub closed spec fn setup(&self) -> ObjectSetup<'a> {
        self.setup
    }

    pub closed spec fn knobs(&self) -> T::Knobs {
        self.knobs
    }

    pub closed spec fn wf(&self) -> bool {
        &&& self.setup.wf()
        &&& self.setup.factory().ctx is Some
    }

    /// Feeds the outcome of the last command handed out.  A failure
    /// releases everything made so far.
    pub fn step(&mut self, outcome: Outcome) -> (r: Next<T>)
        requires
            old(self).wf(),
        ensures
            final(self).wf(),
            final(self).knobs() == old(self).knobs(),
            final(self).setup().factory() == old(self).setup().factory(),
            final(self).setup().input_sizes() == old(self).setup().input_sizes(),
            final(self).setup().output_sizes() == old(self).setup().output_sizes(),
            final(self).setup().scalar_count() == old(self).setup().scalar_count(),
            exists|r0: Next<FactoryObjectBase<'a>>|
                #[trigger] object_step(old(self).setup(), outcome, final(self).setup(), r0) && production_result::<T>(
                    r0,
                    r,
                    old(self).knobs(),
                ),
            r matches Next::Fail(rel, _) ==> rel@ == old(self).setup().failure_releases(),
            r matches Next::Ready(obj) ==> wraps_produced_base::<T>(obj, old(self).setup(), old(self).knobs()),
    {
        let res = self.setup.step(outcome);
        let ghost r0 = res;
        assert(object_step(old(self).setup(), outcome, self.setup(), r0));
        match res {
            Next::Issue(c) => Next::Issue(c),
            Next::Fail(rel, e) => Next::Fail(rel, e),
            Next::Abort(reason) => Next::Abort(reason),
            Next::Ready(base) => {
                let ghost made = base;
                let wrapped = T::new(base, self.knobs);
                assert(call_ensures(T::new, (made, old(self).knobs()), wrapped));
                match wrapped {
                    Ok(obj) => {
                        assert(obj.made_from(made, old(self).knobs()));
                        assert(wraps_produced_base::<T>(obj, old(self).setup(), old(self).knobs()));
                        Next::Ready(obj)
                    },
                    Err((mut b, e)) => {
                        let rel = b.clean();
                        Next::Fail(rel, e)
                    },
                }
            },
        }
    }
}

} // verus!
