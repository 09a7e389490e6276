//! `Scalex`: a compute object that scales an array, `out[i] = factor * x[i]`.
//! Its program takes one input array, one output array, and two scalars:
//! the input's length in bytes and the factor.
use vstd::prelude::*;
use crate::command::{Command, VkError};
use crate::context::{Context, DeviceF32Array};
use crate::process_unit::{
    binding_numbers, input_barriers, is_array_of, is_produced_base, unset_inputs, zero_bytes, native_bytes_of, Factory, FactoryObject, FactoryObjectBase, FactorySetup, FactoryStage,
    ScalarArgType, ScalarArgVal,
};
use crate::vulkan::{bytecode_new, bytecode_words, words_be, words_le, ShaderCodeError};

verus! {

/// The number of invocations in one workgroup of the program.
pub const LOCAL_SIZE_X: u32 = 64;

/// The number of workgroups that covers `alen` elements.
pub open spec fn group_count(alen: u32) -> u32 {
    ((alen + 63) / 64) as u32
}

/// Law: the dispatch covers every element with the fewest workgroups.
pub proof fn lemma_dispatch_covers(alen: u32)
    ensures
        group_count(alen) * 64 >= alen,
        group_count(alen) * 64 < alen + 64,
{
    let g = (alen + 63) / 64;
    assert(g * 64 >= alen && g * 64 < alen + 64 && g <= u32::MAX) by (nonlinear_arith)
        requires
            g == (alen + 63) / 64,
            0 <= alen <= u32::MAX,
    ;
}

/// The shape of the scaling program: one input array, two scalars, one
/// output array.
pub proof fn lemma_scalex_counts()
    ensures
        <Scalex<'static> as FactoryObject>::INPUT_ARRAY_COUNT == 1,
        <Scalex<'static> as FactoryObject>::INPUT_SCALAR_COUNT == 2,
        <Scalex<'static> as FactoryObject>::OUTPUT_ARRAY_COUNT == 1,
{
}

/// Law: a scaling object produced for arrays of `n` elements has `alen ==
/// n`, belongs to its factory, has one input slot of `n` elements with no
/// array set yet, eight zero bytes of scalars, and one host-visible output
/// array of `n` elements (whose size is `4 * n` bytes).
pub proof fn lemma_produced_scalex<'a>(
    obj: Scalex<'a>,
    base: FactoryObjectBase<'a>,
    factory: &'a Factory<'a>,
    knobs: ScalexInitArgs,
)
    requires
        obj.made_from(base, knobs),
        is_produced_base(base, factory, seq![knobs.arr_size], seq![knobs.arr_size], 2),
    ensures
        obj.alen == knobs.arr_size,
        obj.base.factory_of() == Some(factory),
        obj.base.inputs() == seq![(None::<&'a DeviceF32Array>, knobs.arr_size)],
        obj.base.scalars() == zero_bytes(8),
        obj.base.outputs().len() == 1,
        obj.base.outputs()[0].count == knobs.arr_size as usize,
        obj.base.outputs()[0].size == (obj.base.outputs()[0].count * 4) as usize,
        !obj.base.outputs()[0].is_dev_local,
{
    assert(unset_inputs::<'a>(seq![knobs.arr_size]) =~= seq![(None::<&'a DeviceF32Array>, knobs.arr_size)]);
    assert(is_array_of(obj.base.outputs()[0], knobs.arr_size));
}

/// Law: a scaling object produced for arrays of `n` elements by a factory
/// with a context can be run on any input array of `n` elements, as long
/// as `n + 63` fits in a `u32`.
pub proof fn lemma_produced_scalex_accepts<'a>(
    obj: Scalex<'a>,
    base: FactoryObjectBase<'a>,
    factory: &'a Factory<'a>,
    knobs: ScalexInitArgs,
    args: ScalexCallArgs<'a>,
)
    requires
        obj.made_from(base, knobs),
        is_produced_base(base, factory, seq![knobs.arr_size], seq![knobs.arr_size], 2),
        factory.ctx is Some,
        args.x_in.count as u32 == knobs.arr_size,
        knobs.arr_size + 63 <= u32::MAX,
    ensures
        obj.accepts(args),
{
    lemma_produced_scalex(obj, base, factory, knobs);
}

/// A scaling object made by a factory.
#[derive(Debug)]
pub struct Scalex<'a> {
    /// The number of elements of the arrays.
    pub alen: u32,
    pub base: FactoryObjectBase<'a>,
}

impl<'a> Scalex<'a> {
    /// The output array.
    pub fn out(&self) -> (r: &DeviceF32Array)
        requires
            self.base.outputs().len() > 0,
        ensures
            *r == self.base.outputs()[0],
    {
        self.base.get_output(0)
    }
}

/// What a scaling object is configured with.
#[derive(Clone, Copy, Debug)]
pub struct ScalexInitArgs {
    pub arr_size: u32,
}

/// What one use of a scaling object takes.  `factor` holds the bit pattern
/// of the `f32` factor.
#[derive(Clone, Copy, Debug)]
pub struct ScalexCallArgs<'a> {
    pub x_in: &'a DeviceF32Array,
    pub factor: u32,
}

impl<'a> FactoryObject for Scalex<'a> {
    const INPUT_ARRAY_COUNT: usize = 1;
    const INPUT_SCALAR_COUNT: usize = 2;
    const OUTPUT_ARRAY_COUNT: usize = 1;

    fn input_scalar_types() -> (r: Vec<ScalarArgType>)
        ensures
            r@ == seq![ScalarArgType::ArrayLen, ScalarArgType::F32],
    {
        let mut r: Vec<ScalarArgType> = Vec::new();
        r.push(ScalarArgType::ArrayLen);
        r.push(ScalarArgType::F32);
        assert(r@ =~= seq![ScalarArgType::ArrayLen, ScalarArgType::F32]);
        r
    }

    type Knobs = ScalexInitArgs;

    open spec fn spec_input_array_sizes(knobs: ScalexInitArgs) -> Seq<u32> {
        seq![knobs.arr_size]
    }

    open spec fn spec_output_array_sizes(knobs: ScalexInitArgs) -> Seq<u32> {
        seq![knobs.arr_size]
    }

    fn input_array_sizes(knobs: ScalexInitArgs) -> (r: Vec<u32>)
        ensures
            r@ == seq![knobs.arr_size],
    {
        let mut r: Vec<u32> = Vec::new();
        r.push(knobs.arr_size);
        assert(r@ =~= seq![knobs.arr_size]);
        r
    }

    fn output_array_sizes(knobs: ScalexInitArgs) -> (r: Vec<u32>)
        ensures
            r@ == seq![knobs.arr_size],
    {
        let mut r: Vec<u32> = Vec::new();
        r.push(knobs.arr_size);
        assert(r@ =~= seq![knobs.arr_size]);
        r
    }

    fn factory<'c>(ctx: &'c Context, spirv: &[u8]) -> (r: Result<(FactorySetup<'c>, Command), ShaderCodeError>)
        ensures
            r matches Err(e) ==> e == ShaderCodeError::Alloc,
            r matches Ok((setup, _)) ==> {
                &&& setup.wf()
                &&& setup.stage() == FactoryStage::SetLayout
                &&& setup.factory() == (Factory { desc_layout: 0, pipe_layout: 0, pipeline: 0, ctx: Some(ctx) })
                &&& setup.push_constant_size() == 8
                &&& setup.code() == words_le(spirv@) || setup.code() == words_be(spirv@)
                &&& setup.code_size() == spirv@.len()
            },
            r matches Ok((_, c)) ==> c matches Command::CreateDescriptorSetLayout { bindings } && bindings@ == seq![0u32, 1u32],
    {
        match bytecode_new(spirv) {
            Ok(code) => {
                let (setup, c) = Factory::new_with_counts(ctx, &code, Self::INPUT_ARRAY_COUNT + Self::OUTPUT_ARRAY_COUNT, Self::INPUT_SCALAR_COUNT);
                assert(binding_numbers(2) =~= seq![0u32, 1u32]);
                Ok((setup, c))
            },
            Err(e) => Err(e),
        }
    }

    type Base = FactoryObjectBase<'a>;

    open spec fn made_from(&self, base: FactoryObjectBase<'a>, knobs: ScalexInitArgs) -> bool {
        self.base == base && self.alen == knobs.arr_size
    }

    fn new(base_obj: FactoryObjectBase<'a>, knobs: ScalexInitArgs) -> (r: Result<Self, (FactoryObjectBase<'a>, VkError)>)
        ensures
            r is Ok,
    {
        Ok(Scalex { base: base_obj, alen: knobs.arr_size })
    }

    type Inputs = ScalexCallArgs<'a>;

    open spec fn accepts(&self, args: ScalexCallArgs<'a>) -> bool {
        &&& self.base.factory_of() is Some
        &&& self.base.context_of() is Some
        &&& self.base.inputs().len() == 1
        &&& self.base.inputs()[0].1 == args.x_in.count as u32
        &&& self.base.scalars().len() == 8
        &&& self.alen + 63 <= u32::MAX
    }

    /// Sets the input, its length in bytes and the factor, then records the
    /// barrier, descriptor set, push constants and pipeline, and a dispatch
    /// of enough 64-wide workgroups for `alen` elements.
    fn exec_cmd(&mut self, cmd_buf: u64, args: ScalexCallArgs<'a>) -> (r: Vec<Command>)
        ensures
            final(self).alen == old(self).alen,
            final(self).base.factory_of() == old(self).base.factory_of(),
            final(self).base.inputs() == seq![(Some(args.x_in), old(self).base.inputs()[0].1)],
            final(self).base.outputs() == old(self).base.outputs(),
            final(self).base.desc_set() == old(self).base.desc_set(),
            final(self).base.desc_pool() == old(self).base.desc_pool(),
            final(self).base.scalars().len() == 8,
            native_bytes_of(final(self).base.scalars().subrange(0, 4), args.x_in.size as u32),
            native_bytes_of(final(self).base.scalars().subrange(4, 8), args.factor),
            r@.len() == 6,
            r@[0] == (Command::WriteStorageDescriptor {
                set: old(self).base.desc_set(),
                binding: 0,
                buffer: args.x_in.buffer,
                range: args.x_in.size as u64,
            }),
            r@[1] matches Command::PipelineBarrier { command_buffer, barriers } && command_buffer == cmd_buf
                && barriers@ == input_barriers(final(self).base.inputs(), final(self).base.context_of().unwrap().comp_fam),
            r@[2] == (Command::BindDescriptorSet {
                command_buffer: cmd_buf,
                layout: old(self).base.factory_of().unwrap().pipe_layout,
                set: old(self).base.desc_set(),
            }),
            r@[3] matches Command::PushConstants { command_buffer, layout, bytes } && command_buffer == cmd_buf
                && layout == old(self).base.factory_of().unwrap().pipe_layout && bytes@ == final(self).base.scalars(),
            r@[4] == (Command::BindPipeline {
                command_buffer: cmd_buf,
                pipeline: old(self).base.factory_of().unwrap().pipeline,
            }),
            r@[5] == (Command::Dispatch {
                command_buffer: cmd_buf,
                group_count_x: group_count(old(self).alen),
                group_count_y: 1,
                group_count_z: 1,
            }),
    {
        let alen = self.alen;
        assert(alen + 63 <= u32::MAX);
        assert(LOCAL_SIZE_X == 64);
        let mut r: Vec<Command> = Vec::new();
        let w = self.base.write_input(0, args.x_in);
        r.push(w);
        self.base.write_scalar(0, ScalarArgVal::ArrayLen(args.x_in));
        self.base.write_scalar(1, ScalarArgVal::F32(args.factor));
        assert(self.base.inputs() =~= seq![(Some(args.x_in), old(self).base.inputs()[0].1)]);
        assert(self.base.inputs_set());
        let mut pre = self.base.setup_pre_cmd(cmd_buf);
        r.append(&mut pre);
        let group_x = (alen + (LOCAL_SIZE_X - 1)) / LOCAL_SIZE_X;
        r.push(Command::Dispatch { command_buffer: cmd_buf, group_count_x: group_x, group_count_y: 1, group_count_z: 1 });
        r
    }
}

} // verus!
