use vk_compute::command::{AbortReason, Command, Next, Outcome, VkError};
use vk_compute::context::{Context, DeviceF32Array};
use vk_compute::process_unit::{
    scalar_arg_type_ok, Factory, FactoryObject, FactoryObjectBase, ScalarArgType, ScalarArgVal,
};
use vk_compute::scalex::{Scalex, ScalexCallArgs, ScalexInitArgs};

fn make_context() -> Context {
    let (mut s, _) = Context::new(false);
    let outcomes = vec![
        Outcome::Done,
        Outcome::Handles(vec![77]),
        Outcome::QueueFamilies(vec![0x2]),
        Outcome::Done,
        Outcome::Handle(500),
        Outcome::Handle(600),
        Outcome::Handles(vec![701, 702]),
        Outcome::Handle(800),
        Outcome::MemoryReport { type_bits: 0b111, type_flags: vec![0x2, 0x1, 0x3] },
        Outcome::Done,
    ];
    let mut last = None;
    for o in outcomes {
        last = Some(s.step(o));
    }
    match last.unwrap() {
        Next::Ready(c) => c,
        other => panic!("unexpected {:?}", other),
    }
}

const SPIRV: [u8; 8] = [0x03, 0x02, 0x23, 0x07, 0x00, 0x00, 0x01, 0x00];

fn make_factory(ctx: &Context) -> Factory<'_> {
    let (mut setup, first) = Scalex::factory(ctx, &SPIRV).unwrap();
    match first {
        Command::CreateDescriptorSetLayout { bindings } => assert_eq!(bindings, vec![0, 1]),
        other => panic!("unexpected {:?}", other),
    }
    assert!(matches!(
        setup.step(Outcome::Handle(11)),
        Next::Issue(Command::CreatePipelineLayout { set_layout: 11, push_constant_size: 8 })
    ));
    match setup.step(Outcome::Handle(12)) {
        Next::Issue(Command::CreateShaderModule { code_size, code }) => {
            assert_eq!(code_size, 8);
            let expected: Vec<u32> = SPIRV.chunks(4).map(|c| u32::from_ne_bytes([c[0], c[1], c[2], c[3]])).collect();
            assert_eq!(code, expected);
        }
        other => panic!("unexpected {:?}", other),
    }
    assert!(matches!(
        setup.step(Outcome::Handle(13)),
        Next::Issue(Command::CreateComputePipeline { layout: 12, module: 13 })
    ));
    assert!(matches!(setup.step(Outcome::Handles(vec![14])), Next::Issue(Command::DestroyShaderModule { module: 13 })));
    match setup.step(Outcome::Done) {
        Next::Ready(f) => {
            assert_eq!(f.desc_layout, 11);
            assert_eq!(f.pipe_layout, 12);
            assert_eq!(f.pipeline, 14);
            f
        }
        other => panic!("unexpected {:?}", other),
    }
}

#[test]
fn scalar_bytes_are_native() {
    let arr = DeviceF32Array { buffer: 1, memory: 2, is_dev_local: false, count: 32, size: 128 };
    assert_eq!(ScalarArgVal::U32(0x01020304).to_ne_vec(), 0x01020304u32.to_ne_bytes().to_vec());
    assert_eq!(ScalarArgVal::F32(2.5f32.to_bits()).to_ne_vec(), 2.5f32.to_ne_bytes().to_vec());
    // the array "length" is its size in bytes
    assert_eq!(ScalarArgVal::ArrayLen(&arr).to_ne_vec(), 128u32.to_ne_bytes().to_vec());
}

#[test]
fn scalar_bytes_round_trip() {
    for u in [0u32, 1, 0x01020304, 0xdeadbeef, u32::MAX] {
        let b = ScalarArgVal::U32(u).to_ne_vec();
        assert_eq!(b.len(), 4);
        assert_eq!(u32::from_ne_bytes([b[0], b[1], b[2], b[3]]), u);
    }
    for x in [0.0f32, -1.5, 3.25e7, f32::MIN_POSITIVE] {
        let b = ScalarArgVal::F32(x.to_bits()).to_ne_vec();
        assert_eq!(b.len(), 4);
        assert_eq!(f32::from_ne_bytes([b[0], b[1], b[2], b[3]]).to_bits(), x.to_bits());
    }
}

#[test]
fn scalar_type_check() {
    let arr = DeviceF32Array::default();
    assert!(scalar_arg_type_ok(ScalarArgType::ArrayLen, &ScalarArgVal::ArrayLen(&arr)));
    assert!(scalar_arg_type_ok(ScalarArgType::U32, &ScalarArgVal::U32(1)));
    assert!(scalar_arg_type_ok(ScalarArgType::F32, &ScalarArgVal::F32(0)));
    assert!(!scalar_arg_type_ok(ScalarArgType::F32, &ScalarArgVal::U32(1)));
    assert!(!scalar_arg_type_ok(ScalarArgType::U32, &ScalarArgVal::ArrayLen(&arr)));
}

#[test]
fn factory_setup_and_clean() {
    let ctx = make_context();
    let mut f = make_factory(&ctx);
    let rel = f.clean();
    assert_eq!(rel.len(), 3);
    assert!(matches!(rel[0], Command::DestroyPipeline { pipeline: 14 }));
    assert!(matches!(rel[1], Command::DestroyPipelineLayout { layout: 12 }));
    assert!(matches!(rel[2], Command::DestroyDescriptorSetLayout { layout: 11 }));
    assert!(f.clean().is_empty());
}

#[test]
fn factory_without_context_cleans_nothing() {
    let mut f = Factory::default();
    f.pipeline = 5;
    assert!(f.clean().is_empty());
    assert_eq!(f.pipeline, 5);
}

#[test]
fn factory_bad_spirv_length_is_refused_by_bytecode() {
    // the trait requires a non-empty multiple of four; the factory of a
    // valid buffer only fails when allocation fails
    let ctx = make_context();
    assert!(Scalex::factory(&ctx, &SPIRV).is_ok());
}

#[test]
fn factory_failures_release_what_exists() {
    let ctx = make_context();
    let (mut setup, _) = Scalex::factory(&ctx, &SPIRV).unwrap();
    let _ = setup.step(Outcome::Handle(11));
    match setup.step(Outcome::Failed(VkError { code: -1 })) {
        Next::Fail(rel, _) => {
            assert_eq!(rel.len(), 1);
            assert!(matches!(rel[0], Command::DestroyDescriptorSetLayout { layout: 11 }));
        }
        other => panic!("unexpected {:?}", other),
    }

    let (mut setup, _) = Scalex::factory(&ctx, &SPIRV).unwrap();
    let _ = setup.step(Outcome::Handle(11));
    let _ = setup.step(Outcome::Handle(12));
    let _ = setup.step(Outcome::Handle(13));
    match setup.step(Outcome::Failed(VkError { code: -1 })) {
        Next::Fail(rel, _) => {
            assert_eq!(rel.len(), 3);
            assert!(matches!(rel[0], Command::DestroyShaderModule { module: 13 }));
            assert!(matches!(rel[1], Command::DestroyPipelineLayout { layout: 12 }));
            assert!(matches!(rel[2], Command::DestroyDescriptorSetLayout { layout: 11 }));
        }
        other => panic!("unexpected {:?}", other),
    }

    let (mut setup, _) = Scalex::factory(&ctx, &SPIRV).unwrap();
    let _ = setup.step(Outcome::Handle(11));
    let _ = setup.step(Outcome::Handle(12));
    let _ = setup.step(Outcome::Handle(13));
    assert!(matches!(setup.step(Outcome::Handles(vec![])), Next::Issue(Command::DestroyShaderModule { module: 13 })));
    assert!(matches!(setup.step(Outcome::Done), Next::Abort(AbortReason::MissingHandle)));
}

fn produce_scalex<'a>(f: &'a Factory<'a>, n: u32) -> Scalex<'a> {
    let (mut p, first) = f.produce::<Scalex>(ScalexInitArgs { arr_size: n });
    assert!(matches!(first, Command::CreateDescriptorPool { descriptor_count: 2 }));
    assert!(matches!(p.step(Outcome::Handle(30)), Next::Issue(Command::AllocateDescriptorSet { pool: 30, layout: 11 })));
    let size = (n as u64) * 4;
    match p.step(Outcome::Handles(vec![31])) {
        Next::Issue(Command::CreateBuffer { size: s, usage: 35 }) => assert_eq!(s, size),
        other => panic!("unexpected {:?}", other),
    }
    assert!(matches!(p.step(Outcome::Handle(40)), Next::Issue(Command::AllocateMemory { memory_type: 2, .. })));
    assert!(matches!(p.step(Outcome::Handle(41)), Next::Issue(Command::BindBufferMemory { buffer: 40, memory: 41 })));
    match p.step(Outcome::Done) {
        Next::Issue(Command::WriteStorageDescriptor { set: 31, binding: 1, buffer: 40, range }) => assert_eq!(range, size),
        other => panic!("unexpected {:?}", other),
    }
    match p.step(Outcome::Done) {
        Next::Ready(s) => s,
        other => panic!("unexpected {:?}", other),
    }
}

#[test]
fn produce_and_run_scalex() {
    let ctx = make_context();
    let f = make_factory(&ctx);
    let mut obj = produce_scalex(&f, 32);
    assert_eq!(obj.alen, 32);
    assert_eq!(*obj.out(), DeviceF32Array { buffer: 40, memory: 41, is_dev_local: false, count: 32, size: 128 });
    let x = DeviceF32Array { buffer: 50, memory: 51, is_dev_local: false, count: 32, size: 128 };
    let cmds = obj.exec_cmd(701, ScalexCallArgs { x_in: &x, factor: 2.0f32.to_bits() });
    assert_eq!(cmds.len(), 6);
    assert!(matches!(cmds[0], Command::WriteStorageDescriptor { set: 31, binding: 0, buffer: 50, range: 128 }));
    match &cmds[1] {
        Command::PipelineBarrier { command_buffer: 701, barriers } => {
            assert_eq!(barriers.len(), 1);
            assert_eq!(barriers[0].buffer, 50);
            assert_eq!(barriers[0].size, 128);
            assert_eq!(barriers[0].queue_family, 0);
        }
        other => panic!("unexpected {:?}", other),
    }
    assert!(matches!(cmds[2], Command::BindDescriptorSet { command_buffer: 701, layout: 12, set: 31 }));
    match &cmds[3] {
        Command::PushConstants { command_buffer: 701, layout: 12, bytes } => {
            let mut expected = 128u32.to_ne_bytes().to_vec();
            expected.extend_from_slice(&2.0f32.to_ne_bytes());
            assert_eq!(bytes, &expected);
        }
        other => panic!("unexpected {:?}", other),
    }
    assert!(matches!(cmds[4], Command::BindPipeline { command_buffer: 701, pipeline: 14 }));
    assert!(matches!(
        cmds[5],
        Command::Dispatch { command_buffer: 701, group_count_x: 1, group_count_y: 1, group_count_z: 1 }
    ));
}

#[test]
fn dispatch_rounds_up_to_workgroups() {
    let ctx = make_context();
    let f = make_factory(&ctx);
    for (n, groups) in [(64u32, 1u32), (65, 2), (1, 1), (0, 0), (129, 3)] {
        let mut obj = produce_scalex(&f, n);
        let x = DeviceF32Array { buffer: 50, memory: 51, is_dev_local: false, count: n as usize, size: 4 * n as usize };
        let cmds = obj.exec_cmd(1, ScalexCallArgs { x_in: &x, factor: 0 });
        match cmds[5] {
            Command::Dispatch { group_count_x, .. } => assert_eq!(group_count_x, groups),
            ref other => panic!("unexpected {:?}", other),
        }
    }
}

#[test]
fn dispatch_at_largest_length() {
    let ctx = make_context();
    let f = make_factory(&ctx);
    let n = u32::MAX - 63;
    let mut obj = produce_scalex(&f, n);
    assert_eq!(obj.out().count, n as usize);
    let x = DeviceF32Array { buffer: 50, memory: 51, is_dev_local: false, count: n as usize, size: 4 * n as usize };
    let cmds = obj.exec_cmd(1, ScalexCallArgs { x_in: &x, factor: 0 });
    assert!(matches!(
        cmds[5],
        Command::Dispatch { command_buffer: 1, group_count_x: 67108863, group_count_y: 1, group_count_z: 1 }
    ));
}

#[test]
fn object_clean_releases_outputs_then_pool() {
    let ctx = make_context();
    let f = make_factory(&ctx);
    let mut obj = produce_scalex(&f, 8);
    let rel = obj.base.clean();
    assert_eq!(rel.len(), 3);
    assert!(matches!(rel[0], Command::DestroyBuffer { buffer: 40 }));
    assert!(matches!(rel[1], Command::FreeMemory { memory: 41 }));
    assert!(matches!(rel[2], Command::DestroyDescriptorPool { pool: 30 }));
    assert_eq!(*obj.out(), DeviceF32Array::default());
    // a second clean touches only null handles
    let again = obj.base.clean();
    assert_eq!(again.len(), 2);
    assert!(matches!(again[0], Command::DestroyBuffer { buffer: 0 }));
    assert!(matches!(again[1], Command::FreeMemory { memory: 0 }));
}

#[test]
fn default_object_has_no_context() {
    let mut b = FactoryObjectBase::default();
    assert!(b.ctx().is_none());
    assert!(b.clean().is_empty());
}

#[test]
fn production_failures_release_what_exists() {
    let ctx = make_context();
    let f = make_factory(&ctx);
    // descriptor set fails: the pool is destroyed
    let (mut p, _) = f.produce::<Scalex>(ScalexInitArgs { arr_size: 4 });
    let _ = p.step(Outcome::Handle(30));
    match p.step(Outcome::Failed(VkError { code: -1 })) {
        Next::Fail(rel, _) => {
            assert_eq!(rel.len(), 1);
            assert!(matches!(rel[0], Command::DestroyDescriptorPool { pool: 30 }));
        }
        other => panic!("unexpected {:?}", other),
    }
    // output memory fails: its buffer, then the pool
    let (mut p, _) = f.produce::<Scalex>(ScalexInitArgs { arr_size: 4 });
    let _ = p.step(Outcome::Handle(30));
    let _ = p.step(Outcome::Handles(vec![31]));
    let _ = p.step(Outcome::Handle(40));
    match p.step(Outcome::Failed(VkError { code: -2 })) {
        Next::Fail(rel, e) => {
            assert_eq!(e.code, -2);
            assert_eq!(rel.len(), 2);
            assert!(matches!(rel[0], Command::DestroyBuffer { buffer: 40 }));
            assert!(matches!(rel[1], Command::DestroyDescriptorPool { pool: 30 }));
        }
        other => panic!("unexpected {:?}", other),
    }
    // pool fails: nothing to release
    let (mut p, _) = f.produce::<Scalex>(ScalexInitArgs { arr_size: 4 });
    match p.step(Outcome::Failed(VkError { code: -3 })) {
        Next::Fail(rel, _) => assert!(rel.is_empty()),
        other => panic!("unexpected {:?}", other),
    }
}

#[test]
fn write_scalar_places_bytes_at_index() {
    let ctx = make_context();
    let f = make_factory(&ctx);
    let mut obj = produce_scalex(&f, 4);
    obj.base.write_scalar(1, ScalarArgVal::U32(7));
    let x = DeviceF32Array { buffer: 50, memory: 51, is_dev_local: false, count: 4, size: 16 };
    // exec_cmd rewrites both scalars
    let cmds = obj.exec_cmd(1, ScalexCallArgs { x_in: &x, factor: 9 });
    match &cmds[3] {
        Command::PushConstants { bytes, .. } => {
            assert_eq!(&bytes[0..4], &16u32.to_ne_bytes());
            assert_eq!(&bytes[4..8], &9u32.to_ne_bytes());
        }
        other => panic!("unexpected {:?}", other),
    }
}

#[test]
fn input_scalar_types_of_scalex() {
    assert_eq!(Scalex::input_scalar_types(), vec![ScalarArgType::ArrayLen, ScalarArgType::F32]);
    assert_eq!(Scalex::input_array_sizes(ScalexInitArgs { arr_size: 5 }), vec![5]);
    assert_eq!(Scalex::output_array_sizes(ScalexInitArgs { arr_size: 5 }), vec![5]);
}
