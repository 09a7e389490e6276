use vk_compute::command::{AbortReason, Command, Next, Outcome, VkError};
use vk_compute::context::{Context, DeviceF32Array};

fn make_context() -> Context {
    let (mut s, _) = Context::new(false);
    let outcomes = vec![
        Outcome::Done,
        Outcome::Handles(vec![77]),
        Outcome::QueueFamilies(vec![0x2]),
        Outcome::Done,
        Outcome::Handle(500),
        Outcome::Handle(600),
        Outcome::Handles(vec![701, 702]),
        Outcome::Handle(800),
        Outcome::MemoryReport { type_bits: 0b111, type_flags: vec![0x2, 0x1, 0x3] },
        Outcome::Done,
    ];
    let mut last = None;
    for o in outcomes {
        last = Some(s.step(o));
    }
    match last.unwrap() {
        Next::Ready(c) => c,
        other => panic!("unexpected {:?}", other),
    }
}

#[test]
fn array_setup_success() {
    let ctx = make_context();
    let (mut a, first) = ctx.new_array(32, false);
    assert!(matches!(first, Command::CreateBuffer { size: 128, usage: 35 }));
    assert!(matches!(a.step(Outcome::Handle(10)), Next::Issue(Command::AllocateMemory { size: 128, memory_type: 2 })));
    assert!(matches!(a.step(Outcome::Handle(20)), Next::Issue(Command::BindBufferMemory { buffer: 10, memory: 20 })));
    match a.step(Outcome::Done) {
        Next::Ready(arr) => {
            assert_eq!(arr, DeviceF32Array { buffer: 10, memory: 20, is_dev_local: false, count: 32, size: 128 });
        }
        other => panic!("unexpected {:?}", other),
    }
}

#[test]
fn array_buffer_failure_releases_nothing() {
    let ctx = make_context();
    let (mut a, _) = ctx.new_array(4, false);
    match a.step(Outcome::Failed(VkError { code: -2 })) {
        Next::Fail(rel, e) => {
            assert!(rel.is_empty());
            assert_eq!(e.code, -2);
        }
        other => panic!("unexpected {:?}", other),
    }
}

#[test]
fn array_memory_failure_frees_buffer() {
    let ctx = make_context();
    let (mut a, _) = ctx.new_array(4, false);
    let _ = a.step(Outcome::Handle(10));
    match a.step(Outcome::Failed(VkError { code: -2 })) {
        Next::Fail(rel, _) => {
            assert_eq!(rel.len(), 1);
            assert!(matches!(rel[0], Command::DestroyBuffer { buffer: 10 }));
        }
        other => panic!("unexpected {:?}", other),
    }
}

#[test]
fn array_bind_failure_frees_buffer_and_memory() {
    let ctx = make_context();
    let (mut a, _) = ctx.new_array(4, false);
    let _ = a.step(Outcome::Handle(10));
    let _ = a.step(Outcome::Handle(20));
    match a.step(Outcome::Failed(VkError { code: -2 })) {
        Next::Fail(rel, _) => {
            assert_eq!(rel.len(), 2);
            assert!(matches!(rel[0], Command::DestroyBuffer { buffer: 10 }));
            assert!(matches!(rel[1], Command::FreeMemory { memory: 20 }));
        }
        other => panic!("unexpected {:?}", other),
    }
}

#[test]
fn device_local_array_is_refused_after_buffer() {
    let ctx = make_context();
    let (mut a, first) = ctx.new_array(4, true);
    assert!(matches!(first, Command::CreateBuffer { size: 16, .. }));
    assert!(matches!(a.step(Outcome::Handle(10)), Next::Abort(AbortReason::DeviceLocalUnsupported)));
}

#[test]
fn array_unexpected_outcome() {
    let ctx = make_context();
    let (mut a, _) = ctx.new_array(4, false);
    assert!(matches!(a.step(Outcome::Done), Next::Abort(AbortReason::UnexpectedOutcome)));
}

#[test]
fn drop_write_read_array_commands() {
    let ctx = make_context();
    let arr = DeviceF32Array { buffer: 10, memory: 20, is_dev_local: false, count: 3, size: 12 };
    let d = ctx.drop_array(&arr);
    assert_eq!(d.len(), 2);
    assert!(matches!(d[0], Command::DestroyBuffer { buffer: 10 }));
    assert!(matches!(d[1], Command::FreeMemory { memory: 20 }));
    let bits = [1.0f32.to_bits(), 2.0f32.to_bits()];
    match ctx.write_array(&arr, &bits) {
        Command::WriteMemory { memory, size, words } => {
            assert_eq!(memory, 20);
            assert_eq!(size, 12);
            assert_eq!(words, bits.to_vec());
        }
        other => panic!("unexpected {:?}", other),
    }
    assert!(matches!(ctx.read_array(&arr), Command::ReadMemory { memory: 20, size: 12, count: 3 }));
}

/// Performs a host access on memory seen as the words of each allocation.
fn host_access(mem: &mut std::collections::HashMap<u64, Vec<u32>>, c: &Command) -> Vec<u32> {
    match c {
        Command::WriteMemory { memory, words, .. } => {
            let m = mem.get_mut(memory).unwrap();
            m[..words.len()].copy_from_slice(words);
            Vec::new()
        }
        Command::ReadMemory { memory, count, .. } => mem[memory][..*count].to_vec(),
        other => panic!("not a host access: {:?}", other),
    }
}

#[test]
fn read_after_write_gives_back_values() {
    let ctx = make_context();
    let arr = DeviceF32Array { buffer: 10, memory: 20, is_dev_local: false, count: 3, size: 12 };
    let other = DeviceF32Array { buffer: 11, memory: 21, is_dev_local: false, count: 2, size: 8 };
    let mut mem = std::collections::HashMap::new();
    mem.insert(20u64, vec![7u32, 7, 7]);
    mem.insert(21u64, vec![8u32, 8]);
    let all = [1.5f32.to_bits(), (-2.0f32).to_bits(), 3.0f32.to_bits()];
    host_access(&mut mem, &ctx.write_array(&arr, &all));
    assert_eq!(host_access(&mut mem, &ctx.read_array(&arr)), all.to_vec());
    assert_eq!(host_access(&mut mem, &ctx.read_array(&other)), vec![8u32, 8]);
    let part = [9u32];
    host_access(&mut mem, &ctx.write_array(&arr, &part));
    assert_eq!(host_access(&mut mem, &ctx.read_array(&arr)), vec![9u32, all[1], all[2]]);
}

#[test]
fn two_reads_agree() {
    let ctx = make_context();
    let arr = DeviceF32Array { buffer: 10, memory: 20, is_dev_local: false, count: 2, size: 8 };
    let mut mem = std::collections::HashMap::new();
    mem.insert(20u64, vec![4u32, 5]);
    let r1 = host_access(&mut mem, &ctx.read_array(&arr));
    let r2 = host_access(&mut mem, &ctx.read_array(&arr));
    assert_eq!(r1, vec![4u32, 5]);
    assert_eq!(r1, r2);
}

#[test]
fn default_array_is_null() {
    let a = DeviceF32Array::default();
    assert_eq!(a, DeviceF32Array { buffer: 0, memory: 0, is_dev_local: false, count: 0, size: 0 });
}
