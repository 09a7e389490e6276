use vk_compute::command::{AbortReason, Command, Next, Outcome, VkError};
use vk_compute::context::{Context, ContextSetup};

fn expect_issue<T: std::fmt::Debug>(n: Next<T>) -> Command {
    match n {
        Next::Issue(c) => c,
        other => panic!("expected a command, got {:?}", other),
    }
}

/// Drives a setup without validation through successful outcomes.
fn run_to_context(families: Vec<u32>, type_bits: u32, type_flags: Vec<u32>) -> Context {
    let (mut s, first) = Context::new(false);
    assert!(matches!(first, Command::CreateInstance { validation: false, .. }));
    let outcomes = vec![
        Outcome::Done,
        Outcome::Handles(vec![77, 78]),
        Outcome::QueueFamilies(families),
        Outcome::Done,
        Outcome::Handle(500),
        Outcome::Handle(600),
        Outcome::Handles(vec![701, 702]),
        Outcome::Handle(800),
        Outcome::MemoryReport { type_bits, type_flags },
        Outcome::Done,
    ];
    let mut last = None;
    for o in outcomes {
        last = Some(s.step(o));
    }
    match last.unwrap() {
        Next::Ready(c) => c,
        other => panic!("expected a context, got {:?}", other),
    }
}

fn setup_in(s: &mut ContextSetup, outcomes: Vec<Outcome>) -> Vec<Next<Context>> {
    outcomes.into_iter().map(|o| s.step(o)).collect()
}

#[test]
fn instance_command_carries_versions() {
    let (_s, first) = Context::new(true);
    match first {
        Command::CreateInstance { validation, application_version, engine_version, api_version } => {
            assert!(validation);
            assert_eq!(application_version, 1 << 22);
            assert_eq!(engine_version, 1 << 22);
            assert_eq!(api_version, (1 << 22) | (3 << 12));
        }
        other => panic!("unexpected {:?}", other),
    }
}

#[test]
fn full_setup_commands_and_context() {
    let (mut s, _) = Context::new(false);
    let cmds: Vec<Command> = vec![
        expect_issue(s.step(Outcome::Done)),
        expect_issue(s.step(Outcome::Handles(vec![77, 78]))),
        expect_issue(s.step(Outcome::QueueFamilies(vec![0x1, 0x3]))),
        expect_issue(s.step(Outcome::Done)),
        expect_issue(s.step(Outcome::Handle(500))),
        expect_issue(s.step(Outcome::Handle(600))),
        expect_issue(s.step(Outcome::Handles(vec![701, 702]))),
        expect_issue(s.step(Outcome::Handle(800))),
        expect_issue(s.step(Outcome::MemoryReport { type_bits: 0b111, type_flags: vec![0x2, 0x1, 0x3] })),
    ];
    assert!(matches!(cmds[0], Command::EnumeratePhysicalDevices));
    assert!(matches!(cmds[1], Command::GetQueueFamilyFlags { physical_device: 77 }));
    assert!(matches!(cmds[2], Command::CreateDevice { physical_device: 77, queue_family: 1 }));
    assert!(matches!(cmds[3], Command::GetDeviceQueue { queue_family: 1, index: 0 }));
    assert!(matches!(cmds[4], Command::CreateCommandPool { queue_family: 1 }));
    assert!(matches!(cmds[5], Command::AllocateCommandBuffers { pool: 600, count: 2 }));
    assert!(matches!(cmds[6], Command::CreateBuffer { size: 32, usage: 35 }));
    assert!(matches!(cmds[7], Command::GetMemoryReport { buffer: 800, physical_device: 77 }));
    assert!(matches!(cmds[8], Command::DestroyBuffer { buffer: 800 }));
    let ctx = match s.step(Outcome::Done) {
        Next::Ready(c) => c,
        other => panic!("unexpected {:?}", other),
    };
    assert_eq!(ctx.phy_dev, 77);
    assert_eq!(ctx.comp_fam, 1);
    assert_eq!(ctx.comp_queue, 500);
    assert_eq!(ctx.cmd_pool, 600);
    assert_eq!(ctx.cmd_buff, 701);
    assert_eq!(ctx.copy_cmd_buff, 702);
    assert_eq!(ctx.loc_buff_mem_type, 1);
    assert_eq!(ctx.vis_buff_mem_type, 2);
}

#[test]
fn teardown_is_newest_first() {
    let ctx = run_to_context(vec![0x2], 0b1, vec![0x3]);
    let t = ctx.teardown();
    assert_eq!(t.len(), 3);
    assert!(matches!(t[0], Command::DestroyCommandPool { pool: 600 }));
    assert!(matches!(t[1], Command::DestroyDevice));
    assert!(matches!(t[2], Command::DestroyInstance));
}

#[test]
fn teardown_with_validation_includes_messenger() {
    let (mut s, _) = Context::new(true);
    let steps = setup_in(
        &mut s,
        vec![
            Outcome::Done,
            Outcome::Handle(42),
            Outcome::Handles(vec![77]),
            Outcome::QueueFamilies(vec![0x2]),
            Outcome::Done,
            Outcome::Handle(500),
            Outcome::Handle(600),
            Outcome::Handles(vec![701, 702]),
            Outcome::Handle(800),
            Outcome::MemoryReport { type_bits: 0b1, type_flags: vec![0x3] },
            Outcome::Done,
        ],
    );
    assert!(matches!(steps[0], Next::Issue(Command::CreateDebugMessenger)));
    let ctx = match steps.into_iter().last().unwrap() {
        Next::Ready(c) => c,
        other => panic!("unexpected {:?}", other),
    };
    assert_eq!(ctx.messenger, 42);
    let t = ctx.teardown();
    assert_eq!(t.len(), 4);
    assert!(matches!(t[0], Command::DestroyCommandPool { pool: 600 }));
    assert!(matches!(t[1], Command::DestroyDevice));
    assert!(matches!(t[2], Command::DestroyDebugMessenger { messenger: 42 }));
    assert!(matches!(t[3], Command::DestroyInstance));
}

#[test]
fn instance_failure_releases_nothing() {
    let (mut s, _) = Context::new(false);
    match s.step(Outcome::Failed(VkError { code: -3 })) {
        Next::Fail(rel, e) => {
            assert!(rel.is_empty());
            assert_eq!(e, VkError { code: -3 });
        }
        other => panic!("unexpected {:?}", other),
    }
}

#[test]
fn device_failure_destroys_instance() {
    let (mut s, _) = Context::new(false);
    let steps = setup_in(
        &mut s,
        vec![
            Outcome::Done,
            Outcome::Handles(vec![77]),
            Outcome::QueueFamilies(vec![0x2]),
            Outcome::Failed(VkError { code: -4 }),
        ],
    );
    match &steps[3] {
        Next::Fail(rel, e) => {
            assert_eq!(rel.len(), 1);
            assert!(matches!(rel[0], Command::DestroyInstance));
            assert_eq!(e.code, -4);
        }
        other => panic!("unexpected {:?}", other),
    }
}

#[test]
fn enumerate_failure_destroys_instance() {
    let (mut s, _) = Context::new(false);
    let steps = setup_in(&mut s, vec![Outcome::Done, Outcome::Failed(VkError { code: -1 })]);
    match &steps[1] {
        Next::Fail(rel, _) => {
            assert_eq!(rel.len(), 1);
            assert!(matches!(rel[0], Command::DestroyInstance));
        }
        other => panic!("unexpected {:?}", other),
    }
}

#[test]
fn command_buffer_failure_tears_down_newest_first() {
    let (mut s, _) = Context::new(false);
    let steps = setup_in(
        &mut s,
        vec![
            Outcome::Done,
            Outcome::Handles(vec![77]),
            Outcome::QueueFamilies(vec![0x2]),
            Outcome::Done,
            Outcome::Handle(500),
            Outcome::Handle(600),
            Outcome::Failed(VkError { code: -2 }),
        ],
    );
    match &steps[6] {
        Next::Fail(rel, _) => {
            assert_eq!(rel.len(), 3);
            assert!(matches!(rel[0], Command::DestroyCommandPool { pool: 600 }));
            assert!(matches!(rel[1], Command::DestroyDevice));
            assert!(matches!(rel[2], Command::DestroyInstance));
        }
        other => panic!("unexpected {:?}", other),
    }
}

#[test]
fn command_pool_failure_destroys_device_then_instance() {
    let (mut s, _) = Context::new(false);
    let steps = setup_in(
        &mut s,
        vec![
            Outcome::Done,
            Outcome::Handles(vec![77]),
            Outcome::QueueFamilies(vec![0x2]),
            Outcome::Done,
            Outcome::Handle(500),
            Outcome::Failed(VkError { code: -2 }),
        ],
    );
    match &steps[5] {
        Next::Fail(rel, _) => {
            assert_eq!(rel.len(), 2);
            assert!(matches!(rel[0], Command::DestroyDevice));
            assert!(matches!(rel[1], Command::DestroyInstance));
        }
        other => panic!("unexpected {:?}", other),
    }
}

#[test]
fn aborts() {
    let (mut s, _) = Context::new(false);
    let steps = setup_in(&mut s, vec![Outcome::Done, Outcome::Handles(vec![])]);
    assert!(matches!(steps[1], Next::Abort(AbortReason::NoPhysicalDevice)));

    let (mut s, _) = Context::new(false);
    let steps = setup_in(&mut s, vec![Outcome::Done, Outcome::Handles(vec![1]), Outcome::QueueFamilies(vec![0x1])]);
    assert!(matches!(steps[2], Next::Abort(AbortReason::NoComputeQueue)));

    let (mut s, _) = Context::new(true);
    let steps = setup_in(&mut s, vec![Outcome::Done, Outcome::Failed(VkError { code: -1 })]);
    assert!(matches!(steps[1], Next::Abort(AbortReason::MessengerFailed)));

    let (mut s, _) = Context::new(false);
    let steps = setup_in(&mut s, vec![Outcome::Handle(3)]);
    assert!(matches!(steps[0], Next::Abort(AbortReason::UnexpectedOutcome)));
}

#[test]
fn memory_aborts() {
    let prefix = || {
        vec![
            Outcome::Done,
            Outcome::Handles(vec![77]),
            Outcome::QueueFamilies(vec![0x2]),
            Outcome::Done,
            Outcome::Handle(500),
            Outcome::Handle(600),
            Outcome::Handles(vec![701, 702]),
            Outcome::Handle(800),
        ]
    };
    let (mut s, _) = Context::new(false);
    let mut o = prefix();
    o.push(Outcome::MemoryReport { type_bits: 0b11, type_flags: vec![0x2, 0x2] });
    let steps = setup_in(&mut s, o);
    assert!(matches!(steps[8], Next::Abort(AbortReason::NoDeviceLocalMemory)));

    let (mut s, _) = Context::new(false);
    let mut o = prefix();
    o.push(Outcome::MemoryReport { type_bits: 0b11, type_flags: vec![0x1, 0x2] });
    let steps = setup_in(&mut s, o);
    assert!(matches!(steps[8], Next::Abort(AbortReason::NoHostVisibleMemory)));

    let (mut s, _) = Context::new(false);
    let mut o = prefix();
    o.insert(6, Outcome::Handles(vec![701]));
    o.truncate(7);
    let steps = setup_in(&mut s, o);
    assert!(matches!(steps[6], Next::Abort(AbortReason::MissingHandle)));
}
