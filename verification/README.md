# vk_compute

A small general-purpose GPU compute layer on Vulkan (through `vulkanalia`):
a device context, host-visible `f32` arrays, compute "factories" holding a
pipeline, and objects produced by a factory that record one use of the
program.  The example program scales an array on the GPU: `y = 2x`,
`z = 3y`, `x = z`, a few times.

Every Vulkan call is `unsafe` and driver-dependent, so the verified library
never makes one.  Each operation is a state machine that hands out a
`Command`, is fed the `Outcome`, and finishes with a value, with a failure
(naming exactly what to release), or with an abort.  The proofs cover the
choices (queue family, memory types, bindings, barriers, push-constant bytes,
dispatch size) and the resource accounting (what each failure releases, and
that teardown runs newest first).

Layout:

- `src/command.rs` – commands, outcomes, and the `Next` step result.
- `src/selection.rs` – queue family and memory type choice, message severity.
- `src/context.rs` – context setup and teardown, array allocation.
- `src/process_unit.rs` – factories, produced objects, scalar arguments.
- `src/scalex.rs` – the scaling object of the example.
- `src/vulkan.rs` – the trusted calls into `vulkanalia` (bytecode, flags, versions).
- `app/main.rs` – the executor of commands and the example program; it reads
  the SPIR-V program from `shaders/add_arr.comp.spv`.
