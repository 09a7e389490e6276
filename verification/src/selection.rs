//! Choices the context makes from what the device reports: which queue
//! family runs compute work, which memory type backs a buffer, and how a
//! validation message is treated.
use vstd::prelude::*;
use crate::vulkan::{queue_compute_bit, severity_error_bit, severity_info_bit, severity_warning_bit};

verus! {

/// Whether a queue family with flags `flags` can run compute work.
pub open spec fn supports_compute(flags: u32) -> bool {
    flags & 2u32 != 0
}

/// Whether `i` is the first compute-capable family in `families`.
pub open spec fn is_first_compute_family(families: Seq<u32>, i: int) -> bool {
    &&& 0 <= i < families.len()
    &&& supports_compute(families[i])
    &&& forall|j: int| 0 <= j < i ==> !supports_compute(#[trigger] families[j])
}

/// The index of the first queue family that supports compute work, if any.
pub fn find_compute_family(families: &[u32]) -> (r: Option<usize>)
    ensures
        match r {
            Some(i) => is_first_compute_family(families@, i as int),
            None => forall|j: int| 0 <= j < families@.len() ==> !supports_compute(#[trigger] families@[j]),
        },
        match r {
            Some(i) => i < families@.len() && families@[i as int] & 0x2u32 == 0x2u32 && forall|j: int|
                0 <= j < i ==> #[trigger] families@[j] & 0x2u32 == 0u32,
            None => forall|j: int| 0 <= j < families@.len() ==> #[trigger] families@[j] & 0x2u32 == 0u32,
        },
{
    let compute = queue_compute_bit();
    let n = families.len();
    let mut i: usize = 0;
    while i < n
        invariant
            n == families@.len(),
            compute == 2,
            i <= n,
            forall|j: int| 0 <= j < i ==> !supports_compute(#[trigger] families@[j]),
            forall|j: int| 0 <= j < i ==> #[trigger] families@[j] & 0x2u32 == 0u32,
        decreases n - i,
    {
        proof { lemma_compute_capable_is_compute_bit(families@[i as int]); }
        if families[i] & compute != 0 {
            return Some(i);
        }
        i = i + 1;
    }
    None
}

/// Law: a queue family counts as compute-capable exactly when its flags
/// hold the `COMPUTE` bit (`0x2`), whatever other bits are set.
pub proof fn lemma_compute_capable_is_compute_bit(flags: u32)
    ensures
        supports_compute(flags) <==> (flags & 0x2u32) == 0x2u32,
        supports_compute(flags | 0x2u32),
        !supports_compute(flags & !0x2u32),
{
    assert((flags & 2u32 != 0) <==> (flags & 0x2u32) == 0x2u32) by (bit_vector);
    assert((flags | 0x2u32) & 2u32 != 0) by (bit_vector);
    assert((flags & !0x2u32) & 2u32 == 0) by (bit_vector);
}

/// Whether memory type `i` is allowed by the buffer's requirement mask.
pub open spec fn type_allowed(type_bits: u32, i: int) -> bool {
    (1u32 << (i as u32)) & type_bits != 0
}

/// Whether a memory type with property flags `flags` has every property in `required`.
pub open spec fn has_properties(flags: u32, required: u32) -> bool {
    required == (required & flags)
}

/// Whether memory type `i` may back the buffer and has the required properties.
pub open spec fn memory_type_fits(type_bits: u32, type_flags: Seq<u32>, required: u32, i: int) -> bool {
    &&& 0 <= i < type_flags.len()
    &&& type_allowed(type_bits, i)
    &&& has_properties(type_flags[i], required)
}

/// Law: memory type `i` (of the 32 a device can have) is allowed exactly
/// when bit `i` of the mask is set.
pub proof fn lemma_type_allowed_is_mask_bit(type_bits: u32, i: u32)
    requires
        i < 32,
    ensures
        type_allowed(type_bits, i as int) <==> (type_bits >> i) & 1u32 == 1u32,
{
    assert(((1u32 << i) & type_bits != 0) <==> (type_bits >> i) & 1u32 == 1u32) by (bit_vector)
        requires
            i < 32,
    ;
}

/// Law: a memory type has the required properties exactly when its flags
/// contain every required bit, whatever other property bits it has.
pub proof fn lemma_has_properties_is_superset(flags: u32, required: u32)
    ensures
        has_properties(flags, required) <==> (flags & required) == required,
        has_properties(flags | required, required),
        has_properties(flags, 0),
{
    assert((required == (required & flags)) <==> (flags & required) == required) by (bit_vector);
    assert(required == (required & (flags | required))) by (bit_vector);
    assert(0u32 == (0u32 & flags)) by (bit_vector);
}

/// The index of the first memory type allowed by `type_bits` whose property
/// flags contain `required`, if any.
pub fn find_memory_type(type_bits: u32, type_flags: &[u32], required: u32) -> (r: Option<u32>)
    requires
        type_flags@.len() <= 32,
    ensures
        match r {
            Some(i) => {
                &&& memory_type_fits(type_bits, type_flags@, required, i as int)
                &&& forall|j: int| 0 <= j < i ==> !#[trigger] memory_type_fits(type_bits, type_flags@, required, j)
            },
            None => forall|j: int| !#[trigger] memory_type_fits(type_bits, type_flags@, required, j),
        },
        match r {
            Some(i) => {
                &&& i < type_flags@.len()
                &&& (type_bits >> i) & 1u32 == 1u32
                &&& type_flags@[i as int] & required == required
                &&& forall|j: u32|
                    j < i ==> !((type_bits >> j) & 1u32 == 1u32 && #[trigger] (type_flags@[j as int] & required) == required)
            },
            None => forall|j: u32|
                j < type_flags@.len() ==> !((type_bits >> j) & 1u32 == 1u32 && #[trigger] (type_flags@[j as int] & required)
                    == required),
        },
{
    let n = type_flags.len();
    let mut inx: usize = 0;
    while inx < n
        invariant
            n == type_flags@.len(),
            n <= 32,
            inx <= n,
            forall|j: int| 0 <= j < inx ==> !#[trigger] memory_type_fits(type_bits, type_flags@, required, j),
            forall|j: u32|
                j < inx ==> !((type_bits >> j) & 1u32 == 1u32 && #[trigger] (type_flags@[j as int] & required) == required),
        decreases n - inx,
    {
        let shift = inx as u32;
        proof {
            lemma_type_allowed_is_mask_bit(type_bits, shift);
            lemma_has_properties_is_superset(type_flags@[inx as int], required);
        }
        let is_type = ((1u32 << shift) & type_bits) != 0;
        let is_props = required == (required & type_flags[inx]);
        if is_type && is_props {
            return Some(shift);
        }
        inx = inx + 1;
    }
    None
}

/// How a validation message of a given severity is handled.
#[derive(Clone, Copy, Debug, PartialEq, Eq, Structural)]
pub enum SeverityClass {
    /// At least `ERROR`: the message aborts the program.
    Error,
    /// At least `WARNING`: the message is printed.
    Warning,
    /// At least `INFO`: the message is dropped.
    Info,
    /// Below `INFO`: the message is dropped.
    Trace,
}

/// Classifies a message severity by comparing it with the flag values, as the
/// validation callback does.
pub fn classify_severity(severity: u32) -> (r: SeverityClass)
    ensures
        r == (if severity >= 0x1000 {
            SeverityClass::Error
        } else if severity >= 0x100 {
            SeverityClass::Warning
        } else if severity >= 0x10 {
            SeverityClass::Info
        } else {
            SeverityClass::Trace
        }),
{
    if severity >= severity_error_bit() {
        SeverityClass::Error
    } else if severity >= severity_warning_bit() {
        SeverityClass::Warning
    } else if severity >= severity_info_bit() {
        SeverityClass::Info
    } else {
        SeverityClass::Trace
    }
}

} // verus!
