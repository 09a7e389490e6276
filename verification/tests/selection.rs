use vk_compute::selection::{classify_severity, find_compute_family, find_memory_type, SeverityClass};

#[test]
fn compute_family_is_first_with_compute_bit() {
    // GRAPHICS only, TRANSFER only, GRAPHICS|COMPUTE, COMPUTE
    assert_eq!(find_compute_family(&[0x1, 0x4, 0x3, 0x2]), Some(2));
    assert_eq!(find_compute_family(&[0x2]), Some(0));
}

#[test]
fn compute_family_absent() {
    assert_eq!(find_compute_family(&[]), None);
    assert_eq!(find_compute_family(&[0x1, 0x4, 0x8]), None);
}

#[test]
fn memory_type_respects_type_bits_and_properties() {
    // type 0: host visible only; type 1: device local; type 2: device local + host visible
    let flags = [0x2, 0x1, 0x3];
    // all types allowed
    assert_eq!(find_memory_type(0b111, &flags, 0x1), Some(1));
    assert_eq!(find_memory_type(0b111, &flags, 0x3), Some(2));
    // type 1 not allowed by the buffer
    assert_eq!(find_memory_type(0b101, &flags, 0x1), Some(2));
    // nothing allowed
    assert_eq!(find_memory_type(0b000, &flags, 0x1), None);
    // property not present anywhere
    assert_eq!(find_memory_type(0b111, &flags, 0x4), None);
}

#[test]
fn memory_type_with_no_requirement_takes_first_allowed() {
    assert_eq!(find_memory_type(0b100, &[0x0, 0x0, 0x0], 0), Some(2));
}

#[test]
fn severity_thresholds() {
    assert_eq!(classify_severity(0x1000), SeverityClass::Error);
    assert_eq!(classify_severity(0x1001), SeverityClass::Error);
    assert_eq!(classify_severity(0x100), SeverityClass::Warning);
    assert_eq!(classify_severity(0xfff), SeverityClass::Warning);
    assert_eq!(classify_severity(0x10), SeverityClass::Info);
    assert_eq!(classify_severity(0x1), SeverityClass::Trace);
    assert_eq!(classify_severity(0), SeverityClass::Trace);
}
