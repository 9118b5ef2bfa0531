use mugen_autosplitter::resolver::{displacement_target, loading_signature, locate_operand, ModuleRange};

#[test]
fn signature_bytes() {
    assert_eq!(
        loading_signature(),
        vec![Some(0x89), Some(0x43), Some(0x60), Some(0x8B), Some(0x05)]
    );
}

#[test]
fn operand_follows_signature() {
    let bytes = [0u8, 0, 0, 0x89, 0x43, 0x60, 0x8B, 0x05, 1, 2, 3, 4];
    let m = ModuleRange { base: 0x1000, size: bytes.len() as u64 };
    assert_eq!(locate_operand(m, &bytes), Some(0x1000 + 3 + 5));
}

#[test]
fn operand_absent_without_signature() {
    let bytes = [0x89u8, 0x43, 0x60, 0x8B, 0x06];
    let m = ModuleRange { base: 0, size: 5 };
    assert_eq!(locate_operand(m, &bytes), None);
}

#[test]
fn operand_address_overflow_is_absent() {
    let bytes = [0x89u8, 0x43, 0x60, 0x8B, 0x05];
    let m = ModuleRange { base: u64::MAX - 2, size: 5 };
    assert_eq!(locate_operand(m, &bytes), None);
}

#[test]
fn displacement_forward_and_backward() {
    assert_eq!(displacement_target(0x1000, 0x20), Some(0x1024));
    assert_eq!(displacement_target(0x1000, -0x10), Some(0x0FF4));
    assert_eq!(displacement_target(0x1000, 0), Some(0x1004));
}

#[test]
fn displacement_out_of_range() {
    assert_eq!(displacement_target(0, -5), None);
    assert_eq!(displacement_target(u64::MAX - 3, 0), None);
    assert_eq!(displacement_target(u64::MAX - 3, -1), Some(u64::MAX));
}
