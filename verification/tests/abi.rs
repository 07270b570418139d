use nvinspect::abi::{
    make_version_tag, NVAPI_MAX_PHYSICAL_GPUS, NVAPI_OK, NVAPI_SHORT_STRING_MAX,
    NV_GPU_ARCH_INFO, NV_GPU_ARCH_INFO_VER1, NV_GPU_DISPLAYIDS, NV_GPU_DISPLAYIDS_VER2,
};

#[test]
fn version_tag_packs_size_and_revision() {
    assert_eq!(make_version_tag(16, 1), 0x0001_0010);
    assert_eq!(make_version_tag(16, 3), 0x0003_0010);
    assert_eq!(make_version_tag(0, 0), 0);
    assert_eq!(make_version_tag(0xFFFF, 0xFFFF), 0xFFFF_FFFF);
}

#[test]
fn version_tag_reduces_oversized_inputs_to_16_bits() {
    let tag = make_version_tag(0x12_0010, 0x34_0005);
    assert_eq!(tag & 0xFFFF, 0x0010);
    assert_eq!(tag >> 16, 0x0005);
}

#[test]
fn arch_info_constant_matches_record_layout() {
    // Four 32-bit words at revision 1.
    assert_eq!(NV_GPU_ARCH_INFO_VER1, 16 | (1 << 16));
    assert_eq!(NV_GPU_ARCH_INFO_VER1, make_version_tag(16, 1));
}

#[test]
fn displayids_constant_matches_record_layout() {
    // Four 32-bit words at revision 3.
    assert_eq!(NV_GPU_DISPLAYIDS_VER2, 16 | (3 << 16));
    assert_eq!(NV_GPU_DISPLAYIDS_VER2, make_version_tag(16, 3));
}

#[test]
fn fresh_arch_info_is_tagged() {
    let info = NV_GPU_ARCH_INFO::default();
    assert_eq!(info.version, NV_GPU_ARCH_INFO_VER1);
    assert_eq!(info.architecture, 0);
    assert_eq!(info.implemntation, 0);
    assert_eq!(info.revision, 0);
}

#[test]
fn fresh_display_record_is_zero() {
    let rec = NV_GPU_DISPLAYIDS::default();
    assert_eq!(rec.version, 0);
    assert_eq!(rec.connectorType, 0);
    assert_eq!(rec.displayId, 0);
    assert_eq!(rec.flags, 0);
}

#[test]
fn abi_limits() {
    assert_eq!(NVAPI_OK, 0);
    assert_eq!(NVAPI_SHORT_STRING_MAX, 64);
    assert_eq!(NVAPI_MAX_PHYSICAL_GPUS, 64);
}
