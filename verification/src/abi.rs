//! Declarative description of the vendor library's external contract:
//! status codes, buffer widths, flag bits, and the version-tagged record
//! layouts together with the tag arithmetic.

use vstd::prelude::*;

verus! {

/// Status code returned by every vendor call; zero means success.
pub const NVAPI_OK: i32 = 0;

/// Width in bytes of the vendor's fixed-size string buffer.
pub const NVAPI_SHORT_STRING_MAX: usize = 64;

/// Largest number of physical GPUs the vendor library will report.
pub const NVAPI_MAX_PHYSICAL_GPUS: usize = 64;

// Display status flag bits.
pub const IS_DYNAMIC: u32 = 0x01;
pub const IS_MULTI_STREAM_ROOT_NODE: u32 = 0x02;
pub const IS_ACTIVE: u32 = 0x04;
pub const IS_CLUSTER: u32 = 0x08;
pub const IS_OS_VISIBLE: u32 = 0x10;
pub const IS_WFD: u32 = 0x20;
pub const IS_CONNECTED: u32 = 0x40;
pub const IS_PHYSICALLY_CONNECTED: u32 = 0x20000;

/// A version tag packs a record's byte size into the low 16 bits and a
/// revision ordinal into the next 16 bits.
pub open spec fn spec_version_tag(size: u32, revision: u32) -> u32 {
    (size & 0xFFFF) | ((revision & 0xFFFF) << 16)
}

/// Builds the version tag for a record of `size` bytes at revision
/// `revision`. The low half of the result always carries the size and the
/// high half the revision, each reduced to 16 bits.
pub fn make_version_tag(size: u32, revision: u32) -> (tag: u32)
    ensures
        tag == spec_version_tag(size, revision),
        tag & 0xFFFF == size & 0xFFFF,
        tag >> 16 == revision & 0xFFFF,
{
    proof {
        assert_version_tag_splits(size, revision);
    }
    (size & 0xFFFF) | ((revision & 0xFFFF) << 16)
}

/// The two halves of a version tag can always be recovered by masking and
/// shifting, whatever the inputs were.
proof fn assert_version_tag_splits(size: u32, revision: u32)
    by (bit_vector)
    ensures
        ((size & 0xFFFF) | ((revision & 0xFFFF) << 16)) & 0xFFFF == size & 0xFFFF,
        ((size & 0xFFFF) | ((revision & 0xFFFF) << 16)) >> 16 == revision & 0xFFFF,
{
}

/// Version-tag law: for a record whose byte size and revision ordinal both
/// fit in 16 bits, the tag's low 16 bits equal the byte size exactly and its
/// upper 16 bits equal the revision ordinal exactly.
pub proof fn lemma_version_tag_fields(size: u32, revision: u32)
    requires
        size <= 0xFFFF,
        revision <= 0xFFFF,
    ensures
        spec_version_tag(size, revision) & 0xFFFF == size,
        spec_version_tag(size, revision) >> 16 == revision,
{
    assert(((size & 0xFFFF) | ((revision & 0xFFFF) << 16)) & 0xFFFF == size
        && ((size & 0xFFFF) | ((revision & 0xFFFF) << 16)) >> 16 == revision) by (bit_vector)
        requires
            size <= 0xFFFF,
            revision <= 0xFFFF,
    ;
}

/// Byte size of [`NV_GPU_ARCH_INFO`]: four 32-bit words.
pub const NV_GPU_ARCH_INFO_SIZE: u32 = 16;

/// Revision ordinal of the architecture-info record layout.
pub const NV_GPU_ARCH_INFO_REVISION: u32 = 1;

/// Version tag required in [`NV_GPU_ARCH_INFO::version`] before the record
/// is handed to the vendor library.
pub const NV_GPU_ARCH_INFO_VER1: u32 = NV_GPU_ARCH_INFO_SIZE | (NV_GPU_ARCH_INFO_REVISION << 16);

/// Byte size of [`NV_GPU_DISPLAYIDS`]: four 32-bit words.
pub const NV_GPU_DISPLAYIDS_SIZE: u32 = 16;

/// Revision ordinal of the display-record layout.
pub const NV_GPU_DISPLAYIDS_REVISION: u32 = 3;

/// Version tag required in every [`NV_GPU_DISPLAYIDS::version`] field before
/// the record array is handed to the vendor library.
pub const NV_GPU_DISPLAYIDS_VER2: u32 = NV_GPU_DISPLAYIDS_SIZE | (NV_GPU_DISPLAYIDS_REVISION << 16);

/// The two record version constants are exactly the tags the version-tag
/// helper builds from each record's byte size and revision ordinal.
pub proof fn lemma_record_version_tags()
    ensures
        NV_GPU_ARCH_INFO_VER1 == spec_version_tag(NV_GPU_ARCH_INFO_SIZE, NV_GPU_ARCH_INFO_REVISION),
        NV_GPU_DISPLAYIDS_VER2 == spec_version_tag(
            NV_GPU_DISPLAYIDS_SIZE,
            NV_GPU_DISPLAYIDS_REVISION,
        ),
{
    assert(16u32 | (1u32 << 16) == (16u32 & 0xFFFF) | ((1u32 & 0xFFFF) << 16)) by (bit_vector);
    assert(16u32 | (3u32 << 16) == (16u32 & 0xFFFF) | ((3u32 & 0xFFFF) << 16)) by (bit_vector);
}

/// Architecture-info record: a version tag followed by the architecture,
/// implementation and revision words that the vendor fills in.
#[derive(Clone, Copy, Debug, PartialEq, Eq, Structural)]
pub struct NV_GPU_ARCH_INFO {
    pub version: u32,
    pub architecture: u32,
    pub implemntation: u32,
    pub revision: u32,
}

impl Default for NV_GPU_ARCH_INFO {
    /// A fresh record already carries the required version tag; the payload
    /// words start at zero.
    fn default() -> (r: Self)
        ensures
            r == (NV_GPU_ARCH_INFO {
                version: NV_GPU_ARCH_INFO_VER1,
                architecture: 0,
                implemntation: 0,
                revision: 0,
            }),
    {
        NV_GPU_ARCH_INFO { version: NV_GPU_ARCH_INFO_VER1, architecture: 0, implemntation: 0, revision: 0 }
    }
}

/// Per-display record: a version tag, the connector type, the display id and
/// the status flag word.
#[derive(Clone, Copy, Debug, PartialEq, Eq, Structural)]
pub struct NV_GPU_DISPLAYIDS {
    pub version: u32,
    pub connectorType: i32,
    pub displayId: u32,
    pub flags: u32,
}

impl Default for NV_GPU_DISPLAYIDS {
    /// A fresh display record is all zero; callers stamp the version tag
    /// before passing an array of these to the vendor.
    fn default() -> (r: Self)
        ensures
            r == (NV_GPU_DISPLAYIDS { version: 0, connectorType: 0, displayId: 0, flags: 0 }),
    {
        NV_GPU_DISPLAYIDS { version: 0, connectorType: 0, displayId: 0, flags: 0 }
    }
}

} // verus!
