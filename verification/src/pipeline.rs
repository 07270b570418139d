//! Session-level rules and the per-GPU inspection pipeline: validating the
//! enumeration result, preparing version-tagged record buffers for the
//! two-phase display query, and decoding every raw query result into a
//! report value.

use vstd::prelude::*;
use crate::abi::NVAPI_MAX_PHYSICAL_GPUS;
use crate::abi::NVAPI_OK;
use crate::abi::NV_GPU_ARCH_INFO;
use crate::abi::NV_GPU_DISPLAYIDS;
use crate::abi::NV_GPU_DISPLAYIDS_VER2;
use crate::decode::ConnectorType;
use crate::decode::DisplayFlags;
use crate::decode::spec_connector_type;
use crate::decode::spec_display_flags;
use crate::decode::decode_connector_type;
use crate::decode::decode_display_flags;

verus! {

/// Whether a vendor status word reports success.
pub open spec fn spec_status_ok(status: i32) -> bool {
    status == NVAPI_OK
}

/// A vendor call succeeded exactly when its status word is zero; any other
/// value is a failure code reported verbatim.
pub fn status_ok(status: i32) -> (b: bool)
    ensures
        b == spec_status_ok(status),
{
    status == NVAPI_OK
}

/// Number of GPUs the inspection loop may visit for a reported raw count:
/// the raw count itself, capped at the enumeration array's width. The
/// result never exceeds the maximum physical GPU count, so every handle
/// index the loop uses stays inside the caller's 64-entry array.
pub fn enumerated_gpu_count(raw_count: u32) -> (n: usize)
    ensures
        n <= NVAPI_MAX_PHYSICAL_GPUS,
        raw_count <= NVAPI_MAX_PHYSICAL_GPUS ==> n == raw_count,
        raw_count > NVAPI_MAX_PHYSICAL_GPUS ==> n == NVAPI_MAX_PHYSICAL_GPUS,
{
    let c = raw_count as usize;
    if c <= NVAPI_MAX_PHYSICAL_GPUS {
        c
    } else {
        NVAPI_MAX_PHYSICAL_GPUS
    }
}

/// Whether the display pipeline's data fetch must run for a size-query
/// result: only a positive count warrants a second call.
pub fn phase_b_needed(phase_a_count: u32) -> (b: bool)
    ensures
        b == (phase_a_count > 0),
{
    phase_a_count > 0
}

/// Allocates the record array for the display data fetch: `count` display
/// records, every one stamped with the required version tag and otherwise
/// zero, so the vendor's versioning check accepts each entry.
pub fn phase_b_buffer(count: u32) -> (v: Vec<NV_GPU_DISPLAYIDS>)
    ensures
        v@.len() == count,
        forall|i: int|
            0 <= i < v@.len() ==> v@[i] == (NV_GPU_DISPLAYIDS {
                version: NV_GPU_DISPLAYIDS_VER2,
                connectorType: 0,
                displayId: 0,
                flags: 0,
            }),
{
    let n = count as usize;
    let mut v: Vec<NV_GPU_DISPLAYIDS> = Vec::new();
    let mut i: usize = 0;
    while i < n
        invariant
            0 <= i <= n,
            v@.len() == i,
            forall|j: int|
                0 <= j < i ==> v@[j] == (NV_GPU_DISPLAYIDS {
                    version: NV_GPU_DISPLAYIDS_VER2,
                    connectorType: 0,
                    displayId: 0,
                    flags: 0,
                }),
        decreases n - i,
    {
        v.push(
            NV_GPU_DISPLAYIDS {
                version: NV_GPU_DISPLAYIDS_VER2,
                connectorType: 0,
                displayId: 0,
                flags: 0,
            },
        );
        i = i + 1;
    }
    v
}

/// Validates the count written back by the display data fetch: the vendor
/// may fill fewer records than were allocated but never more, so a count
/// above the size query's answer is rejected.
pub fn accept_phase_b_count(phase_a_count: u32, returned_count: u32) -> (r: Option<u32>)
    ensures
        returned_count <= phase_a_count ==> r == Some(returned_count),
        returned_count > phase_a_count ==> r is None,
{
    if returned_count <= phase_a_count {
        Some(returned_count)
    } else {
        None
    }
}

/// Architecture triple reported verbatim from a filled record.
#[derive(Clone, Copy, Debug, PartialEq, Eq, Structural)]
pub struct ArchReport {
    pub architecture: u32,
    pub implementation: u32,
    pub revision: u32,
}

/// Reads the architecture, implementation and revision words out of a
/// record the vendor filled; no domain decoding is applied to them.
pub fn arch_report(info: &NV_GPU_ARCH_INFO) -> (r: ArchReport)
    ensures
        r.architecture == info.architecture,
        r.implementation == info.implemntation,
        r.revision == info.revision,
{
    ArchReport { architecture: info.architecture, implementation: info.implemntation, revision: info.revision }
}

/// One decoded display output: the connector class, the raw id and flag
/// word, and the flag word's named booleans.
#[derive(Clone, Copy, Debug, PartialEq, Eq, Structural)]
pub struct DisplayReport {
    pub connector: ConnectorType,
    pub display_id: u32,
    pub flags_word: u32,
    pub flags: DisplayFlags,
}

/// The decoded form of one raw display record.
pub open spec fn spec_display_report(rec: NV_GPU_DISPLAYIDS) -> DisplayReport {
    DisplayReport {
        connector: spec_connector_type(rec.connectorType),
        display_id: rec.displayId,
        flags_word: rec.flags,
        flags: spec_display_flags(rec.flags),
    }
}

/// Decodes one display record returned by the data fetch.
pub fn decode_display_record(rec: &NV_GPU_DISPLAYIDS) -> (r: DisplayReport)
    ensures
        r == spec_display_report(*rec),
{
    DisplayReport {
        connector: decode_connector_type(rec.connectorType),
        display_id: rec.displayId,
        flags_word: rec.flags,
        flags: decode_display_flags(rec.flags),
    }
}

/// Decodes every record of a display data fetch, in order.
pub fn decode_display_records(recs: &Vec<NV_GPU_DISPLAYIDS>) -> (rs: Vec<DisplayReport>)
    ensures
        rs@.len() == recs@.len(),
        forall|i: int| 0 <= i < rs@.len() ==> rs@[i] == spec_display_report(recs@[i]),
{
    let mut rs: Vec<DisplayReport> = Vec::new();
    let mut i: usize = 0;
    while i < recs.len()
        invariant
            0 <= i <= recs@.len(),
            rs@.len() == i,
            forall|j: int| 0 <= j < i ==> rs@[j] == spec_display_report(recs@[j]),
        decreases recs@.len() - i,
    {
        rs.push(decode_display_record(&recs[i]));
        i = i + 1;
    }
    rs
}

/// The vendor calls the pipeline issues, in the order a run makes them.
#[derive(Clone, Copy, Debug, PartialEq, Eq, Structural)]
pub enum QueryStep {
    Initialize,
    GetInterfaceVersionString,
    EnumPhysicalGpus,
    GetSystemType,
    GetGpuType,
    GetFullName,
    GetArchInfo,
    GetConnectedDisplayIds,
}

/// Vendor symbol named in the diagnostic line for each failed step.
pub open spec fn spec_step_symbol(step: QueryStep) -> Seq<char> {
    match step {
        QueryStep::Initialize => "NvAPI_Initialize"@,
        QueryStep::GetInterfaceVersionString => "NvAPI_GetInterfaceVersionString"@,
        QueryStep::EnumPhysicalGpus => "NvAPI_EnumPhysicalGPUs"@,
        QueryStep::GetSystemType => "NvAPI_GPU_GetSystemType"@,
        QueryStep::GetGpuType => "NvAPI_GPU_GetGPUType"@,
        QueryStep::GetFullName => "NvAPI_GPU_GetFullName"@,
        QueryStep::GetArchInfo => "NvAPI_GPU_GetArchInfo"@,
        QueryStep::GetConnectedDisplayIds => "NvAPI_GPU_GetConnectedDisplayIds"@,
    }
}

/// The vendor symbol a failure diagnostic names for each pipeline step.
pub fn step_symbol(step: QueryStep) -> (s: &'static str)
    ensures
        s@ == spec_step_symbol(step),
{
    match step {
        QueryStep::Initialize => "NvAPI_Initialize",
        QueryStep::GetInterfaceVersionString => "NvAPI_GetInterfaceVersionString",
        QueryStep::EnumPhysicalGpus => "NvAPI_EnumPhysicalGPUs",
        QueryStep::GetSystemType => "NvAPI_GPU_GetSystemType",
        QueryStep::GetGpuType => "NvAPI_GPU_GetGPUType",
        QueryStep::GetFullName => "NvAPI_GPU_GetFullName",
        QueryStep::GetArchInfo => "NvAPI_GPU_GetArchInfo",
        QueryStep::GetConnectedDisplayIds => "NvAPI_GPU_GetConnectedDisplayIds",
    }
}

} // verus!
