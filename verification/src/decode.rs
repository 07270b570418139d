//! Decoding of the vendor's integer enumerations and display flag words
//! into domain values and human-readable labels.

use vstd::prelude::*;
use crate::abi::IS_ACTIVE;
use crate::abi::IS_CLUSTER;
use crate::abi::IS_CONNECTED;
use crate::abi::IS_DYNAMIC;
use crate::abi::IS_MULTI_STREAM_ROOT_NODE;
use crate::abi::IS_OS_VISIBLE;
use crate::abi::IS_PHYSICALLY_CONNECTED;
use crate::abi::IS_WFD;

verus! {

/// Chassis classification reported per GPU.
#[derive(Clone, Copy, Debug, PartialEq, Eq, Structural)]
pub enum SystemType {
    Unknown,
    Laptop,
    Desktop,
    Invalid,
}

/// Form-factor classification reported per GPU.
#[derive(Clone, Copy, Debug, PartialEq, Eq, Structural)]
pub enum GpuType {
    Unknown,
    Integrated,
    Discrete,
    Invalid,
}

/// Physical or logical interface of a display output.
#[derive(Clone, Copy, Debug, PartialEq, Eq, Structural)]
pub enum ConnectorType {
    Uninitialized,
    Vga,
    Component,
    Svideo,
    Hdmi,
    Dvi,
    Lvds,
    DisplayPort,
    Composite,
    Unknown,
    Invalid,
}

/// System-type table: 0 is unknown, 1 laptop, 2 desktop; everything else is
/// out of range.
pub open spec fn spec_system_type(v: i32) -> SystemType {
    if v == 0 {
        SystemType::Unknown
    } else if v == 1 {
        SystemType::Laptop
    } else if v == 2 {
        SystemType::Desktop
    } else {
        SystemType::Invalid
    }
}

/// Decodes the raw system-type word; total over all 32-bit inputs.
pub fn decode_system_type(v: i32) -> (t: SystemType)
    ensures
        t == spec_system_type(v),
{
    match v {
        0 => SystemType::Unknown,
        1 => SystemType::Laptop,
        2 => SystemType::Desktop,
        _ => SystemType::Invalid,
    }
}

/// GPU-type table: 0 is unknown, 1 integrated, 2 discrete; everything else
/// is out of range.
pub open spec fn spec_gpu_type(v: i32) -> GpuType {
    if v == 0 {
        GpuType::Unknown
    } else if v == 1 {
        GpuType::Integrated
    } else if v == 2 {
        GpuType::Discrete
    } else {
        GpuType::Invalid
    }
}

/// Decodes the raw GPU-type word; total over all 32-bit inputs.
pub fn decode_gpu_type(v: i32) -> (t: GpuType)
    ensures
        t == spec_gpu_type(v),
{
    match v {
        0 => GpuType::Unknown,
        1 => GpuType::Integrated,
        2 => GpuType::Discrete,
        _ => GpuType::Invalid,
    }
}

/// Connector-type table of the vendor ABI; values outside it are out of
/// range.
pub open spec fn spec_connector_type(v: i32) -> ConnectorType {
    if v == 0 {
        ConnectorType::Uninitialized
    } else if v == 1 {
        ConnectorType::Vga
    } else if v == 2 {
        ConnectorType::Component
    } else if v == 3 {
        ConnectorType::Svideo
    } else if v == 4 {
        ConnectorType::Hdmi
    } else if v == 5 {
        ConnectorType::Dvi
    } else if v == 6 {
        ConnectorType::Lvds
    } else if v == 7 {
        ConnectorType::DisplayPort
    } else if v == 8 {
        ConnectorType::Composite
    } else if v == -1 {
        ConnectorType::Unknown
    } else {
        ConnectorType::Invalid
    }
}

/// Decodes the raw connector-type word; total over all 32-bit inputs.
pub fn decode_connector_type(v: i32) -> (t: ConnectorType)
    ensures
        t == spec_connector_type(v),
{
    match v {
        0 => ConnectorType::Uninitialized,
        1 => ConnectorType::Vga,
        2 => ConnectorType::Component,
        3 => ConnectorType::Svideo,
        4 => ConnectorType::Hdmi,
        5 => ConnectorType::Dvi,
        6 => ConnectorType::Lvds,
        7 => ConnectorType::DisplayPort,
        8 => ConnectorType::Composite,
        -1 => ConnectorType::Unknown,
        _ => ConnectorType::Invalid,
    }
}

/// Label printed for each system type.
pub open spec fn spec_system_type_label(t: SystemType) -> Seq<char> {
    match t {
        SystemType::Unknown => "unknown"@,
        SystemType::Laptop => "laptop"@,
        SystemType::Desktop => "desktop"@,
        SystemType::Invalid => "invalid"@,
    }
}

/// Human label for a system type.
pub fn system_type_label(t: SystemType) -> (s: &'static str)
    ensures
        s@ == spec_system_type_label(t),
{
    match t {
        SystemType::Unknown => "unknown",
        SystemType::Laptop => "laptop",
        SystemType::Desktop => "desktop",
        SystemType::Invalid => "invalid",
    }
}

/// Label printed for each GPU type.
pub open spec fn spec_gpu_type_label(t: GpuType) -> Seq<char> {
    match t {
        GpuType::Unknown => "unknown"@,
        GpuType::Integrated => "IGPU"@,
        GpuType::Discrete => "DGPU"@,
        GpuType::Invalid => "invalid"@,
    }
}

/// Human label for a GPU type.
pub fn gpu_type_label(t: GpuType) -> (s: &'static str)
    ensures
        s@ == spec_gpu_type_label(t),
{
    match t {
        GpuType::Unknown => "unknown",
        GpuType::Integrated => "IGPU",
        GpuType::Discrete => "DGPU",
        GpuType::Invalid => "invalid",
    }
}

/// Label printed for each connector type; an out-of-range value gets the
/// empty label.
pub open spec fn spec_connector_type_label(t: ConnectorType) -> Seq<char> {
    match t {
        ConnectorType::Uninitialized => "uninitialized"@,
        ConnectorType::Vga => "vga"@,
        ConnectorType::Component => "component"@,
        ConnectorType::Svideo => "svideo"@,
        ConnectorType::Hdmi => "hdmi"@,
        ConnectorType::Dvi => "dvi"@,
        ConnectorType::Lvds => "lvds"@,
        ConnectorType::DisplayPort => "dp"@,
        ConnectorType::Composite => "composite"@,
        ConnectorType::Unknown => "unknown"@,
        ConnectorType::Invalid => ""@,
    }
}

/// Human label for a connector type.
pub fn connector_type_label(t: ConnectorType) -> (s: &'static str)
    ensures
        s@ == spec_connector_type_label(t),
{
    match t {
        ConnectorType::Uninitialized => "uninitialized",
        ConnectorType::Vga => "vga",
        ConnectorType::Component => "component",
        ConnectorType::Svideo => "svideo",
        ConnectorType::Hdmi => "hdmi",
        ConnectorType::Dvi => "dvi",
        ConnectorType::Lvds => "lvds",
        ConnectorType::DisplayPort => "dp",
        ConnectorType::Composite => "composite",
        ConnectorType::Unknown => "unknown",
        ConnectorType::Invalid => "",
    }
}

/// Totality of the enumeration decoders: whatever 32-bit value the vendor
/// returns, the system-type and GPU-type labels are never empty, and the
/// connector-type label is empty exactly for the values outside the
/// connector table.
pub proof fn lemma_enum_decoding_total(v: i32)
    ensures
        spec_system_type_label(spec_system_type(v)).len() > 0,
        spec_gpu_type_label(spec_gpu_type(v)).len() > 0,
        spec_connector_type_label(spec_connector_type(v)).len() == 0 <==> spec_connector_type(v)
            == ConnectorType::Invalid,
{
    reveal_strlit("unknown");
    reveal_strlit("laptop");
    reveal_strlit("desktop");
    reveal_strlit("invalid");
    reveal_strlit("IGPU");
    reveal_strlit("DGPU");
    reveal_strlit("uninitialized");
    reveal_strlit("vga");
    reveal_strlit("component");
    reveal_strlit("svideo");
    reveal_strlit("hdmi");
    reveal_strlit("dvi");
    reveal_strlit("lvds");
    reveal_strlit("dp");
    reveal_strlit("composite");
    reveal_strlit("");
}

/// The display status flag word expanded into its independent bits.
#[derive(Clone, Copy, Debug, PartialEq, Eq, Structural)]
pub struct DisplayFlags {
    pub dynamic: bool,
    pub multi_stream_root_node: bool,
    pub active: bool,
    pub cluster: bool,
    pub os_visible: bool,
    pub wfd: bool,
    pub connected: bool,
    pub physically_connected: bool,
}

/// Each flag bit is set exactly when masking the word with it leaves the
/// mask itself.
pub open spec fn spec_display_flags(w: u32) -> DisplayFlags {
    DisplayFlags {
        dynamic: w & IS_DYNAMIC == IS_DYNAMIC,
        multi_stream_root_node: w & IS_MULTI_STREAM_ROOT_NODE == IS_MULTI_STREAM_ROOT_NODE,
        active: w & IS_ACTIVE == IS_ACTIVE,
        cluster: w & IS_CLUSTER == IS_CLUSTER,
        os_visible: w & IS_OS_VISIBLE == IS_OS_VISIBLE,
        wfd: w & IS_WFD == IS_WFD,
        connected: w & IS_CONNECTED == IS_CONNECTED,
        physically_connected: w & IS_PHYSICALLY_CONNECTED == IS_PHYSICALLY_CONNECTED,
    }
}

/// Expands a display flag word into its named booleans.
pub fn decode_display_flags(w: u32) -> (f: DisplayFlags)
    ensures
        f == spec_display_flags(w),
{
    DisplayFlags {
        dynamic: w & IS_DYNAMIC == IS_DYNAMIC,
        multi_stream_root_node: w & IS_MULTI_STREAM_ROOT_NODE == IS_MULTI_STREAM_ROOT_NODE,
        active: w & IS_ACTIVE == IS_ACTIVE,
        cluster: w & IS_CLUSTER == IS_CLUSTER,
        os_visible: w & IS_OS_VISIBLE == IS_OS_VISIBLE,
        wfd: w & IS_WFD == IS_WFD,
        connected: w & IS_CONNECTED == IS_CONNECTED,
        physically_connected: w & IS_PHYSICALLY_CONNECTED == IS_PHYSICALLY_CONNECTED,
    }
}

/// Union of all display flag bits the ABI defines.
pub const DISPLAY_FLAGS_MASK: u32 = IS_DYNAMIC | IS_MULTI_STREAM_ROOT_NODE | IS_ACTIVE | IS_CLUSTER
    | IS_OS_VISIBLE | IS_WFD | IS_CONNECTED | IS_PHYSICALLY_CONNECTED;

/// The word rebuilt from a set of decoded booleans.
pub open spec fn spec_compose_flags(f: DisplayFlags) -> u32 {
    (if f.dynamic { IS_DYNAMIC } else { 0 })
        | (if f.multi_stream_root_node { IS_MULTI_STREAM_ROOT_NODE } else { 0 })
        | (if f.active { IS_ACTIVE } else { 0 })
        | (if f.cluster { IS_CLUSTER } else { 0 })
        | (if f.os_visible { IS_OS_VISIBLE } else { 0 })
        | (if f.wfd { IS_WFD } else { 0 })
        | (if f.connected { IS_CONNECTED } else { 0 })
        | (if f.physically_connected { IS_PHYSICALLY_CONNECTED } else { 0 })
}

/// Rebuilds a flag word from its decoded booleans.
pub fn compose_display_flags(f: DisplayFlags) -> (w: u32)
    ensures
        w == spec_compose_flags(f),
{
    (if f.dynamic { IS_DYNAMIC } else { 0 })
        | (if f.multi_stream_root_node { IS_MULTI_STREAM_ROOT_NODE } else { 0 })
        | (if f.active { IS_ACTIVE } else { 0 })
        | (if f.cluster { IS_CLUSTER } else { 0 })
        | (if f.os_visible { IS_OS_VISIBLE } else { 0 })
        | (if f.wfd { IS_WFD } else { 0 })
        | (if f.connected { IS_CONNECTED } else { 0 })
        | (if f.physically_connected { IS_PHYSICALLY_CONNECTED } else { 0 })
}

/// Flag decomposition is exact: recombining the decoded booleans of any
/// word yields that word masked to the known flag bits.
pub proof fn lemma_flag_decomposition_exact(w: u32)
    ensures
        spec_compose_flags(spec_display_flags(w)) == w & DISPLAY_FLAGS_MASK,
{
    assert(((if w & 0x01u32 == 0x01u32 { 0x01u32 } else { 0u32 })
        | (if w & 0x02u32 == 0x02u32 { 0x02u32 } else { 0u32 })
        | (if w & 0x04u32 == 0x04u32 { 0x04u32 } else { 0u32 })
        | (if w & 0x08u32 == 0x08u32 { 0x08u32 } else { 0u32 })
        | (if w & 0x10u32 == 0x10u32 { 0x10u32 } else { 0u32 })
        | (if w & 0x20u32 == 0x20u32 { 0x20u32 } else { 0u32 })
        | (if w & 0x40u32 == 0x40u32 { 0x40u32 } else { 0u32 })
        | (if w & 0x20000u32 == 0x20000u32 { 0x20000u32 } else { 0u32 })) == (w & (0x01u32
        | 0x02u32 | 0x04u32 | 0x08u32 | 0x10u32 | 0x20u32 | 0x40u32 | 0x20000u32)))
        by (bit_vector);
}

} // verus!
