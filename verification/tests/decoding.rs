use nvinspect::abi::{
    IS_ACTIVE, IS_CLUSTER, IS_CONNECTED, IS_DYNAMIC, IS_MULTI_STREAM_ROOT_NODE, IS_OS_VISIBLE,
    IS_PHYSICALLY_CONNECTED, IS_WFD,
};
use nvinspect::decode::{
    compose_display_flags, connector_type_label, decode_connector_type, decode_display_flags,
    decode_gpu_type, decode_system_type, gpu_type_label, system_type_label, ConnectorType,
    GpuType, SystemType, DISPLAY_FLAGS_MASK,
};

#[test]
fn system_type_table() {
    assert_eq!(decode_system_type(0), SystemType::Unknown);
    assert_eq!(decode_system_type(1), SystemType::Laptop);
    assert_eq!(decode_system_type(2), SystemType::Desktop);
    assert_eq!(decode_system_type(3), SystemType::Invalid);
    assert_eq!(decode_system_type(-1), SystemType::Invalid);
    assert_eq!(decode_system_type(i32::MAX), SystemType::Invalid);
    assert_eq!(decode_system_type(i32::MIN), SystemType::Invalid);
}

#[test]
fn system_type_labels_nonempty() {
    assert_eq!(system_type_label(SystemType::Unknown), "unknown");
    assert_eq!(system_type_label(SystemType::Laptop), "laptop");
    assert_eq!(system_type_label(SystemType::Desktop), "desktop");
    assert_eq!(system_type_label(SystemType::Invalid), "invalid");
    for v in [i32::MIN, -2, -1, 0, 1, 2, 3, 1000, i32::MAX] {
        assert!(!system_type_label(decode_system_type(v)).is_empty());
    }
}

#[test]
fn gpu_type_table() {
    assert_eq!(decode_gpu_type(0), GpuType::Unknown);
    assert_eq!(decode_gpu_type(1), GpuType::Integrated);
    assert_eq!(decode_gpu_type(2), GpuType::Discrete);
    assert_eq!(decode_gpu_type(17), GpuType::Invalid);
    assert_eq!(decode_gpu_type(-5), GpuType::Invalid);
}

#[test]
fn gpu_type_labels_nonempty() {
    assert_eq!(gpu_type_label(GpuType::Unknown), "unknown");
    assert_eq!(gpu_type_label(GpuType::Integrated), "IGPU");
    assert_eq!(gpu_type_label(GpuType::Discrete), "DGPU");
    assert_eq!(gpu_type_label(GpuType::Invalid), "invalid");
    for v in [i32::MIN, -1, 0, 1, 2, 3, i32::MAX] {
        assert!(!gpu_type_label(decode_gpu_type(v)).is_empty());
    }
}

#[test]
fn connector_type_table() {
    assert_eq!(decode_connector_type(0), ConnectorType::Uninitialized);
    assert_eq!(decode_connector_type(1), ConnectorType::Vga);
    assert_eq!(decode_connector_type(2), ConnectorType::Component);
    assert_eq!(decode_connector_type(3), ConnectorType::Svideo);
    assert_eq!(decode_connector_type(4), ConnectorType::Hdmi);
    assert_eq!(decode_connector_type(5), ConnectorType::Dvi);
    assert_eq!(decode_connector_type(6), ConnectorType::Lvds);
    assert_eq!(decode_connector_type(7), ConnectorType::DisplayPort);
    assert_eq!(decode_connector_type(8), ConnectorType::Composite);
    assert_eq!(decode_connector_type(-1), ConnectorType::Unknown);
    assert_eq!(decode_connector_type(9), ConnectorType::Invalid);
    assert_eq!(decode_connector_type(-2), ConnectorType::Invalid);
}

#[test]
fn connector_labels() {
    assert_eq!(connector_type_label(ConnectorType::Hdmi), "hdmi");
    assert_eq!(connector_type_label(ConnectorType::DisplayPort), "dp");
    assert_eq!(connector_type_label(ConnectorType::Unknown), "unknown");
    assert_eq!(connector_type_label(ConnectorType::Uninitialized), "uninitialized");
}

#[test]
fn unknown_connector_gets_empty_label() {
    // Connector value 42 is outside the table: label is empty, not an error.
    let c = decode_connector_type(42);
    assert_eq!(c, ConnectorType::Invalid);
    assert_eq!(connector_type_label(c), "");
    assert_eq!(format!("Connector type: {}, id: {}", connector_type_label(c), 7u32),
        "Connector type: , id: 7");
}

#[test]
fn flag_masks_match_abi() {
    assert_eq!(IS_DYNAMIC, 0x01);
    assert_eq!(IS_MULTI_STREAM_ROOT_NODE, 0x02);
    assert_eq!(IS_ACTIVE, 0x04);
    assert_eq!(IS_CLUSTER, 0x08);
    assert_eq!(IS_OS_VISIBLE, 0x10);
    assert_eq!(IS_WFD, 0x20);
    assert_eq!(IS_CONNECTED, 0x40);
    assert_eq!(IS_PHYSICALLY_CONNECTED, 0x20000);
    assert_eq!(DISPLAY_FLAGS_MASK, 0x2007F);
}

#[test]
fn flags_of_hdmi_scenario_word() {
    // Flag word 0x54: active, OS-visible and connected; nothing else.
    let f = decode_display_flags(0x54);
    assert!(!f.dynamic);
    assert!(!f.multi_stream_root_node);
    assert!(f.active);
    assert!(!f.cluster);
    assert!(f.os_visible);
    assert!(!f.wfd);
    assert!(f.connected);
    assert!(!f.physically_connected);
}

#[test]
fn flags_bitwise_exact() {
    for w in [0u32, 0x01, 0x02, 0x04, 0x54, 0x7F, 0x20000, 0x2007F, 0xDEADBEEF, u32::MAX] {
        let f = decode_display_flags(w);
        assert_eq!(f.dynamic, w & IS_DYNAMIC == IS_DYNAMIC);
        assert_eq!(f.multi_stream_root_node, w & IS_MULTI_STREAM_ROOT_NODE == IS_MULTI_STREAM_ROOT_NODE);
        assert_eq!(f.active, w & IS_ACTIVE == IS_ACTIVE);
        assert_eq!(f.cluster, w & IS_CLUSTER == IS_CLUSTER);
        assert_eq!(f.os_visible, w & IS_OS_VISIBLE == IS_OS_VISIBLE);
        assert_eq!(f.wfd, w & IS_WFD == IS_WFD);
        assert_eq!(f.connected, w & IS_CONNECTED == IS_CONNECTED);
        assert_eq!(f.physically_connected, w & IS_PHYSICALLY_CONNECTED == IS_PHYSICALLY_CONNECTED);
    }
}

#[test]
fn flag_recomposition_masks_to_known_bits() {
    for w in [0u32, 0x54, 0x2007F, 0xFFFF_FFFF, 0x12345678, 0x20000] {
        let recombined = compose_display_flags(decode_display_flags(w));
        assert_eq!(recombined, w & DISPLAY_FLAGS_MASK);
    }
}
