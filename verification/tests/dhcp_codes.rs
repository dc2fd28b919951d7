use netpulsar::dhcp::{DhcpHardwareType, DhcpOperation};

#[test]
fn operation_from_u8_known_codes() {
    assert_eq!(DhcpOperation::from_u8(1), Some(DhcpOperation::Request));
    assert_eq!(DhcpOperation::from_u8(2), Some(DhcpOperation::Reply));
}

#[test]
fn operation_from_u8_unknown_codes() {
    assert_eq!(DhcpOperation::from_u8(0), None);
    assert_eq!(DhcpOperation::from_u8(3), None);
    assert_eq!(DhcpOperation::from_u8(255), None);
}

#[test]
fn operation_code_roundtrip() {
    for op in [DhcpOperation::Request, DhcpOperation::Reply] {
        assert_eq!(DhcpOperation::from_u8(op.to_u8()), Some(op));
    }
    for n in 0..=255u8 {
        if let Some(op) = DhcpOperation::from_u8(n) {
            assert_eq!(op.to_u8(), n);
        }
    }
}

#[test]
fn hardware_type_from_u8_examples() {
    assert_eq!(DhcpHardwareType::from_u8(1), Some(DhcpHardwareType::Ethernet));
    assert_eq!(DhcpHardwareType::from_u8(21), Some(DhcpHardwareType::PPP));
    assert_eq!(DhcpHardwareType::from_u8(24), Some(DhcpHardwareType::SoftwareLoopback));
    assert_eq!(DhcpHardwareType::from_u8(43), Some(DhcpHardwareType::IPandARPoverISO7816_3));
    assert_eq!(DhcpHardwareType::from_u8(61), Some(DhcpHardwareType::SixLoWPAN));
    assert_eq!(DhcpHardwareType::from_u8(70), Some(DhcpHardwareType::IEEE802154NonASKPHY));
}

#[test]
fn hardware_type_from_u8_gaps() {
    for n in [0u8, 22, 23, 36, 38, 46, 60, 67, 68, 69, 71, 200, 255] {
        assert_eq!(DhcpHardwareType::from_u8(n), None, "code {}", n);
    }
}

#[test]
fn hardware_type_code_roundtrip() {
    let mut known = 0;
    for n in 0..=255u8 {
        if let Some(t) = DhcpHardwareType::from_u8(n) {
            known += 1;
            assert_eq!(t.to_u8(), n);
            assert_eq!(DhcpHardwareType::from_u8(t.to_u8()), Some(t));
        }
    }
    assert_eq!(known, 61);
}
