use simple_doip::LogicalAddress;

#[test]
fn test_logical_address() {
    let addr = LogicalAddress(0x0E00);
    assert!(addr.is_valid_client_address());
    assert_eq!(addr.0, 0x0E00);
    assert_eq!(addr, LogicalAddress(0x0E00));
    assert_eq!(addr, 0x0E00);
}

#[test]
fn client_address_range_bounds() {
    assert!(!LogicalAddress(0x0DFF).is_valid_client_address());
    assert!(LogicalAddress(LogicalAddress::MIN_CLIENT_ADDRESS).is_valid_client_address());
    assert!(LogicalAddress(LogicalAddress::MAX_CLIENT_ADDRESS).is_valid_client_address());
    assert!(LogicalAddress(0x0F40).is_valid_client_address());
    assert!(!LogicalAddress(0x1000).is_valid_client_address());
    assert!(!LogicalAddress(0xE400).is_valid_client_address());
}

#[test]
fn logical_address_converts_to_and_from_u16() {
    let addr = LogicalAddress::from(0x1234u16);
    assert_eq!(addr, LogicalAddress(0x1234));
    assert_eq!(u16::from(addr), 0x1234);
}
