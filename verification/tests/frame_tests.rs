use netbricks::buffer::BufferHandle;
use netbricks::errors::ParseError;
use netbricks::frame::ETHERNET_HEADER_SIZE;
use netbricks::mac::MacAddr;

fn eth_frame(dst: [u8; 6], src: [u8; 6], ethertype: u16, payload_len: usize) -> Vec<u8> {
    let mut v: Vec<u8> = Vec::new();
    v.extend_from_slice(&dst);
    v.extend_from_slice(&src);
    v.push((ethertype >> 8) as u8);
    v.push((ethertype & 0xff) as u8);
    let mut i: usize = 0;
    while i < payload_len {
        v.push(i as u8);
        i += 1;
    }
    v
}

#[test]
fn header_size_is_fourteen() {
    assert_eq!(ETHERNET_HEADER_SIZE, 14);
}

#[test]
fn parse_too_short_fails() {
    let b = BufferHandle::from_bytes(vec![0u8; 13]);
    let r = b.parse_ethernet();
    assert!(matches!(r, Err(ParseError::TooShort)));
}

#[test]
fn parse_reads_fields_in_network_order() {
    let dst: [u8; 6] = [0xBB; 6];
    let src: [u8; 6] = [0xAA; 6];
    let b = BufferHandle::from_bytes(eth_frame(dst, src, 0x0800, 0));
    let h = b.parse_ethernet().unwrap();
    assert_eq!(h.dst.octets, dst);
    assert_eq!(h.src.octets, src);
    assert_eq!(h.ethertype, 0x0800);
}

#[test]
fn swap_addresses_exchanges_fields() {
    let dst: [u8; 6] = [1, 2, 3, 4, 5, 6];
    let src: [u8; 6] = [7, 8, 9, 10, 11, 12];
    let mut b = BufferHandle::from_bytes(eth_frame(dst, src, 0x0806, 4));
    b.swap_addresses();
    let h = b.parse_ethernet().unwrap();
    assert_eq!(h.dst.octets, src);
    assert_eq!(h.src.octets, dst);
    assert_eq!(h.ethertype, 0x0806);
    // payload untouched
    assert_eq!(b.byte_at(14), 0);
    assert_eq!(b.byte_at(17), 3);
}

#[test]
fn swap_twice_restores_frame() {
    let original = eth_frame([0xBB; 6], [0xAA; 6], 0x0800, 50);
    let mut b = BufferHandle::from_bytes(original.clone());
    b.swap_addresses();
    b.swap_addresses();
    assert_eq!(b.contents(), &original);
    assert_eq!(b.refcnt(), 1);
}

#[test]
fn swap_twice_restores_minimum_frame() {
    let original = eth_frame([9; 6], [3; 6], 0xFFFF, 0);
    let mut b = BufferHandle::from_bytes(original.clone());
    b.swap_addresses();
    b.swap_addresses();
    assert_eq!(b.contents(), &original);
}

#[test]
fn mac_equals_is_octet_wise() {
    let a = MacAddr::new([1, 2, 3, 4, 5, 6]);
    let b = MacAddr::new([1, 2, 3, 4, 5, 6]);
    let c = MacAddr::new([1, 2, 3, 4, 5, 7]);
    assert!(a.equals(&b));
    assert!(!a.equals(&c));
    assert_eq!(a.octet(3), 4);
}
