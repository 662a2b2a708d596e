use tun_rs::frame::{append_bytes, copy_prefix, gather, pi_header_for, scatter, AF_INET, AF_INET6};

#[test]
fn header_for_ipv4_packet() {
    assert_eq!(pi_header_for(&[0x45, 0, 0, 20]), vec![0, 0, 0, AF_INET]);
    assert_eq!(AF_INET, 2);
}

#[test]
fn header_for_ipv6_packet() {
    assert_eq!(pi_header_for(&[0x60, 0, 0, 0]), vec![0, 0, 0, AF_INET6]);
    assert_eq!(AF_INET6, 30);
}

#[test]
fn header_for_empty_packet() {
    assert_eq!(pi_header_for(&[]), vec![0, 0, 0, 2]);
}

#[test]
fn append_keeps_order() {
    let mut v = vec![1u8, 2];
    append_bytes(&mut v, &[3, 4]);
    assert_eq!(v, vec![1, 2, 3, 4]);
}

#[test]
fn gather_joins_in_order() {
    let bufs = vec![vec![1u8, 2], vec![], vec![3u8], vec![4u8, 5, 6]];
    assert_eq!(gather(&bufs), vec![1, 2, 3, 4, 5, 6]);
    assert_eq!(gather(&Vec::new()), Vec::<u8>::new());
}

#[test]
fn copy_prefix_truncates_to_destination() {
    let mut d = vec![0u8; 3];
    assert_eq!(copy_prefix(&[1, 2, 3, 4, 5], &mut d), 3);
    assert_eq!(d, vec![1, 2, 3]);
}

#[test]
fn copy_prefix_keeps_tail() {
    let mut d = vec![9u8; 5];
    assert_eq!(copy_prefix(&[1, 2], &mut d), 2);
    assert_eq!(d, vec![1, 2, 9, 9, 9]);
}

#[test]
fn scatter_fills_buffers_in_order() {
    let mut bufs = vec![vec![0u8; 2], vec![0u8; 3], vec![0u8; 4]];
    let n = scatter(&[1, 2, 3, 4, 5, 6], &mut bufs);
    assert_eq!(n, 6);
    assert_eq!(bufs, vec![vec![1, 2], vec![3, 4, 5], vec![6, 0, 0, 0]]);
}

#[test]
fn scatter_stops_when_buffers_are_full() {
    let mut bufs = vec![vec![0u8; 1], vec![0u8; 2]];
    let n = scatter(&[1, 2, 3, 4, 5], &mut bufs);
    assert_eq!(n, 3);
    assert_eq!(bufs, vec![vec![1], vec![2, 3]]);
}
