use tun_rs::error::{error_from_errno, TunError, EAGAIN};
use tun_rs::request::{
    encode_name, ifreq_for, in6_ifreq_for, link_addr_ifreq, link_addr_of, IfReq, AF_LINK,
    IFNAMSIZ, IN6_IFF_NODAD, MAX_NAME_LEN,
};

#[test]
fn encode_empty_name_is_all_zero() {
    let f = encode_name(b"").unwrap();
    assert_eq!(f, vec![0u8; IFNAMSIZ]);
}

#[test]
fn encode_name_pads_with_zeros() {
    let f = encode_name(b"utun3").unwrap();
    let mut expected = vec![0u8; 16];
    expected[..5].copy_from_slice(b"utun3");
    assert_eq!(f, expected);
}

#[test]
fn encode_name_of_max_width() {
    let name = vec![b'a'; MAX_NAME_LEN];
    let f = encode_name(&name).unwrap();
    assert_eq!(MAX_NAME_LEN, 16);
    assert_eq!(f, name);
}

#[test]
fn encode_name_one_below_max_width() {
    let name = vec![b'b'; 15];
    let f = encode_name(&name).unwrap();
    assert_eq!(&f[..15], &name[..]);
    assert_eq!(f[15], 0);
}

#[test]
fn encode_name_one_past_max_width_is_refused() {
    let name = vec![b'a'; MAX_NAME_LEN + 1];
    assert_eq!(encode_name(&name), Err(TunError::InvalidConfiguration));
    assert_eq!(ifreq_for(&name).unwrap_err(), TunError::InvalidConfiguration);
    assert_eq!(in6_ifreq_for(&name).unwrap_err(), TunError::InvalidConfiguration);
}

#[test]
fn ifreq_is_zeroed_apart_from_name() {
    let r = ifreq_for(b"tap0").unwrap();
    assert_eq!(&r.name[..4], b"tap0");
    assert!(r.name[4..].iter().all(|b| *b == 0));
    assert_eq!(r.ifru, vec![0u8; 16]);
}

#[test]
fn in6_ifreq_turns_off_duplicate_address_detection() {
    let r = in6_ifreq_for(b"utun1").unwrap();
    assert_eq!(&r.name[..5], b"utun1");
    assert_eq!(r.flags, 0x20);
    assert_eq!(r.flags, IN6_IFF_NODAD);
}

#[test]
fn link_addr_request_layout() {
    let r = link_addr_ifreq(b"tap0", [0xde, 0xad, 0xbe, 0xef, 0x00, 0x01]).unwrap();
    assert_eq!(
        r.ifru,
        vec![6, AF_LINK, 0xde, 0xad, 0xbe, 0xef, 0x00, 0x01, 0, 0, 0, 0, 0, 0, 0, 0]
    );
    assert_eq!(AF_LINK, 18);
}

#[test]
fn link_addr_read_back() {
    let mac = [2, 0, 0, 0xaa, 0xbb, 0xcc];
    let r = link_addr_ifreq(b"tap0", mac).unwrap();
    assert_eq!(link_addr_of(&r), mac);
    let reply = IfReq { name: vec![0u8; 16], ifru: vec![6, 18, 1, 2, 3, 4, 5, 6, 7, 8, 0, 0, 0, 0, 0, 0] };
    assert_eq!(link_addr_of(&reply), [1, 2, 3, 4, 5, 6]);
}

#[test]
fn errno_try_again_is_would_block() {
    assert_eq!(error_from_errno(EAGAIN), TunError::WouldBlock);
    assert_eq!(error_from_errno(35), TunError::WouldBlock);
}

#[test]
fn errno_other_is_kept_verbatim() {
    assert_eq!(error_from_errno(1), TunError::Os(1));
    assert_eq!(error_from_errno(6), TunError::Os(6));
}
