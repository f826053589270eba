use udp_capture::datagram::{deliver, BUFFER_SIZE, MAX_DATAGRAM_SIZE};

fn pattern(len: usize) -> Vec<u8> {
    (0..len).map(|i| (i * 31 + 7) as u8).collect()
}

#[test]
fn buffer_is_no_smaller_than_any_datagram() {
    assert_eq!(BUFFER_SIZE, 65536);
    assert_eq!(MAX_DATAGRAM_SIZE, 65527);
    assert!(MAX_DATAGRAM_SIZE <= BUFFER_SIZE);
}

#[test]
fn empty_datagram_is_delivered_empty() {
    assert_eq!(deliver(&[], BUFFER_SIZE), Vec::<u8>::new());
    assert_eq!(deliver(&[], 0), Vec::<u8>::new());
}

#[test]
fn largest_datagram_is_delivered_whole() {
    let datagram = pattern(MAX_DATAGRAM_SIZE);
    let payload = deliver(&datagram, BUFFER_SIZE);
    assert_eq!(payload.len(), 65527);
    assert_eq!(payload, datagram);
}

#[test]
fn datagrams_of_many_sizes_are_delivered_whole() {
    for len in [0usize, 1, 5, 512, 1499, 1500, 1501, 9000, 65526, 65527] {
        let datagram = pattern(len);
        assert_eq!(deliver(&datagram, BUFFER_SIZE), datagram, "length {}", len);
    }
}

#[test]
fn mtu_sized_buffer_keeps_what_fits() {
    for len in [0usize, 1, 1499, 1500] {
        let datagram = pattern(len);
        assert_eq!(deliver(&datagram, 1500), datagram, "length {}", len);
    }
}

#[test]
fn mtu_sized_buffer_truncates_larger_datagrams() {
    for len in [1501usize, 1502, 4096, 65527] {
        let datagram = pattern(len);
        let payload = deliver(&datagram, 1500);
        assert_eq!(payload.len(), 1500, "length {}", len);
        assert_eq!(payload[..], datagram[..1500]);
        assert_ne!(payload, datagram);
    }
}

#[test]
fn buffer_of_no_bytes_loses_everything() {
    assert_eq!(deliver(&[1, 2, 3], 0), Vec::<u8>::new());
}

#[test]
fn datagram_as_long_as_the_buffer_is_kept() {
    let datagram = pattern(64);
    assert_eq!(deliver(&datagram, 64), datagram);
    assert_eq!(deliver(&datagram, 63), datagram[..63].to_vec());
    assert_eq!(deliver(&datagram, 65), datagram);
}
