use ai_os::ipc::{encode_frame, frame_header, frame_length, SOCKET_PATH};

#[test]
fn header_is_big_endian_length() {
    assert_eq!(frame_header(258), [0, 0, 1, 2]);
    assert_eq!(frame_header(0x0102_0304), [1, 2, 3, 4]);
    assert_eq!(frame_header(258), 258u32.to_be_bytes());
}

#[test]
fn header_reads_back_its_length() {
    for n in [0usize, 1, 255, 256, 65_535, 1 << 20, u32::MAX as usize] {
        assert_eq!(frame_length(frame_header(n)), n);
    }
    assert_eq!(frame_length([0, 0, 1, 2]), 258);
}

#[test]
fn frame_is_header_then_payload() {
    let f = encode_frame(b"{\"msg\":\"ping\"}");
    assert_eq!(&f[..4], &[0, 0, 0, 14]);
    assert_eq!(&f[4..], b"{\"msg\":\"ping\"}");
}

#[test]
fn socket_path_is_fixed() {
    assert_eq!(SOCKET_PATH, "/tmp/ai-os.sock");
}
