use rust_link::encoder::{
    encode_arguments, encode_end, encode_entity, encode_environment, encode_message, EnvEntry,
};

#[test]
fn arg_frame_single_argument() {
    // A process invoked with exactly one argument (itself): the frame
    // carries count 1 and one item whose declared length is the byte
    // length of that argument.
    let arg = b"/usr/lib/cgi-bin/link".to_vec();
    let args = vec![arg.clone()];
    let frame = encode_arguments(&args);
    assert!(frame.starts_with(b"arg 1\n"));
    let mut expected = b"arg 1\n21 ".to_vec();
    assert_eq!(21, arg.len());
    expected.extend_from_slice(&arg);
    expected.push(b'\n');
    assert_eq!(expected, frame);
}

#[test]
fn arg_frame_no_arguments() {
    let frame = encode_arguments(&vec![]);
    assert_eq!(b"arg 0\n".to_vec(), frame);
}

#[test]
fn arg_frame_keeps_order() {
    let args = vec![b"one".to_vec(), b"two2".to_vec()];
    let frame = encode_arguments(&args);
    assert_eq!(b"arg 2\n3 one\n4 two2\n".to_vec(), frame);
}

#[test]
fn env_frame_single_entry() {
    let entries = vec![EnvEntry { key: b"PATH_INFO".to_vec(), value: b"/x".to_vec() }];
    let frame = encode_environment(&entries);
    // The item is `PATH_INFO=/x`, 12 bytes long.
    assert_eq!(b"env 1\n12 PATH_INFO=/x\n".to_vec(), frame);
}

#[test]
fn env_frame_no_entries() {
    let frame = encode_environment(&vec![]);
    assert_eq!(b"env 0\n".to_vec(), frame);
}

#[test]
fn env_frame_arbitrary_bytes() {
    let entries = vec![EnvEntry { key: vec![0xffu8, 0x00u8], value: vec![0xfeu8] }];
    let frame = encode_environment(&entries);
    let mut expected = b"env 1\n4 ".to_vec();
    expected.extend_from_slice(&[0xff, 0x00, b'=', 0xfe, b'\n']);
    assert_eq!(expected, frame);
}

#[test]
fn entity_frame_empty_body() {
    // The frame is written even when the body is empty, with length 0.
    let frame = encode_entity(&[]);
    assert_eq!(b"entity\n0 \n".to_vec(), frame);
}

#[test]
fn entity_frame_with_body() {
    let frame = encode_entity(b"name=value");
    assert_eq!(b"entity\n10 name=value\n".to_vec(), frame);
}

#[test]
fn end_frame() {
    assert_eq!(b"end\n".to_vec(), encode_end());
}

#[test]
fn whole_message_in_fixed_frame_order() {
    let args = vec![b"link".to_vec()];
    let entries = vec![EnvEntry { key: b"A".to_vec(), value: b"b".to_vec() }];
    let body = b"hi";
    let message = encode_message(&args, &entries, body);
    let mut expected = Vec::new();
    expected.extend_from_slice(b"arg 1\n4 link\n");
    expected.extend_from_slice(b"env 1\n3 A=b\n");
    expected.extend_from_slice(b"entity\n2 hi\n");
    expected.extend_from_slice(b"end\n");
    assert_eq!(expected, message);
}
