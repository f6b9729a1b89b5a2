use nfs_mamont::parser::parser_struct::RpcParser;
use nfs_mamont::parser::Arguments;
use nfs_mamont::parser::Error;
use nfs_mamont::rpc::IoErrorKind;

const XID: u32 = 1;
const MSG_CALL: u32 = 0;
const RPC_VERSION: u32 = 2;
const NFS_PROGRAM: u32 = 100_003;
const NFS_VERSION: u32 = 3;
const PROC_FSSTAT: u32 = 18;
const PROC_WRITE: u32 = 7;
const AUTH_NONE: u32 = 0;
const FRAGMENT_HEADER_MASK: u32 = 0x8000_0000;

fn push_u32(buf: &mut Vec<u8>, value: u32) {
    buf.extend_from_slice(&value.to_be_bytes());
}

fn push_u64(buf: &mut Vec<u8>, value: u64) {
    buf.extend_from_slice(&value.to_be_bytes());
}

fn pad_to_alignment(buf: &mut Vec<u8>, content_len: usize) {
    let padding_needed = (4 - (content_len & 3)) & 3;
    buf.extend(std::iter::repeat_n(0, padding_needed));
}

fn push_opaque(buf: &mut Vec<u8>, bytes: &[u8]) {
    push_u32(buf, bytes.len().try_into().unwrap());
    buf.extend_from_slice(bytes);
    pad_to_alignment(buf, bytes.len());
}

fn nfs_call_frame(msg_type: u32, rpc_version: u32, auth_flavor: u32, procedure: u32, args: &[u8]) -> Vec<u8> {
    let mut payload = Vec::new();
    push_u32(&mut payload, XID);
    push_u32(&mut payload, msg_type);
    push_u32(&mut payload, rpc_version);
    push_u32(&mut payload, NFS_PROGRAM);
    push_u32(&mut payload, NFS_VERSION);
    push_u32(&mut payload, procedure);
    push_u32(&mut payload, auth_flavor);
    push_u32(&mut payload, 0);
    payload.extend_from_slice(args);

    let mut frame = Vec::with_capacity(payload.len() + 4);
    let payload_len: u32 = payload.len().try_into().unwrap();
    push_u32(&mut frame, FRAGMENT_HEADER_MASK | (payload_len + 4));
    frame.extend_from_slice(&payload);
    frame
}

fn fsstat_args(root: [u8; 8]) -> Vec<u8> {
    let mut args = Vec::new();
    push_opaque(&mut args, &root);
    args
}

fn write_args(offset: u64, count: u32, stable: u32, data: &[u8]) -> Vec<u8> {
    let mut args = Vec::new();
    push_opaque(&mut args, &[1, 2, 3, 4, 5, 6, 7, 8]);
    push_u64(&mut args, offset);
    push_u32(&mut args, count);
    push_u32(&mut args, stable);
    push_u32(&mut args, data.len().try_into().unwrap());
    args.extend_from_slice(data);
    pad_to_alignment(&mut args, data.len());
    args
}

fn assert_fsstat_result(result: &Arguments, expected_root: [u8; 8]) {
    match result {
        Arguments::FsStat(args) => assert_eq!(args.root.data, expected_root),
        _ => panic!("Wrong result type"),
    }
}

fn parser_with(capacity: usize, bytes: &[u8]) -> RpcParser {
    let mut parser = RpcParser::with_capacity(capacity);
    parser.feed(bytes);
    parser
}

const WRITE_DATA: [u8; 18] = [
    0x01, 0x02, 0x03, 0x04, 0x05, 0x06, 0x07, 0x08, 0x00, 0x00, 0x00, 0x08, 0x01, 0x02, 0x03, 0x04,
    0x01, 0x02,
];

#[test]
fn parse_two_correct() {
    let first = nfs_call_frame(MSG_CALL, RPC_VERSION, AUTH_NONE, PROC_FSSTAT, &fsstat_args([1, 2, 3, 4, 5, 6, 7, 8]));
    let second = nfs_call_frame(MSG_CALL, RPC_VERSION, AUTH_NONE, PROC_FSSTAT, &fsstat_args([1, 2, 3, 4, 5, 6, 7, 8]));
    let mut buf = Vec::new();
    buf.extend_from_slice(&first);
    buf.extend_from_slice(&second);
    let mut parser = parser_with(0x35, &buf);
    let _ = parser.parse_message();
    let result = parser.parse_message().unwrap();
    assert_fsstat_result(&result, [1, 2, 3, 4, 5, 6, 7, 8]);
}

#[test]
fn parse_after_error() {
    let first = nfs_call_frame(MSG_CALL, 3, AUTH_NONE, PROC_FSSTAT, &fsstat_args([1, 2, 3, 4, 5, 6, 7, 8]));
    let second = nfs_call_frame(MSG_CALL, RPC_VERSION, AUTH_NONE, PROC_FSSTAT, &fsstat_args([1, 2, 3, 4, 5, 6, 7, 8]));
    let mut buf = Vec::new();
    buf.extend_from_slice(&first);
    buf.extend_from_slice(&second);
    let mut parser = parser_with(0x50, &buf);
    let result = parser.parse_message();
    assert!(result.is_err());
    let result = parser.parse_message().unwrap();
    assert_fsstat_result(&result, [1, 2, 3, 4, 5, 6, 7, 8]);
}

#[test]
fn parse_write() {
    let first = nfs_call_frame(MSG_CALL, RPC_VERSION, AUTH_NONE, PROC_WRITE, &write_args(0x8000, 0xFF, 0, &WRITE_DATA));
    let second = nfs_call_frame(MSG_CALL, RPC_VERSION, AUTH_NONE, PROC_WRITE, &write_args(0x8000, 0xFF, 0, &WRITE_DATA));
    let mut buf = Vec::new();
    buf.extend_from_slice(&first);
    buf.extend_from_slice(&second);
    let mut parser = parser_with(72, &buf);
    let result = parser.parse_message();
    assert!(result.is_ok());
    let result1 = parser.parse_message();
    assert!(result1.is_ok());
}

#[test]
fn parse_write_after_error() {
    let first = nfs_call_frame(MSG_CALL, 5, AUTH_NONE, PROC_WRITE, &write_args(0x8000, 0xFF, 0, &WRITE_DATA));
    let second = nfs_call_frame(MSG_CALL, RPC_VERSION, AUTH_NONE, PROC_WRITE, &write_args(0x8000, 0xFF, 0, &WRITE_DATA));
    let mut buf = Vec::new();
    buf.extend_from_slice(&first);
    buf.extend_from_slice(&second);
    let mut parser = parser_with(80, &buf);
    let result = parser.parse_message();
    assert!(result.is_err());
    let result = parser.parse_message();
    assert!(result.is_ok());
}

#[test]
fn parse_error_when_consumed_exceeds_frame_size() {
    let buf = vec![
        0x80, 0x00, 0x00, 0x04, // head with too small frame size
        0x00, 0x00, 0x00, 0x01, // xid
        0x00, 0x00, 0x00, 0x00, // request
        0x00, 0x00, 0x00, 0x05, // invalid rpc version (must be 2)
    ];
    let mut parser = parser_with(0x20, &buf);
    let result = parser.parse_message();
    let error = result.err().unwrap();
    assert!(matches!(error, Error::IO(IoErrorKind::InvalidData)));
}

#[test]
fn parse_rejects_any_non_call_message_type() {
    let buf = vec![
        0x80, 0x00, 0x00, 0x30, // head
        0x00, 0x00, 0x00, 0x01, // xid
        0x00, 0x00, 0x00, 0x02, // invalid msg type (must be CALL = 0)
        0x00, 0x00, 0x00, 0x02, // rpc version
        0x00, 0x01, 0x86, 0xA3, // program
        0x00, 0x00, 0x00, 0x03, // prog vers
        0x00, 0x00, 0x00, 0x12, // proc
        0x00, 0x00, 0x00, 0x00, // auth
        0x00, 0x00, 0x00, 0x00, // auth
        0x00, 0x00, 0x00, 0x08, // nfs_fh3
        0x01, 0x02, 0x03, 0x04, 0x05, 0x06, 0x07, 0x08,
    ];
    let mut parser = parser_with(0x35, &buf);
    let result = parser.parse_message();
    assert!(matches!(result, Err(Error::MessageTypeMismatch)));
}

#[test]
fn parse_write_with_empty_payload() {
    let buf = vec![
        0x80, 0x00, 0x00, 68, // head
        0x00, 0x00, 0x00, 0x01, // xid
        0x00, 0x00, 0x00, 0x00, // request
        0x00, 0x00, 0x00, 0x02, // rpc version
        0x00, 0x01, 0x86, 0xA3, // program
        0x00, 0x00, 0x00, 0x03, // prog vers
        0x00, 0x00, 0x00, 7, // proc
        0x00, 0x00, 0x00, 0x00, // auth
        0x00, 0x00, 0x00, 0x00, // auth
        0x00, 0x00, 0x00, 0x08, // nfs_fh3
        0x01, 0x02, 0x03, 0x04, 0x05, 0x06, 0x07, 0x08,
        0x00, 0x00, 0x00, 0x00, // offset
        0x00, 0x00, 0x80, 0x00, // offset
        0x00, 0x00, 0x00, 0xFF, // count
        0x00, 0x00, 0x00, 0x00, // mode
        0x00, 0x00, 0x00, 0x00, // opaque length
    ];
    let mut parser = parser_with(68, &buf);
    let result = parser.parse_message();
    assert!(result.is_ok());
}

#[test]
fn parse_waits_for_the_rest_of_a_split_request() {
    let frame = nfs_call_frame(MSG_CALL, RPC_VERSION, AUTH_NONE, PROC_FSSTAT, &fsstat_args([9, 8, 7, 6, 5, 4, 3, 2]));
    let mut parser = RpcParser::new();
    parser.feed(&frame[..15]);
    let result = parser.parse_message();
    assert!(matches!(result, Err(Error::IO(IoErrorKind::UnexpectedEof))));
    parser.feed(&frame[15..]);
    let result = parser.parse_message().unwrap();
    assert_fsstat_result(&result, [9, 8, 7, 6, 5, 4, 3, 2]);
}

#[test]
fn parse_request_reports_the_header() {
    let frame = nfs_call_frame(MSG_CALL, RPC_VERSION, AUTH_NONE, PROC_FSSTAT, &fsstat_args([1, 1, 1, 1, 1, 1, 1, 1]));
    let mut parser = RpcParser::new();
    parser.feed(&frame);
    let call = parser.parse_request().unwrap();
    assert_eq!(call.header.xid, XID);
    assert_eq!(call.header.program, NFS_PROGRAM);
    assert_eq!(call.header.version, NFS_VERSION);
    assert_eq!(call.header.procedure, PROC_FSSTAT);
    assert_eq!(parser.capacity(), 131072);
}

#[test]
fn trailing_bytes_leave_a_complete_request_alone() {
    let frame = nfs_call_frame(MSG_CALL, RPC_VERSION, AUTH_NONE, PROC_FSSTAT, &fsstat_args([8, 7, 6, 5, 4, 3, 2, 1]));
    let mut alone = RpcParser::new();
    alone.feed(&frame);
    let first = alone.parse_request().unwrap();

    let mut extended = frame.clone();
    extended.extend_from_slice(&[0xFF, 0x00, 0x12, 0x34, 0x56]);
    let mut followed = RpcParser::new();
    followed.feed(&extended);
    let second = followed.parse_request().unwrap();

    assert_eq!(first.header, second.header);
    assert_fsstat_result(&first.arguments, [8, 7, 6, 5, 4, 3, 2, 1]);
    assert_fsstat_result(&second.arguments, [8, 7, 6, 5, 4, 3, 2, 1]);
}

#[test]
fn a_refused_handle_leaves_the_stream_after_its_length() {
    let inner = nfs_call_frame(MSG_CALL, RPC_VERSION, AUTH_NONE, PROC_FSSTAT, &fsstat_args([9, 9, 9, 9, 1, 1, 1, 1]));
    let mut args = Vec::new();
    push_u32(&mut args, 9);
    args.extend_from_slice(&inner);
    let outer = nfs_call_frame(MSG_CALL, RPC_VERSION, AUTH_NONE, PROC_FSSTAT, &args);
    let mut parser = RpcParser::new();
    parser.feed(&outer);
    let failure = parser.parse_request_full().unwrap_err();
    assert_eq!(failure.xid, Some(XID));
    assert_eq!(failure.error, Error::BadFileHandle);
    let next = parser.parse_request().unwrap();
    assert_fsstat_result(&next.arguments, [9, 9, 9, 9, 1, 1, 1, 1]);
}

#[test]
fn retrying_after_more_bytes_gives_the_whole_request() {
    let frame = nfs_call_frame(MSG_CALL, RPC_VERSION, AUTH_NONE, PROC_FSSTAT, &fsstat_args([3, 1, 4, 1, 5, 9, 2, 6]));
    let mut parser = RpcParser::new();
    parser.feed(&frame[..10]);
    let first = parser.parse_request_full().unwrap_err();
    assert_eq!(first.error, Error::IO(IoErrorKind::UnexpectedEof));
    parser.feed(&frame[10..]);
    let call = parser.parse_request().unwrap();
    assert_fsstat_result(&call.arguments, [3, 1, 4, 1, 5, 9, 2, 6]);
}

#[test]
fn bytes_ending_inside_padding_are_refused_as_missing_padding() {
    let frame = nfs_call_frame(MSG_CALL, RPC_VERSION, AUTH_NONE, PROC_WRITE, &write_args(0, 18, 0, &WRITE_DATA));
    let mut parser = RpcParser::new();
    parser.feed(&frame[..frame.len() - 1]);
    let failure = parser.parse_request_full().unwrap_err();
    assert_eq!(failure.xid, Some(XID));
    assert_eq!(failure.error, Error::IncorrectPadding);
}
