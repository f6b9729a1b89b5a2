use nfs_mamont::parser::Error;
use nfs_mamont::read_task::{map_parser_error, queue_depth, rejection_reply, ReadEvent, ReadTask};
use nfs_mamont::response_buffer::ResponseBuffer;
use nfs_mamont::rpc::{AuthStat, IoErrorKind, VersionMismatch};
use nfs_mamont::rpc_command::{parse_header, RpcCommand};

fn fsstat_frame(xid: u8, rpc_version: u8) -> Vec<u8> {
    let mut frame = vec![0x80, 0, 0, 48];
    frame.extend_from_slice(&[0, 0, 0, xid, 0, 0, 0, 0, 0, 0, 0, rpc_version]);
    frame.extend_from_slice(&[0, 1, 0x86, 0xa3, 0, 0, 0, 3, 0, 0, 0, 18]);
    frame.extend_from_slice(&[0, 0, 0, 0, 0, 0, 0, 0]);
    frame.extend_from_slice(&[0, 0, 0, 8, 1, 2, 3, 4, 5, 6, 7, 8]);
    frame
}

#[test]
fn response_buffer_marks_its_fragment() {
    let mut buf = ResponseBuffer::with_capacity(16);
    assert!(!buf.has_content());
    assert!(buf.fragments().is_empty());
    buf.get_mut_buffer().extend_from_slice(&[1, 2, 3]);
    buf.mark_has_content();
    assert!(buf.has_content());
    assert_eq!(buf.fragments(), vec![0x80, 0, 0, 3, 1, 2, 3]);
    buf.clear();
    assert!(!buf.has_content());
    assert!(buf.into_inner().is_empty());
}

#[test]
fn record_marks_split_into_flag_and_length() {
    assert_eq!(parse_header(0x8000_0010), (true, 16));
    assert_eq!(parse_header(0x0000_0010), (false, 16));
    assert_eq!(parse_header(0xffff_ffff), (true, 0x7fff_ffff));
    let mut cmd = RpcCommand::new();
    assert!(!cmd.add_fragment(2, &[1, 2]));
    assert!(cmd.add_fragment(0x8000_0001, &[3]));
    assert_eq!(cmd.data, vec![1, 2, 3]);
}

#[test]
fn read_task_forwards_waits_and_finishes() {
    let frame = fsstat_frame(5, 2);
    let mut task = ReadTask::new(64);
    assert_eq!(task.read_buffer_size(), 64);
    assert!(matches!(task.next(), ReadEvent::ReadMore));
    task.on_bytes(&frame[..10]);
    assert!(matches!(task.next(), ReadEvent::ReadMore));
    task.on_bytes(&frame[10..]);
    match task.next() {
        ReadEvent::Forward(call) => assert_eq!(call.header.xid, 5),
        other => panic!("expected a call, got {:?}", other),
    }
    task.on_close();
    assert!(matches!(task.next(), ReadEvent::Finish));
}

#[test]
fn read_task_rejects_a_cut_request_after_close() {
    let frame = fsstat_frame(6, 2);
    let mut task = ReadTask::new(64);
    task.on_bytes(&frame[..20]);
    task.on_close();
    assert!(matches!(task.next(), ReadEvent::Reject(6, Error::IO(IoErrorKind::UnexpectedEof))));
    assert!(matches!(task.next(), ReadEvent::Finish));
}

#[test]
fn read_task_finishes_after_a_cut_request_with_only_its_id() {
    let mut bytes = Vec::new();
    bytes.extend_from_slice(&(0x8000_0000u32 | 48).to_be_bytes());
    bytes.extend_from_slice(&1u32.to_be_bytes());
    let mut task = ReadTask::new(64);
    task.on_bytes(&bytes);
    assert!(matches!(task.next(), ReadEvent::ReadMore));
    task.on_close();
    assert!(matches!(task.next(), ReadEvent::Reject(1, Error::IO(IoErrorKind::UnexpectedEof))));
    assert!(matches!(task.next(), ReadEvent::Finish));
}

#[test]
fn read_task_rejects_wrong_version_and_goes_on() {
    let mut bytes = fsstat_frame(7, 3);
    bytes.extend_from_slice(&fsstat_frame(8, 2));
    let mut task = ReadTask::new(64);
    task.on_bytes(&bytes);
    match task.next() {
        ReadEvent::Reject(7, Error::RpcVersionMismatch(vm)) => assert_eq!((vm.low, vm.high), (2, 2)),
        other => panic!("expected a rejection, got {:?}", other),
    }
    match task.next() {
        ReadEvent::Forward(call) => assert_eq!(call.header.xid, 8),
        other => panic!("expected a call, got {:?}", other),
    }
}

#[test]
fn rejection_replies() {
    let vm = VersionMismatch { low: 2, high: 2 };
    assert_eq!(
        rejection_reply(1, Error::RpcVersionMismatch(vm)),
        vec![0, 0, 0, 1, 0, 0, 0, 1, 0, 0, 0, 1, 0, 0, 0, 0, 0, 0, 0, 2, 0, 0, 0, 2]
    );
    assert_eq!(
        rejection_reply(2, Error::AuthError(AuthStat::TooWeak)),
        vec![0, 0, 0, 2, 0, 0, 0, 1, 0, 0, 0, 1, 0, 0, 0, 1, 0, 0, 0, 5]
    );
    let accepted = |xid: u8, stat: u8| {
        vec![0, 0, 0, xid, 0, 0, 0, 1, 0, 0, 0, 0, 0, 0, 0, 0, 0, 0, 0, 0, 0, 0, 0, stat]
    };
    assert_eq!(rejection_reply(3, Error::ProgramMismatch), accepted(3, 1));
    assert_eq!(rejection_reply(4, Error::ProcedureMismatch), accepted(4, 3));
    assert_eq!(rejection_reply(5, Error::IncorrectPadding), accepted(5, 4));
    let mut mismatch = accepted(6, 2);
    mismatch.extend_from_slice(&[0, 0, 0, 3, 0, 0, 0, 3]);
    assert_eq!(rejection_reply(6, Error::ProgramVersionMismatch(VersionMismatch { low: 3, high: 3 })), mismatch);
}

#[test]
fn errors_and_queue_depth() {
    assert_eq!(map_parser_error(Error::IO(IoErrorKind::UnexpectedEof)), IoErrorKind::UnexpectedEof);
    assert_eq!(map_parser_error(Error::MessageTypeMismatch), IoErrorKind::InvalidData);
    assert_eq!(queue_depth(10, 3), 7);
    assert_eq!(queue_depth(3, 10), 0);
}
