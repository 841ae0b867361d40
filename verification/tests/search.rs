use rotor_stream::Expectation;
use rotor_stream::IoOp;
use rotor_stream::ReadEvent;
use rotor_stream::WriteEvent;
use rotor_stream::WriteStep;
use rotor_stream::apply_read_event;
use rotor_stream::apply_write_event;
use rotor_stream::eof_completes;
use rotor_stream::find_from;
use rotor_stream::find_substr;

#[test]
fn find_substr_first_occurrence() {
    assert_eq!(find_substr(&b"hello world".to_vec(), &b"world".to_vec()), Some(6));
    assert_eq!(find_substr(&b"aaab".to_vec(), &b"ab".to_vec()), Some(2));
    assert_eq!(find_substr(&b"abab".to_vec(), &b"ab".to_vec()), Some(0));
}

#[test]
fn find_substr_absent_needle() {
    assert_eq!(find_substr(&b"hello".to_vec(), &b"world".to_vec()), None);
    assert_eq!(find_substr(&Vec::new(), &b"x".to_vec()), None);
    assert_eq!(find_substr(&b"ab".to_vec(), &b"abc".to_vec()), None);
}

#[test]
fn find_substr_empty_needle_matches_at_start() {
    assert_eq!(find_substr(&b"abc".to_vec(), &Vec::new()), Some(0));
    assert_eq!(find_substr(&Vec::new(), &Vec::new()), Some(0));
}

#[test]
fn find_from_respects_offset() {
    assert_eq!(find_from(&b"abab".to_vec(), 1, &b"ab".to_vec()), Some(2));
    assert_eq!(find_from(&b"abzz".to_vec(), 1, &b"ab".to_vec()), None);
    assert_eq!(find_from(&b"zzab".to_vec(), 2, &b"ab".to_vec()), Some(2));
}

#[test]
fn io_op_classification() {
    assert_eq!(IoOp::Done.is_done(), Ok(true));
    assert_eq!(IoOp::NoOp.is_done(), Ok(false));
    assert_eq!(IoOp::Eof.is_done(), Ok(false));
    assert_eq!(IoOp::Error.is_done(), Err(()));
}

#[test]
fn read_event_appends_and_classifies() {
    let mut inbuf = b"ab".to_vec();
    assert_eq!(apply_read_event(&mut inbuf, ReadEvent::Data(b"cd".to_vec())), IoOp::Done);
    assert_eq!(inbuf, b"abcd".to_vec());
    assert_eq!(apply_read_event(&mut inbuf, ReadEvent::Data(Vec::new())), IoOp::Eof);
    assert_eq!(inbuf, b"abcd".to_vec());
    assert_eq!(apply_read_event(&mut inbuf, ReadEvent::WouldBlock), IoOp::NoOp);
    assert_eq!(inbuf, b"abcd".to_vec());
    assert_eq!(apply_read_event(&mut inbuf, ReadEvent::Error), IoOp::Error);
    assert_eq!(inbuf, b"abcd".to_vec());
}

#[test]
fn write_event_drains_front_and_classifies() {
    let mut outbuf = b"hello".to_vec();
    assert_eq!(apply_write_event(&mut outbuf, WriteEvent::Wrote(2)), WriteStep::Progress);
    assert_eq!(outbuf, b"llo".to_vec());
    // an over-report drains at most the whole buffer
    assert_eq!(apply_write_event(&mut outbuf, WriteEvent::Wrote(9)), WriteStep::Progress);
    assert_eq!(outbuf, Vec::<u8>::new());
    let mut outbuf = b"rest".to_vec();
    assert_eq!(apply_write_event(&mut outbuf, WriteEvent::Wrote(0)), WriteStep::Failed);
    assert_eq!(outbuf, b"rest".to_vec());
    assert_eq!(apply_write_event(&mut outbuf, WriteEvent::WouldBlock), WriteStep::Blocked);
    assert_eq!(outbuf, b"rest".to_vec());
    assert_eq!(apply_write_event(&mut outbuf, WriteEvent::Error), WriteStep::Failed);
    assert_eq!(outbuf, b"rest".to_vec());
}

#[test]
fn half_close_completes_only_eof_expectations() {
    assert!(eof_completes(&Expectation::Eof(5)));
    assert!(eof_completes(&Expectation::BufferEof(5)));
    assert!(!eof_completes(&Expectation::Bytes(5)));
    assert!(!eof_completes(&Expectation::Delimiter(0, b"\r\n".to_vec(), 8)));
    assert!(!eof_completes(&Expectation::Flush(0)));
    assert!(!eof_completes(&Expectation::Sleep));
}
