use driver_deploy::tail::LogCursor;

#[test]
fn appended_line_is_returned_once() {
    let mut c = LogCursor::new();
    assert_eq!(c.poll(&Vec::new()), Vec::<u8>::new());
    assert_eq!(c.bytes_consumed, 0);
    let content = b"line1\n".to_vec();
    assert_eq!(c.poll(&content), b"line1\n".to_vec());
    assert_eq!(c.bytes_consumed, 6);
}

#[test]
fn polling_without_growth_is_idempotent() {
    let mut c = LogCursor::new();
    let content = b"abc".to_vec();
    c.poll(&content);
    assert_eq!(c.poll(&content), Vec::<u8>::new());
    assert_eq!(c.bytes_consumed, 3);
    assert_eq!(c.poll(&content), Vec::<u8>::new());
    assert_eq!(c.bytes_consumed, 3);
}

#[test]
fn appends_come_out_in_order() {
    let mut c = LogCursor::new();
    let mut content = b"start\n".to_vec();
    c.poll(&content);
    content.extend_from_slice(b"B1");
    assert_eq!(c.poll(&content), b"B1".to_vec());
    content.extend_from_slice(b"B2\n");
    assert_eq!(c.poll(&content), b"B2\n".to_vec());
    assert_eq!(c.bytes_consumed, 11);
}

#[test]
fn shrunk_log_yields_nothing() {
    let mut c = LogCursor::new();
    c.poll(&b"0123456789".to_vec());
    assert_eq!(c.poll(&b"01".to_vec()), Vec::<u8>::new());
    assert_eq!(c.bytes_consumed, 10);
}
