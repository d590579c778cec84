use logistic_server::framing::{LineBuffer, NEWLINE};

#[test]
fn new_buffer_is_empty() {
    let b = LineBuffer::new();
    assert!(b.is_empty());
    assert_eq!(b.len(), 0);
}

#[test]
fn no_line_until_terminator_arrives() {
    let mut b = LineBuffer::new();
    b.push_bytes(b"0.");
    assert_eq!(b.next_line(), None);
    b.push_bytes(b"5");
    assert_eq!(b.find_newline(), None);
    assert_eq!(b.next_line(), None);
    assert_eq!(b.len(), 3);
    b.push_bytes(b"\n");
    assert_eq!(b.find_newline(), Some(3));
    assert_eq!(b.next_line(), Some(b"0.5\n".to_vec()));
    assert!(b.is_empty());
}

#[test]
fn several_lines_in_one_read_come_out_in_order() {
    let mut b = LineBuffer::new();
    b.push_bytes(b"0.2\nabc\n0.3\n0.4");
    assert_eq!(b.next_line(), Some(b"0.2\n".to_vec()));
    assert_eq!(b.next_line(), Some(b"abc\n".to_vec()));
    assert_eq!(b.next_line(), Some(b"0.3\n".to_vec()));
    assert_eq!(b.next_line(), None);
    assert_eq!(b.len(), 3);
}

#[test]
fn empty_line_is_a_line() {
    let mut b = LineBuffer::new();
    b.push_bytes(&[NEWLINE, NEWLINE]);
    assert_eq!(b.next_line(), Some(vec![NEWLINE]));
    assert_eq!(b.next_line(), Some(vec![NEWLINE]));
    assert_eq!(b.next_line(), None);
}

#[test]
fn rest_at_end_of_input_is_the_unterminated_line() {
    let mut b = LineBuffer::new();
    b.push_bytes(b"0.1\n0.7");
    assert_eq!(b.next_line(), Some(b"0.1\n".to_vec()));
    assert_eq!(b.take_rest(), Some(b"0.7".to_vec()));
    assert!(b.is_empty());
    assert_eq!(b.take_rest(), None);
}

#[test]
fn nothing_left_at_clean_end_of_input() {
    let mut b = LineBuffer::new();
    b.push_bytes(b"0.1\n");
    assert_eq!(b.next_line(), Some(b"0.1\n".to_vec()));
    assert_eq!(b.take_rest(), None);
}

#[test]
fn empty_read_changes_nothing() {
    let mut b = LineBuffer::new();
    b.push_bytes(b"12");
    b.push_bytes(b"");
    assert_eq!(b.len(), 2);
    assert_eq!(b.take_rest(), Some(b"12".to_vec()));
}

#[test]
fn invalid_utf8_line_is_still_framed() {
    let mut b = LineBuffer::new();
    b.push_bytes(&[0xff, 0xfe, NEWLINE, b'1', NEWLINE]);
    assert_eq!(b.next_line(), Some(vec![0xff, 0xfe, NEWLINE]));
    assert_eq!(b.next_line(), Some(b"1\n".to_vec()));
}
