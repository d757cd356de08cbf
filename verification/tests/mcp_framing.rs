use runx::mcp::framing::{
    MAX_CLIENT_RESPONSE_BYTES, buffered_client_response_exceeds_limit, check_request_buffer,
    content_length, find_header_end, frame_available_messages, frame_message, parse_usize_exec,
    take_request_frame,
};

#[test]
fn header_end_is_the_first_blank_line() {
    assert_eq!(find_header_end(b"Content-Length: 2\r\n\r\n{}"), Some(17));
    assert_eq!(find_header_end(b"a\r\n\r\nb\r\n\r\n"), Some(1));
    assert_eq!(find_header_end(b"Content-Length: 2\r\n"), None);
    assert_eq!(find_header_end(b""), None);
}

#[test]
fn content_length_reads_the_declaring_line() {
    assert_eq!(content_length("Content-Length: 42"), Some(42));
    assert_eq!(content_length("content-length:7"), Some(7));
    assert_eq!(content_length("X-Other: 1\r\nCONTENT-LENGTH :  +12  \r\n"), Some(12));
    assert_eq!(content_length("Content-Type: json\nContent-Length: 3"), Some(3));
    assert_eq!(content_length("Content-Length: x\nContent-Length: 5"), Some(5));
    assert_eq!(content_length("Content-Length: -1"), None);
    assert_eq!(content_length("Content-Length: "), None);
    assert_eq!(content_length("Content-Length 5"), None);
    assert_eq!(content_length(""), None);
    assert_eq!(content_length("Content-Length: 99999999999999999999999"), None);
}

#[test]
fn usize_parsing_follows_str_parse() {
    for text in ["0", "12", "+7", "007", "-1", "+", "", "1 2", "18446744073709551616", "1a"] {
        assert_eq!(parse_usize_exec(text), text.parse::<usize>().ok(), "{text:?}");
    }
}

#[test]
fn framed_messages_read_back() {
    let first = frame_message(br#"{"id":1}"#);
    assert_eq!(first, b"Content-Length: 8\r\n\r\n{\"id\":1}".to_vec());
    let second = frame_message(b"[]");
    let mut buffer = first.clone();
    buffer.extend_from_slice(&second);
    buffer.extend_from_slice(b"Content-Length: 11\r\n\r\n{\"par");
    let bodies = frame_available_messages(&mut buffer).unwrap();
    assert_eq!(bodies, vec![br#"{"id":1}"#.to_vec(), b"[]".to_vec()]);
    assert_eq!(buffer, b"Content-Length: 11\r\n\r\n{\"par".to_vec());
    buffer.extend_from_slice(b"tial\"}");
    let bodies = frame_available_messages(&mut buffer).unwrap();
    assert_eq!(bodies, vec![b"{\"partial\"}".to_vec()]);
    assert!(buffer.is_empty());
}

#[test]
fn framing_faults() {
    let mut buffer = b"X-Other: 1\r\n\r\n{}".to_vec();
    let error = frame_available_messages(&mut buffer).unwrap_err();
    assert_eq!(error.message, "MCP server sent a response without Content-Length.");

    let mut buffer = b"Content-Length: \xff\r\n\r\n".to_vec();
    let error = frame_available_messages(&mut buffer).unwrap_err();
    assert_eq!(error.message, "MCP server sent an invalid header.");

    let mut buffer = b"Content-Length: 2000000\r\n\r\n".to_vec();
    let error = frame_available_messages(&mut buffer).unwrap_err();
    assert_eq!(error.message, "MCP server response exceeded size limit.");
}

#[test]
fn oversized_buffers_are_noticed() {
    assert!(!buffered_client_response_exceeds_limit(b"Content-Length: 2\r\n\r\n{}"));
    let big = vec![b'a'; MAX_CLIENT_RESPONSE_BYTES + 1];
    assert!(buffered_client_response_exceeds_limit(&big));
    let mut framed = frame_message(b"{}");
    framed.extend_from_slice(&vec![b' '; MAX_CLIENT_RESPONSE_BYTES]);
    assert!(buffered_client_response_exceeds_limit(&framed));
}

#[test]
fn served_requests_are_taken_one_at_a_time() {
    let mut buffer = frame_message(b"{\"a\":1}");
    buffer.extend_from_slice(&frame_message(b"{}"));
    assert_eq!(take_request_frame(&mut buffer).unwrap(), Some(b"{\"a\":1}".to_vec()));
    assert_eq!(take_request_frame(&mut buffer).unwrap(), Some(b"{}".to_vec()));
    assert_eq!(take_request_frame(&mut buffer).unwrap(), None);
    assert!(buffer.is_empty());

    let mut buffer = b"Content-Length: 5000000\r\n\r\n".to_vec();
    let error = take_request_frame(&mut buffer).unwrap_err();
    assert_eq!(
        error.message,
        "MCP request declared Content-Length 5000000, exceeding 4194304-byte limit."
    );
    let mut buffer = b"Accept: x\r\n\r\n".to_vec();
    assert_eq!(
        take_request_frame(&mut buffer).unwrap_err().message,
        "MCP request requires a Content-Length header."
    );
    let mut buffer = b"\xc3\r\n\r\n".to_vec();
    assert_eq!(
        take_request_frame(&mut buffer).unwrap_err().message,
        "MCP request header must be UTF-8."
    );
    assert!(check_request_buffer(4194304).is_none());
    assert_eq!(
        check_request_buffer(4194305).unwrap().message,
        "MCP request exceeded 4194304-byte size limit."
    );
}
