use jobless::frame::{encode_frame, poll_frame, read_frame, read_header_line, scan_frame, FrameReader, HeaderLineRead};
use jobless::transport::TransportError;

fn reader_over(input: &[u8]) -> FrameReader {
    FrameReader::new(input.to_vec())
}

#[test]
fn reads_partial_and_multiple_frames() {
    let input = String::new()
        + "Content-Length: 8\r\n\r\n"
        + "{\"id\":1}"
        + "Content-Length: 14\r\n\r\n"
        + "{\"method\":\"x\"}";
    let mut reader = reader_over(input.as_bytes());

    assert_eq!(read_frame(&mut reader, 1024).unwrap().unwrap(), b"{\"id\":1}");
    assert_eq!(read_frame(&mut reader, 1024).unwrap().unwrap(), b"{\"method\":\"x\"}");
    assert!(read_frame(&mut reader, 1024).unwrap().is_none());
}

#[test]
fn rejects_oversized_frames() {
    let input = b"Content-Length: 100\r\n\r\n";
    let mut reader = reader_over(input.as_slice());

    assert!(matches!(read_frame(&mut reader, 10), Err(TransportError::FrameTooLarge { .. })));
}

#[test]
fn oversized_frame_names_the_limit() {
    let mut reader = reader_over(b"Content-Length: 100\r\n\r\n");
    assert_eq!(read_frame(&mut reader, 10), Err(TransportError::FrameTooLarge { limit: 10 }));
}

#[test]
fn encoded_frame_reads_back() {
    let payload = b"{\"jsonrpc\":\"2.0\",\"id\":7}";
    let framed = encode_frame(payload, 1024).unwrap();
    assert_eq!(framed[..22].to_vec(), b"Content-Length: 24\r\n\r\n".to_vec());
    let mut reader = reader_over(&framed);
    assert_eq!(read_frame(&mut reader, 1024).unwrap().unwrap(), payload.to_vec());
    assert!(reader.is_drained());
}

#[test]
fn encoding_spells_the_length_in_decimal() {
    let payload = vec![b'x'; 1234];
    let framed = encode_frame(&payload, 4096).unwrap();
    assert!(framed.starts_with(b"Content-Length: 1234\r\n\r\n"));
    assert_eq!(framed.len(), 24 + 1234);
    let empty = encode_frame(b"", 10).unwrap();
    assert_eq!(empty, b"Content-Length: 0\r\n\r\n".to_vec());
}

#[test]
fn encoding_refuses_payloads_above_the_limit() {
    assert_eq!(encode_frame(b"0123456789A", 10), Err(TransportError::FrameTooLarge { limit: 10 }));
    assert!(encode_frame(b"0123456789", 10).is_ok());
}

#[test]
fn header_names_ignore_ascii_case_and_other_headers_are_skipped() {
    let input = b"Content-Type: application/json\r\ncontent-LENGTH:   3  \r\n\r\nabcrest";
    let mut reader = reader_over(input);
    assert_eq!(read_frame(&mut reader, 1024).unwrap().unwrap(), b"abc".to_vec());
    assert!(!reader.is_drained());
}

#[test]
fn missing_length_is_an_invalid_frame() {
    let mut reader = reader_over(b"X-Other: 1\r\n\r\n{}");
    assert_eq!(
        read_frame(&mut reader, 1024),
        Err(TransportError::InvalidFrame("missing Content-Length".to_string()))
    );
}

#[test]
fn unparsable_length_is_an_invalid_frame() {
    let mut reader = reader_over(b"Content-Length: ten\r\n\r\n");
    assert!(matches!(read_frame(&mut reader, 1024), Err(TransportError::InvalidFrame(_))));
    let mut negative = reader_over(b"Content-Length: -1\r\n\r\n");
    assert!(matches!(read_frame(&mut negative, 1024), Err(TransportError::InvalidFrame(_))));
}

#[test]
fn non_utf8_header_is_an_invalid_frame() {
    let mut reader = reader_over(b"Content-\xff: 1\r\n\r\n");
    assert!(matches!(read_frame(&mut reader, 1024), Err(TransportError::InvalidFrame(_))));
}

#[test]
fn truncated_payload_means_the_worker_exited() {
    let mut reader = reader_over(b"Content-Length: 5\r\n\r\nab");
    assert_eq!(read_frame(&mut reader, 1024), Err(TransportError::WorkerExited));
    assert!(reader.is_drained());
}

#[test]
fn input_ending_inside_the_headers_is_the_end() {
    let mut reader = reader_over(b"Content-Length: 5\r\n");
    assert_eq!(read_frame(&mut reader, 1024), Ok(None));
    let mut empty = reader_over(b"");
    assert_eq!(read_frame(&mut empty, 1024), Ok(None));
}

#[test]
fn polling_waits_until_the_frame_is_complete() {
    let mut reader = reader_over(b"Content-Len");
    assert!(poll_frame(&mut reader, 1024).is_none());
    reader.extend(b"gth: 2\r\n\r");
    assert!(poll_frame(&mut reader, 1024).is_none());
    reader.extend(b"\n{");
    assert!(poll_frame(&mut reader, 1024).is_none());
    reader.extend(b"}Content-Length: 1\r\n\r\nz");
    assert_eq!(poll_frame(&mut reader, 1024), Some(Ok(Some(b"{}".to_vec()))));
    assert_eq!(poll_frame(&mut reader, 1024), Some(Ok(Some(b"z".to_vec()))));
    assert!(poll_frame(&mut reader, 1024).is_none());
    assert!(reader.is_drained());
}

#[test]
fn polling_reports_an_oversized_frame_once_its_headers_end() {
    let mut reader = reader_over(b"Content-Length: 100\r\n");
    assert!(poll_frame(&mut reader, 10).is_none());
    reader.extend(b"\r\n");
    assert_eq!(poll_frame(&mut reader, 10), Some(Err(TransportError::FrameTooLarge { limit: 10 })));
}

#[test]
fn scanning_reports_what_a_read_takes() {
    let scan = scan_frame(b"Content-Length: 2\r\n\r\nokmore", 1024);
    assert_eq!(scan.result, Ok(Some(b"ok".to_vec())));
    assert_eq!(scan.consumed, 23);
    assert!(scan.decided);
    let partial = scan_frame(b"Content-Length: 2\r\n", 1024);
    assert_eq!(partial.result, Ok(None));
    assert!(!partial.decided);
}

#[test]
fn header_lines_are_classified() {
    assert!(matches!(read_header_line(b"\r\n"), HeaderLineRead::Blank));
    assert!(matches!(read_header_line(b"Content-Length: 42\r\n"), HeaderLineRead::ContentLength(42)));
    assert!(matches!(read_header_line(b"Host: x\n"), HeaderLineRead::Other));
    assert!(matches!(read_header_line(b"no colon"), HeaderLineRead::Other));
    assert!(matches!(read_header_line(b"Content-Length: x\r\n"), HeaderLineRead::BadLength(_)));
    assert!(matches!(read_header_line(b"\xc3\x28\r\n"), HeaderLineRead::NotText(_)));
}
