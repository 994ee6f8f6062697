use iggy_tcp::error::ClientError;
use iggy_tcp::frame::{decode_request, decode_response_header, encode_request};
use iggy_tcp::response::{handle_response, read_strategy, PayloadReader, ReadStrategy};

fn read_all(length: u32, delivered: &[u8]) -> Result<Vec<u8>, ClientError> {
    let mut reader = PayloadReader::new(length);
    let mut pos = 0usize;
    while !reader.is_done() {
        let k = reader.next_read_len();
        let end = std::cmp::min(pos + k, delivered.len());
        reader.on_data(&delivered[pos..end]);
        pos = end;
    }
    reader.into_result()
}

#[test]
fn request_frame_for_code_and_payload() {
    let frame = encode_request(0x2A, b"hi");
    assert_eq!(frame, vec![6, 0, 0, 0, 0x2A, 0, 0, 0, b'h', b'i']);
}

#[test]
fn request_frame_with_empty_payload() {
    let frame = encode_request(0x01020304, b"");
    assert_eq!(frame, vec![4, 0, 0, 0, 4, 3, 2, 1]);
}

#[test]
fn request_frame_round_trip() {
    let payload: Vec<u8> = (0..=255u8).collect();
    let frame = encode_request(0xDEADBEEF, &payload);
    assert_eq!(frame.len(), 8 + payload.len());
    let (code, decoded) = decode_request(&frame).unwrap();
    assert_eq!(code, 0xDEADBEEF);
    assert_eq!(decoded, payload);
    assert_eq!(encode_request(code, &decoded), frame);
}

#[test]
fn decode_request_rejects_bad_frames() {
    assert_eq!(decode_request(&[4, 0, 0, 0, 1, 0, 0]), None);
    assert_eq!(decode_request(&[5, 0, 0, 0, 1, 0, 0, 0]), None);
    assert_eq!(decode_request(&[4, 0, 0, 0, 1, 0, 0, 0]), Some((1, vec![])));
}

#[test]
fn response_header_decodes_status_and_length() {
    let header = [0xAB, 0x0F, 0, 0, 3, 0, 0, 0];
    assert_eq!(decode_response_header(&header), Ok((4011, 3)));
    let header = [0, 0, 0, 0, 0xFF, 0xFF, 0xFF, 0xFF];
    assert_eq!(decode_response_header(&header), Ok((0, u32::MAX)));
}

#[test]
fn short_response_header_is_empty_response() {
    assert_eq!(decode_response_header(&[0, 0, 0, 0, 3, 0, 0]), Err(ClientError::EmptyResponse));
    assert_eq!(decode_response_header(&[]), Err(ClientError::EmptyResponse));
}

#[test]
fn happy_path_payload() {
    let reader = handle_response(0, 3).unwrap();
    assert!(!reader.is_done());
    assert_eq!(reader.next_read_len(), 3);
    assert_eq!(read_all(3, b"abc"), Ok(b"abc".to_vec()));
}

#[test]
fn length_one_and_zero_give_empty_payload() {
    let reader = handle_response(0, 1).unwrap();
    assert!(reader.is_done());
    assert_eq!(reader.into_result(), Ok(vec![]));
    let reader = handle_response(0, 0).unwrap();
    assert!(reader.is_done());
    assert_eq!(reader.next_read_len(), 0);
    assert_eq!(reader.into_result(), Ok(vec![]));
}

#[test]
fn error_status_is_returned_as_error() {
    assert!(matches!(handle_response(4011, 3), Err(ClientError::Status(4011))));
    assert!(matches!(handle_response(1, 0), Err(ClientError::Status(1))));
    assert_eq!(ClientError::Status(4011).status_code(), Some(4011));
    assert_eq!(ClientError::Disconnected.status_code(), None);
}

#[test]
fn read_strategy_boundaries() {
    assert_eq!(read_strategy(0), ReadStrategy::Empty);
    assert_eq!(read_strategy(1), ReadStrategy::Empty);
    assert_eq!(read_strategy(2), ReadStrategy::Fixed);
    assert_eq!(read_strategy(4096), ReadStrategy::Fixed);
    assert_eq!(read_strategy(4097), ReadStrategy::Chunked(16384));
    assert_eq!(read_strategy(65536), ReadStrategy::Chunked(16384));
    assert_eq!(read_strategy(65537), ReadStrategy::Chunked(65536));
    assert_eq!(read_strategy(1048576), ReadStrategy::Chunked(65536));
    assert_eq!(read_strategy(1048577), ReadStrategy::Chunked(262144));
}

#[test]
fn small_payload_is_one_read() {
    let reader = PayloadReader::new(4096);
    assert_eq!(reader.next_read_len(), 4096);
    let data = vec![7u8; 4096];
    assert_eq!(read_all(4096, &data), Ok(data));
}

#[test]
fn medium_payload_reads_in_chunks() {
    let mut reader = PayloadReader::new(20000);
    assert_eq!(reader.next_read_len(), 16384);
    reader.on_data(&vec![1u8; 16384]);
    assert!(!reader.is_done());
    assert_eq!(reader.next_read_len(), 20000 - 16384);
    reader.on_data(&vec![2u8; 20000 - 16384]);
    assert!(reader.is_done());
    let out = reader.into_result().unwrap();
    assert_eq!(out.len(), 20000);
    assert_eq!(out[16383], 1);
    assert_eq!(out[16384], 2);
}

#[test]
fn large_payload_chunk_sizes() {
    assert_eq!(PayloadReader::new(1048576).next_read_len(), 65536);
    assert_eq!(PayloadReader::new(1048577).next_read_len(), 262144);
}

#[test]
fn short_delivery_truncates_payload() {
    let data: Vec<u8> = (0..100u8).collect();
    assert_eq!(read_all(5000, &data), Ok(data.clone()));
    assert_eq!(read_all(10, &data[..4]), Ok(data[..4].to_vec()));
    assert_eq!(read_all(10, &[]), Ok(vec![]));
}

#[test]
fn delivered_bytes_beyond_length_are_not_taken() {
    let data: Vec<u8> = (0..50u8).collect();
    assert_eq!(read_all(20, &data), Ok(data[..20].to_vec()));
}

#[test]
fn short_chunk_ends_the_read() {
    let mut reader = PayloadReader::new(40000);
    reader.on_data(&vec![3u8; 100]);
    assert!(reader.is_done());
    assert_eq!(reader.into_result(), Ok(vec![3u8; 100]));
}

#[test]
fn read_error_before_any_byte_fails() {
    let mut reader = PayloadReader::new(10000);
    reader.on_error(ClientError::TcpError);
    assert!(reader.is_done());
    assert_eq!(reader.into_result(), Err(ClientError::TcpError));
}

#[test]
fn read_error_after_bytes_keeps_them() {
    let mut reader = PayloadReader::new(40000);
    reader.on_data(&vec![9u8; 16384]);
    assert!(!reader.is_done());
    reader.on_error(ClientError::TcpError);
    assert_eq!(reader.into_result(), Ok(vec![9u8; 16384]));
}

#[test]
fn already_exists_statuses() {
    assert!(iggy_tcp::response::is_already_exists_status(4011));
    assert!(!iggy_tcp::response::is_already_exists_status(4010));
    assert!(!iggy_tcp::response::is_already_exists_status(0));
}
