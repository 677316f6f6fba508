use file_exchange::codec::{
    CodecError, GenericExchangeCodec, GenericProtocol, GenericRequest, GenericResponse,
    MAX_MESSAGE_LEN,
};

#[test]
fn protocol_has_its_name() {
    assert_eq!(GenericProtocol().protocol_name(), "/file-exchange/1");
}

#[test]
fn messages_of_a_million_bytes_are_accepted() {
    assert_eq!(MAX_MESSAGE_LEN, 1_000_000);
    let codec = GenericExchangeCodec();
    let request = codec.read_request(vec![0x61; 1_000_000]).unwrap();
    assert_eq!(request.0.len(), 1_000_000);
    let response = codec.read_response(vec![0x61; 1_000_000]).unwrap();
    assert_eq!(response.0.len(), 1_000_000);
}

#[test]
fn longer_messages_are_refused() {
    let codec = GenericExchangeCodec();
    assert_eq!(codec.read_request(vec![0x61; 1_000_001]), Err(CodecError::InvalidData));
    assert_eq!(codec.read_response(vec![0xff; 1_000_001]), Err(CodecError::InvalidData));
    let payload = codec.write_response(GenericResponse("\u{e9}".repeat(500_001)));
    assert_eq!(payload.len(), 1_000_002);
    assert_eq!(codec.read_response(payload), Err(CodecError::InvalidData));
}

#[test]
fn empty_payload_is_no_message() {
    assert_eq!(GenericExchangeCodec().read_request(vec![]), Err(CodecError::UnexpectedEof));
    assert_eq!(GenericExchangeCodec().read_response(vec![]), Err(CodecError::UnexpectedEof));
}

#[test]
fn payload_is_text_in_utf8() {
    assert_eq!(
        GenericExchangeCodec().read_request(vec![0x61, 0xc3, 0xa9, 0xe2, 0x82, 0xac]),
        Ok(GenericRequest("a\u{e9}\u{20ac}".to_string()))
    );
    assert_eq!(
        GenericExchangeCodec().read_response(vec![0xf0, 0x9f, 0x98, 0x80]),
        Ok(GenericResponse("\u{1f600}".to_string()))
    );
    assert_eq!(
        GenericExchangeCodec().write_request(GenericRequest("a\u{e9}".to_string())),
        vec![0x61, 0xc3, 0xa9]
    );
    assert_eq!(
        GenericExchangeCodec().write_response(GenericResponse("ok".to_string())),
        vec![0x6f, 0x6b]
    );
}

#[test]
fn written_request_is_read_back() {
    let codec = GenericExchangeCodec();
    for text in ["a", "file.txt", "\u{0}", "gr\u{fc}\u{df}e", "\u{10ffff}"] {
        let request = GenericRequest(text.to_string());
        assert_eq!(codec.read_request(codec.write_request(request.clone())), Ok(request));
    }
}

#[test]
fn written_response_is_read_back_unless_it_is_empty() {
    let codec = GenericExchangeCodec();
    let response = GenericResponse("line\nline\n".to_string());
    assert_eq!(codec.read_response(codec.write_response(response.clone())), Ok(response));
    let empty = GenericResponse(String::new());
    assert_eq!(codec.read_response(codec.write_response(empty)), Err(CodecError::UnexpectedEof));
}

#[test]
fn read_payload_is_written_back() {
    let codec = GenericExchangeCodec();
    let payload = vec![0x7a, 0xd0, 0xb6, 0x0a];
    let request = codec.read_request(payload.clone()).unwrap();
    assert_eq!(codec.write_request(request), payload);
}
