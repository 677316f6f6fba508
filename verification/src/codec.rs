//! Requests and responses of the exchange protocol, and the bytes that carry them.
//!
//! A message travels as one length-prefixed block whose payload is its text in UTF-8. The
//! length prefix is read and written by the connection; this module turns payloads into
//! messages and messages into payloads.

use vstd::prelude::*;
use vstd::string::*;
use vstd::utf8::*;

verus! {

/// The longest payload, in bytes, that a node accepts from a peer.
pub const MAX_MESSAGE_LEN: usize = 1_000_000;

/// `String::from_utf8`: bytes are taken as text exactly when they are well-formed UTF-8, and
/// the text is then the one that they encode. What the error says of ill-formed bytes is
/// dropped.
#[verifier::external_body]
fn string_from_utf8(bytes: Vec<u8>) -> (text: Option<String>)
    ensures
        text is Some <==> valid_utf8(bytes@),
        text matches Some(s) ==> s@ == decode_utf8(bytes@),
{
    String::from_utf8(bytes).ok()
}

/// The bytes of a text.
pub(crate) fn text_bytes(text: &String) -> (bytes: Vec<u8>)
    ensures
        bytes@ == encode_utf8(text@),
{
    text.as_str().as_bytes_vec()
}

/// Why a payload is not a message.
#[derive(Debug, Clone, Copy, PartialEq, Eq, Structural)]
pub enum CodecError {
    /// The payload is empty: the peer closed the stream before it sent a message.
    UnexpectedEof,
    /// The payload is longer than a node accepts.
    InvalidData,
}

/// The exchange protocol.
#[derive(Debug, Clone, Copy)]
pub struct GenericProtocol();

impl GenericProtocol {
    /// The name under which peers negotiate the protocol.
    pub fn protocol_name(&self) -> (name: &'static str)
        ensures
            name@ == "/file-exchange/1"@,
    {
        "/file-exchange/1"
    }
}

/// What a peer asks for: the name of a file, or the number of a lease.
#[derive(Debug, Clone, PartialEq, Eq)]
pub struct GenericRequest(pub String);

/// What a peer is answered: the content of a file, or a lease.
#[derive(Debug, Clone, PartialEq, Eq)]
pub struct GenericResponse(pub String);

impl View for GenericRequest {
    type V = Seq<char>;

    open spec fn view(&self) -> Seq<char> {
        self.0@
    }
}

impl View for GenericResponse {
    type V = Seq<char>;

    open spec fn view(&self) -> Seq<char> {
        self.0@
    }
}

/// The text that a payload carries, if it carries any: a payload that is empty or too long is no
/// message.
pub open spec fn payload_text(payload: Seq<u8>) -> Result<Seq<char>, CodecError> {
    if payload.len() > MAX_MESSAGE_LEN {
        Err(CodecError::InvalidData)
    } else if payload.len() == 0 {
        Err(CodecError::UnexpectedEof)
    } else {
        Ok(decode_utf8(payload))
    }
}

/// The text of a payload.
fn read_text(payload: Vec<u8>) -> (text: Result<String, CodecError>)
    requires
        payload@.len() <= MAX_MESSAGE_LEN ==> valid_utf8(payload@),
    ensures
        match text {
            Ok(t) => payload_text(payload@) == Ok::<Seq<char>, CodecError>(t@),
            Err(e) => payload_text(payload@) == Err::<Seq<char>, CodecError>(e),
        },
{
    if payload.len() > MAX_MESSAGE_LEN {
        return Err(CodecError::InvalidData);
    }
    if payload.len() == 0 {
        return Err(CodecError::UnexpectedEof);
    }
    Ok(string_from_utf8(payload).unwrap())
}

/// Turns payloads into messages and back.
#[derive(Debug, Clone, Copy)]
pub struct GenericExchangeCodec();

impl GenericExchangeCodec {
    /// The request that a payload carries.
    pub fn read_request(&self, payload: Vec<u8>) -> (request: Result<GenericRequest, CodecError>)
        requires
            payload@.len() <= MAX_MESSAGE_LEN ==> valid_utf8(payload@),
        ensures
            match request {
                Ok(r) => payload_text(payload@) == Ok::<Seq<char>, CodecError>(r@),
                Err(e) => payload_text(payload@) == Err::<Seq<char>, CodecError>(e),
            },
    {
        match read_text(payload) {
            Ok(text) => Ok(GenericRequest(text)),
            Err(e) => Err(e),
        }
    }

    /// The response that a payload carries.
    pub fn read_response(&self, payload: Vec<u8>) -> (response: Result<
        GenericResponse,
        CodecError,
    >)
        requires
            payload@.len() <= MAX_MESSAGE_LEN ==> valid_utf8(payload@),
        ensures
            match response {
                Ok(r) => payload_text(payload@) == Ok::<Seq<char>, CodecError>(r@),
                Err(e) => payload_text(payload@) == Err::<Seq<char>, CodecError>(e),
            },
    {
        match read_text(payload) {
            Ok(text) => Ok(GenericResponse(text)),
            Err(e) => Err(e),
        }
    }

    /// The payload that carries a request.
    pub fn write_request(&self, request: GenericRequest) -> (payload: Vec<u8>)
        ensures
            payload@ == encode_utf8(request@),
    {
        text_bytes(&request.0)
    }

    /// The payload that carries a response.
    pub fn write_response(&self, response: GenericResponse) -> (payload: Vec<u8>)
        ensures
            payload@ == encode_utf8(response@),
    {
        text_bytes(&response.0)
    }
}

/// Whatever text is written as a payload can be read, and what is read back is that text, unless
/// the text is empty or too long: such a message is written, but is refused when it is read.
pub proof fn law_written_text_is_read_back(text: Seq<char>)
    ensures
        valid_utf8(encode_utf8(text)),
        payload_text(encode_utf8(text)) == if encode_utf8(text).len() > MAX_MESSAGE_LEN {
            Err::<Seq<char>, CodecError>(CodecError::InvalidData)
        } else if text.len() == 0 {
            Err(CodecError::UnexpectedEof)
        } else {
            Ok(text)
        },
{
    encode_utf8_valid_utf8(text);
    encode_utf8_decode_utf8(text);
    if encode_utf8(text).len() == 0 {
        assert(encode_utf8(text) == Seq::<u8>::empty());
        assert(decode_utf8(Seq::<u8>::empty()).len() == 0);
    }
}

/// A payload that is read as a message is the payload of that message, and of no other.
pub proof fn law_read_payload_is_written_back(payload: Seq<u8>)
    requires
        payload.len() <= MAX_MESSAGE_LEN ==> valid_utf8(payload),
    ensures
        payload_text(payload) matches Ok(text) ==> encode_utf8(text) == payload,
{
    if payload.len() <= MAX_MESSAGE_LEN {
        decode_utf8_encode_utf8(payload);
    }
}

} // verus!
