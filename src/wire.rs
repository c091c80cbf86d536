//! Wire format of requests and responses.
//!
//! A request is the 8-byte little-endian service id followed by the payload.
//! A response is one status byte, followed by the payload only on success.
use vstd::prelude::*;

verus! {

/// Why a service could not answer a request.
#[derive(Debug, Clone, Copy, PartialEq, Eq, Structural)]
pub enum RPCRequestError {
    FunctionIdNotFound,
    ServiceIdNotFound,
    Other,
}

/// Declares `std::io::Error`, the transport failure that a call carries
/// through unread.
#[verifier::external_type_specification]
#[verifier::external_body]
pub struct ExIoError(std::io::Error);

/// Why a call failed at the client.
#[derive(Debug)]
pub enum RPCError {
    IOError(std::io::Error),
    RequestError(RPCRequestError),
}

/// Status byte of a successful response.
pub const STATUS_OK: u8 = 0;

/// Status byte that stands for a request error.
pub open spec fn status_of(e: RPCRequestError) -> u8 {
    match e {
        RPCRequestError::FunctionIdNotFound => 1,
        RPCRequestError::ServiceIdNotFound => 2,
        RPCRequestError::Other => 255,
    }
}

/// Request error that a non-zero status byte stands for.
pub open spec fn error_of_status(b: u8) -> RPCRequestError {
    if b == 1 {
        RPCRequestError::FunctionIdNotFound
    } else if b == 2 {
        RPCRequestError::ServiceIdNotFound
    } else {
        RPCRequestError::Other
    }
}

/// The 8 little-endian bytes of `n`.
pub open spec fn le_bytes(n: u64) -> Seq<u8> {
    seq![
        (n & 0xff) as u8,
        ((n >> 8u64) & 0xff) as u8,
        ((n >> 16u64) & 0xff) as u8,
        ((n >> 24u64) & 0xff) as u8,
        ((n >> 32u64) & 0xff) as u8,
        ((n >> 40u64) & 0xff) as u8,
        ((n >> 48u64) & 0xff) as u8,
        ((n >> 56u64) & 0xff) as u8,
    ]
}

/// The number whose little-endian form is the first 8 bytes of `s`.
pub open spec fn le_value(s: Seq<u8>) -> u64
    recommends
        s.len() >= 8,
{
    (s[0] as u64) | ((s[1] as u64) << 8u64) | ((s[2] as u64) << 16u64) | ((s[3] as u64)
        << 24u64) | ((s[4] as u64) << 32u64) | ((s[5] as u64) << 40u64) | ((s[6] as u64)
        << 48u64) | ((s[7] as u64) << 56u64)
}

/// The bytes of a request for service `service_id` carrying `payload`.
pub open spec fn request_frame(service_id: u64, payload: Seq<u8>) -> Seq<u8> {
    le_bytes(service_id) + payload
}

/// The service id at the head of a request.
pub open spec fn request_service(frame: Seq<u8>) -> u64 {
    le_value(frame)
}

/// The payload behind the head of a request.
pub open spec fn request_payload(frame: Seq<u8>) -> Seq<u8> {
    frame.subrange(8, frame.len() as int)
}

/// The bytes of the response that a handler result becomes.
pub open spec fn response_frame(res: Result<Seq<u8>, RPCRequestError>) -> Seq<u8> {
    match res {
        Ok(p) => seq![STATUS_OK] + p,
        Err(e) => seq![status_of(e)],
    }
}

/// What a client reads out of response bytes. A response without a status
/// byte is no answer the protocol knows of.
pub open spec fn response_result(frame: Seq<u8>) -> Result<Seq<u8>, RPCRequestError> {
    if frame.len() == 0 {
        Err(RPCRequestError::Other)
    } else if frame[0] == STATUS_OK {
        Ok(frame.drop_first())
    } else {
        Err(error_of_status(frame[0]))
    }
}

/// Relies on `byteorder::LittleEndian::read_u64`: the number whose
/// little-endian form is the first 8 bytes (it panics on fewer).
#[verifier::external_body]
fn read_le_u64(buf: &[u8]) -> (r: u64)
    requires
        buf@.len() >= 8,
    ensures
        r == le_value(buf@),
{
    <byteorder::LittleEndian as byteorder::ByteOrder>::read_u64(buf)
}

/// Relies on `byteorder::LittleEndian::write_u64`: it writes the 8
/// little-endian bytes of `n` into an 8-byte buffer.
#[verifier::external_body]
fn write_le_u64(n: u64) -> (r: Vec<u8>)
    ensures
        r@ == le_bytes(n),
{
    let mut buf = vec![0u8; 8];
    <byteorder::LittleEndian as byteorder::ByteOrder>::write_u64(&mut buf, n);
    buf
}

/// Turns the result of a handler into response bytes.
pub fn encode_res(res: Result<Vec<u8>, RPCRequestError>) -> (r: Vec<u8>)
    ensures
        r@ == response_frame(match res {
            Ok(p) => Ok(p@),
            Err(e) => Err(e),
        }),
{
    match res {
        Ok(mut payload) => {
            let mut out: Vec<u8> = vec![STATUS_OK];
            out.append(&mut payload);
            out
        },
        Err(e) => {
            let code: u8 = match e {
                RPCRequestError::FunctionIdNotFound => 1,
                RPCRequestError::ServiceIdNotFound => 2,
                RPCRequestError::Other => 255,
            };
            vec![code]
        },
    }
}

/// Reads the outcome of a call out of what the connection returned.
pub fn decode_res(res: Result<Vec<u8>, std::io::Error>) -> (r: Result<Vec<u8>, RPCError>)
    ensures
        match res {
            Err(e) => r matches Err(RPCError::IOError(e2)) && e2 == e,
            Ok(b) => match response_result(b@) {
                Ok(p) => r matches Ok(q) && q@ == p,
                Err(e) => r matches Err(RPCError::RequestError(e2)) && e2 == e,
            },
        },
{
    match res {
        Ok(mut bytes) => {
            if bytes.len() == 0 {
                Err(RPCError::RequestError(RPCRequestError::Other))
            } else if bytes[0] == STATUS_OK {
                let ghost whole = bytes@;
                let payload = bytes.split_off(1);
                proof {
                    assert(payload@ =~= whole.drop_first());
                }
                Ok(payload)
            } else if bytes[0] == 1 {
                Err(RPCError::RequestError(RPCRequestError::FunctionIdNotFound))
            } else if bytes[0] == 2 {
                Err(RPCError::RequestError(RPCRequestError::ServiceIdNotFound))
            } else {
                Err(RPCError::RequestError(RPCRequestError::Other))
            }
        },
        Err(e) => Err(RPCError::IOError(e)),
    }
}

/// Splits a request into its service id and its payload.
pub fn read_u64_head(mut data: Vec<u8>) -> (r: (u64, Vec<u8>))
    requires
        data@.len() >= 8,
    ensures
        r.0 == request_service(data@),
        r.1@ == request_payload(data@),
{
    let num = read_le_u64(data.as_slice());
    let payload = data.split_off(8);
    (num, payload)
}

/// Puts the 8-byte head carrying `num` in front of `data`.
pub fn prepend_u64(num: u64, mut data: Vec<u8>) -> (r: Vec<u8>)
    ensures
        r@ == request_frame(num, data@),
{
    let mut bytes = write_le_u64(num);
    bytes.append(&mut data);
    bytes
}

/// The head of a request reads back as the number it was written from.
pub proof fn lemma_le_round_trip(n: u64)
    ensures
        le_value(le_bytes(n)) == n,
{
    let b = le_bytes(n);
    assert(b[0] as u64 == n & 0xff) by {
        assert(n & 0xff < 256) by (bit_vector);
    }
    assert(b[1] as u64 == (n >> 8u64) & 0xff) by {
        assert((n >> 8u64) & 0xff < 256) by (bit_vector);
    }
    assert(b[2] as u64 == (n >> 16u64) & 0xff) by {
        assert((n >> 16u64) & 0xff < 256) by (bit_vector);
    }
    assert(b[3] as u64 == (n >> 24u64) & 0xff) by {
        assert((n >> 24u64) & 0xff < 256) by (bit_vector);
    }
    assert(b[4] as u64 == (n >> 32u64) & 0xff) by {
        assert((n >> 32u64) & 0xff < 256) by (bit_vector);
    }
    assert(b[5] as u64 == (n >> 40u64) & 0xff) by {
        assert((n >> 40u64) & 0xff < 256) by (bit_vector);
    }
    assert(b[6] as u64 == (n >> 48u64) & 0xff) by {
        assert((n >> 48u64) & 0xff < 256) by (bit_vector);
    }
    assert(b[7] as u64 == (n >> 56u64) & 0xff) by {
        assert((n >> 56u64) & 0xff < 256) by (bit_vector);
    }
    assert((n & 0xff) | (((n >> 8u64) & 0xff) << 8u64) | (((n >> 16u64) & 0xff) << 16u64) | (((n
        >> 24u64) & 0xff) << 24u64) | (((n >> 32u64) & 0xff) << 32u64) | (((n >> 40u64) & 0xff)
        << 40u64) | (((n >> 48u64) & 0xff) << 48u64) | (((n >> 56u64) & 0xff) << 56u64) == n)
        by (bit_vector);
}

/// A request framed for service `service_id` with `payload` reads back, at
/// the server, as exactly that service id and that payload.
pub proof fn lemma_request_round_trip(service_id: u64, payload: Seq<u8>)
    ensures
        request_service(request_frame(service_id, payload)) == service_id,
        request_payload(request_frame(service_id, payload)) == payload,
{
    let f = request_frame(service_id, payload);
    lemma_le_round_trip(service_id);
    assert(f.subrange(0, 8) =~= le_bytes(service_id));
    assert(le_value(f) == le_value(le_bytes(service_id)));
    assert(request_payload(f) =~= payload);
}

/// A handler's result, framed at the server and read at the client, comes
/// back unchanged: the payload without its status byte on success, the
/// same request error otherwise.
pub proof fn lemma_response_round_trip(res: Result<Seq<u8>, RPCRequestError>)
    ensures
        response_result(response_frame(res)) == res,
{
    match res {
        Ok(p) => {
            assert((seq![STATUS_OK] + p).drop_first() =~= p);
        },
        Err(e) => {},
    }
}

} // verus!
