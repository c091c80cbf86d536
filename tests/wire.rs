use bifrost_core::wire::{decode_res, encode_res, prepend_u64, read_u64_head, RPCError, RPCRequestError};

#[test]
fn prepend_writes_little_endian_head() {
    let framed = prepend_u64(1_000_000, vec![7, 8, 9]);
    assert_eq!(framed, vec![0x40, 0x42, 0x0f, 0, 0, 0, 0, 0, 7, 8, 9]);
}

#[test]
fn read_head_splits_id_and_payload() {
    let (id, payload) = read_u64_head(vec![1, 2, 0, 0, 0, 0, 0, 0x80, b'h', b'i']);
    assert_eq!(id, 0x8000_0000_0000_0201);
    assert_eq!(payload, vec![b'h', b'i']);
}

#[test]
fn request_round_trip() {
    for &(id, ref payload) in &[(0u64, vec![]), (42u64, vec![1u8, 2, 3]), (u64::MAX, vec![255u8; 20])] {
        let (back_id, back_payload) = read_u64_head(prepend_u64(id, payload.clone()));
        assert_eq!(back_id, id);
        assert_eq!(&back_payload, payload);
    }
}

#[test]
fn head_only_request_has_empty_payload() {
    let (id, payload) = read_u64_head(prepend_u64(5, vec![]));
    assert_eq!(id, 5);
    assert!(payload.is_empty());
}

#[test]
fn encode_success_prefixes_status_zero() {
    assert_eq!(encode_res(Ok(vec![4, 5])), vec![0, 4, 5]);
    assert_eq!(encode_res(Ok(vec![])), vec![0]);
}

#[test]
fn encode_errors_as_status_bytes() {
    assert_eq!(encode_res(Err(RPCRequestError::FunctionIdNotFound)), vec![1]);
    assert_eq!(encode_res(Err(RPCRequestError::ServiceIdNotFound)), vec![2]);
    assert_eq!(encode_res(Err(RPCRequestError::Other)), vec![255]);
}

#[test]
fn decode_success_strips_status() {
    match decode_res(Ok(vec![0, 9, 8])) {
        Ok(p) => assert_eq!(p, vec![9, 8]),
        Err(e) => panic!("unexpected {:?}", e),
    }
}

#[test]
fn decode_error_statuses() {
    assert!(matches!(decode_res(Ok(vec![1])), Err(RPCError::RequestError(RPCRequestError::FunctionIdNotFound))));
    assert!(matches!(decode_res(Ok(vec![2])), Err(RPCError::RequestError(RPCRequestError::ServiceIdNotFound))));
    assert!(matches!(decode_res(Ok(vec![255])), Err(RPCError::RequestError(RPCRequestError::Other))));
    assert!(matches!(decode_res(Ok(vec![17, 3])), Err(RPCError::RequestError(RPCRequestError::Other))));
    assert!(matches!(decode_res(Ok(vec![])), Err(RPCError::RequestError(RPCRequestError::Other))));
}

#[test]
fn decode_passes_transport_failure_on() {
    let e = std::io::Error::new(std::io::ErrorKind::ConnectionReset, "reset");
    match decode_res(Err(e)) {
        Err(RPCError::IOError(e)) => assert_eq!(e.kind(), std::io::ErrorKind::ConnectionReset),
        other => panic!("unexpected {:?}", other),
    }
}

#[test]
fn response_round_trip() {
    let out = decode_res(Ok(encode_res(Ok(vec![1, 2, 3])))).unwrap();
    assert_eq!(out, vec![1, 2, 3]);
    for e in [RPCRequestError::FunctionIdNotFound, RPCRequestError::ServiceIdNotFound, RPCRequestError::Other] {
        match decode_res(Ok(encode_res(Err(e)))) {
            Err(RPCError::RequestError(back)) => assert_eq!(back, e),
            other => panic!("unexpected {:?}", other),
        }
    }
}
