use wvst_bridge_server::control_frame_codec::{
    concat_frames, decode_batch, decode_header, encode_frame, encode_header,
    WORKER_CONTROL_IPC_HEADER_LEN,
};
use wvst_bridge_server::worker_control_frame::{WorkerControlIpcHeader, WorkerControlMessageKind};

#[test]
fn encodes_headers_in_the_worker_wire_layout() {
    let header = WorkerControlIpcHeader::new(WorkerControlMessageKind::Response, 4220, 7, 3);
    let mut bytes = Vec::new();
    encode_header(&header, &mut bytes);
    assert_eq!(bytes.len(), WORKER_CONTROL_IPC_HEADER_LEN);
    assert_eq!(&bytes[0..4], b"WVCI");
    assert_eq!(
        bytes,
        vec![
            b'W', b'V', b'C', b'I', 1, 0, 24, 0, 2, 0, 0x7c, 0x10, 3, 0, 0, 0, 7, 0, 0, 0, 0, 0, 0, 0
        ]
    );
    assert_eq!(decode_header(&bytes), Ok(header));
}

#[test]
fn rejects_malformed_headers() {
    let header = WorkerControlIpcHeader::new(WorkerControlMessageKind::Request, 0, u64::MAX, 9);
    let mut bytes = Vec::new();
    encode_header(&header, &mut bytes);
    assert_eq!(decode_header(&bytes), Ok(header));

    assert_eq!(
        decode_header(&bytes[..10]),
        Err("worker control IPC header too short: expected 24 bytes, got 10".to_string())
    );
    let mut bad = bytes.clone();
    bad[0] = b'X';
    assert_eq!(decode_header(&bad), Err("invalid worker control IPC magic".to_string()));
    let mut bad = bytes.clone();
    bad[4] = 2;
    assert_eq!(
        decode_header(&bad),
        Err("unsupported worker control IPC version 2".to_string())
    );
    let mut bad = bytes.clone();
    bad[6] = 32;
    assert_eq!(
        decode_header(&bad),
        Err("invalid worker control IPC header length 32".to_string())
    );
    let mut bad = bytes.clone();
    bad[8] = 9;
    assert_eq!(
        decode_header(&bad),
        Err("unknown worker control IPC message kind 9".to_string())
    );
}

#[test]
fn splits_batches_into_their_messages() {
    let first = encode_frame(WorkerControlMessageKind::Response, 0, 5, b"{\"a\":1}").expect("frame");
    let second = encode_frame(WorkerControlMessageKind::ErrorResponse, 4220, 6, b"").expect("frame");
    assert_eq!(first.len(), WORKER_CONTROL_IPC_HEADER_LEN + 7);
    let body = concat_frames(&vec![first.clone(), second.clone()]);
    assert_eq!(body.len(), first.len() + second.len());

    let messages = decode_batch(&body).expect("batch");
    assert_eq!(messages.len(), 2);
    assert_eq!(
        messages[0].0,
        WorkerControlIpcHeader::new(WorkerControlMessageKind::Response, 0, 5, 7)
    );
    assert_eq!(messages[0].1, b"{\"a\":1}".to_vec());
    assert_eq!(
        messages[1].0,
        WorkerControlIpcHeader::new(WorkerControlMessageKind::ErrorResponse, 4220, 6, 0)
    );
    assert!(messages[1].1.is_empty());

    assert_eq!(decode_batch(&[]).expect("empty batch").len(), 0);
    assert_eq!(
        decode_batch(&body[..body.len() - 1 - WORKER_CONTROL_IPC_HEADER_LEN]),
        Err("truncated worker control IPC batch".to_string())
    );
}
