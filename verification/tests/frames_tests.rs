//! Tests of the frame codec: error codes, option frames, requests, replies,
//! and the `INFO`/`GO` payload parser.

use nbd::frames::{
    parse_info_request, parse_opt_header, parse_request, parse_simple_reply, put_simple_reply,
    utf8_valid, Opt, OptReply, Request,
};
use nbd::proto::{
    ErrorType, IoErrorKind, ProtocolError, CMD_READ, CMD_WRITE, INFO_BLOCK_SIZE, INFO_NAME,
    OPT_LIST,
};

fn info_payload(name: &[u8], typs: &[u16]) -> Vec<u8> {
    let mut d: Vec<u8> = Vec::new();
    d.extend_from_slice(&(name.len() as u32).to_be_bytes());
    d.extend_from_slice(name);
    d.extend_from_slice(&(typs.len() as u16).to_be_bytes());
    for t in typs {
        d.extend_from_slice(&t.to_be_bytes());
    }
    d
}

#[test]
fn test_error_wire_codes() {
    let cases = [
        (ErrorType::OK, 0u32),
        (ErrorType::EPERM, 1),
        (ErrorType::EIO, 5),
        (ErrorType::ENOMEM, 12),
        (ErrorType::EINVAL, 22),
        (ErrorType::ENOSPC, 28),
        (ErrorType::EOVERFLOW, 75),
        (ErrorType::ENOTSUP, 95),
        (ErrorType::ESHUTDOWN, 108),
    ];
    for (e, c) in cases {
        assert_eq!(e.wire_code(), c);
        assert_eq!(ErrorType::from_wire_code(c), Some(e));
    }
    assert_eq!(ErrorType::from_wire_code(7), None);
}

#[test]
fn test_from_io_kind() {
    assert_eq!(
        ErrorType::from_io_kind(IoErrorKind::PermissionDenied),
        ErrorType::EPERM
    );
    assert_eq!(ErrorType::from_io_kind(IoErrorKind::NotFound), ErrorType::EINVAL);
    assert_eq!(
        ErrorType::from_io_kind(IoErrorKind::InvalidInput),
        ErrorType::EINVAL
    );
    assert_eq!(
        ErrorType::from_io_kind(IoErrorKind::StorageFull),
        ErrorType::ENOSPC
    );
    assert_eq!(ErrorType::from_io_kind(IoErrorKind::Other), ErrorType::EIO);
}

#[test]
fn test_opt_put_and_parse_header() {
    let opt = Opt {
        typ: OPT_LIST,
        data: vec![9, 8, 7],
    };
    let mut out: Vec<u8> = Vec::new();
    opt.put(&mut out);
    assert_eq!(out.len(), 19);
    assert_eq!(&out[0..8], b"IHAVEOPT");
    let header = out[0..16].to_vec();
    let (typ, datalen) = parse_opt_header(&header).expect("valid header");
    assert_eq!(typ, OPT_LIST);
    assert_eq!(datalen, 3);
    assert_eq!(&out[16..], &[9, 8, 7]);
}

#[test]
fn test_opt_header_bad_magic() {
    let mut header = vec![0u8; 16];
    header[0] = 0x42;
    assert_eq!(parse_opt_header(&header), Err(ProtocolError::BadOptMagic));
}

#[test]
fn test_opt_reply_layout() {
    let rep = OptReply::new(OPT_LIST, 1, vec![0xaa]);
    let mut out: Vec<u8> = Vec::new();
    rep.put(&mut out);
    let mut expect: Vec<u8> = Vec::new();
    expect.extend_from_slice(&0x3e889045565a9u64.to_be_bytes());
    expect.extend_from_slice(&OPT_LIST.to_be_bytes());
    expect.extend_from_slice(&1u32.to_be_bytes());
    expect.extend_from_slice(&1u32.to_be_bytes());
    expect.push(0xaa);
    assert_eq!(out, expect);
}

#[test]
fn test_request_round_trip() {
    let req = Request {
        flags: 0,
        typ: CMD_WRITE,
        handle: 0xfeedface,
        offset: 4096,
        len: 512,
    };
    let mut out: Vec<u8> = Vec::new();
    req.put(&mut out);
    assert_eq!(out.len(), 28);
    assert_eq!(&out[0..4], &0x25609513u32.to_be_bytes());
    let parsed = parse_request(&out).expect("valid request");
    assert_eq!(parsed, req);
}

#[test]
fn test_request_bad_magic() {
    let req = Request {
        flags: 0,
        typ: CMD_READ,
        handle: 1,
        offset: 0,
        len: 0,
    };
    let mut out: Vec<u8> = Vec::new();
    req.put(&mut out);
    out[0] = 0;
    assert_eq!(parse_request(&out), Err(ProtocolError::BadRequestMagic));
}

#[test]
fn test_simple_reply_round_trip() {
    let mut out: Vec<u8> = Vec::new();
    put_simple_reply(&mut out, ErrorType::EINVAL, 77);
    assert_eq!(out.len(), 16);
    assert_eq!(&out[0..4], &0x67446698u32.to_be_bytes());
    assert_eq!(&out[4..8], &22u32.to_be_bytes());
    let rep = parse_simple_reply(&out).expect("valid reply");
    assert_eq!(rep.err, ErrorType::EINVAL);
    assert_eq!(rep.handle, 77);
}

#[test]
fn test_simple_reply_bad_magic_and_code() {
    let mut out: Vec<u8> = Vec::new();
    put_simple_reply(&mut out, ErrorType::OK, 1);
    let mut bad_magic = out.clone();
    bad_magic[0] = 0;
    assert_eq!(
        parse_simple_reply(&bad_magic),
        Err(ProtocolError::BadReplyMagic)
    );
    let mut bad_code = out.clone();
    bad_code[7] = 99;
    assert_eq!(
        parse_simple_reply(&bad_code),
        Err(ProtocolError::BadErrorCode)
    );
}

#[test]
fn test_info_request_parse() {
    let d = info_payload(b"default", &[INFO_BLOCK_SIZE]);
    let ir = parse_info_request(&d).expect("well formed");
    assert_eq!(ir.name, b"default".to_vec());
    assert_eq!(ir.typs, vec![INFO_BLOCK_SIZE]);
}

#[test]
fn test_info_request_empty_name_no_typs() {
    let d = info_payload(b"", &[]);
    let ir = parse_info_request(&d).expect("well formed");
    assert_eq!(ir.name, Vec::<u8>::new());
    assert_eq!(ir.typs, Vec::<u16>::new());
}

#[test]
fn test_info_request_malformed() {
    // too short
    assert!(matches!(
        parse_info_request(&vec![0u8; 5]),
        Err(ProtocolError::BadInfoRequest)
    ));
    // trailing garbage
    let mut d = info_payload(b"x", &[INFO_NAME]);
    d.push(0);
    assert!(matches!(
        parse_info_request(&d),
        Err(ProtocolError::BadInfoRequest)
    ));
    // name length reaching past the end
    let mut d2 = info_payload(b"abc", &[]);
    d2[3] = 200;
    assert!(matches!(
        parse_info_request(&d2),
        Err(ProtocolError::BadInfoRequest)
    ));
    // an info type that names nothing
    let d3 = info_payload(b"d", &[9]);
    assert!(matches!(
        parse_info_request(&d3),
        Err(ProtocolError::BadInfoRequest)
    ));
}

#[test]
fn test_info_request_non_utf8_name() {
    let d = info_payload(&[0xff, 0xfe], &[]);
    assert!(matches!(
        parse_info_request(&d),
        Err(ProtocolError::BadExportName)
    ));
}

#[test]
fn test_utf8_valid() {
    assert!(utf8_valid(&b"default".to_vec()));
    assert!(utf8_valid(&"bl\u{00e9}".as_bytes().to_vec()));
    assert!(!utf8_valid(&vec![0xff, 0xfe]));
}
