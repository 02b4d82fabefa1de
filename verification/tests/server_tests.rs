//! End-to-end scenarios against the server state machine, driven with the
//! same byte frames a socket would carry.

use nbd::blocks::MemBlocks;
use nbd::frames::{parse_simple_reply, Request};
use nbd::proto::{
    ErrorType, ProtocolError, SessionError, CMD_DISCONNECT, CMD_FLUSH, CMD_READ, CMD_TRIM,
    CMD_WRITE, INFO_BLOCK_SIZE, INFO_NAME, OPT_ABORT, OPT_EXPORT_NAME, OPT_GO, OPT_INFO, OPT_LIST,
};
use nbd::server::{Export, HaggleStep, Server, BUF_SIZE};

const MIB_10: u64 = 10_485_760;

fn mem_server(size: usize) -> Server<MemBlocks> {
    let export = Export {
        name: b"default".to_vec(),
        file: MemBlocks::new(vec![0u8; size]),
    };
    Server::new(export)
}

fn req(typ: u16, handle: u64, offset: u64, len: u32) -> Request {
    Request {
        flags: 0,
        typ,
        handle,
        offset,
        len,
    }
}

fn simple_reply_bytes(code: u32, handle: u64) -> Vec<u8> {
    let mut out: Vec<u8> = Vec::new();
    out.extend_from_slice(&0x67446698u32.to_be_bytes());
    out.extend_from_slice(&code.to_be_bytes());
    out.extend_from_slice(&handle.to_be_bytes());
    out
}

fn opt_reply_bytes(typ: u32, reply_typ: u32, data: &[u8]) -> Vec<u8> {
    let mut out: Vec<u8> = Vec::new();
    out.extend_from_slice(&0x3e889045565a9u64.to_be_bytes());
    out.extend_from_slice(&typ.to_be_bytes());
    out.extend_from_slice(&reply_typ.to_be_bytes());
    out.extend_from_slice(&(data.len() as u32).to_be_bytes());
    out.extend_from_slice(data);
    out
}

fn info_payload(name: &[u8], typs: &[u16]) -> Vec<u8> {
    let mut d: Vec<u8> = Vec::new();
    d.extend_from_slice(&(name.len() as u32).to_be_bytes());
    d.extend_from_slice(name);
    d.extend_from_slice(&(typs.len() as u16).to_be_bytes());
    for t in typs {
        d.extend_from_slice(&t.to_be_bytes());
    }
    d
}

#[test]
fn test_hello_bytes() {
    let hello = Server::<MemBlocks>::hello();
    let mut expect: Vec<u8> = Vec::new();
    expect.extend_from_slice(b"NBDMAGIC");
    expect.extend_from_slice(b"IHAVEOPT");
    expect.extend_from_slice(&3u16.to_be_bytes());
    assert_eq!(hello, expect);
}

#[test]
fn test_check_client_flags() {
    assert_eq!(Server::<MemBlocks>::check_client_flags(0x3), Ok(0x3));
    assert_eq!(Server::<MemBlocks>::check_client_flags(0x1), Ok(0x1));
    assert_eq!(
        Server::<MemBlocks>::check_client_flags(0x0),
        Err(ProtocolError::NoFixedNewstyle)
    );
    assert_eq!(
        Server::<MemBlocks>::check_client_flags(0x2),
        Err(ProtocolError::NoFixedNewstyle)
    );
    assert_eq!(
        Server::<MemBlocks>::check_client_flags(0x8),
        Err(ProtocolError::BadHandshakeFlags)
    );
}

#[test]
fn test_transmit_flags() {
    assert_eq!(Server::<MemBlocks>::TRANSMIT_FLAGS(), 0x9);
}

// Handshake with a memory export of 10 MiB: the client sends
// C_FIXED_NEWSTYLE | C_NO_ZEROES, then EXPORT_NAME "default"; the server
// answers with the size, transmit flags 0x9, and no trailing zeroes.
#[test]
fn test_handshake_memory_export() {
    let server = mem_server(MIB_10 as usize);
    let flags = Server::<MemBlocks>::check_client_flags(0x3).expect("flags accepted");
    let mut out: Vec<u8> = Vec::new();
    let step = server
        .handle_option(OPT_EXPORT_NAME, &b"default".to_vec(), flags, &mut out)
        .expect("export accepted");
    assert_eq!(step, HaggleStep::Transmit);
    let mut expect: Vec<u8> = Vec::new();
    expect.extend_from_slice(&MIB_10.to_be_bytes());
    expect.extend_from_slice(&0x9u16.to_be_bytes());
    assert_eq!(out, expect);
}

// Without NO_ZEROES negotiated, the export-name reply carries 124 zeroes.
#[test]
fn test_handshake_with_zero_pad() {
    let server = mem_server(1024);
    let flags = Server::<MemBlocks>::check_client_flags(0x1).expect("flags accepted");
    let mut out: Vec<u8> = Vec::new();
    server
        .handle_option(OPT_EXPORT_NAME, &b"default".to_vec(), flags, &mut out)
        .expect("export accepted");
    assert_eq!(out.len(), 8 + 2 + 124);
    assert_eq!(&out[10..], &[0u8; 124]);
}

#[test]
fn test_export_name_rejects_non_utf8() {
    let server = mem_server(1024);
    let mut out: Vec<u8> = Vec::new();
    let r = server.handle_option(OPT_EXPORT_NAME, &vec![0xff, 0xfe], 0x3, &mut out);
    assert_eq!(
        r,
        Err(SessionError::Protocol(ProtocolError::BadExportName))
    );
    assert!(out.is_empty());
}

// Round-trip write then read: offset 4096, 512 bytes of 0xAB. The write
// reply is OK and the read returns exactly the written bytes; both replies
// echo their request's handle.
#[test]
fn test_write_read_round_trip() {
    let mut server = mem_server(MIB_10 as usize);
    let data = vec![0xABu8; 512];
    let mut out: Vec<u8> = Vec::new();
    let cont = server
        .handle_request(&req(CMD_WRITE, 11, 4096, 512), &data, &mut out)
        .expect("write handled");
    assert!(cont);
    assert_eq!(out, simple_reply_bytes(0, 11));

    let mut out2: Vec<u8> = Vec::new();
    let cont2 = server
        .handle_request(&req(CMD_READ, 12, 4096, 512), &Vec::new(), &mut out2)
        .expect("read handled");
    assert!(cont2);
    let mut expect = simple_reply_bytes(0, 12);
    expect.extend_from_slice(&data);
    assert_eq!(out2, expect);
}

// Bounds overflow: with a 10 MiB export, read(10_485_750, 100) earns a
// non-OK reply with no payload and changes nothing; a later valid read
// still succeeds.
#[test]
fn test_bounds_overflow() {
    let mut server = mem_server(MIB_10 as usize);
    let mut out: Vec<u8> = Vec::new();
    let cont = server
        .handle_request(&req(CMD_READ, 5, 10_485_750, 100), &Vec::new(), &mut out)
        .expect("read handled");
    assert!(cont);
    assert_eq!(out, simple_reply_bytes(22, 5)); // EINVAL
    let rep = parse_simple_reply(&out).expect("reply parses");
    assert_eq!(rep.err, ErrorType::EINVAL);
    assert_eq!(rep.handle, 5);

    let mut out2: Vec<u8> = Vec::new();
    server
        .handle_request(&req(CMD_READ, 6, 0, 16), &Vec::new(), &mut out2)
        .expect("read handled");
    let mut expect = simple_reply_bytes(0, 6);
    expect.extend_from_slice(&[0u8; 16]);
    assert_eq!(out2, expect);
}

// A write past the end is rejected and does not modify the export.
#[test]
fn test_bounds_rejection_write_no_modify() {
    let mut server = mem_server(64);
    let mut out: Vec<u8> = Vec::new();
    server
        .handle_request(&req(CMD_WRITE, 1, 60, 8), &vec![9u8; 8], &mut out)
        .expect("write handled");
    assert_eq!(out, simple_reply_bytes(22, 1));

    let mut out2: Vec<u8> = Vec::new();
    server
        .handle_request(&req(CMD_READ, 2, 56, 8), &Vec::new(), &mut out2)
        .expect("read handled");
    let mut expect = simple_reply_bytes(0, 2);
    expect.extend_from_slice(&[0u8; 8]);
    assert_eq!(out2, expect);
}

// A write that ends exactly at the export's size succeeds.
#[test]
fn test_write_touching_final_byte() {
    let mut server = mem_server(64);
    let mut out: Vec<u8> = Vec::new();
    server
        .handle_request(&req(CMD_WRITE, 3, 56, 8), &vec![5u8; 8], &mut out)
        .expect("write handled");
    assert_eq!(out, simple_reply_bytes(0, 3));
}

// A request longer than the request buffer earns EOVERFLOW.
#[test]
fn test_request_buffer_overflow() {
    let mut server = mem_server(BUF_SIZE * 2);
    let len = (BUF_SIZE + 1) as u32;
    let mut out: Vec<u8> = Vec::new();
    server
        .handle_request(&req(CMD_READ, 4, 0, len), &Vec::new(), &mut out)
        .expect("read handled");
    assert_eq!(out, simple_reply_bytes(75, 4)); // EOVERFLOW
}

// Flush round-trip: after several writes, flush returns OK and the contents
// match the expected image.
#[test]
fn test_flush_round_trip() {
    let mut server = mem_server(256);
    let mut out: Vec<u8> = Vec::new();
    server
        .handle_request(&req(CMD_WRITE, 1, 0, 4), &vec![1, 2, 3, 4], &mut out)
        .expect("write handled");
    out.clear();
    server
        .handle_request(&req(CMD_WRITE, 2, 100, 2), &vec![9, 9], &mut out)
        .expect("write handled");
    out.clear();
    server
        .handle_request(&req(CMD_WRITE, 6, 2, 3), &vec![7, 8, 7], &mut out)
        .expect("write handled");
    out.clear();
    let cont = server
        .handle_request(&req(CMD_FLUSH, 3, 0, 0), &Vec::new(), &mut out)
        .expect("flush handled");
    assert!(cont);
    assert_eq!(out, simple_reply_bytes(0, 3));
    // a second flush succeeds and alters nothing readable
    out.clear();
    server
        .handle_request(&req(CMD_FLUSH, 4, 0, 0), &Vec::new(), &mut out)
        .expect("flush handled");
    assert_eq!(out, simple_reply_bytes(0, 4));

    let mut image = vec![0u8; 256];
    image[0..4].copy_from_slice(&[1, 2, 3, 4]);
    image[100..102].copy_from_slice(&[9, 9]);
    image[2..5].copy_from_slice(&[7, 8, 7]);
    out.clear();
    server
        .handle_request(&req(CMD_READ, 5, 0, 256), &Vec::new(), &mut out)
        .expect("read handled");
    let mut expect = simple_reply_bytes(0, 5);
    expect.extend_from_slice(&image);
    assert_eq!(out, expect);
}

// INFO with [BLOCK_SIZE]: a BLOCK_SIZE info reply (min 1, preferred 4096,
// max 131072), the mandatory EXPORT info reply, then ACK. GO answers the
// same and enters transmission.
#[test]
fn test_info_and_go() {
    let server = mem_server(MIB_10 as usize);
    let payload = info_payload(b"default", &[INFO_BLOCK_SIZE]);

    let mut block_size_data: Vec<u8> = Vec::new();
    block_size_data.extend_from_slice(&INFO_BLOCK_SIZE.to_be_bytes());
    block_size_data.extend_from_slice(&1u32.to_be_bytes());
    block_size_data.extend_from_slice(&4096u32.to_be_bytes());
    block_size_data.extend_from_slice(&131072u32.to_be_bytes());
    let mut export_data: Vec<u8> = Vec::new();
    export_data.extend_from_slice(&0u16.to_be_bytes());
    export_data.extend_from_slice(&MIB_10.to_be_bytes());
    export_data.extend_from_slice(&0x9u16.to_be_bytes());

    for (opt, step) in [(OPT_INFO, HaggleStep::Continue), (OPT_GO, HaggleStep::Transmit)] {
        let mut out: Vec<u8> = Vec::new();
        let got = server
            .handle_option(opt, &payload, 0x3, &mut out)
            .expect("info accepted");
        assert_eq!(got, step);
        let mut expect = opt_reply_bytes(opt, 3, &block_size_data);
        expect.extend_from_slice(&opt_reply_bytes(opt, 3, &export_data));
        expect.extend_from_slice(&opt_reply_bytes(opt, 1, &[]));
        assert_eq!(out, expect);
    }
}

// A request for the export's NAME is unsupported: ERR_UNSUP, no ACK.
#[test]
fn test_info_name_unsupported() {
    let server = mem_server(1024);
    let payload = info_payload(b"default", &[INFO_NAME]);
    let mut out: Vec<u8> = Vec::new();
    let step = server
        .handle_option(OPT_INFO, &payload, 0x3, &mut out)
        .expect("info handled");
    assert_eq!(step, HaggleStep::Continue);
    assert_eq!(out, opt_reply_bytes(OPT_INFO, 0x80000001, &[]));
}

#[test]
fn test_list_option() {
    let server = mem_server(1024);
    let mut out: Vec<u8> = Vec::new();
    let step = server
        .handle_option(OPT_LIST, &Vec::new(), 0x3, &mut out)
        .expect("list handled");
    assert_eq!(step, HaggleStep::Continue);
    let mut entry: Vec<u8> = Vec::new();
    entry.extend_from_slice(&7u32.to_be_bytes());
    entry.extend_from_slice(b"default");
    let mut expect = opt_reply_bytes(OPT_LIST, 2, &entry);
    expect.extend_from_slice(&opt_reply_bytes(OPT_LIST, 1, &[]));
    assert_eq!(out, expect);
}

#[test]
fn test_abort_option() {
    let server = mem_server(1024);
    let mut out: Vec<u8> = Vec::new();
    let step = server
        .handle_option(OPT_ABORT, &Vec::new(), 0x3, &mut out)
        .expect("abort handled");
    assert_eq!(step, HaggleStep::Abort);
    assert!(out.is_empty());
}

#[test]
fn test_unknown_option_unsupported() {
    let server = mem_server(1024);
    let mut out: Vec<u8> = Vec::new();
    let step = server
        .handle_option(0xdead, &Vec::new(), 0x3, &mut out)
        .expect("unknown option handled");
    assert_eq!(step, HaggleStep::Continue);
    assert_eq!(out, opt_reply_bytes(0xdead, 0x80000001, &[]));
}

// Graceful disconnect: no reply, session over.
#[test]
fn test_graceful_disconnect() {
    let mut server = mem_server(1024);
    let mut out: Vec<u8> = Vec::new();
    let cont = server
        .handle_request(&req(CMD_DISCONNECT, 9, 0, 0), &Vec::new(), &mut out)
        .expect("disconnect handled");
    assert!(!cont);
    assert!(out.is_empty());
}

#[test]
fn test_trim_is_noop() {
    let mut server = mem_server(1024);
    let mut out: Vec<u8> = Vec::new();
    let cont = server
        .handle_request(&req(CMD_TRIM, 10, 0, 64), &Vec::new(), &mut out)
        .expect("trim handled");
    assert!(cont);
    assert_eq!(out, simple_reply_bytes(0, 10));
}

#[test]
fn test_unknown_command() {
    let mut server = mem_server(1024);
    let mut out: Vec<u8> = Vec::new();
    let cont = server
        .handle_request(&req(9, 13, 0, 0), &Vec::new(), &mut out)
        .expect("unknown command handled");
    assert!(!cont);
    assert_eq!(out, simple_reply_bytes(95, 13)); // ENOTSUP
}

// Order preservation: N pipelined writes followed by N reads at the same
// offsets; the i-th read reply returns the i-th written payload, in order.
#[test]
fn test_order_preservation() {
    let mut server = mem_server(4096);
    let writes: Vec<(u64, Vec<u8>)> = vec![
        (0, vec![1u8; 16]),
        (100, vec![2u8; 32]),
        (2000, vec![3u8; 8]),
    ];
    let mut handle: u64 = 0;
    let mut out: Vec<u8> = Vec::new();
    for (off, data) in &writes {
        server
            .handle_request(
                &req(CMD_WRITE, handle, *off, data.len() as u32),
                data,
                &mut out,
            )
            .expect("write handled");
        handle += 1;
    }
    for (i, (off, data)) in writes.iter().enumerate() {
        server
            .handle_request(
                &req(CMD_READ, handle, *off, data.len() as u32),
                &Vec::new(),
                &mut out,
            )
            .expect("read handled");
        handle += 1;
        let _ = i;
    }
    // replies came out in request order: 3 write acks, then 3 read replies
    let mut expect: Vec<u8> = Vec::new();
    for h in 0..3u64 {
        expect.extend_from_slice(&simple_reply_bytes(0, h));
    }
    for (i, (_, data)) in writes.iter().enumerate() {
        expect.extend_from_slice(&simple_reply_bytes(0, 3 + i as u64));
        expect.extend_from_slice(data);
    }
    assert_eq!(out, expect);
}
