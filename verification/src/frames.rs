//! The framed structures of the NBD protocol.
//!
//! Each frame has a spec-level encoding (a function into `Seq<u8>`), an exec
//! `put` that appends exactly that encoding, and, where the peer sends the
//! frame, a parser whose contract says exactly which buffers it accepts and
//! what it extracts from them.

use crate::proto::{
    ErrorType, ProtocolError, IHAVEOPT, INFO_BLOCK_SIZE, OPT_REPLY_MAGIC, REPLY_ACK, REQUEST_MAGIC,
    SIMPLE_REPLY_MAGIC,
};
use crate::wire::{
    get_u16_be, get_u32_be, get_u64_be, put_bytes, put_u16_be, put_u32_be, put_u64_be,
    spec_u16_at, spec_u16_be, spec_u32_at, spec_u32_be, spec_u64_at, spec_u64_be,
};
use vstd::prelude::*;
use vstd::utf8::valid_utf8;

verus! {

/// Whether `data` is valid UTF-8.
///
/// Relies on `core::str::from_utf8`, which returns `Ok` exactly when its
/// input is valid UTF-8, stated over vstd's model of UTF-8.
#[verifier::external_body]
pub fn utf8_valid(data: &Vec<u8>) -> (r: bool)
    ensures
        r == valid_utf8(data@),
{
    match core::str::from_utf8(data.as_slice()) {
        Ok(_) => true,
        Err(_) => false,
    }
}

/// An option sent by the client during haggling.
pub struct Opt {
    /// The option type (`OPT_EXPORT_NAME`, `OPT_LIST`, ...), kept raw so that
    /// unknown options can be answered with `REPLY_ERR_UNSUP`.
    pub typ: u32,
    /// The option's payload.
    pub data: Vec<u8>,
}

/// The encoding of an option frame:
/// `IHAVEOPT || type(32) || datalen(32) || data`.
pub open spec fn spec_opt_bytes(typ: u32, data: Seq<u8>) -> Seq<u8> {
    spec_u64_be(IHAVEOPT) + spec_u32_be(typ) + spec_u32_be(data.len() as u32) + data
}

impl Opt {
    /// Append this option's wire form.
    pub fn put(&self, out: &mut Vec<u8>)
        requires
            self.data@.len() <= u32::MAX,
        ensures
            final(out)@ == old(out)@ + spec_opt_bytes(self.typ, self.data@),
    {
        put_u64_be(out, IHAVEOPT);
        put_u32_be(out, self.typ);
        put_u32_be(out, self.data.len() as u32);
        put_bytes(out, &self.data);
        proof {
            assert(out@ =~= old(out)@ + spec_opt_bytes(self.typ, self.data@));
        }
    }
}

/// Read an option frame's fixed 16-byte header, yielding the option type and
/// the length of the payload that follows.
pub fn parse_opt_header(buf: &Vec<u8>) -> (r: Result<(u32, u32), ProtocolError>)
    requires
        buf.len() == 16,
    ensures
        r is Ok <==> spec_u64_at(buf@, 0) == IHAVEOPT,
        r matches Ok(t) ==> t.0 == spec_u32_at(buf@, 8) && t.1 == spec_u32_at(buf@, 12),
        r is Err ==> r == Err::<(u32, u32), ProtocolError>(ProtocolError::BadOptMagic),
{
    let magic = get_u64_be(buf, 0);
    if magic != IHAVEOPT {
        return Err(ProtocolError::BadOptMagic);
    }
    let typ = get_u32_be(buf, 8);
    let datalen = get_u32_be(buf, 12);
    Ok((typ, datalen))
}

/// A server reply to one option.
pub struct OptReply {
    /// The option type this reply answers.
    pub typ: u32,
    /// The reply type (`REPLY_ACK`, `REPLY_SERVER`, `REPLY_INFO`,
    /// `REPLY_ERR_UNSUP`).
    pub reply_typ: u32,
    /// The reply's payload.
    pub data: Vec<u8>,
}

/// The encoding of an option reply:
/// `reply-magic(64) || reply-to-type(32) || reply-type(32) || datalen(32) || data`.
pub open spec fn spec_opt_reply_bytes(typ: u32, reply_typ: u32, data: Seq<u8>) -> Seq<u8> {
    spec_u64_be(OPT_REPLY_MAGIC) + spec_u32_be(typ) + spec_u32_be(reply_typ) + spec_u32_be(
        data.len() as u32,
    ) + data
}

impl OptReply {
    /// A reply carrying `data`.
    pub fn new(typ: u32, reply_typ: u32, data: Vec<u8>) -> (r: OptReply)
        ensures
            r.typ == typ && r.reply_typ == reply_typ && r.data == data,
    {
        OptReply { typ, reply_typ, data }
    }

    /// The bare acknowledgement that ends a successful option.
    pub fn ack(typ: u32) -> (r: OptReply)
        ensures
            r.typ == typ && r.reply_typ == REPLY_ACK && r.data@ == Seq::<u8>::empty(),
    {
        let data: Vec<u8> = Vec::new();
        OptReply { typ, reply_typ: REPLY_ACK, data }
    }

    /// Append this reply's wire form.
    pub fn put(&self, out: &mut Vec<u8>)
        requires
            self.data@.len() <= u32::MAX,
        ensures
            final(out)@ == old(out)@ + spec_opt_reply_bytes(self.typ, self.reply_typ, self.data@),
    {
        put_u64_be(out, OPT_REPLY_MAGIC);
        put_u32_be(out, self.typ);
        put_u32_be(out, self.reply_typ);
        put_u32_be(out, self.data.len() as u32);
        put_bytes(out, &self.data);
        proof {
            assert(out@ =~= old(out)@ + spec_opt_reply_bytes(
                self.typ,
                self.reply_typ,
                self.data@,
            ));
        }
    }
}

/// A transmission-phase request.
#[derive(Clone, Copy, PartialEq, Eq, Structural, Debug)]
pub struct Request {
    /// Command flags (no flag is supported; echoed nowhere).
    pub flags: u16,
    /// The command, kept raw so that unknown commands can be answered with
    /// `ENOTSUP`.
    pub typ: u16,
    /// The client's opaque correlator, echoed verbatim in the reply.
    pub handle: u64,
    /// The byte offset the command applies to.
    pub offset: u64,
    /// The byte count the command applies to.
    pub len: u32,
}

/// The encoding of a request frame (28 bytes):
/// `request-magic(32) || flags(16) || command(16) || handle(64) || offset(64) || length(32)`.
pub open spec fn spec_request_bytes(req: Request) -> Seq<u8> {
    spec_u32_be(REQUEST_MAGIC) + spec_u16_be(req.flags) + spec_u16_be(req.typ) + spec_u64_be(
        req.handle,
    ) + spec_u64_be(req.offset) + spec_u32_be(req.len)
}

/// The number of bytes in a request frame.
pub const REQUEST_BYTES: usize = 28;

impl Request {
    /// Append this request's wire form (the payload of a write follows
    /// separately).
    pub fn put(&self, out: &mut Vec<u8>)
        ensures
            final(out)@ == old(out)@ + spec_request_bytes(*self),
    {
        put_u32_be(out, REQUEST_MAGIC);
        put_u16_be(out, self.flags);
        put_u16_be(out, self.typ);
        put_u64_be(out, self.handle);
        put_u64_be(out, self.offset);
        put_u32_be(out, self.len);
        proof {
            assert(out@ =~= old(out)@ + spec_request_bytes(*self));
        }
    }
}

/// Decoding the encoding of a request gives the request back: an encoded
/// request frame is 28 bytes, carries the request magic, and every field
/// reads back unchanged — so a peer that parses the frame (as
/// [`parse_request`]'s contract describes, field by field) recovers exactly
/// the request that was sent.
pub proof fn lemma_request_round_trip(req: Request)
    ensures
        spec_request_bytes(req).len() == REQUEST_BYTES,
        spec_u32_at(spec_request_bytes(req), 0) == REQUEST_MAGIC,
        spec_u16_at(spec_request_bytes(req), 4) == req.flags,
        spec_u16_at(spec_request_bytes(req), 6) == req.typ,
        spec_u64_at(spec_request_bytes(req), 8) == req.handle,
        spec_u64_at(spec_request_bytes(req), 16) == req.offset,
        spec_u32_at(spec_request_bytes(req), 24) == req.len,
{
    let s = spec_request_bytes(req);
    assert(s.subrange(0, 4) =~= spec_u32_be(REQUEST_MAGIC));
    assert(s.subrange(4, 6) =~= spec_u16_be(req.flags));
    assert(s.subrange(6, 8) =~= spec_u16_be(req.typ));
    assert(s.subrange(8, 16) =~= spec_u64_be(req.handle));
    assert(s.subrange(16, 24) =~= spec_u64_be(req.offset));
    assert(s.subrange(24, 28) =~= spec_u32_be(req.len));
    crate::wire::lemma_u32_be_round_trip(REQUEST_MAGIC);
    crate::wire::lemma_u16_be_round_trip(req.flags);
    crate::wire::lemma_u16_be_round_trip(req.typ);
    crate::wire::lemma_u64_be_round_trip(req.handle);
    crate::wire::lemma_u64_be_round_trip(req.offset);
    crate::wire::lemma_u32_be_round_trip(req.len);
}

/// Read one request frame. A wrong magic is fatal to the session.
pub fn parse_request(buf: &Vec<u8>) -> (r: Result<Request, ProtocolError>)
    requires
        buf.len() == REQUEST_BYTES,
    ensures
        r is Ok <==> spec_u32_at(buf@, 0) == REQUEST_MAGIC,
        r matches Ok(req) ==> req == (Request {
            flags: spec_u16_at(buf@, 4),
            typ: spec_u16_at(buf@, 6),
            handle: spec_u64_at(buf@, 8),
            offset: spec_u64_at(buf@, 16),
            len: spec_u32_at(buf@, 24),
        }),
        r is Err ==> r == Err::<Request, ProtocolError>(ProtocolError::BadRequestMagic),
{
    let magic = get_u32_be(buf, 0);
    if magic != REQUEST_MAGIC {
        return Err(ProtocolError::BadRequestMagic);
    }
    Ok(
        Request {
            flags: get_u16_be(buf, 4),
            typ: get_u16_be(buf, 6),
            handle: get_u64_be(buf, 8),
            offset: get_u64_be(buf, 16),
            len: get_u32_be(buf, 24),
        },
    )
}

/// The header of a transmission-phase reply.
#[derive(Clone, Copy, PartialEq, Eq, Structural, Debug)]
pub struct SimpleReply {
    /// The outcome of the request.
    pub err: ErrorType,
    /// The correlator of the request being answered.
    pub handle: u64,
}

/// The encoding of a simple reply header (16 bytes):
/// `reply-magic(32) || errno(32) || handle(64)`.
/// A successful read's payload follows separately.
pub open spec fn spec_simple_reply_bytes(err_code: u32, handle: u64) -> Seq<u8> {
    spec_u32_be(SIMPLE_REPLY_MAGIC) + spec_u32_be(err_code) + spec_u64_be(handle)
}

/// The number of bytes in a simple reply header.
pub const SIMPLE_REPLY_BYTES: usize = 16;

/// Append a simple reply header.
pub fn put_simple_reply(out: &mut Vec<u8>, err: ErrorType, handle: u64)
    ensures
        final(out)@ == old(out)@ + spec_simple_reply_bytes(err.spec_wire_code(), handle),
{
    put_u32_be(out, SIMPLE_REPLY_MAGIC);
    put_u32_be(out, err.wire_code());
    put_u64_be(out, handle);
    proof {
        assert(out@ =~= old(out)@ + spec_simple_reply_bytes(err.spec_wire_code(), handle));
    }
}

/// Read one simple reply header.
pub fn parse_simple_reply(buf: &Vec<u8>) -> (r: Result<SimpleReply, ProtocolError>)
    requires
        buf.len() == SIMPLE_REPLY_BYTES,
    ensures
        r is Ok <==> spec_u32_at(buf@, 0) == SIMPLE_REPLY_MAGIC && ErrorType::spec_from_wire_code(
            spec_u32_at(buf@, 4),
        ) is Some,
        r matches Ok(rep) ==> Some(rep.err) == ErrorType::spec_from_wire_code(spec_u32_at(buf@, 4))
            && rep.handle == spec_u64_at(buf@, 8),
        r matches Err(e) ==> (e == ProtocolError::BadReplyMagic <==> spec_u32_at(buf@, 0)
            != SIMPLE_REPLY_MAGIC) && (e == ProtocolError::BadReplyMagic || e
            == ProtocolError::BadErrorCode),
{
    let magic = get_u32_be(buf, 0);
    if magic != SIMPLE_REPLY_MAGIC {
        return Err(ProtocolError::BadReplyMagic);
    }
    let err = match ErrorType::from_wire_code(get_u32_be(buf, 4)) {
        Some(e) => e,
        None => {
            return Err(ProtocolError::BadErrorCode);
        },
    };
    Ok(SimpleReply { err, handle: get_u64_be(buf, 8) })
}

/// The payload of an `INFO` or `GO` option.
pub struct InfoRequest {
    /// The export name the client asks about.
    pub name: Vec<u8>,
    /// The info types requested (each one of the four defined types).
    pub typs: Vec<u16>,
}

/// Whether an `INFO`/`GO` payload is structurally well formed:
/// `name-length(32) || name || info-count(16) || count * u16`, consumed
/// exactly, every requested type defined.
pub open spec fn spec_info_request_struct_wf(d: Seq<u8>) -> bool {
    &&& d.len() >= 6
    &&& {
        let nl = spec_u32_at(d, 0) as int;
        &&& nl <= d.len() - 6
        &&& {
            let cnt = spec_u16_at(d, 4 + nl) as int;
            &&& d.len() == 6 + nl + 2 * cnt
            &&& forall|i: int|
                0 <= i < cnt ==> #[trigger] spec_u16_at(d, 6 + nl + 2 * i) <= INFO_BLOCK_SIZE
        }
    }
}

/// The name carried by a structurally well-formed `INFO`/`GO` payload.
pub open spec fn spec_info_request_name(d: Seq<u8>) -> Seq<u8> {
    d.subrange(4, 4 + spec_u32_at(d, 0) as int)
}

/// Whether an `INFO`/`GO` payload is well formed: structurally sound with a
/// UTF-8 name.
pub open spec fn spec_info_request_wf(d: Seq<u8>) -> bool {
    spec_info_request_struct_wf(d) && valid_utf8(spec_info_request_name(d))
}

/// The info types carried by a structurally well-formed `INFO`/`GO` payload.
pub open spec fn spec_info_request_typs(d: Seq<u8>) -> Seq<u16> {
    let nl = spec_u32_at(d, 0) as int;
    Seq::new(spec_u16_at(d, 4 + nl) as nat, |i: int| spec_u16_at(d, 6 + nl + 2 * i))
}

/// Read an `INFO`/`GO` payload.
#[verifier::loop_isolation(false)]
pub fn parse_info_request(data: &Vec<u8>) -> (r: Result<InfoRequest, ProtocolError>)
    ensures
        r is Ok <==> spec_info_request_wf(data@),
        r matches Ok(ir) ==> ir.name@ == spec_info_request_name(data@) && ir.typs@
            == spec_info_request_typs(data@),
        r matches Err(e) ==> (e == ProtocolError::BadExportName <==> spec_info_request_struct_wf(
            data@,
        )) && (e == ProtocolError::BadExportName || e == ProtocolError::BadInfoRequest),
{
    if data.len() < 6 {
        return Err(ProtocolError::BadInfoRequest);
    }
    let nl32 = get_u32_be(data, 0);
    let nl = nl32 as usize;
    if nl > data.len() - 6 {
        return Err(ProtocolError::BadInfoRequest);
    }
    let cnt = get_u16_be(data, 4 + nl) as usize;
    if data.len() - 6 - nl != 2 * cnt {
        return Err(ProtocolError::BadInfoRequest);
    }
    let mut name: Vec<u8> = Vec::new();
    let mut i: usize = 0;
    while i < nl
        invariant
            i <= nl,
            nl + 6 <= data@.len(),
            name@ == data@.subrange(4, 4 + i as int),
        decreases nl - i,
    {
        name.push(data[4 + i]);
        i = i + 1;
        proof {
            assert(name@ =~= data@.subrange(4, 4 + i as int));
        }
    }
    let mut typs: Vec<u16> = Vec::new();
    let mut j: usize = 0;
    while j < cnt
        invariant
            j <= cnt,
            data@.len() == 6 + nl + 2 * cnt,
            typs@.len() == j,
            forall|k: int|
                0 <= k < j ==> typs@[k] == spec_u16_at(data@, 6 + nl + 2 * k)
                    && typs@[k] <= INFO_BLOCK_SIZE,
        decreases cnt - j,
    {
        let t = get_u16_be(data, 6 + nl + 2 * j);
        if t > INFO_BLOCK_SIZE {
            return Err(ProtocolError::BadInfoRequest);
        }
        typs.push(t);
        j = j + 1;
    }
    proof {
        assert(nl == spec_u32_at(data@, 0) as int);
        assert(cnt == spec_u16_at(data@, 4 + nl as int) as int);
        assert forall|k: int| 0 <= k < cnt implies #[trigger] spec_u16_at(
            data@,
            6 + spec_u32_at(data@, 0) as int + 2 * k,
        ) <= INFO_BLOCK_SIZE by {
            assert(typs@[k] == spec_u16_at(data@, 6 + nl + 2 * k));
            assert(typs@[k] <= INFO_BLOCK_SIZE);
        }
        assert(spec_info_request_struct_wf(data@));
        assert(name@ =~= spec_info_request_name(data@));
    }
    if !utf8_valid(&name) {
        return Err(ProtocolError::BadExportName);
    }
    proof {
        assert(typs@ =~= spec_info_request_typs(data@));
        assert(name@ =~= spec_info_request_name(data@));
    }
    Ok(InfoRequest { name, typs })
}

} // verus!
