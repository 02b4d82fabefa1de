//! The server side of the NBD protocol.
//!
//! Every decision the server takes — what the greeting says, how an option
//! is answered, what reply a request earns and how it changes the export —
//! is a function here from plain values to plain values, with a contract
//! that pins the produced bytes down. The surrounding process reads frames
//! from the socket, hands them in, and writes the returned bytes back out.

use crate::blocks::{spec_write_bytes, Blocks};
use crate::frames::{
    parse_info_request, put_simple_reply, spec_opt_reply_bytes, spec_simple_reply_bytes,
    utf8_valid, InfoRequest, OptReply, Request,
};
use crate::proto::{
    spec_valid_client_flags, ErrorType, ProtocolError, SessionError, CLIENT_FLAG_FIXED_NEWSTYLE,
    CLIENT_FLAG_NO_ZEROES, CMD_DISCONNECT,
    CMD_FLUSH, CMD_READ, CMD_TRIM, CMD_WRITE, FLAG_FIXED_NEWSTYLE, FLAG_NO_ZEROES, IHAVEOPT,
    INFO_BLOCK_SIZE, INFO_EXPORT, MAGIC, OPT_ABORT, OPT_EXPORT_NAME, OPT_GO, OPT_INFO, OPT_LIST,
    REPLY_ACK, REPLY_ERR_UNSUP, REPLY_INFO, REPLY_SERVER, TRANSMIT_FLAG_HAS_FLAGS,
    TRANSMIT_FLAG_SEND_FLUSH,
};
use crate::wire::{
    put_bytes, put_u16_be, put_u32_be, put_u64_be, put_zeroes, spec_u16_be, spec_u32_be,
    spec_u64_be,
};
use vstd::prelude::*;
use vstd::utf8::valid_utf8;

verus! {

/// The request buffer bound: a request whose length exceeds this is answered
/// with `EOVERFLOW`.
pub const BUF_SIZE: usize = 4096 * 64;

/// The block size ceiling advertised in a `BLOCK_SIZE` info reply; half the
/// request buffer, so a well-behaved client never trips the buffer bound.
pub const MAX_BLOCK_SIZE: u32 = 4096 * 32;

/// The preferred block size advertised in a `BLOCK_SIZE` info reply.
pub const PREFERRED_BLOCK_SIZE: u32 = 4096;

/// A store to be exported as a block device.
pub struct Export<F: Blocks> {
    /// The export's name (only used for listing).
    pub name: Vec<u8>,
    /// The store the export serves from.
    pub file: F,
}

impl<F: Blocks> Export<F> {
    /// Whether the export can be served: its name fits a length-prefixed
    /// list entry.
    pub open spec fn wf(&self) -> bool {
        self.name@.len() + 4 <= u32::MAX
    }

    /// Read `len` bytes at `off`, yielding the bytes read. A length beyond
    /// the request buffer is answered with `EOVERFLOW`; a range beyond the
    /// end of the store is rejected by the store.
    pub fn read(&mut self, off: u64, len: u32) -> (r: Result<Vec<u8>, ErrorType>)
        ensures
            final(self).name == old(self).name,
            final(self).file.contents() == old(self).file.contents(),
            final(self).file.reliable() == old(self).file.reliable(),
            len > BUF_SIZE ==> r == Err::<Vec<u8>, ErrorType>(ErrorType::EOVERFLOW),
            r matches Ok(data) ==> len <= BUF_SIZE && off + len <= old(self).file.contents().len()
                && data@ == old(self).file.contents().subrange(off as int, off + len),
            off + len > old(self).file.contents().len() ==> r is Err,
            old(self).file.reliable() && len <= BUF_SIZE && off + len <= old(
                self,
            ).file.contents().len() ==> r is Ok,
            old(self).file.reliable() && len <= BUF_SIZE && r is Err ==> r == Err::<
                Vec<u8>,
                ErrorType,
            >(ErrorType::EINVAL),
            r matches Err(e) ==> e != ErrorType::OK,
    {
        if len as usize > BUF_SIZE {
            return Err(ErrorType::EOVERFLOW);
        }
        let mut buf: Vec<u8> = vec![0u8; len as usize];
        match self.file.read_at(&mut buf, off) {
            Ok(()) => Ok(buf),
            Err(e) => Err(e),
        }
    }

    /// Write all of `data` at `off`. A payload beyond the request buffer is
    /// answered with `EOVERFLOW`; a range beyond the end of the store is
    /// rejected by the store.
    pub fn write(&mut self, off: u64, data: &Vec<u8>) -> (r: Result<(), ErrorType>)
        ensures
            final(self).name == old(self).name,
            final(self).file.reliable() == old(self).file.reliable(),
            final(self).file.contents().len() == old(self).file.contents().len(),
            data@.len() > BUF_SIZE ==> r == Err::<(), ErrorType>(ErrorType::EOVERFLOW),
            r is Ok ==> data@.len() <= BUF_SIZE && off + data@.len() <= old(
                self,
            ).file.contents().len() && final(self).file.contents() == spec_write_bytes(
                old(self).file.contents(),
                off as int,
                data@,
            ),
            r is Err ==> final(self).file.contents() == old(self).file.contents(),
            off + data@.len() > old(self).file.contents().len() ==> r is Err,
            old(self).file.reliable() && data@.len() <= BUF_SIZE && off + data@.len() <= old(
                self,
            ).file.contents().len() ==> r is Ok,
            old(self).file.reliable() && data@.len() <= BUF_SIZE && r is Err ==> r == Err::<
                (),
                ErrorType,
            >(ErrorType::EINVAL),
            r matches Err(e) ==> e != ErrorType::OK,
    {
        if data.len() > BUF_SIZE {
            return Err(ErrorType::EOVERFLOW);
        }
        self.file.write_at(data, off)
    }

    /// Flush the store; no readable byte changes.
    pub fn flush(&mut self) -> (r: Result<(), ErrorType>)
        ensures
            final(self).name == old(self).name,
            final(self).file.contents() == old(self).file.contents(),
            final(self).file.reliable() == old(self).file.reliable(),
            old(self).file.reliable() ==> r is Ok,
            r matches Err(e) ==> e != ErrorType::OK,
    {
        self.file.flush()
    }

    /// The export's size in bytes.
    pub fn size(&self) -> (r: Result<u64, ErrorType>)
        ensures
            r matches Ok(s) ==> s == self.file.contents().len(),
            self.file.reliable() ==> r is Ok,
            r matches Err(e) ==> e != ErrorType::OK,
    {
        self.file.size()
    }
}

/// What the haggling phase does after one option is handled.
#[derive(Clone, Copy, PartialEq, Eq, Structural, Debug)]
pub enum HaggleStep {
    /// Stay in the haggling phase.
    Continue,
    /// Enter the transmission phase.
    Transmit,
    /// The client asked to disconnect; close the connection.
    Abort,
}

/// The server's fixed greeting:
/// `MAGIC || IHAVEOPT || (FIXED_NEWSTYLE | NO_ZEROES)(16)`.
pub open spec fn spec_server_hello() -> Seq<u8> {
    spec_u64_be(MAGIC) + spec_u64_be(IHAVEOPT) + spec_u16_be(
        FLAG_FIXED_NEWSTYLE | FLAG_NO_ZEROES,
    )
}

/// The handshake flags negotiated from a client flag word that offers
/// fixed-newstyle: `NO_ZEROES` is taken over iff the client asked for it.
pub open spec fn spec_negotiated_flags(client_flags: u32) -> u16 {
    if client_flags & CLIENT_FLAG_NO_ZEROES != 0 {
        FLAG_FIXED_NEWSTYLE | FLAG_NO_ZEROES
    } else {
        FLAG_FIXED_NEWSTYLE
    }
}

/// The transmit flag word the server advertises.
pub open spec fn spec_transmit_flags() -> u16 {
    TRANSMIT_FLAG_HAS_FLAGS | TRANSMIT_FLAG_SEND_FLUSH
}

/// The reply that ends the legacy `EXPORT_NAME` haggle:
/// `size(64) || transmit-flags(16) || 124 zero bytes`, the zeroes omitted
/// iff `NO_ZEROES` was negotiated.
pub open spec fn spec_export_info_bytes(size: u64, flags: u16) -> Seq<u8> {
    spec_u64_be(size) + spec_u16_be(spec_transmit_flags()) + (if flags & FLAG_NO_ZEROES == 0 {
        Seq::new(124, |i: int| 0u8)
    } else {
        Seq::<u8>::empty()
    })
}

/// The reply to `LIST`: one `SERVER` entry carrying the length-prefixed
/// export name, then an acknowledgement.
pub open spec fn spec_export_list_bytes(name: Seq<u8>) -> Seq<u8> {
    spec_opt_reply_bytes(OPT_LIST, REPLY_SERVER, spec_u32_be(name.len() as u32) + name)
        + spec_opt_reply_bytes(OPT_LIST, REPLY_ACK, Seq::<u8>::empty())
}

/// The payload of an `EXPORT` info reply:
/// `EXPORT(16) || size(64) || transmit-flags(16)`.
pub open spec fn spec_info_export_payload(size: u64) -> Seq<u8> {
    spec_u16_be(INFO_EXPORT) + spec_u64_be(size) + spec_u16_be(spec_transmit_flags())
}

/// The payload of a `BLOCK_SIZE` info reply:
/// `BLOCK_SIZE(16) || min(32) || preferred(32) || max(32)`.
pub open spec fn spec_info_block_size_payload() -> Seq<u8> {
    spec_u16_be(INFO_BLOCK_SIZE) + spec_u32_be(1) + spec_u32_be(PREFERRED_BLOCK_SIZE)
        + spec_u32_be(MAX_BLOCK_SIZE)
}

/// The replies for a list of requested info types, walked front to back:
/// `EXPORT` and `BLOCK_SIZE` earn an `INFO` reply, any other type earns
/// `ERR_UNSUP` and stops the walk.
pub open spec fn spec_info_replies(opt_typ: u32, typs: Seq<u16>, size: u64) -> Seq<u8>
    decreases typs.len(),
{
    if typs.len() == 0 {
        Seq::<u8>::empty()
    } else if typs[0] == INFO_EXPORT {
        spec_opt_reply_bytes(opt_typ, REPLY_INFO, spec_info_export_payload(size))
            + spec_info_replies(opt_typ, typs.drop_first(), size)
    } else if typs[0] == INFO_BLOCK_SIZE {
        spec_opt_reply_bytes(opt_typ, REPLY_INFO, spec_info_block_size_payload())
            + spec_info_replies(opt_typ, typs.drop_first(), size)
    } else {
        spec_opt_reply_bytes(opt_typ, REPLY_ERR_UNSUP, Seq::<u8>::empty())
    }
}

/// Whether a requested info type aborts the info walk.
pub open spec fn spec_info_stops(typs: Seq<u16>) -> bool {
    exists|i: int|
        0 <= i < typs.len() && #[trigger] typs[i] != INFO_EXPORT && typs[i] != INFO_BLOCK_SIZE
}

/// The full answer to `INFO`/`GO`: the replies for the requested types with
/// an `EXPORT` reply appended, then — unless the walk stopped — an
/// acknowledgement.
pub open spec fn spec_info_responses_bytes(opt_typ: u32, typs: Seq<u16>, size: u64) -> Seq<u8> {
    spec_info_replies(opt_typ, typs.push(INFO_EXPORT), size) + (if spec_info_stops(typs) {
        Seq::<u8>::empty()
    } else {
        spec_opt_reply_bytes(opt_typ, REPLY_ACK, Seq::<u8>::empty())
    })
}

/// Handshake determinism: a client that offers fixed-newstyle with
/// no-zeroes negotiates exactly those flags, and the export-name reply it
/// then receives is exactly the size followed by the transmit flags
/// `HAS_FLAGS | SEND_FLUSH`, with no trailing zeroes. (The greeting itself,
/// `spec_server_hello()`, is a constant.)
pub proof fn lemma_handshake_deterministic(size: u64)
    ensures
        spec_negotiated_flags(CLIENT_FLAG_FIXED_NEWSTYLE | CLIENT_FLAG_NO_ZEROES)
            == FLAG_FIXED_NEWSTYLE | FLAG_NO_ZEROES,
        spec_export_info_bytes(size, FLAG_FIXED_NEWSTYLE | FLAG_NO_ZEROES) == spec_u64_be(size)
            + spec_u16_be(TRANSMIT_FLAG_HAS_FLAGS | TRANSMIT_FLAG_SEND_FLUSH),
{
    assert((CLIENT_FLAG_FIXED_NEWSTYLE | CLIENT_FLAG_NO_ZEROES) & CLIENT_FLAG_NO_ZEROES != 0)
        by (bit_vector);
    assert((FLAG_FIXED_NEWSTYLE | FLAG_NO_ZEROES) & FLAG_NO_ZEROES != 0) by (bit_vector);
    assert(spec_export_info_bytes(size, FLAG_FIXED_NEWSTYLE | FLAG_NO_ZEROES) =~= spec_u64_be(size)
        + spec_u16_be(TRANSMIT_FLAG_HAS_FLAGS | TRANSMIT_FLAG_SEND_FLUSH));
}

/// The 16-byte header of a simple reply carrying error `e` for handle `h`.
pub open spec fn spec_reply(e: ErrorType, h: u64) -> Seq<u8> {
    spec_simple_reply_bytes(e.spec_wire_code(), h)
}

/// Whether `out` extends `pre` by exactly one failing simple reply for
/// handle `h`.
pub open spec fn spec_is_err_reply(pre: Seq<u8>, out: Seq<u8>, h: u64) -> bool {
    exists|e: ErrorType| e != ErrorType::OK && out == pre + #[trigger] spec_reply(e, h)
}

/// An NBD server offering a single export.
pub struct Server<F: Blocks> {
    /// The export served.
    pub export: Export<F>,
}

impl<F: Blocks> Server<F> {
    /// The transmit flags the server advertises: `HAS_FLAGS | SEND_FLUSH`.
    #[allow(non_snake_case)]
    pub fn TRANSMIT_FLAGS() -> (r: u16)
        ensures
            r == spec_transmit_flags(),
    {
        TRANSMIT_FLAG_HAS_FLAGS | TRANSMIT_FLAG_SEND_FLUSH
    }

    /// A server for `export`.
    pub fn new(export: Export<F>) -> (r: Server<F>)
        ensures
            r.export == export,
    {
        Server { export }
    }

    /// The greeting the server opens every connection with.
    pub fn hello() -> (out: Vec<u8>)
        ensures
            out@ == spec_server_hello(),
    {
        let mut out: Vec<u8> = Vec::new();
        put_u64_be(&mut out, MAGIC);
        put_u64_be(&mut out, IHAVEOPT);
        put_u16_be(&mut out, FLAG_FIXED_NEWSTYLE | FLAG_NO_ZEROES);
        proof {
            assert(out@ =~= spec_server_hello());
        }
        out
    }

    /// Judge the client's 32-bit flag word: undefined bits or a client that
    /// cannot speak fixed-newstyle abort the connection; otherwise the
    /// negotiated handshake flags come back.
    pub fn check_client_flags(client_flags: u32) -> (r: Result<u16, ProtocolError>)
        ensures
            r is Ok <==> spec_valid_client_flags(client_flags) && client_flags
                & CLIENT_FLAG_FIXED_NEWSTYLE != 0,
            r matches Ok(f) ==> f == spec_negotiated_flags(client_flags),
            r matches Err(e) ==> (e == ProtocolError::BadHandshakeFlags <==> !spec_valid_client_flags(
                client_flags,
            )) && (e == ProtocolError::BadHandshakeFlags || e == ProtocolError::NoFixedNewstyle),
    {
        if client_flags & !(CLIENT_FLAG_FIXED_NEWSTYLE | CLIENT_FLAG_NO_ZEROES) != 0 {
            return Err(ProtocolError::BadHandshakeFlags);
        }
        if client_flags & CLIENT_FLAG_FIXED_NEWSTYLE == 0 {
            return Err(ProtocolError::NoFixedNewstyle);
        }
        if client_flags & CLIENT_FLAG_NO_ZEROES != 0 {
            Ok(FLAG_FIXED_NEWSTYLE | FLAG_NO_ZEROES)
        } else {
            Ok(FLAG_FIXED_NEWSTYLE)
        }
    }

    /// Append the reply that ends the legacy `EXPORT_NAME` haggle.
    pub fn send_export_info(&self, flags: u16, out: &mut Vec<u8>) -> (r: Result<(), ErrorType>)
        ensures
            r is Ok ==> final(out)@ == old(out)@ + spec_export_info_bytes(
                self.export.file.contents().len() as u64,
                flags,
            ),
            r is Err ==> final(out)@ == old(out)@,
            self.export.file.reliable() ==> r is Ok,
    {
        let size = match self.export.size() {
            Ok(s) => s,
            Err(e) => {
                return Err(e);
            },
        };
        put_u64_be(out, size);
        put_u16_be(out, Self::TRANSMIT_FLAGS());
        if flags & FLAG_NO_ZEROES == 0 {
            put_zeroes(out, 124);
        }
        proof {
            assert(out@ =~= old(out)@ + spec_export_info_bytes(
                self.export.file.contents().len() as u64,
                flags,
            ));
        }
        Ok(())
    }

    /// Append the reply to `LIST`: one `SERVER` entry naming the export,
    /// then an acknowledgement.
    pub fn send_export_list(&self, out: &mut Vec<u8>)
        requires
            self.export.wf(),
        ensures
            final(out)@ == old(out)@ + spec_export_list_bytes(self.export.name@),
    {
        let mut entry: Vec<u8> = Vec::new();
        put_u32_be(&mut entry, self.export.name.len() as u32);
        put_bytes(&mut entry, &self.export.name);
        proof {
            assert(entry@ =~= spec_u32_be(self.export.name@.len() as u32) + self.export.name@);
        }
        let reply = OptReply::new(OPT_LIST, REPLY_SERVER, entry);
        reply.put(out);
        let ack = OptReply::ack(OPT_LIST);
        ack.put(out);
        proof {
            assert(out@ =~= old(out)@ + spec_export_list_bytes(self.export.name@));
        }
    }

    /// Append the replies to one `INFO` or `GO` option: one `INFO` reply per
    /// requested type, the mandatory `EXPORT` reply, and an acknowledgement;
    /// a request for `NAME` or `DESCRIPTION` earns `ERR_UNSUP` and stops the
    /// walk instead.
    #[verifier::loop_isolation(false)]
    pub fn info_responses(opt_typ: u32, info_req: &InfoRequest, size: u64, out: &mut Vec<u8>)
        requires
            info_req.typs@.len() <= u16::MAX,
            forall|k: int|
                0 <= k < info_req.typs@.len() ==> #[trigger] info_req.typs@[k] <= INFO_BLOCK_SIZE,
        ensures
            final(out)@ == old(out)@ + spec_info_responses_bytes(opt_typ, info_req.typs@, size),
    {
        let ghost full: Seq<u16> = info_req.typs@.push(INFO_EXPORT);
        let n = info_req.typs.len();
        proof {
            assert(full.skip(0) =~= full);
        }
        let mut i: usize = 0;
        while i <= n
            invariant
                0 <= i <= n + 1,
                old(out)@ + spec_info_replies(opt_typ, full, size) == out@ + spec_info_replies(
                    opt_typ,
                    full.skip(i as int),
                    size,
                ),
                forall|k: int|
                    0 <= k < i ==> #[trigger] full[k] == INFO_EXPORT || full[k]
                        == INFO_BLOCK_SIZE,
            decreases n + 1 - i,
        {
            let t = if i < n {
                info_req.typs[i]
            } else {
                INFO_EXPORT
            };
            proof {
                assert(full[i as int] == t);
                assert(full.skip(i as int).len() > 0);
                assert(full.skip(i as int)[0] == t);
                assert(full.skip(i as int).drop_first() =~= full.skip(i as int + 1));
            }
            if t == INFO_EXPORT {
                let mut payload: Vec<u8> = Vec::new();
                put_u16_be(&mut payload, INFO_EXPORT);
                put_u64_be(&mut payload, size);
                put_u16_be(&mut payload, Self::TRANSMIT_FLAGS());
                proof {
                    assert(payload@ =~= spec_info_export_payload(size));
                }
                let reply = OptReply::new(opt_typ, REPLY_INFO, payload);
                reply.put(out);
            } else if t == INFO_BLOCK_SIZE {
                let mut payload: Vec<u8> = Vec::new();
                put_u16_be(&mut payload, INFO_BLOCK_SIZE);
                put_u32_be(&mut payload, 1);
                put_u32_be(&mut payload, PREFERRED_BLOCK_SIZE);
                put_u32_be(&mut payload, MAX_BLOCK_SIZE);
                proof {
                    assert(payload@ =~= spec_info_block_size_payload());
                }
                let reply = OptReply::new(opt_typ, REPLY_INFO, payload);
                reply.put(out);
            } else {
                let empty: Vec<u8> = Vec::new();
                let unsup = OptReply::new(opt_typ, REPLY_ERR_UNSUP, empty);
                unsup.put(out);
                proof {
                    assert(i < n);
                    assert(info_req.typs@[i as int] != INFO_EXPORT && info_req.typs@[i as int]
                        != INFO_BLOCK_SIZE);
                    assert(spec_info_stops(info_req.typs@));
                    assert(spec_info_replies(opt_typ, full.skip(i as int), size)
                        == spec_opt_reply_bytes(opt_typ, REPLY_ERR_UNSUP, Seq::<u8>::empty()));
                    assert(out@ =~= old(out)@ + spec_info_responses_bytes(
                        opt_typ,
                        info_req.typs@,
                        size,
                    ));
                }
                return ;
            }
            proof {
                assert(out@ + spec_info_replies(opt_typ, full.skip(i as int + 1), size) =~= old(
                    out,
                )@ + spec_info_replies(opt_typ, full, size));
            }
            i = i + 1;
        }
        proof {
            assert(full.skip(n as int + 1) =~= Seq::<u16>::empty());
            assert(!spec_info_stops(info_req.typs@)) by {
                assert(forall|k: int|
                    0 <= k < info_req.typs@.len() ==> #[trigger] info_req.typs@[k] == full[k]);
            }
        }
        let ack = OptReply::ack(opt_typ);
        ack.put(out);
        proof {
            assert(out@ =~= old(out)@ + spec_info_responses_bytes(opt_typ, info_req.typs@, size));
        }
    }

    /// Answer one client option per the haggling dispatch table:
    /// `EXPORT_NAME` ends haggling with the legacy export-info reply, `LIST`
    /// lists the export, `INFO` describes it, `GO` describes it and ends
    /// haggling, `ABORT` closes the connection, and anything else earns
    /// `ERR_UNSUP`.
    pub fn handle_option(&self, typ: u32, data: &Vec<u8>, flags: u16, out: &mut Vec<u8>) -> (r:
        Result<HaggleStep, SessionError>)
        requires
            self.export.wf(),
        ensures
            r is Err ==> final(out)@ == old(out)@,
            typ == OPT_ABORT ==> r == Ok::<HaggleStep, SessionError>(HaggleStep::Abort)
                && final(out)@ == old(out)@,
            typ == OPT_LIST ==> r == Ok::<HaggleStep, SessionError>(HaggleStep::Continue)
                && final(out)@ == old(out)@ + spec_export_list_bytes(self.export.name@),
            typ == OPT_EXPORT_NAME ==> {
                &&& !valid_utf8(data@) <==> r == Err::<HaggleStep, SessionError>(
                    SessionError::Protocol(ProtocolError::BadExportName),
                )
                &&& r matches Ok(s) ==> s == HaggleStep::Transmit && final(out)@ == old(out)@
                    + spec_export_info_bytes(self.export.file.contents().len() as u64, flags)
                &&& valid_utf8(data@) && self.export.file.reliable() ==> r is Ok
                &&& valid_utf8(data@) && r is Err ==> r->Err_0 is Io
            },
            typ == OPT_INFO || typ == OPT_GO ==> {
                &&& !crate::frames::spec_info_request_wf(data@) <==> (r is Err
                    && r->Err_0 is Protocol)
                &&& r matches Ok(s) ==> (s == (if typ == OPT_INFO {
                    HaggleStep::Continue
                } else {
                    HaggleStep::Transmit
                })) && final(out)@ == old(out)@ + spec_info_responses_bytes(
                    typ,
                    crate::frames::spec_info_request_typs(data@),
                    self.export.file.contents().len() as u64,
                )
                &&& crate::frames::spec_info_request_wf(data@) && self.export.file.reliable()
                    ==> r is Ok
            },
            typ != OPT_EXPORT_NAME && typ != OPT_ABORT && typ != OPT_LIST && typ != OPT_INFO && typ
                != OPT_GO ==> r == Ok::<HaggleStep, SessionError>(HaggleStep::Continue)
                && final(out)@ == old(out)@ + spec_opt_reply_bytes(
                typ,
                REPLY_ERR_UNSUP,
                Seq::<u8>::empty(),
            ),
    {
        if typ == OPT_EXPORT_NAME {
            if !utf8_valid(data) {
                return Err(SessionError::Protocol(ProtocolError::BadExportName));
            }
            match self.send_export_info(flags, out) {
                Ok(()) => Ok(HaggleStep::Transmit),
                Err(e) => Err(SessionError::Io(e)),
            }
        } else if typ == OPT_LIST {
            self.send_export_list(out);
            Ok(HaggleStep::Continue)
        } else if typ == OPT_INFO || typ == OPT_GO {
            let info_req = match parse_info_request(data) {
                Ok(ir) => ir,
                Err(e) => {
                    return Err(SessionError::Protocol(e));
                },
            };
            let size = match self.export.size() {
                Ok(s) => s,
                Err(e) => {
                    return Err(SessionError::Io(e));
                },
            };
            Self::info_responses(typ, &info_req, size, out);
            if typ == OPT_INFO {
                Ok(HaggleStep::Continue)
            } else {
                Ok(HaggleStep::Transmit)
            }
        } else if typ == OPT_ABORT {
            Ok(HaggleStep::Abort)
        } else {
            let empty: Vec<u8> = Vec::new();
            let unsup = OptReply::new(typ, REPLY_ERR_UNSUP, empty);
            unsup.put(out);
            Ok(HaggleStep::Continue)
        }
    }

    /// Serve one transmission-phase request: dispatch on the command, let
    /// the export do the work, and append the reply — which always echoes
    /// the request's handle. The result says whether the session goes on:
    /// `DISCONNECT` and an unknown command end it, a flush failure is fatal,
    /// and everything else continues.
    pub fn handle_request(&mut self, req: &Request, payload: &Vec<u8>, out: &mut Vec<u8>) -> (r:
        Result<bool, ErrorType>)
        requires
            req.typ == CMD_WRITE ==> payload@.len() == req.len,
        ensures
            final(self).export.name == old(self).export.name,
            final(self).export.file.reliable() == old(self).export.file.reliable(),
            final(self).export.file.contents().len() == old(self).export.file.contents().len(),
            req.typ != CMD_WRITE ==> final(self).export.file.contents() == old(
                self,
            ).export.file.contents(),
            req.typ == CMD_DISCONNECT ==> r == Ok::<bool, ErrorType>(false) && final(out)@
                == old(out)@,
            req.typ == CMD_TRIM ==> r == Ok::<bool, ErrorType>(true) && final(out)@ == old(out)@
                + spec_reply(ErrorType::OK, req.handle),
            req.typ > CMD_TRIM ==> r == Ok::<bool, ErrorType>(false) && final(out)@ == old(out)@
                + spec_reply(ErrorType::ENOTSUP, req.handle),
            req.typ == CMD_FLUSH ==> (r matches Ok(b) ==> b == true && final(out)@ == old(out)@
                + spec_reply(ErrorType::OK, req.handle)) && (r is Err ==> final(out)@ == old(out)@)
                && (old(self).export.file.reliable() ==> r is Ok),
            req.typ == CMD_READ ==> r == Ok::<bool, ErrorType>(true) && {
                let c = old(self).export.file.contents();
                let ok_out = old(out)@ + spec_reply(ErrorType::OK, req.handle) + c.subrange(
                    req.offset as int,
                    req.offset + req.len,
                );
                &&& (final(out)@ == ok_out && req.offset + req.len <= c.len() && req.len
                    <= BUF_SIZE) || spec_is_err_reply(old(out)@, final(out)@, req.handle)
                &&& req.offset + req.len > c.len() ==> spec_is_err_reply(
                    old(out)@,
                    final(out)@,
                    req.handle,
                )
                &&& req.len > BUF_SIZE ==> final(out)@ == old(out)@ + spec_reply(
                    ErrorType::EOVERFLOW,
                    req.handle,
                )
                &&& old(self).export.file.reliable() && req.len <= BUF_SIZE && req.offset + req.len
                    > c.len() ==> final(out)@ == old(out)@ + spec_reply(
                    ErrorType::EINVAL,
                    req.handle,
                )
                &&& old(self).export.file.reliable() && req.len <= BUF_SIZE && req.offset + req.len
                    <= c.len() ==> final(out)@ == ok_out
            },
            req.typ == CMD_WRITE ==> r == Ok::<bool, ErrorType>(true) && {
                let c = old(self).export.file.contents();
                let written = spec_write_bytes(c, req.offset as int, payload@);
                &&& (final(out)@ == old(out)@ + spec_reply(ErrorType::OK, req.handle)
                    && final(self).export.file.contents() == written && req.offset + req.len
                    <= c.len() && req.len <= BUF_SIZE) || (spec_is_err_reply(
                    old(out)@,
                    final(out)@,
                    req.handle,
                ) && final(self).export.file.contents() == c)
                &&& req.offset + req.len > c.len() ==> spec_is_err_reply(
                    old(out)@,
                    final(out)@,
                    req.handle,
                ) && final(self).export.file.contents() == c
                &&& req.len > BUF_SIZE ==> final(out)@ == old(out)@ + spec_reply(
                    ErrorType::EOVERFLOW,
                    req.handle,
                ) && final(self).export.file.contents() == c
                &&& old(self).export.file.reliable() && req.len <= BUF_SIZE && req.offset + req.len
                    > c.len() ==> final(out)@ == old(out)@ + spec_reply(
                    ErrorType::EINVAL,
                    req.handle,
                ) && final(self).export.file.contents() == c
                &&& old(self).export.file.reliable() && req.len <= BUF_SIZE && req.offset + req.len
                    <= c.len() ==> final(out)@ == old(out)@ + spec_reply(ErrorType::OK, req.handle)
                    && final(self).export.file.contents() == written
            },
    {
        if req.typ == CMD_READ {
            match self.export.read(req.offset, req.len) {
                Ok(data) => {
                    put_simple_reply(out, ErrorType::OK, req.handle);
                    put_bytes(out, &data);
                    proof {
                        assert(out@ =~= old(out)@ + spec_reply(ErrorType::OK, req.handle) + old(
                            self,
                        ).export.file.contents().subrange(
                            req.offset as int,
                            req.offset + req.len,
                        ));
                    }
                },
                Err(e) => {
                    put_simple_reply(out, e, req.handle);
                    proof {
                        assert(out@ == old(out)@ + spec_reply(e, req.handle));
                        assert(spec_is_err_reply(old(out)@, out@, req.handle));
                    }
                },
            }
            Ok(true)
        } else if req.typ == CMD_WRITE {
            match self.export.write(req.offset, payload) {
                Ok(()) => {
                    put_simple_reply(out, ErrorType::OK, req.handle);
                },
                Err(e) => {
                    put_simple_reply(out, e, req.handle);
                    proof {
                        assert(out@ == old(out)@ + spec_reply(e, req.handle));
                        assert(spec_is_err_reply(old(out)@, out@, req.handle));
                    }
                },
            }
            Ok(true)
        } else if req.typ == CMD_DISCONNECT {
            Ok(false)
        } else if req.typ == CMD_FLUSH {
            match self.export.flush() {
                Ok(()) => {
                    put_simple_reply(out, ErrorType::OK, req.handle);
                    Ok(true)
                },
                Err(e) => Err(e),
            }
        } else if req.typ == CMD_TRIM {
            put_simple_reply(out, ErrorType::OK, req.handle);
            Ok(true)
        } else {
            put_simple_reply(out, ErrorType::ENOTSUP, req.handle);
            Ok(false)
        }
    }
}

} // verus!
