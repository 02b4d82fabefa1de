//! The client side of the NBD protocol.
//!
//! [`Client`] drives a session against a server: it judges the server's
//! greeting, asks for the export named "default" through the legacy
//! `EXPORT_NAME` haggle, builds each transmission-phase request under a
//! fresh, monotonically increasing handle, and judges each reply against
//! the outstanding request. The surrounding process moves the bytes.

use crate::frames::{spec_opt_bytes, spec_request_bytes, Opt, Request, SimpleReply};
use crate::proto::{
    spec_valid_handshake_flags, spec_valid_transmit_flags, ErrorType, ProtocolError, SessionError,
    CLIENT_FLAG_FIXED_NEWSTYLE, CLIENT_FLAG_NO_ZEROES, CMD_DISCONNECT, CMD_FLUSH, CMD_READ,
    CMD_WRITE, FLAG_FIXED_NEWSTYLE, FLAG_NO_ZEROES, IHAVEOPT, MAGIC, OPT_EXPORT_NAME,
    TRANSMIT_FLAG_HAS_FLAGS, TRANSMIT_FLAG_SEND_FLUSH,
};
use crate::wire::{get_u16_be, get_u64_be, put_bytes, spec_u16_at, spec_u64_at};
use vstd::prelude::*;

verus! {

/// The export name the client asks for.
pub open spec fn spec_default_name() -> Seq<u8> {
    seq![0x64u8, 0x65u8, 0x66u8, 0x61u8, 0x75u8, 0x6cu8, 0x74u8]
}

/// The bytes of the export name the client asks for ("default").
pub fn default_name() -> (r: Vec<u8>)
    ensures
        r@ == spec_default_name(),
{
    let mut r: Vec<u8> = Vec::new();
    r.push(0x64);
    r.push(0x65);
    r.push(0x66);
    r.push(0x61);
    r.push(0x75);
    r.push(0x6c);
    r.push(0x74);
    proof {
        assert(r@ =~= spec_default_name());
    }
    r
}

/// A connected client's protocol state: the export size the server reported
/// and the next request handle.
#[derive(Clone, Copy, PartialEq, Eq, Structural, Debug)]
pub struct Client {
    /// The export's size in bytes, as the server reported it.
    pub size: u64,
    /// The handle the next request will carry; each request takes the
    /// current value and increments it.
    pub next_handle: u64,
}

impl Client {
    /// Judge the server's 18-byte greeting: the two magics must match and
    /// the server must advertise fixed-newstyle together with no-zeroes.
    pub fn check_server_hello(buf: &Vec<u8>) -> (r: Result<(), ProtocolError>)
        requires
            buf.len() == 18,
        ensures
            r is Ok <==> spec_u64_at(buf@, 0) == MAGIC && spec_u64_at(buf@, 8) == IHAVEOPT && {
                let f = spec_u16_at(buf@, 16);
                spec_valid_handshake_flags(f) && f & (FLAG_FIXED_NEWSTYLE | FLAG_NO_ZEROES) == (
                FLAG_FIXED_NEWSTYLE | FLAG_NO_ZEROES)
            },
            r matches Err(e) ==> {
                let f = spec_u16_at(buf@, 16);
                &&& e == ProtocolError::BadMagic <==> spec_u64_at(buf@, 0) != MAGIC
                &&& e == ProtocolError::BadOptMagic <==> spec_u64_at(buf@, 0) == MAGIC
                    && spec_u64_at(buf@, 8) != IHAVEOPT
                &&& e == ProtocolError::BadHandshakeFlags ==> !spec_valid_handshake_flags(f)
                &&& e == ProtocolError::MissingServerFlags ==> spec_valid_handshake_flags(f) && f
                    & (FLAG_FIXED_NEWSTYLE | FLAG_NO_ZEROES) != (FLAG_FIXED_NEWSTYLE
                    | FLAG_NO_ZEROES)
                &&& (e == ProtocolError::BadMagic || e == ProtocolError::BadOptMagic || e
                    == ProtocolError::BadHandshakeFlags || e == ProtocolError::MissingServerFlags)
            },
    {
        let magic = get_u64_be(buf, 0);
        if magic != MAGIC {
            return Err(ProtocolError::BadMagic);
        }
        let opt_magic = get_u64_be(buf, 8);
        if opt_magic != IHAVEOPT {
            return Err(ProtocolError::BadOptMagic);
        }
        let f = get_u16_be(buf, 16);
        if f & !(FLAG_FIXED_NEWSTYLE | FLAG_NO_ZEROES) != 0 {
            return Err(ProtocolError::BadHandshakeFlags);
        }
        if f & (FLAG_FIXED_NEWSTYLE | FLAG_NO_ZEROES) != (FLAG_FIXED_NEWSTYLE | FLAG_NO_ZEROES) {
            return Err(ProtocolError::MissingServerFlags);
        }
        Ok(())
    }

    /// The flag word the client answers the greeting with: fixed-newstyle
    /// with no-zeroes.
    pub fn client_flags() -> (r: u32)
        ensures
            r == CLIENT_FLAG_FIXED_NEWSTYLE | CLIENT_FLAG_NO_ZEROES,
    {
        CLIENT_FLAG_FIXED_NEWSTYLE | CLIENT_FLAG_NO_ZEROES
    }

    /// Append the option that selects the export "default" through the
    /// legacy `EXPORT_NAME` haggle.
    pub fn export_name_option(out: &mut Vec<u8>)
        ensures
            final(out)@ == old(out)@ + spec_opt_bytes(OPT_EXPORT_NAME, spec_default_name()),
    {
        let opt = Opt { typ: OPT_EXPORT_NAME, data: default_name() };
        opt.put(out);
    }

    /// A client built from the server's 10-byte export info
    /// (`size(64) || transmit-flags(16)`). Undefined transmit flag bits are
    /// a protocol error.
    pub fn new(info: &Vec<u8>) -> (r: Result<Client, ProtocolError>)
        requires
            info.len() == 10,
        ensures
            r is Ok <==> spec_valid_transmit_flags(spec_u16_at(info@, 8)),
            r matches Ok(c) ==> c.size == spec_u64_at(info@, 0) && c.next_handle == 0,
            r is Err ==> r == Err::<Client, ProtocolError>(ProtocolError::BadTransmitFlags),
    {
        let size = get_u64_be(info, 0);
        let tf = get_u16_be(info, 8);
        if tf & !(TRANSMIT_FLAG_HAS_FLAGS | TRANSMIT_FLAG_SEND_FLUSH) != 0 {
            return Err(ProtocolError::BadTransmitFlags);
        }
        Ok(Client { size, next_handle: 0 })
    }

    /// The size of the export, as the server reported it in the handshake.
    pub fn size(&self) -> (r: u64)
        ensures
            r == self.size,
    {
        self.size
    }

    /// The next request under a fresh handle; the handle counter moves up
    /// by one, so handles are monotonically increasing.
    fn next_request(&mut self, typ: u16, offset: u64, len: u32) -> (req: Request)
        requires
            old(self).next_handle < u64::MAX,
        ensures
            final(self).size == old(self).size,
            final(self).next_handle == old(self).next_handle + 1,
            req == (Request {
                flags: 0u16,
                typ,
                handle: old(self).next_handle,
                offset,
                len,
            }),
    {
        let req = Request { flags: 0, typ, handle: self.next_handle, offset, len };
        self.next_handle = self.next_handle + 1;
        req
    }

    /// Append a read request for `len` bytes at `offset`; the returned
    /// request holds the handle its reply must echo.
    pub fn read(&mut self, offset: u64, len: u32, out: &mut Vec<u8>) -> (req: Request)
        requires
            old(self).next_handle < u64::MAX,
        ensures
            final(self).size == old(self).size,
            final(self).next_handle == old(self).next_handle + 1,
            req == (Request {
                flags: 0u16,
                typ: CMD_READ,
                handle: old(self).next_handle,
                offset,
                len,
            }),
            final(out)@ == old(out)@ + spec_request_bytes(req),
    {
        let req = self.next_request(CMD_READ, offset, len);
        req.put(out);
        req
    }

    /// Append a write request carrying `data` at `offset`: the request frame
    /// followed by the payload.
    pub fn write(&mut self, offset: u64, data: &Vec<u8>, out: &mut Vec<u8>) -> (req: Request)
        requires
            old(self).next_handle < u64::MAX,
            data@.len() <= u32::MAX,
        ensures
            final(self).size == old(self).size,
            final(self).next_handle == old(self).next_handle + 1,
            req == (Request {
                flags: 0u16,
                typ: CMD_WRITE,
                handle: old(self).next_handle,
                offset,
                len: data@.len() as u32,
            }),
            final(out)@ == old(out)@ + spec_request_bytes(req) + data@,
    {
        let req = self.next_request(CMD_WRITE, offset, data.len() as u32);
        req.put(out);
        put_bytes(out, data);
        proof {
            assert(out@ =~= old(out)@ + spec_request_bytes(req) + data@);
        }
        req
    }

    /// Append a flush request.
    pub fn flush(&mut self, out: &mut Vec<u8>) -> (req: Request)
        requires
            old(self).next_handle < u64::MAX,
        ensures
            final(self).size == old(self).size,
            final(self).next_handle == old(self).next_handle + 1,
            req == (Request {
                flags: 0u16,
                typ: CMD_FLUSH,
                handle: old(self).next_handle,
                offset: 0u64,
                len: 0u32,
            }),
            final(out)@ == old(out)@ + spec_request_bytes(req),
    {
        let req = self.next_request(CMD_FLUSH, 0, 0);
        req.put(out);
        req
    }

    /// Append a disconnect request; the server answers with nothing and
    /// closes the connection.
    pub fn disconnect(&mut self, out: &mut Vec<u8>) -> (req: Request)
        requires
            old(self).next_handle < u64::MAX,
        ensures
            final(self).size == old(self).size,
            final(self).next_handle == old(self).next_handle + 1,
            req == (Request {
                flags: 0u16,
                typ: CMD_DISCONNECT,
                handle: old(self).next_handle,
                offset: 0u64,
                len: 0u32,
            }),
            final(out)@ == old(out)@ + spec_request_bytes(req),
    {
        let req = self.next_request(CMD_DISCONNECT, 0, 0);
        req.put(out);
        req
    }

    /// Judge a reply against the outstanding request: the handle must match
    /// and the server must report success.
    pub fn check_reply(req: &Request, reply: &SimpleReply) -> (r: Result<(), SessionError>)
        ensures
            r is Ok <==> reply.handle == req.handle && reply.err == ErrorType::OK,
            reply.handle != req.handle <==> r == Err::<(), SessionError>(
                SessionError::Protocol(ProtocolError::WrongHandle),
            ),
            reply.handle == req.handle && reply.err != ErrorType::OK ==> r == Err::<
                (),
                SessionError,
            >(SessionError::Io(reply.err)),
    {
        if reply.handle != req.handle {
            return Err(SessionError::Protocol(ProtocolError::WrongHandle));
        }
        if !matches!(reply.err, ErrorType::OK) {
            return Err(SessionError::Io(reply.err));
        }
        Ok(())
    }
}

} // verus!
