//! Protocol constants, flag sets, and error codes for fixed-newstyle NBD.

use vstd::prelude::*;

verus! {

/// Initial server greeting magic ("NBDMAGIC").
pub const MAGIC: u64 = 0x4e42444d41474943;

/// Option haggling magic ("IHAVEOPT").
pub const IHAVEOPT: u64 = 0x49484156454F5054;

/// Magic prefixing every fixed-newstyle option reply.
pub const OPT_REPLY_MAGIC: u64 = 0x3e889045565a9;

/// Magic prefixing every simple reply in the transmission phase.
pub const SIMPLE_REPLY_MAGIC: u32 = 0x67446698;

/// Magic prefixing every transmission-phase request.
pub const REQUEST_MAGIC: u32 = 0x25609513;

/// The TCP port an NBD server listens on by default.
pub const DEFAULT_PORT: u16 = 10809;

/// Handshake flag (server to client): fixed-newstyle negotiation.
pub const FLAG_FIXED_NEWSTYLE: u16 = 0x1;

/// Handshake flag (server to client): omit the 124 zero bytes after
/// `EXPORT_NAME`.
pub const FLAG_NO_ZEROES: u16 = 0x2;

/// Client handshake flag: the client understands fixed-newstyle.
pub const CLIENT_FLAG_FIXED_NEWSTYLE: u32 = 0x1;

/// Client handshake flag: the client asks to omit the 124 zero bytes.
pub const CLIENT_FLAG_NO_ZEROES: u32 = 0x2;

/// Transmission flag: the flag field is meaningful.
pub const TRANSMIT_FLAG_HAS_FLAGS: u16 = 0x1;

/// Transmission flag: the server accepts `FLUSH`.
pub const TRANSMIT_FLAG_SEND_FLUSH: u16 = 0x8;

/// Option type: terminate haggling with the legacy export-name reply.
pub const OPT_EXPORT_NAME: u32 = 1;

/// Option type: abort the handshake.
pub const OPT_ABORT: u32 = 2;

/// Option type: list export names.
pub const OPT_LIST: u32 = 3;

/// Option type: describe an export, staying in the haggling phase.
pub const OPT_INFO: u32 = 6;

/// Option type: describe an export, then enter the transmission phase.
pub const OPT_GO: u32 = 7;

/// Option reply type: acknowledgement.
pub const REPLY_ACK: u32 = 1;

/// Option reply type: one export-list entry.
pub const REPLY_SERVER: u32 = 2;

/// Option reply type: one typed info payload.
pub const REPLY_INFO: u32 = 3;

/// Option reply type: the option is unsupported (high bit marks an error).
pub const REPLY_ERR_UNSUP: u32 = 0x80000001;

/// Info type: size and transmission flags of the export.
pub const INFO_EXPORT: u16 = 0;

/// Info type: the export's name.
pub const INFO_NAME: u16 = 1;

/// Info type: the export's description.
pub const INFO_DESCRIPTION: u16 = 2;

/// Info type: block size constraints.
pub const INFO_BLOCK_SIZE: u16 = 3;

/// Command: read `len` bytes at `offset`.
pub const CMD_READ: u16 = 0;

/// Command: write the payload at `offset`.
pub const CMD_WRITE: u16 = 1;

/// Command: disconnect cleanly.
pub const CMD_DISCONNECT: u16 = 2;

/// Command: flush writes to stable storage.
pub const CMD_FLUSH: u16 = 3;

/// Command: discard a byte range (treated as a no-op).
pub const CMD_TRIM: u16 = 4;

/// Whether a server-to-client handshake flag word uses only defined bits.
pub open spec fn spec_valid_handshake_flags(bits: u16) -> bool {
    bits & !(FLAG_FIXED_NEWSTYLE | FLAG_NO_ZEROES) == 0
}

/// Whether a client-to-server handshake flag word uses only defined bits.
pub open spec fn spec_valid_client_flags(bits: u32) -> bool {
    bits & !(CLIENT_FLAG_FIXED_NEWSTYLE | CLIENT_FLAG_NO_ZEROES) == 0
}

/// Whether a transmission flag word uses only defined bits.
pub open spec fn spec_valid_transmit_flags(bits: u16) -> bool {
    bits & !(TRANSMIT_FLAG_HAS_FLAGS | TRANSMIT_FLAG_SEND_FLUSH) == 0
}

/// The errno-style codes a simple reply can carry.
#[derive(Clone, Copy, PartialEq, Eq, Structural, Debug)]
pub enum ErrorType {
    /// Success.
    OK,
    /// Operation not permitted.
    EPERM,
    /// Input/output error.
    EIO,
    /// Out of memory.
    ENOMEM,
    /// Invalid argument (server-detected bounds error).
    EINVAL,
    /// No space left on the backing store.
    ENOSPC,
    /// Value too large (request exceeds the request-buffer bound).
    EOVERFLOW,
    /// Server is shutting down.
    ESHUTDOWN,
    /// Operation not supported.
    ENOTSUP,
}

/// The category of an operating-system I/O failure, as the surrounding
/// process reports it. The backing store maps each category to an
/// [`ErrorType`] before it reaches the wire.
#[derive(Clone, Copy, PartialEq, Eq, Structural, Debug)]
pub enum IoErrorKind {
    /// The process lacks permission.
    PermissionDenied,
    /// The backing file does not exist.
    NotFound,
    /// An argument was rejected by the operating system.
    InvalidInput,
    /// The backing store is out of space.
    StorageFull,
    /// Any other failure.
    Other,
}

impl ErrorType {
    /// The 32-bit errno value carried on the wire.
    pub open spec fn spec_wire_code(self) -> u32 {
        match self {
            ErrorType::OK => 0,
            ErrorType::EPERM => 1,
            ErrorType::EIO => 5,
            ErrorType::ENOMEM => 12,
            ErrorType::EINVAL => 22,
            ErrorType::ENOSPC => 28,
            ErrorType::EOVERFLOW => 75,
            ErrorType::ENOTSUP => 95,
            ErrorType::ESHUTDOWN => 108,
        }
    }

    /// The 32-bit errno value carried on the wire.
    pub fn wire_code(self) -> (c: u32)
        ensures
            c == self.spec_wire_code(),
    {
        match self {
            ErrorType::OK => 0,
            ErrorType::EPERM => 1,
            ErrorType::EIO => 5,
            ErrorType::ENOMEM => 12,
            ErrorType::EINVAL => 22,
            ErrorType::ENOSPC => 28,
            ErrorType::EOVERFLOW => 75,
            ErrorType::ENOTSUP => 95,
            ErrorType::ESHUTDOWN => 108,
        }
    }

    /// The error named by a wire errno value, if it names one.
    pub open spec fn spec_from_wire_code(c: u32) -> Option<ErrorType> {
        if c == 0 {
            Some(ErrorType::OK)
        } else if c == 1 {
            Some(ErrorType::EPERM)
        } else if c == 5 {
            Some(ErrorType::EIO)
        } else if c == 12 {
            Some(ErrorType::ENOMEM)
        } else if c == 22 {
            Some(ErrorType::EINVAL)
        } else if c == 28 {
            Some(ErrorType::ENOSPC)
        } else if c == 75 {
            Some(ErrorType::EOVERFLOW)
        } else if c == 95 {
            Some(ErrorType::ENOTSUP)
        } else if c == 108 {
            Some(ErrorType::ESHUTDOWN)
        } else {
            None
        }
    }

    /// The error named by a wire errno value, if it names one.
    pub fn from_wire_code(c: u32) -> (r: Option<ErrorType>)
        ensures
            r == ErrorType::spec_from_wire_code(c),
    {
        if c == 0 {
            Some(ErrorType::OK)
        } else if c == 1 {
            Some(ErrorType::EPERM)
        } else if c == 5 {
            Some(ErrorType::EIO)
        } else if c == 12 {
            Some(ErrorType::ENOMEM)
        } else if c == 22 {
            Some(ErrorType::EINVAL)
        } else if c == 28 {
            Some(ErrorType::ENOSPC)
        } else if c == 75 {
            Some(ErrorType::EOVERFLOW)
        } else if c == 95 {
            Some(ErrorType::ENOTSUP)
        } else if c == 108 {
            Some(ErrorType::ESHUTDOWN)
        } else {
            None
        }
    }

    /// The wire error for an operating-system I/O failure: permission
    /// failures map to `EPERM`, missing files and invalid arguments to
    /// `EINVAL`, exhausted space to `ENOSPC`, and anything else to `EIO`.
    pub open spec fn spec_from_io_kind(kind: IoErrorKind) -> ErrorType {
        match kind {
            IoErrorKind::PermissionDenied => ErrorType::EPERM,
            IoErrorKind::NotFound => ErrorType::EINVAL,
            IoErrorKind::InvalidInput => ErrorType::EINVAL,
            IoErrorKind::StorageFull => ErrorType::ENOSPC,
            IoErrorKind::Other => ErrorType::EIO,
        }
    }

    /// The wire error for an operating-system I/O failure.
    pub fn from_io_kind(kind: IoErrorKind) -> (e: ErrorType)
        ensures
            e == ErrorType::spec_from_io_kind(kind),
    {
        match kind {
            IoErrorKind::PermissionDenied => ErrorType::EPERM,
            IoErrorKind::NotFound => ErrorType::EINVAL,
            IoErrorKind::InvalidInput => ErrorType::EINVAL,
            IoErrorKind::StorageFull => ErrorType::ENOSPC,
            IoErrorKind::Other => ErrorType::EIO,
        }
    }
}

/// A violation of the wire protocol. Any of these ends the session; none is
/// reported to the peer.
#[derive(Clone, Copy, PartialEq, Eq, Structural, Debug)]
pub enum ProtocolError {
    /// The initial greeting magic was wrong.
    BadMagic,
    /// The option magic (`IHAVEOPT`) was wrong.
    BadOptMagic,
    /// A handshake flag word carried undefined bits.
    BadHandshakeFlags,
    /// The client did not offer fixed-newstyle negotiation.
    NoFixedNewstyle,
    /// A transmission flag word carried undefined bits.
    BadTransmitFlags,
    /// A request frame carried the wrong magic.
    BadRequestMagic,
    /// A simple reply carried the wrong magic.
    BadReplyMagic,
    /// A simple reply carried an errno that names no error.
    BadErrorCode,
    /// An export name was not valid UTF-8.
    BadExportName,
    /// An `INFO`/`GO` payload was malformed.
    BadInfoRequest,
    /// A reply answered a different handle than the outstanding request.
    WrongHandle,
    /// The server did not advertise fixed-newstyle together with no-zeroes.
    MissingServerFlags,
}

/// A failure that ends the session: either the peer broke the protocol or
/// an I/O-level failure was reported outside a per-request reply.
#[derive(Clone, Copy, PartialEq, Eq, Structural, Debug)]
pub enum SessionError {
    /// The peer violated the wire protocol.
    Protocol(ProtocolError),
    /// An I/O-level failure.
    Io(ErrorType),
}

} // verus!
