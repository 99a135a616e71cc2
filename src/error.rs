use vstd::prelude::*;

verus! {

/// The kind of a generic I/O failure.
#[derive(Debug, Clone, Copy, PartialEq, Eq, Structural)]
pub enum IoErrorKind {
    /// The operation ran out of time.
    TimedOut,
    /// Any other failure, such as a TLS session that could not be set up.
    Other,
}

/// Every way a send can fail inside the connection core.
#[derive(Debug, Clone, Copy, PartialEq, Eq, Structural)]
pub enum Error {
    /// A generic I/O failure: `TimedOut` when the deadline had passed as a
    /// read on the response stream began, `Other` when the host is not a
    /// name that a TLS session can be bound to.
    IoError(IoErrorKind),
    /// The deadline lapsed between two phases, before the next one started.
    DeadlineExceeded,
    /// A redirect status came without a `Location` header.
    RedirectLocationMissing,
    /// A redirect pointed at an absolute URL with no host.
    InvalidRedirectUrl,
    /// A non-ASCII host label could not be encoded for the wire.
    PunycodeConversionFailed,
    /// Name resolution gave no address to connect to.
    AddressLookupFailed,
    /// The proxy answered the tunnel request with a status other than 2xx.
    ProxyRejected(u16),
    /// The proxy's answer to the tunnel request held no status code.
    BadProxyResponse,
}

} // verus!
