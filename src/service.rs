use vstd::prelude::*;

verus! {

/// A borrowed, address-stable input stream, reached through the engine's
/// stable handle for it. It is never owned here.
#[derive(Debug, PartialEq, Eq, Structural)]
pub struct AsyncInputStream {
    pub handle: u64,
}

/// A borrowed, address-stable bidirectional stream, reached through the
/// engine's stable handle for it. It is never owned here.
#[derive(Debug, PartialEq, Eq, Structural)]
pub struct AsyncIoStream {
    pub handle: u64,
}

/// The sink that receives the response to a request, reached through the
/// engine's stable handle for it.
#[derive(Debug, PartialEq, Eq, Structural)]
pub struct HttpServiceResponse {
    pub handle: u64,
}

/// The sink that receives the response to a CONNECT, reached through the
/// engine's stable handle for it.
#[derive(Debug, PartialEq, Eq, Structural)]
pub struct ConnectResponse {
    pub handle: u64,
}

/// The callback that upgrades a connection to TLS in place, reached through
/// the engine's stable handle for it. It is borrowed for one `connect` call.
#[derive(Debug, PartialEq, Eq, Structural)]
pub struct TlsStarterCallback {
    pub handle: u64,
}

/// The settings of one `connect` call: whether to use TLS, then the
/// callback that performs the upgrade, borrowed for the call only. They are
/// handed to the service as they are.
#[derive(Debug, Copy, Clone)]
pub struct HttpConnectSettings<'a> {
    pub use_tls: bool,
    pub tls_starter: Option<&'a TlsStarterCallback>,
}

impl<'a> HttpConnectSettings<'a> {
    /// Settings for a plain connection, with no TLS starter.
    pub fn plain() -> (r: HttpConnectSettings<'a>)
        ensures
            !r.use_tls,
            r.tls_starter is None,
    {
        HttpConnectSettings { use_tls: false, tls_starter: None }
    }

    /// Settings that ask for TLS and lend `starter` to perform the upgrade.
    pub fn with_tls(starter: &'a TlsStarterCallback) -> (r: HttpConnectSettings<'a>)
        ensures
            r.use_tls,
            r.tls_starter == Some(starter),
    {
        HttpConnectSettings { use_tls: true, tls_starter: Some(starter) }
    }

    /// The TLS starter that a service carrying out a `connect` call may
    /// invoke during the call: the one supplied when TLS is asked for, and
    /// none at all otherwise, even if one was supplied.
    pub fn starter_to_invoke(&self) -> (r: Option<&'a TlsStarterCallback>)
        ensures
            r == (if self.use_tls { self.tls_starter } else { None }),
            !self.use_tls ==> r is None,
    {
        if self.use_tls {
            self.tls_starter
        } else {
            None
        }
    }
}

} // verus!
