use vstd::prelude::*;

verus! {

/// What the user asked for on the command line, already validated.
#[derive(Debug, PartialEq, Eq)]
pub struct Opts {
    /// Credential given as `USER:PASSWORD`. It is carried along and not put
    /// into the upgrade request.
    pub auth: Option<String>,
    /// Whether a notice is shown for each ping and pong.
    pub show_ping_pong: bool,
    /// Bytes of the certificate to trust on an encrypted connection.
    pub cert: Option<Vec<u8>>,
}

} // verus!
