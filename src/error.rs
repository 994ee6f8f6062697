use vstd::prelude::*;

verus! {

/// The errors surfaced by the client core.
#[derive(Debug, Clone, Copy, PartialEq, Eq, Structural)]
pub enum ClientError {
    /// The operation was invoked after the terminal shutdown.
    ClientShutdown,
    /// The operation was invoked while disconnected or connecting.
    NotConnected,
    /// The peer or the transport dropped during an exchange.
    Disconnected,
    /// The request was rejected for missing authentication.
    Unauthenticated,
    /// Fewer than eight bytes came back for the response header.
    EmptyResponse,
    /// The server signalled that the session is no longer valid.
    StaleClient,
    /// Connection retries were exhausted or reconnection is disabled.
    CannotEstablishConnection,
    /// The configured CA file could not be read.
    InvalidTlsCertificatePath,
    /// A certificate of the CA file could not be used.
    InvalidTlsCertificate,
    /// The TLS server name is not a valid domain.
    InvalidTlsDomain,
    /// Header bytes failed to decode.
    InvalidNumberEncoding,
    /// A connection string that does not follow its grammar.
    InvalidConnectionString,
    /// A generic socket error.
    TcpError,
    /// A non-zero status that the server sent back for a command.
    Status(u32),
}

impl ClientError {
    /// The numeric status carried by a command-specific error, if any.
    pub fn status_code(&self) -> (r: Option<u32>)
        ensures
            r == (match *self {
                ClientError::Status(s) => Some(s),
                _ => None,
            }),
    {
        match self {
            ClientError::Status(s) => Some(*s),
            _ => None,
        }
    }
}

} // verus!
