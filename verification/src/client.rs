//! The control-channel client: one request byte out, one response byte
//! back, over the daemon's well-known unix socket.
//!
//! The socket path is deterministic — the application's file in the
//! per-user runtime directory — so a short-lived command invocation can
//! find the daemon without configuration.  Each call opens a fresh
//! connection, writes the request code, reads the single response code,
//! and interprets it; what each response byte means is pinned down in
//! [`Client::handle_response`].

use vstd::prelude::*;

use crate::protocol::Message;
use crate::protocol::RESPONSE_FAILED;
use crate::protocol::RESPONSE_SUCCESS;
use crate::protocol::RESPONSE_UNKNOWN_MESSAGE;
use crate::protocol::ResponseMessage;

verus! {

/// Why a control-channel call failed.
#[derive(Clone, Copy, Debug, PartialEq, Eq, Structural)]
pub enum ClientError {
    /// The socket could not be reached, or a read or write on it failed.
    Transport,
    /// No per-user runtime directory was available for the socket path, or
    /// the path was not unicode.
    SocketPath,
    /// The daemon answered that it could not understand the request.
    ServerUnknownMessage,
    /// The daemon answered that its handler ran but errored.
    ServerFailed,
    /// The daemon answered with a byte that is no known response code.
    UnexpectedResponse,
}

#[verifier::external_type_specification]
#[verifier::external_body]
pub struct ExRuntime(tokio::runtime::Runtime);

#[verifier::external_type_specification]
#[verifier::external_body]
pub struct ExUnixStream(tokio::net::UnixStream);

#[verifier::external_type_specification]
#[verifier::external_body]
pub struct ExBaseDirectories(xdg::BaseDirectories);

/// Relies on tokio's runtime builder
/// (`Builder::new_current_thread().enable_all().build()`): a
/// single-threaded runtime with I/O enabled, used to drive one blocking
/// exchange on the socket.  Every failure is a transport failure.
#[verifier::external_body]
fn new_runtime() -> (r: Result<tokio::runtime::Runtime, ClientError>)
    ensures
        r matches Err(e) ==> e == ClientError::Transport,
{
    match tokio::runtime::Builder::new_current_thread().enable_all().build() {
        Ok(rt) => Ok(rt),
        Err(_) => Err(ClientError::Transport),
    }
}

/// Relies on `tokio::net::UnixStream::connect`: connects to the unix
/// socket at `path`; whether it succeeds depends on what listens there,
/// and every failure is a transport failure.  Driven through
/// `Runtime::block_on`, which panics when called from within an async
/// execution context: the caller must not be on a runtime.
#[verifier::external_body]
fn connect_unix(rt: &tokio::runtime::Runtime, path: &str) -> (r: Result<
    tokio::net::UnixStream,
    ClientError,
>)
    ensures
        r matches Err(e) ==> e == ClientError::Transport,
{
    match rt.block_on(tokio::net::UnixStream::connect(path)) {
        Ok(stream) => Ok(stream),
        Err(_) => Err(ClientError::Transport),
    }
}

/// Relies on `tokio::io::AsyncWriteExt::write_all`: on success the whole
/// one-byte buffer was written to the stream; every failure is a
/// transport failure.  Driven through `Runtime::block_on`, which panics
/// when called from within an async execution context: the caller must
/// not be on a runtime.
#[verifier::external_body]
fn write_byte(rt: &tokio::runtime::Runtime, stream: &mut tokio::net::UnixStream, byte: u8) -> (r:
    Result<(), ClientError>)
    ensures
        r matches Err(e) ==> e == ClientError::Transport,
{
    match rt.block_on(tokio::io::AsyncWriteExt::write_all(stream, &[byte])) {
        Ok(()) => Ok(()),
        Err(_) => Err(ClientError::Transport),
    }
}

/// Relies on `tokio::io::AsyncReadExt::read_exact`: on success the
/// one-byte buffer was filled from the stream; the byte read depends on
/// the peer, so nothing is assumed about its value, and every failure is
/// a transport failure.  Driven through `Runtime::block_on`, which panics
/// when called from within an async execution context: the caller must
/// not be on a runtime.
#[verifier::external_body]
fn read_byte(rt: &tokio::runtime::Runtime, stream: &mut tokio::net::UnixStream) -> (r: Result<
    u8,
    ClientError,
>)
    ensures
        r matches Err(e) ==> e == ClientError::Transport,
{
    let mut buf: [u8; 1] = [0];
    match rt.block_on(tokio::io::AsyncReadExt::read_exact(stream, &mut buf)) {
        Ok(_) => Ok(buf[0]),
        Err(_) => Err(ClientError::Transport),
    }
}

/// Relies on `xdg::BaseDirectories::with_prefix`: the per-user base
/// directories, placed under the given application prefix.  It reads the
/// environment and cannot fail.
#[verifier::external_body]
fn xdg_dirs(prefix: &str) -> (r: xdg::BaseDirectories) {
    xdg::BaseDirectories::with_prefix(prefix)
}

/// Relies on `xdg::BaseDirectories::place_runtime_file`: creates the
/// per-user runtime directory as needed and returns the path for the
/// file named `name` in it; errors exactly when no runtime directory is
/// available.  The result depends on the environment, so nothing is
/// assumed about the path's value; a path that is not unicode is an
/// error too.
#[verifier::external_body]
fn place_runtime_file_str(dirs: &xdg::BaseDirectories, name: &str) -> (r: Result<
    String,
    ClientError,
>)
    ensures
        r matches Err(e) ==> e == ClientError::SocketPath,
{
    match dirs.place_runtime_file(name) {
        Ok(path) => match path.to_str() {
            Some(p) => Ok(p.to_owned()),
            None => Err(ClientError::SocketPath),
        },
        Err(_) => Err(ClientError::SocketPath),
    }
}

/// The deterministic path of the daemon's control socket: the
/// application's `sock` file in the per-user runtime directory, created
/// as needed.  The well-known endpoint identity — the application prefix
/// and the file name — is fixed here, in verified code.
pub fn blocking_get_socket_path() -> (r: Result<String, ClientError>)
    ensures
        r matches Err(e) ==> e == ClientError::SocketPath,
{
    let dirs = xdg_dirs("hyprland_app_timer");
    place_runtime_file_str(&dirs, "sock")
}

/// A control-channel client: knows where the daemon's socket lives.
#[derive(Debug)]
pub struct Client {
    socket_path: String,
}

impl Client {
    /// The socket path this client addresses.
    pub closed spec fn spec_socket_path(&self) -> Seq<char> {
        self.socket_path@
    }

    /// A client for the daemon at the well-known per-user socket path.
    /// Errors exactly when that path cannot be had: no per-user runtime
    /// directory was available.
    pub fn blocking_new() -> (r: Result<Client, ClientError>)
        ensures
            r matches Err(e) ==> e == ClientError::SocketPath,
    {
        match blocking_get_socket_path() {
            Ok(socket_path) => Ok(Client { socket_path }),
            Err(e) => Err(e),
        }
    }

    /// A client for a daemon listening at an explicit socket path.
    pub fn with_socket_path(socket_path: String) -> (c: Client)
        ensures
            c.spec_socket_path() == socket_path@,
    {
        Client { socket_path }
    }

    /// Ask the running daemon to shut down gracefully.  Whether it
    /// succeeds is the transport's and the daemon's decision; a failure
    /// is never the socket-path error, since the path is already fixed.
    pub fn blocking_stop(&self) -> (r: Result<(), ClientError>)
        ensures
            r matches Err(e) ==> e != ClientError::SocketPath,
    {
        self.blocking_send_message(Message::Stop)
    }

    /// Ask the running daemon to flush its record buffer now.  Whether it
    /// succeeds is the transport's and the daemon's decision; a failure
    /// is never the socket-path error, since the path is already fixed.
    pub fn blocking_save(&self) -> (r: Result<(), ClientError>)
        ensures
            r matches Err(e) ==> e != ClientError::SocketPath,
    {
        self.blocking_send_message(Message::Save)
    }

    /// One full exchange: connect, write the request's byte, read the
    /// single response byte, and interpret it.  Success and failure are
    /// decided by the daemon and the transport, so the result states only
    /// how each response byte is interpreted — see `handle_response`.
    /// Builds its own small runtime, so it must not be called from within
    /// an async execution context.
    fn blocking_send_message(&self, msg: Message) -> (r: Result<(), ClientError>)
        ensures
            r matches Err(e) ==> e != ClientError::SocketPath,
    {
        let rt = match new_runtime() {
            Ok(rt) => rt,
            Err(e) => { return Err(e) },
        };
        let mut stream = match connect_unix(&rt, self.socket_path.as_str()) {
            Ok(stream) => stream,
            Err(e) => { return Err(e) },
        };
        match write_byte(&rt, &mut stream, msg.as_byte()) {
            Ok(()) => (),
            Err(e) => { return Err(e) },
        }
        let response = match read_byte(&rt, &mut stream) {
            Ok(b) => b,
            Err(e) => { return Err(e) },
        };
        let buf: [u8; 1] = [response];
        self.handle_response(buf.as_slice())
    }

    /// What each response byte means: success is the one and only byte
    /// that yields `Ok`; the daemon's unknown-message and failed codes map
    /// to their own errors; any other byte is an unexpected response.
    pub fn handle_response(&self, response_buf: &[u8]) -> (r: Result<(), ClientError>)
        requires
            response_buf@.len() >= 1,
        ensures
            r is Ok <==> response_buf@[0] == RESPONSE_SUCCESS,
            response_buf@[0] == RESPONSE_UNKNOWN_MESSAGE ==> r == Err::<(), ClientError>(
                ClientError::ServerUnknownMessage,
            ),
            response_buf@[0] == RESPONSE_FAILED ==> r == Err::<(), ClientError>(
                ClientError::ServerFailed,
            ),
            response_buf@[0] != RESPONSE_SUCCESS && response_buf@[0] != RESPONSE_UNKNOWN_MESSAGE
                && response_buf@[0] != RESPONSE_FAILED ==> r == Err::<(), ClientError>(
                ClientError::UnexpectedResponse,
            ),
    {
        let b = response_buf[0];
        match ResponseMessage::try_from_byte(b) {
            Ok(ResponseMessage::Success) => Ok(()),
            Ok(ResponseMessage::UnknownMessage) => Err(ClientError::ServerUnknownMessage),
            Ok(ResponseMessage::Failed) => Err(ClientError::ServerFailed),
            Err(()) => Err(ClientError::UnexpectedResponse),
        }
    }
}

} // verus!
