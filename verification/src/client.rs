//! The connection: the first link of the ownership chain. It initialises the
//! backend when it is opened and stops it when it is closed, and it hands
//! out servers. Every operation is given the backend it works on, and its
//! contract says which calls it makes, in order, and what it returns, for
//! whatever the backend answers.

use crate::backend::{Event, HandleReply, NativeBackend};
use crate::error::{outcome, ErrorView, OpcError, OpcResult};
use crate::server::{OpcServer, ServerView};
use crate::text::{decimal_digits, push_decimal, push_str};
use crate::utils::{to_wide_string, wide_string};
use vstd::prelude::*;

verus! {

/// The error for a backend that refused to initialise with the given code.
pub open spec fn init_failure(code: u32) -> ErrorView {
    ErrorView::ComInitializationFailed(
        "Failed to initialize OPC client with error code: "@ + decimal_digits(code as nat),
    )
}

/// The error for a connection that was never initialised.
pub open spec fn not_initialized() -> ErrorView {
    ErrorView::ComInitializationFailed("OPC client not initialized"@)
}

/// The error for a host that could not be resolved.
pub open spec fn host_failure(hostname: Seq<char>) -> ErrorView {
    ErrorView::ConnectionFailed("Failed to connect to host '"@ + hostname + "'"@)
}

/// The error for a server that could not be reached on a resolved host.
pub open spec fn server_failure(server_name: Seq<char>, hostname: Seq<char>) -> ErrorView {
    ErrorView::ConnectionFailed(
        "Failed to connect to server '"@ + server_name + "' on host '"@ + hostname + "'"@,
    )
}

/// Whether an entry point that hands out a handle succeeded: the code is
/// zero and the handle is not null.
pub open spec fn granted(reply: HandleReply) -> bool {
    reply.code == 0 && reply.handle != 0
}

/// Judges the return code of initialisation.
pub fn check_init(code: u32) -> (r: OpcResult<()>)
    ensures
        code == 0 ==> r is Ok,
        code != 0 ==> (r matches Err(e) && e@ == init_failure(code)),
{
    if code == 0 {
        Ok(())
    } else {
        let mut msg = "Failed to initialize OPC client with error code: ".to_string();
        push_decimal(&mut msg, code as u128);
        Err(OpcError::ComInitializationFailed(msg))
    }
}

/// Judges the answer to resolving a host: the host handle, or the error that
/// names the host.
pub fn check_host(reply: HandleReply, hostname: &str) -> (r: OpcResult<usize>)
    ensures
        granted(reply) ==> (r matches Ok(host) && host == reply.handle),
        !granted(reply) ==> (r matches Err(e) && e@ == host_failure(hostname@)),
{
    if reply.code != 0 || reply.handle == 0 {
        let mut msg = "Failed to connect to host '".to_string();
        push_str(&mut msg, hostname);
        push_str(&mut msg, "'");
        Err(OpcError::ConnectionFailed(msg))
    } else {
        Ok(reply.handle)
    }
}

/// Judges the answer to connecting to a server: the server handle, or the
/// error that names the server and the host.
pub fn check_server(reply: HandleReply, hostname: &str, server_name: &str) -> (r: OpcResult<usize>)
    ensures
        granted(reply) ==> (r matches Ok(server) && server == reply.handle),
        !granted(reply) ==> (r matches Err(e) && e@ == server_failure(server_name@, hostname@)),
{
    if reply.code == 0 && reply.handle != 0 {
        Ok(reply.handle)
    } else {
        let mut msg = "Failed to connect to server '".to_string();
        push_str(&mut msg, server_name);
        push_str(&mut msg, "' on host '");
        push_str(&mut msg, hostname);
        push_str(&mut msg, "'");
        Err(OpcError::ConnectionFailed(msg))
    }
}

/// Opening a connection, given the code that initialisation answers: the
/// one call made, and the connection or the error that names the code.
pub open spec fn opening(code: u32) -> (Seq<Event>, Result<bool, ErrorView>) {
    (
        seq![Event::Init { code }],
        if code == 0 {
            Ok(true)
        } else {
            Err(init_failure(code))
        },
    )
}

/// Connecting to a server, given what the backend answers. An uninitialised
/// connection makes no call. The host is resolved first; where that fails
/// nothing is left to release. Where the server cannot be reached on the
/// host, the host handle is released before the error is returned.
pub open spec fn connecting(
    initialized: bool,
    hostname: Seq<char>,
    server_name: Seq<char>,
    host_reply: HandleReply,
    server_reply: HandleReply,
) -> (Seq<Event>, Result<ServerView, ErrorView>) {
    let resolve = Event::MakeHost { name: wide_string(hostname), reply: host_reply };
    let connect = Event::ConnectServer {
        host: host_reply.handle,
        name: wide_string(server_name),
        reply: server_reply,
    };
    if !initialized {
        (Seq::empty(), Err(not_initialized()))
    } else if !granted(host_reply) {
        (seq![resolve], Err(host_failure(hostname)))
    } else if !granted(server_reply) {
        (
            seq![resolve, connect, Event::FreeHost { host: host_reply.handle }],
            Err(server_failure(server_name, hostname)),
        )
    } else {
        (
            seq![resolve, connect],
            Ok(ServerView { handle: server_reply.handle, host: host_reply.handle }),
        )
    }
}

/// Closing a connection: the backend is stopped if it was initialised.
pub open spec fn closing(initialized: bool) -> Seq<Event> {
    if initialized {
        seq![Event::Stop]
    } else {
        Seq::empty()
    }
}

/// Opening a connection and connecting to a server in one step, given what
/// the backend answers: where connecting fails the connection is closed
/// again.
pub open spec fn session(
    hostname: Seq<char>,
    server_name: Seq<char>,
    code: u32,
    host_reply: HandleReply,
    server_reply: HandleReply,
) -> (Seq<Event>, Result<(bool, ServerView), ErrorView>) {
    let connected = connecting(true, hostname, server_name, host_reply, server_reply);
    match opening(code).1 {
        Err(e) => (opening(code).0, Err(e)),
        Ok(_) => match connected.1 {
            Ok(server) => (opening(code).0 + connected.0, Ok((true, server))),
            Err(e) => (opening(code).0 + connected.0 + closing(true), Err(e)),
        },
    }
}

/// A host that cannot be resolved is a connection failure that names the
/// host, and it leaves nothing to release: the attempt to resolve it is the
/// only call made.
pub proof fn lemma_unresolved_host(
    hostname: Seq<char>,
    server_name: Seq<char>,
    host_reply: HandleReply,
    server_reply: HandleReply,
)
    requires
        !granted(host_reply),
    ensures
        ({
            let (calls, result) = connecting(true, hostname, server_name, host_reply, server_reply);
            &&& result == Err::<ServerView, ErrorView>(host_failure(hostname))
            &&& host_failure(hostname) is ConnectionFailed
            &&& calls == seq![Event::MakeHost { name: wide_string(hostname), reply: host_reply }]
            &&& forall|i: int| 0 <= i < calls.len() ==> !(#[trigger] calls[i] is FreeHost)
        }),
{
}

/// A host handle that connecting obtains is either owned by the server that
/// is returned, and then not released, or released exactly once, by the last
/// call made, before the connection failure is returned.
pub proof fn lemma_host_owned_or_released(
    hostname: Seq<char>,
    server_name: Seq<char>,
    host_reply: HandleReply,
    server_reply: HandleReply,
)
    requires
        granted(host_reply),
    ensures
        ({
            let (calls, result) = connecting(true, hostname, server_name, host_reply, server_reply);
            match result {
                Ok(server) => {
                    &&& granted(server_reply)
                    &&& server.host == host_reply.handle
                    &&& server.handle == server_reply.handle
                    &&& forall|i: int| 0 <= i < calls.len() ==> !(#[trigger] calls[i] is FreeHost)
                },
                Err(e) => {
                    &&& !granted(server_reply)
                    &&& e == server_failure(server_name, hostname)
                    &&& e is ConnectionFailed
                    &&& calls.last() == Event::FreeHost { host: host_reply.handle }
                    &&& forall|i: int|
                        0 <= i < calls.len() - 1 ==> !(#[trigger] calls[i] is FreeHost)
                },
            }
        }),
{
}

/// A session that fails after the backend was initialised stops the backend
/// as its last call; one that succeeds, or whose initialisation fails, does
/// not stop it.
pub proof fn lemma_failed_session_is_closed(
    hostname: Seq<char>,
    server_name: Seq<char>,
    code: u32,
    host_reply: HandleReply,
    server_reply: HandleReply,
)
    ensures
        ({
            let (calls, result) = session(hostname, server_name, code, host_reply, server_reply);
            &&& calls[0] == Event::Init { code }
            &&& code == 0 && result is Err ==> calls.last() == Event::Stop
            &&& code != 0 || result is Ok ==> forall|i: int|
                0 <= i < calls.len() ==> !(#[trigger] calls[i] is Stop)
            &&& code != 0 ==> result == Err::<(bool, ServerView), ErrorView>(init_failure(code))
        }),
{
}

/// An open connection to the backend. It is owned by one owner at a time and
/// is closed once, by [`OpcClient::close`].
pub struct OpcClient {
    initialized: bool,
}

impl View for OpcClient {
    type V = bool;

    /// Whether the backend was initialised for this connection.
    closed spec fn view(&self) -> bool {
        self.initialized
    }
}

impl OpcClient {
    /// Opens a connection: initialises the backend, once. The backend's
    /// refusal is reported with its code.
    pub fn new<B: NativeBackend>(backend: &mut B) -> (r: OpcResult<OpcClient>)
        ensures
            exists|code: u32|
                #![trigger opening(code)]
                final(backend).log() == old(backend).log() + opening(code).0 && outcome(r)
                    == opening(code).1,
            B::unavailable() ==> r is Err,
    {
        let code = backend.init();
        let r = match check_init(code) {
            Ok(()) => Ok(OpcClient { initialized: true }),
            Err(e) => Err(e),
        };
        proof {
            assert(backend.log() =~= old(backend).log() + opening(code).0);
            assert(outcome(r) == opening(code).1);
        }
        r
    }

    /// Connects to a server on this machine.
    pub fn connect_to_local_server<B: NativeBackend>(
        &self,
        backend: &mut B,
        server_name: &str,
    ) -> (r: OpcResult<OpcServer>)
        ensures
            exists|host_reply: HandleReply, server_reply: HandleReply|
                #![trigger connecting(self@, "localhost"@, server_name@, host_reply, server_reply)]
                final(backend).log() == old(backend).log() + connecting(
                    self@,
                    "localhost"@,
                    server_name@,
                    host_reply,
                    server_reply,
                ).0 && outcome(r) == connecting(
                    self@,
                    "localhost"@,
                    server_name@,
                    host_reply,
                    server_reply,
                ).1,
            B::unavailable() && self@ ==> outcome(r) == Err::<ServerView, ErrorView>(
                host_failure("localhost"@),
            ),
    {
        self.connect_to_server(backend, "localhost", server_name)
    }

    /// Connects to a named server on a named host. The host is resolved
    /// first; where the server cannot be reached on it, the host handle is
    /// released again before the error is returned.
    pub fn connect_to_server<B: NativeBackend>(
        &self,
        backend: &mut B,
        hostname: &str,
        server_name: &str,
    ) -> (r: OpcResult<OpcServer>)
        ensures
            exists|host_reply: HandleReply, server_reply: HandleReply|
                #![trigger connecting(self@, hostname@, server_name@, host_reply, server_reply)]
                final(backend).log() == old(backend).log() + connecting(
                    self@,
                    hostname@,
                    server_name@,
                    host_reply,
                    server_reply,
                ).0 && outcome(r) == connecting(
                    self@,
                    hostname@,
                    server_name@,
                    host_reply,
                    server_reply,
                ).1,
            B::unavailable() && self@ ==> outcome(r) == Err::<ServerView, ErrorView>(
                host_failure(hostname@),
            ),
    {
        let ghost nothing = HandleReply { code: 0, handle: 0 };
        if !self.initialized {
            let r = Err(OpcError::ComInitializationFailed("OPC client not initialized".to_string()));
            proof {
                let run = connecting(self@, hostname@, server_name@, nothing, nothing);
                assert(backend.log() =~= old(backend).log() + run.0);
                assert(outcome(r) == run.1);
            }
            return r;
        }
        let hostname_wide = to_wide_string(hostname);
        let host_reply = backend.make_host(hostname_wide.as_slice());
        let host = match check_host(host_reply, hostname) {
            Ok(host) => host,
            Err(e) => {
                let r = Err(e);
                proof {
                    let run = connecting(self@, hostname@, server_name@, host_reply, nothing);
                    assert(backend.log() =~= old(backend).log() + run.0);
                    assert(outcome(r) == run.1);
                }
                return r;
            },
        };
        let server_name_wide = to_wide_string(server_name);
        let server_reply = backend.connect_server(host, server_name_wide.as_slice());
        let r = match check_server(server_reply, hostname, server_name) {
            Ok(server) => Ok(OpcServer::new(server, host)),
            Err(e) => {
                backend.free_host(host);
                Err(e)
            },
        };
        proof {
            let run = connecting(self@, hostname@, server_name@, host_reply, server_reply);
            assert(backend.log() =~= old(backend).log() + run.0);
            assert(outcome(r) == run.1);
        }
        r
    }

    /// Whether the backend was initialised for this connection.
    pub fn is_initialized(&self) -> (b: bool)
        ensures
            b == self@,
    {
        self.initialized
    }

    /// Closes the connection: stops the backend if it was initialised. No
    /// handle that descends from this connection may be used afterwards.
    pub fn close<B: NativeBackend>(self, backend: &mut B)
        ensures
            final(backend).log() == old(backend).log() + closing(self@),
    {
        if self.initialized {
            backend.stop();
        }
        assert(backend.log() =~= old(backend).log() + closing(self@));
    }
}

/// Opens a connection and connects to a server on this machine. The
/// connection is returned with the server, since the server can only be used
/// until the connection is closed; where connecting fails the connection is
/// closed again.
pub fn connect_to_server<B: NativeBackend>(backend: &mut B, server_name: &str) -> (r: OpcResult<
    (OpcClient, OpcServer),
>)
    ensures
        exists|code: u32, host_reply: HandleReply, server_reply: HandleReply|
            #![trigger session("localhost"@, server_name@, code, host_reply, server_reply)]
            final(backend).log() == old(backend).log() + session(
                "localhost"@,
                server_name@,
                code,
                host_reply,
                server_reply,
            ).0 && outcome(r) == session(
                "localhost"@,
                server_name@,
                code,
                host_reply,
                server_reply,
            ).1,
        B::unavailable() ==> r is Err,
{
    connect_to_server_on_host(backend, "localhost", server_name)
}

/// Opens a connection and connects to a server on a named host. The
/// connection is returned with the server, since the server can only be used
/// until the connection is closed; where connecting fails the connection is
/// closed again.
pub fn connect_to_server_on_host<B: NativeBackend>(
    backend: &mut B,
    hostname: &str,
    server_name: &str,
) -> (r: OpcResult<(OpcClient, OpcServer)>)
    ensures
        exists|code: u32, host_reply: HandleReply, server_reply: HandleReply|
            #![trigger session(hostname@, server_name@, code, host_reply, server_reply)]
            final(backend).log() == old(backend).log() + session(
                hostname@,
                server_name@,
                code,
                host_reply,
                server_reply,
            ).0 && outcome(r) == session(hostname@, server_name@, code, host_reply, server_reply).1,
        B::unavailable() ==> r is Err,
{
    let ghost nothing = HandleReply { code: 0, handle: 0 };
    let client = match OpcClient::new(backend) {
        Ok(client) => client,
        Err(e) => {
            let r = Err(e);
            proof {
                let code = choose|code: u32|
                    #![trigger opening(code)]
                    backend.log() == old(backend).log() + opening(code).0 && outcome(
                        Err::<OpcClient, OpcError>(e),
                    ) == opening(code).1;
                let run = session(hostname@, server_name@, code, nothing, nothing);
                assert(backend.log() =~= old(backend).log() + run.0);
                assert(outcome(r) == run.1);
            }
            return r;
        },
    };
    let ghost opened = backend.log();
    let connected = client.connect_to_server(backend, hostname, server_name);
    let ghost reached = backend.log();
    let r = match connected {
        Ok(server) => Ok((client, server)),
        Err(e) => {
            client.close(backend);
            Err(e)
        },
    };
    proof {
        let code = choose|code: u32|
            #![trigger opening(code)]
            opened == old(backend).log() + opening(code).0 && Ok::<bool, ErrorView>(true)
                == opening(code).1;
        let (host_reply, server_reply) = choose|host_reply: HandleReply, server_reply: HandleReply|
            #![trigger connecting(true, hostname@, server_name@, host_reply, server_reply)]
            reached == opened + connecting(
                true,
                hostname@,
                server_name@,
                host_reply,
                server_reply,
            ).0 && outcome(connected) == connecting(
                true,
                hostname@,
                server_name@,
                host_reply,
                server_reply,
            ).1;
        let run = session(hostname@, server_name@, code, host_reply, server_reply);
        assert(backend.log() =~= old(backend).log() + run.0);
        assert(outcome(r) == run.1);
    }
    r
}

} // verus!
