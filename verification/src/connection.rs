//! The connection context: which runtime endpoint is active, and how a
//! client handle for it is obtained.
//!
//! The context is a plain value. A caller that shares it between tasks guards
//! it with one lock and hands these functions the guarded value, so that a
//! switch replaces both of its fields in one step.

use crate::text::{decimal, decimal_text};
use bollard::Docker;
use vstd::prelude::*;

verus! {

/// `bollard::Docker`, the client handle. Nothing inside it is visible
/// here.
#[verifier::external_type_specification]
#[verifier::external_body]
pub struct ExDocker(bollard::Docker);

/// `bollard::errors::Error`, the client's error. Nothing inside it is
/// visible here.
#[verifier::external_type_specification]
#[verifier::external_body]
pub struct ExDockerError(bollard::errors::Error);

/// Seconds after which a request to the runtime is given up.
pub const REQUEST_TIMEOUT_SECONDS: u64 = 120;

/// Whether the runtime is reached on this machine or over the network.
#[derive(Clone, Copy, Debug, PartialEq, Eq, Structural)]
pub enum EndpointKind {
    Local,
    Remote,
}

/// How a remote runtime is reached.
#[derive(Clone, Debug, PartialEq, Eq)]
pub struct RemoteParameters {
    pub host: String,
    pub port: u16,
    pub username: String,
    pub password: Option<String>,
    pub key_path: Option<String>,
}

/// The active endpoint. Remote parameters are there exactly when the
/// endpoint is remote.
#[derive(Clone, Debug, PartialEq, Eq)]
pub struct ConnectionContext {
    pub endpoint_kind: EndpointKind,
    pub remote_parameters: Option<RemoteParameters>,
}

/// What the user is shown of the connection.
#[derive(Clone, Debug, PartialEq, Eq)]
pub struct ConnectionInfo {
    pub connection_type: String,
    pub host: String,
    pub connected: bool,
}

/// What a `ConnectionInfo` holds.
pub struct ConnectionInfoView {
    pub connection_type: Seq<char>,
    pub host: Seq<char>,
    pub connected: bool,
}

impl View for ConnectionInfo {
    type V = ConnectionInfoView;

    open spec fn view(&self) -> ConnectionInfoView {
        ConnectionInfoView {
            connection_type: self.connection_type@,
            host: self.host@,
            connected: self.connected,
        }
    }
}

/// Why no client handle could be had.
#[derive(Clone, Debug, PartialEq, Eq)]
pub enum ConnectionError {
    /// The endpoint is remote, but there are no remote parameters.
    NotConfigured,
    /// The client could not be set up; the text says why.
    Unreachable(String),
}

/// The operation during which a connection failed.
#[derive(Clone, Copy, Debug, PartialEq, Eq, Structural)]
pub enum Attempt {
    /// Obtaining a client handle for the local endpoint.
    ResolveLocal,
    /// Obtaining a client handle for the remote endpoint.
    ResolveRemote,
    /// Switching to the local endpoint.
    SwitchLocal,
    /// Switching to a remote endpoint.
    SwitchRemote,
}

/// What a client handle is set up for.
#[derive(Clone, Debug, PartialEq, Eq)]
pub enum ClientTarget {
    /// The runtime of this machine, at its default place.
    Local,
    /// A runtime reached over HTTP, with the seconds after which a request
    /// is given up.
    Http { url: String, timeout: u64 },
}

/// What a `ClientTarget` holds.
pub enum ClientTargetView {
    Local,
    Http { url: Seq<char>, timeout: u64 },
}

impl View for ClientTarget {
    type V = ClientTargetView;

    open spec fn view(&self) -> ClientTargetView {
        match self {
            ClientTarget::Local => ClientTargetView::Local,
            ClientTarget::Http { url, timeout } => ClientTargetView::Http {
                url: url@,
                timeout: *timeout,
            },
        }
    }
}

/// The address a remote runtime is reached at.
pub open spec fn remote_url_text(host: Seq<char>) -> Seq<char> {
    "http://"@ + host + ":2375"@
}

/// How a remote endpoint is shown: user, host and port.
pub open spec fn remote_label(params: RemoteParameters) -> Seq<char> {
    params.username@ + "@"@ + params.host@ + ":"@ + decimal_text(params.port as nat)
}

/// What a client for a remote endpoint is set up for.
pub open spec fn remote_target_view(params: RemoteParameters) -> ClientTargetView {
    ClientTargetView::Http {
        url: remote_url_text(params.host@),
        timeout: REQUEST_TIMEOUT_SECONDS,
    }
}

/// What is shown of the local endpoint.
pub open spec fn local_info(connected: bool) -> ConnectionInfoView {
    ConnectionInfoView { connection_type: "local"@, host: "localhost"@, connected }
}

/// What is shown of a remote endpoint.
pub open spec fn remote_info(params: RemoteParameters) -> ConnectionInfoView {
    ConnectionInfoView { connection_type: "ssh"@, host: remote_label(params), connected: true }
}

impl ConnectionContext {
    /// Remote parameters are there exactly when the endpoint is remote.
    pub open spec fn wf(self) -> bool {
        self.remote_parameters is Some <==> self.endpoint_kind == EndpointKind::Remote
    }

    /// Whether the endpoint is remote and its parameters are missing.
    pub open spec fn unconfigured(self) -> bool {
        self.endpoint_kind == EndpointKind::Remote && self.remote_parameters is None
    }

    /// What a client for the active endpoint is set up for, if the endpoint
    /// is configured.
    pub open spec fn target(self) -> Option<ClientTargetView> {
        match self.endpoint_kind {
            EndpointKind::Local => Some(ClientTargetView::Local),
            EndpointKind::Remote => match self.remote_parameters {
                Some(params) => Some(remote_target_view(params)),
                None => None,
            },
        }
    }

    /// What is shown of this context. A remote endpoint without parameters
    /// is shown as a local one that is not connected.
    pub open spec fn info(self) -> ConnectionInfoView {
        match self.endpoint_kind {
            EndpointKind::Local => local_info(true),
            EndpointKind::Remote => match self.remote_parameters {
                Some(params) => remote_info(params),
                None => local_info(false),
            },
        }
    }

    /// The context a process starts with: the local endpoint.
    pub fn new() -> (ctx: Self)
        ensures
            ctx.wf(),
            ctx.endpoint_kind == EndpointKind::Local,
            ctx.remote_parameters is None,
    {
        ConnectionContext { endpoint_kind: EndpointKind::Local, remote_parameters: None }
    }
}

impl Default for ConnectionContext {
    fn default() -> (ctx: Self)
        ensures
            ctx.wf(),
            ctx.endpoint_kind == EndpointKind::Local,
            ctx.remote_parameters is None,
    {
        ConnectionContext::new()
    }
}

/// Calls `Docker::connect_with_http` with the default client version.
/// Trusted: nothing is claimed of the outcome.
#[verifier::external_body]
fn connect_http(url: &str, timeout: u64) -> (r: Result<Docker, bollard::errors::Error>) {
    Docker::connect_with_http(url, timeout, bollard::API_DEFAULT_VERSION)
}

/// Calls `Docker::connect_with_local_defaults`. Trusted: nothing is claimed
/// of the outcome, which depends on the machine.
#[verifier::external_body]
fn connect_local_defaults() -> (r: Result<Docker, bollard::errors::Error>) {
    Docker::connect_with_local_defaults()
}

/// The text of a client error, as its `Display` gives it. Trusted: nothing
/// is claimed of the text.
#[verifier::external_body]
fn error_text(error: &bollard::errors::Error) -> (text: String) {
    error.to_string()
}

/// The address a remote runtime is reached at: plain HTTP on port 2375 of
/// the host.
pub fn remote_url(host: &str) -> (url: String)
    ensures
        url@ == remote_url_text(host@),
{
    let mut url = "http://".to_owned();
    url.append(host);
    url.append(":2375");
    url
}

fn local_connection_info(connected: bool) -> (info: ConnectionInfo)
    ensures
        info@ == local_info(connected),
{
    ConnectionInfo {
        connection_type: "local".to_owned(),
        host: "localhost".to_owned(),
        connected,
    }
}

fn remote_connection_info(params: &RemoteParameters) -> (info: ConnectionInfo)
    ensures
        info@ == remote_info(*params),
{
    let mut label = params.username.clone();
    label.append("@");
    label.append(params.host.as_str());
    label.append(":");
    let port = decimal(params.port);
    label.append(port.as_str());
    ConnectionInfo { connection_type: "ssh".to_owned(), host: label, connected: true }
}

/// What is shown of the connection.
pub fn get_connection_info(ctx: &ConnectionContext) -> (info: ConnectionInfo)
    ensures
        info@ == ctx.info(),
{
    match ctx.endpoint_kind {
        EndpointKind::Local => local_connection_info(true),
        EndpointKind::Remote => match &ctx.remote_parameters {
            Some(params) => remote_connection_info(params),
            None => local_connection_info(false),
        },
    }
}

/// Turns the outcome of setting up a client into the library's terms: a
/// handle is passed on, a failure becomes `Unreachable`.
pub fn client_or_unreachable(outcome: Result<Docker, bollard::errors::Error>) -> (r: Result<
    Docker,
    ConnectionError,
>)
    ensures
        outcome matches Ok(client) ==> r == Ok::<Docker, ConnectionError>(client),
        outcome is Err ==> r matches Err(ConnectionError::Unreachable(_)),
{
    match outcome {
        Ok(client) => Ok(client),
        Err(error) => Err(ConnectionError::Unreachable(error_text(&error))),
    }
}

/// What a client for a remote endpoint is set up for.
pub fn remote_target(params: &RemoteParameters) -> (target: ClientTarget)
    ensures
        target@ == remote_target_view(*params),
{
    ClientTarget::Http { url: remote_url(params.host.as_str()), timeout: REQUEST_TIMEOUT_SECONDS }
}

/// What a client for the active endpoint is set up for. Fails with
/// `NotConfigured` exactly when the endpoint is remote without parameters.
pub fn resolve_target(ctx: &ConnectionContext) -> (r: Result<ClientTarget, ConnectionError>)
    ensures
        match r {
            Ok(target) => ctx.target() == Some(target@),
            Err(error) => ctx.target() is None && error == ConnectionError::NotConfigured,
        },
{
    match ctx.endpoint_kind {
        EndpointKind::Local => Ok(ClientTarget::Local),
        EndpointKind::Remote => match &ctx.remote_parameters {
            Some(params) => Ok(remote_target(params)),
            None => Err(ConnectionError::NotConfigured),
        },
    }
}

/// Sets up a client for a target. Whether that succeeds is for the client
/// library and the machine to say.
pub fn connect(target: &ClientTarget) -> (r: Result<Docker, ConnectionError>)
    ensures
        r matches Err(error) ==> error is Unreachable,
{
    match target {
        ClientTarget::Local => client_or_unreachable(connect_local_defaults()),
        ClientTarget::Http { url, timeout } => client_or_unreachable(
            connect_http(url.as_str(), *timeout),
        ),
    }
}

/// A client handle for the active endpoint.
///
/// Fails with `NotConfigured` exactly when the endpoint is remote without
/// parameters; any other failure is `Unreachable`.
pub fn resolve_client(ctx: &ConnectionContext) -> (r: Result<Docker, ConnectionError>)
    ensures
        ctx.unconfigured() <==> r matches Err(ConnectionError::NotConfigured),
        !ctx.unconfigured() && r is Err ==> r matches Err(ConnectionError::Unreachable(_)),
{
    match resolve_target(ctx) {
        Ok(target) => connect(&target),
        Err(error) => Err(error),
    }
}

/// Finishes a switch to the local endpoint, given how setting up the local
/// client went. The context is local either way.
pub fn settle_local(ctx: &mut ConnectionContext, reached: Result<(), ConnectionError>) -> (r:
    Result<ConnectionInfo, ConnectionError>)
    ensures
        final(ctx).wf(),
        final(ctx).endpoint_kind == EndpointKind::Local,
        final(ctx).remote_parameters is None,
        reached is Ok ==> (r matches Ok(info) && info@ == local_info(true)),
        reached matches Err(error) ==> r == Err::<ConnectionInfo, ConnectionError>(error),
{
    ctx.endpoint_kind = EndpointKind::Local;
    ctx.remote_parameters = None;
    match reached {
        Ok(()) => Ok(local_connection_info(true)),
        Err(error) => Err(error),
    }
}

/// Finishes a switch to a remote endpoint, given how setting up a client
/// for it went: on success the context takes the new endpoint, kind and
/// parameters together; on failure it is left as it was.
pub fn settle_remote(
    ctx: &mut ConnectionContext,
    params: RemoteParameters,
    reached: Result<(), ConnectionError>,
) -> (r: Result<ConnectionInfo, ConnectionError>)
    ensures
        reached is Ok ==> {
            &&& final(ctx).endpoint_kind == EndpointKind::Remote
            &&& final(ctx).remote_parameters == Some(params)
            &&& final(ctx).wf()
            &&& (r matches Ok(info) && info@ == remote_info(params))
        },
        reached matches Err(error) ==> {
            &&& *final(ctx) == *old(ctx)
            &&& final(ctx).info() == old(ctx).info()
            &&& r == Err::<ConnectionInfo, ConnectionError>(error)
        },
{
    match reached {
        Ok(()) => {
            let info = remote_connection_info(&params);
            ctx.endpoint_kind = EndpointKind::Remote;
            ctx.remote_parameters = Some(params);
            Ok(info)
        },
        Err(error) => Err(error),
    }
}

fn reached(outcome: Result<Docker, ConnectionError>) -> (r: Result<(), ConnectionError>)
    ensures
        outcome is Ok ==> r is Ok,
        outcome matches Err(error) ==> r == Err::<(), ConnectionError>(error),
{
    match outcome {
        Ok(_) => Ok(()),
        Err(error) => Err(error),
    }
}

/// Makes the local endpoint the active one and says whether it can be
/// reached.
pub fn switch_to_local(ctx: &mut ConnectionContext) -> (r: Result<ConnectionInfo, ConnectionError>)
    ensures
        final(ctx).wf(),
        final(ctx).endpoint_kind == EndpointKind::Local,
        final(ctx).remote_parameters is None,
        r matches Ok(info) ==> info@ == local_info(true),
        r matches Err(error) ==> error is Unreachable,
{
    let outcome = connect(&ClientTarget::Local);
    settle_local(ctx, reached(outcome))
}

/// Makes a remote endpoint the active one, provided a client for it can be
/// set up. Otherwise the context is left as it was and the failure is
/// `Unreachable`.
pub fn switch_to_remote(ctx: &mut ConnectionContext, params: RemoteParameters) -> (r: Result<
    ConnectionInfo,
    ConnectionError,
>)
    ensures
        r matches Ok(info) ==> {
            &&& final(ctx).endpoint_kind == EndpointKind::Remote
            &&& final(ctx).remote_parameters == Some(params)
            &&& final(ctx).wf()
            &&& info@ == remote_info(params)
        },
        r matches Err(error) ==> {
            &&& *final(ctx) == *old(ctx)
            &&& final(ctx).info() == old(ctx).info()
            &&& error is Unreachable
        },
{
    let outcome = connect(&remote_target(&params));
    settle_remote(ctx, params, reached(outcome))
}

/// The text of a failure.
pub open spec fn failure_text(attempt: Attempt, error: ConnectionError) -> Seq<char> {
    match error {
        ConnectionError::NotConfigured => "SSH configuration not set"@,
        ConnectionError::Unreachable(detail) => match attempt {
            Attempt::ResolveLocal => "Failed to connect to local Docker: "@ + detail@,
            Attempt::ResolveRemote => "Failed to connect via SSH: "@ + detail@,
            Attempt::SwitchLocal => "Local connection failed: "@ + detail@,
            Attempt::SwitchRemote => "Connection failed: "@ + detail@
                + ". Make sure Docker is exposed on port 2375 on remote host"@,
        },
    }
}

/// What the user is told when a connection failed during `attempt`.
pub fn failure_message(attempt: Attempt, error: &ConnectionError) -> (message: String)
    ensures
        message@ == failure_text(attempt, *error),
{
    match error {
        ConnectionError::NotConfigured => "SSH configuration not set".to_owned(),
        ConnectionError::Unreachable(detail) => match attempt {
            Attempt::ResolveLocal => {
                let mut message = "Failed to connect to local Docker: ".to_owned();
                message.append(detail.as_str());
                message
            },
            Attempt::ResolveRemote => {
                let mut message = "Failed to connect via SSH: ".to_owned();
                message.append(detail.as_str());
                message
            },
            Attempt::SwitchLocal => {
                let mut message = "Local connection failed: ".to_owned();
                message.append(detail.as_str());
                message
            },
            Attempt::SwitchRemote => {
                let mut message = "Connection failed: ".to_owned();
                message.append(detail.as_str());
                message.append(". Make sure Docker is exposed on port 2375 on remote host");
                message
            },
        },
    }
}

/// The operation that fails when no client handle can be had for an
/// endpoint of the given kind.
pub fn resolve_attempt(kind: EndpointKind) -> (attempt: Attempt)
    ensures
        attempt == match kind {
            EndpointKind::Local => Attempt::ResolveLocal,
            EndpointKind::Remote => Attempt::ResolveRemote,
        },
{
    match kind {
        EndpointKind::Local => Attempt::ResolveLocal,
        EndpointKind::Remote => Attempt::ResolveRemote,
    }
}

} // verus!
