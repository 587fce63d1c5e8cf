//! What the process is configured with.

use vstd::prelude::*;

verus! {

/// The port that is served where none is given.
pub const DEFAULT_PORT: u16 = 7212;

/// How many connections may wait to be accepted.
pub const BACKLOG: u32 = 3;

/// The parameters of one run of the relay.
#[derive(Clone, Copy, Debug, PartialEq, Eq, Structural)]
pub struct CliParams {
    /// The application identifier that the presence session is opened for.
    pub app_id: i64,
    /// The local port that agents connect to.
    pub port: u16,
}

impl CliParams {
    /// The parameters for `app_id`, serving `port` or, without one, the
    /// default port.
    pub fn new(app_id: i64, port: Option<u16>) -> (params: CliParams)
        ensures
            params.app_id == app_id,
            params.port == match port {
                Some(port) => port,
                None => DEFAULT_PORT,
            },
    {
        match port {
            Some(port) => CliParams { app_id, port },
            None => CliParams { app_id, port: DEFAULT_PORT },
        }
    }
}

/// Which events of the presence service a session asks for.
#[derive(Clone, Copy, Debug, PartialEq, Eq, Structural)]
pub struct Subscriptions {
    pub activity: bool,
    pub user: bool,
    pub overlay: bool,
    pub relationships: bool,
}

/// What opens the presence session.
#[derive(Clone, Copy, Debug, PartialEq, Eq, Structural)]
pub struct PresenceRequest {
    pub app_id: i64,
    pub subscriptions: Subscriptions,
}

/// An IPv4 address by its four bytes, first byte first.
#[derive(Clone, Copy, Debug, PartialEq, Eq, Structural)]
pub struct Ipv4 {
    pub a: u8,
    pub b: u8,
    pub c: u8,
    pub d: u8,
}

/// Where the relay listens.
#[derive(Clone, Copy, Debug, PartialEq, Eq, Structural)]
pub struct ListenRequest {
    pub address: Ipv4,
    pub port: u16,
    pub backlog: u32,
}

/// The session that the relay opens for `app_id`: events of activity and no
/// others.
pub open spec fn presence_request(app_id: i64) -> PresenceRequest {
    PresenceRequest {
        app_id,
        subscriptions: Subscriptions {
            activity: true,
            user: false,
            overlay: false,
            relationships: false,
        },
    }
}

/// The loopback address, 127.0.0.1.
pub open spec fn loopback() -> Ipv4 {
    Ipv4 { a: 127, b: 0, c: 0, d: 1 }
}

/// The socket that the relay serves `port` on: the loopback address, with
/// the bounded backlog.
pub open spec fn listen_request(port: u16) -> ListenRequest {
    ListenRequest { address: loopback(), port, backlog: BACKLOG }
}

impl PresenceRequest {
    /// Builds [`presence_request`].
    pub fn for_app(app_id: i64) -> (request: PresenceRequest)
        ensures
            request == presence_request(app_id),
    {
        PresenceRequest {
            app_id,
            subscriptions: Subscriptions {
                activity: true,
                user: false,
                overlay: false,
                relationships: false,
            },
        }
    }
}

impl ListenRequest {
    /// Builds [`listen_request`].
    pub fn on_port(port: u16) -> (request: ListenRequest)
        ensures
            request == listen_request(port),
    {
        ListenRequest { address: Ipv4 { a: 127, b: 0, c: 0, d: 1 }, port, backlog: BACKLOG }
    }
}

} // verus!
