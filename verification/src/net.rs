//! The messages exchanged between the game clients and the server, and the
//! network role of a running game.

use vstd::prelude::*;
use vstd::std_specs::convert::FromSpecImpl;

verus! {

///Sent from the client to the server
#[derive(Debug, Clone)]
pub struct ClientRequests<S> {
    pub requests: Vec<ClientRequest<S>>,
}

/// A request of a client; `S` describes objects to spawn.
#[derive(Debug, Clone)]
pub enum ClientRequest<S> {
    Empty,
    SpawnObject(S),
}

///Sent from the server to the client
#[derive(Debug, Clone)]
pub struct ServerCommands<S> {
    pub commands: Vec<ServerCommand<S>>,
}

///Sent between the server and the client
#[derive(Debug, Clone)]
pub enum ServerCommand<S> {
    Empty,
    SpawnObject(S),
}

impl<S> Default for ClientRequest<S> {
    fn default() -> (r: Self)
        ensures
            r is Empty,
    {
        ClientRequest::Empty
    }
}

impl<S> Default for ServerCommand<S> {
    fn default() -> (r: Self)
        ensures
            r is Empty,
    {
        ServerCommand::Empty
    }
}

impl<S> From<ClientRequest<S>> for ClientRequests<S> {
    /// A batch of the one request.
    fn from(value: ClientRequest<S>) -> (r: Self)
        ensures
            r.requests@ == seq![value],
    {
        let mut requests = Vec::new();
        requests.push(value);
        Self { requests }
    }
}

impl<S> FromSpecImpl<ClientRequest<S>> for ClientRequests<S> {
    open spec fn obeys_from_spec() -> bool {
        false
    }

    open spec fn from_spec(v: ClientRequest<S>) -> Self {
        ClientRequests { requests: choose|r: Vec<ClientRequest<S>>| r@ == seq![v] }
    }
}

impl<S> From<Vec<ClientRequest<S>>> for ClientRequests<S> {
    /// A batch of the requests, in order.
    fn from(value: Vec<ClientRequest<S>>) -> (r: Self)
        ensures
            r.requests == value,
    {
        Self { requests: value }
    }
}

impl<S> FromSpecImpl<Vec<ClientRequest<S>>> for ClientRequests<S> {
    open spec fn obeys_from_spec() -> bool {
        true
    }

    open spec fn from_spec(v: Vec<ClientRequest<S>>) -> Self {
        ClientRequests { requests: v }
    }
}

impl<S> From<ServerCommand<S>> for ServerCommands<S> {
    /// A batch of the one command.
    fn from(value: ServerCommand<S>) -> (r: Self)
        ensures
            r.commands@ == seq![value],
    {
        let mut commands = Vec::new();
        commands.push(value);
        Self { commands }
    }
}

impl<S> FromSpecImpl<ServerCommand<S>> for ServerCommands<S> {
    open spec fn obeys_from_spec() -> bool {
        false
    }

    open spec fn from_spec(v: ServerCommand<S>) -> Self {
        ServerCommands { commands: choose|c: Vec<ServerCommand<S>>| c@ == seq![v] }
    }
}

impl<S> From<Vec<ServerCommand<S>>> for ServerCommands<S> {
    /// A batch of the commands, in order.
    fn from(value: Vec<ServerCommand<S>>) -> (r: Self)
        ensures
            r.commands == value,
    {
        Self { commands: value }
    }
}

impl<S> FromSpecImpl<Vec<ServerCommand<S>>> for ServerCommands<S> {
    open spec fn obeys_from_spec() -> bool {
        true
    }

    open spec fn from_spec(v: Vec<ServerCommand<S>>) -> Self {
        ServerCommands { commands: v }
    }
}

/// The batch a client sends for the requests of one frame: none when there are
/// no requests, else all of them in order.
pub fn batch_requests<S>(requests: Vec<ClientRequest<S>>) -> (r: Option<ClientRequests<S>>)
    ensures
        requests.len() == 0 ==> r is None,
        requests.len() > 0 ==> (r matches Some(b) && b.requests == requests),
{
    if requests.len() == 0 {
        return None;
    }
    Some(ClientRequests::from(requests))
}

/// The network role of a running game.
#[derive(Debug, Clone, Copy, PartialEq, Eq, Structural)]
pub enum NetMode {
    ///Singleplayer, not connected to any server
    Single,
    ///Connected to server as a client
    Client,
    ///Is the server
    Server,
    ///Server + Client
    Host,
}

impl NetMode {
    /// Whether the game runs alone, without any server.
    pub fn is_singleplayer(&self) -> (r: bool)
        ensures
            r == (*self == NetMode::Single),
    {
        match self {
            NetMode::Single => true,
            NetMode::Client => false,
            NetMode::Server => false,
            NetMode::Host => false,
        }
    }

    /// Whether the game takes part in a networked match.
    pub fn is_multiplayer(&self) -> (r: bool)
        ensures
            r == (*self != NetMode::Single),
    {
        !self.is_singleplayer()
    }
}

} // verus!
