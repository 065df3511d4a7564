//! Presence in the Discord client.
use discord_rpc_client::Client;
use vstd::prelude::*;
use vstd::string::StringExecFns;

verus! {

#[verifier::external_type_specification]
#[verifier::external_body]
pub struct ExClient(Client);

/// The Discord application id that a presence client was made for. The
/// client keeps it, unchanged, in its connection manager's `client_id`
/// field.
pub uninterp spec fn client_app_id(client: Client) -> u64;

/// `discord_rpc_client::Client::new`: builds a client for the given
/// application id, with a connection manager that keeps that id and an
/// empty handler registry; it neither connects nor starts a thread. Of
/// the client this states only the id it was made for.
#[verifier::external_body]
fn new_client(client_id: u64) -> (client: Client)
    ensures
        client_app_id(client) == client_id,
{
    Client::new(client_id)
}

/// State of the presence connection.
#[allow(non_camel_case_types)]
#[derive(Debug, PartialEq, Eq, Structural)]
pub enum Status {
    CONNECTED,
    DISCONNECTED,
    CLEARED,
}

impl Status {
    /// The name of the state, as `{:?}` writes it.
    pub open spec fn name_spec(self) -> Seq<char> {
        match self {
            Status::CONNECTED => "CONNECTED"@,
            Status::DISCONNECTED => "DISCONNECTED"@,
            Status::CLEARED => "CLEARED"@,
        }
    }

    /// The name of the state.
    pub fn name(&self) -> (s: String)
        ensures
            s@ == self.name_spec(),
    {
        match self {
            Status::CONNECTED => String::from_str("CONNECTED"),
            Status::DISCONNECTED => String::from_str("DISCONNECTED"),
            Status::CLEARED => String::from_str("CLEARED"),
        }
    }
}

/// The Discord application id the presence is shown for.
#[derive(Debug)]
pub struct ClientId {
    client_id: u64,
}

impl ClientId {
    /// The id as read from the configuration.
    pub fn with_id(client_id: u64) -> (id: ClientId)
        ensures
            id.id_spec() == client_id,
    {
        ClientId { client_id }
    }

    /// The application id.
    pub closed spec fn id_spec(&self) -> u64 {
        self.client_id
    }

    /// The application id.
    pub fn client_id(&self) -> (id: u64)
        ensures
            id == self.id_spec(),
    {
        self.client_id
    }
}

/// A presence client and its state.
pub struct DiscordRPC {
    pub client: Client,
    pub status: Status,
}

impl DiscordRPC {
    /// The text `{:?}` gives: the struct's name and its status only.
    pub open spec fn debug_spec(&self) -> Seq<char> {
        "DiscordRPC { status: "@ + self.status.name_spec() + " }"@
    }

    /// The text of the presence for debugging: its status only.
    pub fn debug_text(&self) -> (s: String)
        ensures
            s@ == self.debug_spec(),
    {
        let name = self.status.name();
        let mut s = String::from_str("DiscordRPC { status: ");
        s.append(name.as_str());
        s.append(" }");
        s
    }
}

/// Making a presence client.
pub trait RPC {
    /// A client for the application id, in the connected state.
    fn new(client_id: &ClientId) -> (rpc: DiscordRPC)
        ensures
            client_app_id(rpc.client) == client_id.id_spec(),
            rpc.status == Status::CONNECTED,
    ;
}

impl RPC for DiscordRPC {
    fn new(client_id: &ClientId) -> (rpc: DiscordRPC) {
        DiscordRPC { client: new_client(client_id.client_id()), status: Status::CONNECTED }
    }
}

} // verus!
