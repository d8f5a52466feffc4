use vstd::prelude::*;

use crate::config::PostgresConnectionConfig;

verus! {

#[verifier::external_type_specification]
#[verifier::external_body]
pub struct ExClient(postgres::Client);

#[verifier::external_type_specification]
#[verifier::external_body]
pub struct ExError(postgres::Error);

/// Relies on `postgres::Client::connect`, without TLS, to open a session to
/// the server that the connection string names. Whether it succeeds depends
/// on the network and the server, so nothing is promised of the outcome.
#[verifier::external_body]
fn open_client(url: &str) -> (r: Result<postgres::Client, postgres::Error>) {
    postgres::Client::connect(url, postgres::NoTls)
}

/// The failure of an attempt to connect, with the driver's own error as its cause.
#[derive(Debug)]
pub struct ConnectionError {
    pub cause: postgres::Error,
}

/// What a connection adapter is, seen from outside: the connection string it
/// was built with, whether it is connected, and whether it holds a client.
pub struct PostgresConnectionState {
    pub url: Seq<char>,
    pub connected: bool,
    pub holds_client: bool,
}

impl PostgresConnectionState {
    /// The state that `close` leaves behind.
    pub open spec fn closed(self) -> PostgresConnectionState {
        PostgresConnectionState { url: self.url, connected: false, holds_client: false }
    }
}

/// Closing leaves an adapter disconnected and without a client, whatever
/// its state before, and closing twice in a row is the same as closing once.
pub proof fn lemma_close_idempotent(s: PostgresConnectionState)
    ensures
        !s.closed().connected,
        !s.closed().holds_client,
        s.closed().url == s.url,
        s.closed().closed() == s.closed(),
{
}

/// One pooled connection slot: a connection string and, while connected, the
/// client that was opened with it.
pub struct PostgresConnection {
    connection: Option<postgres::Client>,
    url: String,
    connected: bool,
}

impl View for PostgresConnection {
    type V = PostgresConnectionState;

    closed spec fn view(&self) -> PostgresConnectionState {
        PostgresConnectionState {
            url: self.url@,
            connected: self.connected,
            holds_client: self.connection is Some,
        }
    }
}

impl PostgresConnection {
    /// The client that the adapter holds, if any.
    pub closed spec fn held(&self) -> Option<postgres::Client> {
        self.connection
    }

    /// A client is held exactly while the adapter is connected.
    pub open spec fn wf(&self) -> bool {
        self@.holds_client == self@.connected
    }

    /// A disconnected adapter for the given connection string.
    pub fn new(url: String) -> (r: PostgresConnection)
        ensures
            r.wf(),
            r@.url == url@,
            !r@.connected,
            !r@.holds_client,
            r.held() is None,
    {
        PostgresConnection { connection: None, url, connected: false }
    }

    /// The connection string that `connect` opens.
    pub fn url(&self) -> (r: &str)
        ensures
            r@ == self@.url,
    {
        self.url.as_str()
    }

    /// Whether the adapter is connected.
    pub fn is_connected(&self) -> (r: bool)
        ensures
            r == self@.connected,
    {
        self.connected
    }

    /// Takes the outcome of an attempt to open a client: on success the
    /// client is installed and the adapter is connected; on failure nothing
    /// changes and the cause is returned.
    pub fn finish_connect(
        &mut self,
        outcome: Result<postgres::Client, postgres::Error>,
    ) -> (r: Result<(), ConnectionError>)
        requires
            old(self).wf(),
        ensures
            final(self).wf(),
            final(self)@.url == old(self)@.url,
            outcome is Ok ==> r is Ok && final(self)@.connected && final(self)@.holds_client
                && final(self).held() == Some(outcome->Ok_0),
            outcome is Err ==> r == Err::<(), ConnectionError>(
                ConnectionError { cause: outcome->Err_0 },
            ) && *final(self) == *old(self),
    {
        match outcome {
            Ok(client) => {
                self.connection = Some(client);
                self.connected = true;
                Ok(())
            },
            Err(e) => Err(ConnectionError { cause: e }),
        }
    }

    /// Opens a client with the stored connection string. On success the
    /// adapter is connected; on failure it is left exactly as it was.
    pub fn connect(&mut self) -> (r: Result<(), ConnectionError>)
        requires
            old(self).wf(),
        ensures
            final(self).wf(),
            final(self)@.url == old(self)@.url,
            r is Ok ==> final(self)@.connected && final(self)@.holds_client
                && final(self).held() is Some,
            r is Err ==> *final(self) == *old(self),
    {
        let outcome = open_client(self.url.as_str());
        self.finish_connect(outcome)
    }

    /// Drops the client, if any, and leaves the adapter disconnected.
    pub fn close(&mut self) -> (r: Result<(), ConnectionError>)
        ensures
            final(self).wf(),
            final(self)@ == old(self)@.closed(),
            final(self).held() is None,
            r is Ok,
    {
        self.connection = None;
        self.connected = false;
        Ok(())
    }

    /// The client, or `None` while disconnected.
    pub fn as_client(&self) -> (r: Option<&postgres::Client>)
        requires
            self.wf(),
        ensures
            r is Some <==> self@.connected,
            r is Some ==> self.held() == Some(*r->0),
    {
        self.connection.as_ref()
    }

    /// The client, which a connected adapter holds.
    pub fn client(&self) -> (r: &postgres::Client)
        requires
            self.wf(),
            self@.connected,
        ensures
            self.held() == Some(*r),
    {
        self.connection.as_ref().unwrap()
    }

    /// The client for mutation, or `None` while disconnected.
    pub fn as_client_mut(&mut self) -> (r: Option<&mut postgres::Client>)
        requires
            old(self).wf(),
        ensures
            r is Some <==> old(self)@.connected,
            r is Some ==> old(self).held() == Some(*r->0) && final(self).held() == Some(
                *final(r->0),
            ),
            final(self)@ == old(self)@,
            final(self).wf(),
    {
        self.connection.as_mut()
    }

    /// The client for mutation, which a connected adapter holds.
    pub fn client_mut(&mut self) -> (r: &mut postgres::Client)
        requires
            old(self).wf(),
            old(self)@.connected,
        ensures
            old(self).held() == Some(*r),
            final(self).held() == Some(*final(r)),
            final(self)@ == old(self)@,
            final(self).wf(),
    {
        self.connection.as_mut().unwrap()
    }
}

} // verus!
