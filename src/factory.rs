use vstd::prelude::*;

use crate::config::PostgresConnectionConfig;
use crate::connection::PostgresConnection;

verus! {

/// A backend endpoint handed out by the pool manager: its address, in the
/// text form that goes into a connection string, and its port.
#[derive(Clone, Debug)]
pub struct Backend {
    pub address: String,
    pub port: u16,
}

impl Backend {
    pub fn new(address: String, port: u16) -> (r: Backend)
        ensures
            r.address == address,
            r.port == port,
    {
        Backend { address, port }
    }
}

/// Builds one disconnected adapter per backend from a configuration template
/// that it owns. Each build writes the backend's host and port into the
/// template; the other fields stay as they were supplied.
pub struct ConnectionFactory {
    config: PostgresConnectionConfig,
}

impl ConnectionFactory {
    /// The template as it stands now.
    pub closed spec fn template(&self) -> PostgresConnectionConfig {
        self.config
    }

    pub fn new(config: PostgresConnectionConfig) -> (r: ConnectionFactory)
        ensures
            r.template() == config,
    {
        ConnectionFactory { config }
    }

    /// The template as it stands now.
    pub fn config(&self) -> (r: &PostgresConnectionConfig)
        ensures
            *r == self.template(),
    {
        &self.config
    }

    /// Fills the backend's address and port into the template and returns a
    /// disconnected adapter holding the rendered connection string.
    pub fn build(&mut self, backend: &Backend) -> (r: PostgresConnection)
        ensures
            final(self).template() == old(self).template().with_backend(
                backend.address,
                backend.port,
            ),
            r.wf(),
            r@.url == final(self).template().rendered(),
            !r@.connected,
            !r@.holds_client,
            r.held() is None,
    {
        self.config.host = Some(backend.address.clone());
        self.config.port = Some(backend.port);
        let url = self.config.to_url();
        PostgresConnection::new(url)
    }
}

/// A build leaves nothing of an earlier backend behind: after builds for
/// two backends in turn, the template and the connection string are those
/// that a build for the second backend alone gives.
pub proof fn lemma_builds_independent(
    template: PostgresConnectionConfig,
    first_address: String,
    first_port: u16,
    second_address: String,
    second_port: u16,
)
    ensures
        template.with_backend(first_address, first_port).with_backend(second_address, second_port)
            == template.with_backend(second_address, second_port),
        template.with_backend(first_address, first_port).with_backend(
            second_address,
            second_port,
        ).rendered() == template.with_backend(second_address, second_port).rendered(),
{
}

impl PostgresConnection {
    /// A factory bound to the given configuration template.
    pub fn connection_creator(config: PostgresConnectionConfig) -> (r: ConnectionFactory)
        ensures
            r.template() == config,
    {
        ConnectionFactory::new(config)
    }
}

} // verus!
