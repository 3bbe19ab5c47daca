//! The endpoint that shows the resolved configuration.

use crate::config::Config;
use vstd::prelude::*;

verus! {

/// Holds the configuration that the endpoint shows.
#[derive(Debug)]
pub struct Service {
    config: Config,
}

impl Service {
    /// The configuration that the service holds.
    pub closed spec fn config(&self) -> Config {
        self.config
    }

    /// A copy of the configuration, for the answer to a request.
    pub fn get_configuration(&self) -> (r: Config)
        ensures
            r == self.config(),
    {
        self.config.clone()
    }
}

/// Starts the service with a copy of `config`.
pub fn service(config: &Config) -> (service: Service)
    ensures
        service.config() == *config,
{
    Service { config: config.clone() }
}

} // verus!
