//! The health listener's configuration: the address that the hosting
//! platform probes to see that the service is alive.

use vstd::prelude::*;

verus! {

/// The address on which the platform expects the service to listen.
pub open spec fn listen_address(port: Option<Seq<char>>) -> Seq<char> {
    "0.0.0.0:"@ + match port {
        Some(p) => p,
        None => "8080"@,
    }
}

/// The configuration of the health listener.
pub struct CloudRunConfig {
    /// The address on which the listener accepts connections.
    address: String,
}

impl CloudRunConfig {
    pub closed spec fn spec_address(&self) -> Seq<char> {
        self.address@
    }

    /// The configuration for the given `PORT` setting: `0.0.0.0:<port>`, and
    /// port 8080 when the setting is absent.
    pub fn from_port(port: Option<&str>) -> (r: CloudRunConfig)
        ensures
            r.spec_address() == listen_address(
                match port {
                    Some(p) => Some(p@),
                    None => None,
                },
            ),
    {
        proof {
            reveal_strlit("0.0.0.0:");
            reveal_strlit("8080");
        }
        let host = String::from_str("0.0.0.0:");
        let address = match port {
            Some(p) => host.concat(p),
            None => host.concat("8080"),
        };
        CloudRunConfig { address }
    }

    /// The address on which the listener accepts connections.
    pub fn address(&self) -> (r: &str)
        ensures
            r@ == self.spec_address(),
    {
        self.address.as_str()
    }
}

/// The health listener: it accepts connections on its address and drops them,
/// which is all that the platform's probe asks for.
pub struct CloudRunListener {
    config: CloudRunConfig,
}

impl CloudRunListener {
    pub closed spec fn spec_address(&self) -> Seq<char> {
        self.config.spec_address()
    }

    /// A listener with the given configuration.
    pub fn new(config: CloudRunConfig) -> (r: CloudRunListener)
        ensures
            r.spec_address() == config.spec_address(),
    {
        CloudRunListener { config }
    }

    /// The address on which this listener accepts connections.
    pub fn address(&self) -> (r: &str)
        ensures
            r@ == self.spec_address(),
    {
        self.config.address()
    }
}

} // verus!
