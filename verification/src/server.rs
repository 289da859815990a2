use vstd::prelude::*;

verus! {

/// The HTTP server of the service.
pub struct AppServer;

impl AppServer {
    /// The address the server listens on: every interface, at `port`.
    pub fn address(port: &str) -> (address: String)
        ensures
            address@ == "0.0.0.0:"@ + port@,
    {
        let mut address = String::from_str("0.0.0.0:");
        address.append(port);
        address
    }
}

} // verus!
