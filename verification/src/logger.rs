use vstd::prelude::*;

verus! {

/// The logging of the service.
pub struct Logger;

impl Logger {
    /// The filter of what is logged: the one asked for, else debug output
    /// of the service and of the HTTP layer.
    pub fn directives(asked: Option<String>) -> (filter: String)
        ensures
            filter@ == (match asked {
                Some(directives) => directives@,
                None => "geoform_backend=debug,tower_http=debug"@,
            }),
    {
        match asked {
            Some(directives) => directives,
            None => String::from_str("geoform_backend=debug,tower_http=debug"),
        }
    }
}

} // verus!
