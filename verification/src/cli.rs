//! The settings of the two main commands: building the project once, and
//! running the development server. Parsing the command line is the caller's
//! business; these are the values the rest of the system works with.

use vstd::prelude::*;

verus! {

/// Settings of a full project build.
pub struct BuildArgs {
    /// Build in release mode.
    pub release: bool,
    /// The actual profile to use for release mode.
    pub profile: String,
    /// Starting URL under which the project is expected to be hosted; the
    /// root is right whenever the project lives at the top of its domain.
    pub base_url: String,
}

impl Default for BuildArgs {
    /// A debug build with the default profile, hosted at the root.
    fn default() -> (d: BuildArgs)
        ensures
            !d.release,
            d.profile@ == "release"@,
            d.base_url@ == "/"@,
    {
        BuildArgs { release: false, profile: "release".to_owned(), base_url: "/".to_owned() }
    }
}

/// Settings of the development server.
pub struct DevArgs {
    /// The local TCP port to listen on.
    pub port: u16,
}

impl Default for DevArgs {
    /// The conventional local development port.
    fn default() -> (d: DevArgs)
        ensures
            d.port == 8080,
    {
        DevArgs { port: 8080 }
    }
}

} // verus!
