//! Options of the HTTP subcommands.

use vstd::prelude::*;

verus! {

/// The HTTP subcommands.
#[derive(Debug, Clone, PartialEq, Eq)]
pub enum HttpSubCommand {
    /// Serve a directory over HTTP.
    Serve(HttpServeOpts),
}

/// What to serve, and where.
#[derive(Debug, Clone, PartialEq, Eq)]
pub struct HttpServeOpts {
    /// The port to listen on.
    pub port: u16,
    /// The directory to serve.
    pub dir: String,
}

} // verus!
