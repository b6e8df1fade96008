//! The launcher's option structures: plain data the argument parser in the
//! binary fills in and hands to the library.

use vstd::prelude::*;
use vstd::string::StringExecFns;

verus! {

/// Options of the `server` subcommand.
#[derive(Clone, PartialEq, Eq, Debug)]
pub struct ServerOptions {
    /// The address the command server listens on.
    pub server_listen_addr: String,
}

impl Default for ServerOptions {
    fn default() -> (d: ServerOptions)
        ensures
            d.server_listen_addr@ == "127.0.0.1:50051"@,
    {
        ServerOptions { server_listen_addr: String::from_str("127.0.0.1:50051") }
    }
}

/// Options of the `run` subcommand.
#[derive(Clone, PartialEq, Eq, Debug)]
pub struct RemoteCommandOptions {
    /// The address of the server that will run the command.
    pub server_addr: String,
    /// The raw command vector for the server to execute: the program name
    /// first, then its arguments.  No default command: an empty vector is
    /// rejected when the descriptor is built.
    pub command: Vec<String>,
}

impl Default for RemoteCommandOptions {
    fn default() -> (d: RemoteCommandOptions)
        ensures
            d.server_addr@ == "http://127.0.0.1:50051"@,
            d.command@ == Seq::<String>::empty(),
    {
        RemoteCommandOptions {
            server_addr: String::from_str("http://127.0.0.1:50051"),
            command: Vec::new(),
        }
    }
}

/// The two ways the launcher runs: as the command server, or as a client
/// sending one command to a server.
#[derive(Clone, PartialEq, Eq, Debug)]
pub enum SubCommand {
    StartServer(ServerOptions),
    Run(RemoteCommandOptions),
}

} // verus!
