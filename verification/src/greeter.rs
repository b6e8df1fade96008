//! The greeting services: the minimal request/response operations served
//! over the same authenticated channel as the command service.
//!
//! They answer a name with a fixed greeting and are useful for probing a
//! connection end to end; the transport that carries them lives outside
//! this crate.

use vstd::prelude::*;
use vstd::string::StringExecFns;

use crate::singleton::Singleton;

verus! {

/// The greeting every service answers with: `Hello, <name>!`.
pub open spec fn greeting_spec(name: Seq<char>) -> Seq<char> {
    "Hello, "@ + name + "!"@
}

fn greeting(name: &str) -> (r: String)
    ensures
        r@ == greeting_spec(name@),
{
    let mut r = String::from_str("Hello, ");
    r.append(name);
    r.append("!");
    r
}

/// The stateless greeting service served behind the mutually-authenticated
/// transport guard.
#[derive(Clone, Copy, PartialEq, Eq, Structural, Debug)]
pub struct GreeterService {}

impl GreeterService {
    /// Creates a new instance of the service.
    pub fn new() -> (s: GreeterService)
        ensures
            s == (GreeterService {  }),
    {
        GreeterService {  }
    }

    /// Answers a request carrying a name with the greeting for it.
    pub fn say_hello(&self, name: &str) -> (r: String)
        ensures
            r@ == greeting_spec(name@),
    {
        greeting(name)
    }
}

impl Default for GreeterService {
    fn default() -> (s: GreeterService)
        ensures
            s == (GreeterService {  }),
    {
        GreeterService {  }
    }
}

/// The greeting service that carries the shared server context, for
/// operations that need access to it.
#[derive(Clone, PartialEq, Eq, Debug)]
pub struct MyHelloWorld {
    pub singleton: Singleton,
}

impl MyHelloWorld {
    /// Creates the service around the shared context.
    pub fn new(singleton: Singleton) -> (s: MyHelloWorld)
        ensures
            s.singleton == singleton,
    {
        MyHelloWorld { singleton }
    }

    /// Answers a request carrying a name with the greeting for it.
    pub fn hello(&self, name: &str) -> (r: String)
        ensures
            r@ == greeting_spec(name@),
    {
        greeting(name)
    }
}

/// Builds the serving object around the shared context, ready to be
/// mounted on whatever transport carries the requests.
pub fn create_server(singleton: Singleton) -> (s: MyHelloWorld)
    ensures
        s.singleton == singleton,
{
    MyHelloWorld::new(singleton)
}

} // verus!
