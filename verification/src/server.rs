//! The options of the static-file server.

use vstd::prelude::*;
use vstd::string::StringExecFns;

verus! {

/// The options of the command line.
#[derive(Clone, Debug, PartialEq, Eq)]
pub struct Opt {
    /// The log level.
    pub log_level: String,
    /// The address to listen on.
    pub addr: String,
    /// The port to listen on.
    pub port: u16,
    /// The directory where the static files are found.
    pub static_dir: String,
}

impl Default for Opt {
    /// The options where the command line gives none: log level `debug`, the
    /// IPv6 loopback address, port 8080 and the directory `./dist`.
    fn default() -> (r: Opt)
        ensures
            r.log_level@ == "debug"@,
            r.addr@ == "::1"@,
            r.port == 8080,
            r.static_dir@ == "./dist"@,
    {
        Opt {
            log_level: String::from_str("debug"),
            addr: String::from_str("::1"),
            port: 8080,
            static_dir: String::from_str("./dist"),
        }
    }
}

impl Opt {
    /// The log filter: the chosen level for everything, but `info` for the two
    /// chatty transport crates.
    pub fn log_filter(&self) -> (r: String)
        ensures
            r@ == self.log_level@ + ",hyper=info,mio=info"@,
    {
        self.log_level.clone().concat(",hyper=info,mio=info")
    }
}

/// The status of a reply that carries what was asked for.
pub const OK: u16 = 200;

/// The status of a reply where nothing was found.
pub const NOT_FOUND: u16 = 404;

/// The status of a reply after a failure of the server.
pub const INTERNAL_SERVER_ERROR: u16 = 500;

/// What the server does with the answer of the file service.
#[derive(Clone, Copy, Debug, PartialEq, Eq, Structural)]
pub enum Fallback {
    /// Hand the answer on as it is.
    Forward,
    /// Answer with the index file in its place.
    ServeIndex,
}

/// A path that names no file gets the index file, so that the application can
/// route it; every other answer is handed on.
pub fn fallback(status: u16) -> (r: Fallback)
    ensures
        r == if status == NOT_FOUND {
            Fallback::ServeIndex
        } else {
            Fallback::Forward
        },
{
    if status == NOT_FOUND {
        Fallback::ServeIndex
    } else {
        Fallback::Forward
    }
}

/// A reply of the server: a status and a body of text.
#[derive(Clone, Debug, PartialEq, Eq)]
pub struct Reply {
    pub status: u16,
    pub body: String,
}

/// The reply in place of a file that was not found: the index file where it
/// could be read, else a note that it is missing, with the working directory.
pub fn index_reply(index: Option<String>, working_dir: &str) -> (r: Reply)
    ensures
        match index {
            Some(content) => r.status == OK && r.body@ == content@,
            None => r.status == NOT_FOUND && r.body@ == "index file not found at "@
                + working_dir@,
        },
{
    match index {
        Some(content) => Reply { status: OK, body: content },
        None => Reply {
            status: NOT_FOUND,
            body: String::from_str("index file not found at ").concat(working_dir),
        },
    }
}

/// The reply after a failure of the file service, with the error's text.
pub fn error_reply(error: &str) -> (r: Reply)
    ensures
        r.status == INTERNAL_SERVER_ERROR,
        r.body@ == "error: "@ + error@,
{
    Reply { status: INTERNAL_SERVER_ERROR, body: String::from_str("error: ").concat(error) }
}

} // verus!
