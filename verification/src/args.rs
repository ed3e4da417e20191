//! Where the service listens: the address and port given on the command
//! line, and the one rule on them.

use crate::text::same_text;
use vstd::prelude::*;

verus! {

/// The host that the service binds to where none is given.
pub const DEFAULT_HOST: &'static str = "127.0.0.1";

/// The port that the service binds to where none is given.
pub const DEFAULT_PORT: u16 = 7271;

/// The host name that is bound as [`LOOPBACK`].
pub const LOCALHOST: &'static str = "localhost";

/// The loopback address.
pub const LOOPBACK: &'static str = "127.0.0.1";

/// The address to bind the server to.
#[derive(Debug, PartialEq, Eq)]
pub struct Args {
    /// The host to bind the server to.
    pub host: String,
    /// The port to bind the server to.
    pub port: u16,
}

impl Clone for Args {
    fn clone(&self) -> (copy: Self)
        ensures
            copy.host@ == self.host@,
            copy.port == self.port,
    {
        Args { host: self.host.clone(), port: self.port }
    }
}

impl Default for Args {
    fn default() -> (args: Args)
        ensures
            args.host@ == DEFAULT_HOST@,
            args.port == DEFAULT_PORT,
    {
        Args { host: DEFAULT_HOST.to_owned(), port: DEFAULT_PORT }
    }
}

/// A text in lower case, as Unicode defines it.
pub uninterp spec fn lowercase_of(text: Seq<char>) -> Seq<char>;

/// `str::to_lowercase`.
#[verifier::external_body]
fn lowercase(text: &str) -> (lowered: String)
    ensures
        lowered@ == lowercase_of(text@),
{
    text.to_lowercase()
}

/// The host to bind, given the host asked for and the same in lower case:
/// [`LOOPBACK`] where `localhost` was asked for, and the host asked for in
/// every other case.
pub open spec fn bound_host(host: Seq<char>, lowered: Seq<char>) -> Seq<char> {
    if lowered == LOCALHOST@ {
        LOOPBACK@
    } else {
        host
    }
}

/// The host to bind, given the host asked for and the same in lower case.
pub fn bind_host(host: String, lowered: &str) -> (bound: String)
    ensures
        bound@ == bound_host(host@, lowered@),
{
    if same_text(lowered, LOCALHOST) {
        LOOPBACK.to_owned()
    } else {
        host
    }
}

/// Settles the arguments as they were read from the command line:
/// `localhost`, in any case of letters, is bound as [`LOOPBACK`]. The port is
/// kept.
pub fn parse_args(args: Args) -> (settled: Args)
    ensures
        settled.host@ == bound_host(args.host@, lowercase_of(args.host@)),
        settled.port == args.port,
{
    let lowered = lowercase(args.host.as_str());
    Args { host: bind_host(args.host, lowered.as_str()), port: args.port }
}

} // verus!
