//! Startup configuration: the watched address and the endpoint, taken
//! from the process arguments, and the fixed messages printed at startup.

use vstd::prelude::*;
use vstd::string::StringExecFns;

verus! {

/// The immutable state the monitor runs with: the recipient address to
/// watch and the endpoint to connect to.
pub struct AppState {
    pub address_to_watch: String,
    pub endpoint: String,
}

impl AppState {
    /// Builds the configuration from the process arguments, program name
    /// excluded. Exactly two are accepted — the watch address, then the
    /// endpoint; any other count is a usage error and nothing is built.
    pub fn new(args: &Vec<String>) -> (r: Option<AppState>)
        ensures
            r is Some <==> args@.len() == 2,
            r is Some ==> r->0.address_to_watch@ == args@[0]@ && r->0.endpoint@ == args@[1]@,
    {
        if args.len() == 2 {
            Some(
                AppState {
                    address_to_watch: args[0].clone(),
                    endpoint: args[1].clone(),
                },
            )
        } else {
            None
        }
    }

    /// The watched recipient address.
    pub fn get_watch_address(&self) -> (r: &String)
        ensures
            r == &self.address_to_watch,
    {
        &self.address_to_watch
    }

    /// The endpoint the connection is made to.
    pub fn get_endpoint(&self) -> (r: &String)
        ensures
            r == &self.endpoint,
    {
        &self.endpoint
    }
}

/// The usage message shown when the argument count is wrong.
pub open spec fn spec_usage_lines() -> Seq<Seq<char>> {
    seq![
        "________________________________________________________"@,
        "Invalid arguments provided :("@,
        "Example:"@,
        "./address-monitor REPLACE_ADDRESS_HERE YOUR_WSS_RPC_URL"@,
        "________________________________________________________"@,
    ]
}

/// Renders the usage message, line by line.
pub fn usage_lines() -> (r: Vec<String>)
    ensures
        r.deep_view() == spec_usage_lines(),
{
    let mut r: Vec<String> = Vec::new();
    r.push(String::from_str("________________________________________________________"));
    r.push(String::from_str("Invalid arguments provided :("));
    r.push(String::from_str("Example:"));
    r.push(String::from_str("./address-monitor REPLACE_ADDRESS_HERE YOUR_WSS_RPC_URL"));
    r.push(String::from_str("________________________________________________________"));
    proof {
        assert(r.deep_view() =~= spec_usage_lines());
    }
    r
}

/// The banner shown once the subscription is up, naming the watched
/// address.
pub open spec fn spec_banner_lines(address: Seq<char>) -> Seq<Seq<char>> {
    seq!["Listening for new blocks... :)"@, "Waching incoming txns for : "@ + address]
}

/// Renders the startup banner, line by line.
pub fn banner_lines(address: &str) -> (r: Vec<String>)
    ensures
        r.deep_view() == spec_banner_lines(address@),
{
    let mut r: Vec<String> = Vec::new();
    r.push(String::from_str("Listening for new blocks... :)"));
    r.push(String::from_str("Waching incoming txns for : ").concat(address));
    proof {
        assert(r.deep_view() =~= spec_banner_lines(address@));
    }
    r
}

} // verus!
