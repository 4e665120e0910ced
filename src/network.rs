//! The choice of node to talk to, and the balance watch's period.

use vstd::prelude::*;
use crate::text::same_text;

verus! {

/// The address of a node on this machine.
pub const LOCAL_NODE_URL: &'static str = "127.0.0.1:8545";

/// The start of the address of Infura's Rinkeby node; the project id
/// follows it.
pub const RINKEBY_URL_PREFIX: &'static str = "https://rinkeby.infura.io/v3/";

/// The networks that the client knows by name.
#[derive(Clone, Copy, Debug, PartialEq, Eq)]
pub enum Network {
    Local,
    Ganache,
    Rinkeby,
}

/// The network that a name stands for: `local`, `ganache` or `rinkeby`.
pub fn network_from_name(name: &str) -> (r: Option<Network>)
    ensures
        name@ == "local"@ ==> r == Some(Network::Local),
        name@ == "ganache"@ ==> r == Some(Network::Ganache),
        name@ == "rinkeby"@ ==> r == Some(Network::Rinkeby),
        name@ != "local"@ && name@ != "ganache"@ && name@ != "rinkeby"@ ==> r is None,
{
    proof {
        reveal_strlit("local");
        reveal_strlit("ganache");
        reveal_strlit("rinkeby");
        assert("local"@.len() == 5 && "ganache"@.len() == 7 && "rinkeby"@.len() == 7);
        assert("ganache"@[0] == 'g' && "rinkeby"@[0] == 'r');
    }
    if same_text(name, "local") {
        Some(Network::Local)
    } else if same_text(name, "ganache") {
        Some(Network::Ganache)
    } else if same_text(name, "rinkeby") {
        Some(Network::Rinkeby)
    } else {
        None
    }
}

impl Network {
    /// Whether the node's address needs an Infura project id.
    pub fn needs_project_id(&self) -> (r: bool)
        ensures
            r == (*self == Network::Rinkeby),
    {
        match self {
            Network::Rinkeby => true,
            _ => false,
        }
    }

    /// The address of the network's node. The project id is used for
    /// Rinkeby alone.
    pub fn node_url(&self, project_id: &str) -> (r: String)
        ensures
            *self == Network::Rinkeby ==> r@ == RINKEBY_URL_PREFIX@ + project_id@,
            *self != Network::Rinkeby ==> r@ == LOCAL_NODE_URL@,
    {
        match self {
            Network::Rinkeby => String::from_str(RINKEBY_URL_PREFIX).concat(project_id),
            _ => String::from_str(LOCAL_NODE_URL),
        }
    }
}

/// A decimal digit.
pub open spec fn is_decimal_digit(c: char) -> bool {
    '0' <= c && c <= '9'
}

/// The number that decimal digits spell.
pub open spec fn decimal_value(d: Seq<char>) -> nat
    decreases d.len(),
{
    if d.len() == 0 {
        0
    } else {
        decimal_value(d.drop_last()) * 10 + (d.last() as u32 - '0' as u32) as nat
    }
}

/// The `u64` that a text spells: an optional `+`, then one or more decimal
/// digits and nothing else, of a value that fits.
pub open spec fn u64_of(s: Seq<char>) -> Option<u64> {
    let d = if s.len() > 0 && s[0] == '+' {
        s.skip(1)
    } else {
        s
    };
    if d.len() > 0 && (forall|i: int| 0 <= i < d.len() ==> is_decimal_digit(#[trigger] d[i]))
        && decimal_value(d) <= u64::MAX {
        Some(decimal_value(d) as u64)
    } else {
        None
    }
}

/// Relies on `FromStr` of `u64`, which its documentation describes as an
/// optional `+` followed by only digits, and an error on overflow.
#[verifier::external_body]
fn parse_u64(s: &str) -> (r: Option<u64>)
    ensures
        r == u64_of(s@),
{
    s.parse::<u64>().ok()
}

/// The balance watch's period in seconds, from its text.
pub fn refresh_period_seconds(s: &str) -> (r: Option<u64>)
    ensures
        r == u64_of(s@),
{
    parse_u64(s)
}

} // verus!
