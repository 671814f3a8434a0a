use vstd::prelude::*;

verus! {

/// The connection target `host:port`, as characters.
pub open spec fn addr_spec(ip: Seq<char>, port: Seq<char>) -> Seq<char> {
    ip + seq![':'] + port
}

/// Joins a host and a port into a connection target. The host is not
/// checked: a malformed one fails later, when it is bound or dialed.
pub fn get_addr(ip: &str, port: &str) -> (r: String)
    ensures
        r@ == addr_spec(ip@, port@),
{
    let mut addr = String::new();
    addr.append(ip);
    addr.append(":");
    addr.append(port);
    proof {
        reveal_strlit(":");
    }
    assert(addr@ =~= addr_spec(ip@, port@));
    addr
}

} // verus!
