//! The endpoint pool: the default hosts of an application and the rotation
//! that picks the host of each attempt.

use vstd::arithmetic::div_mod::{lemma_add_mod_noop_right, lemma_fundamental_div_mod};
use vstd::prelude::*;
use vstd::string::*;

verus! {

/// The default hosts of the application `app_id`, in the order in which a
/// fresh client tries them: the primary host, the general host, and three
/// numbered fallbacks.
pub open spec fn default_hosts(app_id: Seq<char>) -> Seq<Seq<char>> {
    seq![
        "https://"@ + app_id + "-dsn.algolia.net"@,
        "https://"@ + app_id + ".algolia.net"@,
        "https://"@ + app_id + "-1.algolianet.com"@,
        "https://"@ + app_id + "-2.algolianet.com"@,
        "https://"@ + app_id + "-3.algolianet.com"@,
    ]
}

/// The number of attempts that one call may make against a pool of `hosts`
/// hosts: one for each host, and one for a pool without any.
pub open spec fn slots_for(hosts: nat) -> nat {
    if hosts == 0 {
        1
    } else {
        hosts
    }
}

/// The rotation offset of the call that drew `ticket` from the cursor: the
/// index of the host that the call tries first.
pub open spec fn start_for(ticket: nat, hosts: nat) -> nat {
    if hosts == 0 {
        0
    } else {
        ticket % hosts
    }
}

/// Round robin. Calls draw their tickets from a cursor that counts up by
/// one. As long as the cursor does not wrap around, the call that draws the
/// `k`-th ticket after `ticket` starts `k` hosts further in the pool, modulo
/// the pool's size.
pub proof fn lemma_rotation_round_robin(ticket: usize, hosts: usize, k: nat)
    requires
        hosts > 0,
        ticket + k <= usize::MAX,
    ensures
        start_for(ticket as nat + k, hosts as nat) == (start_for(ticket as nat, hosts as nat) + k)
            % (hosts as nat),
{
    lemma_add_mod_noop_right(k as int, ticket as int, hosts as int);
    assert(ticket as nat + k == k as int + ticket as int);
    assert(start_for(ticket as nat, hosts as nat) + k == k as int + (ticket as int) % (hosts as int));
}

/// As many consecutive calls as the pool has hosts start at as many
/// different hosts, as long as the cursor does not wrap around: of two
/// tickets less than a pool's size apart, each gives another offset.
pub proof fn lemma_rotation_offsets_differ(ticket: usize, hosts: usize, i: nat, j: nat)
    requires
        hosts > 0,
        i < j < hosts,
        ticket + j <= usize::MAX,
    ensures
        start_for(ticket as nat + i, hosts as nat) != start_for(ticket as nat + j, hosts as nat),
{
    let n = hosts as int;
    let a = ticket as int + i;
    let b = ticket as int + j;
    lemma_fundamental_div_mod(a, n);
    lemma_fundamental_div_mod(b, n);
    if a % n == b % n {
        assert(b - a == n * (b / n) - n * (a / n));
        assert(b - a == n * (b / n - a / n)) by (nonlinear_arith)
            requires
                b - a == n * (b / n) - n * (a / n),
        ;
        let q = b / n - a / n;
        assert(false) by (nonlinear_arith)
            requires
                0 < b - a < n,
                b - a == n * q,
        ;
    }
}

/// `https://` followed by `app_id` and `suffix`.
fn host_url(app_id: &str, suffix: &str) -> (url: String)
    ensures
        url@ == "https://"@ + app_id@ + suffix@,
{
    let mut url = String::from_str("https://");
    url.append(app_id);
    url.append(suffix);
    url
}

/// Builds the default host list of an application.
pub fn get_default_hosts(app_id: &str) -> (hosts: Vec<String>)
    ensures
        hosts.deep_view() == default_hosts(app_id@),
{
    let mut hosts: Vec<String> = Vec::new();
    hosts.push(host_url(app_id, "-dsn.algolia.net"));
    hosts.push(host_url(app_id, ".algolia.net"));
    hosts.push(host_url(app_id, "-1.algolianet.com"));
    hosts.push(host_url(app_id, "-2.algolianet.com"));
    hosts.push(host_url(app_id, "-3.algolianet.com"));
    assert(hosts.deep_view() =~= default_hosts(app_id@));
    hosts
}

} // verus!
