use vstd::prelude::*;
use crate::strutil::{is_suffix_of, str_eq, str_ends_with};

verus! {

/// Index of the first `:` in `h` from position `i` on, or `h.len()` when
/// there is none. A request host may carry a port after a colon; matching
/// ignores it.
pub open spec fn first_colon_from(h: Seq<char>, i: int) -> int
    recommends
        0 <= i <= h.len(),
    decreases h.len() - i,
{
    if i < 0 || i >= h.len() {
        h.len() as int
    } else if h[i] == ':' {
        i
    } else {
        first_colon_from(h, i + 1)
    }
}

/// The declared host with any `:port` suffix removed.
pub open spec fn strip_port(h: Seq<char>) -> Seq<char> {
    h.subrange(0, first_colon_from(h, 0))
}

/// Whether one allow-list rule admits the (already port-stripped) host:
/// `*` admits anything, a plain name admits exactly itself, and a rule with
/// a leading dot admits every host that ends in the rule, dot included —
/// so `.example.com` admits `a.example.com` but not `example.com` itself.
pub open spec fn rule_matches(host: Seq<char>, rule: Seq<char>) -> bool {
    ||| rule == "*"@
    ||| rule == host
    ||| (rule.len() > 0 && rule[0] == '.' && is_suffix_of(rule, host))
}

/// Whether the declared host passes the allow-list: a missing host is
/// always rejected; otherwise some rule must admit the port-stripped host.
pub open spec fn host_allowed(host: Option<Seq<char>>, rules: Seq<Seq<char>>) -> bool {
    &&& host is Some
    &&& exists|i: int| 0 <= i < rules.len() && rule_matches(strip_port(host->0), rules[i])
}

proof fn lemma_first_colon_found(h: Seq<char>, i: int)
    requires
        0 <= i <= h.len(),
        forall|j: int| 0 <= j < i ==> h[j] != ':',
        i == h.len() || h[i] == ':',
    ensures
        first_colon_from(h, 0) == i,
    decreases i,
{
    lemma_first_colon_step(h, 0, i);
}

proof fn lemma_first_colon_step(h: Seq<char>, k: int, i: int)
    requires
        0 <= k <= i <= h.len(),
        forall|j: int| k <= j < i ==> h[j] != ':',
        i == h.len() || h[i] == ':',
    ensures
        first_colon_from(h, k) == i,
    decreases i - k,
{
    if k < i {
        lemma_first_colon_step(h, k + 1, i);
    }
}

/// Strips any `:port` suffix from the declared host.
pub fn host_without_port<'a>(h: &'a str) -> (r: &'a str)
    ensures
        r@ == strip_port(h@),
{
    let len = h.unicode_len();
    let mut i: usize = 0;
    while i < len
        invariant
            len == h@.len(),
            i <= len,
            forall|j: int| 0 <= j < i ==> h@[j] != ':',
        decreases len - i,
    {
        if h.get_char(i) == ':' {
            proof {
                lemma_first_colon_found(h@, i as int);
            }
            return h.substring_char(0, i);
        }
        i += 1;
    }
    proof {
        lemma_first_colon_found(h@, len as int);
        assert(h@.subrange(0, h@.len() as int) =~= h@);
    }
    h
}

/// Decides whether the request's declared host is admitted by the
/// configured allow-list.
pub fn is_host_valid(host: Option<&str>, allowed_hosts: &Vec<String>) -> (r: bool)
    ensures
        r == host_allowed(
            match host {
                Some(h) => Some(h@),
                None => None,
            },
            allowed_hosts@.map_values(|s: String| s@),
        ),
{
    let ghost rules = allowed_hosts@.map_values(|s: String| s@);
    if host.is_none() {
        return false;
    }
    let h = host.unwrap();
    let stripped = host_without_port(h);
    let n = allowed_hosts.len();
    let mut k: usize = 0;
    while k < n
        invariant
            host is Some,
            host->0 == h,
            n == allowed_hosts@.len(),
            rules == allowed_hosts@.map_values(|s: String| s@),
            k <= n,
            stripped@ == strip_port(h@),
            forall|j: int| 0 <= j < k ==> !rule_matches(stripped@, rules[j]),
        decreases n - k,
    {
        let pattern = &allowed_hosts[k];
        proof {
            assert(rules[k as int] == allowed_hosts@[k as int]@);
        }
        if str_eq(pattern.as_str(), "*") || str_eq(pattern.as_str(), stripped) {
            proof {
                assert(rule_matches(strip_port(h@), rules[k as int]));
            }
            return true;
        }
        if pattern.as_str().unicode_len() > 0 && pattern.as_str().get_char(0) == '.' {
            if str_ends_with(stripped, pattern.as_str()) {
                proof {
                    assert(rule_matches(strip_port(h@), rules[k as int]));
                }
                return true;
            }
        }
        k += 1;
    }
    false
}

/// The universal rule admits every declared host: an allow-list holding
/// `*` lets any request through, whatever its host says.
pub proof fn lemma_wildcard_allows_any(h: Seq<char>, rules: Seq<Seq<char>>)
    requires
        exists|i: int| 0 <= i < rules.len() && rules[i] == "*"@,
    ensures
        host_allowed(Some(h), rules),
{
    let i = choose|i: int| 0 <= i < rules.len() && rules[i] == "*"@;
    assert(rule_matches(strip_port(h), rules[i]));
}

/// A request that declares no host at all is rejected, whatever the
/// allow-list holds — even the universal rule does not admit it.
pub proof fn lemma_missing_host_rejected(rules: Seq<Seq<char>>)
    ensures
        !host_allowed(None, rules),
{
}

} // verus!
