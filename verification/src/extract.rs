//! Deriving a client address from a request context under one of two
//! addressing policies: trust the proxy-forwarded address, or take the IP
//! component of the transport-layer peer address.

use crate::error::DispatchError;
use crate::error::ErrorModel;
use vstd::prelude::*;

verus! {

/// Whether `c` occurs anywhere in `s`.
pub open spec fn contains_char(s: Seq<char>, c: char) -> bool {
    exists|i: int| 0 <= i < s.len() && s[i] == c
}

/// `i` is the index of the first occurrence of `c` in `s`.
pub open spec fn is_first_index_of(s: Seq<char>, c: char, i: int) -> bool {
    &&& 0 <= i < s.len()
    &&& s[i] == c
    &&& forall|k: int| 0 <= k < i ==> s[k] != c
}

/// `i` is the index of the last occurrence of `c` in `s`.
pub open spec fn is_last_index_of(s: Seq<char>, c: char, i: int) -> bool {
    &&& 0 <= i < s.len()
    &&& s[i] == c
    &&& forall|k: int| i < k < s.len() ==> s[k] != c
}

/// The index of the first occurrence of `c` in `s` (meaningful only where
/// `contains_char(s, c)` holds; the witness is then unique).
pub open spec fn first_index_of(s: Seq<char>, c: char) -> int {
    choose|i: int| is_first_index_of(s, c, i)
}

/// The index of the last occurrence of `c` in `s` (meaningful only where
/// `contains_char(s, c)` holds; the witness is then unique).
pub open spec fn last_index_of(s: Seq<char>, c: char) -> int {
    choose|i: int| is_last_index_of(s, c, i)
}

/// At most one index is the first occurrence of `c`, so `first_index_of`
/// names exactly the index any search finds.
pub proof fn lemma_first_index_of_unique(s: Seq<char>, c: char, i: int)
    requires
        is_first_index_of(s, c, i),
    ensures
        first_index_of(s, c) == i,
{
    let j = first_index_of(s, c);
    assert(is_first_index_of(s, c, j));
    if j < i {
        assert(s[j] == c);
        assert(false);
    }
    if i < j {
        assert(s[i] == c);
        assert(false);
    }
}

/// At most one index is the last occurrence of `c`, so `last_index_of`
/// names exactly the index any search finds.
pub proof fn lemma_last_index_of_unique(s: Seq<char>, c: char, i: int)
    requires
        is_last_index_of(s, c, i),
    ensures
        last_index_of(s, c) == i,
{
    let j = last_index_of(s, c);
    assert(is_last_index_of(s, c, j));
    if j < i {
        assert(s[i] == c);
        assert(false);
    }
    if i < j {
        assert(s[j] == c);
        assert(false);
    }
}

/// The IP component of a textual socket address, as the canonical textual
/// forms put it: a bracketed form `[ip]:port` yields the characters between
/// the opening bracket and the first closing bracket; otherwise everything
/// before the last `:` separates the IP from the port; a text with neither
/// is already a bare address.
pub open spec fn ip_component(s: Seq<char>) -> Seq<char> {
    if s.len() > 0 && s[0] == '[' && contains_char(s, ']') {
        s.subrange(1, first_index_of(s, ']'))
    } else if contains_char(s, ':') {
        s.subrange(0, last_index_of(s, ':'))
    } else {
        s
    }
}

/// Index of the first occurrence of `c` in `s`, if any.
fn find_first(s: &str, c: char) -> (r: Option<usize>)
    ensures
        match r {
            Some(i) => is_first_index_of(s@, c, i as int),
            None => !contains_char(s@, c),
        },
{
    let n = s.unicode_len();
    let mut i: usize = 0;
    while i < n
        invariant
            n == s@.len(),
            0 <= i <= n,
            forall|k: int| 0 <= k < i ==> s@[k] != c,
        decreases n - i,
    {
        if s.get_char(i) == c {
            return Some(i);
        }
        i = i + 1;
    }
    None
}

/// Index of the last occurrence of `c` in `s`, if any.
fn find_last(s: &str, c: char) -> (r: Option<usize>)
    ensures
        match r {
            Some(i) => is_last_index_of(s@, c, i as int),
            None => !contains_char(s@, c),
        },
{
    let n = s.unicode_len();
    let mut i: usize = n;
    while i > 0
        invariant
            n == s@.len(),
            0 <= i <= n,
            forall|k: int| i <= k < n ==> s@[k] != c,
        decreases i,
    {
        i = i - 1;
        if s.get_char(i) == c {
            return Some(i);
        }
    }
    None
}

/// The IP component of a textual socket address, e.g. `"203.0.113.7:54321"`
/// yields `"203.0.113.7"` and `"[2001:db8::1]:443"` yields `"2001:db8::1"`.
pub fn peer_ip_component(peer: &str) -> (r: String)
    ensures
        r@ == ip_component(peer@),
{
    let n = peer.unicode_len();
    if n > 0 && peer.get_char(0) == '[' {
        match find_first(peer, ']') {
            Some(j) => {
                proof {
                    lemma_first_index_of_unique(peer@, ']', j as int);
                    assert(j >= 1);
                }
                let inner = peer.substring_char(1, j);
                return String::from_str(inner);
            },
            None => {},
        }
    }
    match find_last(peer, ':') {
        Some(j) => {
            proof {
                lemma_last_index_of_unique(peer@, ':', j as int);
            }
            let pre = peer.substring_char(0, j);
            String::from_str(pre)
        },
        None => String::from_str(peer),
    }
}

/// The message an extraction failure carries when the peer-address policy
/// finds no peer address in the request context.
pub open spec fn no_peer_message() -> Seq<char> {
    "no peer address available"@
}

/// The message an extraction failure carries when the forwarded-address
/// policy finds no forwarded address in the request context.
pub open spec fn no_forwarded_message() -> Seq<char> {
    "no forwarded address available"@
}

/// The view of an optional owned text as an optional character sequence.
pub open spec fn view_opt(o: Option<String>) -> Option<Seq<char>> {
    match o {
        Some(s) => Some(s@),
        None => None,
    }
}

/// What extraction yields for a request context, per policy: the forwarded
/// address verbatim when the forwarded-header policy is active, otherwise
/// the IP component of the peer address; an extraction failure when the
/// selected source is absent from the context.
pub open spec fn spec_extract(
    forwarded_for: bool,
    forwarded: Option<Seq<char>>,
    peer: Option<Seq<char>>,
) -> Result<Seq<char>, ErrorModel> {
    if forwarded_for {
        match forwarded {
            Some(f) => Ok(f),
            None => Err(ErrorModel::Extraction(no_forwarded_message())),
        }
    } else {
        match peer {
            Some(p) => Ok(ip_component(p)),
            None => Err(ErrorModel::Extraction(no_peer_message())),
        }
    }
}

/// The view of an extraction result.
pub open spec fn view_extracted(r: Result<String, DispatchError>) -> Result<Seq<char>, ErrorModel> {
    match r {
        Ok(ip) => Ok(ip@),
        Err(e) => Err(e@),
    }
}

/// Derive the client address from a request context. Pure in the context and
/// the policy; no side effects.
pub fn extract_address(
    forwarded_for: bool,
    forwarded: Option<String>,
    peer: Option<String>,
) -> (r: Result<String, DispatchError>)
    ensures
        view_extracted(r) == spec_extract(forwarded_for, view_opt(forwarded), view_opt(peer)),
{
    if forwarded_for {
        match forwarded {
            Some(f) => Ok(f),
            None => Err(
                DispatchError::Extraction(String::from_str("no forwarded address available")),
            ),
        }
    } else {
        match peer {
            Some(p) => Ok(peer_ip_component(p.as_str())),
            None => Err(DispatchError::Extraction(String::from_str("no peer address available"))),
        }
    }
}

} // verus!
