//! Session endpoints: a connection descriptor names one remote machine, and
//! parsing it yields the effective username and host. A `user@host` form
//! embedded in the host field takes precedence over the separate username
//! field, which is a fallback rather than an override.

use vstd::prelude::*;
use vstd::string::*;
use crate::errors::TransferError;
use crate::text::{contains_char, find_char, from_chars, to_chars};

verus! {

/// One remote endpoint: username, host (which may itself carry a
/// `user@host` form), and the password used both for authentication and as
/// the elevation credential.
pub struct SshConnectionInfo {
    pub username: String,
    pub host: String,
    pub password: String,
}

/// Index of the first occurrence of `c` in `s`, or `s.len()` when absent.
pub open spec fn first_index(s: Seq<char>, c: char) -> int
    decreases s.len(),
{
    if s.len() == 0 {
        0
    } else if s[0] == c {
        0
    } else {
        1 + first_index(s.drop_first(), c)
    }
}

/// The basic facts about `first_index`: it is in range, it points at `c`
/// when `c` occurs, and nothing before it is `c`.
pub proof fn lemma_first_index_props(s: Seq<char>, c: char)
    ensures
        0 <= first_index(s, c) <= s.len(),
        first_index(s, c) < s.len() ==> s[first_index(s, c)] == c,
        forall|j: int| 0 <= j < first_index(s, c) ==> s[j] != c,
    decreases s.len(),
{
    if s.len() == 0 {
    } else if s[0] == c {
    } else {
        lemma_first_index_props(s.drop_first(), c);
        assert forall|j: int| 0 <= j < first_index(s, c) implies s[j] != c by {
            if j > 0 {
                assert(s.drop_first()[j - 1] == s[j]);
            }
        }
    }
}

/// `first_index` equals `i` exactly when nothing before `i` is `c` and
/// either `i` is the length or position `i` holds `c`.
pub proof fn lemma_first_index_at(s: Seq<char>, c: char, i: int)
    requires
        0 <= i <= s.len(),
        forall|j: int| 0 <= j < i ==> s[j] != c,
        i == s.len() || s[i] == c,
    ensures
        first_index(s, c) == i,
    decreases i,
{
    if i == 0 {
    } else {
        assert(s[0] != c);
        assert forall|j: int| 0 <= j < i - 1 implies s.drop_first()[j] != c by {
            assert(s.drop_first()[j] == s[j + 1]);
        }
        if i < s.len() {
            assert(s.drop_first()[i - 1] == s[i]);
        }
        lemma_first_index_at(s.drop_first(), c, i - 1);
    }
}

/// The combined connection string: the host field when it already embeds a
/// `user@host` form, otherwise the username joined to the host with `@`.
pub open spec fn spec_combined(username: Seq<char>, host: Seq<char>) -> Seq<char> {
    if contains_char(host, '@') {
        host
    } else {
        username + seq!['@'] + host
    }
}

/// A combined string is well formed when it splits into exactly two
/// non-empty parts on `@`: the first `@` is interior, and no second `@`
/// follows it.
pub open spec fn well_formed_address(s: Seq<char>) -> bool {
    let i = first_index(s, '@');
    0 < i < s.len() - 1 && !contains_char(s.subrange(i + 1, s.len() as int), '@')
}

/// The username a well-formed combined string resolves to.
pub open spec fn effective_username(username: Seq<char>, host: Seq<char>) -> Seq<char> {
    let s = spec_combined(username, host);
    s.subrange(0, first_index(s, '@'))
}

/// The host a well-formed combined string resolves to.
pub open spec fn effective_host(username: Seq<char>, host: Seq<char>) -> Seq<char> {
    let s = spec_combined(username, host);
    s.subrange(first_index(s, '@') + 1, s.len() as int)
}

/// Splits a descriptor into its effective username and host, rejecting a
/// combined string that does not divide into exactly two non-empty parts
/// on `@`.
pub fn parse_endpoint(info: &SshConnectionInfo) -> (r: Result<(String, String), TransferError>)
    ensures
        match r {
            Ok(parts) => well_formed_address(spec_combined(info.username@, info.host@))
                && parts.0@ == effective_username(info.username@, info.host@) && parts.1@
                == effective_host(info.username@, info.host@),
            Err(e) => e is MalformedAddress && !well_formed_address(
                spec_combined(info.username@, info.host@),
            ),
        },
{
    let host_chars = to_chars(info.host.as_str());
    let mut comb: Vec<char>;
    if find_char(&host_chars, '@').is_some() {
        comb = host_chars;
    } else {
        comb = to_chars(info.username.as_str());
        comb.push('@');
        let mut rest = host_chars;
        comb.append(&mut rest);
    }
    assert(comb@ =~= spec_combined(info.username@, info.host@));
    let ghost s = spec_combined(info.username@, info.host@);

    let n = comb.len();
    let at = find_char(&comb, '@');
    match at {
        None => {
            proof {
                lemma_first_index_props(s, '@');
                if well_formed_address(s) {
                    assert(s[first_index(s, '@')] == '@');
                    assert(contains_char(s, '@'));
                }
            }
            Err(TransferError::MalformedAddress)
        },
        Some(i) => {
            proof {
                lemma_first_index_at(s, '@', i as int);
            }
            if i == 0 || i >= n - 1 {
                return Err(TransferError::MalformedAddress);
            }
            // reject a second `@` after the first
            let mut j: usize = i + 1;
            while j < n
                invariant
                    i + 1 <= j <= n,
                    n == comb@.len(),
                    comb@ == s,
                    s == spec_combined(info.username@, info.host@),
                    first_index(s, '@') == i as int,
                    forall|k: int| i + 1 <= k < j ==> s[k] != '@',
                decreases n - j,
            {
                if comb[j] == '@' {
                    assert(contains_char(s.subrange(i + 1, s.len() as int), '@')) by {
                        assert(s.subrange(i + 1, s.len() as int)[j - i - 1] == s[j as int]);
                    }
                    assert(!well_formed_address(s)) by {
                        assert(first_index(s, '@') == i as int);
                        assert(contains_char(
                            s.subrange(first_index(s, '@') + 1, s.len() as int),
                            '@',
                        ));
                    }
                    return Err(TransferError::MalformedAddress);
                }
                j += 1;
            }
            assert(!contains_char(s.subrange(i + 1, s.len() as int), '@')) by {
                if contains_char(s.subrange(i + 1, s.len() as int), '@') {
                    let k = choose|k: int|
                        0 <= k < s.len() - i - 1 && #[trigger] s.subrange(i + 1, s.len() as int)[k]
                            == '@';
                    assert(s[i + 1 + k] == '@');
                }
            }
            let mut user: Vec<char> = Vec::new();
            let mut k: usize = 0;
            while k < i
                invariant
                    k <= i,
                    i < n,
                    n == comb@.len(),
                    comb@ == s,
                    user@ == s.subrange(0, k as int),
                decreases i - k,
            {
                user.push(comb[k]);
                assert(s.subrange(0, k + 1 as int) =~= s.subrange(0, k as int).push(s[k as int]));
                k += 1;
            }
            let mut hostp: Vec<char> = Vec::new();
            let mut m: usize = i + 1;
            while m < n
                invariant
                    i + 1 <= m <= n,
                    n == comb@.len(),
                    comb@ == s,
                    hostp@ == s.subrange(i + 1, m as int),
                decreases n - m,
            {
                hostp.push(comb[m]);
                assert(s.subrange(i + 1, m + 1 as int) =~= s.subrange(i + 1, m as int).push(
                    s[m as int],
                ));
                m += 1;
            }
            Ok((from_chars(&user), from_chars(&hostp)))
        },
    }
}

/// The effective username: when the host field has no `@`, it is the
/// username field; when the host field embeds `user@host`, it is the part
/// of the host field before the first `@`, whatever the username field
/// holds.
pub proof fn lemma_effective_username(username: Seq<char>, host: Seq<char>)
    ensures
        !contains_char(host, '@') && well_formed_address(spec_combined(username, host))
            ==> effective_username(username, host) == username,
        contains_char(host, '@') ==> effective_username(username, host) == host.subrange(
            0,
            first_index(host, '@'),
        ),
{
    if !contains_char(host, '@') && well_formed_address(spec_combined(username, host)) {
        let s = spec_combined(username, host);
        assert(s == username + seq!['@'] + host);
        let i = first_index(s, '@');
        lemma_first_index_props(s, '@');
        assert(s[username.len() as int] == '@');
        // the first `@` cannot sit inside the username part: the `@` that
        // joins the two fields would then be a second one after it
        if i < username.len() {
            assert(s.subrange(i + 1, s.len() as int)[username.len() - i - 1] == '@');
            assert(contains_char(s.subrange(i + 1, s.len() as int), '@'));
        }
        assert(i == username.len());
        assert(s.subrange(0, username.len() as int) =~= username);
    }
}

} // verus!
