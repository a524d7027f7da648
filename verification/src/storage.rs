//! Pure operations on the saved server list. Loading and saving the list
//! itself is simple sequential I/O owned by the caller; the rules for
//! identifiers and membership live here.

use vstd::prelude::*;
use vstd::string::*;
use crate::text::{dec_digits, u32_string};

verus! {

/// One saved server credential.
#[derive(Debug)]
pub struct ServerConfig {
    pub id: u32,
    pub title: String,
    pub user: String,
    pub password: String,
}

/// The largest identifier in use, or zero for an empty list.
pub open spec fn spec_max_id(s: Seq<ServerConfig>) -> int
    decreases s.len(),
{
    if s.len() == 0 {
        0
    } else {
        let rest = spec_max_id(s.drop_last());
        if s.last().id as int > rest {
            s.last().id as int
        } else {
            rest
        }
    }
}

/// The first position holding the given identifier, or the length when
/// absent.
pub open spec fn spec_find_id(s: Seq<ServerConfig>, id: u32) -> int
    decreases s.len(),
{
    if s.len() == 0 {
        0
    } else if s[0].id == id {
        0
    } else {
        1 + spec_find_id(s.drop_first(), id)
    }
}

/// Whether some entry carries the given identifier.
pub open spec fn spec_has_id(s: Seq<ServerConfig>, id: u32) -> bool {
    exists|i: int| 0 <= i < s.len() && (#[trigger] s[i]).id == id
}

/// The basic facts about `spec_find_id`.
proof fn lemma_find_id_props(s: Seq<ServerConfig>, id: u32)
    ensures
        0 <= spec_find_id(s, id) <= s.len(),
        spec_find_id(s, id) < s.len() ==> s[spec_find_id(s, id)].id == id,
        forall|j: int| 0 <= j < spec_find_id(s, id) ==> (#[trigger] s[j]).id != id,
        spec_has_id(s, id) <==> spec_find_id(s, id) < s.len(),
    decreases s.len(),
{
    if s.len() == 0 {
    } else if s[0].id == id {
    } else {
        lemma_find_id_props(s.drop_first(), id);
        assert forall|j: int| 0 <= j < spec_find_id(s, id) implies (#[trigger] s[j]).id != id by {
            if j > 0 {
                assert(s.drop_first()[j - 1] == s[j]);
            }
        }
        if spec_find_id(s, id) < s.len() {
            assert(s.drop_first()[spec_find_id(s, id) - 1] == s[spec_find_id(s, id)]);
        }
        if spec_has_id(s, id) {
            let i = choose|i: int| 0 <= i < s.len() && (#[trigger] s[i]).id == id;
            assert(s.drop_first()[i - 1] == s[i]);
            assert(spec_has_id(s.drop_first(), id));
        }
        if spec_has_id(s.drop_first(), id) {
            let i = choose|i: int|
                0 <= i < s.drop_first().len() && (#[trigger] s.drop_first()[i]).id == id;
            assert(s[i + 1] == s.drop_first()[i]);
        }
    }
}

/// Adds a new server under the next free identifier: one more than the
/// largest in use, or one for an empty list.
pub fn add_server(servers: &mut Vec<ServerConfig>, title: String, user: String, password: String)
    -> (r: ServerConfig)
    requires
        spec_max_id(old(servers)@) < u32::MAX,
    ensures
        r.id as int == spec_max_id(old(servers)@) + 1,
        r.title@ == title@,
        r.user@ == user@,
        r.password@ == password@,
        final(servers)@ == old(servers)@.push(r),
{
    let n = servers.len();
    let mut max: u32 = 0;
    let mut k: usize = 0;
    proof {
        assert(servers@.subrange(0, 0) =~= Seq::<ServerConfig>::empty());
    }
    while k < n
        invariant
            k <= n,
            n == servers@.len(),
            servers@ == old(servers)@,
            max as int == spec_max_id(servers@.subrange(0, k as int)),
            max as int <= spec_max_id(servers@) < u32::MAX,
        decreases n - k,
    {
        proof {
            assert(servers@.subrange(0, k + 1 as int).drop_last() =~= servers@.subrange(
                0,
                k as int,
            ));
            assert(servers@.subrange(0, k + 1 as int).last() == servers@[k as int]);
            lemma_max_id_prefix(servers@, k + 1 as int);
        }
        if servers[k].id > max {
            max = servers[k].id;
        }
        k += 1;
    }
    proof {
        assert(servers@.subrange(0, n as int) =~= servers@);
    }
    let new_id = max + 1;
    let r = ServerConfig { id: new_id, title, user, password };
    let stored = ServerConfig {
        id: r.id,
        title: r.title.clone(),
        user: r.user.clone(),
        password: r.password.clone(),
    };
    assert(stored == r);
    servers.push(stored);
    r
}

/// A prefix's largest identifier never exceeds the whole list's.
proof fn lemma_max_id_prefix(s: Seq<ServerConfig>, k: int)
    requires
        0 <= k <= s.len(),
    ensures
        spec_max_id(s.subrange(0, k)) <= spec_max_id(s),
    decreases s.len() - k,
{
    if k == s.len() {
        assert(s.subrange(0, k) =~= s);
    } else {
        assert(s.subrange(0, k + 1).drop_last() =~= s.subrange(0, k));
        lemma_max_id_prefix(s, k + 1);
    }
}

/// Replaces the title, user and password of the server with the given
/// identifier, or reports that no server carries it.
pub fn update_server(
    servers: &mut Vec<ServerConfig>,
    id: u32,
    title: String,
    user: String,
    password: String,
) -> (r: Result<ServerConfig, String>)
    ensures
        match r {
            Ok(updated) => spec_has_id(old(servers)@, id) && updated.id == id && updated.title@
                == title@ && updated.user@ == user@ && updated.password@ == password@ && final(servers)@ == old(servers)@.update(spec_find_id(old(servers)@, id), updated),
            Err(m) => !spec_has_id(old(servers)@, id) && final(servers)@ == old(servers)@ && m@
                == "Server with ID "@ + dec_digits(id as nat) + " not found"@,
        },
{
    proof {
        lemma_find_id_props(servers@, id);
    }
    let n = servers.len();
    let mut k: usize = 0;
    while k < n
        invariant
            k <= n,
            n == servers@.len(),
            servers@ == old(servers)@,
            forall|j: int| 0 <= j < k ==> (#[trigger] servers@[j]).id != id,
        decreases n - k,
    {
        if servers[k].id == id {
            proof {
                lemma_find_id_at(servers@, id, k as int);
            }
            let updated = ServerConfig { id, title, user, password };
            let stored = ServerConfig {
                id: updated.id,
                title: updated.title.clone(),
                user: updated.user.clone(),
                password: updated.password.clone(),
            };
            assert(stored == updated);
            servers.set(k, stored);
            return Ok(updated);
        }
        k += 1;
    }
    proof {
        lemma_find_id_props(servers@, id);
    }
    Err(
        String::from_str("Server with ID ").concat(u32_string(id).as_str()).concat(" not found"),
    )
}

/// `spec_find_id` equals the scanned position.
proof fn lemma_find_id_at(s: Seq<ServerConfig>, id: u32, i: int)
    requires
        0 <= i <= s.len(),
        forall|j: int| 0 <= j < i ==> (#[trigger] s[j]).id != id,
        i == s.len() || s[i].id == id,
    ensures
        spec_find_id(s, id) == i,
    decreases i,
{
    if i == 0 {
    } else {
        assert(s[0].id != id);
        assert forall|j: int| 0 <= j < i - 1 implies (#[trigger] s.drop_first()[j]).id != id by {
            assert(s.drop_first()[j] == s[j + 1]);
        }
        if i < s.len() {
            assert(s.drop_first()[i - 1] == s[i]);
        }
        lemma_find_id_at(s.drop_first(), id, i - 1);
    }
}

/// Removes every server with the given identifier, or reports that none
/// carries it.
pub fn remove_server(servers: &mut Vec<ServerConfig>, id: u32) -> (r: Result<String, String>)
    ensures
        final(servers)@ == old(servers)@.filter(|s: ServerConfig| s.id != id),
        match r {
            Ok(m) => spec_has_id(old(servers)@, id) && m@ == "Server with ID "@ + dec_digits(
                id as nat,
            ) + " removed"@,
            Err(m) => !spec_has_id(old(servers)@, id) && m@ == "Server with ID "@ + dec_digits(
                id as nat,
            ) + " not found"@,
        },
{
    let ghost pred = |s: ServerConfig| s.id != id;
    let n = servers.len();
    let mut kept: Vec<ServerConfig> = Vec::new();
    let mut found = false;
    let mut k: usize = 0;
    proof {
        reveal(Seq::filter);
        assert(servers@.subrange(0, 0) =~= Seq::<ServerConfig>::empty());
        assert(servers@.subrange(0, 0).filter(pred) =~= Seq::<ServerConfig>::empty());
    }
    while k < n
        invariant
            k <= n,
            n == servers@.len(),
            servers@ == old(servers)@,
            kept@ == servers@.subrange(0, k as int).filter(pred),
            pred == (|s: ServerConfig| s.id != id),
            found <==> exists|i: int| 0 <= i < k && (#[trigger] servers@[i]).id == id,
        decreases n - k,
    {
        proof {
            reveal(Seq::filter);
            assert(servers@.subrange(0, k + 1 as int).drop_last() =~= servers@.subrange(
                0,
                k as int,
            ));
            assert(servers@.subrange(0, k + 1 as int).last() == servers@[k as int]);
        }
        let entry = &servers[k];
        if entry.id == id {
            found = true;
        } else {
            let kept_entry = ServerConfig {
                id: entry.id,
                title: entry.title.clone(),
                user: entry.user.clone(),
                password: entry.password.clone(),
            };
            assert(kept_entry == servers@[k as int]);
            kept.push(kept_entry);
        }
        k += 1;
    }
    proof {
        assert(servers@.subrange(0, n as int) =~= servers@);
    }
    let msg_id = u32_string(id);
    let result = if found {
        Ok(String::from_str("Server with ID ").concat(msg_id.as_str()).concat(" removed"))
    } else {
        Err(String::from_str("Server with ID ").concat(msg_id.as_str()).concat(" not found"))
    };
    *servers = kept;
    result
}

/// The path of the saved server list under the given home directory.
pub fn get_config_file_path(home: &str) -> (r: String)
    ensures
        r@ == home@ + "/.ssh-connect/servers.json"@,
{
    String::from_str(home).concat("/.ssh-connect/servers.json")
}

} // verus!
