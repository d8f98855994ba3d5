//! How the file locks held by agent sessions are shown: grouped by session,
//! under a short session id, each with the age of its last heartbeat.
use vstd::prelude::*;

use crate::clock::{is_rfc3339, seconds_since};
use crate::text::{decimal, push_decimal, same_text};
use vstd::string::StringSliceAdditionalSpecFns;

verus! {

/// How many bytes of a session id the lock listing shows.
pub const SHORT_ID_BYTES: usize = 8;

/// The bytes of a session id that the listing shows: the first eight, or all
/// of a shorter id.
pub open spec fn spec_short_session_id(id: Seq<u8>) -> Seq<u8> {
    if id.len() > SHORT_ID_BYTES {
        id.subrange(0, SHORT_ID_BYTES as int)
    } else {
        id
    }
}

/// Shortens a session id to its first eight bytes. A longer id must have a
/// character boundary there.
pub fn short_session_id(session_id: &str) -> (res: &str)
    requires
        session_id.spec_bytes().len() <= usize::MAX,
        session_id.spec_bytes().len() > SHORT_ID_BYTES ==> vstd::utf8::is_char_boundary(
            session_id.spec_bytes(),
            SHORT_ID_BYTES as int,
        ),
    ensures
        res.spec_bytes() == spec_short_session_id(session_id.spec_bytes()),
{
    if session_id.len() > SHORT_ID_BYTES {
        let (head, _tail) = session_id.split_at(SHORT_ID_BYTES);
        head
    } else {
        session_id
    }
}

/// How a lock's age is shown: whole seconds (none below zero) and `s ago`,
/// or `?` when the heartbeat could not be read.
pub open spec fn spec_age_label(age: Option<i64>) -> Seq<char> {
    match age {
        Some(secs) => decimal(if secs < 0 {
            0nat
        } else {
            secs as nat
        }) + "s ago"@,
        None => "?"@,
    }
}

/// Shows the age of a lock in whole seconds.
pub fn age_label(age: Option<i64>) -> (res: String)
    ensures
        res@ == spec_age_label(age),
{
    match age {
        Some(secs) => {
            let shown: u64 = if secs < 0 {
                0
            } else {
                secs as u64
            };
            let mut out = String::new();
            push_decimal(&mut out, shown);
            out.append("s ago");
            out
        },
        None => "?".to_owned(),
    }
}

/// Shows how long ago a lock's last heartbeat (RFC 3339 text) was, measured
/// against the current time; `?` when the heartbeat is not a timestamp.
pub fn heartbeat_age_label(heartbeat: &str) -> (res: String)
    ensures
        exists|age: Option<i64>|
            (age is Some <==> is_rfc3339(heartbeat@)) && res@ == #[trigger] spec_age_label(age),
{
    let age = seconds_since(heartbeat);
    let res = age_label(age);
    assert(spec_age_label(age) == res@);
    res
}

/// The characters of each text in a list.
pub open spec fn texts(v: Seq<String>) -> Seq<Seq<char>> {
    v.map_values(|s: String| s@)
}

/// The locks of one session, by their places in the lock listing.
pub struct SessionGroup {
    pub session: String,
    pub members: Vec<usize>,
}

/// The place of a session among the keys, if it is one of them.
fn find_key(keys: &Vec<String>, session: &str) -> (res: Option<usize>)
    ensures
        res matches Some(g) ==> g < keys.len() && texts(keys@)[g as int] == session@,
        res is None ==> forall|g: int| 0 <= g < keys.len() ==> #[trigger] texts(keys@)[g] != session@,
{
    let mut g: usize = 0;
    while g < keys.len()
        invariant
            0 <= g <= keys.len(),
            forall|h: int| 0 <= h < g ==> #[trigger] texts(keys@)[h] != session@,
        decreases keys.len() - g,
    {
        if same_text(keys[g].as_str(), session) {
            return Some(g);
        }
        g += 1;
    }
    None
}

/// The places, in order, of the locks that belong to a session.
fn members_of(sessions: &Vec<String>, session: &str) -> (res: Vec<usize>)
    ensures
        forall|k: int| 0 <= k < res.len() ==> #[trigger] res@[k] < sessions.len() && texts(sessions@)[res@[k] as int] == session@,
        forall|k1: int, k2: int| 0 <= k1 < k2 < res.len() ==> res@[k1] < res@[k2],
        forall|i: int| 0 <= i < sessions.len() && #[trigger] texts(sessions@)[i] == session@ ==> res@.contains(i as usize),
{
    let ghost ss = texts(sessions@);
    let mut res: Vec<usize> = Vec::new();
    let mut i: usize = 0;
    while i < sessions.len()
        invariant
            0 <= i <= sessions.len(),
            ss == texts(sessions@),
            forall|k: int| 0 <= k < res.len() ==> #[trigger] res@[k] < i && ss[res@[k] as int] == session@,
            forall|k1: int, k2: int| 0 <= k1 < k2 < res.len() ==> res@[k1] < res@[k2],
            forall|j: int| 0 <= j < i && #[trigger] ss[j] == session@ ==> res@.contains(j as usize),
        decreases sessions.len() - i,
    {
        if same_text(sessions[i].as_str(), session) {
            let ghost before = res@;
            res.push(i);
            assert forall|j: int| 0 <= j < i + 1 && #[trigger] ss[j] == session@ implies res@.contains(j as usize) by {
                if j < i {
                    assert(before.contains(j as usize));
                    let k = choose|k: int| 0 <= k < before.len() && before[k] == j as usize;
                    assert(res@[k] == j as usize);
                } else {
                    assert(res@[res@.len() - 1] == i);
                }
            }
        }
        i += 1;
    }
    res
}

/// The sessions of a listing in order of first appearance, each with the
/// place where it first appears.
fn first_appearances(sessions: &Vec<String>) -> (res: (Vec<String>, Vec<usize>))
    ensures
        res.0.len() == res.1.len(),
        forall|a: int, b: int| 0 <= a < b < res.0.len() ==> texts(res.0@)[a] != texts(res.0@)[b],
        forall|g: int| 0 <= g < res.0.len() ==> {
            &&& #[trigger] res.1@[g] < sessions.len()
            &&& texts(sessions@)[res.1@[g] as int] == texts(res.0@)[g]
            &&& forall|j: int| 0 <= j < res.1@[g] ==> texts(sessions@)[j] != texts(res.0@)[g]
        },
        forall|a: int, b: int| 0 <= a < b < res.0.len() ==> res.1@[a] < res.1@[b],
        forall|j: int| 0 <= j < sessions.len() ==> texts(res.0@).contains(#[trigger] texts(sessions@)[j]),
{
    let mut keys: Vec<String> = Vec::new();
    let mut firsts: Vec<usize> = Vec::new();
    let mut i: usize = 0;
    while i < sessions.len()
        invariant
            0 <= i <= sessions.len(),
            keys.len() == firsts.len(),
            forall|a: int, b: int| 0 <= a < b < keys.len() ==> texts(keys@)[a] != texts(keys@)[b],
            forall|g: int| 0 <= g < keys.len() ==> {
                &&& #[trigger] firsts@[g] < i
                &&& texts(sessions@)[firsts@[g] as int] == texts(keys@)[g]
                &&& forall|j: int| 0 <= j < firsts@[g] ==> texts(sessions@)[j] != texts(keys@)[g]
            },
            forall|a: int, b: int| 0 <= a < b < keys.len() ==> firsts@[a] < firsts@[b],
            forall|j: int| 0 <= j < i ==> texts(keys@).contains(#[trigger] texts(sessions@)[j]),
        decreases sessions.len() - i,
    {
        let found = find_key(&keys, sessions[i].as_str());
        let ghost old_keys = texts(keys@);
        let ghost old_firsts = firsts@;
        if found.is_none() {
            keys.push(sessions[i].clone());
            firsts.push(i);
            assert(texts(keys@) =~= old_keys.push(texts(sessions@)[i as int]));
            assert forall|j: int| 0 <= j < i + 1 implies texts(keys@).contains(#[trigger] texts(sessions@)[j]) by {
                if j < i {
                    assert(old_keys.contains(texts(sessions@)[j]));
                    let g = choose|g: int| 0 <= g < old_keys.len() && old_keys[g] == texts(sessions@)[j];
                    assert(texts(keys@)[g] == old_keys[g]);
                } else {
                    assert(texts(keys@)[keys.len() - 1] == texts(sessions@)[j]);
                }
            }
            assert forall|g: int| 0 <= g < keys.len() implies {
                &&& #[trigger] firsts@[g] < i + 1
                &&& texts(sessions@)[firsts@[g] as int] == texts(keys@)[g]
                &&& forall|j: int| 0 <= j < firsts@[g] ==> texts(sessions@)[j] != texts(keys@)[g]
            } by {
                if g == keys.len() - 1 {
                    assert forall|j: int| 0 <= j < firsts@[g] implies texts(sessions@)[j] != texts(keys@)[g] by {
                        if texts(sessions@)[j] == texts(keys@)[g] {
                            assert(old_keys.contains(texts(sessions@)[j]));
                            let h = choose|h: int| 0 <= h < old_keys.len() && old_keys[h] == texts(sessions@)[j];
                            assert(old_keys[h] == texts(sessions@)[i as int]);
                        }
                    }
                } else {
                    assert(firsts@[g] == old_firsts[g]);
                    assert(texts(keys@)[g] == old_keys[g]);
                }
            }
        } else {
            let ghost g = found->0;
            assert(texts(keys@)[g as int] == texts(sessions@)[i as int]);
            assert(texts(keys@).contains(texts(sessions@)[i as int]));
        }
        i += 1;
    }
    (keys, firsts)
}

/// The groups of a listing, given its sessions in order of first appearance.
fn collect_groups(sessions: &Vec<String>, keys: &Vec<String>, firsts: &Vec<usize>) -> (groups: Vec<SessionGroup>)
    requires
        keys.len() == firsts.len(),
        forall|a: int, b: int| 0 <= a < b < keys.len() ==> texts(keys@)[a] != texts(keys@)[b],
        forall|g: int| 0 <= g < keys.len() ==> {
            &&& #[trigger] firsts@[g] < sessions.len()
            &&& texts(sessions@)[firsts@[g] as int] == texts(keys@)[g]
            &&& forall|j: int| 0 <= j < firsts@[g] ==> texts(sessions@)[j] != texts(keys@)[g]
        },
        forall|a: int, b: int| 0 <= a < b < keys.len() ==> firsts@[a] < firsts@[b],
    ensures
        groups.len() == keys.len(),
        forall|h: int| 0 <= h < groups.len() ==> {
            &&& #[trigger] groups@[h].session@ == texts(keys@)[h]
            &&& groups@[h].members.len() > 0
            &&& groups@[h].members@[0] == firsts@[h]
            &&& forall|k: int| 0 <= k < groups@[h].members.len() ==> #[trigger] groups@[h].members@[k] < sessions.len() && texts(sessions@)[groups@[h].members@[k] as int] == texts(keys@)[h]
            &&& forall|k1: int, k2: int| 0 <= k1 < k2 < groups@[h].members.len() ==> groups@[h].members@[k1] < groups@[h].members@[k2]
            &&& forall|j: int| 0 <= j < sessions.len() && #[trigger] texts(sessions@)[j] == texts(keys@)[h] ==> groups@[h].members@.contains(j as usize)
        },
{
    let mut groups: Vec<SessionGroup> = Vec::new();
    let mut g: usize = 0;
    while g < keys.len()
        invariant
            0 <= g <= keys.len(),
            keys.len() == firsts.len(),
            groups.len() == g,
            forall|a: int, b: int| 0 <= a < b < keys.len() ==> texts(keys@)[a] != texts(keys@)[b],
            forall|h: int| 0 <= h < keys.len() ==> {
                &&& #[trigger] firsts@[h] < sessions.len()
                &&& texts(sessions@)[firsts@[h] as int] == texts(keys@)[h]
                &&& forall|j: int| 0 <= j < firsts@[h] ==> texts(sessions@)[j] != texts(keys@)[h]
            },
            forall|a: int, b: int| 0 <= a < b < keys.len() ==> firsts@[a] < firsts@[b],
            forall|h: int| 0 <= h < g ==> {
                &&& #[trigger] groups@[h].session@ == texts(keys@)[h]
                &&& groups@[h].members.len() > 0
                &&& groups@[h].members@[0] == firsts@[h]
                &&& forall|k: int| 0 <= k < groups@[h].members.len() ==> #[trigger] groups@[h].members@[k] < sessions.len() && texts(sessions@)[groups@[h].members@[k] as int] == texts(keys@)[h]
                &&& forall|k1: int, k2: int| 0 <= k1 < k2 < groups@[h].members.len() ==> groups@[h].members@[k1] < groups@[h].members@[k2]
                &&& forall|j: int| 0 <= j < sessions.len() && #[trigger] texts(sessions@)[j] == texts(keys@)[h] ==> groups@[h].members@.contains(j as usize)
            },
        decreases keys.len() - g,
    {
        let members = members_of(sessions, keys[g].as_str());
        proof {
            let f = firsts@[g as int];
            assert(texts(sessions@)[f as int] == texts(keys@)[g as int]);
            assert(members@.contains(f));
            let kf = choose|k: int| 0 <= k < members.len() && members@[k] == f;
            assert(members@[0] <= f) by {
                if kf > 0 {
                    assert(members@[0] < members@[kf]);
                }
            }
            assert(members@[0] < sessions.len());
        }
        let ghost old_groups = groups@;
        groups.push(SessionGroup { session: keys[g].clone(), members });
        proof {
            assert forall|h: int| 0 <= h < g + 1 implies {
                &&& #[trigger] groups@[h].session@ == texts(keys@)[h]
                &&& groups@[h].members.len() > 0
                &&& groups@[h].members@[0] == firsts@[h]
                &&& forall|k: int| 0 <= k < groups@[h].members.len() ==> #[trigger] groups@[h].members@[k] < sessions.len() && texts(sessions@)[groups@[h].members@[k] as int] == texts(keys@)[h]
                &&& forall|k1: int, k2: int| 0 <= k1 < k2 < groups@[h].members.len() ==> groups@[h].members@[k1] < groups@[h].members@[k2]
                &&& forall|j: int| 0 <= j < sessions.len() && #[trigger] texts(sessions@)[j] == texts(keys@)[h] ==> groups@[h].members@.contains(j as usize)
            } by {
                if h < g {
                    assert(groups@[h] == old_groups[h]);
                }
            }
        }
        g += 1;
    }
    groups
}

/// Whether the lock at place `i` is listed in the group of session `s`.
pub open spec fn is_grouped(groups: Seq<SessionGroup>, i: usize, s: Seq<char>) -> bool {
    exists|g: int| 0 <= g < groups.len() && groups[g].session@ == s && #[trigger] groups[g].members@.contains(i)
}

/// Groups the locks of a listing by session, given each lock's session in
/// listing order. Every session appears in one group, groups come in the
/// order in which their sessions first appear, and each group lists the
/// places of exactly the locks of its session, in listing order.
pub fn group_by_session(sessions: &Vec<String>) -> (groups: Vec<SessionGroup>)
    ensures
        forall|a: int, b: int|
            0 <= a < b < groups.len() ==> groups@[a].session@ != groups@[b].session@,
        forall|g: int, k: int|
            0 <= g < groups.len() && 0 <= k < groups@[g].members.len() ==> {
                &&& #[trigger] groups@[g].members@[k] < sessions.len()
                &&& texts(sessions@)[groups@[g].members@[k] as int] == groups@[g].session@
            },
        forall|g: int, k1: int, k2: int|
            0 <= g < groups.len() && 0 <= k1 < k2 < groups@[g].members.len()
                ==> groups@[g].members@[k1] < groups@[g].members@[k2],
        forall|i: int|
            0 <= i < sessions.len() ==> is_grouped(groups@, i as usize, #[trigger] texts(sessions@)[i]),
        forall|g: int| 0 <= g < groups.len() ==> #[trigger] groups@[g].members.len() > 0,
        forall|a: int, b: int|
            0 <= a < b < groups.len() ==> groups@[a].members@[0] < groups@[b].members@[0],
{
    let (keys, firsts) = first_appearances(sessions);
    let groups = collect_groups(sessions, &keys, &firsts);
    proof {
        assert forall|i: int| 0 <= i < sessions.len() implies is_grouped(groups@, i as usize, #[trigger] texts(sessions@)[i]) by {
            assert(texts(keys@).contains(texts(sessions@)[i]));
            let h = choose|h: int| 0 <= h < keys.len() && texts(keys@)[h] == texts(sessions@)[i];
            assert(groups@[h].session@ == texts(keys@)[h]);
            assert(groups@[h].members@.contains(i as usize));
        }
        assert forall|g: int, k: int|
            0 <= g < groups.len() && 0 <= k < groups@[g].members.len() implies {
                &&& #[trigger] groups@[g].members@[k] < sessions.len()
                &&& texts(sessions@)[groups@[g].members@[k] as int] == groups@[g].session@
            } by {
            assert(groups@[g].session@ == texts(keys@)[g]);
        }
        assert forall|g: int| 0 <= g < groups.len() implies #[trigger] groups@[g].members.len() > 0 by {
            assert(groups@[g].session@ == texts(keys@)[g]);
        }
        assert forall|a: int, b: int|
            0 <= a < b < groups.len() implies groups@[a].members@[0] < groups@[b].members@[0] by {
            assert(groups@[a].session@ == texts(keys@)[a]);
            assert(groups@[b].session@ == texts(keys@)[b]);
        }
        assert forall|a: int, b: int|
            0 <= a < b < groups.len() implies groups@[a].session@ != groups@[b].session@ by {
            assert(groups@[a].session@ == texts(keys@)[a]);
            assert(groups@[b].session@ == texts(keys@)[b]);
        }
        assert forall|g: int, k1: int, k2: int|
            0 <= g < groups.len() && 0 <= k1 < k2 < groups@[g].members.len()
                implies groups@[g].members@[k1] < groups@[g].members@[k2] by {
            assert(groups@[g].session@ == texts(keys@)[g]);
        }
    }
    groups
}

} // verus!
