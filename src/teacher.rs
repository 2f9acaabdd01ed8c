use vstd::prelude::*;
use crate::ledger::{models, PresenceMap};
use crate::signal::{ContentHash, Sighting, Socket, Time};

verus! {

/// How many of the observations name endpoint `e`.
pub open spec fn count_of(obs: Seq<(Seq<u8>, Time)>, e: Seq<u8>) -> nat
    decreases obs.len(),
{
    if obs.len() == 0 {
        0
    } else {
        count_of(obs.drop_last(), e) + if obs.last().0 == e { 1nat } else { 0nat }
    }
}

/// The latest time at which endpoint `e` was observed (the least time when
/// it never was).
pub open spec fn latest_of(obs: Seq<(Seq<u8>, Time)>, e: Seq<u8>) -> Time
    decreases obs.len(),
{
    if obs.len() == 0 {
        i64::MIN
    } else {
        let prev = latest_of(obs.drop_last(), e);
        if obs.last().0 == e && obs.last().1 > prev {
            obs.last().1
        } else {
            prev
        }
    }
}

/// Endpoint `a` is more trusted than `b`: more observations, or as many and
/// a more recent one.
pub open spec fn outranks(obs: Seq<(Seq<u8>, Time)>, a: Seq<u8>, b: Seq<u8>) -> bool {
    count_of(obs, a) > count_of(obs, b) || (count_of(obs, a) == count_of(obs, b) && latest_of(
        obs,
        a,
    ) > latest_of(obs, b))
}

/// `s` is the teacher of the observations: it was observed at some index
/// `k`, no observed endpoint outranks it, and it outranks every endpoint
/// observed before `k`. Among endpoints that tie on count and latest time,
/// the one first observed is chosen.
pub open spec fn is_teacher(obs: Seq<(Seq<u8>, Time)>, s: Seq<u8>) -> bool {
    exists|k: int|
        0 <= k < obs.len() && obs[k].0 == s && (forall|j: int|
            0 <= j < obs.len() ==> !outranks(obs, #[trigger] obs[j].0, s)) && (forall|j: int|
            0 <= j < k ==> outranks(obs, s, #[trigger] obs[j].0))
}

/// Teacher selection is deterministic: the same observations never have
/// two different teachers.
pub proof fn lemma_teacher_is_unique(obs: Seq<(Seq<u8>, Time)>, a: Seq<u8>, b: Seq<u8>)
    requires
        is_teacher(obs, a),
        is_teacher(obs, b),
    ensures
        a == b,
{
    let ka = choose|k: int|
        0 <= k < obs.len() && obs[k].0 == a && (forall|j: int|
            0 <= j < obs.len() ==> !outranks(obs, #[trigger] obs[j].0, a)) && (forall|j: int|
            0 <= j < k ==> outranks(obs, a, #[trigger] obs[j].0));
    let kb = choose|k: int|
        0 <= k < obs.len() && obs[k].0 == b && (forall|j: int|
            0 <= j < obs.len() ==> !outranks(obs, #[trigger] obs[j].0, b)) && (forall|j: int|
            0 <= j < k ==> outranks(obs, b, #[trigger] obs[j].0));
    if ka < kb {
        assert(outranks(obs, b, obs[ka].0));
        assert(!outranks(obs, obs[kb].0, a));
    } else if kb < ka {
        assert(outranks(obs, a, obs[kb].0));
        assert(!outranks(obs, obs[ka].0, b));
    }
}

/// Whether two sockets are the same bytes.
pub fn socket_eq(a: &Socket, b: &Socket) -> (r: bool)
    ensures
        r == (a@ == b@),
{
    let mut i: usize = 0;
    while i < 18
        invariant
            i <= 18,
            forall|j: int| 0 <= j < i ==> a@[j] == b@[j],
        decreases 18 - i,
    {
        if a[i] != b[i] {
            return false;
        }
        i = i + 1;
    }
    assert(a@ =~= b@);
    true
}

/// The number of observations of `e` and the latest of their times.
fn tally(obs: &Vec<Sighting>, e: &Socket) -> (r: (usize, Time))
    ensures
        r.0 == count_of(models(obs@), e@),
        r.1 == latest_of(models(obs@), e@),
{
    let ghost m = models(obs@);
    let mut count: usize = 0;
    let mut latest: Time = i64::MIN;
    let mut j: usize = 0;
    while j < obs.len()
        invariant
            j <= obs@.len(),
            m == models(obs@),
            count <= j,
            count == count_of(m.take(j as int), e@),
            latest == latest_of(m.take(j as int), e@),
        decreases obs@.len() - j,
    {
        assert(m.take(j + 1).drop_last() =~= m.take(j as int));
        if socket_eq(&obs[j].socket, e) {
            count = count + 1;
            if obs[j].time > latest {
                latest = obs[j].time;
            }
        }
        j = j + 1;
    }
    assert(m.take(obs@.len() as int) =~= m);
    (count, latest)
}

/// The most trusted endpoint among the observations of one hash: the one
/// observed most often, then the one observed most recently, then the one
/// observed first; nothing when there are no observations.
pub fn select_teacher(obs: &Vec<Sighting>) -> (r: Option<Socket>)
    ensures
        r.is_none() <==> obs@.len() == 0,
        r matches Some(s) ==> is_teacher(models(obs@), s@),
{
    let ghost m = models(obs@);
    if obs.len() == 0 {
        return None;
    }
    let (c0, l0) = tally(obs, &obs[0].socket);
    let mut best: Socket = obs[0].socket;
    let mut best_count: usize = c0;
    let mut best_latest: Time = l0;
    let ghost mut best_k: int = 0;
    let mut i: usize = 1;
    while i < obs.len()
        invariant
            1 <= i <= obs@.len(),
            m == models(obs@),
            0 <= best_k < i,
            m[best_k].0 == best@,
            best_count == count_of(m, best@),
            best_latest == latest_of(m, best@),
            forall|j: int| 0 <= j < i ==> !outranks(m, #[trigger] m[j].0, best@),
            forall|j: int| 0 <= j < best_k ==> outranks(m, best@, #[trigger] m[j].0),
        decreases obs@.len() - i,
    {
        let (c, l) = tally(obs, &obs[i].socket);
        if c > best_count || (c == best_count && l > best_latest) {
            best = obs[i].socket;
            best_count = c;
            best_latest = l;
            proof {
                best_k = i as int;
            }
        }
        i = i + 1;
    }
    Some(best)
}

/// The teacher for `hash`: the most trusted endpoint in its presence
/// history, or nothing when the hash has none.
pub fn find_teacher(presence: &PresenceMap, hash: ContentHash) -> (r: Option<Socket>)
    requires
        presence.wf(),
    ensures
        r.is_none() <==> !presence@.contains_key(hash@),
        r matches Some(s) ==> is_teacher(presence@[hash@], s@),
{
    match presence.recall(hash) {
        Some(obs) => {
            proof {
                presence.lemma_no_empty_sequence(hash@);
            }
            select_teacher(&obs)
        },
        None => None,
    }
}

} // verus!
