//! The concurrent maps (dashmap's `DashMap`) that the services keep their
//! state in. Each kind of map has a name for what it holds, and each
//! method that the services call has a wrapper stating its effect on
//! that content. The wrappers take the map by `&mut`: dashmap changes a
//! map through `&self`, which the services only do while they hold it
//! exclusively.

use vstd::prelude::*;
use dashmap::DashMap;
use crate::time::Instant;
use crate::text::str_eq;
use crate::models::RefreshTokenFamily;
use crate::services::token_service::{family_is_young, young_families};
use crate::oauth::state::{fresh_states, state_is_fresh, OAuthStateData, StateView};

verus! {

#[verifier::external_type_specification]
#[verifier::external_body]
#[verifier::reject_recursive_types(K)]
#[verifier::reject_recursive_types(V)]
#[verifier::reject_recursive_types(S)]
pub struct ExDashMap<K, V, S>(DashMap<K, V, S>);

/// A rate-limit bucket: requests counted, start of the window in
/// nanoseconds since the epoch.
pub type Bucket = (u32, i128);

/// A map of rate-limit buckets by key.
pub type BucketMap = DashMap<String, Bucket>;

/// The rate-limit buckets of a map: key to (requests counted, start of the
/// window in nanoseconds since the epoch).
pub uninterp spec fn bucket_map(m: BucketMap) -> Map<Seq<char>, Bucket>;

/// A window of a minute that started at `start` still runs at `now`.
pub open spec fn window_current(start: i128, now: i128) -> bool {
    now - start <= 60_000_000_000
}

pub fn bucket_is_current(v: &(u32, i128), now: i128) -> (r: bool)
    ensures
        r == window_current(v.1, now),
{
    match now.checked_sub(v.1) {
        Some(d) => d <= 60_000_000_000,
        None => now < v.1,
    }
}

/// The buckets of `m` whose window still runs at `now`.
pub open spec fn current_buckets(m: Map<Seq<char>, (u32, i128)>, now: i128) -> Map<
    Seq<char>,
    (u32, i128),
> {
    Map::new(|k: Seq<char>| m.contains_key(k) && window_current(m[k].1, now), |k: Seq<char>| m[k])
}

/// `DashMap::new`: an empty map.
#[verifier::external_body]
pub(crate) fn buckets_new() -> (r: BucketMap)
    ensures
        forall|k: Seq<char>| !#[trigger] bucket_map(r).contains_key(k),
{
    DashMap::new()
}

/// `DashMap::get`: the bucket stored under the key, copied out.
#[verifier::external_body]
pub(crate) fn buckets_get(m: &BucketMap, k: &str) -> (r: Option<Bucket>)
    ensures
        r == (if bucket_map(*m).contains_key(k@) {
            Some(bucket_map(*m)[k@])
        } else {
            None
        }),
{
    match m.get(k) {
        Some(e) => Some(*e),
        None => None,
    }
}

/// `DashMap::insert`: the key now holds the bucket; the others are kept.
#[verifier::external_body]
pub(crate) fn buckets_insert(m: &mut BucketMap, k: &str, v: Bucket)
    ensures
        bucket_map(*final(m)) == bucket_map(*old(m)).insert(k@, v),
{
    m.insert(k.to_string(), v);
}

/// `DashMap::retain`, keeping the buckets whose window still runs at `now`.
#[verifier::external_body]
pub(crate) fn buckets_retain_current(m: &mut BucketMap, now: i128)
    ensures
        bucket_map(*final(m)) == current_buckets(bucket_map(*old(m)), now),
{
    m.retain(|_, v| bucket_is_current(v, now));
}

} // verus!

verus! {

/// Failed logins of one address: their times (nanoseconds since the epoch,
/// oldest first) and the end of a lockout, if one was imposed.
pub type Attempts = (std::collections::VecDeque<i128>, Option<Instant>);

pub type AttemptsView = (Seq<i128>, Option<Instant>);

pub type AttemptsMap = DashMap<String, Attempts>;

pub open spec fn attempts_view(a: Attempts) -> AttemptsView {
    (a.0@, a.1)
}

/// The failed-login records of a map, by address.
pub uninterp spec fn attempts_map(m: AttemptsMap) -> Map<Seq<char>, AttemptsView>;

/// `DashMap::new`: an empty map.
#[verifier::external_body]
pub(crate) fn attempts_new() -> (r: AttemptsMap)
    ensures
        forall|k: Seq<char>| !#[trigger] attempts_map(r).contains_key(k),
{
    DashMap::new()
}

/// `DashMap::get`: a copy of the record stored under the key.
#[verifier::external_body]
pub(crate) fn attempts_get(m: &AttemptsMap, k: &str) -> (r: Option<Attempts>)
    ensures
        r is Some <==> attempts_map(*m).contains_key(k@),
        r matches Some(v) ==> attempts_view(v) == attempts_map(*m)[k@],
{
    match m.get(k) {
        Some(e) => Some(e.clone()),
        None => None,
    }
}

/// `DashMap::insert`: the key now holds the record; the others are kept.
#[verifier::external_body]
pub(crate) fn attempts_insert(m: &mut AttemptsMap, k: &str, v: Attempts)
    ensures
        attempts_map(*final(m)) == attempts_map(*old(m)).insert(k@, attempts_view(v)),
{
    m.insert(k.to_string(), v);
}

/// A record is worth keeping at `now` while its lockout lasts or one of its
/// failures is less than a day old.
pub open spec fn attempts_recent(a: AttemptsView, now: i128) -> bool {
    (a.1 matches Some(l) && now < l.total()) || exists|i: int|
        0 <= i < a.0.len() && now - #[trigger] a.0[i] < 86_400_000_000_000
}

pub fn attempts_is_recent(a: &Attempts, now: i128) -> (r: bool)
    ensures
        r == attempts_recent(attempts_view(*a), now),
{
    if let Some(l) = a.1 {
        if now < l.to_nanos() {
            return true;
        }
    }
    let n = a.0.len();
    let mut i: usize = 0;
    while i < n
        invariant
            n == a.0@.len(),
            i <= n,
            forall|j: int| 0 <= j < i ==> now - #[trigger] a.0@[j] >= 86_400_000_000_000,
        decreases n - i,
    {
        let t = a.0[i];
        let young = match now.checked_sub(t) {
            Some(d) => d < 86_400_000_000_000,
            None => now < t,
        };
        if young {
            assert(now - a.0@[i as int] < 86_400_000_000_000);
            assert(attempts_view(*a).0[i as int] == a.0@[i as int]);
            return true;
        }
        i = i + 1;
    }
    false
}

/// The records of `m` worth keeping at `now`.
pub open spec fn recent_attempts(m: Map<Seq<char>, AttemptsView>, now: i128) -> Map<
    Seq<char>,
    AttemptsView,
> {
    Map::new(|k: Seq<char>| m.contains_key(k) && attempts_recent(m[k], now), |k: Seq<char>| m[k])
}

/// `DashMap::retain`, keeping the records worth keeping at `now`.
#[verifier::external_body]
pub(crate) fn attempts_retain_recent(m: &mut AttemptsMap, now: i128)
    ensures
        attempts_map(*final(m)) == recent_attempts(attempts_map(*old(m)), now),
{
    m.retain(|_, v| attempts_is_recent(v, now));
}

} // verus!

verus! {

/// One successful login: address, its subnet, time and user agent.
pub type LoginRecord = (String, String, Instant, Option<String>);

pub type LoginRecordView = (Seq<char>, Seq<char>, Instant, Option<Seq<char>>);

/// A user's recent logins (oldest first) and known addresses (oldest first).
pub type History = (std::collections::VecDeque<LoginRecord>, Vec<String>);

pub type HistoryView = (Seq<LoginRecordView>, Seq<Seq<char>>);

pub type HistoryMap = DashMap<String, History>;

pub open spec fn record_view(r: LoginRecord) -> LoginRecordView {
    (r.0@, r.1@, r.2, crate::time::opt_view(r.3))
}

pub open spec fn history_view(h: History) -> HistoryView {
    (h.0@.map_values(|r: LoginRecord| record_view(r)), crate::text::string_views(h.1@))
}

/// The login histories of a map, by user.
pub uninterp spec fn history_map(m: HistoryMap) -> Map<Seq<char>, HistoryView>;

/// `DashMap::new`: an empty map.
#[verifier::external_body]
pub(crate) fn history_new() -> (r: HistoryMap)
    ensures
        forall|k: Seq<char>| !#[trigger] history_map(r).contains_key(k),
{
    DashMap::new()
}

/// `DashMap::get`: a copy of the history stored under the key.
#[verifier::external_body]
pub(crate) fn history_get(m: &HistoryMap, k: &str) -> (r: Option<History>)
    ensures
        r is Some <==> history_map(*m).contains_key(k@),
        r matches Some(v) ==> history_view(v) == history_map(*m)[k@],
{
    match m.get(k) {
        Some(e) => Some(e.clone()),
        None => None,
    }
}

/// `DashMap::insert`: the key now holds the history; the others are kept.
#[verifier::external_body]
pub(crate) fn history_insert(m: &mut HistoryMap, k: &str, v: History)
    ensures
        history_map(*final(m)) == history_map(*old(m)).insert(k@, history_view(v)),
{
    m.insert(k.to_string(), v);
}

} // verus!

verus! {

/// Pending OAuth states by their token.
pub type StateMap = DashMap<String, OAuthStateData>;

/// The pending states of a map, by token.
pub uninterp spec fn state_map(m: StateMap) -> Map<Seq<char>, StateView>;

/// `DashMap::new`: an empty map.
#[verifier::external_body]
pub(crate) fn states_new() -> (r: StateMap)
    ensures
        forall|k: Seq<char>| !#[trigger] state_map(r).contains_key(k),
{
    DashMap::new()
}

/// `DashMap::get`: a copy of the state stored under the token.
#[verifier::external_body]
pub(crate) fn states_get(m: &StateMap, k: &str) -> (r: Option<OAuthStateData>)
    ensures
        r is Some <==> state_map(*m).contains_key(k@),
        r matches Some(v) ==> v@ == state_map(*m)[k@],
{
    match m.get(k) {
        Some(e) => Some(e.clone()),
        None => None,
    }
}

/// `DashMap::insert`: the token now holds the state; the others are kept.
#[verifier::external_body]
pub(crate) fn states_insert(m: &mut StateMap, k: &str, v: OAuthStateData)
    ensures
        state_map(*final(m)) == state_map(*old(m)).insert(k@, v@),
{
    m.insert(k.to_string(), v);
}

/// `DashMap::remove`: the state stored under the token, taken out.
#[verifier::external_body]
pub(crate) fn states_remove(m: &mut StateMap, k: &str) -> (r: Option<OAuthStateData>)
    ensures
        r is Some <==> state_map(*old(m)).contains_key(k@),
        r matches Some(v) ==> v@ == state_map(*old(m))[k@],
        state_map(*final(m)) == state_map(*old(m)).remove(k@),
{
    m.remove(k).map(|(_, v)| v)
}

/// `DashMap::retain`, keeping the states not expired at `now`.
#[verifier::external_body]
pub(crate) fn states_retain_fresh(m: &mut StateMap, now: i128)
    ensures
        state_map(*final(m)) == fresh_states(state_map(*old(m)), now as int),
{
    m.retain(|_, v| state_is_fresh(v, now));
}

} // verus!

verus! {

/// Refresh-token families by id.
pub type FamilyMap = DashMap<String, RefreshTokenFamily>;

/// A family as (id, user, current generation, creation time, last use,
/// revoked).
pub type FamilyView = (Seq<char>, Seq<char>, u32, Seq<char>, Seq<char>, bool);

pub open spec fn family_view(f: RefreshTokenFamily) -> FamilyView {
    (f.family_id@, f.user_id@, f.current_generation, f.created_at@, f.last_used_at@, f.is_revoked)
}

/// The families of a map, by id.
pub uninterp spec fn family_map(m: FamilyMap) -> Map<Seq<char>, FamilyView>;

/// `DashMap::new`: an empty map.
#[verifier::external_body]
pub(crate) fn families_new() -> (r: FamilyMap)
    ensures
        forall|k: Seq<char>| !#[trigger] family_map(r).contains_key(k),
{
    DashMap::new()
}

/// `DashMap::get`: a copy of the family stored under the id.
#[verifier::external_body]
pub(crate) fn families_get(m: &FamilyMap, k: &str) -> (r: Option<RefreshTokenFamily>)
    ensures
        r is Some <==> family_map(*m).contains_key(k@),
        r matches Some(v) ==> family_view(v) == family_map(*m)[k@],
{
    match m.get(k) {
        Some(e) => Some(e.clone()),
        None => None,
    }
}

/// `DashMap::insert`: the id now holds the family; the others are kept.
#[verifier::external_body]
pub(crate) fn families_insert(m: &mut FamilyMap, k: &str, v: RefreshTokenFamily)
    ensures
        family_map(*final(m)) == family_map(*old(m)).insert(k@, family_view(v)),
{
    m.insert(k.to_string(), v);
}

/// `DashMap::get_mut`, setting the family's revoked flag if it is there.
#[verifier::external_body]
pub(crate) fn families_mark_revoked(m: &mut FamilyMap, k: &str)
    ensures
        family_map(*final(m)) == (if family_map(*old(m)).contains_key(k@) {
            family_map(*old(m)).insert(k@, revoked_family(family_map(*old(m))[k@]))
        } else {
            family_map(*old(m))
        }),
{
    if let Some(mut f) = m.get_mut(k) {
        f.is_revoked = true;
    }
}

/// Whether `id` is the id field of a family of `user`.
pub open spec fn user_family_id(fams: Map<Seq<char>, FamilyView>, user: Seq<char>, id: Seq<char>) -> bool {
    exists|k: Seq<char>| #[trigger] fams.contains_key(k) && fams[k].1 == user && fams[k].0 == id
}

pub open spec fn revoked_family(f: FamilyView) -> FamilyView {
    (f.0, f.1, f.2, f.3, f.4, true)
}

/// `DashMap::iter`, collecting each stored family (cloned) with the id it
/// is stored under. The order is the map's, which is left open: stated is
/// that exactly the stored entries come out.
#[verifier::external_body]
pub(crate) fn family_entries(m: &FamilyMap) -> (r: Vec<(String, RefreshTokenFamily)>)
    ensures
        forall|i: int|
            0 <= i < r@.len() ==> family_map(*m).contains_key(#[trigger] r@[i].0@) && family_map(*m)[r@[i].0@]
                == family_view(r@[i].1),
        forall|k: Seq<char>| #[trigger]
            family_map(*m).contains_key(k) ==> exists|i: int| 0 <= i < r@.len() && #[trigger] r@[i].0@ == k,
{
    m.iter().map(|e| (e.key().clone(), e.value().clone())).collect()
}

/// The id fields of the families of a user, in no particular order.
pub(crate) fn families_of_user(m: &FamilyMap, user: &str) -> (r: Vec<String>)
    ensures
        forall|i: int| 0 <= i < r@.len() ==> #[trigger] user_family_id(family_map(*m), user@, r@[i]@),
        forall|k: Seq<char>| #[trigger]
            family_map(*m).contains_key(k) && family_map(*m)[k].1 == user@ ==> exists|i: int|
                0 <= i < r@.len() && r@[i]@ == family_map(*m)[k].0,
{
    let entries = family_entries(m);
    let ghost fm = family_map(*m);
    let n = entries.len();
    let mut r: Vec<String> = Vec::new();
    let mut i: usize = 0;
    while i < n
        invariant
            n == entries@.len(),
            i <= n,
            fm == family_map(*m),
            forall|x: int|
                0 <= x < n ==> fm.contains_key(#[trigger] entries@[x].0@) && fm[entries@[x].0@] == family_view(
                    entries@[x].1,
                ),
            forall|j: int| 0 <= j < r@.len() ==> #[trigger] user_family_id(fm, user@, r@[j]@),
            forall|x: int|
                0 <= x < i && (#[trigger] entries@[x]).1.user_id@ == user@ ==> exists|j: int|
                    0 <= j < r@.len() && r@[j]@ == entries@[x].1.family_id@,
        decreases n - i,
    {
        let f = &entries[i].1;
        if str_eq(f.user_id.as_str(), user) {
            let ghost before = r@;
            proof {
                let k = entries@[i as int].0@;
                assert(fm.contains_key(k) && fm[k].1 == user@ && fm[k].0 == f.family_id@);
            }
            r.push(f.family_id.clone());
            assert forall|j: int| 0 <= j < r@.len() implies #[trigger] user_family_id(fm, user@, r@[j]@) by {
                if j < before.len() {
                    assert(r@[j] == before[j]);
                }
            }
            assert forall|x: int| 0 <= x < i + 1 && (#[trigger] entries@[x]).1.user_id@ == user@ implies exists|j: int|
                0 <= j < r@.len() && r@[j]@ == entries@[x].1.family_id@ by {
                if x < i {
                    let j = choose|j: int| 0 <= j < before.len() && before[j]@ == entries@[x].1.family_id@;
                    assert(r@[j] == before[j]);
                } else {
                    assert(r@[before.len() as int]@ == entries@[x].1.family_id@);
                }
            }
        }
        i = i + 1;
    }
    assert forall|k: Seq<char>| #[trigger] fm.contains_key(k) && fm[k].1 == user@ implies exists|j: int|
        0 <= j < r@.len() && r@[j]@ == fm[k].0 by {
        let x = choose|x: int| 0 <= x < entries@.len() && #[trigger] entries@[x].0@ == k;
        assert(fm[entries@[x].0@] == family_view(entries@[x].1));
        assert(entries@[x].1.user_id@ == user@);
    }
    r
}

/// `DashMap::iter`, collecting the ids under which families are stored.
/// The order is the map's, which is left open: stated is which ids come out.
#[verifier::external_body]
pub(crate) fn family_keys(m: &FamilyMap) -> (r: Vec<String>)
    ensures
        forall|i: int| 0 <= i < r@.len() ==> family_map(*m).contains_key(#[trigger] r@[i]@),
        forall|k: Seq<char>| #[trigger]
            family_map(*m).contains_key(k) ==> exists|i: int| 0 <= i < r@.len() && r@[i]@ == k,
{
    m.iter().map(|e| e.key().clone()).collect()
}

/// `DashMap::retain`, keeping the families still young at `now`.
#[verifier::external_body]
pub(crate) fn families_retain_young(m: &mut FamilyMap, now: i128)
    ensures
        family_map(*final(m)) == young_families(family_map(*old(m)), now as int),
{
    m.retain(|_, f| family_is_young(f, now));
}

/// Revoked family ids (the values carry nothing).
pub type RevokedMap = DashMap<String, ()>;

/// The ids in a map of revoked families.
pub uninterp spec fn revoked_set(m: RevokedMap) -> Set<Seq<char>>;

/// `DashMap::new`: an empty map.
#[verifier::external_body]
pub(crate) fn revoked_new() -> (r: RevokedMap)
    ensures
        forall|k: Seq<char>| !#[trigger] revoked_set(r).contains(k),
{
    DashMap::new()
}

/// `DashMap::contains_key`.
#[verifier::external_body]
pub(crate) fn revoked_contains(m: &RevokedMap, k: &str) -> (r: bool)
    ensures
        r == revoked_set(*m).contains(k@),
{
    m.contains_key(k)
}

/// `DashMap::insert`: the id is now among the revoked.
#[verifier::external_body]
pub(crate) fn revoked_insert(m: &mut RevokedMap, k: &str)
    ensures
        revoked_set(*final(m)) == revoked_set(*old(m)).insert(k@),
{
    m.insert(k.to_string(), ());
}

/// `DashMap::retain`, keeping the ids that occur in `keep`.
#[verifier::external_body]
pub(crate) fn revoked_retain_listed(m: &mut RevokedMap, keep: &Vec<String>)
    ensures
        revoked_set(*final(m)) == revoked_set(*old(m)).filter(
            |k: Seq<char>| crate::text::string_views(keep@).contains(k),
        ),
{
    m.retain(|k, _| crate::text::listed(keep, k));
}

} // verus!
