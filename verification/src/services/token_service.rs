//! Refresh-token rotation with reuse detection and device binding.
//!
//! Each refresh token belongs to a family (one login) and carries a
//! generation. A refresh hands out the next generation; presenting an older
//! one again means the token was copied, and every family of the user is
//! revoked.

use vstd::prelude::*;
use crate::error::AppError;
use crate::maps::{
    user_family_id,    families_get, families_insert, families_mark_revoked, families_new, families_of_user,
    families_retain_young, family_keys, family_map, family_view, revoked_contains, revoked_family,
    revoked_insert, revoked_new, revoked_retain_listed, revoked_set, FamilyMap, FamilyView,
    RevokedMap, Bucket, BucketMap, bucket_map, buckets_new,
};
use crate::middleware::rate_limit::{
    lemma_window_admits_first, take_spec, takes, within_window_of_first, RateLimiter,
};
use crate::models::{
    AccessTokenClaims, DeviceInfo, RefreshTokenClaims, RefreshTokenFamily, User,
    ValidateTokenResponse,
};
use crate::security::jwt::TokenRequest;
use crate::text::{owned, str_eq, string_views};
use crate::time::{
    clock_now, lemma_total_bounds, now_rfc3339, opt_view, parse_rfc3339, rfc3339_instant, Instant,
};

verus! {

/// How long a family is kept after its creation, in nanoseconds (30 days).
pub const FAMILY_LIFETIME_NANOS: i128 = 2_592_000_000_000_000;

/// Whether a family is still kept at `now`: its creation time is unreadable,
/// or less than 30 days before `now`.
pub open spec fn family_young(f: FamilyView, now: int) -> bool {
    match rfc3339_instant(f.3) {
        Some((secs, nanos)) => now < Instant { secs, nanos }.total() + FAMILY_LIFETIME_NANOS,
        None => true,
    }
}

pub fn family_is_young(f: &RefreshTokenFamily, now: i128) -> (r: bool)
    ensures
        r == family_young(family_view(*f), now as int),
{
    match parse_rfc3339(f.created_at.as_str()) {
        Some(t) => {
            proof {
                lemma_total_bounds(t);
            }
            now < t.to_nanos() + FAMILY_LIFETIME_NANOS
        },
        None => true,
    }
}

/// The families still kept at `now`.
pub open spec fn young_families(m: Map<Seq<char>, FamilyView>, now: int) -> Map<Seq<char>, FamilyView> {
    Map::new(|k: Seq<char>| m.contains_key(k) && family_young(m[k], now), |k: Seq<char>| m[k])
}

/// Every family of the user revoked: flagged, and its id among the revoked.
pub open spec fn revoke_user_spec(
    fams: Map<Seq<char>, FamilyView>,
    revoked: Set<Seq<char>>,
    user: Seq<char>,
) -> (Map<Seq<char>, FamilyView>, Set<Seq<char>>) {
    (
        Map::new(
            |k: Seq<char>| fams.contains_key(k),
            |k: Seq<char>|
                if fams[k].1 == user {
                    revoked_family(fams[k])
                } else {
                    fams[k]
                },
        ),
        revoked.union(Set::new(|k: Seq<char>| fams.contains_key(k) && fams[k].1 == user)),
    )
}

/// One family revoked: flagged if present, and its id among the revoked.
pub open spec fn revoke_family_spec(
    fams: Map<Seq<char>, FamilyView>,
    revoked: Set<Seq<char>>,
    family: Seq<char>,
) -> (Map<Seq<char>, FamilyView>, Set<Seq<char>>) {
    (
        if fams.contains_key(family) {
            fams.insert(family, revoked_family(fams[family]))
        } else {
            fams
        },
        revoked.insert(family),
    )
}

/// Whether the token is bound to a device other than the presenting one.
pub open spec fn device_mismatch(token_hash: Option<Seq<char>>, device: Option<DeviceInfo>) -> bool {
    token_hash matches Some(h) && device matches Some(d) && d.hash_spec() != h
}

/// The checks a refresh token passes before its user is looked up, in this
/// order: its family was revoked (a revoked token is being reused: all of
/// the user's families are revoked); it is bound to another device (its
/// family is revoked); its family is flagged revoked; its generation is
/// older than the family's (reuse: all of the user's families are
/// revoked).
pub open spec fn check_spec(
    fams: Map<Seq<char>, FamilyView>,
    revoked: Set<Seq<char>>,
    claims: RefreshTokenClaims,
    device: Option<DeviceInfo>,
) -> (Map<Seq<char>, FamilyView>, Set<Seq<char>>, Result<(), AppError>) {
    let fid = claims.family_id@;
    if revoked.contains(fid) {
        let (f, r) = revoke_user_spec(fams, revoked, claims.sub@);
        (f, r, Err(AppError::InvalidToken))
    } else if device_mismatch(opt_view(claims.device_hash), device) {
        (fams, revoked.insert(fid), Err(AppError::DeviceMismatch))
    } else if fams.contains_key(fid) && fams[fid].5 {
        (fams, revoked, Err(AppError::InvalidToken))
    } else if fams.contains_key(fid) && claims.generation < fams[fid].2 {
        let (f, r) = revoke_user_spec(fams, revoked, claims.sub@);
        (f, r, Err(AppError::InvalidToken))
    } else {
        (fams, revoked, Ok(()))
    }
}

/// The device hash of an optional device.
pub open spec fn device_hash_of(device: Option<DeviceInfo>) -> Option<Seq<char>> {
    match device {
        Some(d) => Some(d.hash_spec()),
        None => None,
    }
}

pub open spec fn str_view(s: Option<&str>) -> Option<Seq<char>> {
    match s {
        Some(t) => Some(t@),
        None => None,
    }
}

pub open spec fn device_view(d: Option<&DeviceInfo>) -> Option<DeviceInfo> {
    match d {
        Some(x) => Some(*x),
        None => None,
    }
}

pub open spec fn user_not_found(e: AppError) -> bool {
    e matches AppError::NotFound(m) && m@ == "User not found"@
}

/// The tokens to issue after a rotation: for the user, in the token's
/// family at the next generation, bound to the presenting device.
pub open spec fn issued_for(
    req: TokenRequest,
    u: User,
    claims: RefreshTokenClaims,
    client_project: Option<Seq<char>>,
    device: Option<DeviceInfo>,
) -> bool {
    &&& req.user_id == u.id
    &&& req.email == u.email
    &&& opt_view(req.client_project) == client_project
    &&& opt_view(req.family_id) == Some(claims.family_id@)
    &&& req.generation == claims.generation + 1
    &&& opt_view(req.device_hash) == device_hash_of(device)
}

/// How many refreshes a user may make in a minute.
pub const REFRESH_PER_MINUTE: u32 = 5;

/// What a rotation at `now` does, once the token's user is known: a
/// missing user is not found and an inactive one forbidden, and neither
/// changes anything; an active user is counted against the refreshes a
/// user may make in a minute, and refused beyond them with nothing else
/// changed; otherwise the family moves to the next generation (created and
/// used at some time `t`, not revoked) and the tokens described are issued
/// for the user. Revoked families never change.
pub open spec fn commit_outcome(
    before: TokenService,
    after: TokenService,
    claims: RefreshTokenClaims,
    user: Option<User>,
    project: Option<Seq<char>>,
    device: Option<DeviceInfo>,
    now: Instant,
    r: Result<TokenRequest, AppError>,
) -> bool {
    let counted = take_spec(before.refresh_buckets(), claims.sub@, REFRESH_PER_MINUTE, now.total() as i128);
    &&& after.revoked() == before.revoked()
    &&& match user {
        None => after.families() == before.families() && after.refresh_buckets()
            == before.refresh_buckets() && (r matches Err(e) && user_not_found(e)),
        Some(u) => if !u.is_active {
            after.families() == before.families() && after.refresh_buckets() == before.refresh_buckets()
                && r == Err::<TokenRequest, AppError>(AppError::Forbidden)
        } else if !counted.1 {
            after.families() == before.families() && after.refresh_buckets() == counted.0 && r
                == Err::<TokenRequest, AppError>(AppError::RateLimitExceeded)
        } else {
            &&& after.refresh_buckets() == counted.0
            &&& r matches Ok(req) && issued_for(req, u, claims, project, device)
            &&& exists|t: Seq<char>|
                after.families() == #[trigger] before.families().insert(
                    claims.family_id@,
                    (claims.family_id@, claims.sub@, (claims.generation + 1) as u32, t, t, false),
                )
        },
    }
}

/// The state of refresh-token rotation: the families by id, and the ids of
/// revoked families.
pub struct TokenService {
    families: FamilyMap,
    revoked: RevokedMap,
    refresh_limits: BucketMap,
}

impl TokenService {
    pub closed spec fn families(&self) -> Map<Seq<char>, FamilyView> {
        family_map(self.families)
    }

    pub closed spec fn revoked(&self) -> Set<Seq<char>> {
        revoked_set(self.revoked)
    }

    /// The refresh counts per user, one window a minute.
    pub closed spec fn refresh_buckets(&self) -> Map<Seq<char>, Bucket> {
        bucket_map(self.refresh_limits)
    }

    /// Each family is stored under its own id.
    pub open spec fn wf(&self) -> bool {
        forall|k: Seq<char>| #[trigger] self.families().contains_key(k) ==> self.families()[k].0 == k
    }

    pub fn new() -> (r: Self)
        ensures
            r.wf(),
            r.families() == Map::<Seq<char>, FamilyView>::empty(),
            r.revoked() == Set::<Seq<char>>::empty(),
            r.refresh_buckets() == Map::<Seq<char>, Bucket>::empty(),
    {
        let families = families_new();
        let revoked = revoked_new();
        assert(family_map(families) =~= Map::<Seq<char>, FamilyView>::empty());
        assert(revoked_set(revoked) =~= Set::<Seq<char>>::empty());
        TokenService { families, revoked, refresh_limits: buckets_new() }
    }

    /// Revokes every family of a user.
    pub fn revoke_all_user_tokens(&mut self, user_id: &str)
        requires
            old(self).wf(),
        ensures
            final(self).wf(),
            final(self).refresh_buckets() == old(self).refresh_buckets(),
            (final(self).families(), final(self).revoked()) == revoke_user_spec(
                old(self).families(),
                old(self).revoked(),
                user_id@,
            ),
    {
        let ghost f0 = self.families();
        let ghost r0 = self.revoked();
        let ghost b0 = self.refresh_buckets();
        let ids = families_of_user(&self.families, user_id);
        let n = ids.len();
        assert(self.families() =~= Map::new(
            |k: Seq<char>| f0.contains_key(k),
            |k: Seq<char>|
                if exists|j: int| 0 <= j < 0 && #[trigger] ids@[j]@ == k {
                    revoked_family(f0[k])
                } else {
                    f0[k]
                },
        ));
        assert(self.revoked() =~= r0.union(
            Set::new(|k: Seq<char>| exists|j: int| 0 <= j < 0 && #[trigger] ids@[j]@ == k),
        ));
        let mut i: usize = 0;
        while i < n
            invariant
                i <= n,
                n == ids@.len(),
                self.refresh_buckets() == b0,
                forall|k: Seq<char>| #[trigger] f0.contains_key(k) ==> f0[k].0 == k,
                forall|j: int| 0 <= j < n ==> #[trigger] user_family_id(f0, user_id@, ids@[j]@),
                self.families() == Map::new(
                    |k: Seq<char>| f0.contains_key(k),
                    |k: Seq<char>|
                        if exists|j: int| 0 <= j < i && #[trigger] ids@[j]@ == k {
                            revoked_family(f0[k])
                        } else {
                            f0[k]
                        },
                ),
                self.revoked() == r0.union(
                    Set::new(|k: Seq<char>| exists|j: int| 0 <= j < i && #[trigger] ids@[j]@ == k),
                ),
            decreases n - i,
        {
            let id = ids[i].as_str();
            let ghost before_f = self.families();
            let ghost before_r = self.revoked();
            revoked_insert(&mut self.revoked, id);
            families_mark_revoked(&mut self.families, id);
            i = i + 1;
            assert(self.families() =~= Map::new(
                |k: Seq<char>| f0.contains_key(k),
                |k: Seq<char>|
                    if exists|j: int| 0 <= j < i && #[trigger] ids@[j]@ == k {
                        revoked_family(f0[k])
                    } else {
                        f0[k]
                    },
            )) by {
                assert forall|k: Seq<char>| f0.contains_key(k) implies #[trigger] self.families()[k]
                    == (if exists|j: int| 0 <= j < i && #[trigger] ids@[j]@ == k {
                    revoked_family(f0[k])
                } else {
                    f0[k]
                }) by {
                    if k == ids@[i - 1]@ {
                        assert(ids@[i - 1]@ == k);
                    } else {
                        if exists|j: int| 0 <= j < i && #[trigger] ids@[j]@ == k {
                            let j = choose|j: int| 0 <= j < i && #[trigger] ids@[j]@ == k;
                            assert(j < i - 1);
                        }
                    }
                }
            }
            assert(self.revoked() =~= r0.union(
                Set::new(|k: Seq<char>| exists|j: int| 0 <= j < i && #[trigger] ids@[j]@ == k),
            )) by {
                assert forall|k: Seq<char>|
                    #[trigger] self.revoked().contains(k) == r0.union(
                        Set::new(|k: Seq<char>| exists|j: int| 0 <= j < i && #[trigger] ids@[j]@ == k),
                    ).contains(k) by {
                    if k == ids@[i - 1]@ {
                        assert(ids@[i - 1]@ == k);
                    } else {
                        if exists|j: int| 0 <= j < i && #[trigger] ids@[j]@ == k {
                            let j = choose|j: int| 0 <= j < i && #[trigger] ids@[j]@ == k;
                            assert(j < i - 1);
                        }
                    }
                }
            }
        }
        proof {
            assert forall|k: Seq<char>| #[trigger] f0.contains_key(k) implies (exists|j: int|
                0 <= j < n && #[trigger] ids@[j]@ == k) == (f0[k].1 == user_id@) by {
                if exists|j: int| 0 <= j < n && #[trigger] ids@[j]@ == k {
                    let j = choose|j: int| 0 <= j < n && #[trigger] ids@[j]@ == k;
                    assert(user_family_id(f0, user_id@, ids@[j]@));
                    let kk = choose|kk: Seq<char>| #[trigger]
                        f0.contains_key(kk) && f0[kk].1 == user_id@ && f0[kk].0 == ids@[j]@;
                    assert(f0[kk].0 == kk);
                }
            }
            assert forall|k: Seq<char>| (exists|j: int| 0 <= j < n && #[trigger] ids@[j]@ == k)
                implies #[trigger] f0.contains_key(k) && f0[k].1 == user_id@ by {
                let j = choose|j: int| 0 <= j < n && #[trigger] ids@[j]@ == k;
                assert(user_family_id(f0, user_id@, ids@[j]@));
                let kk = choose|kk: Seq<char>| #[trigger]
                    f0.contains_key(kk) && f0[kk].1 == user_id@ && f0[kk].0 == ids@[j]@;
                assert(f0[kk].0 == kk);
            }
            assert(self.families() =~= revoke_user_spec(f0, r0, user_id@).0);
            assert(self.revoked() =~= revoke_user_spec(f0, r0, user_id@).1);
        }
    }

    /// Revokes the family of a (verified) refresh token.
    pub fn revoke_refresh_token(&mut self, claims: &RefreshTokenClaims)
        requires
            old(self).wf(),
        ensures
            final(self).wf(),
            final(self).refresh_buckets() == old(self).refresh_buckets(),
            (final(self).families(), final(self).revoked()) == revoke_family_spec(
                old(self).families(),
                old(self).revoked(),
                claims.family_id@,
            ),
    {
        revoked_insert(&mut self.revoked, claims.family_id.as_str());
        families_mark_revoked(&mut self.families, claims.family_id.as_str());
        assert forall|k: Seq<char>| #[trigger] self.families().contains_key(k) implies self.families()[k].0
            == k by {
            assert(old(self).families().contains_key(k));
        }
    }

    /// The checks of a (verified) refresh token before its user is looked
    /// up; see `check_spec`.
    pub fn refresh_check(&mut self, claims: &RefreshTokenClaims, device_info: Option<&DeviceInfo>) -> (r:
        Result<(), AppError>)
        requires
            old(self).wf(),
        ensures
            final(self).wf(),
            final(self).refresh_buckets() == old(self).refresh_buckets(),
            (final(self).families(), final(self).revoked(), r) == check_spec(
                old(self).families(),
                old(self).revoked(),
                *claims,
                device_view(device_info),
            ),
    {
        let fid = claims.family_id.as_str();
        if revoked_contains(&self.revoked, fid) {
            self.revoke_all_user_tokens(claims.sub.as_str());
            return Err(AppError::InvalidToken);
        }
        if let Some(token_hash) = &claims.device_hash {
            if let Some(device) = device_info {
                let current = device.compute_hash();
                if !str_eq(current.as_str(), token_hash.as_str()) {
                    revoked_insert(&mut self.revoked, fid);
                    assert(self.families() == old(self).families());
                    return Err(AppError::DeviceMismatch);
                }
            }
        }
        match families_get(&self.families, fid) {
            Some(family) => {
                if family.is_revoked {
                    return Err(AppError::InvalidToken);
                }
                if claims.generation < family.current_generation {
                    self.revoke_all_user_tokens(claims.sub.as_str());
                    return Err(AppError::InvalidToken);
                }
                Ok(())
            },
            None => Ok(()),
        }
    }

    /// The rotation at `now` once the token's user is known: a missing user
    /// is not found and an inactive one forbidden; an active one is counted
    /// against the limit of refreshes a user may make in a minute, and is
    /// refused beyond it; otherwise the family moves to the next generation
    /// (created and used now, not revoked) and the tokens to issue are
    /// described.
    pub fn refresh_commit_at(
        &mut self,
        claims: &RefreshTokenClaims,
        user: Option<User>,
        client_project: Option<&str>,
        device_info: Option<&DeviceInfo>,
        now: Instant,
    ) -> (r: Result<TokenRequest, AppError>)
        requires
            old(self).wf(),
            (user matches Some(u) && u.is_active) ==> claims.generation < u32::MAX,
        ensures
            final(self).wf(),
            commit_outcome(
                *old(self),
                *final(self),
                *claims,
                user,
                str_view(client_project),
                device_view(device_info),
                now,
                r,
            ),
    {
        proof {
            reveal_strlit("User not found");
        }
        let u = match user {
            None => {
                return Err(AppError::NotFound(owned("User not found")));
            },
            Some(u) => u,
        };
        if !u.is_active {
            return Err(AppError::Forbidden);
        }
        if !RateLimiter::take(&mut self.refresh_limits, claims.sub.as_str(), REFRESH_PER_MINUTE, now.to_nanos()) {
            assert(self.families() == old(self).families());
            return Err(AppError::RateLimitExceeded);
        }
        let generation = claims.generation + 1;
        let device_hash: Option<String> = match device_info {
            Some(d) => Some(d.compute_hash()),
            None => None,
        };
        let now = now_rfc3339();
        let family = RefreshTokenFamily {
            family_id: owned(claims.family_id.as_str()),
            user_id: owned(claims.sub.as_str()),
            current_generation: generation,
            created_at: owned(now.as_str()),
            last_used_at: now,
            is_revoked: false,
        };
        let ghost t = family.created_at@;
        families_insert(&mut self.families, claims.family_id.as_str(), family);
        assert(self.families() == old(self).families().insert(
            claims.family_id@,
            (claims.family_id@, claims.sub@, (claims.generation + 1) as u32, t, t, false),
        ));
        let project: Option<String> = match client_project {
            Some(p) => Some(owned(p)),
            None => None,
        };
        Ok(
            TokenRequest {
                user_id: u.id,
                email: u.email,
                client_project: project,
                family_id: Some(owned(claims.family_id.as_str())),
                generation,
                device_hash,
            },
        )
    }

    /// The rotation once the token's user is known, counted by the clock;
    /// see `refresh_commit_at`.
    pub fn refresh_commit(
        &mut self,
        claims: &RefreshTokenClaims,
        user: Option<User>,
        client_project: Option<&str>,
        device_info: Option<&DeviceInfo>,
    ) -> (r: Result<TokenRequest, AppError>)
        requires
            old(self).wf(),
            (user matches Some(u) && u.is_active) ==> claims.generation < u32::MAX,
        ensures
            exists|t: Instant|
                t.wf() && #[trigger] commit_outcome(
                    *old(self),
                    *final(self),
                    *claims,
                    user,
                    str_view(client_project),
                    device_view(device_info),
                    t,
                    r,
                ),
    {
        let now = clock_now();
        let r = self.refresh_commit_at(claims, user, client_project, device_info, now);
        assert(commit_outcome(*old(self), *self, *claims, user, str_view(client_project), device_view(device_info), now, r));
        r
    }

    /// Drops the families older than 30 days at `now`, and the revoked ids
    /// of families no longer kept.
    pub fn cleanup_expired_families_at(&mut self, now: Instant)
        requires
            old(self).wf(),
        ensures
            final(self).wf(),
            final(self).refresh_buckets() == old(self).refresh_buckets(),
            final(self).families() == young_families(old(self).families(), now.total()),
            final(self).revoked() == old(self).revoked().filter(
                |k: Seq<char>| final(self).families().contains_key(k),
            ),
    {
        proof {
            lemma_total_bounds(now);
        }
        families_retain_young(&mut self.families, now.to_nanos());
        assert forall|k: Seq<char>| #[trigger] self.families().contains_key(k) implies self.families()[k].0 == k by {
            assert(old(self).families().contains_key(k));
        }
        let keys = family_keys(&self.families);
        let ghost fams = self.families();
        revoked_retain_listed(&mut self.revoked, &keys);
        assert(self.families() == fams);
        assert(self.revoked() =~= old(self).revoked().filter(
            |k: Seq<char>| self.families().contains_key(k),
        )) by {
            assert forall|k: Seq<char>| string_views(keys@).contains(k) <==> #[trigger] self.families().contains_key(k) by {
                if self.families().contains_key(k) {
                    let i = choose|i: int| 0 <= i < keys@.len() && keys@[i]@ == k;
                    assert(string_views(keys@)[i] == k);
                }
                if string_views(keys@).contains(k) {
                    let i = choose|i: int| 0 <= i < string_views(keys@).len() && string_views(keys@)[i] == k;
                    assert(self.families().contains_key(keys@[i]@));
                }
            }
        }
    }

    /// Drops stale families, by the clock.
    pub fn cleanup_expired_families(&mut self)
        requires
            old(self).wf(),
        ensures
            final(self).wf(),
            final(self).refresh_buckets() == old(self).refresh_buckets(),
            exists|t: Instant|
                t.wf() && final(self).families() == #[trigger] young_families(
                    old(self).families(),
                    t.total(),
                ),
            final(self).revoked() == old(self).revoked().filter(
                |k: Seq<char>| final(self).families().contains_key(k),
            ),
    {
        let now = clock_now();
        self.cleanup_expired_families_at(now)
    }
}

/// The answer to a validation request, from the outcome of verifying the
/// access token: its subject, e-mail and expiry when valid, nothing else.
pub fn validation_response(verified: Result<AccessTokenClaims, AppError>) -> (r: ValidateTokenResponse)
    ensures
        verified matches Ok(c) ==> r == (ValidateTokenResponse {
            valid: true,
            user_id: Some(c.sub),
            email: Some(c.email),
            expires_at: Some(c.exp),
        }),
        verified is Err ==> r == (ValidateTokenResponse {
            valid: false,
            user_id: None,
            email: None,
            expires_at: None,
        }),
{
    match verified {
        Ok(claims) => ValidateTokenResponse {
            valid: true,
            user_id: Some(claims.sub),
            email: Some(claims.email),
            expires_at: Some(claims.exp),
        },
        Err(_) => ValidateTokenResponse { valid: false, user_id: None, email: None, expires_at: None },
    }
}

} // verus!

verus! {

/// A token whose family was revoked is refused, and every family of its
/// user is revoked with it.
pub proof fn lemma_revoked_family_refused(
    fams: Map<Seq<char>, FamilyView>,
    revoked: Set<Seq<char>>,
    claims: RefreshTokenClaims,
    device: Option<DeviceInfo>,
)
    requires
        revoked.contains(claims.family_id@),
    ensures
        check_spec(fams, revoked, claims, device).2 == Err::<(), AppError>(AppError::InvalidToken),
        (check_spec(fams, revoked, claims, device).0, check_spec(fams, revoked, claims, device).1)
            == revoke_user_spec(fams, revoked, claims.sub@),
{
}

/// Once a family is revoked, no token of it refreshes again.
pub proof fn lemma_revoked_stays_refused(
    fams: Map<Seq<char>, FamilyView>,
    revoked: Set<Seq<char>>,
    family: Seq<char>,
    claims: RefreshTokenClaims,
    device: Option<DeviceInfo>,
)
    requires
        claims.family_id@ == family,
    ensures
        check_spec(
            revoke_family_spec(fams, revoked, family).0,
            revoke_family_spec(fams, revoked, family).1,
            claims,
            device,
        ).2 == Err::<(), AppError>(AppError::InvalidToken),
{
}

/// After a rotation to generation `g + 1`, presenting a token of that family
/// with generation `g` or older again (a copied token) is refused and
/// revokes every family of the user.
pub proof fn lemma_replay_after_rotation(
    fams: Map<Seq<char>, FamilyView>,
    revoked: Set<Seq<char>>,
    family: Seq<char>,
    user: Seq<char>,
    g: u32,
    t: Seq<char>,
    claims: RefreshTokenClaims,
    device: Option<DeviceInfo>,
)
    requires
        g < u32::MAX,
        claims.family_id@ == family,
        claims.sub@ == user,
        claims.generation <= g,
        !device_mismatch(opt_view(claims.device_hash), device),
    ensures
        ({
            let rotated = fams.insert(family, (family, user, (g + 1) as u32, t, t, false));
            &&& check_spec(rotated, revoked, claims, device).2 == Err::<(), AppError>(
                AppError::InvalidToken,
            )
            &&& (check_spec(rotated, revoked, claims, device).0, check_spec(
                rotated,
                revoked,
                claims,
                device,
            ).1) == revoke_user_spec(rotated, revoked, user)
        }),
{
}

/// A token bound to another device is refused and its family revoked, so
/// that it stays refused.
pub proof fn lemma_device_mismatch_revokes(
    fams: Map<Seq<char>, FamilyView>,
    revoked: Set<Seq<char>>,
    claims: RefreshTokenClaims,
    device: Option<DeviceInfo>,
    later: RefreshTokenClaims,
    later_device: Option<DeviceInfo>,
)
    requires
        !revoked.contains(claims.family_id@),
        device_mismatch(opt_view(claims.device_hash), device),
        later.family_id == claims.family_id,
    ensures
        check_spec(fams, revoked, claims, device).2 == Err::<(), AppError>(AppError::DeviceMismatch),
        check_spec(fams, revoked, claims, device).1.contains(claims.family_id@),
        check_spec(
            check_spec(fams, revoked, claims, device).0,
            check_spec(fams, revoked, claims, device).1,
            later,
            later_device,
        ).2 == Err::<(), AppError>(AppError::InvalidToken),
{
}

/// A token of the current generation of a family that is not revoked, on
/// the device it is bound to (or unbound), passes the checks and changes
/// nothing.
pub proof fn lemma_current_generation_passes(
    fams: Map<Seq<char>, FamilyView>,
    revoked: Set<Seq<char>>,
    claims: RefreshTokenClaims,
    device: Option<DeviceInfo>,
)
    requires
        !revoked.contains(claims.family_id@),
        !device_mismatch(opt_view(claims.device_hash), device),
        fams.contains_key(claims.family_id@) ==> !fams[claims.family_id@].5 && claims.generation
            >= fams[claims.family_id@].2,
    ensures
        check_spec(fams, revoked, claims, device) == (fams, revoked, Ok::<(), AppError>(())),
{
}

/// Revoking a user flags every family of that user and puts its id among
/// the revoked; families of other users are unchanged.
pub proof fn lemma_revoke_user_scope(
    fams: Map<Seq<char>, FamilyView>,
    revoked: Set<Seq<char>>,
    user: Seq<char>,
    k: Seq<char>,
)
    requires
        fams.contains_key(k),
    ensures
        fams[k].1 == user ==> revoke_user_spec(fams, revoked, user).0[k].5 && revoke_user_spec(
            fams,
            revoked,
            user,
        ).1.contains(k),
        fams[k].1 != user ==> revoke_user_spec(fams, revoked, user).0[k] == fams[k],
        revoke_user_spec(fams, revoked, user).0.dom() == fams.dom(),
{
    assert(revoke_user_spec(fams, revoked, user).0.dom() =~= fams.dom());
}

/// Once a refresh has rotated a family, presenting again a token of that
/// family that is not newer than the one refreshed (a copied token) is
/// refused and revokes every family of the user.
pub proof fn lemma_replay_after_commit(
    before: TokenService,
    after: TokenService,
    claims: RefreshTokenClaims,
    u: User,
    project: Option<Seq<char>>,
    device: Option<DeviceInfo>,
    now: Instant,
    req: TokenRequest,
    copied: RefreshTokenClaims,
    copied_device: Option<DeviceInfo>,
)
    requires
        claims.generation < u32::MAX,
        commit_outcome(before, after, claims, Some(u), project, device, now, Ok(req)),
        copied.family_id == claims.family_id,
        copied.sub == claims.sub,
        copied.generation <= claims.generation,
        !device_mismatch(opt_view(copied.device_hash), copied_device),
    ensures
        check_spec(after.families(), after.revoked(), copied, copied_device).2 == Err::<(), AppError>(
            AppError::InvalidToken,
        ),
        (check_spec(after.families(), after.revoked(), copied, copied_device).0, check_spec(
            after.families(),
            after.revoked(),
            copied,
            copied_device,
        ).1) == revoke_user_spec(after.families(), after.revoked(), claims.sub@),
{
    let t = choose|t: Seq<char>|
        after.families() == #[trigger] before.families().insert(
            claims.family_id@,
            (claims.family_id@, claims.sub@, (claims.generation + 1) as u32, t, t, false),
        );
    lemma_replay_after_rotation(
        before.families(),
        after.revoked(),
        claims.family_id@,
        claims.sub@,
        claims.generation,
        t,
        copied,
        copied_device,
    );
}


/// The instants of a run of calls, in nanoseconds.
pub open spec fn nanos_of(times: Seq<Instant>) -> Seq<i128> {
    Seq::new(times.len(), |i: int| times[i].total() as i128)
}

/// A run of rotations for one active user whose refresh tokens all name
/// `sub`: the `i`-th rotation, at `times[i]`, leaves `states[i + 1]` after
/// `states[i]` and answers `results[i]`.
pub open spec fn refresh_run(
    states: Seq<TokenService>,
    claims: Seq<RefreshTokenClaims>,
    user: User,
    projects: Seq<Option<Seq<char>>>,
    devices: Seq<Option<DeviceInfo>>,
    times: Seq<Instant>,
    results: Seq<Result<TokenRequest, AppError>>,
    sub: Seq<char>,
) -> bool {
    &&& user.is_active
    &&& states.len() == times.len() + 1
    &&& claims.len() == times.len()
    &&& projects.len() == times.len()
    &&& devices.len() == times.len()
    &&& results.len() == times.len()
    &&& forall|i: int| 0 <= i < times.len() ==> #[trigger] claims[i].sub@ == sub
    &&& forall|i: int|
        0 <= i < times.len() ==> #[trigger] commit_outcome(
            states[i],
            states[i + 1],
            claims[i],
            Some(user),
            projects[i],
            devices[i],
            times[i],
            results[i],
        )
}

/// Along a run, the refresh counts are those of the user's bucket counting
/// the rotations made so far.
proof fn lemma_refresh_run_counts(
    states: Seq<TokenService>,
    claims: Seq<RefreshTokenClaims>,
    user: User,
    projects: Seq<Option<Seq<char>>>,
    devices: Seq<Option<DeviceInfo>>,
    times: Seq<Instant>,
    results: Seq<Result<TokenRequest, AppError>>,
    sub: Seq<char>,
    k: int,
)
    requires
        refresh_run(states, claims, user, projects, devices, times, results, sub),
        0 <= k <= times.len(),
    ensures
        states[k].refresh_buckets() == takes(
            states[0].refresh_buckets(),
            sub,
            REFRESH_PER_MINUTE,
            nanos_of(times).take(k),
        ).0,
    decreases k,
{
    let b0 = states[0].refresh_buckets();
    let ns = nanos_of(times);
    if k == 0 {
        assert(ns.take(0) =~= Seq::<i128>::empty());
    } else {
        lemma_refresh_run_counts(states, claims, user, projects, devices, times, results, sub, k - 1);
        assert(ns.take(k).drop_last() =~= ns.take(k - 1));
        assert(ns.take(k).last() == times[k - 1].total() as i128);
        let j = k - 1;
        assert(commit_outcome(
            states[j],
            states[j + 1],
            claims[j],
            Some(user),
            projects[j],
            devices[j],
            times[j],
            results[j],
        ));
        assert(claims[j].sub@ == sub);
    }
}

/// Of the refreshes that an active user with no refresh counted yet makes
/// within one minute, one rotation after the other, exactly the first
/// five go through; each later one is refused as over the rate limit and
/// leaves every family as it was.
pub proof fn lemma_refresh_limit_over_calls(
    states: Seq<TokenService>,
    claims: Seq<RefreshTokenClaims>,
    user: User,
    projects: Seq<Option<Seq<char>>>,
    devices: Seq<Option<DeviceInfo>>,
    times: Seq<Instant>,
    results: Seq<Result<TokenRequest, AppError>>,
    sub: Seq<char>,
)
    requires
        refresh_run(states, claims, user, projects, devices, times, results, sub),
        !states[0].refresh_buckets().contains_key(sub),
        within_window_of_first(nanos_of(times)),
    ensures
        forall|i: int| 0 <= i < times.len() ==> (#[trigger] results[i] is Ok <==> i < REFRESH_PER_MINUTE),
        forall|i: int|
            REFRESH_PER_MINUTE <= i < times.len() ==> #[trigger] results[i] == Err::<TokenRequest, AppError>(
                AppError::RateLimitExceeded,
            ) && states[i + 1].families() == states[i].families(),
{
    let b0 = states[0].refresh_buckets();
    let ns = nanos_of(times);
    assert forall|i: int| 0 <= i < times.len() implies (#[trigger] results[i] is Ok <==> i < REFRESH_PER_MINUTE)
        && (REFRESH_PER_MINUTE <= i ==> results[i] == Err::<TokenRequest, AppError>(AppError::RateLimitExceeded)
        && states[i + 1].families() == states[i].families()) by {
        let ts = ns.take(i + 1);
        assert(within_window_of_first(ts)) by {
            assert forall|j: int| 0 <= j < ts.len() implies ts[0] <= #[trigger] ts[j] && ts[j] - ts[0]
                <= crate::middleware::rate_limit::window_nanos() by {
                assert(ts[j] == ns[j]);
                assert(ts[0] == ns[0]);
            }
        }
        lemma_window_admits_first(b0, sub, REFRESH_PER_MINUTE, ts);
        lemma_refresh_run_counts(states, claims, user, projects, devices, times, results, sub, i);
        assert(ts.drop_last() =~= ns.take(i));
        assert(ts.last() == times[i].total() as i128);
        assert(takes(b0, sub, REFRESH_PER_MINUTE, ts).1[i] == (i < REFRESH_PER_MINUTE));
        assert(commit_outcome(
            states[i],
            states[i + 1],
            claims[i],
            Some(user),
            projects[i],
            devices[i],
            times[i],
            results[i],
        ));
        assert(claims[i].sub@ == sub);
    }
}

} // verus!
