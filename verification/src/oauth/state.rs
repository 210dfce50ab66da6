//! The OAuth `state` tokens: created at the start of a login, valid for ten
//! minutes, consumed by the callback.

use vstd::prelude::*;
use crate::error::AppError;
use crate::maps::{
    state_map, states_get, states_insert, states_new, states_remove, states_retain_fresh,
    StateMap,
};
use crate::security::api_key::{encodes_bytes, generate_csrf_state};
use crate::text::owned;
use crate::time::{lemma_total_bounds, clock_now, in_calendar, opt_view, Instant};

verus! {

/// How long a state stays valid, in nanoseconds (ten minutes).
pub const STATE_LIFETIME_NANOS: i128 = 600_000_000_000;

/// A pending login: its token, the project it is for, where to send the
/// user afterwards, and when it began.
#[derive(Debug, Clone)]
pub struct OAuthStateData {
    pub state: String,
    pub client_project: String,
    pub redirect_uri: Option<String>,
    pub created_at: Instant,
}

/// A pending login as (token, project, redirect, creation time).
pub type StateView = (Seq<char>, Seq<char>, Option<Seq<char>>, Instant);

impl View for OAuthStateData {
    type V = StateView;

    open spec fn view(&self) -> StateView {
        (self.state@, self.client_project@, opt_view(self.redirect_uri), self.created_at)
    }
}

/// The end of the validity of a state created at `created`, in nanoseconds.
pub open spec fn expiry(created: Instant) -> int {
    created.total() + STATE_LIFETIME_NANOS
}

/// Whether a state's end of validity is a date chrono can compute (it
/// panics otherwise).
pub open spec fn expiry_computable(created: Instant) -> bool {
    in_calendar(expiry(created))
}

fn expiry_nanos(created: Instant) -> (r: i128)
    ensures
        r == expiry(created),
{
    proof {
        lemma_total_bounds(created);
    }
    created.to_nanos() + STATE_LIFETIME_NANOS
}

impl OAuthStateData {
    /// Whether the state is past its ten minutes at `now`.
    pub fn is_expired_at(&self, now: Instant) -> (r: bool)
        requires
            expiry_computable(self.created_at),
        ensures
            r == (now.total() > expiry(self.created_at)),
    {
        proof {
            lemma_total_bounds(now);
        }
        now.to_nanos() > expiry_nanos(self.created_at)
    }

    /// Whether the state is past its ten minutes, by the clock.
    pub fn is_expired(&self) -> (r: bool)
        requires
            expiry_computable(self.created_at),
        ensures
            exists|t: Instant| t.wf() && r == (#[trigger] t.total() > expiry(self.created_at)),
    {
        let now = clock_now();
        self.is_expired_at(now)
    }
}

/// Whether the state is still valid at `now` (nanoseconds since the epoch).
pub fn state_is_fresh(v: &OAuthStateData, now: i128) -> (r: bool)
    ensures
        r == (now <= expiry(v.created_at)),
{
    now <= expiry_nanos(v.created_at)
}

/// The states still valid at `now`.
pub open spec fn fresh_states(m: Map<Seq<char>, StateView>, now: int) -> Map<Seq<char>, StateView> {
    Map::new(|k: Seq<char>| m.contains_key(k) && now <= expiry(m[k].3), |k: Seq<char>| m[k])
}

/// Whether an error is an OAuth error with the given message.
pub open spec fn oauth_error(e: AppError, msg: Seq<char>) -> bool {
    e matches AppError::OAuth(m) && m@ == msg
}

/// Taking the state `token` out at `now`: it is removed in any case, and
/// given back only if it exists and is still valid.
pub open spec fn consume_spec(m: Map<Seq<char>, StateView>, token: Seq<char>, now: int) -> (
    Map<Seq<char>, StateView>,
    Result<StateView, Seq<char>>,
) {
    (
        m.remove(token),
        if !m.contains_key(token) {
            Err("Invalid or expired state"@)
        } else if now > expiry(m[token].3) {
            Err("State has expired"@)
        } else {
            Ok(m[token])
        },
    )
}

/// Looking the state `token` up at `now`: it is given back if it exists and
/// is still valid; an expired one is removed.
pub open spec fn validate_spec(m: Map<Seq<char>, StateView>, token: Seq<char>, now: int) -> (
    Map<Seq<char>, StateView>,
    Result<StateView, Seq<char>>,
) {
    if !m.contains_key(token) {
        (m, Err("Invalid or expired state"@))
    } else if now > expiry(m[token].3) {
        (m.remove(token), Err("State has expired"@))
    } else {
        (m, Ok(m[token]))
    }
}

/// Registering a new state `token` at `now`, then dropping the states that
/// are no longer valid.
pub open spec fn create_spec(
    m: Map<Seq<char>, StateView>,
    token: Seq<char>,
    project: Seq<char>,
    redirect: Option<Seq<char>>,
    now: Instant,
) -> Map<Seq<char>, StateView> {
    fresh_states(m.insert(token, (token, project, redirect, now)), now.total())
}

/// The pending states, by token.
pub struct OAuthStateManager {
    states: StateMap,
}

impl OAuthStateManager {
    pub closed spec fn states(&self) -> Map<Seq<char>, StateView> {
        state_map(self.states)
    }

    /// Every pending state's end of validity is a date chrono computes.
    pub open spec fn wf(&self) -> bool {
        forall|k: Seq<char>| #[trigger]
            self.states().contains_key(k) ==> expiry_computable(self.states()[k].3)
    }

    pub fn new() -> (r: Self)
        ensures
            r.states() == Map::<Seq<char>, StateView>::empty(),
            r.wf(),
    {
        let states = states_new();
        assert(state_map(states) =~= Map::<Seq<char>, StateView>::empty());
        OAuthStateManager { states }
    }

    fn cleanup_expired(&mut self, now: Instant)
        ensures
            final(self).states() == fresh_states(old(self).states(), now.total()),
    {
        proof {
            lemma_total_bounds(now);
        }
        states_retain_fresh(&mut self.states, now.to_nanos());
    }

    /// Starts a login at `now` for a project: a fresh random token is
    /// registered with the project and redirect, and expired states are
    /// dropped.
    pub fn create_state_at(&mut self, client_project: &str, redirect_uri: Option<String>, now: Instant) -> (r: String)
        requires
            old(self).wf(),
            expiry_computable(now),
        ensures
            final(self).wf(),
            encodes_bytes(r@, 32),
            r@.len() == 43,
            final(self).states() == create_spec(
                old(self).states(),
                r@,
                client_project@,
                opt_view(redirect_uri),
                now,
            ),
    {
        let state = generate_csrf_state();
        let data = OAuthStateData {
            state: owned(state.as_str()),
            client_project: owned(client_project),
            redirect_uri,
            created_at: now,
        };
        states_insert(&mut self.states, state.as_str(), data);
        self.cleanup_expired(now);
        assert forall|k: Seq<char>| #[trigger] self.states().contains_key(k) implies expiry_computable(
            self.states()[k].3,
        ) by {
            if k != state@ {
                assert(old(self).states().contains_key(k));
            }
        }
        state
    }

    /// Starts a login, by the clock. At a reading whose end of validity
    /// chrono could not compute (within ten minutes of the end of its
    /// calendar), the token is not registered.
    pub fn create_state(&mut self, client_project: &str, redirect_uri: Option<String>) -> (r: String)
        requires
            old(self).wf(),
        ensures
            final(self).wf(),
            encodes_bytes(r@, 32),
            r@.len() == 43,
            exists|t: Instant|
                t.wf() && if #[trigger] expiry_computable(t) {
                    final(self).states() == create_spec(
                        old(self).states(),
                        r@,
                        client_project@,
                        opt_view(redirect_uri),
                        t,
                    )
                } else {
                    final(self).states() == old(self).states()
                },
    {
        let now = clock_now();
        if crate::time::CALENDAR_END - STATE_LIFETIME_NANOS < now.to_nanos() {
            let state = generate_csrf_state();
            assert(!expiry_computable(now));
            return state;
        }
        proof {
            lemma_total_bounds(now);
        }
        assert(expiry_computable(now));
        self.create_state_at(client_project, redirect_uri, now)
    }

    /// Takes the state `state` out at `now`: it is removed whatever the
    /// outcome, and given back if it existed and was still valid.
    pub fn validate_and_consume_at(&mut self, state: &str, now: Instant) -> (r: Result<
        OAuthStateData,
        AppError,
    >)
        requires
            old(self).wf(),
        ensures
            final(self).wf(),
            final(self).states() == consume_spec(old(self).states(), state@, now.total()).0,
            r matches Ok(d) ==> consume_spec(old(self).states(), state@, now.total()).1 == Ok::<
                StateView,
                Seq<char>,
            >(d@),
            r matches Err(e) ==> (consume_spec(old(self).states(), state@, now.total()).1 matches Err(
                m,
            ) && oauth_error(e, m)),
    {
        proof {
            reveal_strlit("Invalid or expired state");
            reveal_strlit("State has expired");
        }
        match states_remove(&mut self.states, state) {
            None => Err(AppError::OAuth(owned("Invalid or expired state"))),
            Some(data) => {
                if data.is_expired_at(now) {
                    Err(AppError::OAuth(owned("State has expired")))
                } else {
                    Ok(data)
                }
            },
        }
    }

    /// Takes a state out, by the clock.
    pub fn validate_and_consume(&mut self, state: &str) -> (r: Result<OAuthStateData, AppError>)
        requires
            old(self).wf(),
        ensures
            final(self).wf(),
            final(self).states() == old(self).states().remove(state@),
            exists|t: Instant|
                t.wf() && match r {
                    Ok(d) => #[trigger] consume_spec(old(self).states(), state@, t.total()).1 == Ok::<
                        StateView,
                        Seq<char>,
                    >(d@),
                    Err(e) => consume_spec(old(self).states(), state@, t.total()).1 matches Err(m)
                        && oauth_error(e, m),
                },
    {
        let now = clock_now();
        let r = self.validate_and_consume_at(state, now);
        assert(match r {
            Ok(d) => consume_spec(old(self).states(), state@, now.total()).1 == Ok::<
                StateView,
                Seq<char>,
            >(d@),
            Err(e) => consume_spec(old(self).states(), state@, now.total()).1 matches Err(m)
                && oauth_error(e, m),
        });
        r
    }

    /// Looks the state `state` up at `now`: given back if it exists and is
    /// still valid; an expired one is removed.
    pub fn validate_at(&mut self, state: &str, now: Instant) -> (r: Result<OAuthStateData, AppError>)
        requires
            old(self).wf(),
        ensures
            final(self).wf(),
            final(self).states() == validate_spec(old(self).states(), state@, now.total()).0,
            r matches Ok(d) ==> validate_spec(old(self).states(), state@, now.total()).1 == Ok::<
                StateView,
                Seq<char>,
            >(d@),
            r matches Err(e) ==> (validate_spec(old(self).states(), state@, now.total()).1 matches Err(
                m,
            ) && oauth_error(e, m)),
    {
        proof {
            reveal_strlit("Invalid or expired state");
            reveal_strlit("State has expired");
        }
        match states_get(&self.states, state) {
            None => Err(AppError::OAuth(owned("Invalid or expired state"))),
            Some(data) => {
                if data.is_expired_at(now) {
                    states_remove(&mut self.states, state);
                    Err(AppError::OAuth(owned("State has expired")))
                } else {
                    Ok(data)
                }
            },
        }
    }

    /// Looks a state up, by the clock.
    pub fn validate(&mut self, state: &str) -> (r: Result<OAuthStateData, AppError>)
        requires
            old(self).wf(),
        ensures
            final(self).wf(),
            exists|t: Instant|
                t.wf() && final(self).states() == (#[trigger] validate_spec(
                    old(self).states(),
                    state@,
                    t.total(),
                )).0 && match r {
                    Ok(d) => validate_spec(old(self).states(), state@, t.total()).1 == Ok::<
                        StateView,
                        Seq<char>,
                    >(d@),
                    Err(e) => validate_spec(old(self).states(), state@, t.total()).1 matches Err(m)
                        && oauth_error(e, m),
                },
    {
        let now = clock_now();
        let r = self.validate_at(state, now);
        assert(match r {
            Ok(d) => validate_spec(old(self).states(), state@, now.total()).1 == Ok::<
                StateView,
                Seq<char>,
            >(d@),
            Err(e) => validate_spec(old(self).states(), state@, now.total()).1 matches Err(m)
                && oauth_error(e, m),
        });
        r
    }

    /// Drops the state `state`, if pending.
    pub fn remove(&mut self, state: &str)
        requires
            old(self).wf(),
        ensures
            final(self).wf(),
            final(self).states() == old(self).states().remove(state@),
    {
        states_remove(&mut self.states, state);
    }
}

impl Default for OAuthStateManager {
    fn default() -> (r: Self)
        ensures
            r.states() == Map::<Seq<char>, StateView>::empty(),
            r.wf(),
    {
        OAuthStateManager::new()
    }
}

/// A state registered at `created` and taken out no later than ten minutes
/// after is given back with what it was registered with; taking it out
/// again then fails.
pub proof fn lemma_state_consumed_once(
    m: Map<Seq<char>, StateView>,
    token: Seq<char>,
    project: Seq<char>,
    redirect: Option<Seq<char>>,
    created: Instant,
    now: int,
    later: int,
)
    requires
        created.total() <= now <= expiry(created),
    ensures
        consume_spec(create_spec(m, token, project, redirect, created), token, now).1 == Ok::<
            StateView,
            Seq<char>,
        >((token, project, redirect, created)),
        consume_spec(
            consume_spec(create_spec(m, token, project, redirect, created), token, now).0,
            token,
            later,
        ).1 == Err::<StateView, Seq<char>>("Invalid or expired state"@),
        validate_spec(
            consume_spec(create_spec(m, token, project, redirect, created), token, now).0,
            token,
            later,
        ).1 == Err::<StateView, Seq<char>>("Invalid or expired state"@),
        !consume_spec(create_spec(m, token, project, redirect, created), token, now).0.contains_key(token),
{
}

/// A state that is not pending stays refused: taking it out or looking it
/// up fails as invalid and leaves it absent, and neither registering
/// another state nor dropping the expired ones brings it back.
pub proof fn lemma_absent_state_stays_refused(
    m: Map<Seq<char>, StateView>,
    token: Seq<char>,
    now: int,
    other: Seq<char>,
    project: Seq<char>,
    redirect: Option<Seq<char>>,
    created: Instant,
)
    requires
        !m.contains_key(token),
        other != token,
    ensures
        consume_spec(m, token, now).1 == Err::<StateView, Seq<char>>("Invalid or expired state"@),
        validate_spec(m, token, now).1 == Err::<StateView, Seq<char>>("Invalid or expired state"@),
        !consume_spec(m, token, now).0.contains_key(token),
        !validate_spec(m, token, now).0.contains_key(token),
        !create_spec(m, other, project, redirect, created).contains_key(token),
        !fresh_states(m, now).contains_key(token),
{
}

/// A state is refused once its ten minutes are over, however it is looked
/// up.
pub proof fn lemma_expired_state_refused(m: Map<Seq<char>, StateView>, token: Seq<char>, now: int)
    requires
        m.contains_key(token),
        now > expiry(m[token].3),
    ensures
        consume_spec(m, token, now).1 == Err::<StateView, Seq<char>>("State has expired"@),
        validate_spec(m, token, now).1 == Err::<StateView, Seq<char>>("State has expired"@),
        !validate_spec(m, token, now).0.contains_key(token),
{
}

} // verus!
