//! Role assignments and their cache.
//!
//! The roles of a subject live in a role-assignment store.  Reading that
//! store for every check would be wasteful, so what was read is kept for a
//! time-to-live and used again while it is fresh.  A role that is revoked can
//! therefore stay in effect, but never longer than the time-to-live.
//!
//! The cache does not read the store itself.  It says what to do next: use
//! the roles it holds, or fetch them; and it takes what was fetched.
use crate::acl::errors::RoleLookupError;
use crate::models::authorization::Role;
use crate::models::authorization::SubjectId;
use std::collections::HashMap;
use vstd::prelude::*;

verus! {

broadcast use vstd::std_specs::hash::group_hash_axioms;

/// The roles of one subject as they were read at one point in time.
#[derive(Debug)]
pub struct CachedRoles {
    pub roles: Vec<Role>,
    pub fetched_at: u64,
}

/// What the cache holds for one subject, as plain values.
pub struct RoleEntry {
    pub roles: Seq<Role>,
    pub fetched_at: u64,
}

/// Whether an entry read at `fetched_at` may still be used at `now`: from the
/// time it was read until a time-to-live has passed.  An entry from the
/// future of `now` is not used.
pub open spec fn is_fresh(fetched_at: u64, ttl: u64, now: u64) -> bool {
    fetched_at <= now && now - fetched_at < ttl
}

/// The roles that a cache with these entries answers for `subject` at `now`,
/// if it holds a fresh entry.
pub open spec fn cached_roles(
    entries: Map<SubjectId, RoleEntry>,
    ttl: u64,
    subject: SubjectId,
    now: u64,
) -> Option<Seq<Role>> {
    if entries.contains_key(subject) && is_fresh(entries[subject].fetched_at, ttl, now) {
        Some(entries[subject].roles)
    } else {
        None
    }
}

/// What happened that concerns the roles of a subject.
#[derive(Debug)]
pub enum RoleEvent {
    /// A check needs the roles of `subject` at the time `now`.
    Requested { subject: SubjectId, now: u64 },
    /// The role-assignment store was asked for `subject` at the time `now`
    /// and answered `outcome`.
    Fetched { subject: SubjectId, now: u64, outcome: Result<Vec<Role>, RoleLookupError> },
}

/// What to do next about the roles of a subject.
#[derive(Debug)]
pub enum RoleAction {
    /// Decide with these roles.
    Use(Vec<Role>),
    /// Ask the role-assignment store for the roles of this subject.
    Fetch(SubjectId),
    /// Give up: the roles could not be resolved.
    Fail(RoleLookupError),
}

/// What to do next, as plain values.
pub enum RoleActionView {
    Use(Seq<Role>),
    Fetch(SubjectId),
    Fail(RoleLookupError),
}

impl View for RoleAction {
    type V = RoleActionView;

    open spec fn view(&self) -> RoleActionView {
        match self {
            RoleAction::Use(roles) => RoleActionView::Use(roles@),
            RoleAction::Fetch(subject) => RoleActionView::Fetch(*subject),
            RoleAction::Fail(e) => RoleActionView::Fail(*e),
        }
    }
}

/// The entries of a cache after an event.  Only a fetch that succeeded
/// changes them: it records the roles with the time of the fetch, in place
/// of what was held for the subject.
pub open spec fn entries_after(
    entries: Map<SubjectId, RoleEntry>,
    event: RoleEvent,
) -> Map<SubjectId, RoleEntry> {
    match event {
        RoleEvent::Fetched { subject, now, outcome: Ok(roles) } => entries.insert(
            subject,
            RoleEntry { roles: roles@, fetched_at: now },
        ),
        _ => entries,
    }
}

/// What to do after an event.  A request is answered from a fresh entry, and
/// otherwise asks for a fetch.  A fetch that succeeded is answered with the
/// roles that were fetched, a fetch that failed with its error.
pub open spec fn action_after(
    entries: Map<SubjectId, RoleEntry>,
    ttl: u64,
    event: RoleEvent,
) -> RoleActionView {
    match event {
        RoleEvent::Requested { subject, now } => match cached_roles(entries, ttl, subject, now) {
            Some(roles) => RoleActionView::Use(roles),
            None => RoleActionView::Fetch(subject),
        },
        RoleEvent::Fetched { subject, now, outcome } => match outcome {
            Ok(roles) => RoleActionView::Use(roles@),
            Err(e) => RoleActionView::Fail(e),
        },
    }
}

/// The cache of role assignments.
pub struct RoleCache {
    entries: HashMap<SubjectId, CachedRoles>,
    ttl: u64,
}

fn copy_roles(roles: &Vec<Role>) -> (copy: Vec<Role>)
    ensures
        copy@ == roles@,
{
    let mut copy: Vec<Role> = Vec::new();
    let mut i: usize = 0;
    while i < roles.len()
        invariant
            i <= roles@.len(),
            copy@ == roles@.take(i as int),
        decreases roles@.len() - i,
    {
        copy.push(roles[i]);
        proof {
            assert(roles@.take(i + 1) == roles@.take(i as int).push(roles@[i as int]));
        }
        i = i + 1;
    }
    proof {
        assert(roles@.take(i as int) == roles@);
    }
    copy
}

impl View for RoleCache {
    type V = Map<SubjectId, RoleEntry>;

    closed spec fn view(&self) -> Map<SubjectId, RoleEntry> {
        Map::new(
            |subject: SubjectId| self.entries@.contains_key(subject),
            |subject: SubjectId|
                RoleEntry {
                    roles: self.entries@[subject].roles@,
                    fetched_at: self.entries@[subject].fetched_at,
                },
        )
    }
}

impl RoleCache {
    /// How long an entry may be used after it was read.
    pub closed spec fn ttl_spec(&self) -> u64 {
        self.ttl
    }

    /// An empty cache whose entries stay fresh for `ttl`.
    pub fn new(ttl: u64) -> (cache: RoleCache)
        ensures
            cache@ == Map::<SubjectId, RoleEntry>::empty(),
            cache.ttl_spec() == ttl,
    {
        let cache = RoleCache { entries: HashMap::new(), ttl };
        proof {
            assert(cache@ =~= Map::<SubjectId, RoleEntry>::empty());
        }
        cache
    }

    /// How long an entry may be used after it was read.
    pub fn ttl(&self) -> (ttl: u64)
        ensures
            ttl == self.ttl_spec(),
    {
        self.ttl
    }

    /// The roles held for `subject`, if the entry is fresh at `now`.
    pub fn lookup(&self, subject: SubjectId, now: u64) -> (roles: Option<Vec<Role>>)
        ensures
            match roles {
                Some(found) => cached_roles(self@, self.ttl_spec(), subject, now) == Some(found@),
                None => cached_roles(self@, self.ttl_spec(), subject, now) is None,
            },
    {
        match self.entries.get(&subject) {
            Some(entry) => {
                if entry.fetched_at <= now && now - entry.fetched_at < self.ttl {
                    Some(copy_roles(&entry.roles))
                } else {
                    None
                }
            },
            None => None,
        }
    }

    /// Records that the roles of `subject` were read as `roles` at `now`,
    /// in place of what was held for the subject.
    pub fn store(&mut self, subject: SubjectId, roles: Vec<Role>, now: u64)
        ensures
            final(self)@ == old(self)@.insert(subject, RoleEntry { roles: roles@, fetched_at: now }),
            final(self).ttl_spec() == old(self).ttl_spec(),
    {
        self.entries.insert(subject, CachedRoles { roles, fetched_at: now });
        proof {
            assert(final(self)@ =~= old(self)@.insert(
                subject,
                RoleEntry { roles: roles@, fetched_at: now },
            ));
        }
    }

    /// Forgets what is held for `subject`.
    pub fn evict(&mut self, subject: SubjectId)
        ensures
            final(self)@ == old(self)@.remove(subject),
            final(self).ttl_spec() == old(self).ttl_spec(),
    {
        self.entries.remove(&subject);
        proof {
            assert(final(self)@ =~= old(self)@.remove(subject));
        }
    }

    /// Takes an event and says what to do next.
    ///
    /// A request is answered with the roles of a fresh entry; without one
    /// the answer is to fetch, and the cache waits for the outcome.  A fetch
    /// that succeeded is recorded with its time and answered with its roles.
    /// A fetch that failed changes nothing and is answered with its error:
    /// what the cache held before is neither used nor dropped.
    pub fn step(&mut self, event: RoleEvent) -> (action: RoleAction)
        ensures
            final(self)@ == entries_after(old(self)@, event),
            final(self).ttl_spec() == old(self).ttl_spec(),
            action@ == action_after(old(self)@, old(self).ttl_spec(), event),
    {
        match event {
            RoleEvent::Requested { subject, now } => match self.lookup(subject, now) {
                Some(roles) => RoleAction::Use(roles),
                None => RoleAction::Fetch(subject),
            },
            RoleEvent::Fetched { subject, now, outcome } => match outcome {
                Ok(roles) => {
                    let answer = copy_roles(&roles);
                    self.store(subject, roles, now);
                    RoleAction::Use(answer)
                },
                Err(e) => RoleAction::Fail(e),
            },
        }
    }
}

/// An entry is used from the time it was read until its time-to-live has
/// passed, and not at any other time.  So roles that were read at
/// `fetched_at` and revoked afterwards stay in effect for less than `ttl`:
/// a request at `fetched_at + ttl` or later finds no fresh entry and asks the
/// store again.
pub proof fn stale_for_less_than_ttl(
    entries: Map<SubjectId, RoleEntry>,
    ttl: u64,
    subject: SubjectId,
    roles: Seq<Role>,
    fetched_at: u64,
    now: u64,
)
    ensures
        ({
            let held = entries.insert(subject, RoleEntry { roles, fetched_at });
            &&& fetched_at <= now < fetched_at + ttl ==> cached_roles(held, ttl, subject, now)
                == Some(roles)
            &&& now >= fetched_at + ttl ==> cached_roles(held, ttl, subject, now) is None
            &&& now >= fetched_at + ttl ==> action_after(
                held,
                ttl,
                RoleEvent::Requested { subject, now },
            ) == RoleActionView::Fetch(subject)
            &&& now < fetched_at ==> cached_roles(held, ttl, subject, now) is None
        }),
{
}

/// After the time-to-live the cache follows the store: a request asks for a
/// fetch, and the roles that the fetch brings are the roles that are used,
/// whatever the cache held before.
pub proof fn revocation_shows_after_ttl(
    entries: Map<SubjectId, RoleEntry>,
    ttl: u64,
    subject: SubjectId,
    fetched_at: u64,
    now: u64,
    current: Vec<Role>,
)
    requires
        entries.contains_key(subject),
        entries[subject].fetched_at == fetched_at,
        now >= fetched_at + ttl,
    ensures
        action_after(entries, ttl, RoleEvent::Requested { subject, now })
            == RoleActionView::Fetch(subject),
        action_after(entries, ttl, RoleEvent::Fetched { subject, now, outcome: Ok(current) })
            == RoleActionView::Use(current@),
        ttl > 0 ==> cached_roles(
            entries_after(entries, RoleEvent::Fetched { subject, now, outcome: Ok(current) }),
            ttl,
            subject,
            now,
        ) == Some(current@),
{
}

/// Entries of other subjects are untouched by an event about one subject.
pub proof fn events_concern_one_subject(
    entries: Map<SubjectId, RoleEntry>,
    ttl: u64,
    event: RoleEvent,
    other: SubjectId,
    now: u64,
)
    requires
        match event {
            RoleEvent::Requested { subject, .. } => subject != other,
            RoleEvent::Fetched { subject, .. } => subject != other,
        },
    ensures
        cached_roles(entries_after(entries, event), ttl, other, now) == cached_roles(
            entries,
            ttl,
            other,
            now,
        ),
{
}

/// A request changes nothing, and what it is answered with is what the
/// last fetch brought: once the roles of a subject were fetched, a request
/// at any time is answered with these roles or with the answer to fetch
/// again, never with other roles.  So while the store's answer stays the
/// same, every check is decided with the same roles.
pub proof fn requests_see_the_last_fetch(
    entries: Map<SubjectId, RoleEntry>,
    ttl: u64,
    subject: SubjectId,
    fetched: Vec<Role>,
    fetched_at: u64,
    now: u64,
)
    ensures
        ({
            let held = entries_after(
                entries,
                RoleEvent::Fetched { subject, now: fetched_at, outcome: Ok(fetched) },
            );
            let request = RoleEvent::Requested { subject, now };
            &&& entries_after(held, request) == held
            &&& action_after(held, ttl, request) == RoleActionView::Use(fetched@) || action_after(
                held,
                ttl,
                request,
            ) == RoleActionView::Fetch(subject)
        }),
{
}

/// Of two fetches for one subject the later one stays: workers that miss
/// at the same time may both fetch, and what the cache holds afterwards is
/// what was recorded last.
pub proof fn last_fetch_wins(
    entries: Map<SubjectId, RoleEntry>,
    subject: SubjectId,
    first: Vec<Role>,
    first_at: u64,
    second: Vec<Role>,
    second_at: u64,
)
    ensures
        entries_after(
            entries_after(
                entries,
                RoleEvent::Fetched { subject, now: first_at, outcome: Ok(first) },
            ),
            RoleEvent::Fetched { subject, now: second_at, outcome: Ok(second) },
        ) == entries_after(
            entries,
            RoleEvent::Fetched { subject, now: second_at, outcome: Ok(second) },
        ),
{
    assert(entries.insert(subject, RoleEntry { roles: first@, fetched_at: first_at }).insert(
        subject,
        RoleEntry { roles: second@, fetched_at: second_at },
    ) =~= entries.insert(subject, RoleEntry { roles: second@, fetched_at: second_at }));
}

} // verus!
