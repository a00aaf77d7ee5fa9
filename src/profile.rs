use vstd::prelude::*;
use crate::error::UserServiceError;

verus! {

/// How long a profile stays in the cache after it was read, in seconds.
pub const PROFILE_CACHE_TTL_SECS: u64 = 1800;

/// The functional role of an account.
#[derive(Debug, Clone, Copy, PartialEq, Eq, Structural)]
pub enum UserRole {
    Administrator,
    Staff,
    User,
}

/// The university role of an account: lecturer (`Dosen`) or student (`Mahasiswa`).
#[derive(Debug, Clone, Copy, PartialEq, Eq, Structural)]
pub enum UserUniversityRole {
    Dosen,
    Mahasiswa,
}

#[derive(Debug, Clone, Copy, PartialEq, Eq, Structural)]
pub enum UserGender {
    Male,
    Female,
}

/// The teacher or student record that a profile refers to.
#[derive(Debug)]
pub enum UserTypeProfile {
    Teacher { teacher_id: String },
    Student { student_id: String },
}

/// The profile aggregate: identity, university affiliation and roles.
#[derive(Debug)]
pub struct ProfileUserData {
    pub user_id: String,
    pub in_game_nickname: String,
    pub full_name: String,
    pub university_name: String,
    pub faculty_name: String,
    pub faculty_id: u64,
    pub user_university_id: u64,
    pub user_univ_role: UserUniversityRole,
    pub gender: UserGender,
    pub profile_image_url: String,
    pub user_role: UserRole,
    pub user_type: UserTypeProfile,
}

impl UserTypeProfile {
    /// The record of the given university role with id `role_id`: a
    /// teacher for a lecturer, a student for a student.
    pub fn for_role(role: UserUniversityRole, role_id: String) -> (r: UserTypeProfile)
        ensures
            role is Dosen ==> r == (UserTypeProfile::Teacher { teacher_id: role_id }),
            role is Mahasiswa ==> r == (UserTypeProfile::Student { student_id: role_id }),
    {
        match role {
            UserUniversityRole::Dosen => UserTypeProfile::Teacher { teacher_id: role_id },
            UserUniversityRole::Mahasiswa => UserTypeProfile::Student { student_id: role_id },
        }
    }

    pub fn duplicate(&self) -> (r: UserTypeProfile)
        ensures
            r == *self,
    {
        match self {
            UserTypeProfile::Teacher { teacher_id } => UserTypeProfile::Teacher {
                teacher_id: teacher_id.clone(),
            },
            UserTypeProfile::Student { student_id } => UserTypeProfile::Student {
                student_id: student_id.clone(),
            },
        }
    }
}

impl ProfileUserData {
    /// A copy equal to this profile.
    pub fn duplicate(&self) -> (r: ProfileUserData)
        ensures
            r == *self,
    {
        ProfileUserData {
            user_id: self.user_id.clone(),
            in_game_nickname: self.in_game_nickname.clone(),
            full_name: self.full_name.clone(),
            university_name: self.university_name.clone(),
            faculty_name: self.faculty_name.clone(),
            faculty_id: self.faculty_id,
            user_university_id: self.user_university_id,
            user_univ_role: self.user_univ_role,
            gender: self.gender,
            profile_image_url: self.profile_image_url.clone(),
            user_role: self.user_role,
            user_type: self.user_type.duplicate(),
        }
    }
}

/// What a profile cache holds: per user id, the profile and its expiry.
pub type CachedProfiles = Map<Seq<char>, (ProfileUserData, u64)>;

/// The profile that the cache serves for `user_id` at `now`, if any.
pub open spec fn cached_profile(c: CachedProfiles, user_id: Seq<char>, now: u64) -> Option<
    ProfileUserData,
> {
    if c.contains_key(user_id) && c[user_id].1 > now {
        Some(c[user_id].0)
    } else {
        None
    }
}

struct CacheEntry {
    user_id: String,
    profile: ProfileUserData,
    expires_at: u64,
}

/// Read-through cache of profiles keyed by user id, with a fixed time to
/// live and explicit invalidation.
pub struct ProfileCache {
    entries: Vec<CacheEntry>,
    cached: Ghost<CachedProfiles>,
}

impl View for ProfileCache {
    type V = CachedProfiles;

    closed spec fn view(&self) -> CachedProfiles {
        self.cached@
    }
}

impl ProfileCache {
    pub closed spec fn wf(&self) -> bool {
        &&& forall|i: int|
            0 <= i < self.entries@.len() ==> {
                let e = #[trigger] self.entries@[i];
                &&& self.cached@.contains_key(e.user_id@)
                &&& self.cached@[e.user_id@] == (e.profile, e.expires_at)
            }
        &&& forall|k: Seq<char>|
            #[trigger] self.cached@.contains_key(k) ==> exists|i: int|
                0 <= i < self.entries@.len() && (#[trigger] self.entries@[i]).user_id@ == k
        &&& forall|i: int, j: int|
            0 <= i < self.entries@.len() && 0 <= j < self.entries@.len() && i != j
                ==> (#[trigger] self.entries@[i]).user_id@ != (#[trigger] self.entries@[j]).user_id@
    }

    /// An empty cache.
    pub fn new() -> (r: ProfileCache)
        ensures
            r.wf(),
            r@ == CachedProfiles::empty(),
    {
        ProfileCache { entries: Vec::new(), cached: Ghost(Map::empty()) }
    }

    fn find(&self, user_id: &String) -> (r: Option<usize>)
        requires
            self.wf(),
        ensures
            r matches Some(i) ==> i < self.entries@.len() && self.entries@[i as int].user_id@
                == user_id@,
            r is None ==> !self@.contains_key(user_id@),
    {
        let mut i: usize = 0;
        while i < self.entries.len()
            invariant
                self.wf(),
                i <= self.entries@.len(),
                forall|j: int| 0 <= j < i ==> (#[trigger] self.entries@[j]).user_id@ != user_id@,
            decreases self.entries@.len() - i,
        {
            if self.entries[i].user_id == *user_id {
                return Some(i);
            }
            i = i + 1;
        }
        None
    }

    fn remove_at(&mut self, i: usize)
        requires
            old(self).wf(),
            i < old(self).entries@.len(),
        ensures
            final(self).wf(),
            final(self)@ == old(self)@.remove(old(self).entries@[i as int].user_id@),
    {
        let ghost old_entries = self.entries@;
        let ghost k = self.entries@[i as int].user_id@;
        let ghost last = old_entries.len() - 1;
        self.entries.swap_remove(i);
        self.cached = Ghost(self.cached@.remove(k));
        assert forall|j: int| 0 <= j < self.entries@.len() implies #[trigger] self.entries@[j]
            == (if j == i { old_entries[last] } else { old_entries[j] }) by {}
        assert forall|kk: Seq<char>| #[trigger] self.cached@.contains_key(kk) implies exists|j: int|
            0 <= j < self.entries@.len() && (#[trigger] self.entries@[j]).user_id@ == kk by {
            let j = choose|j: int| 0 <= j < old_entries.len() && (#[trigger] old_entries[j]).user_id@ == kk;
            if j == last {
                assert(self.entries@[i as int].user_id@ == kk);
            } else {
                assert(self.entries@[j].user_id@ == kk);
            }
        }
    }

    /// The cached profile of `user_id`, when there is one that has not expired at `now`.
    pub fn lookup(&self, user_id: &String, now: u64) -> (r: Option<ProfileUserData>)
        requires
            self.wf(),
        ensures
            r == cached_profile(self@, user_id@, now),
    {
        match self.find(user_id) {
            Some(i) => {
                let e = &self.entries[i];
                if e.expires_at > now {
                    Some(e.profile.duplicate())
                } else {
                    None
                }
            },
            None => None,
        }
    }

    /// Caches `profile` for `user_id` from `now` on, for the cache's time to live.
    pub fn populate(&mut self, user_id: String, profile: ProfileUserData, now: u64)
        requires
            old(self).wf(),
            now <= u64::MAX - PROFILE_CACHE_TTL_SECS,
        ensures
            final(self).wf(),
            final(self)@ == old(self)@.insert(user_id@, (profile, (now + PROFILE_CACHE_TTL_SECS) as u64)),
    {
        match self.find(&user_id) {
            Some(i) => self.remove_at(i),
            None => {},
        }
        let ghost k = user_id@;
        let ghost v = (profile, (now + PROFILE_CACHE_TTL_SECS) as u64);
        let ghost before = self.entries@;
        self.entries.push(CacheEntry { user_id, profile, expires_at: now + PROFILE_CACHE_TTL_SECS });
        self.cached = Ghost(self.cached@.insert(k, v));
        assert forall|kk: Seq<char>| #[trigger] self.cached@.contains_key(kk) implies exists|i: int|
            0 <= i < self.entries@.len() && (#[trigger] self.entries@[i]).user_id@ == kk by {
            if kk == k {
                assert(self.entries@[before.len() as int].user_id@ == kk);
            } else {
                let i = choose|i: int| 0 <= i < before.len() && (#[trigger] before[i]).user_id@ == kk;
                assert(self.entries@[i] == before[i]);
            }
        }
    }

    /// Drops the cached profile of `user_id`, if any.
    pub fn invalidate(&mut self, user_id: &String)
        requires
            old(self).wf(),
        ensures
            final(self).wf(),
            final(self)@ == old(self)@.remove(user_id@),
    {
        match self.find(user_id) {
            Some(i) => self.remove_at(i),
            None => {
                assert(self@ == self@.remove(user_id@));
            },
        }
    }

    /// Completes a cache miss with the result of the database read: a row
    /// is cached and returned; a failed read, or no row, fails the call
    /// and caches nothing.
    pub fn complete_read(
        &mut self,
        user_id: String,
        read: Result<Option<ProfileUserData>, UserServiceError>,
        now: u64,
    ) -> (r: Result<ProfileUserData, UserServiceError>)
        requires
            old(self).wf(),
            now <= u64::MAX - PROFILE_CACHE_TTL_SECS,
        ensures
            final(self).wf(),
            read matches Ok(Some(p)) ==> r == Ok::<ProfileUserData, UserServiceError>(p)
                && final(self)@ == old(self)@.insert(user_id@, (p, (now + PROFILE_CACHE_TTL_SECS) as u64)),
            !(read is Ok && read->Ok_0 is Some) ==> (r matches Err(e) && e is DatabaseConnectionError
                && final(self)@ == old(self)@),
    {
        match read {
            Ok(Some(p)) => {
                let copy = p.duplicate();
                self.populate(user_id, p, now);
                Ok(copy)
            },
            _ => Err(UserServiceError::DatabaseConnectionError),
        }
    }
}

/// After a user's profile is invalidated the cache misses on it, so the
/// next read goes to the database; once that read is cached, every read up
/// to the time to live is served from the cache, so that database read is
/// the only one.
pub proof fn invalidate_forces_one_reload(
    c: CachedProfiles,
    user_id: Seq<char>,
    p: ProfileUserData,
    read_at: u64,
    later: u64,
)
    requires
        read_at <= u64::MAX - PROFILE_CACHE_TTL_SECS,
        read_at <= later < read_at + PROFILE_CACHE_TTL_SECS,
    ensures
        cached_profile(c.remove(user_id), user_id, read_at) is None,
        cached_profile(
            c.remove(user_id).insert(user_id, (p, (read_at + PROFILE_CACHE_TTL_SECS) as u64)),
            user_id,
            later,
        ) == Some(p),
{
}

} // verus!
