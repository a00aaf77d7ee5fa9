use vstd::prelude::*;

verus! {

/// A server-side session record: `session_id` is bound to `user_id` until
/// `expires_at` (unix seconds, exclusive).
#[derive(Debug)]
pub struct Credential {
    pub session_id: String,
    pub user_id: String,
    pub expires_at: u64,
}

/// What a store holds: each session id's user id and absolute expiry.
pub type Bindings = Map<Seq<char>, (Seq<char>, u64)>;

/// `sid` is bound in `b` and its credential has not expired at `now`.
pub open spec fn is_live(b: Bindings, sid: Seq<char>, now: u64) -> bool {
    b.contains_key(sid) && b[sid].1 > now
}

/// The user that a live credential binds `sid` to at `now`, if any.
pub open spec fn live_user(b: Bindings, sid: Seq<char>, now: u64) -> Option<Seq<char>> {
    if is_live(b, sid, now) {
        Some(b[sid].0)
    } else {
        None
    }
}

/// Session credentials keyed by session id, with insert-if-absent,
/// lookup that ignores expired records, and idempotent delete.
pub struct CredentialStore {
    entries: Vec<Credential>,
    bindings: Ghost<Bindings>,
}

impl View for CredentialStore {
    type V = Bindings;

    closed spec fn view(&self) -> Bindings {
        self.bindings@
    }
}

impl CredentialStore {
    pub closed spec fn wf(&self) -> bool {
        &&& forall|i: int|
            0 <= i < self.entries@.len() ==> {
                let c = #[trigger] self.entries@[i];
                &&& self.bindings@.contains_key(c.session_id@)
                &&& self.bindings@[c.session_id@] == (c.user_id@, c.expires_at)
            }
        &&& forall|k: Seq<char>|
            #[trigger] self.bindings@.contains_key(k) ==> exists|i: int|
                0 <= i < self.entries@.len() && (#[trigger] self.entries@[i]).session_id@ == k
        &&& forall|i: int, j: int|
            0 <= i < self.entries@.len() && 0 <= j < self.entries@.len() && i != j
                ==> (#[trigger] self.entries@[i]).session_id@
                != (#[trigger] self.entries@[j]).session_id@
    }

    /// An empty store.
    pub fn new() -> (r: CredentialStore)
        ensures
            r.wf(),
            r@ == Bindings::empty(),
    {
        CredentialStore { entries: Vec::new(), bindings: Ghost(Map::empty()) }
    }

    fn find(&self, session_id: &String) -> (r: Option<usize>)
        requires
            self.wf(),
        ensures
            r matches Some(i) ==> i < self.entries@.len() && self.entries@[i as int].session_id@
                == session_id@,
            r is None ==> !self@.contains_key(session_id@),
    {
        let mut i: usize = 0;
        while i < self.entries.len()
            invariant
                self.wf(),
                i <= self.entries@.len(),
                forall|j: int| 0 <= j < i ==> (#[trigger] self.entries@[j]).session_id@ != session_id@,
            decreases self.entries@.len() - i,
        {
            if self.entries[i].session_id == *session_id {
                return Some(i);
            }
            i = i + 1;
        }
        None
    }

    /// The user bound to `session_id`, if its credential is live at `now`.
    pub fn lookup(&self, session_id: &String, now: u64) -> (r: Option<String>)
        requires
            self.wf(),
        ensures
            match live_user(self@, session_id@, now) {
                Some(u) => r matches Some(s) && s@ == u,
                None => r is None,
            },
    {
        match self.find(session_id) {
            Some(i) => {
                let c = &self.entries[i];
                if c.expires_at > now {
                    Some(c.user_id.clone())
                } else {
                    None
                }
            },
            None => None,
        }
    }

    /// The user and expiry of the credential of `session_id`, if it is live at `now`.
    pub fn lookup_credential(&self, session_id: &String, now: u64) -> (r: Option<(String, u64)>)
        requires
            self.wf(),
        ensures
            is_live(self@, session_id@, now) ==> (r matches Some((u, exp)) && u@ == self@[session_id@].0
                && exp == self@[session_id@].1),
            !is_live(self@, session_id@, now) ==> r is None,
    {
        match self.find(session_id) {
            Some(i) => {
                let c = &self.entries[i];
                if c.expires_at > now {
                    Some((c.user_id.clone(), c.expires_at))
                } else {
                    None
                }
            },
            None => None,
        }
    }

    /// Binds `session_id` to `user_id` until `expires_at`, unless a live
    /// credential already holds that id; an expired one is replaced.
    /// Returns whether the credential was stored.
    pub fn insert(&mut self, session_id: String, user_id: String, expires_at: u64, now: u64) -> (r:
        bool)
        requires
            old(self).wf(),
        ensures
            final(self).wf(),
            r == !is_live(old(self)@, session_id@, now),
            r ==> final(self)@ == old(self)@.insert(session_id@, (user_id@, expires_at)),
            !r ==> final(self)@ == old(self)@,
    {
        match self.find(&session_id) {
            Some(i) => {
                if self.entries[i].expires_at > now {
                    return false;
                }
                self.remove_at(i);
            },
            None => {},
        }
        let ghost k = session_id@;
        let ghost v = (user_id@, expires_at);
        let ghost before = self.entries@;
        self.entries.push(Credential { session_id, user_id, expires_at });
        self.bindings = Ghost(self.bindings@.insert(k, v));
        assert forall|kk: Seq<char>| #[trigger] self.bindings@.contains_key(kk) implies exists|i: int|
            0 <= i < self.entries@.len() && (#[trigger] self.entries@[i]).session_id@ == kk by {
            if kk == k {
                assert(self.entries@[before.len() as int].session_id@ == kk);
            } else {
                let i = choose|i: int| 0 <= i < before.len() && (#[trigger] before[i]).session_id@ == kk;
                assert(self.entries@[i] == before[i]);
            }
        }
        true
    }

    fn remove_at(&mut self, i: usize)
        requires
            old(self).wf(),
            i < old(self).entries@.len(),
        ensures
            final(self).wf(),
            final(self)@ == old(self)@.remove(old(self).entries@[i as int].session_id@),
            !final(self)@.contains_key(old(self).entries@[i as int].session_id@),
    {
        let ghost old_entries = self.entries@;
        let ghost k = self.entries@[i as int].session_id@;
        let ghost last = old_entries.len() - 1;
        self.entries.swap_remove(i);
        self.bindings = Ghost(self.bindings@.remove(k));
        assert forall|j: int| 0 <= j < self.entries@.len() implies #[trigger] self.entries@[j]
            == (if j == i { old_entries[last] } else { old_entries[j] }) by {}
        assert forall|kk: Seq<char>| #[trigger] self.bindings@.contains_key(kk) implies exists|j: int|
            0 <= j < self.entries@.len() && (#[trigger] self.entries@[j]).session_id@ == kk by {
            let j = choose|j: int| 0 <= j < old_entries.len() && (#[trigger] old_entries[j]).session_id@ == kk;
            if j == last {
                assert(self.entries@[i as int].session_id@ == kk);
            } else {
                assert(self.entries@[j].session_id@ == kk);
            }
        }
    }

    /// Removes the credential of `session_id`, if there is one.
    pub fn delete(&mut self, session_id: &String)
        requires
            old(self).wf(),
        ensures
            final(self).wf(),
            final(self)@ == old(self)@.remove(session_id@),
    {
        match self.find(session_id) {
            Some(i) => self.remove_at(i),
            None => {
                assert(self@ == self@.remove(session_id@));
            },
        }
    }
}

} // verus!
