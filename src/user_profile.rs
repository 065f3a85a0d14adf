//! Profiles of the marketplace's users: reputation, activity counters and
//! the languages they work in.
use vstd::prelude::*;
use std::collections::HashMap;
use crate::host::Identity;

verus! {

broadcast use vstd::std_specs::hash::group_hash_axioms;

/// The reputation a new profile starts with.
pub const STARTING_REPUTATION: u64 = 100;

#[derive(Debug)]
pub struct UserProfile {
    pub reputation_score: u64,
    pub total_corrections: u32,
    pub total_submissions: u32,
    pub last_activity: u64,
    pub languages: Vec<String>,
    pub is_verified: bool,
}

/// A profile as a value.
pub struct ProfileView {
    pub reputation_score: u64,
    pub total_corrections: u32,
    pub total_submissions: u32,
    pub last_activity: u64,
    pub languages: Seq<String>,
    pub is_verified: bool,
}

impl View for UserProfile {
    type V = ProfileView;

    open spec fn view(&self) -> ProfileView {
        ProfileView {
            reputation_score: self.reputation_score,
            total_corrections: self.total_corrections,
            total_submissions: self.total_submissions,
            last_activity: self.last_activity,
            languages: self.languages@,
            is_verified: self.is_verified,
        }
    }
}

impl UserProfile {
    /// A field-by-field copy.
    pub fn copied(&self) -> (r: UserProfile)
        ensures
            r@ == self@,
    {
        let mut languages: Vec<String> = Vec::new();
        let mut k: usize = 0;
        while k < self.languages.len()
            invariant
                k <= self.languages@.len(),
                languages@ == self.languages@.take(k as int),
            decreases self.languages@.len() - k,
        {
            languages.push(self.languages[k].clone());
            k += 1;
            assert(languages@ =~= self.languages@.take(k as int));
        }
        assert(self.languages@.take(self.languages@.len() as int) =~= self.languages@);
        UserProfile {
            reputation_score: self.reputation_score,
            total_corrections: self.total_corrections,
            total_submissions: self.total_submissions,
            last_activity: self.last_activity,
            languages,
            is_verified: self.is_verified,
        }
    }
}

/// Something that happened to a profile, as the host announces it.
pub enum UserProfileEvent {
    ProfileCreated { user: Identity },
    ReputationUpdated { user: Identity, new_score: u64, change: i64 },
}

#[derive(Clone, Copy, Debug, PartialEq, Eq, Structural)]
pub enum Error {
    ProfileAlreadyExists,
    ProfileNotFound,
    Unauthorized,
    InvalidInput,
}

pub open spec fn error_code(e: Error) -> u32 {
    match e {
        Error::ProfileAlreadyExists => 1,
        Error::ProfileNotFound => 2,
        Error::Unauthorized => 3,
        Error::InvalidInput => 4,
    }
}

impl Error {
    /// The number under which the host reports this error.
    pub fn code(&self) -> (r: u32)
        ensures
            r == error_code(*self),
    {
        match self {
            Error::ProfileAlreadyExists => 1,
            Error::ProfileNotFound => 2,
            Error::Unauthorized => 3,
            Error::InvalidInput => 4,
        }
    }
}

/// `score` moved by `change`, held within what a score can be: never below
/// zero, never above the largest `u64`.
pub open spec fn adjusted_score(score: u64, change: i64) -> u64 {
    let s = score as int + change as int;
    if s < 0 {
        0
    } else if s > u64::MAX {
        u64::MAX
    } else {
        s as u64
    }
}

/// One more, unless the counter is full.
pub open spec fn bumped(n: u32) -> u32 {
    if n < u32::MAX {
        (n + 1) as u32
    } else {
        n
    }
}

/// The profile that `create_profile` stores.
pub open spec fn fresh_profile(languages: Seq<String>, now: u64) -> ProfileView {
    ProfileView {
        reputation_score: STARTING_REPUTATION,
        total_corrections: 0,
        total_submissions: 0,
        last_activity: now,
        languages,
        is_verified: false,
    }
}

pub struct UserProfileContract {
    profiles: HashMap<u64, UserProfile>,
}

impl View for UserProfileContract {
    type V = Map<u64, ProfileView>;

    closed spec fn view(&self) -> Map<u64, ProfileView> {
        self.profiles@.map_values(|p: UserProfile| p@)
    }
}

impl UserProfileContract {
    /// A store with no profiles.
    pub fn new() -> (r: Self)
        ensures
            r@ == Map::<u64, ProfileView>::empty(),
    {
        let r = UserProfileContract { profiles: HashMap::new() };
        assert(r@ =~= Map::<u64, ProfileView>::empty());
        r
    }

    /// Creates the profile of `user`, who works in `languages`, at time `now`.
    pub fn create_profile(&mut self, user: Identity, languages: Vec<String>, now: u64) -> (r: Result<
        (),
        Error,
    >)
        ensures
            old(self)@.contains_key(user.id) ==> r == Err::<(), Error>(Error::ProfileAlreadyExists),
            !old(self)@.contains_key(user.id) && languages@.len() == 0 ==> r == Err::<(), Error>(
                Error::InvalidInput,
            ),
            !old(self)@.contains_key(user.id) && languages@.len() > 0 ==> r is Ok,
            r is Ok ==> final(self)@ == old(self)@.insert(user.id, fresh_profile(languages@, now)),
            r is Err ==> final(self)@ == old(self)@,
    {
        if self.profiles.contains_key(&user.id) {
            return Err(Error::ProfileAlreadyExists);
        }
        if languages.len() == 0 {
            return Err(Error::InvalidInput);
        }
        let profile = UserProfile {
            reputation_score: STARTING_REPUTATION,
            total_corrections: 0,
            total_submissions: 0,
            last_activity: now,
            languages,
            is_verified: false,
        };
        let ghost before = self@;
        self.profiles.insert(user.id, profile);
        assert(self@ =~= before.insert(user.id, fresh_profile(languages@, now)));
        Ok(())
    }

    pub fn get_profile(&self, user: Identity) -> (r: Result<UserProfile, Error>)
        ensures
            !self@.contains_key(user.id) ==> r matches Err(Error::ProfileNotFound),
            self@.contains_key(user.id) ==> (r matches Ok(p) && p@ == self@[user.id]),
    {
        match self.profiles.get(&user.id) {
            Some(p) => Ok(p.copied()),
            None => Err(Error::ProfileNotFound),
        }
    }

    /// Takes the profile of `user` out of the store.
    fn take_profile(&mut self, user: Identity) -> (r: Option<UserProfile>)
        ensures
            final(self)@ == old(self)@.remove(user.id),
            old(self)@.contains_key(user.id) ==> (r matches Some(p) && p@ == old(self)@[user.id]),
            !old(self)@.contains_key(user.id) ==> r is None,
    {
        let ghost before = self@;
        let r = self.profiles.remove(&user.id);
        assert(self@ =~= before.remove(user.id));
        r
    }

    /// Puts `profile` back under `user`.
    fn put_profile(&mut self, user: Identity, profile: UserProfile)
        ensures
            final(self)@ == old(self)@.insert(user.id, profile@),
    {
        let ghost before = self@;
        let ghost v = profile@;
        self.profiles.insert(user.id, profile);
        assert(self@ =~= before.insert(user.id, v));
    }

    /// Moves the reputation of `user` by `score_change`, at time `now`.
    pub fn update_reputation(&mut self, user: Identity, score_change: i64, caller: Identity, now: u64) -> (r:
        Result<(), Error>)
        ensures
            !old(self)@.contains_key(user.id) ==> r == Err::<(), Error>(Error::ProfileNotFound)
                && final(self)@ == old(self)@,
            old(self)@.contains_key(user.id) ==> r is Ok && final(self)@ == old(self)@.insert(
                user.id,
                ProfileView {
                    reputation_score: adjusted_score(
                        old(self)@[user.id].reputation_score,
                        score_change,
                    ),
                    last_activity: now,
                    ..old(self)@[user.id]
                },
            ),
    {
        let ghost before = self@;
        let mut profile = match self.take_profile(user) {
            Some(p) => p,
            None => {
                assert(self@ =~= before);
                return Err(Error::ProfileNotFound);
            },
        };
        let score = profile.reputation_score;
        let new_score = if score_change < 0 {
            let magnitude = (0i128 - score_change as i128) as u64;
            if score > magnitude {
                score - magnitude
            } else {
                0
            }
        } else {
            let gain = score_change as u64;
            if score <= u64::MAX - gain {
                score + gain
            } else {
                u64::MAX
            }
        };
        profile.reputation_score = new_score;
        profile.last_activity = now;
        self.put_profile(user, profile);
        assert(self@ =~= before.insert(
            user.id,
            ProfileView {
                reputation_score: adjusted_score(before[user.id].reputation_score, score_change),
                last_activity: now,
                ..before[user.id]
            },
        ));
        Ok(())
    }

    /// The reputation of `user`; nothing for a user without a profile.
    pub fn get_reputation(&self, user: Identity) -> (r: u64)
        ensures
            self@.contains_key(user.id) ==> r == self@[user.id].reputation_score,
            !self@.contains_key(user.id) ==> r == 0,
    {
        match self.profiles.get(&user.id) {
            Some(p) => p.reputation_score,
            None => 0,
        }
    }

    /// Records that `user` was active at time `now`.
    pub fn update_activity(&mut self, user: Identity, now: u64) -> (r: Result<(), Error>)
        ensures
            !old(self)@.contains_key(user.id) ==> r == Err::<(), Error>(Error::ProfileNotFound)
                && final(self)@ == old(self)@,
            old(self)@.contains_key(user.id) ==> r is Ok && final(self)@ == old(self)@.insert(
                user.id,
                ProfileView { last_activity: now, ..old(self)@[user.id] },
            ),
    {
        let ghost before = self@;
        let mut profile = match self.take_profile(user) {
            Some(p) => p,
            None => {
                assert(self@ =~= before);
                return Err(Error::ProfileNotFound);
            },
        };
        profile.last_activity = now;
        self.put_profile(user, profile);
        assert(self@ =~= before.insert(
            user.id,
            ProfileView { last_activity: now, ..before[user.id] },
        ));
        Ok(())
    }

    /// Counts one more correction by `user`, at time `now`.
    pub fn increment_corrections(&mut self, user: Identity, caller: Identity, now: u64) -> (r: Result<
        (),
        Error,
    >)
        ensures
            !old(self)@.contains_key(user.id) ==> r == Err::<(), Error>(Error::ProfileNotFound)
                && final(self)@ == old(self)@,
            old(self)@.contains_key(user.id) ==> r is Ok && final(self)@ == old(self)@.insert(
                user.id,
                ProfileView {
                    total_corrections: bumped(old(self)@[user.id].total_corrections),
                    last_activity: now,
                    ..old(self)@[user.id]
                },
            ),
    {
        let ghost before = self@;
        let mut profile = match self.take_profile(user) {
            Some(p) => p,
            None => {
                assert(self@ =~= before);
                return Err(Error::ProfileNotFound);
            },
        };
        if profile.total_corrections < u32::MAX {
            profile.total_corrections = profile.total_corrections + 1;
        }
        profile.last_activity = now;
        self.put_profile(user, profile);
        assert(self@ =~= before.insert(
            user.id,
            ProfileView {
                total_corrections: bumped(before[user.id].total_corrections),
                last_activity: now,
                ..before[user.id]
            },
        ));
        Ok(())
    }

    /// Counts one more submission by `user`, at time `now`.
    pub fn increment_submissions(&mut self, user: Identity, caller: Identity, now: u64) -> (r: Result<
        (),
        Error,
    >)
        ensures
            !old(self)@.contains_key(user.id) ==> r == Err::<(), Error>(Error::ProfileNotFound)
                && final(self)@ == old(self)@,
            old(self)@.contains_key(user.id) ==> r is Ok && final(self)@ == old(self)@.insert(
                user.id,
                ProfileView {
                    total_submissions: bumped(old(self)@[user.id].total_submissions),
                    last_activity: now,
                    ..old(self)@[user.id]
                },
            ),
    {
        let ghost before = self@;
        let mut profile = match self.take_profile(user) {
            Some(p) => p,
            None => {
                assert(self@ =~= before);
                return Err(Error::ProfileNotFound);
            },
        };
        if profile.total_submissions < u32::MAX {
            profile.total_submissions = profile.total_submissions + 1;
        }
        profile.last_activity = now;
        self.put_profile(user, profile);
        assert(self@ =~= before.insert(
            user.id,
            ProfileView {
                total_submissions: bumped(before[user.id].total_submissions),
                last_activity: now,
                ..before[user.id]
            },
        ));
        Ok(())
    }
}

} // verus!
