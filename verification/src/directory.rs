//! The session directory: who owns which thread.
//!
//! A session is a correspondent paired with a thread. The directory keeps the
//! pairs in two maps, one by correspondent and one by thread, which are
//! inverse to each other at all times.

use std::collections::HashMap;
use vstd::prelude::*;

verus! {

/// The content of a directory: the thread of each correspondent and the
/// correspondent of each thread.
pub struct Sessions {
    pub by_user: Map<u64, u64>,
    pub by_thread: Map<u64, u64>,
}

impl Sessions {
    /// The directory without any session.
    pub open spec fn empty() -> Sessions {
        Sessions { by_user: Map::empty(), by_thread: Map::empty() }
    }

    /// Whether `user` and `thread` form a session.
    pub open spec fn paired(self, user: u64, thread: u64) -> bool {
        self.by_user.contains_pair(user, thread)
    }

    /// The two maps are inverse to each other: an entry of one is the
    /// reversed entry of the other. Then no correspondent has two threads
    /// and no thread has two correspondents.
    pub open spec fn is_bijection(self) -> bool {
        forall|user: u64, thread: u64|
            self.by_user.contains_pair(user, thread) <==> self.by_thread.contains_pair(
                thread,
                user,
            )
    }

    /// The directory after `user` and `thread` became a session: what either
    /// of them was paired with before is forgotten.
    pub open spec fn insert(self, user: u64, thread: u64) -> Sessions {
        let by_user = if self.by_thread.contains_key(thread) {
            self.by_user.remove(self.by_thread[thread])
        } else {
            self.by_user
        };
        let by_thread = if self.by_user.contains_key(user) {
            self.by_thread.remove(self.by_user[user])
        } else {
            self.by_thread
        };
        Sessions { by_user: by_user.insert(user, thread), by_thread: by_thread.insert(thread, user) }
    }

    /// The directory after the session of `thread` ended; the same directory
    /// where `thread` has no session.
    pub open spec fn remove_by_thread(self, thread: u64) -> Sessions {
        if self.by_thread.contains_key(thread) {
            Sessions {
                by_user: self.by_user.remove(self.by_thread[thread]),
                by_thread: self.by_thread.remove(thread),
            }
        } else {
            self
        }
    }

    /// The directory that holds the sessions `pairs`, entered one after the
    /// other into an empty directory. Each pair is a correspondent and a thread.
    pub open spec fn from_pairs(pairs: Seq<(u64, u64)>) -> Sessions
        decreases pairs.len(),
    {
        if pairs.len() == 0 {
            Sessions::empty()
        } else {
            Sessions::from_pairs(pairs.drop_last()).insert(pairs.last().0, pairs.last().1)
        }
    }

    /// Entering a session keeps the two maps inverse, and pairs the two.
    pub proof fn lemma_insert(self, user: u64, thread: u64)
        requires
            self.is_bijection(),
        ensures
            self.insert(user, thread).is_bijection(),
            self.insert(user, thread).paired(user, thread),
            self.insert(user, thread).by_thread.contains_pair(thread, user),
    {
        let after = self.insert(user, thread);
        assert forall|u: u64, t: u64|
            after.by_user.contains_pair(u, t) <==> after.by_thread.contains_pair(t, u) by {
            assert(self.by_user.contains_pair(u, t) <==> self.by_thread.contains_pair(t, u));
            if self.by_thread.contains_key(thread) {
                let former = self.by_thread[thread];
                assert(self.by_thread.contains_pair(thread, former));
                assert(self.by_user.contains_pair(former, thread));
            }
            if self.by_user.contains_key(user) {
                let former = self.by_user[user];
                assert(self.by_user.contains_pair(user, former));
                assert(self.by_thread.contains_pair(former, user));
            }
            if self.by_user.contains_key(u) {
                assert(self.by_user.contains_pair(u, self.by_user[u]));
                assert(self.by_thread.contains_pair(self.by_user[u], u));
            }
            if self.by_thread.contains_key(t) {
                assert(self.by_thread.contains_pair(t, self.by_thread[t]));
                assert(self.by_user.contains_pair(self.by_thread[t], t));
            }
        }
    }

    /// Ending a session keeps the two maps inverse, and leaves neither the
    /// thread nor its correspondent in the directory.
    pub proof fn lemma_remove_by_thread(self, thread: u64)
        requires
            self.is_bijection(),
        ensures
            self.remove_by_thread(thread).is_bijection(),
            !self.remove_by_thread(thread).by_thread.contains_key(thread),
            self.by_thread.contains_key(thread) ==> !self.remove_by_thread(
                thread,
            ).by_user.contains_key(self.by_thread[thread]),
    {
        let after = self.remove_by_thread(thread);
        if self.by_thread.contains_key(thread) {
            let user = self.by_thread[thread];
            assert(self.by_thread.contains_pair(thread, user));
            assert(self.by_user.contains_pair(user, thread));
            assert forall|u: u64, t: u64|
                after.by_user.contains_pair(u, t) <==> after.by_thread.contains_pair(t, u) by {
                assert(self.by_user.contains_pair(u, t) <==> self.by_thread.contains_pair(t, u));
            }
        }
    }

    /// Whatever the pairs, entering them one by one gives inverse maps.
    pub proof fn lemma_from_pairs(pairs: Seq<(u64, u64)>)
        ensures
            Sessions::from_pairs(pairs).is_bijection(),
        decreases pairs.len(),
    {
        if pairs.len() > 0 {
            Sessions::lemma_from_pairs(pairs.drop_last());
            Sessions::from_pairs(pairs.drop_last()).lemma_insert(pairs.last().0, pairs.last().1);
        }
    }
}

/// One change of a directory.
pub enum Change {
    /// `user` and `thread` become a session.
    Insert { user: u64, thread: u64 },
    /// The session of `thread` ends.
    RemoveByThread { thread: u64 },
}

impl Sessions {
    /// The directory after `change`.
    pub open spec fn apply(self, change: Change) -> Sessions {
        match change {
            Change::Insert { user, thread } => self.insert(user, thread),
            Change::RemoveByThread { thread } => self.remove_by_thread(thread),
        }
    }

    /// The directory after `changes`, made one after the other.
    pub open spec fn apply_all(self, changes: Seq<Change>) -> Sessions
        decreases changes.len(),
    {
        if changes.len() == 0 {
            self
        } else {
            self.apply_all(changes.drop_last()).apply(changes.last())
        }
    }
}

/// The session directory of a running bot.
pub struct ModmailState {
    user_to_thread: HashMap<u64, u64>,
    thread_to_user: HashMap<u64, u64>,
}

impl View for ModmailState {
    type V = Sessions;

    closed spec fn view(&self) -> Sessions {
        Sessions { by_user: self.user_to_thread@, by_thread: self.thread_to_user@ }
    }
}

impl ModmailState {
    /// The directory is valid when its two maps are inverse to each other.
    pub open spec fn wf(&self) -> bool {
        self@.is_bijection()
    }

    /// A directory without any session.
    pub fn new() -> (state: ModmailState)
        ensures
            state.wf(),
            state@ == Sessions::empty(),
    {
        ModmailState { user_to_thread: HashMap::new(), thread_to_user: HashMap::new() }
    }

    /// The thread of `user`, if `user` has a session.
    pub fn lookup_thread(&self, user: u64) -> (thread: Option<u64>)
        ensures
            thread == if self@.by_user.contains_key(user) {
                Some(self@.by_user[user])
            } else {
                None
            },
    {
        broadcast use vstd::std_specs::hash::group_hash_axioms;

        match self.user_to_thread.get(&user) {
            Some(thread) => Some(*thread),
            None => None,
        }
    }

    /// The correspondent of `thread`, if `thread` belongs to a session.
    pub fn lookup_correspondent(&self, thread: u64) -> (user: Option<u64>)
        ensures
            user == if self@.by_thread.contains_key(thread) {
                Some(self@.by_thread[thread])
            } else {
                None
            },
    {
        broadcast use vstd::std_specs::hash::group_hash_axioms;

        match self.thread_to_user.get(&thread) {
            Some(user) => Some(*user),
            None => None,
        }
    }

    /// The number of sessions.
    pub fn len(&self) -> (n: usize)
        ensures
            n == self@.by_user.len(),
    {
        broadcast use vstd::std_specs::hash::group_hash_axioms;

        self.user_to_thread.len()
    }

    /// Makes `user` and `thread` a session. A session that either of them
    /// had before is dropped from both maps.
    pub fn insert(&mut self, user: u64, thread: u64)
        requires
            old(self).wf(),
        ensures
            final(self).wf(),
            final(self)@ == old(self)@.insert(user, thread),
    {
        broadcast use vstd::std_specs::hash::group_hash_axioms;

        let former_thread = self.lookup_thread(user);
        let former_user = self.lookup_correspondent(thread);
        if let Some(t) = former_thread {
            self.thread_to_user.remove(&t);
        }
        if let Some(u) = former_user {
            self.user_to_thread.remove(&u);
        }
        self.user_to_thread.insert(user, thread);
        self.thread_to_user.insert(thread, user);
        proof {
            old(self)@.lemma_insert(user, thread);
        }
    }

    /// Ends the session of `thread`: both of its entries leave the directory.
    /// Where `thread` has no session, nothing changes.
    pub fn remove_by_thread(&mut self, thread: u64)
        requires
            old(self).wf(),
        ensures
            final(self).wf(),
            final(self)@ == old(self)@.remove_by_thread(thread),
    {
        broadcast use vstd::std_specs::hash::group_hash_axioms;

        if let Some(user) = self.lookup_correspondent(thread) {
            self.thread_to_user.remove(&thread);
            self.user_to_thread.remove(&user);
        }
        proof {
            old(self)@.lemma_remove_by_thread(thread);
        }
    }

    /// Discards every session and installs `pairs`, each a correspondent and
    /// a thread, in their order. Nothing of the former content stays.
    pub fn replace_all(&mut self, pairs: &Vec<(u64, u64)>)
        ensures
            final(self).wf(),
            final(self)@ == Sessions::from_pairs(pairs@),
    {
        let mut fresh = ModmailState::new();
        let mut i: usize = 0;
        while i < pairs.len()
            invariant
                i <= pairs.len(),
                fresh.wf(),
                fresh@ == Sessions::from_pairs(pairs@.take(i as int)),
            decreases pairs.len() - i,
        {
            let pair = pairs[i];
            fresh.insert(pair.0, pair.1);
            i = i + 1;
            assert(pairs@.take(i as int).drop_last() =~= pairs@.take(i - 1));
        }
        assert(pairs@.take(i as int) =~= pairs@);
        *self = fresh;
    }
}

} // verus!
