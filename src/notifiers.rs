//! Two notifiers: one that sends nothing, and one that collects a payload per
//! email address of each created user.
use vstd::prelude::*;

use crate::ports::UserNotifier;
use crate::user::{EmailAddress, User, UserRecord};

verus! {

/// A notifier whose transport sends nothing yet; it only keeps, in ghost
/// state, which users it was told of.
#[derive(Clone)]
pub struct EmailUserNotifier {
    told: Ghost<Seq<UserRecord>>,
}

impl EmailUserNotifier {
    pub fn new() -> (r: EmailUserNotifier)
        ensures
            r.notified() == Seq::<UserRecord>::empty(),
    {
        EmailUserNotifier { told: Ghost(Seq::empty()) }
    }
}

impl UserNotifier for EmailUserNotifier {
    closed spec fn notified(&self) -> Seq<UserRecord> {
        self.told@
    }

    fn user_created(&mut self, user: &User) {
        self.told = Ghost(self.told@.push(user@));
    }
}

/// A notifier that keeps, for the email address of each created user, the
/// notification payload (empty): a map from address to payload.
pub struct CollectingUserNotifier {
    entries: Vec<(EmailAddress, String)>,
    map: Ghost<Map<Seq<char>, Seq<char>>>,
    told: Ghost<Seq<UserRecord>>,
}

/// The entries have distinct addresses and hold exactly the pairs of `map`.
spec fn entries_hold_map(e: Seq<(EmailAddress, String)>, map: Map<Seq<char>, Seq<char>>) -> bool {
    &&& forall|i: int, j: int|
        0 <= i < e.len() && 0 <= j < e.len() && i != j ==> (#[trigger] e[i]).0@ != (
        #[trigger] e[j]).0@
    &&& forall|i: int|
        0 <= i < e.len() ==> map.contains_key((#[trigger] e[i]).0@) && map[e[i].0@] == e[i].1@
    &&& forall|k: Seq<char>| #[trigger]
        map.contains_key(k) ==> exists|i: int| 0 <= i < e.len() && (#[trigger] e[i]).0@ == k
}

impl CollectingUserNotifier {
    #[verifier::type_invariant]
    closed spec fn inv(&self) -> bool {
        entries_hold_map(self.entries@, self.map@)
    }

    /// The payload recorded for each email address.
    pub closed spec fn collected(&self) -> Map<Seq<char>, Seq<char>> {
        self.map@
    }

    pub fn new() -> (r: CollectingUserNotifier)
        ensures
            r.notified() == Seq::<UserRecord>::empty(),
            r.collected() == Map::<Seq<char>, Seq<char>>::empty(),
    {
        CollectingUserNotifier {
            entries: Vec::new(),
            map: Ghost(Map::empty()),
            told: Ghost(Seq::empty()),
        }
    }

    /// The index of the entry for `email`, if there is one.
    fn find(&self, email: &EmailAddress) -> (r: Option<usize>)
        ensures
            r is Some <==> self.collected().contains_key(email@),
            r matches Some(k) ==> k < self.entries@.len() && self.entries@[k as int].0@ == email@,
    {
        proof {
            use_type_invariant(self);
        }
        let n = self.entries.len();
        let mut k: usize = 0;
        while k < n
            invariant
                n == self.entries@.len(),
                0 <= k <= n,
                forall|m: int| 0 <= m < k ==> (#[trigger] self.entries@[m]).0@ != email@,
            decreases n - k,
        {
            if self.entries[k].0.is_same(email) {
                proof {
                    use_type_invariant(self);
                }
                return Some(k);
            }
            k = k + 1;
        }
        proof {
            use_type_invariant(self);
        }
        None
    }

    /// The payload recorded for `email`, if any.
    pub fn payload_for(&self, email: &EmailAddress) -> (r: Option<String>)
        ensures
            r is Some <==> self.collected().contains_key(email@),
            r matches Some(p) ==> p@ == self.collected()[email@],
    {
        proof {
            use_type_invariant(self);
        }
        match self.find(email) {
            Some(k) => Some(self.entries[k].1.clone()),
            None => None,
        }
    }

    /// Records the email address of `user` with an empty payload, replacing
    /// what was recorded for that address before.
    pub fn record(&mut self, user: &User)
        ensures
            final(self).collected() == old(self).collected().insert(
                user.email_addr@,
                Seq::<char>::empty(),
            ),
            final(self).notified() == old(self).notified().push(user@),
    {
        let found = self.find(&user.email_addr);
        let mut taken = CollectingUserNotifier::new();
        std::mem::swap(&mut taken, self);
        proof {
            use_type_invariant(&taken);
        }
        let ghost key = user.email_addr@;
        let ghost old_map = taken.map@;
        let ghost old_entries = taken.entries@;
        let new_map = Ghost(taken.map@.insert(key, Seq::empty()));
        let new_told = Ghost(taken.told@.push(user@));
        let CollectingUserNotifier { mut entries, .. } = taken;
        let entry = (user.email_addr.clone(), String::new());
        match found {
            Some(k) => {
                entries.set(k, entry);
                proof {
                    let e = entries@;
                    assert forall|i: int, j: int|
                        0 <= i < e.len() && 0 <= j < e.len() && i != j implies (#[trigger] e[i]).0@
                            != (#[trigger] e[j]).0@ by {
                        assert(e[i].0@ == old_entries[i].0@);
                        assert(e[j].0@ == old_entries[j].0@);
                    }
                    assert forall|i: int| 0 <= i < e.len() implies new_map@.contains_key(
                        (#[trigger] e[i]).0@,
                    ) && new_map@[e[i].0@] == e[i].1@ by {
                        if i != k {
                            assert(old_entries[i].0@ != old_entries[k as int].0@);
                        }
                    }
                    assert forall|q: Seq<char>| #[trigger]
                        new_map@.contains_key(q) implies exists|i: int|
                        0 <= i < e.len() && (#[trigger] e[i]).0@ == q by {
                        if q == key {
                            assert(e[k as int].0@ == q);
                        } else {
                            assert(old_map.contains_key(q));
                            let i = choose|i: int| 0 <= i < old_entries.len() && (#[trigger] old_entries[i]).0@ == q;
                            assert(e[i].0@ == q);
                        }
                    }
                }
            },
            None => {
                entries.push(entry);
                proof {
                    let e = entries@;
                    let n = old_entries.len() as int;
                    assert forall|i: int| 0 <= i < n implies old_entries[i].0@ != key by {
                        if old_entries[i].0@ == key {
                            assert(old_map.contains_key(old_entries[i].0@));
                        }
                    }
                    assert forall|i: int| 0 <= i < e.len() implies new_map@.contains_key(
                        (#[trigger] e[i]).0@,
                    ) && new_map@[e[i].0@] == e[i].1@ by {
                        if i < n {
                            assert(e[i] == old_entries[i]);
                        }
                    }
                    assert forall|q: Seq<char>| #[trigger]
                        new_map@.contains_key(q) implies exists|i: int|
                        0 <= i < e.len() && (#[trigger] e[i]).0@ == q by {
                        if q == key {
                            assert(e[n].0@ == q);
                        } else {
                            assert(old_map.contains_key(q));
                            let i = choose|i: int| 0 <= i < old_entries.len() && (#[trigger] old_entries[i]).0@ == q;
                            assert(e[i] == old_entries[i]);
                        }
                    }
                    assert forall|i: int, j: int|
                        0 <= i < e.len() && 0 <= j < e.len() && i != j implies (#[trigger] e[i]).0@
                            != (#[trigger] e[j]).0@ by {
                        if i < n && j < n {
                            assert(e[i] == old_entries[i] && e[j] == old_entries[j]);
                        } else if i < n {
                            assert(e[i] == old_entries[i]);
                        } else {
                            assert(e[j] == old_entries[j]);
                        }
                    }
                }
            },
        }
        assert(entries_hold_map(entries@, new_map@));
        *self = CollectingUserNotifier { entries, map: new_map, told: new_told };
    }
}

impl UserNotifier for CollectingUserNotifier {
    closed spec fn notified(&self) -> Seq<UserRecord> {
        self.told@
    }

    /// Records the user's email address with an empty payload.
    fn user_created(&mut self, user: &User)
        ensures
            final(self).collected() == old(self).collected().insert(
                user.email_addr@,
                Seq::<char>::empty(),
            ),
    {
        self.record(user);
    }
}

} // verus!
