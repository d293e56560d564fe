use crate::data_stores::{TwoFACodeStore, TwoFACodeStoreError};
use crate::ids::{LoginAttemptId, TwoFACode};
use crate::user::Email;
use vstd::prelude::*;

verus! {

/// Two-factor challenge store held in memory.
/// The records sit in a `Vec` searched front to back: vstd specifies `HashMap` and
/// `HashSet` only for keys with a key model, which `String` keys lack.
pub struct HashmapTwoFACodeStore {
    codes: Vec<(Email, LoginAttemptId, TwoFACode)>,
    model: Ghost<Map<Seq<char>, (Seq<char>, Seq<char>)>>,
}

impl HashmapTwoFACodeStore {
    /// The index of the challenge of `email`, if any.
    fn find(&self, email: &Email) -> (r: Option<usize>)
        requires
            self.well_formed(),
        ensures
            r matches Some(i) ==> i < self.codes@.len() && self.codes@[i as int].0@ == email@,
            r is None ==> !self.model@.contains_key(email@),
    {
        let mut i: usize = 0;
        while i < self.codes.len()
            invariant
                i <= self.codes@.len(),
                forall|j: int| 0 <= j < i ==> (#[trigger] self.codes@[j]).0@ != email@,
            decreases self.codes@.len() - i,
        {
            if self.codes[i].0.matches(email) {
                return Some(i);
            }
            i = i + 1;
        }
        None
    }
}

impl Default for HashmapTwoFACodeStore {
    fn default() -> (r: HashmapTwoFACodeStore)
        ensures
            r.well_formed(),
            r.codes() == Map::<Seq<char>, (Seq<char>, Seq<char>)>::empty(),
    {
        HashmapTwoFACodeStore { codes: Vec::new(), model: Ghost(Map::empty()) }
    }
}

impl TwoFACodeStore for HashmapTwoFACodeStore {
    closed spec fn codes(&self) -> Map<Seq<char>, (Seq<char>, Seq<char>)> {
        self.model@
    }

    closed spec fn well_formed(&self) -> bool {
        &&& forall|i: int|
            0 <= i < self.codes@.len() ==> {
                let e = #[trigger] self.codes@[i];
                self.model@.contains_key(e.0@) && self.model@[e.0@] == (e.1@, e.2@)
            }
        &&& forall|k: Seq<char>| #[trigger]
            self.model@.contains_key(k) ==> exists|i: int|
                0 <= i < self.codes@.len() && (#[trigger] self.codes@[i]).0@ == k
        &&& forall|i: int, j: int|
            0 <= i < self.codes@.len() && 0 <= j < self.codes@.len() && i != j ==> (
            #[trigger] self.codes@[i]).0@ != (#[trigger] self.codes@[j]).0@
    }

    fn add_code(&mut self, email: Email, login_attempt_id: LoginAttemptId, code: TwoFACode) -> (r:
        Result<(), TwoFACodeStoreError>) {
        if self.find(&email).is_some() {
            return Err(TwoFACodeStoreError::LoginAttemptAlreadyPending);
        }
        let ghost key = email@;
        let ghost value = (login_attempt_id@, code@);
        let ghost n = self.codes@.len();
        self.codes.push((email, login_attempt_id, code));
        self.model = Ghost(self.model@.insert(key, value));
        assert forall|k: Seq<char>| #[trigger] self.model@.contains_key(k) implies exists|i: int|
            0 <= i < self.codes@.len() && (#[trigger] self.codes@[i]).0@ == k by {
            if k == key {
                assert(self.codes@[n as int].0@ == k);
            } else {
                assert(old(self).model@.contains_key(k));
                let i = choose|i: int|
                    0 <= i < old(self).codes@.len() && (#[trigger] old(self).codes@[i]).0@ == k;
                assert(self.codes@[i].0@ == k);
            }
        }
        assert forall|i: int, j: int|
            0 <= i < self.codes@.len() && 0 <= j < self.codes@.len() && i != j implies (
            #[trigger] self.codes@[i]).0@ != (#[trigger] self.codes@[j]).0@ by {
            if i < n && j < n {
                assert(old(self).codes@[i] == self.codes@[i]);
                assert(old(self).codes@[j] == self.codes@[j]);
            } else if i < n {
                assert(old(self).codes@[i] == self.codes@[i]);
                assert(old(self).model@.contains_key(self.codes@[i].0@));
            } else {
                assert(old(self).codes@[j] == self.codes@[j]);
                assert(old(self).model@.contains_key(self.codes@[j].0@));
            }
        }
        Ok(())
    }

    fn remove_code(&mut self, email: &Email) -> (r: Result<(), TwoFACodeStoreError>) {
        let i = match self.find(email) {
            Some(i) => i,
            None => return Err(TwoFACodeStoreError::LoginAttemptIdNotFound),
        };
        let ghost key = email@;
        let ghost before = self.codes@;
        self.codes.remove(i);
        self.model = Ghost(self.model@.remove(key));
        assert(forall|j: int|
            0 <= j < self.codes@.len() ==> #[trigger] self.codes@[j] == if j < i {
                before[j]
            } else {
                before[j + 1]
            });
        assert forall|j: int| 0 <= j < self.codes@.len() implies (#[trigger] self.codes@[j]).0@
            != key by {
            if j < i {
                assert(before[j] == self.codes@[j]);
            } else {
                assert(before[j + 1] == self.codes@[j]);
            }
        }
        assert forall|k: Seq<char>| #[trigger] self.model@.contains_key(k) implies exists|j: int|
            0 <= j < self.codes@.len() && (#[trigger] self.codes@[j]).0@ == k by {
            assert(old(self).model@.contains_key(k));
            let m = choose|m: int| 0 <= m < before.len() && (#[trigger] before[m]).0@ == k;
            if m < i {
                assert(self.codes@[m].0@ == k);
            } else {
                assert(m != i);
                assert(self.codes@[m - 1].0@ == k);
            }
        }
        assert forall|a: int, b: int|
            0 <= a < self.codes@.len() && 0 <= b < self.codes@.len() && a != b implies (
            #[trigger] self.codes@[a]).0@ != (#[trigger] self.codes@[b]).0@ by {
            let a0 = if a < i { a } else { a + 1 };
            let b0 = if b < i { b } else { b + 1 };
            assert(before[a0] == self.codes@[a]);
            assert(before[b0] == self.codes@[b]);
        }
        Ok(())
    }

    fn get_code(&self, email: &Email) -> (r: Result<(LoginAttemptId, TwoFACode), TwoFACodeStoreError>) {
        match self.find(email) {
            Some(i) => Ok((self.codes[i].1.clone(), self.codes[i].2.clone())),
            None => Err(TwoFACodeStoreError::LoginAttemptIdNotFound),
        }
    }
}

} // verus!
