use crate::data_stores::{validation_outcome, UserStore, UserStoreError};
use crate::user::{Email, Password, User, UserView};
use vstd::prelude::*;

verus! {

/// User store held in memory.
/// The records sit in a `Vec` searched front to back: vstd specifies `HashMap` and
/// `HashSet` only for keys with a key model, which `String` keys lack.
pub struct HashmapUserStore {
    users: Vec<User>,
    model: Ghost<Map<Seq<char>, UserView>>,
}

impl HashmapUserStore {
    /// The index of the record of `email`, if any.
    fn find(&self, email: &Email) -> (r: Option<usize>)
        requires
            self.well_formed(),
        ensures
            r matches Some(i) ==> i < self.users@.len() && self.users@[i as int]@.email == email@,
            r is None ==> !self.model@.contains_key(email@),
    {
        let mut i: usize = 0;
        while i < self.users.len()
            invariant
                i <= self.users@.len(),
                forall|j: int| 0 <= j < i ==> (#[trigger] self.users@[j])@.email != email@,
            decreases self.users@.len() - i,
        {
            if self.users[i].has_email(email) {
                return Some(i);
            }
            i = i + 1;
        }
        None
    }
}

impl Default for HashmapUserStore {
    fn default() -> (r: HashmapUserStore)
        ensures
            r.well_formed(),
            r.users() == Map::<Seq<char>, UserView>::empty(),
    {
        HashmapUserStore { users: Vec::new(), model: Ghost(Map::empty()) }
    }
}

impl UserStore for HashmapUserStore {
    closed spec fn users(&self) -> Map<Seq<char>, UserView> {
        self.model@
    }

    closed spec fn well_formed(&self) -> bool {
        &&& forall|i: int|
            0 <= i < self.users@.len() ==> {
                let u = (#[trigger] self.users@[i])@;
                self.model@.contains_key(u.email) && self.model@[u.email] == u
            }
        &&& forall|k: Seq<char>| #[trigger]
            self.model@.contains_key(k) ==> exists|i: int|
                0 <= i < self.users@.len() && (#[trigger] self.users@[i])@.email == k
    }

    fn add_user(&mut self, user: User) -> (r: Result<(), UserStoreError>) {
        if self.find(&user.email()).is_some() {
            return Err(UserStoreError::UserAlreadyExists);
        }
        let ghost key = user@.email;
        let ghost n = self.users@.len();
        self.users.push(user);
        self.model = Ghost(self.model@.insert(key, self.users@[n as int]@));
        assert forall|k: Seq<char>| #[trigger] self.model@.contains_key(k) implies exists|i: int|
            0 <= i < self.users@.len() && (#[trigger] self.users@[i])@.email == k by {
            if k == key {
                assert(self.users@[n as int]@.email == k);
            } else {
                assert(old(self).model@.contains_key(k));
                let i = choose|i: int|
                    0 <= i < old(self).users@.len() && (#[trigger] old(self).users@[i])@.email == k;
                assert(self.users@[i]@.email == k);
            }
        }
        Ok(())
    }

    fn get_user(&self, email: Email) -> (r: Result<User, UserStoreError>) {
        match self.find(&email) {
            Some(i) => Ok(self.users[i].clone()),
            None => Err(UserStoreError::UserNotFound),
        }
    }

    fn validate_user(&self, email: Email, password: Password) -> (r: Result<(), UserStoreError>) {
        let user = match self.get_user(email) {
            Ok(u) => u,
            Err(_) => return Err(UserStoreError::UserNotFound),
        };
        if user.password().matches(&password) {
            Ok(())
        } else {
            Err(UserStoreError::InvalidCredentials)
        }
    }
}

} // verus!
