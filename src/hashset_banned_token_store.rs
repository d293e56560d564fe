use crate::data_stores::{BannedTokenStore, BannedTokenStoreError};
use vstd::prelude::*;

verus! {

/// Banned token store held in memory.
/// The records sit in a `Vec` searched front to back: vstd specifies `HashMap` and
/// `HashSet` only for keys with a key model, which `String` keys lack.
pub struct HashsetBannedTokenStore {
    tokens: Vec<String>,
}

impl HashsetBannedTokenStore {
    fn contains(&self, token: &str) -> (r: bool)
        ensures
            r == self.banned().contains(token@),
    {
        let wanted = token.to_owned();
        let mut i: usize = 0;
        while i < self.tokens.len()
            invariant
                i <= self.tokens@.len(),
                wanted@ == token@,
                forall|j: int| 0 <= j < i ==> (#[trigger] self.tokens@[j])@ != token@,
            decreases self.tokens@.len() - i,
        {
            if self.tokens[i] == wanted {
                return true;
            }
            i = i + 1;
        }
        false
    }
}

impl Default for HashsetBannedTokenStore {
    fn default() -> (r: HashsetBannedTokenStore)
        ensures
            r.well_formed(),
            r.banned() == Set::<Seq<char>>::empty(),
    {
        let r = HashsetBannedTokenStore { tokens: Vec::new() };
        assert(r.banned() =~= Set::<Seq<char>>::empty());
        r
    }
}

impl BannedTokenStore for HashsetBannedTokenStore {
    closed spec fn banned(&self) -> Set<Seq<char>> {
        Set::new(|t: Seq<char>| exists|i: int| 0 <= i < self.tokens@.len() && self.tokens@[i]@ == t)
    }

    closed spec fn well_formed(&self) -> bool {
        true
    }

    fn add(&mut self, token: String) -> (r: Result<(), BannedTokenStoreError>) {
        if self.contains(token.as_str()) {
            return Err(BannedTokenStoreError::TokenAlreadyExists);
        }
        let ghost n = old(self).tokens@.len();
        self.tokens.push(token);
        assert(self.banned() =~= old(self).banned().insert(self.tokens@[n as int]@)) by {
            assert forall|t: Seq<char>| #[trigger] old(self).banned().contains(t) implies self.banned().contains(t) by {
                let i = choose|i: int| 0 <= i < old(self).tokens@.len() && old(self).tokens@[i]@ == t;
                assert(self.tokens@[i] == old(self).tokens@[i]);
            }
            assert forall|t: Seq<char>| #[trigger] self.banned().contains(t) && t != self.tokens@[n as int]@ implies old(self).banned().contains(t) by {
                let i = choose|i: int| 0 <= i < self.tokens@.len() && self.tokens@[i]@ == t;
                assert(old(self).tokens@[i] == self.tokens@[i]);
            }
            assert(self.banned().contains(self.tokens@[n as int]@));
        }
        Ok(())
    }

    fn check(&self, token: &str) -> (r: Result<(), BannedTokenStoreError>) {
        if self.contains(token) {
            Err(BannedTokenStoreError::TokenIsBanned)
        } else {
            Ok(())
        }
    }
}

} // verus!
