use vstd::prelude::*;
use crate::domain::data_store::{BannedTokenStore, BannedTokenStoreError};

verus! {

/// In-memory banned-token set: enough for short-lived runs, where no
/// time-bounded retention is needed.
#[derive(Debug)]
pub struct HashsetBannedTokenStore {
    tokens: Vec<String>,
}

impl HashsetBannedTokenStore {
    pub fn new() -> (r: Self)
        ensures
            r.inv(),
            r.banned() == Set::<Seq<char>>::empty(),
    {
        let r = HashsetBannedTokenStore { tokens: Vec::new() };
        proof {
            assert(r.banned() =~= Set::<Seq<char>>::empty());
        }
        r
    }

    fn contains_token(&self, token: &String) -> (r: bool)
        ensures
            r == self.banned().contains(token@),
    {
        let n = self.tokens.len();
        let mut i: usize = 0;
        while i < n
            invariant
                0 <= i <= n,
                n == self.tokens@.len(),
                forall|j: int| 0 <= j < i ==> self.tokens@[j]@ != token@,
            decreases n - i,
        {
            if self.tokens[i] == *token {
                proof {
                    assert(self.tokens@[i as int]@ == token@);
                }
                return true;
            }
            i = i + 1;
        }
        false
    }
}

impl BannedTokenStore for HashsetBannedTokenStore {
    closed spec fn inv(&self) -> bool {
        true
    }

    closed spec fn banned(&self) -> Set<Seq<char>> {
        Set::new(
            |t: Seq<char>|
                exists|i: int| 0 <= i < self.tokens@.len() && self.tokens@[i]@ == t,
        )
    }

    fn store_token(&mut self, token: String) -> (r: Result<(), BannedTokenStoreError>) {
        if self.contains_token(&token) {
            Err(BannedTokenStoreError::TokenAlreadyInStore)
        } else {
            let ghost old_toks = self.tokens@;
            self.tokens.push(token);
            proof {
                let new_toks = self.tokens@;
                let target = old(self).banned().insert(new_toks.last()@);
                assert forall|t: Seq<char>| self.banned().contains(t) implies target.contains(
                    t,
                ) by {
                    let i = choose|i: int|
                        0 <= i < new_toks.len() && new_toks[i]@ == t;
                    if i < old_toks.len() {
                        assert(old_toks[i]@ == t);
                    }
                }
                assert forall|t: Seq<char>| target.contains(t) implies self.banned().contains(
                    t,
                ) by {
                    if t == new_toks.last()@ {
                        assert(new_toks[new_toks.len() - 1]@ == t);
                    } else {
                        let i = choose|i: int|
                            0 <= i < old_toks.len() && old_toks[i]@ == t;
                        assert(new_toks[i]@ == t);
                    }
                }
                assert(self.banned() =~= target);
            }
            Ok(())
        }
    }

    fn is_token_banned(&self, token: &str) -> (r: Result<bool, BannedTokenStoreError>) {
        let key: String = token.to_owned();
        Ok(self.contains_token(&key))
    }
}

} // verus!
