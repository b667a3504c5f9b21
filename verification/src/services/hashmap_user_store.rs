use vstd::prelude::*;
use vstd::string::*;
use crate::domain::data_store::{UserStore, UserStoreError};
use crate::domain::user::{User, UserView};

verus! {

/// No two records share an address, and every record went through the
/// validation gates.
pub open spec fn distinct_emails(s: Seq<User>) -> bool {
    forall|i: int, j: int| 0 <= i < j < s.len() ==> s[i].email@ != s[j].email@
}

pub open spec fn all_wf(s: Seq<User>) -> bool {
    forall|i: int| 0 <= i < s.len() ==> (#[trigger] s[i]).wf()
}

/// In-memory user store for tests and development, keyed uniquely by address.
#[derive(Debug)]
pub struct HashmapUserStore {
    users: Vec<User>,
}

/// With distinct addresses, an address picks out at most one record.
proof fn lemma_email_unique(s: Seq<User>, i: int, j: int)
    requires
        distinct_emails(s),
        0 <= i < s.len(),
        0 <= j < s.len(),
        s[i].email@ == s[j].email@,
    ensures
        i == j,
{
}

impl HashmapUserStore {
    pub fn new() -> (r: Self)
        ensures
            r.inv(),
            r.users() == Map::<Seq<char>, UserView>::empty(),
    {
        let r = HashmapUserStore { users: Vec::new() };
        proof {
            assert(r.users() =~= Map::<Seq<char>, UserView>::empty());
        }
        r
    }

    fn find_index(&self, email: &String) -> (r: Option<usize>)
        ensures
            match r {
                Some(i) => i < self.users@.len() && self.users@[i as int].email@ == email@,
                None => forall|j: int| 0 <= j < self.users@.len() ==> self.users@[j].email@
                    != email@,
            },
    {
        let n = self.users.len();
        let mut i: usize = 0;
        while i < n
            invariant
                0 <= i <= n,
                n == self.users@.len(),
                forall|j: int| 0 <= j < i ==> self.users@[j].email@ != email@,
            decreases n - i,
        {
            if self.users[i].email.eq_string(email) {
                return Some(i);
            }
            i = i + 1;
        }
        None
    }

    /// The record at each index is the one its address maps to.
    proof fn lemma_entry(&self, i: int)
        requires
            self.inv(),
            0 <= i < self.users@.len(),
        ensures
            self.users().contains_key(self.users@[i].email@),
            self.users()[self.users@[i].email@] == self.users@[i]@,
    {
        let k = self.users@[i].email@;
        assert(0 <= i < self.users@.len() && self.users@[i].email@ == k);
        let j = choose|j: int| 0 <= j < self.users@.len() && self.users@[j].email@ == k;
        lemma_email_unique(self.users@, i, j);
    }

    /// An address outside every record is outside the map.
    proof fn lemma_absent(&self, k: Seq<char>)
        requires
            forall|j: int| 0 <= j < self.users@.len() ==> self.users@[j].email@ != k,
        ensures
            !self.users().contains_key(k),
    {
    }
}

impl Default for HashmapUserStore {
    fn default() -> (r: Self)
        ensures
            r.inv(),
            r.users() == Map::<Seq<char>, UserView>::empty(),
    {
        HashmapUserStore::new()
    }
}

impl UserStore for HashmapUserStore {
    closed spec fn inv(&self) -> bool {
        distinct_emails(self.users@) && all_wf(self.users@)
    }

    closed spec fn users(&self) -> Map<Seq<char>, UserView> {
        Map::new(
            |k: Seq<char>|
                exists|i: int| 0 <= i < self.users@.len() && self.users@[i].email@ == k,
            |k: Seq<char>|
                {
                    let i = choose|i: int|
                        0 <= i < self.users@.len() && self.users@[i].email@ == k;
                    self.users@[i]@
                },
        )
    }

    fn add_user(&mut self, user: User) -> (r: Result<(), UserStoreError>) {
        let key: String = user.email.as_str().to_owned();
        match self.find_index(&key) {
            Some(i) => {
                proof {
                    self.lemma_entry(i as int);
                }
                Err(UserStoreError::UserAlreadyExists)
            },
            None => {
                proof {
                    self.lemma_absent(user.email@);
                }
                let ghost old_users = self.users@;
                let ghost k_new = user.email@;
                let ghost uv = user@;
                self.users.push(user);
                proof {
                    let new_users = self.users@;
                    let m1 = self.users();
                    let m2 = old(self).users().insert(k_new, uv);
                    assert forall|k: Seq<char>| m1.contains_key(k) implies m2.contains_key(
                        k,
                    ) by {
                        let i = choose|i: int|
                            0 <= i < new_users.len() && new_users[i].email@ == k;
                        if i < old_users.len() {
                            assert(old_users[i].email@ == k);
                        }
                    }
                    assert forall|k: Seq<char>| m2.contains_key(k) implies m1.contains_key(
                        k,
                    ) by {
                        if k == k_new {
                            assert(new_users[new_users.len() - 1].email@ == k);
                        } else {
                            let i = choose|i: int|
                                0 <= i < old_users.len() && old_users[i].email@ == k;
                            assert(new_users[i].email@ == k);
                        }
                    }
                    assert forall|k: Seq<char>|
                        m1.contains_key(k) && m2.contains_key(k) implies m1[k] == m2[k] by {
                        let i = choose|i: int|
                            0 <= i < new_users.len() && new_users[i].email@ == k;
                        if k == k_new {
                            lemma_email_unique(new_users, i, new_users.len() - 1);
                        } else {
                            let j = choose|j: int|
                                0 <= j < old_users.len() && old_users[j].email@ == k;
                            assert(new_users[j].email@ == k);
                            lemma_email_unique(new_users, i, j);
                        }
                    }
                    assert(m1 =~= m2);
                }
                Ok(())
            },
        }
    }

    fn get_user(&self, email: &str) -> (r: Result<User, UserStoreError>) {
        let key: String = email.to_owned();
        match self.find_index(&key) {
            Some(i) => {
                proof {
                    self.lemma_entry(i as int);
                }
                Ok(self.users[i].clone())
            },
            None => {
                proof {
                    self.lemma_absent(email@);
                }
                Err(UserStoreError::UserNotFound)
            },
        }
    }

    fn validate_user(&self, email: &str, password: &str) -> (r: Result<(), UserStoreError>) {
        let key: String = email.to_owned();
        match self.find_index(&key) {
            Some(i) => {
                proof {
                    self.lemma_entry(i as int);
                }
                let candidate: String = password.to_owned();
                if self.users[i].password.eq_string(&candidate) {
                    Ok(())
                } else {
                    Err(UserStoreError::InvalidCredentials)
                }
            },
            None => {
                proof {
                    self.lemma_absent(email@);
                }
                Err(UserStoreError::UserNotFound)
            },
        }
    }
}

} // verus!
