use vstd::prelude::*;
use crate::domain::data_store::{
    LoginAttemptId, TwoFACode, TwoFACodeStore, TwoFACodeStoreError,
};
use crate::domain::email::Email;

verus! {

/// One pending challenge: the address it was issued for, the login attempt it
/// belongs to, and the code that was sent out-of-band.
#[derive(Debug)]
struct CodeEntry {
    email: Email,
    id: LoginAttemptId,
    code: TwoFACode,
}

spec fn distinct_entry_emails(s: Seq<CodeEntry>) -> bool {
    forall|i: int, j: int| 0 <= i < j < s.len() ==> s[i].email@ != s[j].email@
}

/// In-memory store of pending two-factor challenges, at most one per address.
#[derive(Debug)]
pub struct HashmapTwoFACodeStore {
    entries: Vec<CodeEntry>,
}

/// With distinct addresses, an address picks out at most one entry.
proof fn lemma_entry_email_unique(s: Seq<CodeEntry>, i: int, j: int)
    requires
        distinct_entry_emails(s),
        0 <= i < s.len(),
        0 <= j < s.len(),
        s[i].email@ == s[j].email@,
    ensures
        i == j,
{
}

impl HashmapTwoFACodeStore {
    pub fn new() -> (r: Self)
        ensures
            r.inv(),
            r.codes() == Map::<Seq<char>, (Seq<char>, Seq<char>)>::empty(),
    {
        let r = HashmapTwoFACodeStore { entries: Vec::new() };
        proof {
            assert(r.codes() =~= Map::<Seq<char>, (Seq<char>, Seq<char>)>::empty());
        }
        r
    }

    fn find_index(&self, email: &Email) -> (r: Option<usize>)
        ensures
            match r {
                Some(i) => i < self.entries@.len() && self.entries@[i as int].email@ == email@,
                None => forall|j: int| 0 <= j < self.entries@.len() ==> self.entries@[j].email@
                    != email@,
            },
    {
        let key: String = email.as_str().to_owned();
        let n = self.entries.len();
        let mut i: usize = 0;
        while i < n
            invariant
                0 <= i <= n,
                n == self.entries@.len(),
                key@ == email@,
                forall|j: int| 0 <= j < i ==> self.entries@[j].email@ != email@,
            decreases n - i,
        {
            if self.entries[i].email.eq_string(&key) {
                return Some(i);
            }
            i = i + 1;
        }
        None
    }

    /// The entry at each index is the one its address maps to.
    proof fn lemma_entry(&self, i: int)
        requires
            self.inv(),
            0 <= i < self.entries@.len(),
        ensures
            self.codes().contains_key(self.entries@[i].email@),
            self.codes()[self.entries@[i].email@] == (self.entries@[i].id@, self.entries@[i].code@),
    {
        let k = self.entries@[i].email@;
        assert(0 <= i < self.entries@.len() && self.entries@[i].email@ == k);
        let j = choose|j: int| 0 <= j < self.entries@.len() && self.entries@[j].email@ == k;
        lemma_entry_email_unique(self.entries@, i, j);
    }

    /// An address outside every entry is outside the map.
    proof fn lemma_absent(&self, k: Seq<char>)
        requires
            forall|j: int| 0 <= j < self.entries@.len() ==> self.entries@[j].email@ != k,
        ensures
            !self.codes().contains_key(k),
    {
    }
}

impl Default for HashmapTwoFACodeStore {
    fn default() -> (r: Self)
        ensures
            r.inv(),
            r.codes() == Map::<Seq<char>, (Seq<char>, Seq<char>)>::empty(),
    {
        HashmapTwoFACodeStore::new()
    }
}

impl TwoFACodeStore for HashmapTwoFACodeStore {
    closed spec fn inv(&self) -> bool {
        distinct_entry_emails(self.entries@)
    }

    closed spec fn codes(&self) -> Map<Seq<char>, (Seq<char>, Seq<char>)> {
        Map::new(
            |k: Seq<char>|
                exists|i: int| 0 <= i < self.entries@.len() && self.entries@[i].email@ == k,
            |k: Seq<char>|
                {
                    let i = choose|i: int|
                        0 <= i < self.entries@.len() && self.entries@[i].email@ == k;
                    (self.entries@[i].id@, self.entries@[i].code@)
                },
        )
    }

    fn add_code(&mut self, email: Email, login_attempt_id: LoginAttemptId, code: TwoFACode) -> (r:
        Result<(), TwoFACodeStoreError>) {
        match self.find_index(&email) {
            Some(i) => {
                proof {
                    self.lemma_entry(i as int);
                }
                Err(TwoFACodeStoreError::UnexpectedError)
            },
            None => {
                proof {
                    self.lemma_absent(email@);
                }
                let ghost old_entries = self.entries@;
                let ghost k_new = email@;
                let ghost v_new = (login_attempt_id@, code@);
                self.entries.push(CodeEntry { email, id: login_attempt_id, code });
                proof {
                    let new_entries = self.entries@;
                    let m1 = self.codes();
                    let m2 = old(self).codes().insert(k_new, v_new);
                    assert forall|k: Seq<char>| m1.contains_key(k) implies m2.contains_key(
                        k,
                    ) by {
                        let i = choose|i: int|
                            0 <= i < new_entries.len() && new_entries[i].email@ == k;
                        if i < old_entries.len() {
                            assert(old_entries[i].email@ == k);
                        }
                    }
                    assert forall|k: Seq<char>| m2.contains_key(k) implies m1.contains_key(
                        k,
                    ) by {
                        if k == k_new {
                            assert(new_entries[new_entries.len() - 1].email@ == k);
                        } else {
                            let i = choose|i: int|
                                0 <= i < old_entries.len() && old_entries[i].email@ == k;
                            assert(new_entries[i].email@ == k);
                        }
                    }
                    assert forall|k: Seq<char>|
                        m1.contains_key(k) && m2.contains_key(k) implies m1[k] == m2[k] by {
                        let i = choose|i: int|
                            0 <= i < new_entries.len() && new_entries[i].email@ == k;
                        if k == k_new {
                            lemma_entry_email_unique(new_entries, i, new_entries.len() - 1);
                        } else {
                            let j = choose|j: int|
                                0 <= j < old_entries.len() && old_entries[j].email@ == k;
                            assert(new_entries[j].email@ == k);
                            lemma_entry_email_unique(new_entries, i, j);
                        }
                    }
                    assert(m1 =~= m2);
                }
                Ok(())
            },
        }
    }

    fn remove_code(&mut self, email: &Email) -> (r: Result<(), TwoFACodeStoreError>) {
        match self.find_index(email) {
            None => {
                proof {
                    self.lemma_absent(email@);
                }
                Err(TwoFACodeStoreError::UnexpectedError)
            },
            Some(i) => {
                proof {
                    self.lemma_entry(i as int);
                }
                let ghost old_entries = self.entries@;
                let ghost k_gone = email@;
                self.entries.remove(i);
                proof {
                    let new_entries = self.entries@;
                    assert(new_entries == old_entries.remove(i as int));
                    assert forall|j: int| 0 <= j < new_entries.len() implies new_entries[j]
                        == (if j < i {
                        old_entries[j]
                    } else {
                        old_entries[j + 1]
                    }) by {
                        if j < i {
                            assert(new_entries[j] == old_entries.subrange(0, i as int)[j]);
                        } else {
                            assert(new_entries[j] == old_entries.subrange(
                                i as int + 1,
                                old_entries.len() as int,
                            )[j - i]);
                        }
                    }
                    assert(distinct_entry_emails(new_entries)) by {
                        assert forall|a: int, b: int|
                            0 <= a < b < new_entries.len() implies new_entries[a].email@
                            != new_entries[b].email@ by {
                            let a0 = if a < i { a } else { a + 1 };
                            let b0 = if b < i { b } else { b + 1 };
                            assert(new_entries[a] == old_entries[a0]);
                            assert(new_entries[b] == old_entries[b0]);
                        }
                    }
                    let m1 = self.codes();
                    let m2 = old(self).codes().remove(k_gone);
                    assert forall|k: Seq<char>| m1.contains_key(k) implies m2.contains_key(
                        k,
                    ) by {
                        let j = choose|j: int|
                            0 <= j < new_entries.len() && new_entries[j].email@ == k;
                        let j0 = if j < i { j } else { j + 1 };
                        assert(old_entries[j0].email@ == k);
                        if k == k_gone {
                            lemma_entry_email_unique(old_entries, j0, i as int);
                        }
                    }
                    assert forall|k: Seq<char>| m2.contains_key(k) implies m1.contains_key(
                        k,
                    ) by {
                        let j0 = choose|j0: int|
                            0 <= j0 < old_entries.len() && old_entries[j0].email@ == k;
                        lemma_entry_email_unique(old_entries, j0, j0);
                        if j0 != i {
                            let j = if j0 < i {
                                j0
                            } else {
                                j0 - 1
                            };
                            assert(new_entries[j] == old_entries[j0]);
                            assert(new_entries[j].email@ == k);
                        } else {
                            assert(k == k_gone);
                        }
                    }
                    assert forall|k: Seq<char>|
                        m1.contains_key(k) && m2.contains_key(k) implies m1[k] == m2[k] by {
                        let j = choose|j: int|
                            0 <= j < new_entries.len() && new_entries[j].email@ == k;
                        let j0 = if j < i { j } else { j + 1 };
                        assert(new_entries[j] == old_entries[j0]);
                        let j1 = choose|j1: int|
                            0 <= j1 < old_entries.len() && old_entries[j1].email@ == k;
                        lemma_entry_email_unique(old_entries, j0, j1);
                    }
                    assert(m1 =~= m2);
                }
                Ok(())
            },
        }
    }

    fn get_code(&self, email: &Email) -> (r: Result<
        (LoginAttemptId, TwoFACode),
        TwoFACodeStoreError,
    >) {
        match self.find_index(email) {
            Some(i) => {
                proof {
                    self.lemma_entry(i as int);
                }
                Ok((self.entries[i].id.clone(), self.entries[i].code.clone()))
            },
            None => {
                proof {
                    self.lemma_absent(email@);
                }
                Err(TwoFACodeStoreError::LoginAttemptIdNotFound)
            },
        }
    }
}

} // verus!
