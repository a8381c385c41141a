use vstd::prelude::*;
use crate::error::MSG_IDS_EXHAUSTED;
use crate::model::User;

verus! {

/// Whether some record in `users` has email `email`.
pub open spec fn email_taken(users: Seq<User>, email: Seq<char>) -> bool {
    exists|i: int| 0 <= i < users.len() && (#[trigger] users[i]).email@ == email
}

/// Whether some record in `users` has id `id`.
pub open spec fn id_taken(users: Seq<User>, id: i32) -> bool {
    exists|i: int| 0 <= i < users.len() && (#[trigger] users[i]).id == id
}

/// No two records share an email.
pub open spec fn emails_unique(users: Seq<User>) -> bool {
    forall|i: int, j: int|
        0 <= i < users.len() && 0 <= j < users.len() && i != j ==> (#[trigger] users[i]).email@
            != (#[trigger] users[j]).email@
}

/// No two records share an id.
pub open spec fn ids_unique(users: Seq<User>) -> bool {
    forall|i: int, j: int|
        0 <= i < users.len() && 0 <= j < users.len() && i != j ==> (#[trigger] users[i]).id
            != (#[trigger] users[j]).id
}

/// Why the store refused a new record.
#[derive(Debug, Clone)]
pub enum InsertError {
    /// A record with that email exists already.
    DuplicateEmail,
    /// Any other failure, with its diagnostic text.
    Failed(String),
}

/// An in-memory credential store: user records, unique by email and by id,
/// with ids assigned by the store in increasing order.
pub struct UserStore {
    users: Vec<User>,
    next_id: i32,
}

impl UserStore {
    /// The records, in the order they were inserted.
    pub closed spec fn records(&self) -> Seq<User> {
        self.users@
    }

    /// How many more records the store can assign an id to.
    pub closed spec fn free_ids(&self) -> int {
        i32::MAX - self.next_id
    }

    /// Whether the store can still assign an id to a new record.
    pub open spec fn has_free_id(&self) -> bool {
        self.free_ids() > 0
    }

    pub closed spec fn wf(&self) -> bool {
        &&& 1 <= self.next_id
        &&& emails_unique(self.users@)
        &&& ids_unique(self.users@)
        &&& forall|i: int| 0 <= i < self.users@.len() ==> 1 <= (#[trigger] self.users@[i]).id < self.next_id
    }

    /// An empty store.
    pub fn new() -> (r: UserStore)
        ensures
            r.wf(),
            r.records() == Seq::<User>::empty(),
            r.free_ids() == i32::MAX - 1,
    {
        UserStore { users: Vec::new(), next_id: 1 }
    }

    /// Every well-formed store keeps emails and ids unique.
    pub proof fn lemma_unique(&self)
        requires
            self.wf(),
        ensures
            emails_unique(self.records()),
            ids_unique(self.records()),
    {
    }
}

impl UserStore {
    /// The record with email `email`, if there is one.
    pub fn find_by_email(&self, email: &str) -> (r: Option<User>)
        requires
            self.wf(),
        ensures
            r is Some <==> email_taken(self.records(), email@),
            r matches Some(u) ==> self.records().contains(u) && u.email@ == email@,
    {
        let e = email.to_owned();
        let mut i: usize = 0;
        while i < self.users.len()
            invariant
                i <= self.users@.len(),
                e@ == email@,
                forall|j: int| 0 <= j < i ==> (#[trigger] self.users@[j]).email@ != email@,
            decreases self.users@.len() - i,
        {
            if self.users[i].email == e {
                assert(self.users@[i as int].email@ == email@);
                return Some(self.users[i].copy());
            }
            i = i + 1;
        }
        None
    }

    /// The record with id `id`, if there is one.
    pub fn find_by_id(&self, id: i32) -> (r: Option<User>)
        requires
            self.wf(),
        ensures
            r is Some <==> id_taken(self.records(), id),
            r matches Some(u) ==> self.records().contains(u) && u.id == id,
    {
        let mut i: usize = 0;
        while i < self.users.len()
            invariant
                i <= self.users@.len(),
                forall|j: int| 0 <= j < i ==> (#[trigger] self.users@[j]).id != id,
            decreases self.users@.len() - i,
        {
            if self.users[i].id == id {
                assert(self.users@[i as int].id == id);
                return Some(self.users[i].copy());
            }
            i = i + 1;
        }
        None
    }

    /// Adds a record with a fresh id. A record with the same email is refused
    /// as a duplicate, and the store is then left as it was; so is it when
    /// no id is left.
    pub fn insert(&mut self, name: String, username: String, email: String, password: String) -> (r:
        Result<User, InsertError>)
        requires
            old(self).wf(),
        ensures
            final(self).wf(),
            email_taken(old(self).records(), email@) ==> (r matches Err(InsertError::DuplicateEmail)),
            !email_taken(old(self).records(), email@) && old(self).has_free_id() ==> r is Ok,
            !email_taken(old(self).records(), email@) && !old(self).has_free_id() ==> (r matches Err(
                InsertError::Failed(m),
            ) && m@ == MSG_IDS_EXHAUSTED@),
            r matches Ok(u) ==> {
                &&& final(self).records() == old(self).records().push(u)
                &&& !id_taken(old(self).records(), u.id)
                &&& u.name@ == name@
                &&& u.username@ == username@
                &&& u.email@ == email@
                &&& u.password@ == password@
            },
            r is Ok ==> final(self).free_ids() == old(self).free_ids() - 1,
            r is Err ==> final(self).records() == old(self).records() && final(self).free_ids()
                == old(self).free_ids(),
    {
        if let Some(_) = self.find_by_email(email.as_str()) {
            return Err(InsertError::DuplicateEmail);
        }
        if self.next_id == i32::MAX {
            return Err(InsertError::Failed(MSG_IDS_EXHAUSTED.to_owned()));
        }
        let u = User { id: self.next_id, name, username, email, password };
        let ghost before = self.users@;
        assert(!id_taken(before, u.id)) by {
            if id_taken(before, u.id) {
                let i = choose|i: int| 0 <= i < before.len() && (#[trigger] before[i]).id == u.id;
                assert(before[i].id < self.next_id);
            }
        }
        self.users.push(u.copy());
        self.next_id = self.next_id + 1;
        proof {
            let after = self.users@;
            assert(after == before.push(u));
            assert forall|i: int, j: int|
                0 <= i < after.len() && 0 <= j < after.len() && i != j implies (#[trigger] after[i]).email@
                != (#[trigger] after[j]).email@ by {
                if i == before.len() as int {
                    assert(before[j] == after[j]);
                } else if j == before.len() as int {
                    assert(before[i] == after[i]);
                } else {
                    assert(before[i] == after[i] && before[j] == after[j]);
                }
            }
            assert forall|i: int, j: int|
                0 <= i < after.len() && 0 <= j < after.len() && i != j implies (#[trigger] after[i]).id
                != (#[trigger] after[j]).id by {
                if i == before.len() as int {
                    assert(before[j] == after[j]);
                } else if j == before.len() as int {
                    assert(before[i] == after[i]);
                } else {
                    assert(before[i] == after[i] && before[j] == after[j]);
                }
            }
        }
        Ok(u)
    }

    /// Removes the record with id `id`, if there is one; every other record
    /// stays, in its order.
    pub fn delete_by_id(&mut self, id: i32) -> (r: bool)
        requires
            old(self).wf(),
        ensures
            final(self).wf(),
            r == id_taken(old(self).records(), id),
            !id_taken(final(self).records(), id),
            !r ==> final(self).records() == old(self).records(),
            r ==> exists|i: int|
                0 <= i < old(self).records().len() && (#[trigger] old(self).records()[i]).id == id
                    && final(self).records() == old(self).records().remove(i),
            final(self).free_ids() == old(self).free_ids(),
    {
        let mut i: usize = 0;
        while i < self.users.len()
            invariant
                i <= self.users@.len(),
                forall|j: int| 0 <= j < i ==> (#[trigger] self.users@[j]).id != id,
                self.wf(),
                self.users@ == old(self).users@,
                self.next_id == old(self).next_id,
            decreases self.users@.len() - i,
        {
            if self.users[i].id == id {
                let ghost before = self.users@;
                let ghost k = i as int;
                assert(before[k].id == id);
                self.users.remove(i);
                proof {
                    let after = self.users@;
                    assert(after == before.remove(k));
                    assert forall|a: int| 0 <= a < after.len() implies #[trigger] after[a] == before[if a
                        < k {
                        a
                    } else {
                        a + 1
                    }] by {}
                    assert forall|a: int, b: int|
                        0 <= a < after.len() && 0 <= b < after.len() && a != b implies (
                        #[trigger] after[a]).email@ != (#[trigger] after[b]).email@ by {
                        let a2 = if a < k { a } else { a + 1 };
                        let b2 = if b < k { b } else { b + 1 };
                        assert(after[a] == before[a2] && after[b] == before[b2]);
                        assert(before[a2].email@ != before[b2].email@);
                    }
                    assert forall|a: int, b: int|
                        0 <= a < after.len() && 0 <= b < after.len() && a != b implies (
                        #[trigger] after[a]).id != (#[trigger] after[b]).id by {
                        let a2 = if a < k { a } else { a + 1 };
                        let b2 = if b < k { b } else { b + 1 };
                        assert(after[a] == before[a2] && after[b] == before[b2]);
                        assert(before[a2].id != before[b2].id);
                    }
                    assert forall|a: int| 0 <= a < after.len() implies 1 <= (#[trigger] after[a]).id
                        < self.next_id by {
                        let a2 = if a < k { a } else { a + 1 };
                        assert(after[a] == before[a2]);
                    }
                    if id_taken(after, id) {
                        let a = choose|a: int| 0 <= a < after.len() && (#[trigger] after[a]).id == id;
                        let a2 = if a < k { a } else { a + 1 };
                        assert(after[a] == before[a2]);
                    }
                }
                return true;
            }
            i = i + 1;
        }
        false
    }
}

} // verus!
