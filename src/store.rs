use vstd::prelude::*;
use crate::record::{RecordId, RecordModel, TodoRecord, TODO_RESOURCE, copy_record, record_models};

verus! {

/// The key of a stored record (meaningful for well-formed stores, where every
/// record has an identifier).
pub open spec fn key_of(r: RecordModel) -> Seq<char> {
    r.id->Some_0.1
}

/// Every record carries an identifier in the todo resource with a non-empty
/// key, and no two records share a key.
pub open spec fn store_wf(s: Seq<RecordModel>) -> bool {
    &&& forall|i: int|
        0 <= i < s.len() ==> {
            &&& (#[trigger] s[i]).id is Some
            &&& s[i].id->Some_0.0 == TODO_RESOURCE@
            &&& key_of(s[i]).len() > 0
        }
    &&& forall|i: int, j: int|
        0 <= i < s.len() && 0 <= j < s.len() && i != j ==> key_of(#[trigger] s[i]) != key_of(
            #[trigger] s[j],
        )
}

pub open spec fn has_key(s: Seq<RecordModel>, key: Seq<char>) -> bool {
    exists|i: int| 0 <= i < s.len() && key_of(#[trigger] s[i]) == key
}

/// The record that the store keeps when it creates `title` under `key`.
pub open spec fn stored_record(title: Seq<char>, completed: bool, key: Seq<char>) -> RecordModel {
    RecordModel { id: Some((TODO_RESOURCE@, key)), title, completed }
}

/// Why the store refused to create a record.
#[derive(Clone, Copy, Debug, PartialEq, Eq)]
pub enum StoreError {
    /// The key offered for the new record is empty.
    EmptyKey,
    /// A record with the offered key already exists.
    DuplicateKey,
}

impl StoreError {
    /// The message that describes the failure.
    pub open spec fn message_spec(&self) -> Seq<char> {
        match self {
            StoreError::EmptyKey => "record key is empty"@,
            StoreError::DuplicateKey => "record key already exists"@,
        }
    }

    pub fn message(&self) -> (r: String)
        ensures
            r@ == self.message_spec(),
    {
        proof {
            reveal_strlit("record key is empty");
            reveal_strlit("record key already exists");
        }
        match self {
            StoreError::EmptyKey => String::from_str("record key is empty"),
            StoreError::DuplicateKey => String::from_str("record key already exists"),
        }
    }
}

/// The todo resource of a document store, held in memory: records in the
/// order of their creation, each under a unique key.
pub struct TodoStore {
    records: Vec<TodoRecord>,
}

impl TodoStore {
    pub closed spec fn view(&self) -> Seq<RecordModel> {
        record_models(self.records@)
    }

    pub open spec fn wf(&self) -> bool {
        store_wf(self.view())
    }

    pub fn new() -> (s: TodoStore)
        ensures
            s.wf(),
            s.view() == Seq::<RecordModel>::empty(),
    {
        let s = TodoStore { records: Vec::new() };
        assert(s.view() =~= Seq::<RecordModel>::empty());
        s
    }

    /// The index of the record stored under `key`, if there is one.
    fn find_key(&self, key: &String) -> (r: Option<usize>)
        requires
            self.wf(),
        ensures
            r is Some <==> has_key(self.view(), key@),
            r is Some ==> r->Some_0 < self.view().len() && key_of(self.view()[r->Some_0 as int])
                == key@,
    {
        let mut i: usize = 0;
        while i < self.records.len()
            invariant
                i <= self.records@.len(),
                self.view().len() == self.records@.len(),
                self.wf(),
                forall|j: int| 0 <= j < i ==> key_of(#[trigger] self.view()[j]) != key@,
            decreases self.records@.len() - i,
        {
            assert(self.view()[i as int] == self.records@[i as int]@);
            match &self.records[i].id {
                Some(id) => {
                    if id.key == *key {
                        return Some(i);
                    }
                },
                None => {},
            }
            i = i + 1;
        }
        None
    }

    /// All records, in the order in which they were created.
    pub fn select(&self) -> (r: Vec<TodoRecord>)
        ensures
            record_models(r@) == self.view(),
    {
        let mut r: Vec<TodoRecord> = Vec::new();
        let mut i: usize = 0;
        while i < self.records.len()
            invariant
                i <= self.records@.len(),
                r@.len() == i,
                forall|j: int| 0 <= j < i ==> (#[trigger] r@[j])@ == self.records@[j]@,
            decreases self.records@.len() - i,
        {
            r.push(copy_record(&self.records[i]));
            i = i + 1;
        }
        assert(record_models(r@) =~= self.view());
        r
    }

    /// Creates a record with the title and completion of `content` under the
    /// resource name and `key`; the identifier that `content` carries is not
    /// used.
    pub fn create(&mut self, content: TodoRecord, key: String) -> (r: Result<TodoRecord, StoreError>)
        requires
            old(self).wf(),
        ensures
            final(self).wf(),
            key@.len() == 0 ==> r == Err::<TodoRecord, StoreError>(StoreError::EmptyKey),
            key@.len() > 0 && has_key(old(self).view(), key@) ==> r == Err::<
                TodoRecord,
                StoreError,
            >(StoreError::DuplicateKey),
            r is Err ==> final(self).view() == old(self).view(),
            r is Ok <==> key@.len() > 0 && !has_key(old(self).view(), key@),
            r is Ok ==> r->Ok_0@ == stored_record(content.title@, content.completed, key@),
            r is Ok ==> final(self).view() == old(self).view().push(
                stored_record(content.title@, content.completed, key@),
            ),
    {
        if key.as_str().is_empty() {
            return Err(StoreError::EmptyKey);
        }
        if self.find_key(&key).is_some() {
            return Err(StoreError::DuplicateKey);
        }
        let stored = TodoRecord {
            id: Some(RecordId { table: String::from_str(TODO_RESOURCE), key }),
            title: content.title,
            completed: content.completed,
        };
        let echo = copy_record(&stored);
        let ghost before = self.view();
        self.records.push(stored);
        assert(self.view() =~= before.push(echo@));
        proof {
            let s = self.view();
            assert forall|i: int, j: int|
                0 <= i < s.len() && 0 <= j < s.len() && i != j implies key_of(#[trigger] s[i])
                != key_of(#[trigger] s[j]) by {
                if i == s.len() - 1 {
                    assert(key_of(s[j]) == key_of(before[j]));
                } else if j == s.len() - 1 {
                    assert(key_of(s[i]) == key_of(before[i]));
                }
            }
        }
        Ok(echo)
    }

    /// Removes the record stored under `key` and returns it; a key that no
    /// record has changes nothing.
    pub fn delete(&mut self, key: &String) -> (r: Option<TodoRecord>)
        requires
            old(self).wf(),
        ensures
            final(self).wf(),
            r is Some <==> has_key(old(self).view(), key@),
            r is None ==> final(self).view() == old(self).view(),
            r is Some ==> exists|i: int|
                0 <= i < old(self).view().len() && key_of(#[trigger] old(self).view()[i]) == key@
                    && r->Some_0@ == old(self).view()[i] && final(self).view() == old(
                    self,
                ).view().remove(i),
    {
        match self.find_key(key) {
            None => None,
            Some(i) => {
                let ghost before = self.view();
                let removed = self.records.remove(i);
                assert(self.view() =~= before.remove(i as int));
                assert(removed@ == before[i as int]);
                proof {
                    let s = self.view();
                    assert forall|a: int, b: int|
                        0 <= a < s.len() && 0 <= b < s.len() && a != b implies key_of(
                            #[trigger] s[a],
                        ) != key_of(#[trigger] s[b]) by {
                        let a2 = if a < i { a } else { a + 1 };
                        let b2 = if b < i { b } else { b + 1 };
                        assert(s[a] == before[a2]);
                        assert(s[b] == before[b2]);
                    }
                    assert forall|a: int| 0 <= a < s.len() implies (#[trigger] s[a]).id is Some
                        && s[a].id->Some_0.0 == TODO_RESOURCE@ && key_of(s[a]).len() > 0 by {
                        let a2 = if a < i { a } else { a + 1 };
                        assert(s[a] == before[a2]);
                    }
                }
                Some(removed)
            },
        }
    }
}

} // verus!
