//! The store: sole owner of the table of student records.

use crate::error::StoreError;
use crate::ids::{
    fresh_id, id_after, is_first_free, lemma_first_free_is_unique, lemma_fresh_id,
    lemma_taken_run_is_short,
};
use crate::laws::law_create_keeps_emails_unique;
use crate::model::{Gender, Program, Student, StudentData, StudentStatus, Timestamp};
use crate::query::{ids_of, is_listing, selected, views_of, Criterion};
use crate::system::{local_now, random_uuid};
use crate::table::{
    create, delete, email_in_use, emails_unique, empty, enrolled, update_profile, update_status,
    valid, Registry,
};
use std::collections::{HashMap, HashSet};
use vstd::prelude::*;
use vstd::std_specs::iter::IteratorSpec;

verus! {

broadcast use vstd::std_specs::hash::group_hash_axioms;

/// The table of student records, keyed by identifier.
///
/// The collection itself is never handed out: records are read and changed
/// through the operations below only. Beside the records the store keeps
/// every identifier it has given out, so that none is given out twice,
/// not even after its record was deleted.
pub struct StudentDb {
    students: HashMap<u128, StudentData>,
    issued: HashSet<u128>,
}

impl View for StudentDb {
    type V = Registry;

    closed spec fn view(&self) -> Registry {
        Registry {
            records: self.students@.map_values(|r: StudentData| r@),
            issued: self.issued@,
        }
    }
}

impl StudentDb {
    /// Every record is filed under the identifier it carries, which is
    /// one of the finitely many that were given out.
    #[verifier::type_invariant]
    spec fn filed_by_id(self) -> bool {
        &&& self.issued@.finite()
        &&& forall|id: u128|
            self.students@.contains_key(id) ==> (#[trigger] self.students@[id]).student_id == id
                && self.issued@.contains(id)
    }

    /// What the store holds is a valid registry.
    proof fn lemma_valid(self)
        requires
            self.filed_by_id(),
        ensures
            valid(self@),
            self@.records.dom() == self.students@.dom(),
    {
        assert(self@.records.dom() =~= self.students@.dom());
        assert(self.issued.len() == self.issued@.len());
        assert forall|id: u128| self@.records.dom().contains(id) implies self@.issued.contains(
            id,
        ) by {
            assert(self.students@[id].student_id == id);
        }
    }

    /// Moves the records out, leaving none behind, so that they can be
    /// changed and then put back.
    fn take_students(&mut self) -> (students: HashMap<u128, StudentData>)
        ensures
            students == old(self).students,
            final(self).students@ == Map::<u128, StudentData>::empty(),
            final(self).issued == old(self).issued,
    {
        proof {
            use_type_invariant(&*self);
        }
        let mut students = HashMap::new();
        std::mem::swap(&mut students, &mut self.students);
        students
    }

    /// Moves the set of identifiers out of a store that has no records,
    /// leaving an empty set behind.
    fn take_issued(&mut self) -> (issued: HashSet<u128>)
        requires
            old(self).students@ == Map::<u128, StudentData>::empty(),
        ensures
            issued == old(self).issued,
            final(self).issued@ == Set::<u128>::empty(),
            final(self).students == old(self).students,
    {
        let mut issued = HashSet::new();
        std::mem::swap(&mut issued, &mut self.issued);
        issued
    }

    /// A store with no records.
    pub fn new() -> (db: Self)
        ensures
            db@ == empty(),
            valid(db@),
    {
        let db = StudentDb { students: HashMap::new(), issued: HashSet::new() };
        assert(db@.records =~= empty().records);
        db
    }

    /// The number of records in the table.
    pub fn len(&self) -> (n: usize)
        ensures
            n == self@.records.dom().len(),
            valid(self@),
    {
        proof {
            use_type_invariant(self);
            self.lemma_valid();
        }
        self.students.len()
    }

    /// Whether some stored record has this email address.
    pub fn has_email(&self, email: &String) -> (found: bool)
        ensures
            valid(self@),
            found == email_in_use(self@.records, email@),
    {
        proof {
            use_type_invariant(self);
            self.lemma_valid();
        }
        for entry in it: self.students.iter()
            invariant
                valid(self@),
                it.seq() == self.students.iter().remaining(),
                forall|i: int| 0 <= i < it.index() ==> (#[trigger] it.seq()[i]).1.data.email@ != email@,
        {
            let (id, record) = entry;
            if record.data.email == *email {
                assert(self@.records.contains_key(*id) && self@.records[*id].data.email == email@);
                return true;
            }
        }
        assert forall|id: u128| self@.records.contains_key(id) implies (
        #[trigger] self@.records[id]).data.email != email@ by {
            let entry = (&id, &self.students@[id]);
            assert(self.students.iter().remaining().contains(entry));
        }
        false
    }

    /// The first identifier at or after `seed` that the store has never
    /// given out.
    pub fn fresh_id_from(&self, seed: u128) -> (id: u128)
        ensures
            valid(self@),
            id == fresh_id(self@.issued, seed),
            !self@.issued.contains(id),
    {
        proof {
            use_type_invariant(self);
            self.lemma_valid();
        }
        let ghost taken = self@.issued;
        let ghost mut steps: nat = 0;
        let mut id = seed;
        assert(id_after(seed, 0) == seed);
        while self.issued.contains(&id)
            invariant
                taken == self.issued@,
                valid(self@),
                id == id_after(seed, steps),
                steps <= taken.len(),
                forall|m: nat| m < steps ==> taken.contains(#[trigger] id_after(seed, m)),
            decreases taken.len() - steps,
        {
            proof {
                lemma_taken_run_is_short(taken, seed, steps + 1);
                steps = steps + 1;
            }
            id = if id == u128::MAX { 0 } else { id + 1 };
        }
        proof {
            assert(is_first_free(taken, seed, steps));
            lemma_fresh_id(taken, seed);
            lemma_first_free_is_unique(
                taken,
                seed,
                steps,
                choose|n: nat| is_first_free(taken, seed, n),
            );
        }
        id
    }

    /// Creates a record for `student`, with a random identifier seed and
    /// the current local time as its creation time.
    ///
    /// If a stored record already has the student's email address, nothing
    /// is stored and `DuplicateEmail` carries the address back. Otherwise
    /// exactly one record is added, under an identifier that was never
    /// given out before, and returned.
    pub fn create_student(&mut self, student: Student) -> (res: Result<StudentData, StoreError>)
        ensures
            valid(final(self)@),
            exists|seed: u128, at: Timestamp|
                final(self)@ == #[trigger] create(old(self)@, seed, at, student@),
            emails_unique(old(self)@.records) ==> emails_unique(final(self)@.records),
            match res {
                Ok(record) => {
                    &&& !email_in_use(old(self)@.records, student@.email)
                    &&& !old(self)@.issued.contains(record.student_id)
                    &&& record@.data == student@
                    &&& record@.status == StudentStatus::Active
                    &&& final(self)@.records == old(self)@.records.insert(
                        record.student_id,
                        record@,
                    )
                    &&& final(self)@.issued == old(self)@.issued.insert(record.student_id)
                    &&& final(self)@.records.dom().len() == old(self)@.records.dom().len() + 1
                },
                Err(e) => {
                    &&& email_in_use(old(self)@.records, student@.email)
                    &&& e matches StoreError::DuplicateEmail(email) && email@ == student@.email
                    &&& *final(self) == *old(self)
                },
            },
    {
        let seed = random_uuid();
        let now = local_now();
        let res = self.create_student_from(seed, now, student);
        assert(self@ == create(old(self)@, seed, now, student@));
        res
    }

    /// Creates a record for `student` from a given identifier seed and
    /// creation time: what the store holds becomes
    /// [`create`]`(registry, seed, created_at, student)`.
    ///
    /// The record gets the first identifier at or after `seed` that was
    /// never given out, so a seed that was never given out is the
    /// identifier.
    pub fn create_student_from(
        &mut self,
        seed: u128,
        created_at: Timestamp,
        student: Student,
    ) -> (res: Result<StudentData, StoreError>)
        ensures
            valid(final(self)@),
            final(self)@ == create(old(self)@, seed, created_at, student@),
            emails_unique(old(self)@.records) ==> emails_unique(final(self)@.records),
            match res {
                Ok(record) => {
                    &&& !email_in_use(old(self)@.records, student@.email)
                    &&& !old(self)@.issued.contains(record.student_id)
                    &&& record@ == enrolled(fresh_id(old(self)@.issued, seed), student@, created_at)
                    &&& final(self)@.records.dom().len() == old(self)@.records.dom().len() + 1
                },
                Err(e) => {
                    &&& email_in_use(old(self)@.records, student@.email)
                    &&& e matches StoreError::DuplicateEmail(email) && email@ == student@.email
                    &&& *final(self) == *old(self)
                },
            },
    {
        if self.has_email(&student.email) {
            return Err(StoreError::DuplicateEmail(student.email));
        }
        let student_id = self.fresh_id_from(seed);
        let record = StudentData {
            student_id,
            data: student,
            status: StudentStatus::Active,
            created_at,
        };
        let stored = record.clone();
        proof {
            use_type_invariant(&*self);
            self.lemma_valid();
        }
        let mut students = self.take_students();
        let mut issued = self.take_issued();
        students.insert(student_id, stored);
        issued.insert(student_id);
        self.issued = issued;
        self.students = students;
        proof {
            self.lemma_valid();
            let after = create(old(self)@, seed, created_at, student@);
            assert(self@.records =~= after.records);
            assert(self@.issued =~= after.issued);
            if emails_unique(old(self)@.records) {
                law_create_keeps_emails_unique(old(self)@, seed, created_at, student@);
            }
        }
        Ok(record)
    }

    /// Replaces every profile field of the record with identifier
    /// `student_id` by those of `student_data` and returns the record as
    /// it is then. Identifier, status and creation time stay as they were.
    /// The new email address is not compared with those of other records.
    ///
    /// When there is no such record, the table is left as it was and
    /// `NotFound` is returned.
    pub fn update_student(&mut self, student_id: u128, student_data: Student) -> (res: Result<
        StudentData,
        StoreError,
    >)
        ensures
            valid(final(self)@),
            final(self)@ == update_profile(old(self)@, student_id, student_data@),
            match res {
                Ok(record) => old(self)@.records.contains_key(student_id)
                    && record@ == final(self)@.records[student_id],
                Err(e) => !old(self)@.records.contains_key(student_id) && e == StoreError::NotFound
                    && *final(self) == *old(self),
            },
    {
        proof {
            use_type_invariant(&*self);
            self.lemma_valid();
        }
        if !self.students.contains_key(&student_id) {
            return Err(StoreError::NotFound);
        }
        let mut students = self.take_students();
        let res = match students.remove(&student_id) {
            Some(current) => {
                let record = StudentData {
                    student_id: current.student_id,
                    data: student_data,
                    status: current.status,
                    created_at: current.created_at,
                };
                let stored = record.clone();
                students.insert(student_id, stored);
                Ok(record)
            },
            // Not reached: the identifier was found above.
            None => Err(StoreError::NotFound),
        };
        self.students = students;
        proof {
            self.lemma_valid();
            assert(self@.records =~= update_profile(
                old(self)@,
                student_id,
                student_data@,
            ).records);
        }
        res
    }

    /// Sets the status of the record with identifier `student_id` and
    /// returns the record as it is then. Nothing else of it changes, and
    /// any status may follow any other.
    ///
    /// When there is no such record, the table is left as it was and
    /// `NotFound` is returned.
    #[allow(non_snake_case)]
    pub fn update_student_Status(&mut self, student_id: u128, status: StudentStatus) -> (res:
        Result<StudentData, StoreError>)
        ensures
            valid(final(self)@),
            final(self)@ == update_status(old(self)@, student_id, status),
            match res {
                Ok(record) => old(self)@.records.contains_key(student_id)
                    && record@ == final(self)@.records[student_id],
                Err(e) => !old(self)@.records.contains_key(student_id) && e == StoreError::NotFound
                    && *final(self) == *old(self),
            },
    {
        proof {
            use_type_invariant(&*self);
            self.lemma_valid();
        }
        if !self.students.contains_key(&student_id) {
            return Err(StoreError::NotFound);
        }
        let mut students = self.take_students();
        let res = match students.remove(&student_id) {
            Some(current) => {
                let record = StudentData {
                    student_id: current.student_id,
                    data: current.data,
                    status,
                    created_at: current.created_at,
                };
                let stored = record.clone();
                students.insert(student_id, stored);
                Ok(record)
            },
            // Not reached: the identifier was found above.
            None => Err(StoreError::NotFound),
        };
        self.students = students;
        proof {
            self.lemma_valid();
            assert(self@.records =~= update_status(old(self)@, student_id, status).records);
        }
        res
    }

    /// The record with identifier `student_id`, or `NotFound` when there
    /// is none.
    pub fn get_student_by_id(&self, student_id: u128) -> (res: Result<&StudentData, StoreError>)
        ensures
            valid(self@),
            match res {
                Ok(record) => self@.records.contains_key(student_id) && record@
                    == self@.records[student_id],
                Err(e) => !self@.records.contains_key(student_id) && e == StoreError::NotFound,
            },
    {
        proof {
            use_type_invariant(self);
            self.lemma_valid();
        }
        match self.students.get(&student_id) {
            Some(record) => Ok(record),
            None => Err(StoreError::NotFound),
        }
    }

    /// The records that satisfy `criterion`: each of them once, in no
    /// particular order. When none does, the result is empty.
    pub fn select(&self, criterion: Criterion) -> (records: Vec<&StudentData>)
        ensures
            valid(self@),
            is_listing(self@.records, criterion, views_of(records@)),
            records@.len() == selected(self@.records, criterion).len(),
    {
        proof {
            use_type_invariant(self);
            self.lemma_valid();
        }
        let mut records: Vec<&StudentData> = Vec::new();
        // For each record chosen so far, its position in the iteration.
        let ghost mut chosen: Seq<int> = Seq::empty();
        for entry in it: self.students.iter()
            invariant
                self.filed_by_id(),
                it.seq() == self.students.iter().remaining(),
                it.seq().no_duplicates(),
                chosen.len() == records@.len(),
                forall|j: int|
                    0 <= j < chosen.len() ==> 0 <= #[trigger] chosen[j] < it.index()
                        && records@[j] == it.seq()[chosen[j]].1,
                forall|j: int, k: int| 0 <= j < k < chosen.len() ==> chosen[j] < chosen[k],
                forall|i: int|
                    0 <= i < it.index() ==> (criterion.admits((#[trigger] it.seq()[i]).1@)
                        <==> chosen.contains(i)),
        {
            let (_, record) = entry;
            let ghost at = it.index();
            if criterion.accepts(record) {
                records.push(record);
                proof {
                    let before = chosen;
                    chosen = chosen.push(at);
                    assert(chosen[chosen.len() - 1] == at);
                    assert forall|i: int| 0 <= i < it.index() implies (criterion.admits(
                        (#[trigger] it.seq()[i]).1@,
                    ) <==> chosen.contains(i)) by {
                        if i < at && before.contains(i) {
                            let j = choose|j: int| 0 <= j < before.len() && before[j] == i;
                            assert(chosen[j] == i);
                        }
                    }
                }
            }
        }
        proof {
            self.lemma_listing(criterion, records@, self.students.iter().remaining(), chosen);
        }
        records
    }

    /// What the loop of [`StudentDb::select`] has established makes its
    /// result a listing.
    proof fn lemma_listing(
        self,
        criterion: Criterion,
        records: Seq<&StudentData>,
        entries: Seq<(&u128, &StudentData)>,
        chosen: Seq<int>,
    )
        requires
            self.filed_by_id(),
            entries == self.students.iter().remaining(),
            entries.no_duplicates(),
            chosen.len() == records.len(),
            forall|j: int|
                0 <= j < chosen.len() ==> 0 <= #[trigger] chosen[j] < entries.len() && records[j]
                    == entries[chosen[j]].1,
            forall|j: int, k: int| 0 <= j < k < chosen.len() ==> chosen[j] < chosen[k],
            forall|i: int|
                0 <= i < entries.len() ==> (criterion.admits((#[trigger] entries[i]).1@)
                    <==> chosen.contains(i)),
        ensures
            is_listing(self@.records, criterion, views_of(records)),
            records.len() == selected(self@.records, criterion).len(),
    {
        self.lemma_valid();
        let t = self@.records;
        let views = views_of(records);
        let ids = ids_of(views);
        // Each chosen entry is a record of the table, filed under its own identifier.
        assert forall|j: int| 0 <= j < records.len() implies t.contains_key(ids[j])
            && #[trigger] views[j] == t[ids[j]] && criterion.admits(views[j]) && ids[j]
            == *entries[chosen[j]].0 by {
            let e = entries[chosen[j]];
            assert(self.students@.contains_key(*e.0) && self.students@[*e.0] == *e.1);
        }
        assert forall|j: int, k: int| 0 <= j < k < ids.len() implies ids[j] != ids[k] by {
            assert(views[j] == t[ids[j]] && views[k] == t[ids[k]]);
            assert(chosen[j] < chosen[k]);
            assert(entries[chosen[j]] != entries[chosen[k]]);
        }
        assert forall|id: u128| selected(t, criterion).contains(id) implies ids.to_set().contains(
            id,
        ) by {
            let e = (&id, &self.students@[id]);
            assert(entries.contains(e));
            let i = choose|i: int| 0 <= i < entries.len() && entries[i] == e;
            assert(criterion.admits(entries[i].1@));
            assert(chosen.contains(i));
            let j = choose|j: int| 0 <= j < chosen.len() && chosen[j] == i;
            assert(views[j] == t[ids[j]]);
            assert(ids[j] == id);
        }
        assert(ids.to_set() =~= selected(t, criterion));
        ids.unique_seq_to_set();
    }

    /// Every record in the table, in no particular order.
    pub fn get_all_students(&self) -> (records: Vec<&StudentData>)
        ensures
            valid(self@),
            is_listing(self@.records, Criterion::All, views_of(records@)),
            records@.len() == self@.records.dom().len(),
    {
        let records = self.select(Criterion::All);
        assert(selected(self@.records, Criterion::All) =~= self@.records.dom());
        records
    }

    /// The records whose profile names `program`, in no particular order.
    pub fn get_student_by_program(&self, program: Program) -> (records: Vec<&StudentData>)
        ensures
            valid(self@),
            is_listing(self@.records, Criterion::InProgram(program), views_of(records@)),
            records@.len() == selected(self@.records, Criterion::InProgram(program)).len(),
    {
        self.select(Criterion::InProgram(program))
    }

    /// The records whose profile names `gender`, in no particular order.
    pub fn get_student_by_gender(&self, gender: Gender) -> (records: Vec<&StudentData>)
        ensures
            valid(self@),
            is_listing(self@.records, Criterion::OfGender(gender), views_of(records@)),
            records@.len() == selected(self@.records, Criterion::OfGender(gender)).len(),
    {
        self.select(Criterion::OfGender(gender))
    }

    /// The records that have `status`, in no particular order.
    #[allow(non_snake_case)]
    pub fn get_student_Status(&self, status: StudentStatus) -> (records: Vec<&StudentData>)
        ensures
            valid(self@),
            is_listing(self@.records, Criterion::WithStatus(status), views_of(records@)),
            records@.len() == selected(self@.records, Criterion::WithStatus(status)).len(),
    {
        self.select(Criterion::WithStatus(status))
    }

    /// Removes the record with identifier `student_id`. The identifier is
    /// not given to any later record. When there is no such record, the
    /// table is left as it was and `NotFound` is returned.
    pub fn delete_student(&mut self, student_id: u128) -> (res: Result<(), StoreError>)
        ensures
            valid(final(self)@),
            final(self)@ == delete(old(self)@, student_id),
            match res {
                Ok(_) => old(self)@.records.contains_key(student_id),
                Err(e) => !old(self)@.records.contains_key(student_id) && e == StoreError::NotFound
                    && *final(self) == *old(self),
            },
    {
        proof {
            use_type_invariant(&*self);
            self.lemma_valid();
        }
        if self.students.contains_key(&student_id) {
            let mut students = self.take_students();
            students.remove(&student_id);
            self.students = students;
            proof {
                self.lemma_valid();
                assert(self@.records =~= delete(old(self)@, student_id).records);
            }
            Ok(())
        } else {
            Err(StoreError::NotFound)
        }
    }
}

} // verus!
