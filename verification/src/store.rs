//! The in-memory relational store and its well-formedness invariant.
//!
//! Four tables: users, settings, patients, sessions. Identifiers are
//! opaque strings; uniqueness and foreign-key consistency are part of
//! `Db::wf`, which every operation preserves. Patients and sessions are
//! soft-deleted: a `deleted_at` timestamp marks a row inactive without
//! removing it.

use vstd::prelude::*;
use crate::models::{User, Settings, Patient, Session};

verus! {

/// A stored user: the public entity plus its password hash.
pub struct UserRecord {
    pub user: User,
    pub password_hash: String,
}

/// A stored patient: the public entity plus bookkeeping timestamps.
/// `deleted_at == None` means the row is active.
pub struct PatientRecord {
    pub patient: Patient,
    pub updated_at: String,
    pub deleted_at: Option<String>,
}

/// A stored session, with the same soft-delete bookkeeping.
pub struct SessionRecord {
    pub session: Session,
    pub updated_at: String,
    pub deleted_at: Option<String>,
}

/// The whole store.
pub struct Db {
    pub users: Vec<UserRecord>,
    pub settings: Vec<Settings>,
    pub patients: Vec<PatientRecord>,
    pub sessions: Vec<SessionRecord>,
}

impl Db {
    /// Some user row carries this id.
    pub open spec fn has_user_id(self, id: Seq<char>) -> bool {
        exists|i: int| 0 <= i < self.users@.len() && (#[trigger] self.users@[i]).user.id@ == id
    }

    /// Some user row carries this email.
    pub open spec fn has_email(self, email: Seq<char>) -> bool {
        exists|i: int| 0 <= i < self.users@.len() && (#[trigger] self.users@[i]).user.email@ == email
    }

    /// Some settings row carries this id.
    pub open spec fn has_settings_id(self, id: Seq<char>) -> bool {
        exists|i: int| 0 <= i < self.settings@.len() && (#[trigger] self.settings@[i]).id@ == id
    }

    /// Some settings row belongs to this user.
    pub open spec fn has_settings_for(self, user_id: Seq<char>) -> bool {
        exists|i: int| 0 <= i < self.settings@.len() && (#[trigger] self.settings@[i]).user_id@ == user_id
    }

    /// Some patient row (active or soft-deleted) carries this id.
    pub open spec fn has_patient_id(self, id: Seq<char>) -> bool {
        exists|i: int| 0 <= i < self.patients@.len() && (#[trigger] self.patients@[i]).patient.id@ == id
    }

    /// An active (not soft-deleted) patient row carries this id.
    pub open spec fn has_active_patient(self, id: Seq<char>) -> bool {
        exists|i: int| 0 <= i < self.patients@.len() && (#[trigger] self.patients@[i]).patient.id@ == id
            && self.patients@[i].deleted_at is None
    }

    /// An active patient row carries this id and belongs to this user.
    pub open spec fn has_active_patient_of(self, id: Seq<char>, user_id: Seq<char>) -> bool {
        exists|i: int| 0 <= i < self.patients@.len() && (#[trigger] self.patients@[i]).patient.id@ == id
            && self.patients@[i].patient.user_id@ == user_id
            && self.patients@[i].deleted_at is None
    }

    /// Some session row (active or soft-deleted) carries this id.
    pub open spec fn has_session_id(self, id: Seq<char>) -> bool {
        exists|i: int| 0 <= i < self.sessions@.len() && (#[trigger] self.sessions@[i]).session.id@ == id
    }

    /// An active session row carries this id.
    pub open spec fn has_active_session(self, id: Seq<char>) -> bool {
        exists|i: int| 0 <= i < self.sessions@.len() && (#[trigger] self.sessions@[i]).session.id@ == id
            && self.sessions@[i].deleted_at is None
    }

    /// An active session row carries this id and belongs to this user.
    pub open spec fn has_active_session_of(self, id: Seq<char>, user_id: Seq<char>) -> bool {
        exists|i: int| 0 <= i < self.sessions@.len() && (#[trigger] self.sessions@[i]).session.id@ == id
            && self.sessions@[i].session.user_id@ == user_id
            && self.sessions@[i].deleted_at is None
    }

    /// User ids and emails are unique.
    pub open spec fn users_wf(self) -> bool {
        forall|i: int, j: int| 0 <= i < j < self.users@.len() ==> {
            &&& (#[trigger] self.users@[i]).user.id@ != (#[trigger] self.users@[j]).user.id@
            &&& self.users@[i].user.email@ != self.users@[j].user.email@
        }
    }

    /// Settings ids are unique, each user has at most one settings row,
    /// and every settings row references an existing user.
    pub open spec fn settings_wf(self) -> bool {
        &&& forall|i: int, j: int| 0 <= i < j < self.settings@.len() ==> {
            &&& (#[trigger] self.settings@[i]).id@ != (#[trigger] self.settings@[j]).id@
            &&& self.settings@[i].user_id@ != self.settings@[j].user_id@
        }
        &&& forall|i: int| 0 <= i < self.settings@.len()
            ==> self.has_user_id((#[trigger] self.settings@[i]).user_id@)
    }

    /// Patient ids are unique and every patient references an existing user.
    pub open spec fn patients_wf(self) -> bool {
        &&& forall|i: int, j: int| 0 <= i < j < self.patients@.len()
            ==> (#[trigger] self.patients@[i]).patient.id@ != (#[trigger] self.patients@[j]).patient.id@
        &&& forall|i: int| 0 <= i < self.patients@.len()
            ==> self.has_user_id((#[trigger] self.patients@[i]).patient.user_id@)
    }

    /// Session ids are unique and every session references an existing
    /// patient whose owner is exactly the session's user.
    pub open spec fn sessions_wf(self) -> bool {
        &&& forall|i: int, j: int| 0 <= i < j < self.sessions@.len()
            ==> (#[trigger] self.sessions@[i]).session.id@ != (#[trigger] self.sessions@[j]).session.id@
        &&& forall|i: int| 0 <= i < self.sessions@.len() ==> exists|j: int|
            0 <= j < self.patients@.len()
            && (#[trigger] self.patients@[j]).patient.id@ == (#[trigger] self.sessions@[i]).session.patient_id@
            && self.patients@[j].patient.user_id@ == self.sessions@[i].session.user_id@
    }

    /// The store's invariant: uniqueness and referential consistency.
    pub open spec fn wf(self) -> bool {
        &&& self.users_wf()
        &&& self.settings_wf()
        &&& self.patients_wf()
        &&& self.sessions_wf()
    }

    /// An empty, well-formed store.
    pub fn new() -> (r: Db)
        ensures
            r.wf(),
            r.users@.len() == 0,
            r.settings@.len() == 0,
            r.patients@.len() == 0,
            r.sessions@.len() == 0,
    {
        Db { users: Vec::new(), settings: Vec::new(), patients: Vec::new(), sessions: Vec::new() }
    }

    /// Index of the user row carrying `email`, if any.
    pub fn find_user_by_email(&self, email: &String) -> (r: Option<usize>)
        ensures
            match r {
                Some(i) => i < self.users@.len() && self.users@[i as int].user.email@ == email@,
                None => !self.has_email(email@),
            },
    {
        let mut i: usize = 0;
        while i < self.users.len()
            invariant
                i <= self.users@.len(),
                forall|k: int| 0 <= k < i ==> (#[trigger] self.users@[k]).user.email@ != email@,
            decreases self.users@.len() - i,
        {
            if self.users[i].user.email == *email {
                return Some(i);
            }
            i = i + 1;
        }
        None
    }

    /// Whether some user row carries `id`.
    pub fn user_id_exists(&self, id: &String) -> (r: bool)
        ensures
            r == self.has_user_id(id@),
    {
        let mut i: usize = 0;
        while i < self.users.len()
            invariant
                i <= self.users@.len(),
                forall|k: int| 0 <= k < i ==> (#[trigger] self.users@[k]).user.id@ != id@,
            decreases self.users@.len() - i,
        {
            if self.users[i].user.id == *id {
                return true;
            }
            i = i + 1;
        }
        false
    }

    /// Whether some settings row carries `id`.
    pub fn settings_id_exists(&self, id: &String) -> (r: bool)
        ensures
            r == self.has_settings_id(id@),
    {
        let mut i: usize = 0;
        while i < self.settings.len()
            invariant
                i <= self.settings@.len(),
                forall|k: int| 0 <= k < i ==> (#[trigger] self.settings@[k]).id@ != id@,
            decreases self.settings@.len() - i,
        {
            if self.settings[i].id == *id {
                return true;
            }
            i = i + 1;
        }
        false
    }

    /// Index of the settings row of `user_id`, if any.
    pub fn find_settings_for(&self, user_id: &String) -> (r: Option<usize>)
        ensures
            match r {
                Some(i) => i < self.settings@.len() && self.settings@[i as int].user_id@ == user_id@,
                None => !self.has_settings_for(user_id@),
            },
    {
        let mut i: usize = 0;
        while i < self.settings.len()
            invariant
                i <= self.settings@.len(),
                forall|k: int| 0 <= k < i ==> (#[trigger] self.settings@[k]).user_id@ != user_id@,
            decreases self.settings@.len() - i,
        {
            if self.settings[i].user_id == *user_id {
                return Some(i);
            }
            i = i + 1;
        }
        None
    }

    /// Whether some patient row (active or soft-deleted) carries `id`.
    pub fn patient_id_exists(&self, id: &String) -> (r: bool)
        ensures
            r == self.has_patient_id(id@),
    {
        let mut i: usize = 0;
        while i < self.patients.len()
            invariant
                i <= self.patients@.len(),
                forall|k: int| 0 <= k < i ==> (#[trigger] self.patients@[k]).patient.id@ != id@,
            decreases self.patients@.len() - i,
        {
            if self.patients[i].patient.id == *id {
                return true;
            }
            i = i + 1;
        }
        false
    }

    /// Index of the active patient row carrying `id`, if any.
    pub fn find_active_patient(&self, id: &String) -> (r: Option<usize>)
        ensures
            match r {
                Some(i) => i < self.patients@.len() && self.patients@[i as int].patient.id@ == id@
                    && self.patients@[i as int].deleted_at is None,
                None => !self.has_active_patient(id@),
            },
    {
        let mut i: usize = 0;
        while i < self.patients.len()
            invariant
                i <= self.patients@.len(),
                forall|k: int| 0 <= k < i ==> !((#[trigger] self.patients@[k]).patient.id@ == id@
                    && self.patients@[k].deleted_at is None),
            decreases self.patients@.len() - i,
        {
            if self.patients[i].deleted_at.is_none() && self.patients[i].patient.id == *id {
                return Some(i);
            }
            i = i + 1;
        }
        None
    }

    /// Index of the active patient row carrying `id` and owned by
    /// `user_id`, if any.
    pub fn find_active_patient_of(&self, id: &String, user_id: &String) -> (r: Option<usize>)
        ensures
            match r {
                Some(i) => i < self.patients@.len() && self.patients@[i as int].patient.id@ == id@
                    && self.patients@[i as int].patient.user_id@ == user_id@
                    && self.patients@[i as int].deleted_at is None,
                None => !self.has_active_patient_of(id@, user_id@),
            },
    {
        let mut i: usize = 0;
        while i < self.patients.len()
            invariant
                i <= self.patients@.len(),
                forall|k: int| 0 <= k < i ==> !((#[trigger] self.patients@[k]).patient.id@ == id@
                    && self.patients@[k].patient.user_id@ == user_id@
                    && self.patients@[k].deleted_at is None),
            decreases self.patients@.len() - i,
        {
            if self.patients[i].deleted_at.is_none() && self.patients[i].patient.id == *id
                && self.patients[i].patient.user_id == *user_id {
                return Some(i);
            }
            i = i + 1;
        }
        None
    }

    /// Whether some session row (active or soft-deleted) carries `id`.
    pub fn session_id_exists(&self, id: &String) -> (r: bool)
        ensures
            r == self.has_session_id(id@),
    {
        let mut i: usize = 0;
        while i < self.sessions.len()
            invariant
                i <= self.sessions@.len(),
                forall|k: int| 0 <= k < i ==> (#[trigger] self.sessions@[k]).session.id@ != id@,
            decreases self.sessions@.len() - i,
        {
            if self.sessions[i].session.id == *id {
                return true;
            }
            i = i + 1;
        }
        false
    }

    /// Index of the active session row carrying `id`, if any.
    pub fn find_active_session(&self, id: &String) -> (r: Option<usize>)
        ensures
            match r {
                Some(i) => i < self.sessions@.len() && self.sessions@[i as int].session.id@ == id@
                    && self.sessions@[i as int].deleted_at is None,
                None => !self.has_active_session(id@),
            },
    {
        let mut i: usize = 0;
        while i < self.sessions.len()
            invariant
                i <= self.sessions@.len(),
                forall|k: int| 0 <= k < i ==> !((#[trigger] self.sessions@[k]).session.id@ == id@
                    && self.sessions@[k].deleted_at is None),
            decreases self.sessions@.len() - i,
        {
            if self.sessions[i].deleted_at.is_none() && self.sessions[i].session.id == *id {
                return Some(i);
            }
            i = i + 1;
        }
        None
    }

    /// Index of the active session row carrying `id` and owned by
    /// `user_id`, if any.
    pub fn find_active_session_of(&self, id: &String, user_id: &String) -> (r: Option<usize>)
        ensures
            match r {
                Some(i) => i < self.sessions@.len() && self.sessions@[i as int].session.id@ == id@
                    && self.sessions@[i as int].session.user_id@ == user_id@
                    && self.sessions@[i as int].deleted_at is None,
                None => !self.has_active_session_of(id@, user_id@),
            },
    {
        let mut i: usize = 0;
        while i < self.sessions.len()
            invariant
                i <= self.sessions@.len(),
                forall|k: int| 0 <= k < i ==> !((#[trigger] self.sessions@[k]).session.id@ == id@
                    && self.sessions@[k].session.user_id@ == user_id@
                    && self.sessions@[k].deleted_at is None),
            decreases self.sessions@.len() - i,
        {
            if self.sessions[i].deleted_at.is_none() && self.sessions[i].session.id == *id
                && self.sessions[i].session.user_id == *user_id {
                return Some(i);
            }
            i = i + 1;
        }
        None
    }

    /// Whether some patient row (active or soft-deleted) carries
    /// `patient_id` and belongs to `user_id`.
    fn patient_owner_matches(&self, patient_id: &String, user_id: &String) -> (r: bool)
        ensures
            r == exists|j: int|
                0 <= j < self.patients@.len()
                    && (#[trigger] self.patients@[j]).patient.id@ == patient_id@
                    && self.patients@[j].patient.user_id@ == user_id@,
    {
        let mut i: usize = 0;
        while i < self.patients.len()
            invariant
                i <= self.patients@.len(),
                forall|k: int| 0 <= k < i ==> !((#[trigger] self.patients@[k]).patient.id@
                    == patient_id@ && self.patients@[k].patient.user_id@ == user_id@),
            decreases self.patients@.len() - i,
        {
            if self.patients[i].patient.id == *patient_id
                && self.patients[i].patient.user_id == *user_id {
                return true;
            }
            i = i + 1;
        }
        false
    }

    /// Decides `users_wf`.
    fn users_consistent(&self) -> (r: bool)
        ensures
            r == self.users_wf(),
    {
        let n = self.users.len();
        let mut i: usize = 0;
        while i < n
            invariant
                n == self.users@.len(),
                i <= n,
                forall|a: int, b: int| 0 <= a < b < n && a < i ==> {
                    &&& (#[trigger] self.users@[a]).user.id@ != (#[trigger] self.users@[b]).user.id@
                    &&& self.users@[a].user.email@ != self.users@[b].user.email@
                },
            decreases n - i,
        {
            let mut j: usize = i + 1;
            while j < n
                invariant
                    n == self.users@.len(),
                    i < n,
                    i + 1 <= j <= n,
                    forall|a: int, b: int| 0 <= a < b < n && a < i ==> {
                        &&& (#[trigger] self.users@[a]).user.id@ != (#[trigger] self.users@[b]).user.id@
                        &&& self.users@[a].user.email@ != self.users@[b].user.email@
                    },
                    forall|b: int| i < b < j ==> {
                        &&& (#[trigger] self.users@[b]).user.id@ != self.users@[i as int].user.id@
                        &&& self.users@[b].user.email@ != self.users@[i as int].user.email@
                    },
                decreases n - j,
            {
                if self.users[j].user.id == self.users[i].user.id
                    || self.users[j].user.email == self.users[i].user.email {
                    return false;
                }
                j = j + 1;
            }
            i = i + 1;
        }
        true
    }

    /// Decides `settings_wf`.
    fn settings_consistent(&self) -> (r: bool)
        ensures
            r == self.settings_wf(),
    {
        let n = self.settings.len();
        let mut i: usize = 0;
        while i < n
            invariant
                n == self.settings@.len(),
                i <= n,
                forall|a: int, b: int| 0 <= a < b < n && a < i ==> {
                    &&& (#[trigger] self.settings@[a]).id@ != (#[trigger] self.settings@[b]).id@
                    &&& self.settings@[a].user_id@ != self.settings@[b].user_id@
                },
                forall|a: int| 0 <= a < i ==> self.has_user_id(
                    (#[trigger] self.settings@[a]).user_id@,
                ),
            decreases n - i,
        {
            if !self.user_id_exists(&self.settings[i].user_id) {
                return false;
            }
            let mut j: usize = i + 1;
            while j < n
                invariant
                    n == self.settings@.len(),
                    i < n,
                    i + 1 <= j <= n,
                    forall|a: int, b: int| 0 <= a < b < n && a < i ==> {
                        &&& (#[trigger] self.settings@[a]).id@ != (#[trigger] self.settings@[b]).id@
                        &&& self.settings@[a].user_id@ != self.settings@[b].user_id@
                    },
                    forall|b: int| i < b < j ==> {
                        &&& (#[trigger] self.settings@[b]).id@ != self.settings@[i as int].id@
                        &&& self.settings@[b].user_id@ != self.settings@[i as int].user_id@
                    },
                decreases n - j,
            {
                if self.settings[j].id == self.settings[i].id
                    || self.settings[j].user_id == self.settings[i].user_id {
                    return false;
                }
                j = j + 1;
            }
            i = i + 1;
        }
        true
    }

    /// Decides `patients_wf`.
    fn patients_consistent(&self) -> (r: bool)
        ensures
            r == self.patients_wf(),
    {
        let n = self.patients.len();
        let mut i: usize = 0;
        while i < n
            invariant
                n == self.patients@.len(),
                i <= n,
                forall|a: int, b: int| 0 <= a < b < n && a < i
                    ==> (#[trigger] self.patients@[a]).patient.id@
                        != (#[trigger] self.patients@[b]).patient.id@,
                forall|a: int| 0 <= a < i ==> self.has_user_id(
                    (#[trigger] self.patients@[a]).patient.user_id@,
                ),
            decreases n - i,
        {
            if !self.user_id_exists(&self.patients[i].patient.user_id) {
                return false;
            }
            let mut j: usize = i + 1;
            while j < n
                invariant
                    n == self.patients@.len(),
                    i < n,
                    i + 1 <= j <= n,
                    forall|a: int, b: int| 0 <= a < b < n && a < i
                        ==> (#[trigger] self.patients@[a]).patient.id@
                            != (#[trigger] self.patients@[b]).patient.id@,
                    forall|b: int| i < b < j ==> (#[trigger] self.patients@[b]).patient.id@
                        != self.patients@[i as int].patient.id@,
                decreases n - j,
            {
                if self.patients[j].patient.id == self.patients[i].patient.id {
                    return false;
                }
                j = j + 1;
            }
            i = i + 1;
        }
        true
    }

    /// Decides `sessions_wf`.
    fn sessions_consistent(&self) -> (r: bool)
        ensures
            r == self.sessions_wf(),
    {
        let n = self.sessions.len();
        let mut i: usize = 0;
        while i < n
            invariant
                n == self.sessions@.len(),
                i <= n,
                forall|a: int, b: int| 0 <= a < b < n && a < i
                    ==> (#[trigger] self.sessions@[a]).session.id@
                        != (#[trigger] self.sessions@[b]).session.id@,
                forall|a: int| 0 <= a < i ==> exists|j: int|
                    0 <= j < self.patients@.len()
                        && (#[trigger] self.patients@[j]).patient.id@
                            == (#[trigger] self.sessions@[a]).session.patient_id@
                        && self.patients@[j].patient.user_id@ == self.sessions@[a].session.user_id@,
            decreases n - i,
        {
            if !self.patient_owner_matches(
                &self.sessions[i].session.patient_id,
                &self.sessions[i].session.user_id,
            ) {
                return false;
            }
            let mut j: usize = i + 1;
            while j < n
                invariant
                    n == self.sessions@.len(),
                    i < n,
                    i + 1 <= j <= n,
                    forall|a: int, b: int| 0 <= a < b < n && a < i
                        ==> (#[trigger] self.sessions@[a]).session.id@
                            != (#[trigger] self.sessions@[b]).session.id@,
                    forall|b: int| i < b < j ==> (#[trigger] self.sessions@[b]).session.id@
                        != self.sessions@[i as int].session.id@,
                decreases n - j,
            {
                if self.sessions[j].session.id == self.sessions[i].session.id {
                    return false;
                }
                j = j + 1;
            }
            i = i + 1;
        }
        true
    }

    /// Decides the whole invariant, so that a caller that obtained a
    /// store from elsewhere (a loaded file) can fail fast instead of
    /// calling operations outside their precondition.
    pub fn check_wf(&self) -> (r: bool)
        ensures
            r == self.wf(),
    {
        self.users_consistent() && self.settings_consistent() && self.patients_consistent()
            && self.sessions_consistent()
    }
}

} // verus!
