//! The command gateway: every operation's outcome is wrapped in the
//! uniform `ApiResponse` envelope, with a human-readable message for
//! each failure. Authentication failures always carry one generic
//! message, whatever their cause, so callers cannot probe for accounts.

use vstd::prelude::*;
use crate::models::{User, Settings, Patient, Session, ApiResponse, AppError};
use crate::store::Db;
use crate::credentials::bcrypt_accepts;
use crate::order::lex_lt;
use crate::identity;
use crate::patients;
use crate::sessions;

verus! {

/// The message a failed command reports for each error kind.
pub open spec fn message_view(e: AppError) -> Seq<char> {
    match e {
        AppError::Validation => "invalid input"@,
        AppError::Conflict => "registration failed"@,
        AppError::NotFound => "not found"@,
        AppError::StorageFailure => "storage failure"@,
    }
}

/// Renders the message of an error kind.
pub fn message_of(e: &AppError) -> (r: String)
    ensures
        r@ == message_view(*e),
{
    match e {
        AppError::Validation => "invalid input".to_owned(),
        AppError::Conflict => "registration failed".to_owned(),
        AppError::NotFound => "not found".to_owned(),
        AppError::StorageFailure => "storage failure".to_owned(),
    }
}

/// Wraps an operation's outcome in the uniform envelope: success with
/// the data, or failure with the error's message.
pub fn respond<T>(r: Result<T, AppError>) -> (out: ApiResponse<T>)
    ensures
        out.success == r is Ok,
        r matches Ok(t) ==> out.data == Some(t) && out.error is None,
        r matches Err(e) ==> out.data is None && (out.error matches Some(m) && m@ == message_view(
            e,
        )),
{
    match r {
        Ok(t) => ApiResponse::success(t),
        Err(e) => ApiResponse::error(message_of(&e)),
    }
}

/// The `register` command: validates, registers, wraps. Empty inputs
/// fail with the validation message, a taken email with the conflict
/// message, and nonempty inputs on a fresh email either succeed or
/// report a storage failure — no other outcome exists.
pub fn register_command(db: &mut Db, name: String, email: String, password: String) -> (r:
    ApiResponse<User>)
    requires
        old(db).wf(),
    ensures
        final(db).wf(),
        r.success ==> (r.data matches Some(u) && u.name@ == name@ && u.email@ == email@
            && final(db).has_email(email@)),
        r.success ==> email@.len() > 0 && password@.len() > 0 && !old(db).has_email(email@),
        !r.success ==> *final(db) == *old(db) && r.data is None && r.error is Some,
        email@.len() == 0 || password@.len() == 0 ==> !r.success && (r.error matches Some(m)
            && m@ == message_view(AppError::Validation)),
        email@.len() > 0 && password@.len() > 0 && old(db).has_email(email@) ==> !r.success && (
        r.error matches Some(m) && m@ == message_view(AppError::Conflict)),
        email@.len() > 0 && password@.len() > 0 && !old(db).has_email(email@) ==> (r.success || (
        r.error matches Some(m) && m@ == message_view(AppError::StorageFailure))),
{
    let res = identity::register(db, name, email, password);
    proof {
        if res is Ok {
            assert(db.users@[db.users@.len() - 1].user.email@ == email@);
        }
    }
    respond(res)
}

/// The `login` command: succeeds exactly when a user with that email
/// exists and the password verifies against its stored hash, and then
/// returns that user. Every failure carries the same generic message,
/// whatever its cause.
pub fn login_command(db: &Db, email: String, password: String) -> (r: ApiResponse<User>)
    requires
        db.wf(),
    ensures
        r.success <==> exists|i: int|
            0 <= i < db.users@.len() && (#[trigger] db.users@[i]).user.email@ == email@
                && bcrypt_accepts(password@, db.users@[i].password_hash@),
        r.success ==> (r.data matches Some(u) && exists|i: int|
            0 <= i < db.users@.len() && (#[trigger] db.users@[i]).user == u
                && db.users@[i].user.email@ == email@
                && bcrypt_accepts(password@, db.users@[i].password_hash@)),
        !r.success ==> r.data is None && (r.error matches Some(m) && m@
            == "invalid email or password"@),
{
    match identity::login(db, email, password) {
        Ok(u) => ApiResponse::success(u),
        Err(_) => ApiResponse::error("invalid email or password".to_owned()),
    }
}

/// The `get_settings` command: returns the stored settings row of the
/// user, or the not-found message.
pub fn get_settings_command(db: &Db, user_id: String) -> (r: ApiResponse<Settings>)
    requires
        db.wf(),
    ensures
        r.success <==> db.has_settings_for(user_id@),
        r.success ==> (r.data matches Some(s) && s.user_id@ == user_id@ && exists|i: int|
            0 <= i < db.settings@.len() && (#[trigger] db.settings@[i]) == s),
        !r.success ==> r.data is None && (r.error matches Some(m) && m@ == message_view(
            AppError::NotFound,
        )),
{
    respond(identity::get_settings(db, user_id))
}

/// The `create_patient` command.
pub fn create_patient_command(
    db: &mut Db,
    user_id: String,
    name: String,
    phone: Option<String>,
    email: Option<String>,
) -> (r: ApiResponse<Patient>)
    requires
        old(db).wf(),
    ensures
        final(db).wf(),
        r.success ==> (r.data matches Some(p) && {
            &&& p.user_id@ == user_id@
            &&& p.name@ == name@
            &&& p.phone == phone
            &&& p.email == email
            &&& p.cpf is None
            &&& p.address is None
            &&& final(db).patients@ == old(db).patients@.push(final(db).patients@.last())
            &&& final(db).patients@.last().patient == p
            &&& final(db).patients@.last().deleted_at is None
            &&& final(db).has_active_patient_of(p.id@, user_id@)
        }),
        !r.success ==> *final(db) == *old(db) && r.data is None && r.error is Some,
        !old(db).has_user_id(user_id@) ==> !r.success && (r.error matches Some(m) && m@
            == message_view(AppError::NotFound)),
{
    let res = patients::create_patient(db, user_id, name, phone, email);
    proof {
        if res is Ok {
            assert(db.patients@[db.patients@.len() - 1].patient == res->Ok_0);
        }
    }
    respond(res)
}

/// The `list_patients` command: never fails.
pub fn list_patients_command(db: &Db, user_id: String) -> (r: ApiResponse<Vec<Patient>>)
    requires
        db.wf(),
    ensures
        r.success,
        r.data matches Some(v) && v@.to_multiset() == patients::active_patients_of(
            db.patients@,
            user_id@,
        ) && patients::patients_sorted(v@),
{
    ApiResponse::success(patients::list_patients(db, user_id))
}

/// The `update_patient` command: full replace, scoped by owner.
pub fn update_patient_command(
    db: &mut Db,
    id: String,
    user_id: String,
    name: String,
    phone: Option<String>,
    email: Option<String>,
) -> (r: ApiResponse<()>)
    requires
        old(db).wf(),
    ensures
        final(db).wf(),
        r.success <==> old(db).has_active_patient_of(id@, user_id@),
        r.success ==> exists|j: int| {
            &&& 0 <= j < old(db).patients@.len()
            &&& (#[trigger] old(db).patients@[j]).patient.id@ == id@
            &&& old(db).patients@[j].patient.user_id@ == user_id@
            &&& old(db).patients@[j].deleted_at is None
            &&& final(db).patients@ == old(db).patients@.update(j, final(db).patients@[j])
            &&& final(db).patients@[j].patient.name@ == name@
            &&& final(db).patients@[j].patient.phone == phone
            &&& final(db).patients@[j].patient.email == email
        },
        !r.success ==> *final(db) == *old(db) && (r.error matches Some(m) && m@ == message_view(
            AppError::NotFound,
        )),
{
    respond(patients::update_patient(db, id, user_id, name, phone, email))
}

/// The `delete_patient` command: soft-delete, scoped by owner.
pub fn delete_patient_command(db: &mut Db, id: String, user_id: String) -> (r: ApiResponse<()>)
    requires
        old(db).wf(),
    ensures
        final(db).wf(),
        r.success <==> old(db).has_active_patient_of(id@, user_id@),
        r.success ==> !final(db).has_active_patient_of(id@, user_id@),
        !r.success ==> *final(db) == *old(db) && (r.error matches Some(m) && m@ == message_view(
            AppError::NotFound,
        )),
        final(db).sessions@ == old(db).sessions@,
{
    let ghost pre = *db;
    let res = patients::delete_patient(db, id.clone(), user_id.clone());
    proof {
        if res is Ok {
            let j = choose|j: int| {
                &&& 0 <= j < pre.patients@.len()
                &&& (#[trigger] pre.patients@[j]).patient.id@ == id@
                &&& pre.patients@[j].patient.user_id@ == user_id@
                &&& pre.patients@[j].deleted_at is None
                &&& db.patients@ == pre.patients@.update(j, db.patients@[j])
                &&& db.patients@[j].patient == pre.patients@[j].patient
                &&& db.patients@[j].deleted_at is Some
            };
            assert forall|k: int| 0 <= k < db.patients@.len()
                implies !((#[trigger] db.patients@[k]).patient.id@ == id@
                    && db.patients@[k].patient.user_id@ == user_id@
                    && db.patients@[k].deleted_at is None) by {
                if k != j {
                    assert(db.patients@[k] == pre.patients@[k]);
                    if db.patients@[k].patient.id@ == id@ {
                        assert(pre.patients@[k].patient.id@ == pre.patients@[j].patient.id@);
                    }
                }
            }
        }
    }
    respond(res)
}

/// The `create_session` command. An absent `value` defaults to 0 cents
/// and an absent `status` to "scheduled"; the returned session and the
/// stored row carry exactly those defaults.
pub fn create_session_command(
    db: &mut Db,
    user_id: String,
    patient_id: String,
    start_time: String,
    end_time: String,
    notes: Option<String>,
    value: Option<i64>,
    status: Option<String>,
) -> (r: ApiResponse<Session>)
    requires
        old(db).wf(),
    ensures
        final(db).wf(),
        r.success ==> (r.data matches Some(s) && {
            &&& s.user_id@ == user_id@
            &&& s.patient_id@ == patient_id@
            &&& s.start_time@ == start_time@
            &&& s.end_time@ == end_time@
            &&& s.notes == notes
            &&& (value matches Some(v) ==> s.value == v)
            &&& (value is None ==> s.value == 0)
            &&& (status matches Some(st) ==> s.status@ == st@)
            &&& (status is None ==> s.status@ == "scheduled"@)
            &&& final(db).sessions@ == old(db).sessions@.push(final(db).sessions@.last())
            &&& final(db).sessions@.last().session == s
            &&& final(db).sessions@.last().deleted_at is None
        }),
        !r.success ==> *final(db) == *old(db) && r.data is None && r.error is Some,
        lex_lt(start_time@, end_time@) && !old(db).has_active_patient_of(patient_id@, user_id@)
            ==> !r.success && (r.error matches Some(m) && m@ == message_view(AppError::NotFound)),
        !lex_lt(start_time@, end_time@) ==> !r.success && (r.error matches Some(m) && m@
            == message_view(AppError::Validation)),
{
    let value_v: i64 = match value {
        Some(v) => v,
        None => 0,
    };
    let status_v: String = match status {
        Some(s) => s,
        None => "scheduled".to_owned(),
    };
    respond(
        sessions::create_session(
            db,
            user_id,
            patient_id,
            start_time,
            end_time,
            notes,
            value_v,
            status_v,
        ),
    )
}

/// The `list_sessions_by_patient` command: never fails.
pub fn list_sessions_by_patient_command(db: &Db, patient_id: String) -> (r: ApiResponse<
    Vec<Session>,
>)
    requires
        db.wf(),
    ensures
        r.success,
        r.data matches Some(v) && v@.to_multiset() == sessions::active_sessions_of(
            db.sessions@,
            patient_id@,
        ) && sessions::sessions_sorted(v@),
{
    ApiResponse::success(sessions::list_sessions_by_patient(db, patient_id))
}

/// The `update_session` command: full replace, with the same defaults
/// as `create_session` for an absent `value` or `status`.
pub fn update_session_command(
    db: &mut Db,
    id: String,
    start_time: String,
    end_time: String,
    notes: Option<String>,
    value: Option<i64>,
    status: Option<String>,
) -> (r: ApiResponse<()>)
    requires
        old(db).wf(),
    ensures
        final(db).wf(),
        r.success <==> (lex_lt(start_time@, end_time@) && old(db).has_active_session(id@)),
        r.success ==> exists|j: int| {
            &&& 0 <= j < old(db).sessions@.len()
            &&& (#[trigger] old(db).sessions@[j]).session.id@ == id@
            &&& old(db).sessions@[j].deleted_at is None
            &&& final(db).sessions@ == old(db).sessions@.update(j, final(db).sessions@[j])
            &&& final(db).sessions@[j].session.start_time@ == start_time@
            &&& final(db).sessions@[j].session.end_time@ == end_time@
            &&& final(db).sessions@[j].session.notes == notes
            &&& (value matches Some(v) ==> final(db).sessions@[j].session.value == v)
            &&& (value is None ==> final(db).sessions@[j].session.value == 0)
            &&& (status matches Some(st) ==> final(db).sessions@[j].session.status@ == st@)
            &&& (status is None ==> final(db).sessions@[j].session.status@ == "scheduled"@)
        },
        !r.success ==> *final(db) == *old(db) && r.error is Some,
{
    let value_v: i64 = match value {
        Some(v) => v,
        None => 0,
    };
    let status_v: String = match status {
        Some(s) => s,
        None => "scheduled".to_owned(),
    };
    respond(sessions::update_session(db, id, start_time, end_time, notes, value_v, status_v))
}

/// The `delete_session` command: soft-delete, scoped by owner.
pub fn delete_session_command(db: &mut Db, id: String, user_id: String) -> (r: ApiResponse<()>)
    requires
        old(db).wf(),
    ensures
        final(db).wf(),
        r.success <==> old(db).has_active_session_of(id@, user_id@),
        r.success ==> !final(db).has_active_session_of(id@, user_id@),
        !r.success ==> *final(db) == *old(db) && (r.error matches Some(m) && m@ == message_view(
            AppError::NotFound,
        )),
        final(db).patients@ == old(db).patients@,
{
    let ghost pre = *db;
    let res = sessions::delete_session(db, id.clone(), user_id.clone());
    proof {
        if res is Ok {
            let j = choose|j: int| {
                &&& 0 <= j < pre.sessions@.len()
                &&& (#[trigger] pre.sessions@[j]).session.id@ == id@
                &&& pre.sessions@[j].session.user_id@ == user_id@
                &&& pre.sessions@[j].deleted_at is None
                &&& db.sessions@ == pre.sessions@.update(j, db.sessions@[j])
                &&& db.sessions@[j].session == pre.sessions@[j].session
                &&& db.sessions@[j].deleted_at is Some
            };
            assert forall|k: int| 0 <= k < db.sessions@.len()
                implies !((#[trigger] db.sessions@[k]).session.id@ == id@
                    && db.sessions@[k].session.user_id@ == user_id@
                    && db.sessions@[k].deleted_at is None) by {
                if k != j {
                    assert(db.sessions@[k] == pre.sessions@[k]);
                    if db.sessions@[k].session.id@ == id@ {
                        assert(pre.sessions@[k].session.id@ == pre.sessions@[j].session.id@);
                    }
                }
            }
        }
    }
    respond(res)
}

} // verus!
