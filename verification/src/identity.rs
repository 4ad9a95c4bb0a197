//! User accounts: registration, login and per-user settings.
//!
//! Registration is atomic: the user row and its default settings row are
//! both inserted, or neither is. Login answers the same `NotFound` error
//! for an unknown email, a wrong password and a malformed stored hash,
//! so callers cannot tell the cases apart.

use vstd::prelude::*;
use crate::models::{User, Settings, AppError, settings_has_defaults};
use crate::store::{Db, UserRecord};
use crate::credentials::{bcrypt_accepts, hash_password};
use crate::credentials::verify_password;
use crate::host::new_id;

verus! {

/// Registers a user from already-generated identifiers and an
/// already-computed password hash. This is the deterministic core of
/// `register`: its outcome is pinned for every input.
///
/// On success the new user row and a settings row with the documented
/// defaults are appended; nothing else changes. `Conflict` is answered
/// exactly when the email is already registered, `StorageFailure`
/// exactly when a supplied identifier is already in use.
pub fn register_with_ids(
    db: &mut Db,
    name: String,
    email: String,
    password_hash: String,
    user_id: String,
    settings_id: String,
) -> (r: Result<User, AppError>)
    requires
        old(db).wf(),
        email@.len() > 0,
    ensures
        final(db).wf(),
        old(db).has_email(email@) ==> r == Err::<User, AppError>(AppError::Conflict) && *final(db) == *old(db),
        !old(db).has_email(email@)
            && (old(db).has_user_id(user_id@) || old(db).has_settings_id(settings_id@)
                || user_id@ == settings_id@)
            ==> r == Err::<User, AppError>(AppError::StorageFailure) && *final(db) == *old(db),
        !old(db).has_email(email@) && !old(db).has_user_id(user_id@)
            && !old(db).has_settings_id(settings_id@) && user_id@ != settings_id@
            ==> (r matches Ok(u) && {
                &&& u.id@ == user_id@
                &&& u.name@ == name@
                &&& u.email@ == email@
                &&& final(db).users@.len() == old(db).users@.len() + 1
                &&& final(db).users@ == old(db).users@.push(final(db).users@.last())
                &&& final(db).users@.last().user == u
                &&& final(db).users@.last().password_hash@ == password_hash@
                &&& final(db).settings@.len() == old(db).settings@.len() + 1
                &&& final(db).settings@ == old(db).settings@.push(final(db).settings@.last())
                &&& final(db).settings@.last().id@ == settings_id@
                &&& final(db).settings@.last().user_id@ == user_id@
                &&& settings_has_defaults(final(db).settings@.last())
            }),
        final(db).patients@ == old(db).patients@,
        final(db).sessions@ == old(db).sessions@,
{
    if db.find_user_by_email(&email).is_some() {
        return Err(AppError::Conflict);
    }
    if db.user_id_exists(&user_id) || db.settings_id_exists(&settings_id) {
        return Err(AppError::StorageFailure);
    }
    if user_id == settings_id {
        return Err(AppError::StorageFailure);
    }
    let user = User { id: user_id.clone(), name, email };
    let record = UserRecord { user: user.clone(), password_hash };
    let settings = Settings {
        id: settings_id,
        user_id,
        theme: "light".to_owned(),
        currency: "BRL".to_owned(),
        notifications_enabled: true,
        session_duration: 50,
        default_session_value: 0,
    };
    let ghost pre = *db;
    db.users.push(record);
    db.settings.push(settings);
    proof {
        assert(db.users@.last().user == user);
        assert forall|i: int| 0 <= i < db.settings@.len()
            implies db.has_user_id((#[trigger] db.settings@[i]).user_id@) by {
            if i < pre.settings@.len() {
                assert(pre.has_user_id(pre.settings@[i].user_id@));
                let j = choose|j: int| 0 <= j < pre.users@.len()
                    && (#[trigger] pre.users@[j]).user.id@ == pre.settings@[i].user_id@;
                assert(db.users@[j].user.id@ == db.settings@[i].user_id@);
            } else {
                assert(db.users@[db.users@.len() - 1].user.id@ == db.settings@[i].user_id@);
            }
        }
        assert forall|i: int| 0 <= i < db.patients@.len()
            implies db.has_user_id((#[trigger] db.patients@[i]).patient.user_id@) by {
            assert(pre.has_user_id(pre.patients@[i].patient.user_id@));
            let j = choose|j: int| 0 <= j < pre.users@.len()
                && (#[trigger] pre.users@[j]).user.id@ == pre.patients@[i].patient.user_id@;
            assert(db.users@[j].user.id@ == db.patients@[i].patient.user_id@);
        }
        assert forall|i: int, j: int| 0 <= i < j < db.settings@.len()
            implies (#[trigger] db.settings@[i]).user_id@ != (#[trigger] db.settings@[j]).user_id@ by {
            if j == db.settings@.len() - 1 && i < pre.settings@.len() {
                assert(pre.has_user_id(pre.settings@[i].user_id@));
                assert(!pre.has_user_id(db.settings@[j].user_id@));
            }
        }
        assert forall|i: int| 0 <= i < db.sessions@.len() implies exists|j: int|
            0 <= j < db.patients@.len()
            && (#[trigger] db.patients@[j]).patient.id@ == (#[trigger] db.sessions@[i]).session.patient_id@
            && db.patients@[j].patient.user_id@ == db.sessions@[i].session.user_id@ by {
            let j = choose|j: int| 0 <= j < pre.patients@.len()
                && (#[trigger] pre.patients@[j]).patient.id@ == pre.sessions@[i].session.patient_id@
                && pre.patients@[j].patient.user_id@ == pre.sessions@[i].session.user_id@;
            assert(db.patients@[j].patient.id@ == db.sessions@[i].session.patient_id@);
        }
    }
    Ok(user)
}

/// Registers a new user with a fresh identifier and a hashed password.
///
/// Empty email or password is rejected with `Validation` before any
/// other work. The identifiers and the salt are drawn from the host, so
/// success additionally needs the drawn identifiers to be fresh (a
/// collision answers `StorageFailure`); everything else is exactly
/// `register_with_ids`.
pub fn register(db: &mut Db, name: String, email: String, password: String) -> (r: Result<
    User,
    AppError,
>)
    requires
        old(db).wf(),
    ensures
        final(db).wf(),
        email@.len() == 0 || password@.len() == 0 ==> r == Err::<User, AppError>(
            AppError::Validation,
        ) && *final(db) == *old(db),
        email@.len() > 0 && password@.len() > 0 && old(db).has_email(email@) ==> r == Err::<
            User,
            AppError,
        >(AppError::Conflict) && *final(db) == *old(db),
        r == Err::<User, AppError>(AppError::Validation) <==> (email@.len() == 0 || password@.len()
            == 0),
        r == Err::<User, AppError>(AppError::Conflict) <==> (email@.len() > 0 && password@.len()
            > 0 && old(db).has_email(email@)),
        email@.len() > 0 && password@.len() > 0 && !old(db).has_email(email@) ==> (r is Ok || r
            == Err::<User, AppError>(AppError::StorageFailure)),
        r is Err ==> *final(db) == *old(db),
        r matches Ok(u) ==> {
            &&& email@.len() > 0 && password@.len() > 0
            &&& !old(db).has_email(email@)
            &&& u.name@ == name@
            &&& u.email@ == email@
            &&& final(db).users@ == old(db).users@.push(final(db).users@.last())
            &&& final(db).users@.last().user == u
            &&& bcrypt_accepts(password@, final(db).users@.last().password_hash@)
            &&& final(db).settings@ == old(db).settings@.push(final(db).settings@.last())
            &&& final(db).settings@.last().user_id@ == u.id@
            &&& settings_has_defaults(final(db).settings@.last())
        },
        final(db).patients@ == old(db).patients@,
        final(db).sessions@ == old(db).sessions@,
{
    if email.as_str().is_empty() || password.as_str().is_empty() {
        return Err(AppError::Validation);
    }
    if db.find_user_by_email(&email).is_some() {
        return Err(AppError::Conflict);
    }
    let hashed = match hash_password(password.as_str()) {
        Some(h) => h,
        None => {
            return Err(AppError::StorageFailure);
        },
    };
    let user_id = new_id();
    let settings_id = new_id();
    register_with_ids(db, name, email, hashed, user_id, settings_id)
}

/// Logs a user in by email and password.
///
/// Success returns the stored user (never the hash) exactly when a user
/// with that email exists and the password verifies against its stored
/// hash. Every failure — unknown email, wrong password, malformed
/// stored hash — answers the identical `NotFound` error.
pub fn login(db: &Db, email: String, password: String) -> (r: Result<User, AppError>)
    requires
        db.wf(),
    ensures
        r matches Ok(u) ==> exists|i: int|
            0 <= i < db.users@.len() && (#[trigger] db.users@[i]).user == u
                && db.users@[i].user.email@ == email@
                && bcrypt_accepts(password@, db.users@[i].password_hash@),
        r is Err ==> r == Err::<User, AppError>(AppError::NotFound),
        r is Err ==> forall|i: int|
            0 <= i < db.users@.len() && (#[trigger] db.users@[i]).user.email@ == email@
                ==> !bcrypt_accepts(password@, db.users@[i].password_hash@),
{
    match db.find_user_by_email(&email) {
        Some(i) => {
            let record = &db.users[i];
            if verify_password(password.as_str(), record.password_hash.as_str()) {
                proof {
                    assert(db.users@[i as int].user.email@ == email@);
                }
                Ok(record.user.clone())
            } else {
                proof {
                    assert forall|k: int|
                        0 <= k < db.users@.len() && (#[trigger] db.users@[k]).user.email@ == email@
                            implies !bcrypt_accepts(password@, db.users@[k].password_hash@) by {
                        if k != i {
                            assert(db.users@[k].user.email@ != db.users@[i as int].user.email@);
                        }
                    }
                }
                Err(AppError::NotFound)
            }
        },
        None => Err(AppError::NotFound),
    }
}

/// Returns the settings row of `user_id`, or `NotFound` if the user has
/// none. Rows always carry concrete values (defaults are substituted at
/// creation), so no defaulting is needed on the way out.
pub fn get_settings(db: &Db, user_id: String) -> (r: Result<Settings, AppError>)
    requires
        db.wf(),
    ensures
        r is Ok <==> db.has_settings_for(user_id@),
        r matches Ok(s) ==> exists|i: int|
            0 <= i < db.settings@.len() && (#[trigger] db.settings@[i]) == s && s.user_id@ == user_id@,
        r is Err ==> r == Err::<Settings, AppError>(AppError::NotFound),
{
    match db.find_settings_for(&user_id) {
        Some(i) => {
            let s = db.settings[i].clone();
            proof {
                assert(db.settings@[i as int].user_id@ == user_id@);
            }
            Ok(s)
        },
        None => Err(AppError::NotFound),
    }
}

} // verus!
