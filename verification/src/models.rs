//! Entity types, the error taxonomy and the uniform response envelope.
//!
//! Monetary amounts (`Settings::default_session_value`, `Session::value`)
//! are held as whole cents (centavos) so that they stay exact integers.

use vstd::prelude::*;

verus! {

/// An account holder. The password hash is never part of this type;
/// it lives only in the store's `UserRecord`.
pub struct User {
    pub id: String,
    pub name: String,
    pub email: String,
}

impl Clone for User {
    fn clone(&self) -> (r: Self)
        ensures
            r == *self,
    {
        User { id: self.id.clone(), name: self.name.clone(), email: self.email.clone() }
    }
}

/// Per-user preferences. Exactly one row exists per registered user.
pub struct Settings {
    pub id: String,
    pub user_id: String,
    pub theme: String,
    pub currency: String,
    pub notifications_enabled: bool,
    pub session_duration: i32,
    /// Default monetary value of a new session, in cents.
    pub default_session_value: i64,
}

impl Clone for Settings {
    fn clone(&self) -> (r: Self)
        ensures
            r == *self,
    {
        Settings {
            id: self.id.clone(),
            user_id: self.user_id.clone(),
            theme: self.theme.clone(),
            currency: self.currency.clone(),
            notifications_enabled: self.notifications_enabled,
            session_duration: self.session_duration,
            default_session_value: self.default_session_value,
        }
    }
}

/// The defaults that a freshly created `Settings` row carries.
pub open spec fn settings_has_defaults(s: Settings) -> bool {
    &&& s.theme@ == "light"@
    &&& s.currency@ == "BRL"@
    &&& s.notifications_enabled == true
    &&& s.session_duration == 50
    &&& s.default_session_value == 0
}

/// A patient record as handed to callers. Soft-deletion state is kept
/// in the store's `PatientRecord`, not here.
pub struct Patient {
    pub id: String,
    pub user_id: String,
    pub name: String,
    pub email: Option<String>,
    pub phone: Option<String>,
    pub cpf: Option<String>,
    pub address: Option<String>,
    pub created_at: String,
}

impl Clone for Patient {
    fn clone(&self) -> (r: Self)
        ensures
            r == *self,
    {
        Patient {
            id: self.id.clone(),
            user_id: self.user_id.clone(),
            name: self.name.clone(),
            email: clone_opt_string(&self.email),
            phone: clone_opt_string(&self.phone),
            cpf: clone_opt_string(&self.cpf),
            address: clone_opt_string(&self.address),
            created_at: self.created_at.clone(),
        }
    }
}

/// A therapy session as handed to callers.
pub struct Session {
    pub id: String,
    pub user_id: String,
    pub patient_id: String,
    pub start_time: String,
    pub end_time: String,
    pub notes: Option<String>,
    /// Monetary value of the session, in cents.
    pub value: i64,
    pub status: String,
    pub created_at: String,
}

impl Clone for Session {
    fn clone(&self) -> (r: Self)
        ensures
            r == *self,
    {
        Session {
            id: self.id.clone(),
            user_id: self.user_id.clone(),
            patient_id: self.patient_id.clone(),
            start_time: self.start_time.clone(),
            end_time: self.end_time.clone(),
            notes: clone_opt_string(&self.notes),
            value: self.value,
            status: self.status.clone(),
            created_at: self.created_at.clone(),
        }
    }
}

/// Clones an optional string, preserving the value exactly.
pub fn clone_opt_string(o: &Option<String>) -> (r: Option<String>)
    ensures
        r == *o,
{
    match o {
        Some(s) => Some(s.clone()),
        None => None,
    }
}

/// The error taxonomy of the command layer.
#[derive(Clone, Copy, PartialEq, Eq, Structural, Debug)]
pub enum AppError {
    /// A required input was missing or empty, or an input was malformed.
    Validation,
    /// A uniqueness rule was violated (duplicate email).
    Conflict,
    /// The referenced entity is absent, soft-deleted, or not owned by the caller.
    NotFound,
    /// The underlying store could not complete the operation.
    StorageFailure,
}

/// The uniform envelope every command answers with.
pub struct ApiResponse<T> {
    pub success: bool,
    pub data: Option<T>,
    pub error: Option<String>,
}

impl<T> ApiResponse<T> {
    /// A successful envelope carrying `data`.
    pub fn success(data: T) -> (r: Self)
        ensures
            r.success == true,
            r.data == Some(data),
            r.error is None,
    {
        Self { success: true, data: Some(data), error: None }
    }

    /// A failed envelope carrying a human-readable message.
    pub fn error(msg: String) -> (r: Self)
        ensures
            r.success == false,
            r.data is None,
            r.error matches Some(m) && m@ == msg@,
    {
        Self { success: false, data: None, error: Some(msg) }
    }
}

} // verus!
