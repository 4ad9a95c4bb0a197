use psyflow_core::models::AppError;
use psyflow_core::store::Db;
use psyflow_core::identity::{register, register_with_ids, login, get_settings};
use psyflow_core::patients::{create_patient, list_patients, update_patient, delete_patient};
use psyflow_core::sessions::{create_session, list_sessions_by_patient, update_session,
    delete_session};

fn user_of(db: &mut Db, name: &str, email: &str) -> psyflow_core::models::User {
    register(db, name.to_string(), email.to_string(), "secret123".to_string()).unwrap()
}

#[test]
fn register_twice_same_email_conflicts() {
    let mut db = Db::new();
    let first = register(
        &mut db,
        "Ana".to_string(),
        "ana@x.com".to_string(),
        "secret123".to_string(),
    )
    .unwrap();
    let second = register(
        &mut db,
        "Other".to_string(),
        "ana@x.com".to_string(),
        "different".to_string(),
    );
    assert!(matches!(second, Err(AppError::Conflict)));
    // The first user is unaffected: login still finds it.
    let logged = login(&db, "ana@x.com".to_string(), "secret123".to_string()).unwrap();
    assert_eq!(logged.id, first.id);
    assert_eq!(logged.name, "Ana");
}

#[test]
fn register_rejects_empty_email_and_password() {
    let mut db = Db::new();
    let r1 = register(&mut db, "A".to_string(), "".to_string(), "pw".to_string());
    assert!(matches!(r1, Err(AppError::Validation)));
    let r2 = register(&mut db, "A".to_string(), "a@x.com".to_string(), "".to_string());
    assert!(matches!(r2, Err(AppError::Validation)));
}

#[test]
fn register_creates_settings_with_defaults() {
    let mut db = Db::new();
    let u = user_of(&mut db, "Ana", "ana@x.com");
    let s = get_settings(&db, u.id.clone()).unwrap();
    assert_eq!(s.user_id, u.id);
    assert_eq!(s.theme, "light");
    assert_eq!(s.currency, "BRL");
    assert!(s.notifications_enabled);
    assert_eq!(s.session_duration, 50);
    assert_eq!(s.default_session_value, 0);
}

#[test]
fn register_with_taken_id_is_storage_failure() {
    let mut db = Db::new();
    let r1 = register_with_ids(
        &mut db,
        "Ana".to_string(),
        "ana@x.com".to_string(),
        "$2b$fakehash".to_string(),
        "uid-1".to_string(),
        "sid-1".to_string(),
    );
    assert!(r1.is_ok());
    let r2 = register_with_ids(
        &mut db,
        "Bea".to_string(),
        "bea@x.com".to_string(),
        "$2b$fakehash".to_string(),
        "uid-1".to_string(),
        "sid-2".to_string(),
    );
    assert!(matches!(r2, Err(AppError::StorageFailure)));
}

#[test]
fn login_failures_are_indistinguishable() {
    let mut db = Db::new();
    user_of(&mut db, "Ana", "ana@x.com");
    let wrong_password = login(&db, "ana@x.com".to_string(), "nope".to_string());
    let unknown_email = login(&db, "who@x.com".to_string(), "secret123".to_string());
    assert!(matches!(wrong_password, Err(AppError::NotFound)));
    assert!(matches!(unknown_email, Err(AppError::NotFound)));
    // A malformed stored hash also just fails to match.
    let mut db2 = Db::new();
    register_with_ids(
        &mut db2,
        "Mal".to_string(),
        "mal@x.com".to_string(),
        "not-a-bcrypt-hash".to_string(),
        "u1".to_string(),
        "s1".to_string(),
    )
    .unwrap();
    let malformed = login(&db2, "mal@x.com".to_string(), "anything".to_string());
    assert!(matches!(malformed, Err(AppError::NotFound)));
}

#[test]
fn get_settings_unknown_user_is_not_found() {
    let db = Db::new();
    assert!(matches!(
        get_settings(&db, "nobody".to_string()),
        Err(AppError::NotFound)
    ));
}

#[test]
fn create_patient_requires_existing_user() {
    let mut db = Db::new();
    let r = create_patient(&mut db, "ghost".to_string(), "Bruno".to_string(), None, None);
    assert!(matches!(r, Err(AppError::NotFound)));
}

#[test]
fn deleted_patients_never_listed() {
    let mut db = Db::new();
    let u = user_of(&mut db, "Ana", "ana@x.com");
    let p1 = create_patient(&mut db, u.id.clone(), "Bruno".to_string(), None, None).unwrap();
    let p2 = create_patient(&mut db, u.id.clone(), "Carla".to_string(), None, None).unwrap();
    assert_eq!(list_patients(&db, u.id.clone()).len(), 2);
    delete_patient(&mut db, p1.id.clone(), u.id.clone()).unwrap();
    let listed = list_patients(&db, u.id.clone());
    assert_eq!(listed.len(), 1);
    assert_eq!(listed[0].id, p2.id);
    // Deleting the remaining one empties the listing.
    delete_patient(&mut db, p2.id.clone(), u.id.clone()).unwrap();
    assert!(list_patients(&db, u.id.clone()).is_empty());
}

#[test]
fn delete_patient_scoped_by_owner() {
    let mut db = Db::new();
    let u1 = user_of(&mut db, "Ana", "ana@x.com");
    let u2 = user_of(&mut db, "Bea", "bea@x.com");
    let p = create_patient(&mut db, u1.id.clone(), "Bruno".to_string(), None, None).unwrap();
    let foreign = delete_patient(&mut db, p.id.clone(), u2.id.clone());
    assert!(matches!(foreign, Err(AppError::NotFound)));
    assert_eq!(list_patients(&db, u1.id.clone()).len(), 1);
}

#[test]
fn list_patients_sorted_by_name_then_id() {
    let mut db = Db::new();
    let u = user_of(&mut db, "Ana", "ana@x.com");
    create_patient(&mut db, u.id.clone(), "Carla".to_string(), None, None).unwrap();
    create_patient(&mut db, u.id.clone(), "Ana".to_string(), None, None).unwrap();
    create_patient(&mut db, u.id.clone(), "Bruno".to_string(), None, None).unwrap();
    let twin_a = create_patient(&mut db, u.id.clone(), "Ana".to_string(), None, None).unwrap();
    let listed = list_patients(&db, u.id.clone());
    let names: Vec<&str> = listed.iter().map(|p| p.name.as_str()).collect();
    assert_eq!(names, vec!["Ana", "Ana", "Bruno", "Carla"]);
    // Equal names tie-break by id ascending, so the order is deterministic.
    let twins: Vec<&str> = listed
        .iter()
        .filter(|p| p.name == "Ana")
        .map(|p| p.id.as_str())
        .collect();
    let mut expected = twins.clone();
    expected.sort();
    assert_eq!(twins, expected);
    assert!(twins.contains(&twin_a.id.as_str()));
}

#[test]
fn update_patient_replaces_fields() {
    let mut db = Db::new();
    let u = user_of(&mut db, "Ana", "ana@x.com");
    let p = create_patient(
        &mut db,
        u.id.clone(),
        "Bruno".to_string(),
        Some("111".to_string()),
        None,
    )
    .unwrap();
    update_patient(
        &mut db,
        p.id.clone(),
        u.id.clone(),
        "Bruno Silva".to_string(),
        None,
        Some("bruno@x.com".to_string()),
    )
    .unwrap();
    let listed = list_patients(&db, u.id.clone());
    assert_eq!(listed[0].name, "Bruno Silva");
    assert_eq!(listed[0].phone, None);
    assert_eq!(listed[0].email, Some("bruno@x.com".to_string()));
    let missing = update_patient(
        &mut db,
        "ghost".to_string(),
        u.id.clone(),
        "X".to_string(),
        None,
        None,
    );
    assert!(matches!(missing, Err(AppError::NotFound)));
}

#[test]
fn update_patient_scoped_by_owner() {
    let mut db = Db::new();
    let u1 = user_of(&mut db, "Ana", "ana@x.com");
    let u2 = user_of(&mut db, "Bea", "bea@x.com");
    let p = create_patient(&mut db, u1.id.clone(), "Bruno".to_string(), None, None).unwrap();
    let foreign = update_patient(
        &mut db,
        p.id.clone(),
        u2.id.clone(),
        "Hijacked".to_string(),
        None,
        None,
    );
    assert!(matches!(foreign, Err(AppError::NotFound)));
    let listed = list_patients(&db, u1.id.clone());
    assert_eq!(listed[0].name, "Bruno");
}

#[test]
fn create_session_checks_owner_and_times() {
    let mut db = Db::new();
    let u1 = user_of(&mut db, "Ana", "ana@x.com");
    let u2 = user_of(&mut db, "Bea", "bea@x.com");
    let p = create_patient(&mut db, u1.id.clone(), "Bruno".to_string(), None, None).unwrap();
    // A patient owned by a different user is rejected.
    let foreign = create_session(
        &mut db,
        u2.id.clone(),
        p.id.clone(),
        "2024-05-01T10:00:00".to_string(),
        "2024-05-01T11:00:00".to_string(),
        None,
        0,
        "scheduled".to_string(),
    );
    assert!(matches!(foreign, Err(AppError::NotFound)));
    // Start must precede end.
    let backwards = create_session(
        &mut db,
        u1.id.clone(),
        p.id.clone(),
        "2024-05-01T11:00:00".to_string(),
        "2024-05-01T10:00:00".to_string(),
        None,
        0,
        "scheduled".to_string(),
    );
    assert!(matches!(backwards, Err(AppError::Validation)));
    // The owner with valid times succeeds.
    let ok = create_session(
        &mut db,
        u1.id.clone(),
        p.id.clone(),
        "2024-05-01T10:00:00".to_string(),
        "2024-05-01T11:00:00".to_string(),
        Some("first visit".to_string()),
        15000,
        "scheduled".to_string(),
    )
    .unwrap();
    assert_eq!(ok.value, 15000);
    assert_eq!(ok.status, "scheduled");
}

#[test]
fn sessions_listed_most_recent_first() {
    let mut db = Db::new();
    let u = user_of(&mut db, "Ana", "ana@x.com");
    let p = create_patient(&mut db, u.id.clone(), "Bruno".to_string(), None, None).unwrap();
    let early = create_session(
        &mut db,
        u.id.clone(),
        p.id.clone(),
        "2024-05-01T10:00:00".to_string(),
        "2024-05-01T11:00:00".to_string(),
        None,
        0,
        "completed".to_string(),
    )
    .unwrap();
    let late = create_session(
        &mut db,
        u.id.clone(),
        p.id.clone(),
        "2024-06-01T10:00:00".to_string(),
        "2024-06-01T11:00:00".to_string(),
        None,
        0,
        "scheduled".to_string(),
    )
    .unwrap();
    let listed = list_sessions_by_patient(&db, p.id.clone());
    assert_eq!(listed.len(), 2);
    assert_eq!(listed[0].id, late.id);
    assert_eq!(listed[1].id, early.id);
}

#[test]
fn deleted_sessions_never_listed() {
    let mut db = Db::new();
    let u = user_of(&mut db, "Ana", "ana@x.com");
    let p = create_patient(&mut db, u.id.clone(), "Bruno".to_string(), None, None).unwrap();
    let s = create_session(
        &mut db,
        u.id.clone(),
        p.id.clone(),
        "2024-05-01T10:00:00".to_string(),
        "2024-05-01T11:00:00".to_string(),
        None,
        0,
        "scheduled".to_string(),
    )
    .unwrap();
    delete_session(&mut db, s.id.clone(), u.id.clone()).unwrap();
    assert!(list_sessions_by_patient(&db, p.id.clone()).is_empty());
    let again = delete_session(&mut db, s.id.clone(), u.id.clone());
    assert!(matches!(again, Err(AppError::NotFound)));
}

#[test]
fn delete_session_scoped_by_owner() {
    let mut db = Db::new();
    let u1 = user_of(&mut db, "Ana", "ana@x.com");
    let u2 = user_of(&mut db, "Bea", "bea@x.com");
    let p = create_patient(&mut db, u1.id.clone(), "Bruno".to_string(), None, None).unwrap();
    let s = create_session(
        &mut db,
        u1.id.clone(),
        p.id.clone(),
        "2024-05-01T10:00:00".to_string(),
        "2024-05-01T11:00:00".to_string(),
        None,
        0,
        "scheduled".to_string(),
    )
    .unwrap();
    let foreign = delete_session(&mut db, s.id.clone(), u2.id.clone());
    assert!(matches!(foreign, Err(AppError::NotFound)));
    assert_eq!(list_sessions_by_patient(&db, p.id.clone()).len(), 1);
}

#[test]
fn deleting_patient_keeps_its_sessions() {
    let mut db = Db::new();
    let u = user_of(&mut db, "Ana", "ana@x.com");
    let p = create_patient(&mut db, u.id.clone(), "Bruno".to_string(), None, None).unwrap();
    let s = create_session(
        &mut db,
        u.id.clone(),
        p.id.clone(),
        "2024-05-01T10:00:00".to_string(),
        "2024-05-01T11:00:00".to_string(),
        None,
        5000,
        "scheduled".to_string(),
    )
    .unwrap();
    delete_patient(&mut db, p.id.clone(), u.id.clone()).unwrap();
    assert!(list_patients(&db, u.id.clone()).is_empty());
    // The session is still there, listable by the patient id directly.
    let listed = list_sessions_by_patient(&db, p.id.clone());
    assert_eq!(listed.len(), 1);
    assert_eq!(listed[0].id, s.id);
}

#[test]
fn update_session_replaces_fields() {
    let mut db = Db::new();
    let u = user_of(&mut db, "Ana", "ana@x.com");
    let p = create_patient(&mut db, u.id.clone(), "Bruno".to_string(), None, None).unwrap();
    let s = create_session(
        &mut db,
        u.id.clone(),
        p.id.clone(),
        "2024-05-01T10:00:00".to_string(),
        "2024-05-01T11:00:00".to_string(),
        None,
        0,
        "scheduled".to_string(),
    )
    .unwrap();
    update_session(
        &mut db,
        s.id.clone(),
        "2024-05-02T10:00:00".to_string(),
        "2024-05-02T11:00:00".to_string(),
        Some("rescheduled".to_string()),
        12000,
        "completed".to_string(),
    )
    .unwrap();
    let listed = list_sessions_by_patient(&db, p.id.clone());
    assert_eq!(listed[0].start_time, "2024-05-02T10:00:00");
    assert_eq!(listed[0].notes, Some("rescheduled".to_string()));
    assert_eq!(listed[0].value, 12000);
    assert_eq!(listed[0].status, "completed");
    let missing = update_session(
        &mut db,
        "ghost".to_string(),
        "2024-05-02T10:00:00".to_string(),
        "2024-05-02T11:00:00".to_string(),
        None,
        0,
        "scheduled".to_string(),
    );
    assert!(matches!(missing, Err(AppError::NotFound)));
}

#[test]
fn end_to_end_scenario() {
    let mut db = Db::new();
    let ana = register(
        &mut db,
        "Ana".to_string(),
        "ana@x.com".to_string(),
        "secret123".to_string(),
    )
    .unwrap();
    let logged = login(&db, "ana@x.com".to_string(), "secret123".to_string()).unwrap();
    assert_eq!(logged.id, ana.id);
    let wrong = login(&db, "ana@x.com".to_string(), "wrong".to_string());
    assert!(matches!(wrong, Err(AppError::NotFound)));
    let bruno = create_patient(&mut db, ana.id.clone(), "Bruno".to_string(), None, None).unwrap();
    assert!(!bruno.id.is_empty());
    let listed = list_patients(&db, ana.id.clone());
    assert!(listed.iter().any(|p| p.name == "Bruno"));
    delete_patient(&mut db, bruno.id.clone(), ana.id.clone()).unwrap();
    assert!(list_patients(&db, ana.id.clone()).is_empty());
}

#[test]
fn populated_store_checks_well_formed() {
    let mut db = Db::new();
    assert!(db.check_wf());
    let u = user_of(&mut db, "Ana", "ana@x.com");
    let p = create_patient(&mut db, u.id.clone(), "Bruno".to_string(), None, None).unwrap();
    create_session(
        &mut db,
        u.id.clone(),
        p.id.clone(),
        "2024-05-01T10:00:00".to_string(),
        "2024-05-01T11:00:00".to_string(),
        None,
        0,
        "scheduled".to_string(),
    )
    .unwrap();
    assert!(db.check_wf());
    // A store that breaks referential consistency is rejected.
    let mut broken = Db::new();
    user_of(&mut broken, "Ana", "ana@x.com");
    broken.patients = db.patients;
    assert!(!broken.check_wf());
}
