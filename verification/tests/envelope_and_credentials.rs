use psyflow_core::models::ApiResponse;
use psyflow_core::store::Db;
use psyflow_core::credentials::{hash_password, verify_password};
use psyflow_core::gateway::{register_command, login_command, get_settings_command,
    create_patient_command, list_patients_command, delete_patient_command,
    create_session_command, list_sessions_by_patient_command, update_session_command,
    delete_session_command, update_patient_command};

#[test]
fn hash_then_verify_round_trips() {
    let hash = hash_password("secret123").unwrap();
    // The hash is a real derived string, not the plaintext handed back.
    assert_ne!(hash, "secret123");
    assert!(verify_password("secret123", &hash));
    assert!(!verify_password("secret124", &hash));
    assert!(!verify_password("", &hash));
}

#[test]
fn verify_tolerates_malformed_hashes() {
    assert!(!verify_password("secret123", ""));
    assert!(!verify_password("secret123", "not-a-hash"));
    assert!(!verify_password("secret123", "$2z$99$definitely-broken"));
}

#[test]
fn envelope_wraps_success_and_failure() {
    let ok: ApiResponse<i64> = ApiResponse::success(7);
    assert!(ok.success);
    assert_eq!(ok.data, Some(7));
    assert!(ok.error.is_none());
    let err: ApiResponse<i64> = ApiResponse::error("storage failure".to_string());
    assert!(!err.success);
    assert!(err.data.is_none());
    assert_eq!(err.error, Some("storage failure".to_string()));
}

#[test]
fn register_command_envelopes() {
    let mut db = Db::new();
    let empty = register_command(
        &mut db,
        "Ana".to_string(),
        "".to_string(),
        "secret123".to_string(),
    );
    assert!(!empty.success);
    assert_eq!(empty.error.as_deref(), Some("invalid input"));
    let ok = register_command(
        &mut db,
        "Ana".to_string(),
        "ana@x.com".to_string(),
        "secret123".to_string(),
    );
    assert!(ok.success);
    let user = ok.data.unwrap();
    assert_eq!(user.email, "ana@x.com");
    let dup = register_command(
        &mut db,
        "Ana".to_string(),
        "ana@x.com".to_string(),
        "secret123".to_string(),
    );
    assert!(!dup.success);
    assert_eq!(dup.error.as_deref(), Some("registration failed"));
}

#[test]
fn login_command_single_generic_message() {
    let mut db = Db::new();
    let user = register_command(
        &mut db,
        "Ana".to_string(),
        "ana@x.com".to_string(),
        "secret123".to_string(),
    )
    .data
    .unwrap();
    let good = login_command(&db, "ana@x.com".to_string(), "secret123".to_string());
    assert!(good.success);
    assert_eq!(good.data.unwrap().id, user.id);
    let bad_pw = login_command(&db, "ana@x.com".to_string(), "nope".to_string());
    let bad_email = login_command(&db, "who@x.com".to_string(), "secret123".to_string());
    assert!(!bad_pw.success && !bad_email.success);
    assert_eq!(bad_pw.error.as_deref(), Some("invalid email or password"));
    assert_eq!(bad_pw.error, bad_email.error);
}

#[test]
fn commands_cover_the_surface() {
    let mut db = Db::new();
    let user = register_command(
        &mut db,
        "Ana".to_string(),
        "ana@x.com".to_string(),
        "secret123".to_string(),
    )
    .data
    .unwrap();
    let settings = get_settings_command(&db, user.id.clone());
    assert!(settings.success);
    assert_eq!(settings.data.unwrap().theme, "light");
    let missing_settings = get_settings_command(&db, "ghost".to_string());
    assert!(!missing_settings.success);
    assert_eq!(missing_settings.error.as_deref(), Some("not found"));

    let patient = create_patient_command(
        &mut db,
        user.id.clone(),
        "Bruno".to_string(),
        Some("111".to_string()),
        None,
    )
    .data
    .unwrap();
    let updated = update_patient_command(
        &mut db,
        patient.id.clone(),
        user.id.clone(),
        "Bruno Silva".to_string(),
        None,
        None,
    );
    assert!(updated.success);

    // Defaults: value 0 cents, status "scheduled".
    let session = create_session_command(
        &mut db,
        user.id.clone(),
        patient.id.clone(),
        "2024-05-01T10:00:00".to_string(),
        "2024-05-01T11:00:00".to_string(),
        None,
        None,
        None,
    )
    .data
    .unwrap();
    assert_eq!(session.value, 0);
    assert_eq!(session.status, "scheduled");

    let sessions = list_sessions_by_patient_command(&db, patient.id.clone());
    assert!(sessions.success);
    assert_eq!(sessions.data.unwrap().len(), 1);

    let resched = update_session_command(
        &mut db,
        session.id.clone(),
        "2024-05-03T10:00:00".to_string(),
        "2024-05-03T11:00:00".to_string(),
        None,
        Some(9000),
        Some("completed".to_string()),
    );
    assert!(resched.success);

    let gone = delete_session_command(&mut db, session.id.clone(), user.id.clone());
    assert!(gone.success);
    let already_gone = delete_session_command(&mut db, session.id.clone(), user.id.clone());
    assert!(!already_gone.success);
    assert_eq!(already_gone.error.as_deref(), Some("not found"));

    let listed = list_patients_command(&db, user.id.clone());
    assert!(listed.success);
    assert_eq!(listed.data.unwrap().len(), 1);
    let deleted = delete_patient_command(&mut db, patient.id.clone(), user.id.clone());
    assert!(deleted.success);
    assert!(list_patients_command(&db, user.id.clone()).data.unwrap().is_empty());
}
