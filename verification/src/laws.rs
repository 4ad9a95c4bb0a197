//! Cross-operation laws of the store, proved once and for all.

use vstd::prelude::*;
use crate::models::{User, Patient, Session, settings_has_defaults};
use crate::store::Db;
use crate::patients::{patient_le, patients_sorted, lemma_patient_le_total, active_patients_of,
    lemma_active_patients_member};
use crate::sessions::{session_le, sessions_sorted, lemma_session_le_total, active_sessions_of,
    lemma_active_sessions_member};
use crate::order::lemma_lex_total;
use crate::credentials::bcrypt_accepts;

verus! {

/// Registering the same email twice conflicts: a successful
/// registration (which, per `register`'s contract, appends the new
/// user's row) makes the email taken and leaves the new user's row in
/// place, so by `register`'s contract a second registration with that
/// email and nonempty inputs answers exactly `Conflict` and changes
/// nothing — the first user is unaffected. (With an empty email or
/// password the second call answers `Validation` instead, also
/// changing nothing.)
pub proof fn lemma_second_registration_conflicts(pre: Db, post: Db, u: User, email: Seq<char>)
    requires
        post.users@ == pre.users@.push(post.users@.last()),
        post.users@.last().user == u,
        u.email@ == email,
    ensures
        post.has_email(email),
        post.users@[post.users@.len() - 1].user == u,
{
    assert(post.users@[post.users@.len() - 1].user.email@ == email);
}

/// A well-formed store holds at most one settings row per user.
/// Together with `register`'s guarantee that a settings row with the
/// documented defaults is appended for the new user, a successful
/// registration yields exactly one settings row for that user.
pub proof fn lemma_one_settings_row(db: Db, user_id: Seq<char>, i: int, j: int)
    requires
        db.wf(),
        0 <= i < db.settings@.len(),
        0 <= j < db.settings@.len(),
        db.settings@[i].user_id@ == user_id,
        db.settings@[j].user_id@ == user_id,
    ensures
        i == j,
{
    if i < j {
        assert(db.settings@[i].user_id@ != db.settings@[j].user_id@);
    }
    if j < i {
        assert(db.settings@[j].user_id@ != db.settings@[i].user_id@);
    }
}

/// Two sorted sequences with the same contents are equal, provided the
/// order is total over those contents and antisymmetric up to equality.
pub proof fn lemma_sorted_unique<A>(s1: Seq<A>, s2: Seq<A>, le: spec_fn(A, A) -> bool)
    requires
        forall|i: int, j: int| 0 <= i < j < s1.len() ==> le(#[trigger] s1[i], #[trigger] s1[j]),
        forall|i: int, j: int| 0 <= i < j < s2.len() ==> le(#[trigger] s2[i], #[trigger] s2[j]),
        s1.to_multiset() == s2.to_multiset(),
        forall|a: A, b: A| s1.contains(a) && s1.contains(b) ==> #[trigger] le(a, b) || #[trigger] le(b, a),
        forall|a: A, b: A| s1.contains(a) && s1.contains(b) && #[trigger] le(a, b) && #[trigger] le(b, a) ==> a == b,
    ensures
        s1 =~= s2,
    decreases s1.len(),
{
    broadcast use vstd::seq_lib::group_to_multiset_ensures;

    if s1.len() == 0 {
        assert(s2.to_multiset().len() == 0);
        assert(s1 =~= s2);
    } else {
        assert(s1.to_multiset().count(s1[0]) > 0);
        assert(s2.to_multiset().count(s1[0]) > 0);
        assert(s2.contains(s1[0]));
        assert(s2.to_multiset().count(s2[0]) > 0);
        assert(s1.to_multiset().count(s2[0]) > 0);
        assert(s1.contains(s2[0]));
        let k2 = choose|k: int| 0 <= k < s2.len() && s2[k] == s1[0];
        let k1 = choose|k: int| 0 <= k < s1.len() && s1[k] == s2[0];
        assert(le(s2[0], s1[0])) by {
            if k2 > 0 {
                assert(le(s2[0], s2[k2]));
            } else {
                assert(s1.contains(s1[0]));
                assert(le(s1[0], s1[0]) || le(s1[0], s1[0]));
            }
        }
        assert(le(s1[0], s2[0])) by {
            if k1 > 0 {
                assert(le(s1[0], s1[k1]));
            } else {
                assert(s1.contains(s1[0]));
                assert(le(s1[0], s1[0]) || le(s1[0], s1[0]));
            }
        }
        assert(s1.contains(s1[0]) && s1.contains(s2[0]));
        assert(s1[0] == s2[0]);
        let t1 = s1.remove(0);
        let t2 = s2.remove(0);
        assert(t1.to_multiset() =~= s1.to_multiset().remove(s1[0]));
        assert(t2.to_multiset() =~= s2.to_multiset().remove(s2[0]));
        assert(t1.to_multiset() == t2.to_multiset());
        assert forall|a: A, b: A| t1.contains(a) && t1.contains(b)
            implies (le(a, b) || le(b, a)) && (le(a, b) && le(b, a) ==> a == b) by {
            let ia = choose|i: int| 0 <= i < t1.len() && t1[i] == a;
            let ib = choose|i: int| 0 <= i < t1.len() && t1[i] == b;
            assert(s1[ia + 1] == a && s1[ib + 1] == b);
            assert(s1.contains(a) && s1.contains(b));
        }
        lemma_sorted_unique(t1, t2, le);
        assert forall|i: int| 0 <= i < s1.len() implies s1[i] == s2[i] by {
            if i > 0 {
                assert(t1[i - 1] == s1[i] && t2[i - 1] == s2[i]);
            }
        }
        assert(s1.len() == s1.to_multiset().len());
        assert(s2.len() == s2.to_multiset().len());
        assert(s1 =~= s2);
    }
}

/// Patient listings are deterministic: any two sorted sequences that
/// both hold exactly the active patients of a user in a well-formed
/// store are equal. The name sort with the id tie-break pins the
/// output completely.
pub proof fn lemma_patient_listing_deterministic(
    db: Db,
    user_id: Seq<char>,
    r1: Seq<Patient>,
    r2: Seq<Patient>,
)
    requires
        db.wf(),
        patients_sorted(r1),
        patients_sorted(r2),
        r1.to_multiset() == active_patients_of(db.patients@, user_id),
        r2.to_multiset() == active_patients_of(db.patients@, user_id),
    ensures
        r1 =~= r2,
{
    broadcast use vstd::seq_lib::group_to_multiset_ensures;

    let le = |a: Patient, b: Patient| patient_le(a, b);
    assert forall|a: Patient, b: Patient| r1.contains(a) && r1.contains(b)
        implies (#[trigger] le(a, b) || #[trigger] le(b, a)) by {
        lemma_patient_le_total(a, b);
    }
    assert forall|a: Patient, b: Patient| r1.contains(a) && r1.contains(b) && #[trigger] le(a, b)
        && #[trigger] le(b, a) implies a == b by {
        lemma_lex_total(a.name@, b.name@);
        lemma_lex_total(a.id@, b.id@);
        assert(a.name@ == b.name@ && a.id@ == b.id@);
        assert(r1.to_multiset().count(a) > 0);
        assert(r1.to_multiset().count(b) > 0);
        lemma_active_patients_member(db.patients@, user_id, a);
        lemma_active_patients_member(db.patients@, user_id, b);
        let ja = choose|j: int| 0 <= j < db.patients@.len() && (#[trigger] db.patients@[j]).patient == a
            && db.patients@[j].deleted_at is None && db.patients@[j].patient.user_id@ == user_id;
        let jb = choose|j: int| 0 <= j < db.patients@.len() && (#[trigger] db.patients@[j]).patient == b
            && db.patients@[j].deleted_at is None && db.patients@[j].patient.user_id@ == user_id;
        if ja != jb {
            assert(db.patients@[ja].patient.id@ != db.patients@[jb].patient.id@);
        }
    }
    assert forall|i: int, j: int| 0 <= i < j < r1.len() implies le(r1[i], r1[j]) by {
        assert(patient_le(r1[i], r1[j]));
    }
    assert forall|i: int, j: int| 0 <= i < j < r2.len() implies le(r2[i], r2[j]) by {
        assert(patient_le(r2[i], r2[j]));
    }
    lemma_sorted_unique(r1, r2, le);
}

/// Session listings are deterministic in the same way.
pub proof fn lemma_session_listing_deterministic(
    db: Db,
    patient_id: Seq<char>,
    r1: Seq<Session>,
    r2: Seq<Session>,
)
    requires
        db.wf(),
        sessions_sorted(r1),
        sessions_sorted(r2),
        r1.to_multiset() == active_sessions_of(db.sessions@, patient_id),
        r2.to_multiset() == active_sessions_of(db.sessions@, patient_id),
    ensures
        r1 =~= r2,
{
    broadcast use vstd::seq_lib::group_to_multiset_ensures;

    let le = |a: Session, b: Session| session_le(a, b);
    assert forall|a: Session, b: Session| r1.contains(a) && r1.contains(b)
        implies (#[trigger] le(a, b) || #[trigger] le(b, a)) by {
        lemma_session_le_total(a, b);
    }
    assert forall|a: Session, b: Session| r1.contains(a) && r1.contains(b) && #[trigger] le(a, b)
        && #[trigger] le(b, a) implies a == b by {
        lemma_lex_total(a.start_time@, b.start_time@);
        lemma_lex_total(a.id@, b.id@);
        assert(a.start_time@ == b.start_time@ && a.id@ == b.id@);
        assert(r1.to_multiset().count(a) > 0);
        assert(r1.to_multiset().count(b) > 0);
        lemma_active_sessions_member(db.sessions@, patient_id, a);
        lemma_active_sessions_member(db.sessions@, patient_id, b);
        let ja = choose|j: int| 0 <= j < db.sessions@.len() && (#[trigger] db.sessions@[j]).session == a
            && db.sessions@[j].deleted_at is None && db.sessions@[j].session.patient_id@ == patient_id;
        let jb = choose|j: int| 0 <= j < db.sessions@.len() && (#[trigger] db.sessions@[j]).session == b
            && db.sessions@[j].deleted_at is None && db.sessions@[j].session.patient_id@ == patient_id;
        if ja != jb {
            assert(db.sessions@[ja].session.id@ != db.sessions@[jb].session.id@);
        }
    }
    assert forall|i: int, j: int| 0 <= i < j < r1.len() implies le(r1[i], r1[j]) by {
        assert(session_le(r1[i], r1[j]));
    }
    assert forall|i: int, j: int| 0 <= i < j < r2.len() implies le(r2[i], r2[j]) by {
        assert(session_le(r2[i], r2[j]));
    }
    lemma_sorted_unique(r1, r2, le);
}

/// A successful registration yields exactly one settings row for the
/// new user, carrying the documented defaults: given `register`'s
/// guarantee that the appended last settings row is the new user's and
/// has the defaults, well-formedness makes it the only row of that
/// user.
pub proof fn lemma_registration_settings_exact(db: Db, user_id: Seq<char>)
    requires
        db.wf(),
        db.settings@.len() > 0,
        db.settings@.last().user_id@ == user_id,
        settings_has_defaults(db.settings@.last()),
    ensures
        exists|i: int|
            0 <= i < db.settings@.len() && (#[trigger] db.settings@[i]).user_id@ == user_id
                && settings_has_defaults(db.settings@[i]),
        forall|i: int|
            0 <= i < db.settings@.len() && (#[trigger] db.settings@[i]).user_id@ == user_id
                ==> i == db.settings@.len() - 1,
{
    let last = db.settings@.len() - 1;
    assert(db.settings@[last].user_id@ == user_id && settings_has_defaults(db.settings@[last]));
    assert forall|i: int|
        0 <= i < db.settings@.len() && (#[trigger] db.settings@[i]).user_id@ == user_id
            implies i == last by {
        lemma_one_settings_row(db, user_id, i, last);
    }
}

/// Credentials round-trip through the store: after a successful
/// registration (which, per `register`'s contract, appends a row whose
/// stored hash accepts the registered password), the store satisfies
/// exactly `login`'s success condition for those credentials, so by
/// `login`'s contract that login cannot answer the generic failure.
pub proof fn lemma_login_after_register(db: Db, email: Seq<char>, password: Seq<char>)
    requires
        db.users@.len() > 0,
        db.users@.last().user.email@ == email,
        bcrypt_accepts(password, db.users@.last().password_hash@),
    ensures
        exists|i: int|
            0 <= i < db.users@.len() && (#[trigger] db.users@[i]).user.email@ == email
                && bcrypt_accepts(password, db.users@[i].password_hash@),
{
    assert(db.users@[db.users@.len() - 1].user.email@ == email);
}

/// Soft-deleting a patient deletes none of its sessions: an operation
/// that leaves the session table unchanged (as `delete_patient`
/// guarantees) leaves every patient's session listing unchanged too.
pub proof fn lemma_patient_delete_keeps_sessions(pre: Db, post: Db, patient_id: Seq<char>)
    requires
        post.sessions@ == pre.sessions@,
    ensures
        active_sessions_of(post.sessions@, patient_id) == active_sessions_of(
            pre.sessions@,
            patient_id,
        ),
{
}

} // verus!
