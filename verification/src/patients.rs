//! Patient records: creation, listing, update and soft-delete.
//!
//! Listings exclude soft-deleted rows and are sorted by name ascending
//! (by Unicode scalar value), with the id as a deterministic tie-break.
//! Updates follow the full-replace policy: name, phone and email are
//! overwritten with exactly the supplied values.

use vstd::prelude::*;
use vstd::seq_lib::lemma_multiset_commutative;
use vstd::multiset::Multiset;
use crate::models::{Patient, AppError};
use crate::store::{Db, PatientRecord};
use crate::order::{lex_lt, lex_le, lemma_lex_total, lemma_lex_trans, str_lt, str_eq};
use crate::host::{new_id, now_rfc3339};

verus! {

/// Listing order: by name, then by id, both lexicographic.
pub open spec fn patient_le(a: Patient, b: Patient) -> bool {
    lex_lt(a.name@, b.name@) || (a.name@ == b.name@ && lex_le(a.id@, b.id@))
}

/// A listing is sorted when adjacent-or-farther elements are ordered.
pub open spec fn patients_sorted(s: Seq<Patient>) -> bool {
    forall|i: int, j: int| 0 <= i < j < s.len() ==> patient_le(#[trigger] s[i], #[trigger] s[j])
}

/// The listing order is total.
pub proof fn lemma_patient_le_total(a: Patient, b: Patient)
    ensures
        patient_le(a, b) || patient_le(b, a),
{
    lemma_lex_total(a.name@, b.name@);
    lemma_lex_total(a.id@, b.id@);
}

/// The listing order is transitive.
pub proof fn lemma_patient_le_trans(a: Patient, b: Patient, c: Patient)
    requires
        patient_le(a, b),
        patient_le(b, c),
    ensures
        patient_le(a, c),
{
    lemma_lex_total(a.name@, b.name@);
    lemma_lex_total(b.name@, c.name@);
    lemma_lex_total(a.name@, c.name@);
    lemma_lex_trans(a.name@, b.name@, c.name@);
    if a.name@ == c.name@ {
        if a.name@ == b.name@ && b.name@ == c.name@ {
            lemma_lex_trans(a.id@, b.id@, c.id@);
        } else {
            if lex_lt(a.name@, b.name@) {
                lemma_lex_trans(c.name@, a.name@, b.name@);
                lemma_lex_total(b.name@, c.name@);
            }
            if lex_lt(b.name@, c.name@) {
                lemma_lex_trans(b.name@, c.name@, a.name@);
                lemma_lex_total(a.name@, b.name@);
            }
        }
    }
}

/// Decides `patient_le`.
fn patient_le_exec(a: &Patient, b: &Patient) -> (r: bool)
    ensures
        r == patient_le(*a, *b),
{
    if str_lt(a.name.as_str(), b.name.as_str()) {
        true
    } else if str_eq(a.name.as_str(), b.name.as_str()) {
        str_lt(a.id.as_str(), b.id.as_str()) || str_eq(a.id.as_str(), b.id.as_str())
    } else {
        false
    }
}

/// Inserting into a sequence adds exactly that element to its multiset.
pub proof fn lemma_seq_insert_multiset<A>(s: Seq<A>, i: int, x: A)
    requires
        0 <= i <= s.len(),
    ensures
        s.insert(i, x).to_multiset() =~= s.to_multiset().insert(x),
{
    broadcast use vstd::seq_lib::group_to_multiset_ensures;

    assert(s.insert(i, x) =~= s.take(i) + (seq![x] + s.skip(i)));
    lemma_multiset_commutative(s.take(i), seq![x] + s.skip(i));
    lemma_multiset_commutative(seq![x], s.skip(i));
    assert(s =~= s.take(i) + s.skip(i));
    lemma_multiset_commutative(s.take(i), s.skip(i));
    assert(seq![x] =~= Seq::<A>::empty().push(x));
    assert(seq![x].to_multiset() =~= Multiset::<A>::empty().insert(x));
    assert(s.insert(i, x).to_multiset() =~= s.to_multiset().insert(x));
}

/// Inserts `p` at its sorted position.
fn insert_sorted(v: &mut Vec<Patient>, p: Patient)
    requires
        patients_sorted(old(v)@),
    ensures
        patients_sorted(final(v)@),
        final(v)@.to_multiset() == old(v)@.to_multiset().insert(p),
        final(v)@.len() == old(v)@.len() + 1,
        forall|k: int| 0 <= k < final(v)@.len() ==> (#[trigger] final(v)@[k]) == p
            || old(v)@.contains(final(v)@[k]),
{
    let mut pos: usize = 0;
    loop
        invariant
            pos <= v@.len(),
            patients_sorted(v@),
            forall|k: int| 0 <= k < pos ==> patient_le(#[trigger] v@[k], p),
        ensures
            pos <= v@.len(),
            forall|k: int| 0 <= k < pos ==> patient_le(#[trigger] v@[k], p),
            pos < v@.len() ==> !patient_le(v@[pos as int], p),
        decreases v@.len() - pos,
    {
        if pos == v.len() {
            break;
        }
        if !patient_le_exec(&v[pos], &p) {
            break;
        }
        pos = pos + 1;
    }
    let ghost pre = v@;
    let ghost gpos = pos as int;
    v.insert(pos, p);
    proof {
        lemma_seq_insert_multiset(pre, gpos, p);
        assert forall|i: int, j: int| 0 <= i < j < v@.len()
            implies patient_le(#[trigger] v@[i], #[trigger] v@[j]) by {
            if i < gpos && j < gpos {
                assert(v@[i] == pre[i] && v@[j] == pre[j]);
            } else if i < gpos && j == gpos {
                assert(v@[i] == pre[i]);
            } else if i < gpos && j > gpos {
                assert(v@[i] == pre[i] && v@[j] == pre[j - 1]);
                if gpos <= j - 1 < pre.len() && gpos < pre.len() {
                    lemma_patient_le_total(pre[gpos], p);
                    if gpos < j - 1 {
                        lemma_patient_le_trans(pre[i], pre[gpos], pre[j - 1]);
                    }
                }
            } else if i == gpos {
                assert(v@[i] == p && v@[j] == pre[j - 1]);
                lemma_patient_le_total(pre[gpos], p);
                if gpos < j - 1 {
                    lemma_patient_le_trans(p, pre[gpos], pre[j - 1]);
                }
            } else {
                assert(v@[i] == pre[i - 1] && v@[j] == pre[j - 1]);
            }
        }
        assert forall|k: int| 0 <= k < v@.len() implies (#[trigger] v@[k]) == p
            || pre.contains(v@[k]) by {
            if k < gpos {
                assert(v@[k] == pre[k]);
            } else if k > gpos {
                assert(v@[k] == pre[k - 1]);
            }
        }
    }
}

/// The active patients of a user, as the multiset of the entities the
/// store holds for that user with no deletion mark.
pub open spec fn active_patients_of(s: Seq<PatientRecord>, user_id: Seq<char>) -> Multiset<Patient>
    decreases s.len(),
{
    if s.len() == 0 {
        Multiset::empty()
    } else {
        let rest = active_patients_of(s.drop_last(), user_id);
        if s.last().deleted_at is None && s.last().patient.user_id@ == user_id {
            rest.insert(s.last().patient)
        } else {
            rest
        }
    }
}

/// Every member of the active multiset comes from an active, owned row.
pub proof fn lemma_active_patients_member(s: Seq<PatientRecord>, user_id: Seq<char>, p: Patient)
    requires
        active_patients_of(s, user_id).count(p) > 0,
    ensures
        exists|j: int| 0 <= j < s.len() && (#[trigger] s[j]).patient == p
            && s[j].deleted_at is None && s[j].patient.user_id@ == user_id,
    decreases s.len(),
{
    broadcast use vstd::multiset::group_multiset_axioms;

    if s.len() > 0 {
        if s.last().deleted_at is None && s.last().patient.user_id@ == user_id
            && s.last().patient == p {
            assert(s[s.len() - 1].patient == p);
        } else {
            lemma_active_patients_member(s.drop_last(), user_id, p);
            let j = choose|j: int| 0 <= j < s.drop_last().len()
                && (#[trigger] s.drop_last()[j]).patient == p
                && s.drop_last()[j].deleted_at is None
                && s.drop_last()[j].patient.user_id@ == user_id;
            assert(s[j].patient == p && s[j].deleted_at is None && s[j].patient.user_id@ == user_id);
        }
    }
}

/// Every active, owned row contributes its entity to the active multiset.
pub proof fn lemma_active_patients_complete(s: Seq<PatientRecord>, user_id: Seq<char>, j: int)
    requires
        0 <= j < s.len(),
        s[j].deleted_at is None,
        s[j].patient.user_id@ == user_id,
    ensures
        active_patients_of(s, user_id).count(s[j].patient) > 0,
    decreases s.len(),
{
    broadcast use vstd::multiset::group_multiset_axioms;

    if j == s.len() - 1 {
    } else {
        assert(s.drop_last()[j] == s[j]);
        lemma_active_patients_complete(s.drop_last(), user_id, j);
    }
}

/// Creates a patient from an already-generated id and timestamp. This
/// is the deterministic core of `create_patient`.
///
/// `NotFound` is answered exactly when the owning user does not exist,
/// `StorageFailure` exactly when the supplied id is already in use; on
/// success the new row is appended, active, with the given timestamp.
pub fn create_patient_with(
    db: &mut Db,
    id: String,
    now: String,
    user_id: String,
    name: String,
    phone: Option<String>,
    email: Option<String>,
) -> (r: Result<Patient, AppError>)
    requires
        old(db).wf(),
    ensures
        final(db).wf(),
        !old(db).has_user_id(user_id@) ==> r == Err::<Patient, AppError>(AppError::NotFound)
            && *final(db) == *old(db),
        old(db).has_user_id(user_id@) && old(db).has_patient_id(id@) ==> r == Err::<
            Patient,
            AppError,
        >(AppError::StorageFailure) && *final(db) == *old(db),
        old(db).has_user_id(user_id@) && !old(db).has_patient_id(id@) ==> (r matches Ok(p) && {
            &&& p.id@ == id@
            &&& p.user_id@ == user_id@
            &&& p.name@ == name@
            &&& p.phone == phone
            &&& p.email == email
            &&& p.cpf is None
            &&& p.address is None
            &&& p.created_at@ == now@
            &&& final(db).patients@ == old(db).patients@.push(final(db).patients@.last())
            &&& final(db).patients@.last().patient == p
            &&& final(db).patients@.last().deleted_at is None
            &&& final(db).patients@.last().updated_at@ == now@
        }),
        final(db).users@ == old(db).users@,
        final(db).settings@ == old(db).settings@,
        final(db).sessions@ == old(db).sessions@,
{
    if !db.user_id_exists(&user_id) {
        return Err(AppError::NotFound);
    }
    if db.patient_id_exists(&id) {
        return Err(AppError::StorageFailure);
    }
    let patient = Patient {
        id,
        user_id,
        name,
        email,
        phone,
        cpf: None,
        address: None,
        created_at: now.clone(),
    };
    let record = PatientRecord { patient: patient.clone(), updated_at: now, deleted_at: None };
    let ghost pre = *db;
    db.patients.push(record);
    proof {
        assert forall|i: int| 0 <= i < db.patients@.len()
            implies db.has_user_id((#[trigger] db.patients@[i]).patient.user_id@) by {
            assert(pre.has_user_id(db.patients@[i].patient.user_id@));
            let j = choose|j: int| 0 <= j < pre.users@.len()
                && (#[trigger] pre.users@[j]).user.id@ == db.patients@[i].patient.user_id@;
            assert(db.users@[j].user.id@ == db.patients@[i].patient.user_id@);
        }
        assert forall|i: int| 0 <= i < db.sessions@.len() implies exists|j: int|
            0 <= j < db.patients@.len()
            && (#[trigger] db.patients@[j]).patient.id@ == (#[trigger] db.sessions@[i]).session.patient_id@
            && db.patients@[j].patient.user_id@ == db.sessions@[i].session.user_id@ by {
            let j = choose|j: int| 0 <= j < pre.patients@.len()
                && (#[trigger] pre.patients@[j]).patient.id@ == pre.sessions@[i].session.patient_id@
                && pre.patients@[j].patient.user_id@ == pre.sessions@[i].session.user_id@;
            assert(db.patients@[j].patient.id@ == db.sessions@[i].session.patient_id@);
        }
    }
    Ok(patient)
}

/// Creates a patient for `user_id` with a fresh id and the current time.
///
/// `NotFound` is answered exactly when the owning user does not exist;
/// success additionally needs the drawn id to be fresh (a collision
/// answers `StorageFailure`).
pub fn create_patient(
    db: &mut Db,
    user_id: String,
    name: String,
    phone: Option<String>,
    email: Option<String>,
) -> (r: Result<Patient, AppError>)
    requires
        old(db).wf(),
    ensures
        final(db).wf(),
        !old(db).has_user_id(user_id@) ==> r == Err::<Patient, AppError>(AppError::NotFound),
        r is Err ==> *final(db) == *old(db),
        r matches Ok(p) ==> {
            &&& old(db).has_user_id(user_id@)
            &&& p.user_id@ == user_id@
            &&& p.name@ == name@
            &&& p.phone == phone
            &&& p.email == email
            &&& p.cpf is None
            &&& p.address is None
            &&& final(db).patients@ == old(db).patients@.push(final(db).patients@.last())
            &&& final(db).patients@.last().patient == p
            &&& final(db).patients@.last().deleted_at is None
        },
        final(db).users@ == old(db).users@,
        final(db).settings@ == old(db).settings@,
        final(db).sessions@ == old(db).sessions@,
{
    let id = new_id();
    let now = now_rfc3339();
    create_patient_with(db, id, now, user_id, name, phone, email)
}

/// Lists the active patients of `user_id`, sorted by name ascending
/// with the id as tie-break. Soft-deleted rows never appear.
pub fn list_patients(db: &Db, user_id: String) -> (r: Vec<Patient>)
    requires
        db.wf(),
    ensures
        r@.to_multiset() == active_patients_of(db.patients@, user_id@),
        patients_sorted(r@),
        forall|k: int| 0 <= k < r@.len() ==> exists|j: int|
            0 <= j < db.patients@.len() && (#[trigger] db.patients@[j]).patient == (#[trigger] r@[k])
                && db.patients@[j].deleted_at is None
                && db.patients@[j].patient.user_id@ == user_id@,
{
    broadcast use vstd::seq_lib::group_to_multiset_ensures;

    let mut out: Vec<Patient> = Vec::new();
    let mut i: usize = 0;
    proof {
        assert(db.patients@.take(0) =~= Seq::<PatientRecord>::empty());
        assert(out@.to_multiset() =~= Multiset::<Patient>::empty());
    }
    while i < db.patients.len()
        invariant
            db.wf(),
            i <= db.patients@.len(),
            patients_sorted(out@),
            out@.to_multiset() == active_patients_of(db.patients@.take(i as int), user_id@),
            forall|k: int| 0 <= k < out@.len() ==> exists|j: int|
                0 <= j < db.patients@.len() && (#[trigger] db.patients@[j]).patient == (#[trigger] out@[k])
                    && db.patients@[j].deleted_at is None
                    && db.patients@[j].patient.user_id@ == user_id@,
        decreases db.patients@.len() - i,
    {
        let ghost prefix = db.patients@.take(i as int);
        let ghost grown = db.patients@.take(i + 1);
        proof {
            assert(grown.drop_last() =~= prefix);
            assert(grown.last() == db.patients@[i as int]);
        }
        let record = &db.patients[i];
        if record.deleted_at.is_none() && record.patient.user_id == user_id {
            let ghost old_out = out@;
            insert_sorted(&mut out, record.patient.clone());
            proof {
                assert forall|k: int| 0 <= k < out@.len() implies exists|j: int|
                    0 <= j < db.patients@.len() && (#[trigger] db.patients@[j]).patient == (#[trigger] out@[k])
                        && db.patients@[j].deleted_at is None
                        && db.patients@[j].patient.user_id@ == user_id@ by {
                    if out@[k] == db.patients@[i as int].patient {
                        assert(db.patients@[i as int].patient == out@[k]);
                    } else {
                        assert(old_out.contains(out@[k]));
                        let k0 = choose|k0: int| 0 <= k0 < old_out.len() && old_out[k0] == out@[k];
                        assert(exists|j: int| 0 <= j < db.patients@.len()
                            && (#[trigger] db.patients@[j]).patient == old_out[k0]
                            && db.patients@[j].deleted_at is None
                            && db.patients@[j].patient.user_id@ == user_id@);
                    }
                }
            }
        }
        i = i + 1;
    }
    proof {
        assert(db.patients@.take(db.patients@.len() as int) =~= db.patients@);
    }
    out
}

/// A row after a full-replace update: name, phone and email are the
/// supplied values, `updated_at` is the supplied timestamp, everything
/// else is kept.
pub open spec fn patient_updated(
    pre: PatientRecord,
    post: PatientRecord,
    name: Seq<char>,
    phone: Option<String>,
    email: Option<String>,
    now: Seq<char>,
) -> bool {
    &&& post.patient.id == pre.patient.id
    &&& post.patient.user_id == pre.patient.user_id
    &&& post.patient.name@ == name
    &&& post.patient.phone == phone
    &&& post.patient.email == email
    &&& post.patient.cpf == pre.patient.cpf
    &&& post.patient.address == pre.patient.address
    &&& post.patient.created_at == pre.patient.created_at
    &&& post.updated_at@ == now
    &&& post.deleted_at == pre.deleted_at
}

/// Updates a patient at a supplied timestamp. This is the deterministic
/// core of `update_patient`.
///
/// `NotFound` is answered exactly when no active row carries `id`
/// with owner `user_id` — a user cannot update another user's patient;
/// on success that row (unique by well-formedness) is replaced as
/// `patient_updated` says, and nothing else changes.
pub fn update_patient_at(
    db: &mut Db,
    id: String,
    user_id: String,
    name: String,
    phone: Option<String>,
    email: Option<String>,
    now: String,
) -> (r: Result<(), AppError>)
    requires
        old(db).wf(),
    ensures
        final(db).wf(),
        !old(db).has_active_patient_of(id@, user_id@) ==> r == Err::<(), AppError>(
            AppError::NotFound,
        ) && *final(db) == *old(db),
        old(db).has_active_patient_of(id@, user_id@) ==> (r is Ok && exists|j: int| {
            &&& 0 <= j < old(db).patients@.len()
            &&& (#[trigger] old(db).patients@[j]).patient.id@ == id@
            &&& old(db).patients@[j].patient.user_id@ == user_id@
            &&& old(db).patients@[j].deleted_at is None
            &&& final(db).patients@ == old(db).patients@.update(j, final(db).patients@[j])
            &&& patient_updated(old(db).patients@[j], final(db).patients@[j], name@, phone, email, now@)
        }),
        final(db).users@ == old(db).users@,
        final(db).settings@ == old(db).settings@,
        final(db).sessions@ == old(db).sessions@,
{
    let idx = match db.find_active_patient_of(&id, &user_id) {
        Some(i) => i,
        None => {
            return Err(AppError::NotFound);
        },
    };
    let ghost pre = *db;
    let old_record = db.patients.remove(idx);
    let new_record = PatientRecord {
        patient: Patient {
            id: old_record.patient.id,
            user_id: old_record.patient.user_id,
            name,
            email,
            phone,
            cpf: old_record.patient.cpf,
            address: old_record.patient.address,
            created_at: old_record.patient.created_at,
        },
        updated_at: now,
        deleted_at: old_record.deleted_at,
    };
    db.patients.insert(idx, new_record);
    proof {
        let j = idx as int;
        assert(db.patients@ =~= pre.patients@.update(j, db.patients@[j]));
        assert(patient_updated(pre.patients@[j], db.patients@[j], name@, phone, email, now@));
        assert forall|i: int| 0 <= i < db.patients@.len()
            implies db.has_user_id((#[trigger] db.patients@[i]).patient.user_id@) by {
            assert(pre.has_user_id(pre.patients@[i].patient.user_id@));
            assert(db.patients@[i].patient.user_id@ == pre.patients@[i].patient.user_id@);
            assert(db.users@ == pre.users@);
        }
        assert forall|i: int| 0 <= i < db.sessions@.len() implies exists|jj: int|
            0 <= jj < db.patients@.len()
            && (#[trigger] db.patients@[jj]).patient.id@ == (#[trigger] db.sessions@[i]).session.patient_id@
            && db.patients@[jj].patient.user_id@ == db.sessions@[i].session.user_id@ by {
            let jj = choose|jj: int| 0 <= jj < pre.patients@.len()
                && (#[trigger] pre.patients@[jj]).patient.id@ == pre.sessions@[i].session.patient_id@
                && pre.patients@[jj].patient.user_id@ == pre.sessions@[i].session.user_id@;
            assert(db.patients@[jj].patient.id@ == db.sessions@[i].session.patient_id@);
            assert(db.patients@[jj].patient.user_id@ == db.sessions@[i].session.user_id@);
        }
    }
    Ok(())
}

/// Updates a patient's name, phone and email (full replace) at the
/// current time, scoped by owner. `NotFound` exactly when no active
/// row carries `id` with owner `user_id`.
pub fn update_patient(
    db: &mut Db,
    id: String,
    user_id: String,
    name: String,
    phone: Option<String>,
    email: Option<String>,
) -> (r: Result<(), AppError>)
    requires
        old(db).wf(),
    ensures
        final(db).wf(),
        !old(db).has_active_patient_of(id@, user_id@) ==> r == Err::<(), AppError>(
            AppError::NotFound,
        ) && *final(db) == *old(db),
        old(db).has_active_patient_of(id@, user_id@) ==> (r is Ok && exists|j: int| {
            &&& 0 <= j < old(db).patients@.len()
            &&& (#[trigger] old(db).patients@[j]).patient.id@ == id@
            &&& old(db).patients@[j].patient.user_id@ == user_id@
            &&& old(db).patients@[j].deleted_at is None
            &&& final(db).patients@ == old(db).patients@.update(j, final(db).patients@[j])
            &&& patient_updated(old(db).patients@[j], final(db).patients@[j], name@, phone, email,
                final(db).patients@[j].updated_at@)
        }),
        final(db).users@ == old(db).users@,
        final(db).settings@ == old(db).settings@,
        final(db).sessions@ == old(db).sessions@,
{
    let now = now_rfc3339();
    update_patient_at(db, id, user_id, name, phone, email, now)
}

/// Soft-deletes a patient at a supplied timestamp. This is the
/// deterministic core of `delete_patient`.
///
/// The row must be active, carry `id` and belong to `user_id` — a user
/// cannot delete another user's patient — else `NotFound`. On success
/// only `deleted_at` changes, to the given timestamp; in particular the
/// patient's sessions are untouched.
pub fn delete_patient_at(db: &mut Db, id: String, user_id: String, now: String) -> (r: Result<
    (),
    AppError,
>)
    requires
        old(db).wf(),
    ensures
        final(db).wf(),
        !old(db).has_active_patient_of(id@, user_id@) ==> r == Err::<(), AppError>(
            AppError::NotFound,
        ) && *final(db) == *old(db),
        old(db).has_active_patient_of(id@, user_id@) ==> (r is Ok && exists|j: int| {
            &&& 0 <= j < old(db).patients@.len()
            &&& (#[trigger] old(db).patients@[j]).patient.id@ == id@
            &&& old(db).patients@[j].patient.user_id@ == user_id@
            &&& old(db).patients@[j].deleted_at is None
            &&& final(db).patients@ == old(db).patients@.update(j, final(db).patients@[j])
            &&& final(db).patients@[j].patient == old(db).patients@[j].patient
            &&& final(db).patients@[j].updated_at == old(db).patients@[j].updated_at
            &&& final(db).patients@[j].deleted_at matches Some(t) && t@ == now@
        }),
        final(db).users@ == old(db).users@,
        final(db).settings@ == old(db).settings@,
        final(db).sessions@ == old(db).sessions@,
{
    let idx = match db.find_active_patient_of(&id, &user_id) {
        Some(i) => i,
        None => {
            return Err(AppError::NotFound);
        },
    };
    let ghost pre = *db;
    let old_record = db.patients.remove(idx);
    let new_record = PatientRecord {
        patient: old_record.patient,
        updated_at: old_record.updated_at,
        deleted_at: Some(now),
    };
    db.patients.insert(idx, new_record);
    proof {
        let j = idx as int;
        assert(db.patients@ =~= pre.patients@.update(j, db.patients@[j]));
        assert forall|i: int| 0 <= i < db.patients@.len()
            implies db.has_user_id((#[trigger] db.patients@[i]).patient.user_id@) by {
            assert(pre.has_user_id(pre.patients@[i].patient.user_id@));
            assert(db.patients@[i].patient.user_id@ == pre.patients@[i].patient.user_id@);
            let j = choose|j: int| 0 <= j < pre.users@.len()
                && (#[trigger] pre.users@[j]).user.id@ == pre.patients@[i].patient.user_id@;
            assert(db.users@[j].user.id@ == db.patients@[i].patient.user_id@);
        }
        assert forall|i: int| 0 <= i < db.sessions@.len() implies exists|jj: int|
            0 <= jj < db.patients@.len()
            && (#[trigger] db.patients@[jj]).patient.id@ == (#[trigger] db.sessions@[i]).session.patient_id@
            && db.patients@[jj].patient.user_id@ == db.sessions@[i].session.user_id@ by {
            let jj = choose|jj: int| 0 <= jj < pre.patients@.len()
                && (#[trigger] pre.patients@[jj]).patient.id@ == pre.sessions@[i].session.patient_id@
                && pre.patients@[jj].patient.user_id@ == pre.sessions@[i].session.user_id@;
            assert(db.patients@[jj].patient.id@ == db.sessions@[i].session.patient_id@);
        }
    }
    Ok(())
}

/// Soft-deletes a patient at the current time, scoped by owner.
pub fn delete_patient(db: &mut Db, id: String, user_id: String) -> (r: Result<(), AppError>)
    requires
        old(db).wf(),
    ensures
        final(db).wf(),
        !old(db).has_active_patient_of(id@, user_id@) ==> r == Err::<(), AppError>(
            AppError::NotFound,
        ) && *final(db) == *old(db),
        old(db).has_active_patient_of(id@, user_id@) ==> (r is Ok && exists|j: int| {
            &&& 0 <= j < old(db).patients@.len()
            &&& (#[trigger] old(db).patients@[j]).patient.id@ == id@
            &&& old(db).patients@[j].patient.user_id@ == user_id@
            &&& old(db).patients@[j].deleted_at is None
            &&& final(db).patients@ == old(db).patients@.update(j, final(db).patients@[j])
            &&& final(db).patients@[j].patient == old(db).patients@[j].patient
            &&& final(db).patients@[j].deleted_at is Some
        }),
        final(db).users@ == old(db).users@,
        final(db).settings@ == old(db).settings@,
        final(db).sessions@ == old(db).sessions@,
{
    let now = now_rfc3339();
    delete_patient_at(db, id, user_id, now)
}

} // verus!
