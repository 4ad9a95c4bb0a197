//! Therapy session records: creation, listing, update and soft-delete.
//!
//! A session may only be created for an existing, active patient, and
//! the creating user must be that patient's owner. Start must precede
//! end (timestamps are compared lexicographically, which for a fixed
//! timestamp format is chronological order). Listings exclude
//! soft-deleted rows and are sorted by start time descending, with the
//! id as a deterministic tie-break. Updates follow the full-replace
//! policy.

use vstd::prelude::*;
use vstd::multiset::Multiset;
use crate::models::{Session, AppError};
use crate::store::{Db, SessionRecord};
use crate::order::{lex_lt, lex_le, lemma_lex_total, lemma_lex_trans, str_lt, str_eq};
use crate::patients::lemma_seq_insert_multiset;
use crate::host::{new_id, now_rfc3339};

verus! {

/// Listing order: by start time descending, then by id ascending.
pub open spec fn session_le(a: Session, b: Session) -> bool {
    lex_lt(b.start_time@, a.start_time@) || (a.start_time@ == b.start_time@ && lex_le(
        a.id@,
        b.id@,
    ))
}

/// A listing is sorted when adjacent-or-farther elements are ordered.
pub open spec fn sessions_sorted(s: Seq<Session>) -> bool {
    forall|i: int, j: int| 0 <= i < j < s.len() ==> session_le(#[trigger] s[i], #[trigger] s[j])
}

/// The listing order is total.
pub proof fn lemma_session_le_total(a: Session, b: Session)
    ensures
        session_le(a, b) || session_le(b, a),
{
    lemma_lex_total(a.start_time@, b.start_time@);
    lemma_lex_total(a.id@, b.id@);
}

/// The listing order is transitive.
pub proof fn lemma_session_le_trans(a: Session, b: Session, c: Session)
    requires
        session_le(a, b),
        session_le(b, c),
    ensures
        session_le(a, c),
{
    lemma_lex_total(a.start_time@, b.start_time@);
    lemma_lex_total(b.start_time@, c.start_time@);
    lemma_lex_total(a.start_time@, c.start_time@);
    lemma_lex_trans(c.start_time@, b.start_time@, a.start_time@);
    if a.start_time@ == c.start_time@ {
        if a.start_time@ == b.start_time@ && b.start_time@ == c.start_time@ {
            lemma_lex_trans(a.id@, b.id@, c.id@);
        } else {
            if lex_lt(b.start_time@, a.start_time@) {
                lemma_lex_trans(b.start_time@, a.start_time@, c.start_time@);
                lemma_lex_total(b.start_time@, c.start_time@);
            }
            if lex_lt(c.start_time@, b.start_time@) {
                lemma_lex_trans(a.start_time@, c.start_time@, b.start_time@);
                lemma_lex_total(a.start_time@, b.start_time@);
            }
        }
    }
}

/// Decides `session_le`.
fn session_le_exec(a: &Session, b: &Session) -> (r: bool)
    ensures
        r == session_le(*a, *b),
{
    if str_lt(b.start_time.as_str(), a.start_time.as_str()) {
        true
    } else if str_eq(a.start_time.as_str(), b.start_time.as_str()) {
        str_lt(a.id.as_str(), b.id.as_str()) || str_eq(a.id.as_str(), b.id.as_str())
    } else {
        false
    }
}

/// Inserts `s` at its sorted position.
fn insert_sorted(v: &mut Vec<Session>, p: Session)
    requires
        sessions_sorted(old(v)@),
    ensures
        sessions_sorted(final(v)@),
        final(v)@.to_multiset() == old(v)@.to_multiset().insert(p),
        final(v)@.len() == old(v)@.len() + 1,
        forall|k: int| 0 <= k < final(v)@.len() ==> (#[trigger] final(v)@[k]) == p
            || old(v)@.contains(final(v)@[k]),
{
    let mut pos: usize = 0;
    loop
        invariant
            pos <= v@.len(),
            sessions_sorted(v@),
            forall|k: int| 0 <= k < pos ==> session_le(#[trigger] v@[k], p),
        ensures
            pos <= v@.len(),
            forall|k: int| 0 <= k < pos ==> session_le(#[trigger] v@[k], p),
            pos < v@.len() ==> !session_le(v@[pos as int], p),
        decreases v@.len() - pos,
    {
        if pos == v.len() {
            break;
        }
        if !session_le_exec(&v[pos], &p) {
            break;
        }
        pos = pos + 1;
    }
    let ghost pre = v@;
    let ghost gpos = pos as int;
    v.insert(pos, p);
    proof {
        lemma_seq_insert_multiset(pre, gpos, p);
        assert forall|i: int, j: int| 0 <= i < j < v@.len()
            implies session_le(#[trigger] v@[i], #[trigger] v@[j]) by {
            if i < gpos && j < gpos {
                assert(v@[i] == pre[i] && v@[j] == pre[j]);
            } else if i < gpos && j == gpos {
                assert(v@[i] == pre[i]);
            } else if i < gpos && j > gpos {
                assert(v@[i] == pre[i] && v@[j] == pre[j - 1]);
                if gpos <= j - 1 < pre.len() && gpos < pre.len() {
                    lemma_session_le_total(pre[gpos], p);
                    if gpos < j - 1 {
                        lemma_session_le_trans(pre[i], pre[gpos], pre[j - 1]);
                    }
                }
            } else if i == gpos {
                assert(v@[i] == p && v@[j] == pre[j - 1]);
                lemma_session_le_total(pre[gpos], p);
                if gpos < j - 1 {
                    lemma_session_le_trans(p, pre[gpos], pre[j - 1]);
                }
            } else {
                assert(v@[i] == pre[i - 1] && v@[j] == pre[j - 1]);
            }
        }
        assert forall|k: int| 0 <= k < v@.len() implies (#[trigger] v@[k]) == p
            || pre.contains(v@[k]) by {
            if k < gpos {
                assert(v@[k] == pre[k]);
            } else if k > gpos {
                assert(v@[k] == pre[k - 1]);
            }
        }
    }
}

/// The active sessions of a patient, as a multiset of entities.
pub open spec fn active_sessions_of(s: Seq<SessionRecord>, patient_id: Seq<char>) -> Multiset<
    Session,
>
    decreases s.len(),
{
    if s.len() == 0 {
        Multiset::empty()
    } else {
        let rest = active_sessions_of(s.drop_last(), patient_id);
        if s.last().deleted_at is None && s.last().session.patient_id@ == patient_id {
            rest.insert(s.last().session)
        } else {
            rest
        }
    }
}

/// Every member of the active multiset comes from an active row of the
/// patient.
pub proof fn lemma_active_sessions_member(s: Seq<SessionRecord>, patient_id: Seq<char>, x: Session)
    requires
        active_sessions_of(s, patient_id).count(x) > 0,
    ensures
        exists|j: int| 0 <= j < s.len() && (#[trigger] s[j]).session == x
            && s[j].deleted_at is None && s[j].session.patient_id@ == patient_id,
    decreases s.len(),
{
    broadcast use vstd::multiset::group_multiset_axioms;

    if s.len() > 0 {
        if s.last().deleted_at is None && s.last().session.patient_id@ == patient_id
            && s.last().session == x {
            assert(s[s.len() - 1].session == x);
        } else {
            lemma_active_sessions_member(s.drop_last(), patient_id, x);
            let j = choose|j: int| 0 <= j < s.drop_last().len()
                && (#[trigger] s.drop_last()[j]).session == x
                && s.drop_last()[j].deleted_at is None
                && s.drop_last()[j].session.patient_id@ == patient_id;
            assert(s[j].session == x && s[j].deleted_at is None
                && s[j].session.patient_id@ == patient_id);
        }
    }
}

/// Every active row of the patient contributes its entity to the
/// active multiset.
pub proof fn lemma_active_sessions_complete(s: Seq<SessionRecord>, patient_id: Seq<char>, j: int)
    requires
        0 <= j < s.len(),
        s[j].deleted_at is None,
        s[j].session.patient_id@ == patient_id,
    ensures
        active_sessions_of(s, patient_id).count(s[j].session) > 0,
    decreases s.len(),
{
    broadcast use vstd::multiset::group_multiset_axioms;

    if j == s.len() - 1 {
    } else {
        assert(s.drop_last()[j] == s[j]);
        lemma_active_sessions_complete(s.drop_last(), patient_id, j);
    }
}

/// Creates a session from an already-generated id and timestamp. This
/// is the deterministic core of `create_session`.
///
/// `Validation` is answered exactly when the start time does not
/// precede the end time; otherwise `NotFound` exactly when no active
/// patient carries `patient_id` with owner `user_id` — so a patient
/// owned by a different user is rejected; otherwise `StorageFailure`
/// exactly when the supplied id is already in use. On success the new
/// row is appended, active.
#[verifier::rlimit(50)]
pub fn create_session_with(
    db: &mut Db,
    id: String,
    now: String,
    user_id: String,
    patient_id: String,
    start_time: String,
    end_time: String,
    notes: Option<String>,
    value: i64,
    status: String,
) -> (r: Result<Session, AppError>)
    requires
        old(db).wf(),
    ensures
        final(db).wf(),
        !lex_lt(start_time@, end_time@) ==> r == Err::<Session, AppError>(AppError::Validation)
            && *final(db) == *old(db),
        lex_lt(start_time@, end_time@) && !old(db).has_active_patient_of(patient_id@, user_id@)
            ==> r == Err::<Session, AppError>(AppError::NotFound) && *final(db) == *old(db),
        lex_lt(start_time@, end_time@) && old(db).has_active_patient_of(patient_id@, user_id@)
            && old(db).has_session_id(id@) ==> r == Err::<Session, AppError>(
            AppError::StorageFailure,
        ) && *final(db) == *old(db),
        lex_lt(start_time@, end_time@) && old(db).has_active_patient_of(patient_id@, user_id@)
            && !old(db).has_session_id(id@) ==> (r matches Ok(s) && {
            &&& s.id@ == id@
            &&& s.user_id@ == user_id@
            &&& s.patient_id@ == patient_id@
            &&& s.start_time@ == start_time@
            &&& s.end_time@ == end_time@
            &&& s.notes == notes
            &&& s.value == value
            &&& s.status@ == status@
            &&& s.created_at@ == now@
            &&& final(db).sessions@ == old(db).sessions@.push(final(db).sessions@.last())
            &&& final(db).sessions@.last().session == s
            &&& final(db).sessions@.last().deleted_at is None
            &&& final(db).sessions@.last().updated_at@ == now@
        }),
        final(db).users@ == old(db).users@,
        final(db).settings@ == old(db).settings@,
        final(db).patients@ == old(db).patients@,
{
    if !str_lt(start_time.as_str(), end_time.as_str()) {
        return Err(AppError::Validation);
    }
    let patient_idx = match db.find_active_patient_of(&patient_id, &user_id) {
        Some(i) => i,
        None => {
            return Err(AppError::NotFound);
        },
    };
    if db.session_id_exists(&id) {
        return Err(AppError::StorageFailure);
    }
    let session = Session {
        id,
        user_id,
        patient_id,
        start_time,
        end_time,
        notes,
        value,
        status,
        created_at: now.clone(),
    };
    let record = SessionRecord { session: session.clone(), updated_at: now, deleted_at: None };
    let ghost pre = *db;
    let ghost gpidx = patient_idx as int;
    db.sessions.push(record);
    proof {
        assert forall|i: int, j: int| 0 <= i < j < db.sessions@.len()
            implies (#[trigger] db.sessions@[i]).session.id@
                != (#[trigger] db.sessions@[j]).session.id@ by {
            if j == db.sessions@.len() - 1 {
                assert(db.sessions@[i] == pre.sessions@[i]);
                assert(!pre.has_session_id(db.sessions@[j].session.id@));
            }
        }
        assert forall|i: int| 0 <= i < db.sessions@.len() implies exists|j: int|
            0 <= j < db.patients@.len()
            && (#[trigger] db.patients@[j]).patient.id@ == (#[trigger] db.sessions@[i]).session.patient_id@
            && db.patients@[j].patient.user_id@ == db.sessions@[i].session.user_id@ by {
            if i < pre.sessions@.len() {
                let j = choose|j: int| 0 <= j < pre.patients@.len()
                    && (#[trigger] pre.patients@[j]).patient.id@ == pre.sessions@[i].session.patient_id@
                    && pre.patients@[j].patient.user_id@ == pre.sessions@[i].session.user_id@;
                assert(db.patients@[j].patient.id@ == db.sessions@[i].session.patient_id@);
            } else {
                assert(db.patients@[gpidx].patient.id@ == db.sessions@[i].session.patient_id@);
                assert(db.patients@[gpidx].patient.user_id@ == db.sessions@[i].session.user_id@);
            }
        }
        assert forall|i: int| 0 <= i < db.settings@.len()
            implies db.has_user_id((#[trigger] db.settings@[i]).user_id@) by {
            assert(pre.has_user_id(pre.settings@[i].user_id@));
            let j = choose|j: int| 0 <= j < pre.users@.len()
                && (#[trigger] pre.users@[j]).user.id@ == pre.settings@[i].user_id@;
            assert(db.users@[j].user.id@ == db.settings@[i].user_id@);
        }
        assert forall|i: int| 0 <= i < db.patients@.len()
            implies db.has_user_id((#[trigger] db.patients@[i]).patient.user_id@) by {
            assert(pre.has_user_id(pre.patients@[i].patient.user_id@));
            let j = choose|j: int| 0 <= j < pre.users@.len()
                && (#[trigger] pre.users@[j]).user.id@ == pre.patients@[i].patient.user_id@;
            assert(db.users@[j].user.id@ == db.patients@[i].patient.user_id@);
        }
    }
    Ok(session)
}

/// Creates a session with a fresh id and the current time.
///
/// `Validation` exactly when the start time does not precede the end
/// time; `NotFound` exactly when the patient is absent, soft-deleted or
/// owned by a different user; success additionally needs the drawn id
/// to be fresh (a collision answers `StorageFailure`).
pub fn create_session(
    db: &mut Db,
    user_id: String,
    patient_id: String,
    start_time: String,
    end_time: String,
    notes: Option<String>,
    value: i64,
    status: String,
) -> (r: Result<Session, AppError>)
    requires
        old(db).wf(),
    ensures
        final(db).wf(),
        !lex_lt(start_time@, end_time@) ==> r == Err::<Session, AppError>(AppError::Validation),
        lex_lt(start_time@, end_time@) && !old(db).has_active_patient_of(patient_id@, user_id@)
            ==> r == Err::<Session, AppError>(AppError::NotFound),
        r is Err ==> *final(db) == *old(db),
        r matches Ok(s) ==> {
            &&& lex_lt(start_time@, end_time@)
            &&& old(db).has_active_patient_of(patient_id@, user_id@)
            &&& s.user_id@ == user_id@
            &&& s.patient_id@ == patient_id@
            &&& s.start_time@ == start_time@
            &&& s.end_time@ == end_time@
            &&& s.notes == notes
            &&& s.value == value
            &&& s.status@ == status@
            &&& final(db).sessions@ == old(db).sessions@.push(final(db).sessions@.last())
            &&& final(db).sessions@.last().session == s
            &&& final(db).sessions@.last().deleted_at is None
        },
        final(db).users@ == old(db).users@,
        final(db).settings@ == old(db).settings@,
        final(db).patients@ == old(db).patients@,
{
    let id = new_id();
    let now = now_rfc3339();
    create_session_with(db, id, now, user_id, patient_id, start_time, end_time, notes, value, status)
}

/// Lists the active sessions of `patient_id`, most recent start time
/// first, with the id as tie-break. Soft-deleted rows never appear.
/// The listing works whether or not the patient itself is still active.
pub fn list_sessions_by_patient(db: &Db, patient_id: String) -> (r: Vec<Session>)
    requires
        db.wf(),
    ensures
        r@.to_multiset() == active_sessions_of(db.sessions@, patient_id@),
        sessions_sorted(r@),
        forall|k: int| 0 <= k < r@.len() ==> exists|j: int|
            0 <= j < db.sessions@.len() && (#[trigger] db.sessions@[j]).session == (#[trigger] r@[k])
                && db.sessions@[j].deleted_at is None
                && db.sessions@[j].session.patient_id@ == patient_id@,
{
    broadcast use vstd::seq_lib::group_to_multiset_ensures;

    let mut out: Vec<Session> = Vec::new();
    let mut i: usize = 0;
    proof {
        assert(db.sessions@.take(0) =~= Seq::<SessionRecord>::empty());
        assert(out@.to_multiset() =~= Multiset::<Session>::empty());
    }
    while i < db.sessions.len()
        invariant
            db.wf(),
            i <= db.sessions@.len(),
            sessions_sorted(out@),
            out@.to_multiset() == active_sessions_of(db.sessions@.take(i as int), patient_id@),
            forall|k: int| 0 <= k < out@.len() ==> exists|j: int|
                0 <= j < db.sessions@.len() && (#[trigger] db.sessions@[j]).session == (#[trigger] out@[k])
                    && db.sessions@[j].deleted_at is None
                    && db.sessions@[j].session.patient_id@ == patient_id@,
        decreases db.sessions@.len() - i,
    {
        let ghost prefix = db.sessions@.take(i as int);
        let ghost grown = db.sessions@.take(i + 1);
        proof {
            assert(grown.drop_last() =~= prefix);
            assert(grown.last() == db.sessions@[i as int]);
        }
        let record = &db.sessions[i];
        if record.deleted_at.is_none() && record.session.patient_id == patient_id {
            let ghost old_out = out@;
            insert_sorted(&mut out, record.session.clone());
            proof {
                assert forall|k: int| 0 <= k < out@.len() implies exists|j: int|
                    0 <= j < db.sessions@.len() && (#[trigger] db.sessions@[j]).session == (#[trigger] out@[k])
                        && db.sessions@[j].deleted_at is None
                        && db.sessions@[j].session.patient_id@ == patient_id@ by {
                    if out@[k] == db.sessions@[i as int].session {
                        assert(db.sessions@[i as int].session == out@[k]);
                    } else {
                        assert(old_out.contains(out@[k]));
                        let k0 = choose|k0: int| 0 <= k0 < old_out.len() && old_out[k0] == out@[k];
                        assert(exists|j: int| 0 <= j < db.sessions@.len()
                            && (#[trigger] db.sessions@[j]).session == old_out[k0]
                            && db.sessions@[j].deleted_at is None
                            && db.sessions@[j].session.patient_id@ == patient_id@);
                    }
                }
            }
        }
        i = i + 1;
    }
    proof {
        assert(db.sessions@.take(db.sessions@.len() as int) =~= db.sessions@);
    }
    out
}

/// A row after a full-replace update: the listed fields are the
/// supplied values, `updated_at` is the supplied timestamp, everything
/// else is kept.
pub open spec fn session_updated(
    pre: SessionRecord,
    post: SessionRecord,
    start_time: Seq<char>,
    end_time: Seq<char>,
    notes: Option<String>,
    value: i64,
    status: Seq<char>,
    now: Seq<char>,
) -> bool {
    &&& post.session.id == pre.session.id
    &&& post.session.user_id == pre.session.user_id
    &&& post.session.patient_id == pre.session.patient_id
    &&& post.session.start_time@ == start_time
    &&& post.session.end_time@ == end_time
    &&& post.session.notes == notes
    &&& post.session.value == value
    &&& post.session.status@ == status
    &&& post.session.created_at == pre.session.created_at
    &&& post.updated_at@ == now
    &&& post.deleted_at == pre.deleted_at
}

/// Updates a session at a supplied timestamp. This is the
/// deterministic core of `update_session`.
///
/// `Validation` is answered exactly when the start time does not
/// precede the end time, `NotFound` exactly when (with valid times) no
/// active row carries `id`; on success that row is replaced as
/// `session_updated` says, and nothing else changes.
pub fn update_session_at(
    db: &mut Db,
    id: String,
    start_time: String,
    end_time: String,
    notes: Option<String>,
    value: i64,
    status: String,
    now: String,
) -> (r: Result<(), AppError>)
    requires
        old(db).wf(),
    ensures
        final(db).wf(),
        !lex_lt(start_time@, end_time@) ==> r == Err::<(), AppError>(AppError::Validation)
            && *final(db) == *old(db),
        lex_lt(start_time@, end_time@) && !old(db).has_active_session(id@) ==> r == Err::<
            (),
            AppError,
        >(AppError::NotFound) && *final(db) == *old(db),
        lex_lt(start_time@, end_time@) && old(db).has_active_session(id@) ==> (r is Ok
            && exists|j: int| {
            &&& 0 <= j < old(db).sessions@.len()
            &&& (#[trigger] old(db).sessions@[j]).session.id@ == id@
            &&& old(db).sessions@[j].deleted_at is None
            &&& final(db).sessions@ == old(db).sessions@.update(j, final(db).sessions@[j])
            &&& session_updated(old(db).sessions@[j], final(db).sessions@[j], start_time@,
                end_time@, notes, value, status@, now@)
        }),
        final(db).users@ == old(db).users@,
        final(db).settings@ == old(db).settings@,
        final(db).patients@ == old(db).patients@,
{
    if !str_lt(start_time.as_str(), end_time.as_str()) {
        return Err(AppError::Validation);
    }
    let idx = match db.find_active_session(&id) {
        Some(i) => i,
        None => {
            return Err(AppError::NotFound);
        },
    };
    let ghost pre = *db;
    let old_record = db.sessions.remove(idx);
    let new_record = SessionRecord {
        session: Session {
            id: old_record.session.id,
            user_id: old_record.session.user_id,
            patient_id: old_record.session.patient_id,
            start_time,
            end_time,
            notes,
            value,
            status,
            created_at: old_record.session.created_at,
        },
        updated_at: now,
        deleted_at: old_record.deleted_at,
    };
    db.sessions.insert(idx, new_record);
    proof {
        let j = idx as int;
        assert(db.sessions@ =~= pre.sessions@.update(j, db.sessions@[j]));
        assert forall|i: int| 0 <= i < db.settings@.len()
            implies db.has_user_id((#[trigger] db.settings@[i]).user_id@) by {
            assert(pre.has_user_id(pre.settings@[i].user_id@));
            let j = choose|j: int| 0 <= j < pre.users@.len()
                && (#[trigger] pre.users@[j]).user.id@ == pre.settings@[i].user_id@;
            assert(db.users@[j].user.id@ == db.settings@[i].user_id@);
        }
        assert forall|i: int| 0 <= i < db.patients@.len()
            implies db.has_user_id((#[trigger] db.patients@[i]).patient.user_id@) by {
            assert(pre.has_user_id(pre.patients@[i].patient.user_id@));
            let j = choose|j: int| 0 <= j < pre.users@.len()
                && (#[trigger] pre.users@[j]).user.id@ == pre.patients@[i].patient.user_id@;
            assert(db.users@[j].user.id@ == db.patients@[i].patient.user_id@);
        }
        assert forall|i: int| 0 <= i < db.sessions@.len() implies exists|jj: int|
            0 <= jj < db.patients@.len()
            && (#[trigger] db.patients@[jj]).patient.id@ == (#[trigger] db.sessions@[i]).session.patient_id@
            && db.patients@[jj].patient.user_id@ == db.sessions@[i].session.user_id@ by {
            assert(db.sessions@[i].session.patient_id@ == pre.sessions@[i].session.patient_id@);
            assert(db.sessions@[i].session.user_id@ == pre.sessions@[i].session.user_id@);
            let jj = choose|jj: int| 0 <= jj < pre.patients@.len()
                && (#[trigger] pre.patients@[jj]).patient.id@ == pre.sessions@[i].session.patient_id@
                && pre.patients@[jj].patient.user_id@ == pre.sessions@[i].session.user_id@;
            assert(db.patients@[jj].patient.id@ == db.sessions@[i].session.patient_id@);
        }
    }
    Ok(())
}

/// Updates a session (full replace) at the current time.
pub fn update_session(
    db: &mut Db,
    id: String,
    start_time: String,
    end_time: String,
    notes: Option<String>,
    value: i64,
    status: String,
) -> (r: Result<(), AppError>)
    requires
        old(db).wf(),
    ensures
        final(db).wf(),
        !lex_lt(start_time@, end_time@) ==> r == Err::<(), AppError>(AppError::Validation)
            && *final(db) == *old(db),
        lex_lt(start_time@, end_time@) && !old(db).has_active_session(id@) ==> r == Err::<
            (),
            AppError,
        >(AppError::NotFound) && *final(db) == *old(db),
        lex_lt(start_time@, end_time@) && old(db).has_active_session(id@) ==> (r is Ok
            && exists|j: int| {
            &&& 0 <= j < old(db).sessions@.len()
            &&& (#[trigger] old(db).sessions@[j]).session.id@ == id@
            &&& old(db).sessions@[j].deleted_at is None
            &&& final(db).sessions@ == old(db).sessions@.update(j, final(db).sessions@[j])
            &&& session_updated(old(db).sessions@[j], final(db).sessions@[j], start_time@,
                end_time@, notes, value, status@, final(db).sessions@[j].updated_at@)
        }),
        final(db).users@ == old(db).users@,
        final(db).settings@ == old(db).settings@,
        final(db).patients@ == old(db).patients@,
{
    let now = now_rfc3339();
    update_session_at(db, id, start_time, end_time, notes, value, status, now)
}

/// Soft-deletes a session at a supplied timestamp. This is the
/// deterministic core of `delete_session`.
///
/// `NotFound` is answered exactly when no active row carries `id`
/// with owner `user_id` — a user cannot delete another user's
/// session; on success only `deleted_at` changes, to the given
/// timestamp.
pub fn delete_session_at(db: &mut Db, id: String, user_id: String, now: String) -> (r: Result<
    (),
    AppError,
>)
    requires
        old(db).wf(),
    ensures
        final(db).wf(),
        !old(db).has_active_session_of(id@, user_id@) ==> r == Err::<(), AppError>(
            AppError::NotFound,
        ) && *final(db) == *old(db),
        old(db).has_active_session_of(id@, user_id@) ==> (r is Ok && exists|j: int| {
            &&& 0 <= j < old(db).sessions@.len()
            &&& (#[trigger] old(db).sessions@[j]).session.id@ == id@
            &&& old(db).sessions@[j].session.user_id@ == user_id@
            &&& old(db).sessions@[j].deleted_at is None
            &&& final(db).sessions@ == old(db).sessions@.update(j, final(db).sessions@[j])
            &&& final(db).sessions@[j].session == old(db).sessions@[j].session
            &&& final(db).sessions@[j].updated_at == old(db).sessions@[j].updated_at
            &&& final(db).sessions@[j].deleted_at matches Some(t) && t@ == now@
        }),
        final(db).users@ == old(db).users@,
        final(db).settings@ == old(db).settings@,
        final(db).patients@ == old(db).patients@,
{
    let idx = match db.find_active_session_of(&id, &user_id) {
        Some(i) => i,
        None => {
            return Err(AppError::NotFound);
        },
    };
    let ghost pre = *db;
    let old_record = db.sessions.remove(idx);
    let new_record = SessionRecord {
        session: old_record.session,
        updated_at: old_record.updated_at,
        deleted_at: Some(now),
    };
    db.sessions.insert(idx, new_record);
    proof {
        let j = idx as int;
        assert(db.sessions@ =~= pre.sessions@.update(j, db.sessions@[j]));
        assert forall|i: int| 0 <= i < db.settings@.len()
            implies db.has_user_id((#[trigger] db.settings@[i]).user_id@) by {
            assert(pre.has_user_id(pre.settings@[i].user_id@));
            let j = choose|j: int| 0 <= j < pre.users@.len()
                && (#[trigger] pre.users@[j]).user.id@ == pre.settings@[i].user_id@;
            assert(db.users@[j].user.id@ == db.settings@[i].user_id@);
        }
        assert forall|i: int| 0 <= i < db.patients@.len()
            implies db.has_user_id((#[trigger] db.patients@[i]).patient.user_id@) by {
            assert(pre.has_user_id(pre.patients@[i].patient.user_id@));
            let j = choose|j: int| 0 <= j < pre.users@.len()
                && (#[trigger] pre.users@[j]).user.id@ == pre.patients@[i].patient.user_id@;
            assert(db.users@[j].user.id@ == db.patients@[i].patient.user_id@);
        }
        assert forall|i: int| 0 <= i < db.sessions@.len() implies exists|jj: int|
            0 <= jj < db.patients@.len()
            && (#[trigger] db.patients@[jj]).patient.id@ == (#[trigger] db.sessions@[i]).session.patient_id@
            && db.patients@[jj].patient.user_id@ == db.sessions@[i].session.user_id@ by {
            assert(db.sessions@[i].session.patient_id@ == pre.sessions@[i].session.patient_id@);
            assert(db.sessions@[i].session.user_id@ == pre.sessions@[i].session.user_id@);
            let jj = choose|jj: int| 0 <= jj < pre.patients@.len()
                && (#[trigger] pre.patients@[jj]).patient.id@ == pre.sessions@[i].session.patient_id@
                && pre.patients@[jj].patient.user_id@ == pre.sessions@[i].session.user_id@;
            assert(db.patients@[jj].patient.id@ == db.sessions@[i].session.patient_id@);
        }
    }
    Ok(())
}

/// Soft-deletes a session at the current time, scoped by owner.
pub fn delete_session(db: &mut Db, id: String, user_id: String) -> (r: Result<(), AppError>)
    requires
        old(db).wf(),
    ensures
        final(db).wf(),
        !old(db).has_active_session_of(id@, user_id@) ==> r == Err::<(), AppError>(
            AppError::NotFound,
        ) && *final(db) == *old(db),
        old(db).has_active_session_of(id@, user_id@) ==> (r is Ok && exists|j: int| {
            &&& 0 <= j < old(db).sessions@.len()
            &&& (#[trigger] old(db).sessions@[j]).session.id@ == id@
            &&& old(db).sessions@[j].session.user_id@ == user_id@
            &&& old(db).sessions@[j].deleted_at is None
            &&& final(db).sessions@ == old(db).sessions@.update(j, final(db).sessions@[j])
            &&& final(db).sessions@[j].session == old(db).sessions@[j].session
            &&& final(db).sessions@[j].deleted_at is Some
        }),
        final(db).users@ == old(db).users@,
        final(db).settings@ == old(db).settings@,
        final(db).patients@ == old(db).patients@,
{
    let now = now_rfc3339();
    delete_session_at(db, id, user_id, now)
}

} // verus!
