//! The update-check payload and the critical-release heuristic.
//!
//! A check against the remote endpoint either finds no update or yields the
//! new version together with release notes and a date. The payload handed to
//! the UI reports that outcome; a release is critical exactly when its notes
//! contain the critical marker text.

use vstd::prelude::*;

verus! {

/// What the UI learns from one update check.
#[derive(Debug, Clone, PartialEq)]
pub struct UpdatePayload {
    pub update_available: bool,
    pub version: Option<String>,
    pub notes: Option<String>,
    pub critical: bool,
    pub date: Option<String>,
}

/// The marker text that the release pipeline injects into the notes of a
/// critical release.
pub open spec fn critical_marker() -> Seq<char> {
    "CRITICAL UPDATE"@
}

/// The marker occurs in `s` starting at position `i`.
pub open spec fn marker_match_at(s: Seq<char>, i: int) -> bool {
    &&& 0 <= i
    &&& i + critical_marker().len() <= s.len()
    &&& forall|l: int| 0 <= l < critical_marker().len() ==> s[i + l] == critical_marker()[l]
}

/// The marker occurs somewhere in `s`.
pub open spec fn contains_marker(s: Seq<char>) -> bool {
    exists|i: int| marker_match_at(s, i)
}

/// Does the marker occur in `notes` starting at character position `i`?
fn matches_marker_at(notes: &str, i: usize) -> (b: bool)
    requires
        notes@.len() <= usize::MAX,
        i + critical_marker().len() <= notes@.len(),
    ensures
        b == marker_match_at(notes@, i as int),
{
    let marker: &str = "CRITICAL UPDATE";
    proof {
        reveal_strlit("CRITICAL UPDATE");
    }
    let m: usize = marker.unicode_len();
    let mut j: usize = 0;
    while j < m
        invariant
            marker@ == critical_marker(),
            m == critical_marker().len(),
            0 <= j <= m,
            notes@.len() <= usize::MAX,
            i + m <= notes@.len(),
            forall|l: int| 0 <= l < j ==> notes@[i + l] == critical_marker()[l],
        decreases m - j,
    {
        if notes.get_char(i + j) != marker.get_char(j) {
            return false;
        }
        j += 1;
    }
    true
}

/// Decides whether the release notes flag a critical release: true exactly
/// when the notes contain the critical marker text.
pub fn contains_critical_marker(notes: &str) -> (b: bool)
    ensures
        b == contains_marker(notes@),
{
    let marker: &str = "CRITICAL UPDATE";
    proof {
        reveal_strlit("CRITICAL UPDATE");
    }
    let n: usize = notes.unicode_len();
    let m: usize = marker.unicode_len();
    if n < m {
        return false;
    }
    let mut i: usize = 0;
    while i <= n - m
        invariant
            m == critical_marker().len(),
            m <= n == notes@.len() <= usize::MAX,
            0 <= i <= n - m + 1,
            forall|k: int| 0 <= k < i ==> !marker_match_at(notes@, k),
        decreases n - m + 1 - i,
    {
        if matches_marker_at(notes, i) {
            return true;
        }
        i += 1;
    }
    assert forall|k: int| !marker_match_at(notes@, k) by {
        if k >= i {
            assert(k + critical_marker().len() > notes@.len());
        }
    }
    false
}

/// The payload reported when no update is available: everything empty or false.
pub open spec fn empty_payload() -> UpdatePayload {
    UpdatePayload {
        update_available: false,
        version: None,
        notes: None,
        critical: false,
        date: None,
    }
}

/// Builds the payload for a check that found no update.
pub fn no_update_payload() -> (p: UpdatePayload)
    ensures
        p == empty_payload(),
{
    UpdatePayload {
        update_available: false,
        version: None,
        notes: None,
        critical: false,
        date: None,
    }
}

/// What the updater's check operation found, reduced to plain values: either
/// no newer release, or the new release's version, notes body and date.
#[derive(Debug, PartialEq)]
pub enum CheckOutcome {
    UpToDate,
    Available { version: String, body: Option<String>, date: Option<String> },
}

/// The release-notes text of an available release: the body, or empty where
/// the manifest carried none.
pub open spec fn notes_text(body: Option<String>) -> Seq<char> {
    match body {
        Some(b) => b@,
        None => Seq::<char>::empty(),
    }
}

/// A check outcome the rest of the flow accepts: an available release always
/// names a non-empty version.
pub open spec fn outcome_valid(outcome: CheckOutcome) -> bool {
    outcome matches CheckOutcome::Available { version, .. } ==> version@.len() > 0
}

/// The payload reports the outcome: all-empty for no update; otherwise the
/// version, the notes (empty string where the body was absent), the date, and
/// a critical flag set exactly when the notes contain the critical marker.
pub open spec fn payload_reports(outcome: CheckOutcome, p: UpdatePayload) -> bool {
    match outcome {
        CheckOutcome::UpToDate => p == empty_payload(),
        CheckOutcome::Available { version, body, date } => {
            &&& p.update_available
            &&& p.version == Some(version)
            &&& p.notes matches Some(n) && n@ == notes_text(body)
            &&& p.critical == contains_marker(notes_text(body))
            &&& p.date == date
        },
    }
}

/// Maps what the check found into the payload for the UI.
pub fn payload_from_check(outcome: CheckOutcome) -> (p: UpdatePayload)
    requires
        outcome_valid(outcome),
    ensures
        payload_reports(outcome, p),
        outcome is Available ==> (p.update_available && (p.version matches Some(v) && v@.len()
            > 0)),
{
    match outcome {
        CheckOutcome::UpToDate => no_update_payload(),
        CheckOutcome::Available { version, body, date } => {
            let notes: String = match body {
                Some(b) => b,
                None => String::new(),
            };
            let critical = contains_critical_marker(notes.as_str());
            UpdatePayload {
                update_available: true,
                version: Some(version),
                notes: Some(notes),
                critical,
                date,
            }
        },
    }
}

/// Completes one update check: a failure of the underlying updater is passed
/// on verbatim as the error; a successful check yields the payload that
/// reports it.
pub fn check_for_updates(checked: Result<CheckOutcome, String>) -> (r: Result<
    UpdatePayload,
    String,
>)
    requires
        checked matches Ok(outcome) ==> outcome_valid(outcome),
    ensures
        checked matches Err(e) ==> r == Result::<UpdatePayload, String>::Err(e),
        checked matches Ok(outcome) ==> r matches Ok(p) && payload_reports(outcome, p),
{
    match checked {
        Ok(outcome) => Ok(payload_from_check(outcome)),
        Err(e) => Err(e),
    }
}

} // verus!
