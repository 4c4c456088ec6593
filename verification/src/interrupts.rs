//! The check made before a run that follows interrupts: every interrupt still pending must be
//! answered by an entry of `resume`, and none may have expired.
use vstd::prelude::*;
use crate::error::AgUiError;
use crate::text::{concat3, str_eq, str_less, str_lt};
use crate::types::{Interrupt, ResumeEntry};

verus! {

/// Whether an interrupt has expired at the time `now`: it carries an expiry time that sorts
/// before `now`. Times are ISO-8601 text, compared as strings, so the empty time that a runner
/// without a clock reads never finds an interrupt expired.
pub open spec fn expired_at(i: Interrupt, now: Seq<char>) -> bool {
    match i.expires_at {
        Some(t) => str_lt(t@, now),
        None => false,
    }
}

/// Whether an interrupt has expired at `now`, as `expired_at` says.
pub fn interrupt_is_expired(i: &Interrupt, now: &str) -> (r: bool)
    ensures
        r == expired_at(*i, now@),
{
    match &i.expires_at {
        Some(t) => str_less(t.as_str(), now),
        None => false,
    }
}

/// Whether some entry of `resume` answers the interrupt with id `id`.
pub open spec fn answered(resume: Seq<ResumeEntry>, id: Seq<char>) -> bool {
    exists|k: int| 0 <= k < resume.len() && (#[trigger] resume[k]).interrupt_id@ == id
}

/// Whether some entry of `resume` answers the interrupt with id `id`, as `answered` says.
pub fn is_answered(resume: &Vec<ResumeEntry>, id: &str) -> (r: bool)
    ensures
        r == answered(resume@, id@),
{
    let mut k: usize = 0;
    while k < resume.len()
        invariant
            k <= resume@.len(),
            forall|j: int| 0 <= j < k ==> (#[trigger] resume@[j]).interrupt_id@ != id@,
        decreases resume.len() - k,
    {
        if str_eq(resume[k].interrupt_id.as_str(), id) {
            return true;
        }
        k += 1;
    }
    false
}

/// Why a pending interrupt stops the next run.
pub enum ResumeBlocker {
    /// The interrupt with this id has expired.
    Expired { id: Seq<char> },
    /// No entry of `resume` answers the interrupt with this id.
    Unanswered { id: Seq<char> },
}

/// What stops the run, looking at the pending interrupts from position `k` on in order: the
/// first that has expired or that `resume` does not answer.
pub open spec fn blocker_from(
    pending: Seq<Interrupt>,
    resume: Seq<ResumeEntry>,
    now: Seq<char>,
    k: int,
) -> Option<ResumeBlocker>
    decreases pending.len() - k,
{
    if k < 0 || k >= pending.len() {
        None
    } else if expired_at(pending[k], now) {
        Some(ResumeBlocker::Expired { id: pending[k].id@ })
    } else if !answered(resume, pending[k].id@) {
        Some(ResumeBlocker::Unanswered { id: pending[k].id@ })
    } else {
        blocker_from(pending, resume, now, k + 1)
    }
}

/// The message of the validation error for what stops the run.
pub open spec fn blocker_text(b: ResumeBlocker) -> Seq<char> {
    match b {
        ResumeBlocker::Expired { id } => "pending interrupt '"@ + id + "' has expired"@,
        ResumeBlocker::Unanswered { id } => "pending interrupt '"@ + id
            + "' is not answered by resume"@,
    }
}

/// Checks, before a run, the interrupts that the last run stopped on: the run may go ahead
/// when none of them has expired at `now` and `resume` answers each; otherwise a validation
/// error names the first that fails, as `blocker_text` says.
pub fn ensure_resume_covers(pending: &Vec<Interrupt>, resume: &Vec<ResumeEntry>, now: &str) -> (r:
    Result<(), AgUiError>)
    ensures
        match blocker_from(pending@, resume@, now@, 0) {
            None => r is Ok,
            Some(b) => r matches Err(AgUiError::Validation(m)) && m@ == blocker_text(b),
        },
{
    let mut k: usize = 0;
    while k < pending.len()
        invariant
            k <= pending@.len(),
            blocker_from(pending@, resume@, now@, 0) == blocker_from(
                pending@,
                resume@,
                now@,
                k as int,
            ),
        decreases pending.len() - k,
    {
        let i = &pending[k];
        if interrupt_is_expired(i, now) {
            let m = concat3("pending interrupt '", i.id.as_str(), "' has expired");
            return Err(AgUiError::Validation(m));
        }
        if !is_answered(resume, i.id.as_str()) {
            let m = concat3("pending interrupt '", i.id.as_str(), "' is not answered by resume");
            return Err(AgUiError::Validation(m));
        }
        k += 1;
    }
    Ok(())
}

} // verus!
