use vstd::prelude::*;
use crate::process::{outcome_success, FileOutcome};

verus! {

/// The step at which processing a file failed.
#[derive(Clone, Copy, Debug, PartialEq, Eq, Structural)]
pub enum FailureKind {
    /// The path cannot be represented as text.
    PathNotText,
    Read,
    Write,
}

/// A failure confined to one file: the file, the step, and a readable reason.
pub struct FileError {
    pub path: String,
    pub kind: FailureKind,
    pub detail: String,
}

/// Whether one file's result counts towards the total.
pub open spec fn result_success(r: Result<FileOutcome, FileError>) -> bool {
    match r {
        Ok(o) => outcome_success(o@),
        Err(_) => false,
    }
}

/// The number of results that count towards the total.
pub open spec fn success_count(s: Seq<Result<FileOutcome, FileError>>) -> nat
    decreases s.len(),
{
    if s.len() == 0 {
        0
    } else {
        success_count(s.drop_last()) + if result_success(s.last()) {
            1nat
        } else {
            0nat
        }
    }
}

proof fn lemma_success_count_bound(s: Seq<Result<FileOutcome, FileError>>)
    ensures
        success_count(s) <= s.len(),
    decreases s.len(),
{
    if s.len() > 0 {
        lemma_success_count_bound(s.drop_last());
    }
}

/// The run's total: files changed in replace mode, files with a match in
/// report mode. Failed files do not count.
pub fn count_successes(results: &Vec<Result<FileOutcome, FileError>>) -> (r: usize)
    ensures
        r == success_count(results@),
{
    let mut total: usize = 0;
    let mut i: usize = 0;
    while i < results.len()
        invariant
            i <= results@.len(),
            total == success_count(results@.subrange(0, i as int)),
        decreases results@.len() - i,
    {
        let ghost prefix = results@.subrange(0, i + 1);
        assert(prefix.drop_last() =~= results@.subrange(0, i as int));
        proof {
            lemma_success_count_bound(prefix);
        }
        let ok = match &results[i] {
            Ok(o) => o.is_success(),
            Err(_) => false,
        };
        if ok {
            total = total + 1;
        }
        i = i + 1;
    }
    assert(results@.subrange(0, results@.len() as int) =~= results@);
    total
}

} // verus!
