use vstd::prelude::*;
use crate::digest::Algo;
use crate::naming::Plan;

verus! {

/// The settings of one run, fixed for its whole duration.
#[derive(Clone, Copy, Debug, PartialEq, Eq, Structural)]
pub struct RunConfig {
    pub recursive: bool,
    pub algo: Algo,
}

impl Default for RunConfig {
    /// A non-recursive run with the tree digest.
    fn default() -> (r: RunConfig)
        ensures
            r == (RunConfig { recursive: false, algo: Algo::Blake3 }),
    {
        RunConfig { recursive: false, algo: Algo::Blake3 }
    }
}

/// Why a file task failed. None of these stops the other tasks.
#[derive(Clone, Copy, Debug, PartialEq, Eq, Structural)]
pub enum FailReason {
    /// The file could not be opened.
    Open,
    /// Reading the file failed midway.
    Read,
    /// The rename itself failed: permissions, a vanished source, or a
    /// concurrent task that took the name first.
    Rename,
}

/// The terminal state of one file task.
#[derive(Debug)]
pub enum Outcome {
    /// The file now carries this name.
    Renamed(String),
    /// The canonical name was taken (or already the file's own): left as is.
    SkippedExists,
    Failed(FailReason),
}

/// The outcome of a task whose plan was carried out; for `Plan::Rename`,
/// `rename_succeeded` tells whether the filesystem rename went through,
/// and for `Plan::Skip` it is not looked at.
pub fn settle(plan: Plan, rename_succeeded: bool) -> (r: Outcome)
    ensures
        plan is Skip ==> r is SkippedExists,
        plan is Rename && rename_succeeded ==> r is Renamed && r->Renamed_0 == plan->Rename_0,
        plan is Rename && !rename_succeeded ==> r == Outcome::Failed(FailReason::Rename),
{
    match plan {
        Plan::Skip => Outcome::SkippedExists,
        Plan::Rename(name) => {
            if rename_succeeded {
                Outcome::Renamed(name)
            } else {
                Outcome::Failed(FailReason::Rename)
            }
        },
    }
}

/// How many of the outcomes are renames.
pub open spec fn renamed_count(outcomes: Seq<Outcome>) -> nat
    decreases outcomes.len(),
{
    if outcomes.len() == 0 {
        0
    } else {
        renamed_count(outcomes.drop_last()) + if outcomes.last() is Renamed {
            1nat
        } else {
            0nat
        }
    }
}

proof fn lemma_renamed_count_bound(outcomes: Seq<Outcome>)
    ensures
        renamed_count(outcomes) <= outcomes.len(),
    decreases outcomes.len(),
{
    if outcomes.len() > 0 {
        lemma_renamed_count_bound(outcomes.drop_last());
    }
}

/// The result of a run: the number of files it renamed. Skips and failures
/// count for nothing, and an empty run renames nothing.
pub fn count_renamed(outcomes: &Vec<Outcome>) -> (r: usize)
    ensures
        r == renamed_count(outcomes@),
{
    let mut n: usize = 0;
    let mut i: usize = 0;
    while i < outcomes.len()
        invariant
            i <= outcomes@.len(),
            n == renamed_count(outcomes@.subrange(0, i as int)),
        decreases outcomes@.len() - i,
    {
        proof {
            assert(outcomes@.subrange(0, i as int + 1).drop_last() =~= outcomes@.subrange(0, i as int));
            lemma_renamed_count_bound(outcomes@.subrange(0, i as int));
        }
        match &outcomes[i] {
            Outcome::Renamed(_) => {
                n = n + 1;
            },
            _ => {},
        }
        i = i + 1;
    }
    proof {
        assert(outcomes@.subrange(0, outcomes@.len() as int) =~= outcomes@);
    }
    n
}

} // verus!
