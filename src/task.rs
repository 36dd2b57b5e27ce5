use vstd::prelude::*;
use crate::digest::{digest_hex_of, Algo, DigestStream};
use crate::naming::{canonical_name, canonical_name_of, plan_rename, skips, Plan};
use crate::run::{settle, FailReason, Outcome};

verus! {

/// Where a file task stands. Tasks only move forward through these, and a
/// finished task stays finished.
#[derive(Clone, Copy, Debug, PartialEq, Eq, Structural)]
pub enum Stage {
    Hashing,
    Resolving,
    Renaming,
    Done,
}

/// The position of a stage along the only path a task takes.
pub open spec fn stage_rank(s: Stage) -> nat {
    match s {
        Stage::Hashing => 0,
        Stage::Resolving => 1,
        Stage::Renaming => 2,
        Stage::Done => 3,
    }
}

/// What the caller is asked to do next for a task.
#[derive(Debug, PartialEq, Eq)]
pub enum Action {
    /// Read the next chunk of the file and report it (or the end, or a failure).
    ReadMore,
    /// Report whether a file of this name exists beside the source.
    CheckTarget(String),
    /// Rename the source to this name, in its directory, and report whether it worked.
    Rename(String),
    /// Nothing: the task has its outcome.
    Finish,
}

enum Phase {
    Hashing(DigestStream),
    Resolving(String),
    Renaming(String),
    Done(Outcome),
}

/// One file on its way from discovery to its outcome: its content is hashed
/// chunk by chunk, its canonical name is worked out, checked, and taken.
/// Each event that the caller reports moves it on and says what to do next.
pub struct FileTask {
    name: String,
    algo: Algo,
    phase: Phase,
}

impl FileTask {
    #[verifier::type_invariant]
    spec fn stream_matches(self) -> bool {
        self.phase matches Phase::Hashing(s) ==> s.algo() == self.algo
    }

    /// The file's own name (its last path component).
    pub closed spec fn name(&self) -> Seq<char> {
        self.name@
    }

    /// The digest algorithm of the task.
    pub closed spec fn algo(&self) -> Algo {
        self.algo
    }

    pub closed spec fn stage(&self) -> Stage {
        match self.phase {
            Phase::Hashing(_) => Stage::Hashing,
            Phase::Resolving(_) => Stage::Resolving,
            Phase::Renaming(_) => Stage::Renaming,
            Phase::Done(_) => Stage::Done,
        }
    }

    /// The bytes of the file hashed so far (empty once hashing is over).
    pub closed spec fn absorbed(&self) -> Seq<u8> {
        match self.phase {
            Phase::Hashing(s) => s.absorbed(),
            _ => Seq::empty(),
        }
    }

    /// The canonical name, once it is known and until the task is done.
    pub closed spec fn candidate(&self) -> Seq<char> {
        match self.phase {
            Phase::Resolving(c) => c@,
            Phase::Renaming(c) => c@,
            _ => Seq::empty(),
        }
    }

    /// The outcome of a finished task.
    pub closed spec fn result(&self) -> Option<Outcome> {
        match self.phase {
            Phase::Done(o) => Some(o),
            _ => None,
        }
    }

    /// What the task waits for.
    pub closed spec fn awaits(&self) -> Action {
        match self.phase {
            Phase::Hashing(_) => Action::ReadMore,
            Phase::Resolving(c) => Action::CheckTarget(c),
            Phase::Renaming(c) => Action::Rename(c),
            Phase::Done(_) => Action::Finish,
        }
    }

    /// What a task asks for follows from its stage: a read while hashing,
    /// the existence check of the candidate while resolving, the rename to
    /// the candidate while renaming, and nothing once it is done, which is
    /// exactly when it has an outcome.
    pub proof fn lemma_awaits(&self)
        ensures
            (self.stage() == Stage::Done) == (self.awaits() == Action::Finish),
            (self.stage() == Stage::Done) == (self.result() is Some),
            self.stage() == Stage::Hashing ==> self.awaits() == Action::ReadMore,
            self.stage() == Stage::Resolving ==> (self.awaits() matches Action::CheckTarget(c)
                && c@ == self.candidate()),
            self.stage() == Stage::Renaming ==> (self.awaits() matches Action::Rename(c) && c@
                == self.candidate()),
    {
    }

    fn next_action(&self) -> (a: Action)
        ensures
            a == self.awaits(),
    {
        match &self.phase {
            Phase::Hashing(_) => Action::ReadMore,
            Phase::Resolving(c) => Action::CheckTarget(c.clone()),
            Phase::Renaming(c) => Action::Rename(c.clone()),
            Phase::Done(_) => Action::Finish,
        }
    }

    /// A task for the file called `name`, about to be read.
    pub fn new(name: String, algo: Algo) -> (r: FileTask)
        ensures
            r.name() == name@,
            r.algo() == algo,
            r.stage() == Stage::Hashing,
            r.absorbed() == Seq::<u8>::empty(),
    {
        FileTask { name, algo, phase: Phase::Hashing(DigestStream::new(algo)) }
    }

    /// The next chunk of the file was read.
    pub fn on_chunk(&mut self, chunk: &[u8]) -> (a: Action)
        ensures
            a == final(self).awaits(),
            stage_rank(old(self).stage()) <= stage_rank(final(self).stage()),
            old(self).stage() == Stage::Hashing ==> final(self).stage() == Stage::Hashing
                && final(self).name() == old(self).name() && final(self).algo() == old(self).algo()
                && final(self).absorbed() == old(self).absorbed() + chunk@,
            old(self).stage() != Stage::Hashing ==> *final(self) == *old(self),
    {
        proof {
            use_type_invariant(&*self);
        }
        if let Phase::Hashing(_) = &self.phase {
            let mut prev = Phase::Done(Outcome::SkippedExists);
            std::mem::swap(&mut self.phase, &mut prev);
            if let Phase::Hashing(mut s) = prev {
                s.absorb(chunk);
                self.phase = Phase::Hashing(s);
            }
        }
        self.next_action()
    }

    /// The whole file was read: its canonical name is now known.
    pub fn on_end_of_file(&mut self) -> (a: Action)
        ensures
            a == final(self).awaits(),
            stage_rank(old(self).stage()) <= stage_rank(final(self).stage()),
            old(self).stage() == Stage::Hashing ==> final(self).stage() == Stage::Resolving
                && final(self).name() == old(self).name() && final(self).algo() == old(self).algo()
                && final(self).candidate() == canonical_name_of(
                old(self).name(),
                digest_hex_of(old(self).algo(), old(self).absorbed()),
            ),
            old(self).stage() != Stage::Hashing ==> *final(self) == *old(self),
    {
        proof {
            use_type_invariant(&*self);
        }
        if let Phase::Hashing(_) = &self.phase {
            let mut prev = Phase::Done(Outcome::SkippedExists);
            std::mem::swap(&mut self.phase, &mut prev);
            if let Phase::Hashing(s) = prev {
                let hex = s.finish();
                let candidate = canonical_name(self.name.as_str(), hex.as_str());
                self.phase = Phase::Resolving(candidate);
            }
        }
        self.next_action()
    }

    /// The file could not be opened or read, or the task must stop for
    /// `reason`: an unfinished task fails with it.
    pub fn on_failure(&mut self, reason: FailReason) -> (a: Action)
        ensures
            a == final(self).awaits(),
            stage_rank(old(self).stage()) <= stage_rank(final(self).stage()),
            old(self).stage() != Stage::Done ==> final(self).result() == Some(Outcome::Failed(reason))
                && final(self).stage() == Stage::Done,
            old(self).stage() == Stage::Done ==> *final(self) == *old(self),
    {
        match &self.phase {
            Phase::Done(_) => {},
            _ => {
                self.phase = Phase::Done(Outcome::Failed(reason));
            },
        }
        self.next_action()
    }

    /// Whether a file of the candidate's name exists: if so, or if the
    /// candidate is the file's own name, the task ends skipped; otherwise
    /// the rename is asked for.
    pub fn on_target_checked(&mut self, target_exists: bool) -> (a: Action)
        ensures
            a == final(self).awaits(),
            stage_rank(old(self).stage()) <= stage_rank(final(self).stage()),
            old(self).stage() == Stage::Resolving && skips(old(self).name(), old(self).candidate(), target_exists)
                ==> final(self).result() == Some(Outcome::SkippedExists) && final(self).stage() == Stage::Done,
            old(self).stage() == Stage::Resolving && !skips(old(self).name(), old(self).candidate(), target_exists)
                ==> final(self).stage() == Stage::Renaming && final(self).candidate() == old(self).candidate()
                && final(self).name() == old(self).name(),
            old(self).stage() != Stage::Resolving ==> *final(self) == *old(self),
    {
        if let Phase::Resolving(c) = &self.phase {
            match plan_rename(self.name.as_str(), c.as_str(), target_exists) {
                Plan::Skip => {
                    self.phase = Phase::Done(Outcome::SkippedExists);
                },
                Plan::Rename(target) => {
                    self.phase = Phase::Renaming(target);
                },
            }
        }
        self.next_action()
    }

    /// Whether the rename to the candidate went through.
    pub fn on_renamed(&mut self, succeeded: bool) -> (a: Action)
        ensures
            a == final(self).awaits(),
            stage_rank(old(self).stage()) <= stage_rank(final(self).stage()),
            old(self).stage() == Stage::Renaming && succeeded ==> (final(self).result() matches Some(
                Outcome::Renamed(n),
            ) && n@ == old(self).candidate() && final(self).stage() == Stage::Done),
            old(self).stage() == Stage::Renaming && !succeeded ==> final(self).result() == Some(
                Outcome::Failed(FailReason::Rename),
            ) && final(self).stage() == Stage::Done,
            old(self).stage() != Stage::Renaming ==> *final(self) == *old(self),
    {
        if let Phase::Renaming(c) = &self.phase {
            let outcome = settle(Plan::Rename(c.clone()), succeeded);
            self.phase = Phase::Done(outcome);
        }
        self.next_action()
    }

    /// The outcome, once the task is done.
    pub fn into_outcome(self) -> (r: Option<Outcome>)
        ensures
            r == self.result(),
    {
        match self.phase {
            Phase::Done(o) => Some(o),
            _ => None,
        }
    }
}

} // verus!
