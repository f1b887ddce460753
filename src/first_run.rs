//! The first-run latch: a flag in a per-user configuration store that is
//! written once, on the first check that finds it missing.
//!
//! A check takes up to three store operations: open (or create) the
//! namespace, read the flag, write the flag. `FirstRunStep` decides, from
//! whether each operation succeeded, what comes next and what the answer is;
//! any failure counts as "flag absent", so the answer is then "first run".
//! `MemoryStore` is a store held in memory that runs these steps.

use vstd::prelude::*;

verus! {

/// The value written under the flag's name to mark the install as seen.
pub const INSTALLED_VALUE: u32 = 1;

/// Where a first-run check stands: the store operation to perform next, or the answer.
#[derive(Clone, Copy, Debug, PartialEq, Eq, Structural)]
pub enum FirstRunStep {
    OpenNamespace,
    ReadFlag,
    WriteFlag,
    Finished(bool),
}

/// The step after the current operation succeeded (`ok`) or failed.
pub open spec fn step_after(step: FirstRunStep, ok: bool) -> FirstRunStep {
    match step {
        FirstRunStep::OpenNamespace => if ok {
            FirstRunStep::ReadFlag
        } else {
            FirstRunStep::Finished(true)
        },
        FirstRunStep::ReadFlag => if ok {
            FirstRunStep::Finished(false)
        } else {
            FirstRunStep::WriteFlag
        },
        FirstRunStep::WriteFlag => FirstRunStep::Finished(true),
        FirstRunStep::Finished(answer) => FirstRunStep::Finished(answer),
    }
}

/// Operations left before the answer.
pub open spec fn steps_left(step: FirstRunStep) -> nat {
    match step {
        FirstRunStep::OpenNamespace => 3,
        FirstRunStep::ReadFlag => 2,
        FirstRunStep::WriteFlag => 1,
        FirstRunStep::Finished(_) => 0,
    }
}

impl FirstRunStep {
    /// The step at which every check begins.
    pub fn start() -> (r: FirstRunStep)
        ensures
            r == FirstRunStep::OpenNamespace,
    {
        FirstRunStep::OpenNamespace
    }

    /// Moves past the current operation, given whether it succeeded.
    pub fn advance(self, ok: bool) -> (r: FirstRunStep)
        ensures
            r == step_after(self, ok),
            steps_left(self) > 0 ==> steps_left(r) < steps_left(self),
    {
        match self {
            FirstRunStep::OpenNamespace => if ok {
                FirstRunStep::ReadFlag
            } else {
                FirstRunStep::Finished(true)
            },
            FirstRunStep::ReadFlag => if ok {
                FirstRunStep::Finished(false)
            } else {
                FirstRunStep::WriteFlag
            },
            FirstRunStep::WriteFlag => FirstRunStep::Finished(true),
            FirstRunStep::Finished(answer) => FirstRunStep::Finished(answer),
        }
    }

    /// The answer, once the check has finished.
    pub fn answer(self) -> (r: Option<bool>)
        ensures
            r == match self {
                FirstRunStep::Finished(answer) => Some(answer),
                _ => None,
            },
    {
        match self {
            FirstRunStep::Finished(answer) => Some(answer),
            _ => None,
        }
    }
}

/// Whatever the store reports, three steps reach the answer, which is "first
/// run" unless the namespace opened and the flag was read; the flag is written
/// exactly when the namespace opened and the flag could not be read.
pub proof fn lemma_first_run_decision(opened: bool, read: bool, written: bool)
    ensures
        step_after(step_after(step_after(FirstRunStep::OpenNamespace, opened), read), written)
            == FirstRunStep::Finished(!(opened && read)),
        (step_after(step_after(FirstRunStep::OpenNamespace, opened), read)
            == FirstRunStep::WriteFlag) == (opened && !read),
{
}

/// Faults to simulate in a `MemoryStore`: which operations fail.
#[derive(Clone, Copy, Debug)]
pub struct StoreFaults {
    pub open_fails: bool,
    pub read_fails: bool,
    pub write_fails: bool,
}

/// A configuration store held in memory, with one namespace holding the flag.
#[derive(Clone, Copy, Debug)]
pub struct MemoryStore {
    /// The flag's value, if it is present.
    pub installed: Option<u32>,
    pub faults: StoreFaults,
}

/// The answer of one check on store `s`.
pub open spec fn check_answer(s: MemoryStore) -> bool {
    !(!s.faults.open_fails && !s.faults.read_fails && s.installed is Some)
}

/// The store after one check on `s`.
pub open spec fn store_after_check(s: MemoryStore) -> MemoryStore {
    if !s.faults.open_fails && (s.faults.read_fails || s.installed is None)
        && !s.faults.write_fails {
        MemoryStore { installed: Some(INSTALLED_VALUE), faults: s.faults }
    } else {
        s
    }
}

/// The answers of `n` checks made one after another, starting on `s`.
pub open spec fn check_answers(s: MemoryStore, n: nat) -> Seq<bool>
    decreases n,
{
    if n == 0 {
        Seq::empty()
    } else {
        seq![check_answer(s)] + check_answers(store_after_check(s), (n - 1) as nat)
    }
}

/// A store with no flag and no faults.
pub open spec fn is_fresh(s: MemoryStore) -> bool {
    s.installed is None && !s.faults.open_fails && !s.faults.read_fails && !s.faults.write_fails
}

/// How `check_first_run` stands, at `step`, on a store that was `s0` and is `s`.
pub open spec fn check_in_progress(s0: MemoryStore, s: MemoryStore, step: FirstRunStep) -> bool {
    match step {
        FirstRunStep::OpenNamespace => s == s0,
        FirstRunStep::ReadFlag => s == s0 && !s0.faults.open_fails,
        FirstRunStep::WriteFlag => s == s0 && !s0.faults.open_fails && (s0.faults.read_fails
            || s0.installed is None),
        FirstRunStep::Finished(answer) => answer == check_answer(s0) && s == store_after_check(
            s0,
        ),
    }
}

impl MemoryStore {
    /// A store in which the flag has never been written and nothing fails.
    pub fn new() -> (r: MemoryStore)
        ensures
            is_fresh(r),
    {
        MemoryStore {
            installed: None,
            faults: StoreFaults { open_fails: false, read_fails: false, write_fails: false },
        }
    }

    /// A store without the flag whose operations fail as `faults` says.
    pub fn with_faults(faults: StoreFaults) -> (r: MemoryStore)
        ensures
            r.installed is None,
            r.faults == faults,
    {
        MemoryStore { installed: None, faults }
    }

    /// Opens (or creates) the namespace.
    pub fn open_namespace(&self) -> (r: bool)
        ensures
            r == !self.faults.open_fails,
    {
        !self.faults.open_fails
    }

    /// Reads the flag; `None` when it is absent or cannot be read.
    pub fn read_flag(&self) -> (r: Option<u32>)
        ensures
            r == (if self.faults.read_fails {
                None
            } else {
                self.installed
            }),
    {
        if self.faults.read_fails {
            None
        } else {
            self.installed
        }
    }

    /// Writes the flag; `false` when the write fails, which leaves the store as it was.
    pub fn write_flag(&mut self, value: u32) -> (r: bool)
        ensures
            r == !old(self).faults.write_fails,
            *final(self) == (if r {
                MemoryStore { installed: Some(value), faults: old(self).faults }
            } else {
                *old(self)
            }),
    {
        if self.faults.write_fails {
            false
        } else {
            self.installed = Some(value);
            true
        }
    }

    /// Answers whether this is the first run, and marks the install as seen
    /// when the flag is missing. A store failure never surfaces: it counts as
    /// a missing flag, and the answer is then `true`.
    pub fn check_first_run(&mut self) -> (r: bool)
        ensures
            r == check_answer(*old(self)),
            *final(self) == store_after_check(*old(self)),
    {
        let mut step = FirstRunStep::start();
        loop
            invariant
                check_in_progress(*old(self), *self, step),
            decreases steps_left(step),
        {
            match step {
                FirstRunStep::OpenNamespace => {
                    let ok = self.open_namespace();
                    step = step.advance(ok);
                },
                FirstRunStep::ReadFlag => {
                    let flag = self.read_flag();
                    step = step.advance(flag.is_some());
                },
                FirstRunStep::WriteFlag => {
                    let ok = self.write_flag(INSTALLED_VALUE);
                    step = step.advance(ok);
                },
                FirstRunStep::Finished(answer) => {
                    return answer;
                },
            }
        }
    }
}

/// Once the flag is present and readable, a check answers `false` and changes nothing.
proof fn lemma_seen_store_is_stable(s: MemoryStore, n: nat)
    requires
        s.installed is Some,
        !s.faults.open_fails,
        !s.faults.read_fails,
    ensures
        check_answers(s, n).len() == n,
        forall|i: int| 0 <= i < n ==> !#[trigger] check_answers(s, n)[i],
    decreases n,
{
    if n > 0 {
        assert(store_after_check(s) == s);
        lemma_seen_store_is_stable(s, (n - 1) as nat);
        let rest = check_answers(s, (n - 1) as nat);
        assert forall|i: int| 0 <= i < n implies !#[trigger] check_answers(s, n)[i] by {
            if i > 0 {
                assert(check_answers(s, n)[i] == rest[i - 1]);
            }
        }
    }
}

/// On a fresh store, the first of any number of checks answers `true` and
/// every later one answers `false`.
pub proof fn lemma_first_run_once(s: MemoryStore, n: nat)
    requires
        is_fresh(s),
    ensures
        check_answers(s, n).len() == n,
        forall|i: int| 0 <= i < n ==> #[trigger] check_answers(s, n)[i] == (i == 0),
{
    if n > 0 {
        let t = store_after_check(s);
        lemma_seen_store_is_stable(t, (n - 1) as nat);
        let rest = check_answers(t, (n - 1) as nat);
        assert forall|i: int| 0 <= i < n implies #[trigger] check_answers(s, n)[i] == (i
            == 0) by {
            if i > 0 {
                assert(check_answers(s, n)[i] == rest[i - 1]);
            }
        }
    }
}

/// On a store that cannot be read, or that cannot be written and lacks the
/// flag, every check answers `true`.
pub proof fn lemma_faulty_store_always_first_run(s: MemoryStore, n: nat)
    requires
        s.faults.open_fails || s.faults.read_fails || (s.faults.write_fails && s.installed is None),
    ensures
        check_answers(s, n).len() == n,
        forall|i: int| 0 <= i < n ==> #[trigger] check_answers(s, n)[i],
    decreases n,
{
    if n > 0 {
        let t = store_after_check(s);
        lemma_faulty_store_always_first_run(t, (n - 1) as nat);
        let rest = check_answers(t, (n - 1) as nat);
        assert forall|i: int| 0 <= i < n implies #[trigger] check_answers(s, n)[i] by {
            if i > 0 {
                assert(check_answers(s, n)[i] == rest[i - 1]);
            }
        }
    }
}

} // verus!
