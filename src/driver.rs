use vstd::prelude::*;

use crate::compare::{compare_outcomes, verdict_of, Outcome, Verdict};
use crate::operation::{round_order, Operation, OPERATION_COUNT};
use crate::report::{hex_lower, Mismatch};

verus! {

/// Where a fuzz run stands.
#[derive(PartialEq, Eq, Structural, Clone, Copy, Debug)]
pub enum Phase {
    /// Rounds remain; the next check is pending.
    Running,
    /// A check found a mismatch; nothing more runs.
    Aborted,
    /// Every round completed without a mismatch.
    Finished,
}

/// What the caller does next.
#[derive(PartialEq, Eq, Structural, Clone, Copy, Debug)]
pub enum Action {
    /// Build a fresh vector for this operation, run both oracles on it and
    /// report the verdict.
    Check(Operation),
    /// Stop the process abnormally: this operation's oracles disagreed.
    Halt(Operation),
    /// Stop normally: all rounds agreed.
    Finish,
}

/// The round driver: visits every operation of a round, in order, for a
/// fixed number of rounds, and stops at the first mismatch.
pub struct Driver {
    rounds: u32,
    round: u32,
    index: usize,
    phase: Phase,
}

/// The abstract state of a driver.
pub struct DriverView {
    pub rounds: nat,
    pub round: nat,
    pub index: nat,
    pub phase: Phase,
}

impl View for Driver {
    type V = DriverView;

    closed spec fn view(&self) -> DriverView {
        DriverView {
            rounds: self.rounds as nat,
            round: self.round as nat,
            index: self.index as nat,
            phase: self.phase,
        }
    }
}

impl DriverView {
    /// The number of checks that agreed so far.
    pub open spec fn completed(self) -> nat {
        self.round * 12 + self.index
    }

    pub open spec fn wf(self) -> bool {
        &&& self.index < 12
        &&& self.round <= self.rounds
        &&& self.phase == Phase::Running ==> self.round < self.rounds
        &&& self.phase == Phase::Finished ==> self.round == self.rounds && self.index == 0
    }

    /// The operation the driver is at.
    pub open spec fn operation(self) -> Operation {
        round_order()[self.index as int]
    }

    /// The next action in this state.
    pub open spec fn action(self) -> Action {
        match self.phase {
            Phase::Running => Action::Check(self.operation()),
            Phase::Aborted => Action::Halt(self.operation()),
            Phase::Finished => Action::Finish,
        }
    }
}

/// The state before any check.
pub open spec fn initial(rounds: nat) -> DriverView {
    DriverView {
        rounds,
        round: 0,
        index: 0,
        phase: if rounds == 0 {
            Phase::Finished
        } else {
            Phase::Running
        },
    }
}

/// One transition of a running driver on the verdict of its pending check.
pub open spec fn step(v: DriverView, verdict: Verdict) -> DriverView {
    if verdict != Verdict::Equal {
        DriverView { phase: Phase::Aborted, ..v }
    } else if v.index + 1 < 12 {
        DriverView { index: v.index + 1, ..v }
    } else {
        let round = v.round + 1;
        DriverView {
            round,
            index: 0,
            phase: if round == v.rounds {
                Phase::Finished
            } else {
                Phase::Running
            },
            ..v
        }
    }
}

/// The state after `k` checks in a row that all agreed.
pub open spec fn after_agreeing(v: DriverView, k: nat) -> DriverView
    decreases k,
{
    if k == 0 {
        v
    } else {
        step(after_agreeing(v, (k - 1) as nat), Verdict::Equal)
    }
}

/// A run in which every check agrees never halts: after `k` such checks the
/// driver is at round `k / 12`, operation `k % 12`, and it finishes exactly
/// when all `rounds * 12` checks are done.
pub proof fn lemma_agreeing_run(rounds: nat, k: nat)
    requires
        k <= rounds * 12,
    ensures
        after_agreeing(initial(rounds), k).round == k / 12,
        after_agreeing(initial(rounds), k).index == k % 12,
        after_agreeing(initial(rounds), k).rounds == rounds,
        after_agreeing(initial(rounds), k).phase == if k == rounds * 12 {
            Phase::Finished
        } else {
            Phase::Running
        },
    decreases k,
{
    if k > 0 {
        let j = (k - 1) as nat;
        lemma_agreeing_run(rounds, j);
        if j % 12 + 1 < 12 {
            assert(k / 12 == j / 12 && k % 12 == j % 12 + 1);
        } else {
            assert(k / 12 == j / 12 + 1 && k % 12 == 0);
            assert(k / 12 == rounds <==> k == rounds * 12);
        }
    }
}

/// Judges one vector: the chain oracle's outcome (left) against the
/// reference executor's (right) on `input`. A mismatch comes back with the
/// report that names the operation and carries the input for replay.
pub fn check_vector(op: Operation, input: &[u8], chain: &Outcome, reference: &Outcome) -> (r: Result<
    (),
    Mismatch,
>)
    ensures
        r is Ok <==> verdict_of(*chain, *reference) == Verdict::Equal,
        r matches Err(m) ==> m.operation == op && m.verdict == verdict_of(*chain, *reference)
            && m.input_hex@ == hex_lower(input@),
{
    let verdict = compare_outcomes(chain, reference);
    if verdict == Verdict::Equal {
        Ok(())
    } else {
        Err(Mismatch::new(op, verdict, input))
    }
}

impl Driver {
    pub fn new(rounds: u32) -> (r: Driver)
        ensures
            r@ == initial(rounds as nat),
            r@.wf(),
    {
        Driver { rounds, round: 0, index: 0, phase: if rounds == 0 { Phase::Finished } else { Phase::Running } }
    }

    pub fn phase(&self) -> (r: Phase)
        ensures
            r == self@.phase,
    {
        self.phase
    }

    /// The round the driver is in, counted from zero.
    pub fn round(&self) -> (r: u32)
        ensures
            r as nat == self@.round,
    {
        self.round
    }

    /// What the caller should do next.
    pub fn next_action(&self) -> (r: Action)
        requires
            self@.wf(),
        ensures
            r == self@.action(),
    {
        let op = Operation::at(self.index);
        match self.phase {
            Phase::Running => Action::Check(op),
            Phase::Aborted => Action::Halt(op),
            Phase::Finished => Action::Finish,
        }
    }

    /// Records the verdict of the pending check and moves on: to the next
    /// operation, to the next round, to the end, or to a halt on mismatch.
    pub fn record(&mut self, verdict: Verdict)
        requires
            old(self)@.wf(),
            old(self)@.phase == Phase::Running,
        ensures
            final(self)@ == step(old(self)@, verdict),
            final(self)@.wf(),
            verdict == Verdict::Equal ==> final(self)@.completed() == old(self)@.completed() + 1,
            verdict == Verdict::Equal ==> (final(self)@.phase == Phase::Finished
                <==> final(self)@.completed() == final(self)@.rounds * 12),
            verdict != Verdict::Equal ==> final(self)@.phase == Phase::Aborted
                && final(self)@.completed() == old(self)@.completed(),
    {
        if verdict != Verdict::Equal {
            self.phase = Phase::Aborted;
        } else if self.index + 1 < OPERATION_COUNT {
            self.index = self.index + 1;
        } else {
            self.round = self.round + 1;
            self.index = 0;
            if self.round == self.rounds {
                self.phase = Phase::Finished;
            }
        }
        proof {
            let v = self@;
            if verdict == Verdict::Equal && v.phase != Phase::Finished {
                assert(v.round < v.rounds);
                assert(v.completed() < v.rounds * 12) by (nonlinear_arith)
                    requires
                        v.round < v.rounds,
                        v.index < 12,
                        v.completed() == v.round * 12 + v.index,
                ;
            }
        }
    }
}

} // verus!
