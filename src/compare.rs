use vstd::prelude::*;

verus! {

/// What one oracle returned for one input buffer.
#[derive(Debug)]
pub enum Outcome {
    /// The oracle's result bytes.
    Success(Vec<u8>),
    /// The chain oracle could not be reached, refused the call, or answered
    /// with something that could not be decoded. The text is for logs only.
    TransportFailure(String),
    /// The reference executor rejected the input. The text is for logs only.
    ComputationFailure(String),
}

/// The side that a mismatch is charged to.
#[derive(PartialEq, Eq, Structural, Clone, Copy, Debug)]
pub enum Side {
    /// The chain oracle, the left side of a comparison.
    Chain,
    /// The reference executor, the right side of a comparison.
    Executor,
    /// Both oracles failed.
    Both,
}

/// The result of comparing the two oracles' outcomes.
#[derive(PartialEq, Eq, Structural, Clone, Copy, Debug)]
pub enum Verdict {
    /// Both succeeded with identical bytes.
    Equal,
    /// Both succeeded, and the executor's bytes differ from the chain's.
    BytesDiffer,
    /// The chain failed and the executor succeeded.
    ChainFailed,
    /// The chain succeeded and the executor failed.
    ExecutorFailed,
    /// Both failed. Two rejections still count as a mismatch.
    BothFailed,
}

impl Outcome {
    pub open spec fn succeeded(self) -> bool {
        self is Success
    }

    /// The bytes of a successful outcome.
    pub open spec fn payload(self) -> Seq<u8>
        recommends
            self is Success,
    {
        match self {
            Outcome::Success(b) => b@,
            _ => Seq::empty(),
        }
    }
}

/// The comparison policy: equal only when both sides succeed with the same
/// bytes, length included; every other pairing is a mismatch.
pub open spec fn verdict_of(left: Outcome, right: Outcome) -> Verdict {
    if left.succeeded() && right.succeeded() {
        if left.payload() == right.payload() {
            Verdict::Equal
        } else {
            Verdict::BytesDiffer
        }
    } else if left.succeeded() {
        Verdict::ExecutorFailed
    } else if right.succeeded() {
        Verdict::ChainFailed
    } else {
        Verdict::BothFailed
    }
}

/// Whether the executor's outcome has its declared width when it succeeds.
pub open spec fn width_ok(right: Outcome, width: nat) -> bool {
    right.succeeded() ==> right.payload().len() == width
}

fn bytes_equal(a: &Vec<u8>, b: &Vec<u8>) -> (r: bool)
    ensures
        r == (a@ == b@),
{
    if a.len() != b.len() {
        return false;
    }
    let mut i: usize = 0;
    while i < a.len()
        invariant
            a@.len() == b@.len(),
            0 <= i <= a@.len(),
            forall|j: int| 0 <= j < i ==> a@[j] == b@[j],
        decreases a@.len() - i,
    {
        if a[i] != b[i] {
            return false;
        }
        i = i + 1;
    }
    assert(a@ =~= b@);
    true
}

/// Compares the chain oracle's outcome (left) with the reference
/// executor's outcome (right).
pub fn compare_outcomes(left: &Outcome, right: &Outcome) -> (r: Verdict)
    ensures
        r == verdict_of(*left, *right),
{
    match (left, right) {
        (Outcome::Success(a), Outcome::Success(b)) => {
            if bytes_equal(a, b) {
                Verdict::Equal
            } else {
                Verdict::BytesDiffer
            }
        },
        (Outcome::Success(_), _) => Verdict::ExecutorFailed,
        (_, Outcome::Success(_)) => Verdict::ChainFailed,
        _ => Verdict::BothFailed,
    }
}

/// Compares outcomes of an operation whose result is a 32-byte digest.
pub fn compare_pair_results(left: Outcome, right: Outcome) -> (r: bool)
    requires
        width_ok(right, 32),
    ensures
        r == (verdict_of(left, right) == Verdict::Equal),
        r <==> left.succeeded() && right.succeeded() && left.payload() == right.payload(),
{
    compare_outcomes(&left, &right) == Verdict::Equal
}

/// Compares outcomes of an operation whose result is one G1 point.
pub fn compare_g1_results(left: Outcome, right: Outcome) -> (r: bool)
    requires
        width_ok(right, 128),
    ensures
        r == (verdict_of(left, right) == Verdict::Equal),
        r <==> left.succeeded() && right.succeeded() && left.payload() == right.payload(),
{
    compare_outcomes(&left, &right) == Verdict::Equal
}

/// Compares outcomes of an operation whose result is one G2 point.
pub fn compare_g2_results(left: Outcome, right: Outcome) -> (r: bool)
    requires
        width_ok(right, 256),
    ensures
        r == (verdict_of(left, right) == Verdict::Equal),
        r <==> left.succeeded() && right.succeeded() && left.payload() == right.payload(),
{
    compare_outcomes(&left, &right) == Verdict::Equal
}

/// The side a verdict charges; the chain oracle is the ground truth when
/// both sides answered with different bytes.
pub open spec fn divergent_of(v: Verdict) -> Option<Side> {
    match v {
        Verdict::Equal => None,
        Verdict::BytesDiffer => Some(Side::Executor),
        Verdict::ChainFailed => Some(Side::Chain),
        Verdict::ExecutorFailed => Some(Side::Executor),
        Verdict::BothFailed => Some(Side::Both),
    }
}

impl Verdict {
    /// Whether the two oracles agreed.
    pub fn is_equal(&self) -> (r: bool)
        ensures
            r == (*self == Verdict::Equal),
    {
        *self == Verdict::Equal
    }

    /// The side to blame for a mismatch, if there is one.
    pub fn divergent(&self) -> (r: Option<Side>)
        ensures
            r == divergent_of(*self),
    {
        match self {
            Verdict::Equal => None,
            Verdict::BytesDiffer => Some(Side::Executor),
            Verdict::ChainFailed => Some(Side::Chain),
            Verdict::ExecutorFailed => Some(Side::Executor),
            Verdict::BothFailed => Some(Side::Both),
        }
    }

    /// A short line for the log that says which side failed.
    pub fn diagnostic(&self) -> (r: &'static str)
        ensures
            r@ == diagnostic_of(*self),
    {
        match self {
            Verdict::Equal => "results agree",
            Verdict::BytesDiffer => "right/executor result differs",
            Verdict::ChainFailed => "left/chain error",
            Verdict::ExecutorFailed => "right/executor error",
            Verdict::BothFailed => "left/chain and right/executor error",
        }
    }
}

/// The log line of each verdict.
pub open spec fn diagnostic_of(v: Verdict) -> Seq<char> {
    match v {
        Verdict::Equal => "results agree"@,
        Verdict::BytesDiffer => "right/executor result differs"@,
        Verdict::ChainFailed => "left/chain error"@,
        Verdict::ExecutorFailed => "right/executor error"@,
        Verdict::BothFailed => "left/chain and right/executor error"@,
    }
}

/// Two outcomes compare equal exactly when both oracles succeed with
/// identical bytes; any failure on either side, or any byte or length
/// difference, is a mismatch. When the executor's result has its declared
/// width, an equal chain result has that width too.
pub proof fn lemma_equal_iff_identical_success(left: Outcome, right: Outcome, width: nat)
    ensures
        verdict_of(left, right) == Verdict::Equal <==> (left is Success && right is Success
            && left.payload() == right.payload()),
        !left.succeeded() ==> verdict_of(left, right) != Verdict::Equal,
        !right.succeeded() ==> verdict_of(left, right) != Verdict::Equal,
        width_ok(right, width) && verdict_of(left, right) == Verdict::Equal ==> left.payload().len()
            == width,
{
}

} // verus!
