use vstd::prelude::*;

verus! {

/// Encoded length of one G1 point, in bytes (two padded 64-byte coordinates).
pub const G1_POINT_LEN: usize = 128;

/// Encoded length of one G2 point, in bytes (four padded 64-byte coordinates).
pub const G2_POINT_LEN: usize = 256;

/// Encoded length of one scalar, in bytes.
pub const SCALAR_LEN: usize = 32;

/// Number of operations that one fuzz round covers.
pub const OPERATION_COUNT: usize = 12;

/// The two precompile families under test.
#[derive(PartialEq, Eq, Structural, Clone, Copy, Debug)]
pub enum Family {
    /// BLS12-381 operations.
    Eip2537,
    /// BLS12-377 operations.
    Eip2539,
}

/// The group an operation works in.
#[derive(PartialEq, Eq, Structural, Clone, Copy, Debug)]
pub enum Group {
    G1,
    G2,
}

/// What an operation computes.
#[derive(PartialEq, Eq, Structural, Clone, Copy, Debug)]
pub enum Kind {
    /// Sum of two points.
    Add,
    /// A point times a scalar.
    Mul,
    /// Sum of points, each times its own scalar.
    MultiExp,
}

/// One precompile operation that the fuzzer exercises.
#[derive(PartialEq, Eq, Structural, Clone, Copy, Debug)]
pub struct Operation {
    pub family: Family,
    pub group: Group,
    pub kind: Kind,
}

/// The kind of one encoded value in an input buffer.
#[derive(PartialEq, Eq, Structural, Clone, Copy, Debug)]
pub enum Part {
    /// A point of the operation's group and family.
    Point,
    /// A scalar.
    Scalar,
}

/// Encoded length of a point of group `g`.
pub open spec fn point_len(g: Group) -> nat {
    match g {
        Group::G1 => 128,
        Group::G2 => 256,
    }
}

/// The contract address byte of an operation: the family's first address,
/// then three addresses per group in the order add, mul, multiexp.
pub open spec fn selector_of(op: Operation) -> u8 {
    let base: int = match op.family {
        Family::Eip2537 => 10,
        Family::Eip2539 => 19,
    };
    let g: int = match op.group {
        Group::G1 => 0,
        Group::G2 => 3,
    };
    let k: int = match op.kind {
        Kind::Add => 0,
        Kind::Mul => 1,
        Kind::MultiExp => 2,
    };
    (base + g + k) as u8
}

/// Width of the executor's result for an operation: one encoded point.
pub open spec fn result_width_of(op: Operation) -> nat {
    point_len(op.group)
}

/// Length of the `i`-th encoded value of an input buffer: points at even
/// positions; at odd positions a second point for add, a scalar otherwise.
pub open spec fn part_len(op: Operation, i: int) -> nat {
    if i % 2 == 0 || op.kind == Kind::Add {
        point_len(op.group)
    } else {
        32
    }
}

/// The kind of the `i`-th encoded value of an input buffer.
pub open spec fn part_of(op: Operation, i: int) -> Part {
    if i % 2 == 0 || op.kind == Kind::Add {
        Part::Point
    } else {
        Part::Scalar
    }
}

/// The number of encoded values in a buffer of `pairs` pairs: one pair for
/// add and mul, whatever `pairs` says; `pairs` pairs for multiexp.
pub open spec fn part_count_of(op: Operation, pairs: nat) -> nat {
    match op.kind {
        Kind::MultiExp => 2 * pairs,
        _ => 2,
    }
}

/// Whether an input buffer of `n` encoded values is well formed for `op`:
/// exactly one pair for add and mul, one pair or more for multiexp.
pub open spec fn part_count_ok(op: Operation, n: nat) -> bool {
    match op.kind {
        Kind::MultiExp => n >= 2 && n % 2 == 0,
        _ => n == 2,
    }
}

/// Whether a sequence of encoded values has the layout that `op` expects.
pub open spec fn layout_ok(op: Operation, parts: Seq<Seq<u8>>) -> bool {
    &&& part_count_ok(op, parts.len())
    &&& forall|i: int| 0 <= i < parts.len() ==> (#[trigger] parts[i]).len() == part_len(op, i)
}

/// Length of a well-formed input buffer of `pairs` pairs.
pub open spec fn input_len(op: Operation, pairs: nat) -> nat {
    match op.kind {
        Kind::Add => 2 * point_len(op.group),
        _ => pairs * (point_len(op.group) + 32),
    }
}

/// The operations of one round, in the order the driver visits them.
pub open spec fn round_order() -> Seq<Operation> {
    seq![
        Operation { family: Family::Eip2537, group: Group::G1, kind: Kind::Add },
        Operation { family: Family::Eip2537, group: Group::G1, kind: Kind::Mul },
        Operation { family: Family::Eip2537, group: Group::G1, kind: Kind::MultiExp },
        Operation { family: Family::Eip2537, group: Group::G2, kind: Kind::Add },
        Operation { family: Family::Eip2537, group: Group::G2, kind: Kind::Mul },
        Operation { family: Family::Eip2537, group: Group::G2, kind: Kind::MultiExp },
        Operation { family: Family::Eip2539, group: Group::G1, kind: Kind::Add },
        Operation { family: Family::Eip2539, group: Group::G1, kind: Kind::Mul },
        Operation { family: Family::Eip2539, group: Group::G1, kind: Kind::MultiExp },
        Operation { family: Family::Eip2539, group: Group::G2, kind: Kind::Add },
        Operation { family: Family::Eip2539, group: Group::G2, kind: Kind::Mul },
        Operation { family: Family::Eip2539, group: Group::G2, kind: Kind::MultiExp },
    ]
}

/// The operation's name: family, group and kind, joined by underscores.
pub open spec fn name_of(op: Operation) -> Seq<char> {
    match (op.family, op.group, op.kind) {
        (Family::Eip2537, Group::G1, Kind::Add) => "eip2537_g1_add"@,
        (Family::Eip2537, Group::G1, Kind::Mul) => "eip2537_g1_mul"@,
        (Family::Eip2537, Group::G1, Kind::MultiExp) => "eip2537_g1_multiexp"@,
        (Family::Eip2537, Group::G2, Kind::Add) => "eip2537_g2_add"@,
        (Family::Eip2537, Group::G2, Kind::Mul) => "eip2537_g2_mul"@,
        (Family::Eip2537, Group::G2, Kind::MultiExp) => "eip2537_g2_multiexp"@,
        (Family::Eip2539, Group::G1, Kind::Add) => "eip2539_g1_add"@,
        (Family::Eip2539, Group::G1, Kind::Mul) => "eip2539_g1_mul"@,
        (Family::Eip2539, Group::G1, Kind::MultiExp) => "eip2539_g1_multiexp"@,
        (Family::Eip2539, Group::G2, Kind::Add) => "eip2539_g2_add"@,
        (Family::Eip2539, Group::G2, Kind::Mul) => "eip2539_g2_mul"@,
        (Family::Eip2539, Group::G2, Kind::MultiExp) => "eip2539_g2_multiexp"@,
    }
}

/// The seed of the fuzzer's random generator: the bytes 0 to 15, in order.
pub open spec fn seed_of() -> Seq<u8> {
    Seq::new(16, |i: int| i as u8)
}

/// The fixed seed that makes a fuzz run's vectors reproducible.
pub fn fuzz_seed() -> (r: [u8; 16])
    ensures
        r@ == seed_of(),
{
    let r: [u8; 16] = [0, 1, 2, 3, 4, 5, 6, 7, 8, 9, 10, 11, 12, 13, 14, 15];
    assert(r@ =~= seed_of());
    r
}

impl Operation {
    /// The contract address byte the chain oracle calls for this operation.
    pub fn selector(&self) -> (r: u8)
        ensures
            r == selector_of(*self),
            10 <= r <= 24,
    {
        let base: u8 = match self.family {
            Family::Eip2537 => 10,
            Family::Eip2539 => 19,
        };
        let g: u8 = match self.group {
            Group::G1 => 0,
            Group::G2 => 3,
        };
        let k: u8 = match self.kind {
            Kind::Add => 0,
            Kind::Mul => 1,
            Kind::MultiExp => 2,
        };
        base + g + k
    }

    /// Width in bytes of the reference executor's result.
    pub fn result_width(&self) -> (r: usize)
        ensures
            r as nat == result_width_of(*self),
    {
        self.point_len()
    }

    /// Encoded length of one point of this operation's group.
    pub fn point_len(&self) -> (r: usize)
        ensures
            r as nat == point_len(self.group),
    {
        match self.group {
            Group::G1 => G1_POINT_LEN,
            Group::G2 => G2_POINT_LEN,
        }
    }

    /// Expected length of the `i`-th encoded value of an input buffer.
    pub fn part_len(&self, i: usize) -> (r: usize)
        ensures
            r as nat == part_len(*self, i as int),
    {
        if i % 2 == 0 || self.kind == Kind::Add {
            self.point_len()
        } else {
            SCALAR_LEN
        }
    }

    /// The kind of the `i`-th encoded value of an input buffer.
    pub fn part(&self, i: usize) -> (r: Part)
        ensures
            r == part_of(*self, i as int),
    {
        if i % 2 == 0 || self.kind == Kind::Add {
            Part::Point
        } else {
            Part::Scalar
        }
    }

    /// How many encoded values a buffer of `pairs` (point, scalar) pairs
    /// holds; add and mul always take exactly one pair.
    pub fn part_count(&self, pairs: usize) -> (r: usize)
        requires
            1 <= pairs <= usize::MAX / 2,
        ensures
            r as nat == part_count_of(*self, pairs as nat),
            part_count_ok(*self, r as nat),
    {
        match self.kind {
            Kind::MultiExp => 2 * pairs,
            _ => 2,
        }
    }

    /// The `i`-th operation of a round.
    pub fn at(i: usize) -> (r: Operation)
        requires
            i < OPERATION_COUNT,
        ensures
            r == round_order()[i as int],
    {
        let family = if i < 6 { Family::Eip2537 } else { Family::Eip2539 };
        let j = i % 6;
        let group = if j < 3 { Group::G1 } else { Group::G2 };
        let kind = match j % 3 {
            0 => Kind::Add,
            1 => Kind::Mul,
            _ => Kind::MultiExp,
        };
        Operation { family, group, kind }
    }

    /// The operation's name, as used in diagnostics (`eip2537_g1_add`, ...).
    pub fn name(&self) -> (r: &'static str)
        ensures
            r@ == name_of(*self),
    {
        match (self.family, self.group, self.kind) {
            (Family::Eip2537, Group::G1, Kind::Add) => "eip2537_g1_add",
            (Family::Eip2537, Group::G1, Kind::Mul) => "eip2537_g1_mul",
            (Family::Eip2537, Group::G1, Kind::MultiExp) => "eip2537_g1_multiexp",
            (Family::Eip2537, Group::G2, Kind::Add) => "eip2537_g2_add",
            (Family::Eip2537, Group::G2, Kind::Mul) => "eip2537_g2_mul",
            (Family::Eip2537, Group::G2, Kind::MultiExp) => "eip2537_g2_multiexp",
            (Family::Eip2539, Group::G1, Kind::Add) => "eip2539_g1_add",
            (Family::Eip2539, Group::G1, Kind::Mul) => "eip2539_g1_mul",
            (Family::Eip2539, Group::G1, Kind::MultiExp) => "eip2539_g1_multiexp",
            (Family::Eip2539, Group::G2, Kind::Add) => "eip2539_g2_add",
            (Family::Eip2539, Group::G2, Kind::Mul) => "eip2539_g2_mul",
            (Family::Eip2539, Group::G2, Kind::MultiExp) => "eip2539_g2_multiexp",
        }
    }
}

} // verus!
