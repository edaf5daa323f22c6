use vstd::prelude::*;

use crate::operation::{input_len, layout_ok, part_count_ok, part_len, point_len, Kind, Operation};

verus! {

/// Why a set of encoded values does not make an input buffer.
#[derive(PartialEq, Eq, Structural, Clone, Copy, Debug)]
pub enum LayoutError {
    /// The number of encoded values does not fit the operation.
    WrongPartCount,
    /// The encoded value at this position has the wrong length.
    WrongPartLength(usize),
}

/// The byte sequences of a vector of encoded values.
pub open spec fn parts_view(parts: Seq<Vec<u8>>) -> Seq<Seq<u8>> {
    parts.map_values(|p: Vec<u8>| p@)
}

/// The first position whose encoded value has the wrong length, if any.
pub open spec fn first_bad_part(op: Operation, parts: Seq<Seq<u8>>, i: int) -> bool {
    &&& 0 <= i < parts.len()
    &&& parts[i].len() != part_len(op, i)
    &&& forall|j: int| 0 <= j < i ==> (#[trigger] parts[j]).len() == part_len(op, j)
}

/// The total length of a well-formed buffer is fixed by the operation and
/// the number of pairs.
pub proof fn lemma_layout_len(op: Operation, parts: Seq<Seq<u8>>)
    requires
        layout_ok(op, parts),
    ensures
        parts.flatten().len() == input_len(op, parts.len() / 2),
    decreases parts.len(),
{
    let n = parts.len();
    if n == 2 {
        assert(parts =~= seq![parts[0]].push(parts[1]));
        seq![parts[0]].lemma_flatten_push(parts[1]);
        seq![parts[0]].lemma_flatten_singleton();
        if op.kind == Kind::Add {
            assert(parts[1].len() == point_len(op.group));
        }
    } else {
        let rest = parts.subrange(0, n - 2);
        assert(layout_ok(op, rest)) by {
            assert forall|i: int| 0 <= i < rest.len() implies (#[trigger] rest[i]).len() == part_len(op, i) by {
                assert(rest[i] == parts[i]);
            }
        }
        lemma_layout_len(op, rest);
        assert(parts.subrange(0, n - 1) =~= rest.push(parts[n - 2]));
        assert(parts =~= parts.subrange(0, n - 1).push(parts[n - 1]));
        rest.lemma_flatten_push(parts[n - 2]);
        parts.subrange(0, n - 1).lemma_flatten_push(parts[n - 1]);
        assert((n - 2) % 2 == 0);
        assert((n - 1) % 2 == 1);
        assert(parts[n - 2].len() == point_len(op.group));
        assert(parts[n - 1].len() == 32);
        assert(n / 2 == (n - 2) / 2 + 1);
        let c = point_len(op.group) + 32;
        let m = ((n - 2) / 2) as nat;
        assert((m + 1) * c == m * c + c) by (nonlinear_arith);
    }
}

/// An add buffer is exactly two point encodings long; a mul buffer is one
/// point encoding and one scalar encoding long.
pub proof fn lemma_add_mul_input_len(op: Operation, parts: Seq<Seq<u8>>)
    requires
        layout_ok(op, parts),
    ensures
        op.kind == Kind::Add ==> parts.flatten().len() == 2 * point_len(op.group),
        op.kind == Kind::Mul ==> parts.flatten().len() == point_len(op.group) + 32,
{
    lemma_layout_len(op, parts);
    if op.kind == Kind::Mul {
        assert(parts.len() / 2 == 1);
        assert(1 * (point_len(op.group) + 32) == point_len(op.group) + 32);
    }
}

/// Checks that `parts` has the layout `op` expects and concatenates it, in
/// order, into one input buffer.
pub fn build_input(op: Operation, parts: &Vec<Vec<u8>>) -> (r: Result<Vec<u8>, LayoutError>)
    ensures
        !part_count_ok(op, parts@.len()) <==> r == Err::<Vec<u8>, LayoutError>(LayoutError::WrongPartCount),
        forall|i: usize|
            r == Err::<Vec<u8>, LayoutError>(LayoutError::WrongPartLength(i)) <==> part_count_ok(op, parts@.len())
                && first_bad_part(op, parts_view(parts@), i as int),
        r is Ok <==> layout_ok(op, parts_view(parts@)),
        r matches Ok(buf) ==> buf@ == parts_view(parts@).flatten(),
        r matches Ok(buf) ==> buf@.len() == input_len(op, parts@.len() / 2),
{
    let ghost pv = parts_view(parts@);
    if !(match op.kind {
        Kind::MultiExp => parts.len() >= 2 && parts.len() % 2 == 0,
        _ => parts.len() == 2,
    }) {
        return Err(LayoutError::WrongPartCount);
    }
    let mut buf: Vec<u8> = Vec::new();
    let mut i: usize = 0;
    while i < parts.len()
        invariant
            pv == parts_view(parts@),
            part_count_ok(op, parts@.len()),
            0 <= i <= parts@.len(),
            forall|j: int| 0 <= j < i ==> (#[trigger] pv[j]).len() == part_len(op, j),
            buf@ == pv.subrange(0, i as int).flatten(),
        decreases parts@.len() - i,
    {
        let part = &parts[i];
        assert(part@ == pv[i as int]);
        if part.len() != op.part_len(i) {
            return Err(LayoutError::WrongPartLength(i));
        }
        let ghost before = buf@;
        let mut k: usize = 0;
        while k < part.len()
            invariant
                0 <= k <= part@.len(),
                buf@ == before + part@.subrange(0, k as int),
            decreases part@.len() - k,
        {
            buf.push(part[k]);
            k = k + 1;
            assert(buf@ =~= before + part@.subrange(0, k as int));
        }
        assert(part@.subrange(0, k as int) =~= part@);
        assert(pv.subrange(0, i + 1) =~= pv.subrange(0, i as int).push(pv[i as int]));
        proof { pv.subrange(0, i as int).lemma_flatten_push(pv[i as int]); }
        i = i + 1;
    }
    assert(pv.subrange(0, i as int) =~= pv);
    proof {
        lemma_layout_len(op, pv);
    }
    Ok(buf)
}

} // verus!
