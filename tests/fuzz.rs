use precompile_fuzz::compare::{
    compare_g1_results, compare_g2_results, compare_outcomes, compare_pair_results, Outcome, Side,
    Verdict,
};
use precompile_fuzz::driver::{check_vector, Action, Driver, Phase};
use precompile_fuzz::operation::{fuzz_seed, Family, Group, Kind, Operation, OPERATION_COUNT};
use precompile_fuzz::report::Mismatch;
use precompile_fuzz::rpc::{precompile_call, Eip2537Rpc, Eip2539Rpc, PrecompileCall};
use precompile_fuzz::vector::{build_input, LayoutError};
use rand::{RngCore, SeedableRng};
use rand_xorshift::XorShiftRng;

fn op(family: Family, group: Group, kind: Kind) -> Operation {
    Operation { family, group, kind }
}

fn filled(len: usize, byte: u8) -> Vec<u8> {
    vec![byte; len]
}

#[test]
fn selectors_cover_ten_to_twenty_four() {
    let expected: Vec<u8> = (10..16).chain(19..25).collect();
    let got: Vec<u8> = (0..OPERATION_COUNT).map(|i| Operation::at(i).selector()).collect();
    assert_eq!(got, expected);
}

#[test]
fn round_order_starts_with_eip2537_g1_add() {
    assert_eq!(Operation::at(0), op(Family::Eip2537, Group::G1, Kind::Add));
    assert_eq!(Operation::at(5), op(Family::Eip2537, Group::G2, Kind::MultiExp));
    assert_eq!(Operation::at(6), op(Family::Eip2539, Group::G1, Kind::Add));
    assert_eq!(Operation::at(11), op(Family::Eip2539, Group::G2, Kind::MultiExp));
}

#[test]
fn operation_names() {
    assert_eq!(op(Family::Eip2537, Group::G1, Kind::Add).name(), "eip2537_g1_add");
    assert_eq!(op(Family::Eip2539, Group::G2, Kind::MultiExp).name(), "eip2539_g2_multiexp");
}

#[test]
fn result_widths() {
    assert_eq!(op(Family::Eip2537, Group::G1, Kind::Mul).result_width(), 128);
    assert_eq!(op(Family::Eip2539, Group::G2, Kind::Add).result_width(), 256);
}

#[test]
fn rpc_calls_target_the_precompile_addresses() {
    let input = [1u8, 2, 3, 4];
    let calls: Vec<PrecompileCall> = vec![
        Eip2537Rpc::g1_add(&input),
        Eip2537Rpc::g1_mul(&input),
        Eip2537Rpc::g1_multiexp(&input),
        Eip2537Rpc::g2_add(&input),
        Eip2537Rpc::g2_mul(&input),
        Eip2537Rpc::g2_multiexp(&input),
        Eip2537Rpc::pairing(&input),
        Eip2537Rpc::map_to_g1(&input),
        Eip2537Rpc::map_to_g2(&input),
        Eip2539Rpc::g1_add(&input),
        Eip2539Rpc::g1_mul(&input),
        Eip2539Rpc::g1_multiexp(&input),
        Eip2539Rpc::g2_add(&input),
        Eip2539Rpc::g2_mul(&input),
        Eip2539Rpc::g2_multiexp(&input),
        Eip2539Rpc::pairing(&input),
    ];
    let addresses: Vec<u8> = calls.iter().map(|c| c.address).collect();
    assert_eq!(addresses, (10..26).collect::<Vec<u8>>());
    for c in &calls {
        assert_eq!(c.data, vec![1, 2, 3, 4]);
    }
    let c = precompile_call(op(Family::Eip2539, Group::G2, Kind::Mul), &input);
    assert_eq!(c.address, 23);
}

#[test]
fn add_input_is_two_points_in_order() {
    let a = filled(128, 0xaa);
    let b = filled(128, 0xbb);
    let buf = build_input(op(Family::Eip2537, Group::G1, Kind::Add), &vec![a.clone(), b.clone()]).unwrap();
    assert_eq!(buf.len(), 256);
    assert_eq!(&buf[..128], &a[..]);
    assert_eq!(&buf[128..], &b[..]);

    let g2 = build_input(
        op(Family::Eip2539, Group::G2, Kind::Add),
        &vec![filled(256, 1), filled(256, 2)],
    )
    .unwrap();
    assert_eq!(g2.len(), 512);
}

#[test]
fn mul_input_is_point_then_scalar() {
    let p = filled(128, 7);
    let s = filled(32, 9);
    let buf = build_input(op(Family::Eip2537, Group::G1, Kind::Mul), &vec![p.clone(), s.clone()]).unwrap();
    assert_eq!(buf.len(), 160);
    assert_eq!(&buf[..128], &p[..]);
    assert_eq!(&buf[128..], &s[..]);

    let g2 = build_input(
        op(Family::Eip2539, Group::G2, Kind::Mul),
        &vec![filled(256, 1), filled(32, 2)],
    )
    .unwrap();
    assert_eq!(g2.len(), 288);
}

#[test]
fn multiexp_input_takes_one_or_more_pairs() {
    let g1 = op(Family::Eip2537, Group::G1, Kind::MultiExp);
    let one = build_input(g1, &vec![filled(128, 1), filled(32, 2)]).unwrap();
    assert_eq!(one.len(), 160);
    let two = build_input(g1, &vec![filled(128, 1), filled(32, 2), filled(128, 3), filled(32, 4)]).unwrap();
    assert_eq!(two.len(), 320);
    assert_eq!(two[160], 3);
}

#[test]
fn wrong_part_count_is_rejected() {
    let add = op(Family::Eip2537, Group::G1, Kind::Add);
    assert_eq!(build_input(add, &vec![filled(128, 1)]), Err(LayoutError::WrongPartCount));
    assert_eq!(build_input(add, &vec![]), Err(LayoutError::WrongPartCount));
    let multiexp = op(Family::Eip2539, Group::G2, Kind::MultiExp);
    assert_eq!(
        build_input(multiexp, &vec![filled(256, 1), filled(32, 2), filled(256, 3)]),
        Err(LayoutError::WrongPartCount)
    );
}

#[test]
fn wrong_part_length_names_first_bad_position() {
    let mul = op(Family::Eip2537, Group::G1, Kind::Mul);
    assert_eq!(build_input(mul, &vec![filled(128, 1), filled(31, 2)]), Err(LayoutError::WrongPartLength(1)));
    assert_eq!(build_input(mul, &vec![filled(127, 1), filled(31, 2)]), Err(LayoutError::WrongPartLength(0)));
    let add = op(Family::Eip2537, Group::G2, Kind::Add);
    assert_eq!(build_input(add, &vec![filled(256, 1), filled(32, 2)]), Err(LayoutError::WrongPartLength(1)));
}

#[test]
fn comparator_policy() {
    let ok = |b: Vec<u8>| Outcome::Success(b);
    let chain_err = || Outcome::TransportFailure("connection refused".to_string());
    let exec_err = || Outcome::ComputationFailure("point is not on curve".to_string());

    assert_eq!(compare_outcomes(&ok(filled(128, 5)), &ok(filled(128, 5))), Verdict::Equal);
    assert_eq!(compare_outcomes(&ok(filled(128, 5)), &ok(filled(128, 6))), Verdict::BytesDiffer);
    assert_eq!(compare_outcomes(&ok(filled(127, 5)), &ok(filled(128, 5))), Verdict::BytesDiffer);
    assert_eq!(compare_outcomes(&chain_err(), &ok(filled(128, 5))), Verdict::ChainFailed);
    assert_eq!(compare_outcomes(&ok(filled(128, 5)), &exec_err()), Verdict::ExecutorFailed);
    assert_eq!(compare_outcomes(&chain_err(), &exec_err()), Verdict::BothFailed);

    assert!(compare_g1_results(ok(filled(128, 5)), ok(filled(128, 5))));
    assert!(!compare_g1_results(ok(filled(129, 5)), ok(filled(128, 5))));
    assert!(!compare_g1_results(chain_err(), exec_err()));
    assert!(compare_g2_results(ok(filled(256, 5)), ok(filled(256, 5))));
    assert!(!compare_g2_results(ok(filled(256, 5)), exec_err()));
    assert!(compare_pair_results(ok(filled(32, 1)), ok(filled(32, 1))));
    assert!(!compare_pair_results(chain_err(), ok(filled(32, 1))));
}

#[test]
fn g1_add_agreeing_then_mutated_executor_result() {
    let g1_add = op(Family::Eip2537, Group::G1, Kind::Add);
    let input = build_input(g1_add, &vec![filled(128, 0x11), filled(128, 0x22)]).unwrap();
    let sum = filled(128, 0x33);
    let chain = Outcome::Success(sum.clone());
    assert_eq!(check_vector(g1_add, &input, &chain, &Outcome::Success(sum.clone())).map_err(|m| m.verdict), Ok(()));

    let mut mutated = sum;
    mutated[17] ^= 0x01;
    let verdict = compare_outcomes(&chain, &Outcome::Success(mutated.clone()));
    assert_eq!(verdict, Verdict::BytesDiffer);
    assert!(!verdict.is_equal());
    assert_eq!(verdict.divergent(), Some(Side::Executor));
    let m = check_vector(g1_add, &input, &chain, &Outcome::Success(mutated)).unwrap_err();
    assert_eq!(m.verdict, Verdict::BytesDiffer);
    assert_eq!(m.operation, g1_add);
    assert_eq!(m.input_hex.len(), 512);
    assert!(m.input_hex.starts_with("1111"));
    assert!(m.input_hex.ends_with("2222"));
}

#[test]
fn chain_transport_error_is_left_side_mismatch() {
    let chain = Outcome::TransportFailure("connection refused".to_string());
    let executor = Outcome::Success(filled(128, 4));
    let verdict = compare_outcomes(&chain, &executor);
    assert_eq!(verdict, Verdict::ChainFailed);
    assert_eq!(verdict.divergent(), Some(Side::Chain));
    assert_eq!(verdict.diagnostic(), "left/chain error");
    assert!(!compare_g1_results(chain, executor));
}

#[test]
fn verdict_diagnostics() {
    assert_eq!(Verdict::ExecutorFailed.diagnostic(), "right/executor error");
    assert_eq!(Verdict::Equal.divergent(), None);
    assert_eq!(Verdict::BothFailed.divergent(), Some(Side::Both));
}

#[test]
fn mismatch_report_carries_hex_input() {
    let m = Mismatch::new(op(Family::Eip2537, Group::G1, Kind::Add), Verdict::BothFailed, &[0x00, 0xab, 0xff, 0x10]);
    assert_eq!(m.input_hex, "00abff10");
    assert_eq!(m.verdict, Verdict::BothFailed);
}

fn stub_parts(o: Operation) -> Vec<Vec<u8>> {
    vec![filled(o.part_len(0), 1), filled(o.part_len(1), 2)]
}

#[test]
fn one_agreeing_round_finishes_without_halt() {
    let mut driver = Driver::new(1);
    let mut checks = 0;
    loop {
        match driver.next_action() {
            Action::Check(o) => {
                let input = build_input(o, &stub_parts(o)).unwrap();
                let result = filled(o.result_width(), input[0]);
                let outcome = check_vector(o, &input, &Outcome::Success(result.clone()), &Outcome::Success(result));
                assert!(outcome.is_ok());
                driver.record(Verdict::Equal);
                checks += 1;
            }
            Action::Halt(o) => panic!("unexpected halt at {}", o.name()),
            Action::Finish => break,
        }
    }
    assert_eq!(checks, 12);
    assert_eq!(driver.phase(), Phase::Finished);
    assert_eq!(driver.round(), 1);
}

#[test]
fn mismatch_halts_at_its_operation() {
    let mut driver = Driver::new(3);
    for _ in 0..15 {
        driver.record(Verdict::Equal);
    }
    assert_eq!(driver.round(), 1);
    assert_eq!(driver.next_action(), Action::Check(op(Family::Eip2537, Group::G2, Kind::Add)));
    driver.record(Verdict::ChainFailed);
    assert_eq!(driver.phase(), Phase::Aborted);
    assert_eq!(driver.next_action(), Action::Halt(op(Family::Eip2537, Group::G2, Kind::Add)));
}

#[test]
fn zero_rounds_finish_at_once() {
    let driver = Driver::new(0);
    assert_eq!(driver.next_action(), Action::Finish);
}

#[test]
fn seeded_generator_repeats_its_draws() {
    let seed = fuzz_seed();
    assert_eq!(seed, [0, 1, 2, 3, 4, 5, 6, 7, 8, 9, 10, 11, 12, 13, 14, 15]);
    let mut a = XorShiftRng::from_seed(seed);
    let mut b = XorShiftRng::from_seed(seed);
    let first: Vec<u64> = (0..64).map(|_| a.next_u64()).collect();
    let second: Vec<u64> = (0..64).map(|_| b.next_u64()).collect();
    assert_eq!(first, second);
}
