//! The function-style actions: chains built from plain and fallible
//! functions, run directly or with failures short-circuiting.

use actions::arrow::error::{Either, Error, ErrorT, LiftIdentity};
use actions::arrow::{Action, Identity, e, f, id, pure};

#[test]
fn errors_single() {
    let chain = e(|x: u32| {
        if x == 0 {
            Either::Left(())
        } else {
            Either::Right(100 / x)
        }
    });

    assert_eq!(chain.run_error(2), Either::Right(50));
    assert_eq!(chain.run_error(4), Either::Right(25));
}

#[test]
fn errors_chain() {
    let f1 = e(|x: i32| Either::Right(x + 2));
    let f2 = e(|x: i32| {
        if x == 0 {
            Either::Left(())
        } else {
            Either::Right(100 / x)
        }
    });
    let f3 = e(|x: i32| Either::Right(x + 10));

    let first_two = f1.and_then(f2);
    let chain = first_two.and_then(f3);

    assert_eq!(chain.run_error(2), Either::Right(35));
    assert_eq!(chain.run_error(3), Either::Right(30));
    assert_eq!(chain.run_error(-2), Either::Left(()));
}

#[test]
fn mix_identity_with_error() {
    let f1 = f(|x: i32| x + 2);
    let f2 = e(|x: i32| {
        if x == 0 {
            Either::Left(())
        } else {
            Either::Right(100 / x)
        }
    });
    let f3 = f(|x: i32| x + 10);

    let first_two = f1.and_then(f2);
    let chain = first_two.and_then(f3);

    assert_eq!(chain.run_error(2), Either::Right(35));
    assert_eq!(chain.run_error(3), Either::Right(30));
    assert_eq!(chain.run_error(-2), Either::Left(()));
}

#[test]
fn identity_or_error() {
    let f1 = f(|x: i32| x + 2);
    let f2 = id();
    let f3 = f(|x: i32| x + 10);

    let first_two = f1.and_then(f2);
    let chain = first_two.and_then(f3);

    assert_eq!(chain.run_error(2), Either::<(), _>::Right(14));
    assert_eq!(chain.run(3), 15);
}

#[test]
fn sequence_runs_both_sides() {
    let chain = f(|x: i32| x + 1).sequence(f(|y: i32| y * 2));
    assert_eq!(chain.run((3, 4)), (4, 8));
}

#[test]
fn first_and_second_pass_the_other_half_through() {
    let lifted = f(|x: i32| x + 1).first::<&str>();
    assert_eq!(lifted.run((3, "kept")), (4, "kept"));

    let mirrored = f(|x: i32| x * 2).second::<&str>();
    assert_eq!(mirrored.run(("kept", 5)), ("kept", 10));
}

#[test]
fn tee_runs_both_on_one_input() {
    let both = f(|x: i32| x + 1).tee(f(|x: i32| x * 2));
    assert_eq!(both.run(5), (6, 10));
}

#[test]
fn pure_ignores_its_input() {
    let constant = pure(42);
    assert_eq!(constant.run(()), 42);
    assert_eq!(constant.run_error(()), Either::<(), _>::Right(42));
}

#[test]
fn lift_identity_never_fails() {
    let lifted = LiftIdentity(f(|x: i32| x + 1));
    assert_eq!(lifted.run_error(3), Either::<(), _>::Right(4));
}

#[test]
fn strip_errors_turns_outcomes_into_values() {
    let chain = e(|x: u32| {
        if x == 0 {
            Either::Left("zero")
        } else {
            Either::Right(100 / x)
        }
    });
    let stripped = chain.strip_errors();

    assert_eq!(stripped.run(4), Either::Right(25));
    assert_eq!(stripped.run(0), Either::Left("zero"));
}
