//! The writer-over-error stack: logs accumulate across successful steps,
//! and the log written before a failure is retained beside the error.

use core::marker::PhantomData;
use actions::{Action, BuildError, BuildWriter, Run, Sequential, Stacked, pure, stacked};

#[test]
fn stack_accumulates_logs_across_successes() {
    let scaffold = BuildError(PhantomData::<&str>, BuildWriter(PhantomData::<String>, ()));

    let chain = stacked(Ok::<i32, &str>(1), String::from("A")).and_then(
        |x: i32| stacked(Ok::<i32, &str>(x + 1), String::from("B")),
    );

    assert_eq!(chain.run_qualified(&scaffold), (Ok(2), String::from("AB")));
}

#[test]
fn stack_keeps_the_log_written_before_a_failure() {
    let scaffold = BuildError(PhantomData::<&str>, BuildWriter(PhantomData::<String>, ()));

    let chain = stacked(Ok::<i32, &str>(1), String::from("A"))
        .and_then(|_x: i32| stacked(Err::<i32, &str>("bad"), String::from("B")))
        .and_then(|_y: i32| -> Stacked<i32, &str, String> { unreachable!() });

    assert_eq!(chain.run_qualified(&scaffold), (Err("bad"), String::from("AB")));
}

#[test]
fn stack_builds_a_success_with_an_empty_log() {
    let scaffold = BuildError(PhantomData::<&str>, BuildWriter(PhantomData::<String>, ()));

    assert_eq!(pure(5).run_qualified(&scaffold), (Ok(5), String::new()));
}

#[test]
fn stack_first_failure_keeps_its_own_log_only() {
    let scaffold = BuildError(PhantomData::<&str>, BuildWriter(PhantomData::<String>, ()));

    let pair = stacked(Err::<i32, &str>("stop"), String::from("A")).first(
        stacked(Ok::<i32, &str>(2), String::from("B")),
    );

    assert_eq!(pair.run_qualified(&scaffold), (Err("stop"), String::from("A")));
}

#[test]
fn stack_sequence_merges_results_and_logs() {
    let scaffold = BuildError(PhantomData::<&str>, BuildWriter(PhantomData::<String>, ()));

    let paired = stacked(Ok::<i32, &str>(1), String::from("A")).sequence(
        stacked(Ok::<i32, &str>(2), String::from("B")),
    );

    assert_eq!(paired.run_qualified(&scaffold), (Ok((1, 2)), String::from("AB")));
}
