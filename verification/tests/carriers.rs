//! The carrier-specific operations: writer utilities, literals, and the
//! sequential combinators under the writer and error carriers.

use core::marker::PhantomData;
use actions::{
    Action, BuildError, BuildWriter, Literal, Mappable, Monoid, Run, Sequential, listen, literal,
    pass, pure, tell, throw_error, writer,
};

#[test]
fn monoid_operations() {
    assert_eq!(<u32 as Monoid>::empty(), 0);
    assert_eq!(3u32.op(&4), 7);
    assert_eq!(u32::MAX.op(&1), 0);
    assert_eq!(7u32.duplicate(), 7);

    assert_eq!(<String as Monoid>::empty(), String::new());
    assert_eq!(String::from("ab").op(&String::from("cd")), String::from("abcd"));
    assert_eq!(String::from("ab").duplicate(), String::from("ab"));
}

#[test]
fn writer_unwraps_to_value_and_log() {
    let w = writer(5, String::from("log"));
    assert_eq!(w.unwrap_writer(), (5, String::from("log")));
}

#[test]
fn tell_writes_only_a_log() {
    let scaffold = BuildWriter(PhantomData::<String>, ());
    let noted = tell(String::from("note"));
    assert_eq!(noted.run_qualified(&scaffold), ((), String::from("note")));
}

#[test]
fn listen_exposes_the_log_so_far() {
    let heard = listen(writer(5, String::from("so far")));
    assert_eq!(heard.value, (5, String::from("so far")));
    assert_eq!(heard.log, String::from("so far"));
}

#[test]
fn pass_rewrites_the_log() {
    let rewritten = pass(writer((5, |log: u32| log + 100), 7u32));
    assert_eq!(rewritten.value, 5);
    assert_eq!(rewritten.log, 107);
}

#[test]
fn literal_carries_a_built_value() {
    let scaffold = BuildWriter(PhantomData::<u32>, ());
    let lit: Literal<BuildWriter<(), u32>, i32> = literal((4, 9));
    assert_eq!(lit.run_qualified(&scaffold), (4, 9));

    let lit2: Literal<BuildWriter<(), u32>, i32> = literal((4, 9));
    assert_eq!(lit2.value(), (4, 9));

    let lit3: Literal<BuildWriter<(), u32>, i32> = literal((4, 9));
    let inner = lit3.unwrap();
    assert_eq!(inner.value, (4, 9));
    let outer = inner.wrap();
    assert_eq!(outer.value, (4, 9));
}

#[test]
fn sequential_combinators_under_writer() {
    let scaffold = BuildWriter(PhantomData::<u32>, ());

    let seq = writer(1, 10u32).sequence(writer(2, 20u32));
    assert_eq!(seq.run_qualified(&scaffold), ((1, 2), 30));

    let second = writer(1, 10u32).second(writer(2, 20u32));
    assert_eq!(second.run_qualified(&scaffold), (2, 30));

    let combined = writer(3, 10u32).combine(writer(4, 20u32), |a: i32, b: i32| a * b);
    assert_eq!(combined.run_qualified(&scaffold), (12, 30));

    let mapped = writer(3, 10u32).map(|x: i32| x + 1);
    assert_eq!(mapped.run_qualified(&scaffold), (4, 10));
}

#[test]
fn sequential_combinators_under_plain() {
    let seq = pure(1).sequence(pure(2));
    assert_eq!(seq.run_qualified(&()), (1, 2));

    let kept = pure(1).first(pure(2));
    assert_eq!(kept.run_qualified(&()), 1);

    let second = pure(1).second(pure(2));
    assert_eq!(second.run_qualified(&()), 2);

    let combined = pure(3).combine(pure(4), |a: i32, b: i32| a + b);
    assert_eq!(combined.run_qualified(&()), 7);
}

#[test]
fn failures_propagate_through_every_combinator() {
    let scaffold = BuildError(PhantomData::<&str>, ());

    let mapped = Mappable::map(throw_error::<i32, &str>("bad"), |x: i32| x + 1);
    assert_eq!(mapped.run_qualified(&scaffold), Err("bad"));

    let seq = Sequential::sequence(Ok::<i32, &str>(1), throw_error::<i32, &str>("bad"));
    assert_eq!(seq.run_qualified(&scaffold), Err("bad"));

    let kept = Sequential::first(throw_error::<i32, &str>("bad"), Ok::<i32, &str>(2));
    assert_eq!(kept.run_qualified(&scaffold), Err("bad"));

    let second = Sequential::second(Ok::<i32, &str>(1), throw_error::<i32, &str>("bad"));
    assert_eq!(second.run_qualified(&scaffold), Err("bad"));

    let combined = Sequential::combine(
        Ok::<i32, &str>(1),
        throw_error::<i32, &str>("bad"),
        |a: i32, b: i32| a + b,
    );
    assert_eq!(combined.run_qualified(&scaffold), Err("bad"));
}

#[test]
fn successes_flow_through_every_combinator() {
    let scaffold = BuildError(PhantomData::<&str>, ());

    let mapped = Mappable::map(Ok::<i32, &str>(4), |x: i32| x + 1);
    assert_eq!(mapped.run_qualified(&scaffold), Ok(5));

    let seq = Sequential::sequence(Ok::<i32, &str>(1), Ok::<i32, &str>(2));
    assert_eq!(seq.run_qualified(&scaffold), Ok((1, 2)));

    let kept = Sequential::first(Ok::<i32, &str>(1), Ok::<i32, &str>(2));
    assert_eq!(kept.run_qualified(&scaffold), Ok(1));

    let combined = Sequential::combine(Ok::<i32, &str>(3), Ok::<i32, &str>(4), |a: i32, b: i32|
        a * b);
    assert_eq!(combined.run_qualified(&scaffold), Ok(12));

    let chained = Action::and_then(Ok::<i32, &str>(3), |x: i32| Ok::<i32, &str>(x + 2));
    assert_eq!(chained.run_qualified(&scaffold), Ok(5));
}

#[test]
fn first_failure_wins_left_to_right() {
    let scaffold = BuildError(PhantomData::<&str>, ());

    let both_bad = Sequential::sequence(
        throw_error::<i32, &str>("left"),
        throw_error::<i32, &str>("right"),
    );
    assert_eq!(both_bad.run_qualified(&scaffold), Err("left"));

    let right_bad = Sequential::first(Ok::<i32, &str>(1), throw_error::<i32, &str>("right"));
    assert_eq!(right_bad.run_qualified(&scaffold), Err("right"));
}
