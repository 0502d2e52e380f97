//! Scenario checks of the algebraic laws on concrete values: mapping
//! identity, fused composition, bind identities, writer log order,
//! short-circuiting, and scaffold polymorphism.

use core::marker::PhantomData;
use actions::{
    Action, BuildError, BuildId, BuildWriter, Id, Mappable, Run, Sequential, catch_error, pure,
    throw_error, writer,
};

#[test]
fn map_identity_under_every_carrier() {
    assert_eq!(pure(7).map(|x: i32| x).run_qualified(&()), 7);
    assert_eq!(pure(7).map(|x: i32| x).run_qualified(&BuildId(())), Id(7));
    assert_eq!(
        pure(7).map(|x: i32| x).run_qualified(&BuildWriter(PhantomData::<u32>, ())),
        (7, 0)
    );
    assert_eq!(
        pure(7).map(|x: i32| x).run_qualified(&BuildError(PhantomData::<()>, ())),
        Ok(7)
    );
}

#[test]
fn map_composition_two_ways() {
    let stepwise = pure(3).map(|x: i32| x + 2).map(|y: i32| y * 10);
    let fused = pure(3).map(|x: i32| (x + 2) * 10);

    assert_eq!(stepwise.clone().run_qualified(&()), 50);
    assert_eq!(fused.clone().run_qualified(&()), 50);

    let scaffold = BuildWriter(PhantomData::<u32>, ());
    assert_eq!(stepwise.run_qualified(&scaffold), (50, 0));
    assert_eq!(fused.run_qualified(&scaffold), (50, 0));
}

#[test]
fn bind_left_identity_scenario() {
    let step = |x: i32| pure(x * 2);
    let chained = pure(4).and_then(step);
    let direct = step(4);

    assert_eq!(chained.run_qualified(&()), direct.run_qualified(&()));
}

#[test]
fn bind_right_identity_scenario() {
    let scaffold = BuildWriter(PhantomData::<u32>, ());
    let action = writer(7, 5);
    let rewrapped = action.clone().and_then(|x: i32| pure(x));

    assert_eq!(rewrapped.run_qualified(&scaffold), action.run_qualified(&scaffold));
}

#[test]
fn writer_log_concatenation_order() {
    let scaffold = BuildWriter(PhantomData::<String>, ());
    let chain = writer(1, String::from("A")).and_then(|_x: i32| writer(2, String::from("B")));

    assert_eq!(chain.run_qualified(&scaffold), (2, String::from("AB")));
}

#[test]
fn short_circuit_never_invokes_the_continuation() {
    let scaffold = BuildError(PhantomData::<&str>, ());
    let chain = Action::and_then(throw_error::<i32, &str>("boom"), |_x: i32| -> Result<
        i32,
        &str,
    > { unreachable!() });

    assert_eq!(chain.run_qualified(&scaffold), Err("boom"));
}

#[test]
fn catch_error_recovers() {
    let recovered = catch_error(throw_error::<i32, &str>("boom"), |_e| Ok(11));
    assert_eq!(recovered, Ok(11));

    let untouched = catch_error(Ok::<i32, &str>(4), |_e| -> Result<i32, &str> { unreachable!() });
    assert_eq!(untouched, Ok(4));
}

#[test]
fn first_evaluates_both_sides_for_effect() {
    let scaffold = BuildWriter(PhantomData::<String>, ());
    let pair = writer(1, String::from("A")).first(writer(2, String::from("B")));

    assert_eq!(pair.run_qualified(&scaffold), (1, String::from("AB")));
}

#[test]
fn scaffold_polymorphism_for_pure() {
    assert_eq!(pure(9).run_qualified(&()), 9);
    assert_eq!(pure(9).run_qualified(&BuildId(())), Id(9));
    assert_eq!(pure(9).run_qualified(&BuildWriter(PhantomData::<u32>, ())), (9, 0));
    assert_eq!(pure(9).run_qualified(&BuildError(PhantomData::<&str>, ())), Ok(9));
}

#[test]
fn end_to_end_chains() {
    let plain = pure(3).and_then(|x| pure(x + 2)).and_then(|y| pure(y + 3));
    assert_eq!(plain.clone().run_qualified(&()), 8);

    let scaffold = BuildWriter(PhantomData::<u32>, ());
    assert_eq!(plain.run_qualified(&scaffold), (8, 0));

    let logged = pure(true).and_then(|x: bool| writer(!x, 3)).and_then(|y: bool| writer(!y, 3));
    assert_eq!(logged.run_qualified(&scaffold), (true, 6));
}
