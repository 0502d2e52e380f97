//! Building values through scaffolds: the same scaffold completes the
//! type for different value types, and nesting scaffolds nests carriers.

use core::marker::PhantomData;
use actions::typebuilder;
use actions::{Ap, BuildError, BuildId, BuildWriter, Id, TypeBuilder};

fn build_two<A, B, S: Ap<A> + Ap<B>>(
    _scaffold: S,
    value_a: A,
    value_b: B,
) -> (<S as Ap<A>>::R, <S as Ap<B>>::R) {
    (<S as Ap<A>>::build(value_a), <S as Ap<B>>::build(value_b))
}

#[test]
fn action4_same_struct_different_value() {
    let err_type: PhantomData<()> = PhantomData;
    let writer_type: PhantomData<()> = PhantomData;
    let scaffold = BuildWriter(writer_type, BuildError(err_type, BuildId(())));

    let (result_a, result_b) = build_two(scaffold, 32, "Hello");

    assert_eq!(result_a, Id(Ok((32, ()))));
    assert_eq!(result_b, Id(Ok(("Hello", ()))));
}

#[test]
fn action4_same_struct_different_value_2() {
    let err_type: PhantomData<()> = PhantomData;
    let writer_type: PhantomData<()> = PhantomData;
    let scaffold = BuildId(BuildError(err_type, BuildWriter(writer_type, ())));

    let (result_a, result_b) = build_two(scaffold, 32, "Hello");

    assert_eq!(result_a, (Ok(Id(32)), ()));
    assert_eq!(result_b, (Ok(Id("Hello")), ()));
}

#[test]
fn action5_same_struct_different_value() {
    let err_type: PhantomData<()> = PhantomData;
    let writer_type: PhantomData<()> = PhantomData;
    let scaffold = BuildWriter(writer_type, BuildError(err_type, BuildId(())));

    let (result_a, result_b) = build_two(scaffold, 32, "Hello");

    assert_eq!(result_a, Id(Ok((32, ()))));
    assert_eq!(result_b, Id(Ok(("Hello", ()))));
}

#[test]
fn action5_same_struct_different_value_2() {
    let err_type: PhantomData<()> = PhantomData;
    let writer_type: PhantomData<()> = PhantomData;
    let scaffold = BuildId(BuildError(err_type, BuildWriter(writer_type, ())));

    let (result_a, result_b) = build_two(scaffold, 32, "Hello");

    assert_eq!(result_a, (Ok(Id(32)), ()));
    assert_eq!(result_b, (Ok(Id("Hello")), ()));
}

#[test]
fn action6_same_struct_different_value() {
    let writer_type: PhantomData<()> = PhantomData;
    let scaffold = BuildWriter(writer_type, ());

    let (result_a, result_b) = build_two(scaffold, 32, "Hello");

    assert_eq!(result_a, (32, ()));
    assert_eq!(result_b, ("Hello", ()));
}

#[test]
fn action6_same_struct_different_value_2() {
    let err_type: PhantomData<()> = PhantomData;
    let scaffold = BuildError(err_type, ());

    let (result_a, result_b) = build_two(scaffold, 32, "Hello");

    assert_eq!(result_a, Ok(32));
    assert_eq!(result_b, Ok("Hello"));
}

#[test]
fn deep_stack_builds_every_layer() {
    let err_type: PhantomData<&'static str> = PhantomData;
    let writer_type: PhantomData<u32> = PhantomData;
    let scaffold = BuildError(err_type, BuildWriter(writer_type, BuildId(())));

    let built = <BuildError<BuildWriter<BuildId<()>, u32>, &str> as Ap<bool>>::build(true);
    let _ = scaffold;

    assert_eq!(built, Id((Ok(true), 0)));
}

fn build_two_outward<A, B, S: TypeBuilder<A> + TypeBuilder<B>>(
    _scaffold: S,
    value_a: A,
    value_b: B,
) -> (<S as TypeBuilder<A>>::Output, <S as TypeBuilder<B>>::Output) {
    (<S as TypeBuilder<A>>::build(value_a), <S as TypeBuilder<B>>::build(value_b))
}

#[test]
fn action_3_same_struct_different_value() {
    let err_type: PhantomData<()> = PhantomData;
    let writer_type: PhantomData<()> = PhantomData;
    let scaffold = typebuilder::BuildWriter(
        writer_type,
        typebuilder::BuildError(err_type, typebuilder::BuildId(())),
    );

    let (result_a, result_b) = build_two_outward(scaffold, 32, "Hello");

    assert_eq!(result_a, (Ok(Id(32)), ()));
    assert_eq!(result_b, (Ok(Id("Hello")), ()));
}

#[test]
fn action_3_same_struct_different_value_2() {
    let err_type: PhantomData<()> = PhantomData;
    let writer_type: PhantomData<()> = PhantomData;
    let scaffold = typebuilder::BuildError(
        err_type,
        typebuilder::BuildWriter(writer_type, typebuilder::BuildId(())),
    );

    let (result_a, result_b) = build_two_outward(scaffold, 32, "Hello");

    assert_eq!(result_a, Ok((Id(32), ())));
    assert_eq!(result_b, Ok((Id("Hello"), ())));
}
