//! Running action trees under different scaffolds: the same chain of
//! `pure` and `and_then` evaluates under the plain carrier and under a
//! writer, and `writer` steps accumulate their logs in order.

use core::marker::PhantomData;
use actions::{Action, BuildId, BuildWriter, Id, Run, pure, writer};

#[test]
fn run_and_then_identity() {
    let action = pure(3).and_then(|x| pure(x + 2)).and_then(|y| pure(y + 3));
    let action2 = pure(5).and_then(|x| pure(x + 7)).and_then(|y| pure(y + 9));

    assert_eq!(action.clone().run_qualified(&()), 8);
    assert_eq!(action2.clone().run_qualified(&()), 21);

    let action3 = action.and_then(|_| action2.clone());

    assert_eq!(action3.run_qualified(&()), 21);
}

#[test]
fn action5_run_and_then_identity() {
    let action = pure(3).and_then(|x| pure(x + 2)).and_then(|y| pure(y + 3));
    let action2 = pure(5).and_then(|x| pure(x + 7)).and_then(|y| pure(y + 9));

    assert_eq!(action.clone().run_qualified(&()), 8);
    assert_eq!(action2.clone().run_qualified(&()), 21);

    let action3 = action.and_then(|_| action2.clone());

    assert_eq!(action3.run_qualified(&()), 21);
}

#[test]
fn pure_is_polymorphic() {
    let writer_type: PhantomData<()> = PhantomData;
    let scaffold = BuildWriter(writer_type, ());

    assert_eq!(pure(5).run_qualified(&scaffold), (5, ()));
    assert_eq!(pure(5).run_qualified(&()), 5);
}

#[test]
fn action5_pure_is_polymorphic() {
    let writer_type: PhantomData<u32> = PhantomData;
    let writer_scaffold = BuildWriter(writer_type, ());

    assert_eq!(pure(5).run_qualified(&writer_scaffold), (5, 0));
    assert_eq!(pure(5).run_qualified(&()), 5);
}

#[test]
fn and_then_is_polymorphic() {
    let writer_type: PhantomData<u32> = PhantomData;
    let scaffold = BuildWriter(writer_type, ());

    let action = pure(3).and_then(|x| pure(x + 2));

    assert_eq!(action.clone().run_qualified(&()), 5);
    assert_eq!(action.run_qualified(&scaffold), (5, 0));
}

#[test]
fn run_and_then_writer() {
    let writer_type: PhantomData<u32> = PhantomData;
    let scaffold = BuildWriter(writer_type, ());

    let action = pure(3).and_then(|x| pure(x + 2)).and_then(|y| pure(y + 3));
    let action2 = pure(5).and_then(|x| pure(x + 7)).and_then(|y| pure(y + 9));

    assert_eq!(action.clone().run_qualified(&scaffold), (8, 0));
    assert_eq!(action2.clone().run_qualified(&scaffold), (21, 0));

    let action3 = action.and_then(|_| action2.clone());

    assert_eq!(action3.run_qualified(&scaffold), (21, 0));
}

#[test]
fn action5_run_and_then_writer() {
    let writer_type: PhantomData<u32> = PhantomData;
    let writer_scaffold = BuildWriter(writer_type, ());

    let action = pure(3).and_then(|x| pure(x + 2)).and_then(|y| pure(y + 3));
    let action2 = pure(5).and_then(|x| pure(x + 7)).and_then(|y| pure(y + 9));

    assert_eq!(action.clone().run_qualified(&writer_scaffold), (8, 0));
    assert_eq!(action2.clone().run_qualified(&writer_scaffold), (21, 0));

    let action3 = action.and_then(|_| action2.clone());

    assert_eq!(action3.run_qualified(&writer_scaffold), (21, 0));
}

#[test]
fn basic_writer() {
    let writer_type: PhantomData<u32> = PhantomData;
    let scaffold = BuildWriter(writer_type, ());

    let action = pure(true).and_then(|x: bool| writer(!x, 3)).and_then(|y: bool| writer(!y, 3));

    let action2 = writer(true, 10).and_then(|x: bool| writer(!x, 10)).and_then(
        |y: bool| writer(!y, 10),
    );

    assert_eq!(action.clone().run_qualified(&scaffold), (true, 6));
    assert_eq!(action2.clone().run_qualified(&scaffold), (true, 30));

    let action3 = action.and_then(|_| action2.clone());

    assert_eq!(action3.run_qualified(&scaffold), (true, 36));
}

#[test]
fn and_then_ctx_matches_and_then() {
    let base = pure(3).and_then_ctx((), |_ctx: (), x: i32| pure(x + 2));
    assert_eq!(base.run_qualified(&()), 5);

    let writer_type: PhantomData<u32> = PhantomData;
    let scaffold = BuildWriter(writer_type, ());
    let logged = writer(4, 2).and_then_ctx(5u32, |ctx: u32, x: u32| writer(x + ctx, 3));
    assert_eq!(logged.run_qualified(&scaffold), (9, 5));
}

#[test]
fn run_under_identity_carrier() {
    let scaffold = BuildId(());
    let action = pure(3).and_then(|x| pure(x + 2));
    assert_eq!(action.run_qualified(&scaffold), Id(5));
}
