use std::cell::Cell;

use lazy_eval::slots::Slots;
use lazy_eval::{lazy, lazyf, Expression, Lazy, Value};

#[test]
fn literal() {
    let mut slots: Slots<i32> = Slots::new();
    let a = lazy(1);
    assert_eq!(a.evaluate(&mut slots), 1);
}

#[test]
fn function() {
    let mut slots: Slots<String> = Slots::new();
    let a = lazyf(|| "potatoland".to_string());
    assert_eq!(a.evaluate(&mut slots), "potatoland");
}

#[test]
fn map() {
    let mut slots: Slots<i32> = Slots::new();
    let a = lazy(2i32).map(|n| n.pow(3));
    assert_eq!(a.evaluate(&mut slots), 8);
}

#[test]
fn value_of_any_owned_type_comes_back() {
    let mut slots: Slots<u8> = Slots::new();
    assert_eq!(lazy(vec![1u8, 2, 3]).evaluate(&mut slots), vec![1u8, 2, 3]);
    assert_eq!(lazy(String::from("kept")).evaluate(&mut slots), "kept");
    assert_eq!(lazy(()).evaluate(&mut slots), ());
    assert_eq!(slots.len(), 0);
}

#[test]
fn thunk_runs_once_and_only_on_evaluate() {
    let mut slots: Slots<u32> = Slots::new();
    let calls = Cell::new(0u32);
    let expr = lazyf(|| {
        calls.set(calls.get() + 1);
        41u32 + 1
    });
    assert_eq!(calls.get(), 0);
    assert_eq!(expr.evaluate(&mut slots), 42);
    assert_eq!(calls.get(), 1);
}

#[test]
fn map_is_deferred_and_applies_after_the_inner_value() {
    let mut slots: Slots<u32> = Slots::new();
    let order = Cell::new(0u32);
    let inner = lazyf(|| {
        assert_eq!(order.get(), 0);
        order.set(1);
        7u32
    });
    let mapped = inner.map(|n| {
        assert_eq!(order.get(), 1);
        order.set(2);
        n.to_string()
    });
    assert_eq!(order.get(), 0);
    assert_eq!(mapped.evaluate(&mut slots), "7");
    assert_eq!(order.get(), 2);
}

#[test]
fn map_chains_change_the_type() {
    let mut slots: Slots<u8> = Slots::new();
    let expr = lazy(3u64).map(|n| n * 2).map(|n| format!("<{}>", n)).map(|s| s.len());
    assert_eq!(expr.evaluate(&mut slots), 3);
}

#[test]
fn wrapper_forwards_to_its_node() {
    let mut slots: Slots<u8> = Slots::new();
    let node: Value<i64, u8> = Value(-9, std::marker::PhantomData);
    let wrapped = Lazy::new(node);
    assert_eq!(wrapped.evaluate(&mut slots), -9);
    let bare: Value<i64, u8> = Value(-9, std::marker::PhantomData);
    assert_eq!(bare.map(|n| n + 1).evaluate(&mut slots), -8);
}

#[test]
fn clone_of_a_graph_evaluates_like_the_graph() {
    let mut slots: Slots<u8> = Slots::new();
    let expr = lazy(10u32).map(|n| n + 5);
    let copy = expr.clone();
    assert_eq!(expr.evaluate(&mut slots), 15);
    assert_eq!(copy.evaluate(&mut slots), 15);
}
