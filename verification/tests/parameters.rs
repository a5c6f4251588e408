use lazy_eval::param::Parameter;
use lazy_eval::slots::Slots;
use lazy_eval::Expression;

#[test]
fn correct_usage_empty() {
    let mut slots = Slots::new();
    let (param, mut setter) = Parameter::<u32>::empty(&mut slots);
    let expr = param.map(|n| n.pow(3));
    setter.set(&mut slots, 10u32);
    assert_eq!(expr.evaluate(&mut slots), 1000);
}

#[test]
fn correct_usage_prefilled() {
    let mut slots = Slots::new();
    let (param, _) = Parameter::new(&mut slots, 10u32);
    let expr = param.map(|n| n.pow(3));
    assert_eq!(expr.evaluate(&mut slots), 1000);
}

#[test]
fn correct_usage_override() {
    let mut slots = Slots::new();
    let (param, mut setter) = Parameter::new(&mut slots, 10u32);
    let expr = param.map(|n| n.pow(3));
    setter.set(&mut slots, 2u32);
    assert_eq!(expr.evaluate(&mut slots), 8);
}

#[test]
#[should_panic]
fn incorrect_usage() {
    let mut slots = Slots::new();
    let (param, _) = Parameter::<u32>::empty(&mut slots);
    let expr = param.map(|n| n.pow(3));
    expr.evaluate(&mut slots);
}

#[test]
fn set_then_evaluate_returns_the_value_set() {
    let mut slots = Slots::new();
    let (param, mut setter) = Parameter::<String>::empty(&mut slots);
    setter.set(&mut slots, String::from("bound"));
    assert_eq!(param.evaluate(&mut slots), "bound");
}

#[test]
fn last_write_wins() {
    let mut slots = Slots::new();
    let (param, mut setter) = Parameter::new(&mut slots, 1i64);
    let mut second = setter.clone();
    setter.set(&mut slots, 2);
    second.set(&mut slots, 3);
    setter.set(&mut slots, 4);
    assert_eq!(param.evaluate(&mut slots), 4);
}

#[test]
fn evaluation_empties_the_slot() {
    let mut slots = Slots::new();
    let (param, _) = Parameter::new(&mut slots, 5u8);
    assert_eq!(slots.len(), 1);
    assert_eq!(param.evaluate(&mut slots), 5);
    assert_eq!(slots.len(), 1);
    assert_eq!(slots.replace(0, None), None);
}

#[test]
fn set_after_evaluation_changes_no_result() {
    let mut slots = Slots::new();
    let (param, mut setter) = Parameter::new(&mut slots, 5u8);
    let value = param.evaluate(&mut slots);
    setter.set(&mut slots, 9);
    assert_eq!(value, 5);
}

#[test]
fn parameters_have_slots_of_their_own() {
    let mut slots = Slots::new();
    let (a, mut set_a) = Parameter::<u16>::empty(&mut slots);
    let (b, mut set_b) = Parameter::new(&mut slots, 20u16);
    let (c, _) = Parameter::new(&mut slots, 30u16);
    set_a.set(&mut slots, 10);
    set_b.set(&mut slots, 21);
    assert_eq!(slots.len(), 3);
    assert_eq!(c.evaluate(&mut slots), 30);
    assert_eq!(a.evaluate(&mut slots), 10);
    assert_eq!(b.evaluate(&mut slots), 21);
}

#[test]
fn a_cloned_parameter_reads_the_slot_again_after_a_new_write() {
    let mut slots = Slots::new();
    let (param, mut setter) = Parameter::<u32>::empty(&mut slots);
    let again = param.clone();
    setter.set(&mut slots, 1);
    assert_eq!(param.evaluate(&mut slots), 1);
    setter.set(&mut slots, 2);
    assert_eq!(again.evaluate(&mut slots), 2);
}

#[test]
fn store_open_and_replace() {
    let mut slots: Slots<char> = Slots::new();
    assert_eq!(slots.len(), 0);
    assert_eq!(slots.open(None), 0);
    assert_eq!(slots.open(Some('b')), 1);
    assert_eq!(slots.len(), 2);
    assert_eq!(slots.replace(0, Some('a')), None);
    assert_eq!(slots.replace(1, Some('c')), Some('b'));
    assert_eq!(slots.replace(0, None), Some('a'));
    assert_eq!(slots.replace(1, None), Some('c'));
    assert_eq!(slots.len(), 2);
}
