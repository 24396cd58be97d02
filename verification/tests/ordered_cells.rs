use std::cell::RefCell;
use std::rc::Rc;

use effect_cell::Effect;
use effect_cell::EffectOrder;
use effect_cell::OrderedEffectCell;
use effect_cell::Recorder;
use effect_cell::Tally;

/// An effect that appends a fixed tag to a shared log, so tests can observe
/// the order in which the two registries run.
struct TagLogger {
    tag: &'static str,
    log: Rc<RefCell<Vec<&'static str>>>,
}

impl Effect<u64> for TagLogger {
    fn history(&self) -> vstd::seq::Seq<u64> {
        panic!()
    }

    fn invoke(&mut self, _data: &u64) {
        self.log.borrow_mut().push(self.tag);
    }
}

#[test]
fn prior_sees_old_value_and_post_sees_new_value() {
    let mut cell: OrderedEffectCell<u64, Recorder<u64>> = OrderedEffectCell::new(0);
    cell.bind(EffectOrder::Prior, Recorder::new());
    cell.bind(EffectOrder::Post, Recorder::new());
    cell.update(2);
    let (value, priors, posts) = cell.into_parts();
    assert_eq!(value, 2);
    assert_eq!(priors[0].values().as_slice(), &[0]);
    assert_eq!(posts[0].values().as_slice(), &[2]);
}

#[test]
fn prior_and_post_distinguish_equal_but_distinct_writes() {
    let mut cell: OrderedEffectCell<u64, Recorder<u64>> = OrderedEffectCell::new(5);
    cell.bind(EffectOrder::Prior, Recorder::new());
    cell.bind(EffectOrder::Post, Recorder::new());
    cell.update(5);
    let (_, priors, posts) = cell.into_parts();
    assert_eq!(priors[0].values().as_slice(), &[5]);
    assert_eq!(posts[0].values().as_slice(), &[5]);
}

#[test]
fn update_lambda_prior_sees_old_and_post_sees_mutated() {
    let mut cell: OrderedEffectCell<u64, Recorder<u64>> = OrderedEffectCell::new(0);
    cell.bind(EffectOrder::Prior, Recorder::new());
    cell.bind(EffectOrder::Post, Recorder::new());
    cell.update_lambda(|v: &u64| *v + 1);
    let (value, priors, posts) = cell.into_parts();
    assert_eq!(value, 1);
    assert_eq!(priors[0].values().as_slice(), &[0]);
    assert_eq!(posts[0].values().as_slice(), &[1]);
}

#[test]
fn call_runs_only_the_named_registry() {
    let mut cell: OrderedEffectCell<u64, Tally<u64>> = OrderedEffectCell::new(0);
    cell.bind(EffectOrder::Prior, Tally::new());
    cell.bind(EffectOrder::Post, Tally::new());
    cell.call(EffectOrder::Prior);
    let (_, priors, posts) = cell.into_parts();
    assert_eq!(priors[0].count(), 1);
    assert_eq!(posts[0].count(), 0);
}

#[test]
fn registries_run_in_binding_order() {
    let log: Rc<RefCell<Vec<&'static str>>> = Rc::new(RefCell::new(Vec::new()));
    let mut cell: OrderedEffectCell<u64, TagLogger> = OrderedEffectCell::new(0);
    cell.bind(EffectOrder::Prior, TagLogger { tag: "p0", log: Rc::clone(&log) });
    cell.bind(EffectOrder::Prior, TagLogger { tag: "p1", log: Rc::clone(&log) });
    cell.bind(EffectOrder::Post, TagLogger { tag: "q0", log: Rc::clone(&log) });
    cell.bind(EffectOrder::Post, TagLogger { tag: "q1", log: Rc::clone(&log) });
    cell.update(1);
    assert_eq!(*log.borrow(), vec!["p0", "p1", "q0", "q1"]);
}

#[test]
fn ordered_silent_writes_never_invoke_effects() {
    let mut cell: OrderedEffectCell<u64, Tally<u64>> = OrderedEffectCell::new(0);
    cell.bind(EffectOrder::Prior, Tally::new());
    cell.bind(EffectOrder::Post, Tally::new());
    for i in 0..7 {
        cell.set(i);
        cell.set_lambda(|v: &u64| *v + 2);
    }
    let (_, priors, posts) = cell.into_parts();
    assert_eq!(priors[0].count(), 0);
    assert_eq!(posts[0].count(), 0);
}

#[test]
fn ordered_dropping_runs_no_effects() {
    let log: Rc<RefCell<Vec<&'static str>>> = Rc::new(RefCell::new(Vec::new()));
    {
        let mut cell: OrderedEffectCell<u64, TagLogger> = OrderedEffectCell::new(0);
        cell.bind(EffectOrder::Prior, TagLogger { tag: "p", log: Rc::clone(&log) });
        cell.bind(EffectOrder::Post, TagLogger { tag: "q", log: Rc::clone(&log) });
    }
    assert!(log.borrow().is_empty());
}

#[test]
fn ordered_consume_runs_prior_then_post_once_each() {
    let log: Rc<RefCell<Vec<&'static str>>> = Rc::new(RefCell::new(Vec::new()));
    let mut cell: OrderedEffectCell<u64, TagLogger> = OrderedEffectCell::new(0);
    cell.bind(EffectOrder::Prior, TagLogger { tag: "p", log: Rc::clone(&log) });
    cell.bind(EffectOrder::Post, TagLogger { tag: "q", log: Rc::clone(&log) });
    cell.consume();
    assert_eq!(*log.borrow(), vec!["p", "q"]);
}

#[test]
fn ordered_compound_operator_matches_update_lambda() {
    let mut by_op: OrderedEffectCell<u64, Recorder<u64>> = OrderedEffectCell::new(6);
    by_op.bind(EffectOrder::Prior, Recorder::new());
    by_op.bind(EffectOrder::Post, Recorder::new());
    by_op.mul_assign(7);

    let mut by_lambda: OrderedEffectCell<u64, Recorder<u64>> = OrderedEffectCell::new(6);
    by_lambda.bind(EffectOrder::Prior, Recorder::new());
    by_lambda.bind(EffectOrder::Post, Recorder::new());
    by_lambda.update_lambda(|v: &u64| *v * 7);

    let (value_a, priors_a, posts_a) = by_op.into_parts();
    let (value_b, priors_b, posts_b) = by_lambda.into_parts();
    assert_eq!(value_a, 42);
    assert_eq!(value_a, value_b);
    assert_eq!(priors_a[0].values(), priors_b[0].values());
    assert_eq!(posts_a[0].values(), posts_b[0].values());
}

#[test]
fn ordered_cells_compare_by_value_not_by_effects() {
    let plain: OrderedEffectCell<u64, Tally<u64>> = OrderedEffectCell::new(7);
    let mut busy: OrderedEffectCell<u64, Tally<u64>> = OrderedEffectCell::new(0);
    busy.bind(EffectOrder::Prior, Tally::new());
    busy.bind(EffectOrder::Post, Tally::new());
    busy.update(7);
    assert!(plain == busy);
    assert!(plain == 7);
    assert!(plain != 8);
    assert!(plain < 9);
    assert_eq!(plain.partial_cmp(&busy), Some(std::cmp::Ordering::Equal));
}

#[test]
fn ordered_into_inner_returns_the_data_silently() {
    let mut cell: OrderedEffectCell<u64, Tally<u64>> = OrderedEffectCell::new(9);
    cell.bind(EffectOrder::Prior, Tally::new());
    assert_eq!(cell.into_inner(), 9);
}

#[test]
fn effect_order_tags_compare() {
    assert_eq!(EffectOrder::Prior, EffectOrder::Prior);
    assert_ne!(EffectOrder::Prior, EffectOrder::Post);
    assert_eq!(EffectOrder::Post.clone(), EffectOrder::Post);
}
