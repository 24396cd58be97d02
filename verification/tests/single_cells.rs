use std::cell::RefCell;
use std::rc::Rc;

use effect_cell::Effect;
use effect_cell::Recorder;
use effect_cell::SingleEffectCell;
use effect_cell::Tally;

/// An effect that adds one to a shared counter on every invocation.
struct SharedCounter {
    count: Rc<RefCell<u64>>,
}

impl Effect<u64> for SharedCounter {
    fn history(&self) -> vstd::seq::Seq<u64> {
        panic!()
    }

    fn invoke(&mut self, _data: &u64) {
        *self.count.borrow_mut() += 1;
    }
}

#[test]
fn shl_assign_shows_the_effect_the_old_value() {
    let mut cell = SingleEffectCell::new(1u64, Recorder::new());
    cell.shl_assign(9);
    let (value, recorder) = cell.into_parts();
    assert_eq!(value, 9);
    assert_eq!(recorder.values().as_slice(), &[1]);
}

#[test]
fn update_is_an_alias_for_shl_assign() {
    let mut cell = SingleEffectCell::new(3u64, Recorder::new());
    cell.update(4);
    cell.update(5);
    let (value, recorder) = cell.into_parts();
    assert_eq!(value, 5);
    assert_eq!(recorder.values().as_slice(), &[3, 4]);
}

#[test]
fn repeated_binds_count_invocations() {
    let count: Rc<RefCell<u64>> = Rc::new(RefCell::new(0));
    let mut printer = SingleEffectCell::new(0u64, SharedCounter { count: Rc::clone(&count) });
    printer.shl_assign(2);
    printer.shl_assign(4);
    assert_eq!(*count.borrow(), 2);
}

#[test]
fn single_set_is_silent() {
    let mut cell = SingleEffectCell::new(3u64, Tally::new());
    cell.set(8);
    let (value, tally) = cell.into_parts();
    assert_eq!(value, 8);
    assert_eq!(tally.count(), 0);
}

#[test]
fn call_shows_the_effect_the_current_value() {
    let mut cell = SingleEffectCell::new(6u64, Recorder::new());
    cell.call();
    let (value, recorder) = cell.into_parts();
    assert_eq!(value, 6);
    assert_eq!(recorder.values().as_slice(), &[6]);
}

#[test]
fn get_reads_without_side_effects() {
    let cell = SingleEffectCell::new(5u64, Tally::new());
    assert_eq!(*cell.get(), 5);
    let (_, tally) = cell.into_parts();
    assert_eq!(tally.count(), 0);
}

#[test]
fn get_mut_fires_the_effect_before_yielding_access() {
    let mut cell = SingleEffectCell::new(5u64, Recorder::new());
    {
        let handle = cell.get_mut();
        *handle = 10;
    }
    let (value, recorder) = cell.into_parts();
    assert_eq!(value, 10);
    assert_eq!(recorder.values().as_slice(), &[5]);
}

#[test]
fn get_mut_fires_even_without_a_write() {
    let mut cell = SingleEffectCell::new(5u64, Recorder::new());
    {
        let _handle = cell.get_mut();
    }
    let (value, recorder) = cell.into_parts();
    assert_eq!(value, 5);
    assert_eq!(recorder.values().as_slice(), &[5]);
}

#[test]
fn single_consume_fires_exactly_once() {
    let count: Rc<RefCell<u64>> = Rc::new(RefCell::new(0));
    let cell = SingleEffectCell::new(0u64, SharedCounter { count: Rc::clone(&count) });
    cell.consume();
    assert_eq!(*count.borrow(), 1);
}

#[test]
fn single_dropping_runs_no_effect() {
    let count: Rc<RefCell<u64>> = Rc::new(RefCell::new(0));
    {
        let _cell = SingleEffectCell::new(0u64, SharedCounter { count: Rc::clone(&count) });
    }
    assert_eq!(*count.borrow(), 0);
}

#[test]
fn cloned_cells_evolve_independently() {
    let mut original = SingleEffectCell::new(1u64, Recorder::new());
    let mut copy = original.clone();
    original.update(2);
    copy.update(3);
    copy.update(4);
    let (value_a, recorder_a) = original.into_parts();
    let (value_b, recorder_b) = copy.into_parts();
    assert_eq!(value_a, 2);
    assert_eq!(recorder_a.values().as_slice(), &[1]);
    assert_eq!(value_b, 4);
    assert_eq!(recorder_b.values().as_slice(), &[1, 3]);
}
