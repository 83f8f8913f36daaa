use lll_basis::schedule::{Schedule, Step};

#[test]
fn single_row_is_finished_at_once() {
    let s = Schedule::new(1);
    assert_eq!(s.next_step(), Step::Finished);
}

#[test]
fn passes_inspect_columns_downwards() {
    let mut s = Schedule::new(3);
    assert_eq!(s.next_step(), Step::SizeReduce { row: 1, col: 0 });
    s.size_step_done();
    assert_eq!(s.next_step(), Step::LovaszTest { row: 1 });
    assert_eq!(s.lovasz_done(true), None);
    assert_eq!(s.current_row(), 2);
    assert_eq!(s.next_step(), Step::SizeReduce { row: 2, col: 1 });
    s.size_step_done();
    assert_eq!(s.next_step(), Step::SizeReduce { row: 2, col: 0 });
    s.size_step_done();
    assert_eq!(s.next_step(), Step::LovaszTest { row: 2 });
    assert_eq!(s.lovasz_done(true), None);
    assert_eq!(s.next_step(), Step::Finished);
}

#[test]
fn failed_test_swaps_and_steps_back() {
    let mut s = Schedule::new(4);
    s.size_step_done();
    assert_eq!(s.lovasz_done(true), None);
    s.size_step_done();
    s.size_step_done();
    assert_eq!(s.next_step(), Step::LovaszTest { row: 2 });
    assert_eq!(s.lovasz_done(false), Some((2, 1)));
    assert_eq!(s.current_row(), 1);
    assert_eq!(s.next_step(), Step::SizeReduce { row: 1, col: 0 });
}

#[test]
fn failed_test_on_first_pair_stays_at_row_one() {
    let mut s = Schedule::new(2);
    s.size_step_done();
    assert_eq!(s.lovasz_done(false), Some((1, 0)));
    assert_eq!(s.current_row(), 1);
    assert_eq!(s.next_step(), Step::SizeReduce { row: 1, col: 0 });
}
