use scribe::window::Window;

#[test]
fn whole_stream_is_a_window() {
    assert!(Window { start_from: 1, quantity: 10 }.check(10));
}

#[test]
fn window_may_end_at_the_last_record() {
    assert!(Window { start_from: 5, quantity: 6 }.check(10));
    assert!(Window { start_from: 10, quantity: 1 }.check(10));
    assert!(!Window { start_from: 5, quantity: 7 }.check(10));
    assert!(!Window { start_from: 11, quantity: 1 }.check(10));
}

#[test]
fn window_of_ten_from_five_does_not_fit_ten_records() {
    assert!(!Window { start_from: 5, quantity: 10 }.check(10));
    assert!(Window { start_from: 5, quantity: 10 }.check(14));
    assert!(!Window { start_from: 5, quantity: 10 }.check(13));
}

#[test]
fn empty_window_fits_no_stream() {
    for record_count in [0u32, 1, 10, 60_000, u32::MAX] {
        for start_from in [0u32, 1, 2, 10, u32::MAX] {
            assert!(!Window { start_from, quantity: 0 }.check(record_count));
        }
    }
}

#[test]
fn window_before_the_first_record_does_not_fit() {
    assert!(!Window { start_from: 0, quantity: 1 }.check(10));
    assert!(!Window { start_from: 0, quantity: 11 }.check(10));
}

#[test]
fn no_window_fits_an_empty_stream() {
    assert!(!Window { start_from: 1, quantity: 1 }.check(0));
}

#[test]
fn check_agrees_with_the_formula_on_a_grid() {
    for start_from in 0u32..14 {
        for quantity in 0u32..14 {
            for record_count in 0u32..14 {
                let expected = quantity >= 1
                    && start_from >= 1
                    && start_from as i64 + quantity as i64 - 1 <= record_count as i64;
                assert_eq!(
                    Window { start_from, quantity }.check(record_count),
                    expected,
                    "start_from {start_from}, quantity {quantity}, record_count {record_count}"
                );
            }
        }
    }
}

#[test]
fn sums_beyond_thirty_two_bits_do_not_wrap() {
    assert!(!Window { start_from: u32::MAX, quantity: u32::MAX }.check(u32::MAX));
    assert!(!Window { start_from: u32::MAX, quantity: 2 }.check(u32::MAX));
    assert!(!Window { start_from: 2, quantity: u32::MAX }.check(0));
    assert!(Window { start_from: u32::MAX, quantity: 1 }.check(u32::MAX));
    assert!(Window { start_from: 1, quantity: u32::MAX }.check(u32::MAX));
    assert!(!Window { start_from: 2, quantity: u32::MAX }.check(u32::MAX));
}
