use rust_heart::{second_order, triangle, Lobe};

fn ratio(l: Lobe) -> f64 {
    l.num as f64 / l.den as f64
}

#[test]
fn triangle_is_zero_outside_its_window() {
    for t in [0u64, 9, 22, 1000] {
        assert_eq!(triangle(t, 10, 11).num, 0);
    }
    assert_eq!(triangle(9, 10, 10).num, 0);
    assert_eq!(triangle(21, 10, 10).num, 0);
}

#[test]
fn parabola_is_zero_outside_its_window() {
    for t in [0u64, 9, 22, 1000] {
        assert_eq!(second_order(t, 10, 11).num, 0);
    }
    assert_eq!(second_order(9, 10, 10).num, 0);
    assert_eq!(second_order(21, 10, 10).num, 0);
}

#[test]
fn triangle_peaks_at_its_middle_tick() {
    let l = triangle(15, 10, 10);
    assert_eq!(l, Lobe { num: 5, den: 5 });
    assert_eq!(ratio(l), 1.0);
    let odd = triangle(15, 10, 11);
    assert_eq!(odd.num, odd.den as i128);
}

#[test]
fn triangle_is_a_linear_tent() {
    assert_eq!(triangle(10, 10, 10), Lobe { num: 0, den: 5 });
    assert_eq!(triangle(12, 10, 10), Lobe { num: 2, den: 5 });
    assert_eq!(triangle(18, 10, 10), Lobe { num: 2, den: 5 });
    assert_eq!(triangle(20, 10, 10), Lobe { num: 0, den: 5 });
    // an odd window ends one step below zero
    assert_eq!(triangle(21, 10, 11), Lobe { num: -1, den: 5 });
}

#[test]
fn parabola_peaks_at_its_centre_tick() {
    let l = second_order(15, 10, 10);
    assert_eq!(l, Lobe { num: 25, den: 25 });
    assert_eq!(ratio(l), 1.0);
    let odd = second_order(7, 2, 11);
    assert_eq!(odd.num, odd.den as i128);
}

#[test]
fn parabola_values() {
    assert_eq!(second_order(10, 10, 10), Lobe { num: 0, den: 25 });
    assert_eq!(second_order(13, 10, 10), Lobe { num: 21, den: 25 });
    assert_eq!(second_order(17, 10, 10), Lobe { num: 21, den: 25 });
    // duration 3: scale 9 / 4 = 2, centre at begin + 1
    assert_eq!(second_order(3, 0, 3), Lobe { num: -2, den: 2 });
}

#[test]
fn zero_length_segments_contribute_nothing() {
    for t in 0u64..5 {
        assert_eq!(triangle(t, 2, 0), Lobe { num: 0, den: 1 });
        assert_eq!(triangle(t, 2, 1), Lobe { num: 0, den: 1 });
        assert_eq!(second_order(t, 2, 0), Lobe { num: 0, den: 1 });
        assert_eq!(second_order(t, 2, 1), Lobe { num: 0, den: 1 });
    }
}

#[test]
fn segments_handle_the_largest_ticks() {
    let l = triangle(u64::MAX, u64::MAX as u128 - 10, 20);
    assert_eq!(l, Lobe { num: 10, den: 10 });
    let p = second_order(u64::MAX, 0, u64::MAX);
    assert!(p.den > 0);
    assert!(p.num < 0);
}
