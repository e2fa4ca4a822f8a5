use extend_grid::grid::cell_offset;
use extend_grid::grid::chebyshev_distance;
use extend_grid::grid::floor_divide;
use extend_grid::grid::is_creation_price;
use extend_grid::grid::unsigned_magnitude;
use extend_grid::grid::wrap_coordinate;
use extend_grid::grid::MAX_PRICED_DISTANCE;
use extend_grid::grid::get_neighborhood_creation_price;
use extend_grid::grid::get_neighborhood_xy;

#[test]
fn floor_divide_rounds_down() {
    assert_eq!(floor_divide(-1, 200), -1);
    assert_eq!(floor_divide(-200, 200), -1);
    assert_eq!(floor_divide(-201, 200), -2);
    assert_eq!(floor_divide(0, 200), 0);
    assert_eq!(floor_divide(199, 200), 0);
    assert_eq!(floor_divide(200, 200), 1);
    assert_eq!(floor_divide(399, 200), 1);
    assert_eq!(floor_divide(i64::MIN, 200), -46116860184273880);
}

#[test]
fn neighborhood_of_space() {
    assert_eq!(get_neighborhood_xy(250, -5), (1, -1));
}

#[test]
fn pricing_tiers() {
    assert_eq!(get_neighborhood_creation_price(2, 0), 400000);
    assert_eq!(get_neighborhood_creation_price(0, -2), 400000);
    assert_eq!(get_neighborhood_creation_price(5, 1), 1200000);
    assert_eq!(get_neighborhood_creation_price(-3, 5), 1200000);
}

#[test]
fn neighborhood_bands_around_the_origin() {
    for x in -200..=-1 {
        assert_eq!(floor_divide(x, 200), -1);
        assert_eq!(get_neighborhood_xy(x, x), (-1, -1));
    }
    for x in 0..=199 {
        assert_eq!(floor_divide(x, 200), 0);
    }
    for x in 200..=399 {
        assert_eq!(floor_divide(x, 200), 1);
    }
    assert_eq!(floor_divide(-201, 200), -2);
    assert_eq!(floor_divide(400, 200), 2);
}

#[test]
fn floor_divide_at_the_ends_of_the_range() {
    assert_eq!(floor_divide(i64::MAX, 200), 46116860184273879);
    assert_eq!(floor_divide(i64::MAX, 1), i64::MAX);
    assert_eq!(floor_divide(i64::MIN, 1), i64::MIN);
    assert_eq!(floor_divide(-7, 2), -4);
    assert_eq!(floor_divide(7, 2), 3);
    assert_eq!(floor_divide(-8, 2), -4);
}

#[test]
fn frame_wraparound() {
    assert_eq!(wrap_coordinate(250), 50);
    assert_eq!(wrap_coordinate(-5), 195);
    assert_eq!(cell_offset(250, -5), 3 * 200 * 50 + 3 * 195);
    assert_eq!(cell_offset(250, -5), 30585);
}

#[test]
fn cell_offsets_stay_inside_the_cells() {
    assert_eq!(cell_offset(0, 0), 0);
    assert_eq!(cell_offset(199, 199), 119997);
    assert_eq!(cell_offset(-1, -1), 119997);
    assert_eq!(cell_offset(-200, -200), 0);
    assert_eq!(cell_offset(200, 0), 0);
    assert_eq!(cell_offset(0, 1), 3);
    assert_eq!(cell_offset(1, 0), 600);
    assert_eq!(cell_offset(i64::MIN, i64::MAX), 3 * 200 * 192 + 3 * 7);
    for x in [-401i64, -200, -1, 0, 1, 199, 200, 399, i64::MAX, i64::MIN] {
        for y in [-401i64, -200, -1, 0, 1, 199, 200, 399, i64::MAX, i64::MIN] {
            assert!(cell_offset(x, y) + 3 <= 120000);
            assert_eq!(cell_offset(x, y) % 3, 0);
        }
    }
}

#[test]
fn wrap_coordinate_is_the_remainder() {
    assert_eq!(wrap_coordinate(0), 0);
    assert_eq!(wrap_coordinate(199), 199);
    assert_eq!(wrap_coordinate(200), 0);
    assert_eq!(wrap_coordinate(-1), 199);
    assert_eq!(wrap_coordinate(-200), 0);
    assert_eq!(wrap_coordinate(-201), 199);
    assert_eq!(wrap_coordinate(i64::MIN), 192);
    assert_eq!(wrap_coordinate(i64::MAX), 7);
}

#[test]
fn distances() {
    assert_eq!(unsigned_magnitude(0), 0);
    assert_eq!(unsigned_magnitude(-3), 3);
    assert_eq!(unsigned_magnitude(i64::MIN), 9223372036854775808);
    assert_eq!(unsigned_magnitude(i64::MAX), 9223372036854775807);
    assert_eq!(chebyshev_distance(3, -4), 4);
    assert_eq!(chebyshev_distance(-6, 2), 6);
    assert_eq!(chebyshev_distance(0, 0), 0);
}

#[test]
fn pricing_is_flat_to_distance_three_then_linear() {
    assert_eq!(get_neighborhood_creation_price(0, 0), 400000);
    assert_eq!(get_neighborhood_creation_price(3, -3), 400000);
    assert_eq!(get_neighborhood_creation_price(4, 0), 800000);
    assert_eq!(get_neighborhood_creation_price(0, -4), 800000);
    assert_eq!(get_neighborhood_creation_price(-100, 7), 400000 * 98);
    assert_eq!(
        get_neighborhood_creation_price(MAX_PRICED_DISTANCE as i64, 0),
        18446744073709200000
    );
}

#[test]
fn declared_prices() {
    assert!(is_creation_price(2, 0, 400000));
    assert!(is_creation_price(5, -1, 1200000));
    assert!(!is_creation_price(5, -1, 1200001));
    assert!(!is_creation_price(2, 0, 0));
    assert!(!is_creation_price(i64::MIN, 0, u64::MAX));
    assert!(!is_creation_price(MAX_PRICED_DISTANCE as i64 + 1, 0, u64::MAX));
    assert!(is_creation_price(MAX_PRICED_DISTANCE as i64, 0, 18446744073709200000));
}
