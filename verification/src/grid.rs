//! Coordinate arithmetic: neighborhoods, cell offsets and creation prices.

use vstd::prelude::*;

verus! {

/// Side length of a neighborhood, in spaces.
pub const NEIGHBORHOOD_SIZE: usize = 200;

/// Price of a neighborhood within three steps of the origin, and the
/// increment per step beyond.
pub const BASE_NEIGHBORHOOD_PRICE: u64 = 400000;

/// `x / y` rounded towards negative infinity.
pub open spec fn floor_div(x: int, y: int) -> int
    recommends
        y > 0,
{
    x / y
}

/// The coordinate of the neighborhood that holds space coordinate `x`.
pub open spec fn neighborhood_of(x: int) -> int {
    floor_div(x, NEIGHBORHOOD_SIZE as int)
}

/// `x` divided by `y`, rounded towards negative infinity.
pub fn floor_divide(x: i64, y: usize) -> (q: i64)
    requires
        0 < y <= i64::MAX,
    ensures
        q == floor_div(x as int, y as int),
{
    let d: i64 = y as i64;
    if x >= 0 {
        x / d
    } else {
        // For negative x the quotient is taken on the non-negative mirror
        // image -(x + 1), so that no machine division sees a negative operand.
        let m: i64 = -(x + 1);
        let k: i64 = m / d;
        let q: i64 = -k - 1;
        proof {
            let r: int = d - (m % d) as int - 1;
            vstd::arithmetic::div_mod::lemma_fundamental_div_mod(m as int, d as int);
            assert(x as int == q as int * d as int + r) by (nonlinear_arith)
                requires
                    m as int == d as int * (m as int / d as int) + (m as int % d as int),
                    k as int == m as int / d as int,
                    q as int == -(k as int) - 1,
                    r == d as int - (m as int % d as int) - 1,
                    m as int == -(x as int + 1),
            ;
            vstd::arithmetic::div_mod::lemma_fundamental_div_mod_converse(
                x as int,
                d as int,
                q as int,
                r,
            );
        }
        q
    }
}

/// The neighborhood that holds the space at `(x, y)`.
pub fn get_neighborhood_xy(x: i64, y: i64) -> (n: (i64, i64))
    ensures
        n.0 == neighborhood_of(x as int),
        n.1 == neighborhood_of(y as int),
{
    (floor_divide(x, NEIGHBORHOOD_SIZE), floor_divide(y, NEIGHBORHOOD_SIZE))
}

/// A space lies in neighborhood `n` exactly when its coordinate is one of the
/// `NEIGHBORHOOD_SIZE` consecutive values starting at `n * NEIGHBORHOOD_SIZE`.
pub proof fn lemma_neighborhood_band(x: int, n: int)
    ensures
        neighborhood_of(x) == n <==> n * 200 <= x < (n + 1) * 200,
{
    vstd::arithmetic::div_mod::lemma_fundamental_div_mod(x, 200);
    vstd::arithmetic::div_mod::lemma_mod_bound(x, 200);
    if n * 200 <= x < (n + 1) * 200 {
        vstd::arithmetic::div_mod::lemma_fundamental_div_mod_converse(x, 200, n, x - n * 200);
    }
}

/// Coordinates -200 to -1 lie in neighborhood -1, 0 to 199 in neighborhood 0
/// and 200 to 399 in neighborhood 1.
pub proof fn lemma_neighborhoods_around_origin(x: int)
    ensures
        -200 <= x <= -1 ==> neighborhood_of(x) == -1,
        0 <= x <= 199 ==> neighborhood_of(x) == 0,
        200 <= x <= 399 ==> neighborhood_of(x) == 1,
{
    lemma_neighborhood_band(x, -1);
    lemma_neighborhood_band(x, 0);
    lemma_neighborhood_band(x, 1);
}

/// Position of coordinate `x` inside its neighborhood, from 0 to
/// `NEIGHBORHOOD_SIZE - 1`.
pub open spec fn position_in_neighborhood(x: int) -> int {
    x % (NEIGHBORHOOD_SIZE as int)
}

/// Position of coordinate `x` inside its neighborhood.
pub fn wrap_coordinate(x: i64) -> (r: usize)
    ensures
        r == position_in_neighborhood(x as int),
        r < NEIGHBORHOOD_SIZE,
{
    let n: i64 = 200;
    if x >= 0 {
        proof {
            vstd::arithmetic::div_mod::lemma_mod_bound(x as int, 200);
        }
        (x % n) as usize
    } else {
        let m: i64 = -(x + 1);
        let low: i64 = m % n;
        let r: i64 = n - 1 - low;
        proof {
            vstd::arithmetic::div_mod::lemma_mod_bound(m as int, 200);
            vstd::arithmetic::div_mod::lemma_fundamental_div_mod(m as int, 200);
            let q: int = -(m as int / 200) - 1;
            assert(x as int == q * 200 + r as int) by (nonlinear_arith)
                requires
                    m as int == 200 * (m as int / 200) + (m as int % 200),
                    q == -(m as int / 200) - 1,
                    r as int == 200 - 1 - (m as int % 200),
                    m as int == -(x as int + 1),
            ;
            vstd::arithmetic::div_mod::lemma_fundamental_div_mod_converse(
                x as int,
                200,
                q,
                r as int,
            );
        }
        r as usize
    }
}

/// Number of color bytes in a canvas block: three per space.
pub const CANVAS_CELL_BYTES: usize = 120000;

/// Offset of the first of the three color bytes of the space at `(x, y)` in
/// its neighborhood's canvas block.
pub open spec fn cell_offset_of(x: int, y: int) -> int {
    3 * (NEIGHBORHOOD_SIZE as int) * position_in_neighborhood(x) + 3 * position_in_neighborhood(y)
}

/// The three color bytes of every space lie inside the cell area of its block,
/// wherever on the grid the space is.
pub proof fn lemma_cell_offset_in_block(x: int, y: int)
    ensures
        0 <= cell_offset_of(x, y),
        cell_offset_of(x, y) + 3 <= CANVAS_CELL_BYTES,
{
    vstd::arithmetic::div_mod::lemma_mod_bound(x, 200);
    vstd::arithmetic::div_mod::lemma_mod_bound(y, 200);
    let col = position_in_neighborhood(x);
    assert(3 * 200 * col == 600 * col) by (nonlinear_arith);
}

/// A space's cell is found by its position inside its neighborhood: the
/// coordinate less the start of the neighborhood. The space at (250, -5)
/// has the cell at column 50, row 195.
pub proof fn lemma_cell_wraps(x: int, y: int)
    ensures
        position_in_neighborhood(x) == x - 200 * neighborhood_of(x),
        0 <= position_in_neighborhood(x) < 200,
        cell_offset_of(x, y) == 600 * (x - 200 * neighborhood_of(x)) + 3 * (y - 200
            * neighborhood_of(y)),
        x == 250 && y == -5 ==> position_in_neighborhood(x) == 50 && position_in_neighborhood(y)
            == 195 && cell_offset_of(x, y) == 30585,
{
    vstd::arithmetic::div_mod::lemma_fundamental_div_mod(x, 200);
    vstd::arithmetic::div_mod::lemma_fundamental_div_mod(y, 200);
    vstd::arithmetic::div_mod::lemma_mod_bound(x, 200);
    vstd::arithmetic::div_mod::lemma_mod_bound(y, 200);
    let col = position_in_neighborhood(x);
    assert(3 * 200 * col == 600 * col) by (nonlinear_arith);
    if x == 250 && y == -5 {
        vstd::arithmetic::div_mod::lemma_fundamental_div_mod_converse(250, 200, 1, 50);
        vstd::arithmetic::div_mod::lemma_fundamental_div_mod_converse(-5, 200, -1, 195);
    }
}

/// Offset of the first color byte of the space at `(x, y)` in its block.
pub fn cell_offset(x: i64, y: i64) -> (o: usize)
    ensures
        o == cell_offset_of(x as int, y as int),
        o + 3 <= CANVAS_CELL_BYTES,
{
    let col: usize = wrap_coordinate(x);
    let row: usize = wrap_coordinate(y);
    proof {
        lemma_cell_offset_in_block(x as int, y as int);
        assert(3 * 200 * col == 600 * col) by (nonlinear_arith);
    }
    3 * NEIGHBORHOOD_SIZE * col + 3 * row
}

/// Absolute value of `x`.
pub open spec fn magnitude(x: int) -> int {
    if x < 0 {
        -x
    } else {
        x
    }
}

/// Chebyshev distance of `(x, y)` from the origin.
pub open spec fn chebyshev(x: int, y: int) -> int {
    if magnitude(x) >= magnitude(y) {
        magnitude(x)
    } else {
        magnitude(y)
    }
}

/// Price of creating the neighborhood at `(x, y)`: the base price, plus the
/// base price once more for every step of distance beyond three.
pub open spec fn creation_price(x: int, y: int) -> int {
    let d = chebyshev(x, y);
    BASE_NEIGHBORHOOD_PRICE as int + (BASE_NEIGHBORHOOD_PRICE as int) * (if d > 3 {
        d - 3
    } else {
        0
    })
}

/// Largest distance from the origin whose creation price fits in 64 bits.
pub const MAX_PRICED_DISTANCE: u64 = 46116860184275;

/// The price fits in 64 bits exactly up to `MAX_PRICED_DISTANCE`.
pub proof fn lemma_creation_price_fits(x: int, y: int)
    ensures
        creation_price(x, y) <= u64::MAX <==> chebyshev(x, y) <= MAX_PRICED_DISTANCE,
        creation_price(x, y) >= BASE_NEIGHBORHOOD_PRICE,
{
    let d = chebyshev(x, y);
    if d > 3 {
        assert(400000 * (d - 3) <= 18446744073709151615 <==> d - 3 <= 46116860184272)
            by (nonlinear_arith);
    }
}

/// Absolute value of `x` as an unsigned number.
pub fn unsigned_magnitude(x: i64) -> (m: u64)
    ensures
        m == magnitude(x as int),
{
    if x >= 0 {
        x as u64
    } else if x == i64::MIN {
        9223372036854775808u64
    } else {
        (-x) as u64
    }
}

/// Chebyshev distance of `(x, y)` from the origin.
pub fn chebyshev_distance(x: i64, y: i64) -> (d: u64)
    ensures
        d == chebyshev(x as int, y as int),
{
    let a: u64 = unsigned_magnitude(x);
    let b: u64 = unsigned_magnitude(y);
    if a >= b {
        a
    } else {
        b
    }
}

/// Price of creating the neighborhood at `(n_x, n_y)`.
pub fn get_neighborhood_creation_price(n_x: i64, n_y: i64) -> (price: u64)
    requires
        creation_price(n_x as int, n_y as int) <= u64::MAX,
    ensures
        price == creation_price(n_x as int, n_y as int),
{
    proof {
        lemma_creation_price_fits(n_x as int, n_y as int);
    }
    let dist: u64 = chebyshev_distance(n_x, n_y);
    let beyond: u64 = if dist > 3 {
        dist - 3
    } else {
        0
    };
    assert(400000 * beyond <= 18446744073709151615) by (nonlinear_arith)
        requires
            beyond <= 46116860184272,
    ;
    BASE_NEIGHBORHOOD_PRICE + BASE_NEIGHBORHOOD_PRICE * beyond
}

/// Whether `declared` is the price of creating the neighborhood at
/// `(n_x, n_y)`. A neighborhood so far out that its price exceeds 64 bits has
/// no declarable price.
pub fn is_creation_price(n_x: i64, n_y: i64, declared: u64) -> (r: bool)
    ensures
        r == (declared == creation_price(n_x as int, n_y as int)),
{
    proof {
        lemma_creation_price_fits(n_x as int, n_y as int);
    }
    if chebyshev_distance(n_x, n_y) > MAX_PRICED_DISTANCE {
        false
    } else {
        declared == get_neighborhood_creation_price(n_x, n_y)
    }
}

/// Within three steps of the origin the price is the base price; beyond, it
/// grows by the base price per step.
pub proof fn lemma_creation_price_tiers(x: int, y: int)
    ensures
        chebyshev(x, y) <= 3 ==> creation_price(x, y) == 400000,
        chebyshev(x, y) == 5 ==> creation_price(x, y) == 1200000,
        chebyshev(x, y) > 3 ==> creation_price(x, y) == 400000 * (chebyshev(x, y) - 2),
{
    let d = chebyshev(x, y);
    if d > 3 {
        assert(400000 + 400000 * (d - 3) == 400000 * (d - 2)) by (nonlinear_arith);
    }
}

} // verus!
