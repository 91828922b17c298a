//! Rational numbers as a numerator/denominator pair of C `int`s.

use libc::c_int;
use vstd::prelude::*;

verus! {

/// A fraction `num / den`. Nothing is assumed of the pair: it need not be
/// reduced, and `den` may be zero or negative.
#[derive(Clone, Copy, Debug, PartialEq, Eq, Structural)]
pub struct AVRational {
    pub num: c_int,
    pub den: c_int,
}

/// The sign of an integer: `-1`, `0` or `1`.
pub open spec fn signum(x: int) -> int {
    if x < 0 {
        -1
    } else if x > 0 {
        1
    } else {
        0
    }
}

impl AVRational {
    /// The fraction with numerator and denominator exchanged.
    pub open spec fn inverse(self) -> AVRational {
        AVRational { num: self.den, den: self.num }
    }

    /// The form `0 / 0`, which stands for no value at all.
    pub open spec fn is_undefined(self) -> bool {
        self.num == 0 && self.den == 0
    }

    /// The numerator once the denominator's sign has been moved into it.
    pub open spec fn signed_num(self) -> int {
        if self.den < 0 {
            -self.num
        } else {
            self.num as int
        }
    }

    /// The denominator without its sign.
    pub open spec fn abs_den(self) -> int {
        if self.den < 0 {
            -self.den
        } else {
            self.den as int
        }
    }

    /// How `self` stands to `other`: `-1` below, `0` equal, `1` above, and
    /// `c_int::MIN` where either side is `0 / 0`.
    ///
    /// A fraction with denominator zero and numerator `n != 0` is infinite
    /// with the sign of `n`; every other fraction has the value of
    /// `signed_num() / abs_den()`, and two of them are ordered by their
    /// cross products.
    pub open spec fn order(self, other: AVRational) -> int {
        if self.is_undefined() || other.is_undefined() {
            c_int::MIN as int
        } else if self.den == 0 && other.den == 0 {
            signum(signum(self.num as int) - signum(other.num as int))
        } else {
            signum(self.signed_num() * other.abs_den() - other.signed_num() * self.abs_den())
        }
    }
}

/// Builds the fraction `num / den` as given, without reducing it.
pub fn av_make_q(num: c_int, den: c_int) -> (q: AVRational)
    ensures
        q == (AVRational { num, den }),
{
    AVRational { num, den }
}

/// The product of two C `int`s stays well inside 64 bits, and is zero only
/// where a factor is.
proof fn lemma_product_bounds(x: c_int, y: c_int)
    ensures
        -0x4000_0000_0000_0000 < x * y <= 0x4000_0000_0000_0000,
        x * y == 0 <==> x == 0 || y == 0,
{
    assert(-0x4000_0000_0000_0000 < x * y <= 0x4000_0000_0000_0000) by (nonlinear_arith)
        requires
            -0x8000_0000 <= x < 0x8000_0000,
            -0x8000_0000 <= y < 0x8000_0000,
    ;
    assert(x * y == 0 <==> x == 0 || y == 0) by (nonlinear_arith);
}

/// Moving both denominators' signs into the numerators changes the cross
/// difference by exactly those two signs.
proof fn lemma_cross_difference(a: AVRational, b: AVRational)
    ensures
        a.signed_num() * b.abs_den() - b.signed_num() * a.abs_den() == if (a.den < 0) != (b.den
            < 0) {
            -(a.num * b.den - b.num * a.den)
        } else {
            a.num * b.den - b.num * a.den
        },
{
    let an = a.num as int;
    let ad = a.den as int;
    let bn = b.num as int;
    let bd = b.den as int;
    assert((-an) * bd == -(an * bd)) by (nonlinear_arith);
    assert(an * (-bd) == -(an * bd)) by (nonlinear_arith);
    assert((-an) * (-bd) == an * bd) by (nonlinear_arith);
    assert((-bn) * ad == -(bn * ad)) by (nonlinear_arith);
    assert(bn * (-ad) == -(bn * ad)) by (nonlinear_arith);
    assert((-bn) * (-ad) == bn * ad) by (nonlinear_arith);
}

/// The sign that `tmp` has once the signs of both denominators are folded
/// into it: the three sign bits are combined by exclusive or, spread over the
/// word by an arithmetic shift, and the lowest bit is set.
fn folded_sign(tmp: i64, a_den: c_int, b_den: c_int) -> (s: c_int)
    ensures
        s == if (tmp < 0) != ((a_den < 0) != (b_den < 0)) {
            -1int
        } else {
            1int
        },
{
    let ad: i64 = i64::from(a_den);
    let bd: i64 = i64::from(b_den);
    let folded: i64 = ((tmp ^ ad ^ bd) >> 63) | 1;
    assert(((tmp ^ ad ^ bd) >> 63) | 1 == if (tmp < 0) != ((ad < 0) != (bd < 0)) {
        -1i64
    } else {
        1i64
    }) by (bit_vector);
    folded as c_int
}

/// `-1` for a negative number and `0` for any other: the sign bit spread
/// over the word by an arithmetic shift.
fn sign_mask(x: c_int) -> (m: c_int)
    ensures
        m == if x < 0 {
            -1int
        } else {
            0int
        },
{
    assert(x >> 31 == if x < 0 {
        -1i32
    } else {
        0i32
    }) by (bit_vector);
    x >> 31
}

/// Compares two fractions exactly.
///
/// Returns `0` where `a == b`, `1` where `a > b`, `-1` where `a < b`, and
/// `c_int::MIN` where one of them is `0 / 0`. The cross products are taken in
/// 64 bits, so no pair of C `int`s overflows.
pub fn av_cmp_q(a: AVRational, b: AVRational) -> (order: c_int)
    ensures
        order == a.order(b),
{
    proof {
        lemma_product_bounds(a.num, b.den);
        lemma_product_bounds(b.num, a.den);
        lemma_cross_difference(a, b);
    }
    let tmp: i64 = i64::from(a.num) * i64::from(b.den) - i64::from(b.num) * i64::from(a.den);

    if tmp != 0 {
        folded_sign(tmp, a.den, b.den)
    } else if b.den != 0 && a.den != 0 {
        0
    } else if a.num != 0 && b.num != 0 {
        sign_mask(a.num) - sign_mask(b.num)
    } else {
        c_int::MIN
    }
}

/// Inverts a fraction by exchanging numerator and denominator.
pub fn av_inv_q(q: AVRational) -> (r: AVRational)
    ensures
        r == q.inverse(),
{
    AVRational { num: q.den, den: q.num }
}

/// Two fractions `a / b` and `c / d` with nonzero denominators compare as
/// equal exactly where their cross products agree, whatever the signs of the
/// denominators.
pub proof fn lemma_order_equal_iff_cross_products_agree(a: c_int, b: c_int, c: c_int, d: c_int)
    requires
        b != 0,
        d != 0,
    ensures
        (AVRational { num: a, den: b }).order(AVRational { num: c, den: d }) == 0 <==> a * d == c
            * b,
{
    lemma_cross_difference(AVRational { num: a, den: b }, AVRational { num: c, den: d });
}

/// The comparison gives `c_int::MIN` exactly where a side is `0 / 0`, and one
/// of `-1`, `0` and `1` everywhere else.
pub proof fn lemma_order_is_defined_unless_undefined(a: AVRational, b: AVRational)
    ensures
        a.order(b) == c_int::MIN <==> a.is_undefined() || b.is_undefined(),
        !a.is_undefined() && !b.is_undefined() ==> -1 <= a.order(b) <= 1,
{
}

/// Between fractions with positive denominators the comparison is the sign
/// of the plain cross difference.
pub proof fn lemma_order_of_positive_denominators(a: AVRational, b: AVRational)
    requires
        a.den > 0,
        b.den > 0,
    ensures
        a.order(b) == signum(a.num * b.den - b.num * a.den),
{
}

/// A fraction other than `0 / 0` compares as equal to itself.
pub proof fn lemma_order_is_reflexive(a: AVRational)
    requires
        !a.is_undefined(),
    ensures
        a.order(a) == 0,
{
    lemma_cross_difference(a, a);
}

/// Exchanging the two sides reverses the comparison.
pub proof fn lemma_order_reverses_on_exchange(a: AVRational, b: AVRational)
    requires
        !a.is_undefined(),
        !b.is_undefined(),
    ensures
        b.order(a) == -a.order(b),
{
}

/// A fraction with a nonzero denominator stands to any other as the same
/// fraction with the signs of numerator and denominator both changed.
pub proof fn lemma_order_ignores_common_sign(a: AVRational, b: AVRational)
    requires
        a.den != 0,
        a.num != c_int::MIN,
        a.den != c_int::MIN,
    ensures
        (AVRational { num: (-a.num) as c_int, den: (-a.den) as c_int }).order(b) == a.order(b),
        b.order(AVRational { num: (-a.num) as c_int, den: (-a.den) as c_int }) == b.order(a),
{
}

/// A product with a factor that is not negative has the sign of the other
/// factor, or is zero with that factor.
proof fn lemma_product_sign(x: int, y: int)
    by (nonlinear_arith)
    requires
        y >= 0,
    ensures
        y == 0 ==> x * y == 0,
        y > 0 ==> (x * y > 0 <==> x > 0) && (x * y < 0 <==> x < 0),
{
}

/// Cross products chain: with a positive middle denominator,
/// `na / da <= nb / db` and `nb / db <= nc / dc` give `na / da <= nc / dc`,
/// each written without division, and strictly where one of the two steps is
/// strict and the outer denominators are positive.
proof fn lemma_cross_products_chain(na: int, da: int, nb: int, db: int, nc: int, dc: int)
    by (nonlinear_arith)
    requires
        da >= 0,
        db > 0,
        dc >= 0,
        na * db <= nb * da,
        nb * dc <= nc * db,
    ensures
        na * dc <= nc * da,
        da > 0 && dc > 0 && (na * db < nb * da || nb * dc < nc * db) ==> na * dc < nc * da,
{
    assert((na * db) * dc <= (nb * da) * dc);
    assert((nb * dc) * da <= (nc * db) * da);
    assert((na * dc) * db <= (nc * da) * db);
    if da > 0 && dc > 0 && na * db < nb * da {
        assert((na * db) * dc < (nb * da) * dc);
        assert((na * dc) * db < (nc * da) * db);
    }
    if da > 0 && dc > 0 && nb * dc < nc * db {
        assert((nb * dc) * da < (nc * db) * da);
        assert((na * dc) * db < (nc * da) * db);
    }
}

/// The comparison is transitive: a fraction at or below a second one that is
/// at or below a third is at or below the third, and below it where one of
/// the two steps is strict.
pub proof fn lemma_order_is_transitive(a: AVRational, b: AVRational, c: AVRational)
    requires
        !a.is_undefined(),
        !b.is_undefined(),
        !c.is_undefined(),
        a.order(b) <= 0,
        b.order(c) <= 0,
    ensures
        a.order(c) <= 0,
        a.order(b) < 0 || b.order(c) < 0 ==> a.order(c) < 0,
{
    let na = a.signed_num();
    let da = a.abs_den();
    let nb = b.signed_num();
    let db = b.abs_den();
    let nc = c.signed_num();
    let dc = c.abs_den();
    lemma_product_sign(na, db);
    lemma_product_sign(nb, da);
    lemma_product_sign(nb, dc);
    lemma_product_sign(nc, db);
    lemma_product_sign(na, dc);
    lemma_product_sign(nc, da);
    if db > 0 {
        lemma_cross_products_chain(na, da, nb, db, nc, dc);
    }
}

/// Inverting twice gives the fraction back.
pub proof fn lemma_inverse_is_involution(q: AVRational)
    ensures
        q.inverse().inverse() == q,
{
}

} // verus!
