//! Three-dimensional vectors of fixed-point scalars.

use vstd::arithmetic::div_mod::{lemma_fundamental_div_mod, lemma_mod_bound};
use vstd::prelude::*;
use crate::math::{
    isqrt, lemma_sqrt_at_least, lemma_sqrt_exists, mul_div, mul_div_i128, over_time, saturate, saturate_i128, sqrt,
    NANOS_PER_SECOND, UNIT,
};

verus! {

/// A vector, or a point, with components in thousandths of a unit.
#[derive(Clone, Copy, Debug, PartialEq, Eq)]
pub struct Vec3 {
    pub x: i32,
    pub y: i32,
    pub z: i32,
}

impl Vec3 {
    /// The componentwise sum, each component saturating.
    pub open spec fn plus(self, o: Vec3) -> Vec3 {
        Vec3 {
            x: saturate(self.x + o.x) as i32,
            y: saturate(self.y + o.y) as i32,
            z: saturate(self.z + o.z) as i32,
        }
    }

    /// The componentwise difference, each component saturating.
    pub open spec fn minus(self, o: Vec3) -> Vec3 {
        Vec3 {
            x: saturate(self.x - o.x) as i32,
            y: saturate(self.y - o.y) as i32,
            z: saturate(self.z - o.z) as i32,
        }
    }

    /// The opposite vector, each component saturating.
    pub open spec fn opposite(self) -> Vec3 {
        Vec3 {
            x: saturate(-self.x) as i32,
            y: saturate(-self.y) as i32,
            z: saturate(-self.z) as i32,
        }
    }

    /// The vector times the fixed-point scalar `s`.
    pub open spec fn times(self, s: i32) -> Vec3 {
        Vec3 {
            x: saturate(mul_div(self.x as int, s as int, UNIT as int)) as i32,
            y: saturate(mul_div(self.y as int, s as int, UNIT as int)) as i32,
            z: saturate(mul_div(self.z as int, s as int, UNIT as int)) as i32,
        }
    }

    /// What the vector, read as a rate per second, comes to over `nanos`
    /// nanoseconds.
    pub open spec fn during(self, nanos: u64) -> Vec3 {
        Vec3 {
            x: saturate(mul_div(self.x as int, nanos as int, NANOS_PER_SECOND as int)) as i32,
            y: saturate(mul_div(self.y as int, nanos as int, NANOS_PER_SECOND as int)) as i32,
            z: saturate(mul_div(self.z as int, nanos as int, NANOS_PER_SECOND as int)) as i32,
        }
    }

    /// Where a point is after `nanos` nanoseconds at `rate` per second: the
    /// sum `self + rate * nanos`, each component saturating.
    pub open spec fn moved(self, rate: Vec3, nanos: u64) -> Vec3 {
        Vec3 {
            x: saturate(self.x + over_time(rate.x as int, nanos as int)) as i32,
            y: saturate(self.y + over_time(rate.y as int, nanos as int)) as i32,
            z: saturate(self.z + over_time(rate.z as int, nanos as int)) as i32,
        }
    }

    /// The dot product, in millionths.
    pub open spec fn dot(self, o: Vec3) -> int {
        self.x * o.x + self.y * o.y + self.z * o.z
    }

    /// The squared length, in millionths.
    pub open spec fn norm_squared(self) -> int {
        self.dot(self)
    }

    /// The length in units of 1/65536 of a thousandth, rounded down.
    pub open spec fn length(self) -> int {
        sqrt(self.norm_squared() * 0x1_0000_0000)
    }

    /// The vector stretched or shrunk to the length `len`: each component
    /// times `len` over the length, rounded toward zero. The zero vector
    /// stays zero.
    pub open spec fn with_length(self, len: i32) -> Vec3 {
        if self.norm_squared() == 0 {
            Vec3 { x: 0, y: 0, z: 0 }
        } else {
            Vec3 {
                x: saturate(mul_div(self.x as int, len * 0x1_0000, self.length())) as i32,
                y: saturate(mul_div(self.y as int, len * 0x1_0000, self.length())) as i32,
                z: saturate(mul_div(self.z as int, len * 0x1_0000, self.length())) as i32,
            }
        }
    }

    /// The vector of length one in the same direction, or zero for the zero
    /// vector.
    pub open spec fn normalized(self) -> Vec3 {
        self.with_length(UNIT)
    }

    /// The vector of the three components.
    pub fn new(x: i32, y: i32, z: i32) -> (v: Vec3)
        ensures
            v == (Vec3 { x, y, z }),
    {
        Vec3 { x, y, z }
    }

    /// The zero vector.
    pub fn zero() -> (v: Vec3)
        ensures
            v == (Vec3 { x: 0, y: 0, z: 0 }),
    {
        Vec3 { x: 0, y: 0, z: 0 }
    }

    /// The vector whose three components are `s`.
    pub fn splat(s: i32) -> (v: Vec3)
        ensures
            v == (Vec3 { x: s, y: s, z: s }),
    {
        Vec3 { x: s, y: s, z: s }
    }

    /// Computes [`Vec3::plus`].
    pub fn add(self, o: Vec3) -> (v: Vec3)
        ensures
            v == self.plus(o),
    {
        Vec3 {
            x: saturate_i128(self.x as i128 + o.x as i128),
            y: saturate_i128(self.y as i128 + o.y as i128),
            z: saturate_i128(self.z as i128 + o.z as i128),
        }
    }

    /// Computes [`Vec3::minus`].
    pub fn sub(self, o: Vec3) -> (v: Vec3)
        ensures
            v == self.minus(o),
    {
        Vec3 {
            x: saturate_i128(self.x as i128 - o.x as i128),
            y: saturate_i128(self.y as i128 - o.y as i128),
            z: saturate_i128(self.z as i128 - o.z as i128),
        }
    }

    /// Computes [`Vec3::opposite`].
    pub fn neg(self) -> (v: Vec3)
        ensures
            v == self.opposite(),
    {
        Vec3 {
            x: saturate_i128(-(self.x as i128)),
            y: saturate_i128(-(self.y as i128)),
            z: saturate_i128(-(self.z as i128)),
        }
    }

    /// Computes [`Vec3::times`].
    pub fn scale(self, s: i32) -> (v: Vec3)
        ensures
            v == self.times(s),
    {
        Vec3 {
            x: saturate_i128(mul_div_i128(self.x, s as i128, UNIT as i128)),
            y: saturate_i128(mul_div_i128(self.y, s as i128, UNIT as i128)),
            z: saturate_i128(mul_div_i128(self.z, s as i128, UNIT as i128)),
        }
    }

    /// Computes [`Vec3::during`].
    pub fn over(self, nanos: u64) -> (v: Vec3)
        ensures
            v == self.during(nanos),
    {
        Vec3 {
            x: saturate_i128(mul_div_i128(self.x, nanos as i128, NANOS_PER_SECOND as i128)),
            y: saturate_i128(mul_div_i128(self.y, nanos as i128, NANOS_PER_SECOND as i128)),
            z: saturate_i128(mul_div_i128(self.z, nanos as i128, NANOS_PER_SECOND as i128)),
        }
    }

    /// Computes [`Vec3::moved`].
    pub fn advance(self, rate: Vec3, nanos: u64) -> (v: Vec3)
        ensures
            v == self.moved(rate, nanos),
    {
        let dx: i128 = mul_div_i128(rate.x, nanos as i128, NANOS_PER_SECOND as i128);
        let dy: i128 = mul_div_i128(rate.y, nanos as i128, NANOS_PER_SECOND as i128);
        let dz: i128 = mul_div_i128(rate.z, nanos as i128, NANOS_PER_SECOND as i128);
        Vec3 {
            x: saturate_i128(self.x as i128 + dx),
            y: saturate_i128(self.y as i128 + dy),
            z: saturate_i128(self.z as i128 + dz),
        }
    }

    /// Computes [`Vec3::dot`].
    pub fn dot_product(self, o: Vec3) -> (d: i128)
        ensures
            d == self.dot(o),
            -0xC000_0000_0000_0000 <= d <= 0xC000_0000_0000_0000,
    {
        proof {
            lemma_product_bound(self.x as int, o.x as int);
            lemma_product_bound(self.y as int, o.y as int);
            lemma_product_bound(self.z as int, o.z as int);
        }
        (self.x as i128) * (o.x as i128) + (self.y as i128) * (o.y as i128) + (self.z as i128) * (
        o.z as i128)
    }

    /// Computes [`Vec3::norm_squared`].
    pub fn length_squared(self) -> (n: u64)
        ensures
            n == self.norm_squared(),
    {
        proof {
            lemma_product_bound(self.x as int, self.x as int);
            lemma_product_bound(self.y as int, self.y as int);
            lemma_product_bound(self.z as int, self.z as int);
            assert(self.x * self.x >= 0) by (nonlinear_arith);
            assert(self.y * self.y >= 0) by (nonlinear_arith);
            assert(self.z * self.z >= 0) by (nonlinear_arith);
        }
        let d: i128 = self.dot_product(self);
        d as u64
    }

    /// Computes [`Vec3::length`], in units of 1/65536 of a thousandth.
    pub fn len(self) -> (l: u128)
        ensures
            l == self.length(),
            l <= 0xFFFF_FFFF_FFFF_FFFF,
            self.norm_squared() > 0 ==> l >= 0x1_0000,
    {
        let n: u64 = self.length_squared();
        let wide: u128 = (n as u128) * 0x1_0000_0000;
        let l: u128 = isqrt(wide);
        proof {
            if n > 0 {
                lemma_sqrt_at_least(wide as int, 0x1_0000);
            }
        }
        l
    }

    /// Computes [`Vec3::with_length`].
    pub fn resized(self, len: i32) -> (v: Vec3)
        ensures
            v == self.with_length(len),
    {
        if self.length_squared() == 0 {
            Vec3 { x: 0, y: 0, z: 0 }
        } else {
            let l: u128 = self.len();
            let by: i128 = (len as i128) * 0x1_0000;
            Vec3 {
                x: saturate_i128(mul_div_i128(self.x, by, l as i128)),
                y: saturate_i128(mul_div_i128(self.y, by, l as i128)),
                z: saturate_i128(mul_div_i128(self.z, by, l as i128)),
            }
        }
    }

    /// Computes [`Vec3::normalized`].
    pub fn normalize_or_zero(self) -> (v: Vec3)
        ensures
            v == self.normalized(),
    {
        self.resized(UNIT)
    }
}

/// The product of two scalars is at most 2^62 in size.
pub proof fn lemma_product_bound(a: int, b: int)
    requires
        -0x8000_0000 <= a <= 0x7FFF_FFFF,
        -0x8000_0000 <= b <= 0x7FFF_FFFF,
    ensures
        -0x4000_0000_0000_0000 <= a * b <= 0x4000_0000_0000_0000,
{
    assert(-0x4000_0000_0000_0000 <= a * b <= 0x4000_0000_0000_0000) by (nonlinear_arith)
        requires
            -0x8000_0000 <= a <= 0x7FFF_FFFF,
            -0x8000_0000 <= b <= 0x7FFF_FFFF,
    ;
}

/// One coordinate `a` of a vector whose squared length is `s` and whose
/// length, in 65536ths, is `l`, stretched to the length `len`: the result
/// `q` has the sign of `a`, is at most `len` in size, and `q * l` is at most
/// `l` short of `a * len * 65536` in size.
proof fn lemma_axis(a: int, s: int, l: int, len: int) -> (k: int)
    requires
        a * a <= s,
        0 < l,
        l * l <= s * 0x1_0000_0000 < (l + 1) * (l + 1),
        0 < len,
    ensures
        0 <= k <= len,
        a == 0 ==> k == 0,
        mul_div(a, len * 0x1_0000, l) == (if a >= 0 {
            k
        } else {
            -k
        }),
        (k * l) * (k * l) <= (a * a) * ((len * 0x1_0000) * (len * 0x1_0000)),
        (k * l) * (k * l) >= (a * a) * ((len * 0x1_0000) * (len * 0x1_0000)) - 2 * ((len * l) * l),
{
    let m = if a >= 0 {
        a
    } else {
        -a
    };
    let b = len * 0x1_0000;
    let t = m * b;
    let k = t / l;
    let u = k * l;
    assert(m * m == a * a) by (nonlinear_arith)
        requires
            m == a || m == -a,
    ;
    assert((m * 0x1_0000) * (m * 0x1_0000) == (m * m) * 0x1_0000_0000) by (nonlinear_arith);
    assert(m * 0x1_0000 < l + 1) by (nonlinear_arith)
        requires
            (m * 0x1_0000) * (m * 0x1_0000) < (l + 1) * (l + 1),
            0 <= m,
            0 <= l,
    ;
    assert(t == (m * 0x1_0000) * len) by (nonlinear_arith)
        requires
            t == m * b,
            b == len * 0x1_0000,
    ;
    assert(0 <= t <= len * l) by (nonlinear_arith)
        requires
            t == (m * 0x1_0000) * len,
            0 <= m * 0x1_0000 <= l,
            0 < len,
    ;
    lemma_fundamental_div_mod(t, l);
    lemma_mod_bound(t, l);
    assert(l * k == u) by (nonlinear_arith)
        requires
            u == k * l,
    ;
    assert(u <= t < u + l);
    assert(0 <= k <= len) by (nonlinear_arith)
        requires
            u == k * l,
            u <= len * l,
            u + l > 0,
            0 < l,
    ;
    assert(0 <= u) by (nonlinear_arith)
        requires
            u == k * l,
            0 <= k,
            0 < l,
    ;
    assert(u * u <= t * t) by (nonlinear_arith)
        requires
            0 <= u <= t,
    ;
    assert(t * t == (a * a) * (b * b)) by (nonlinear_arith)
        requires
            t == m * b,
            m * m == a * a,
    ;
    assert(u * u >= t * t - 2 * t * l) by (nonlinear_arith)
        requires
            0 <= u <= t,
            t < u + l,
            0 < l,
    ;
    assert(2 * t * l <= 2 * ((len * l) * l)) by (nonlinear_arith)
        requires
            0 <= t <= len * l,
            0 < l,
    ;
    if a < 0 {
        assert((-a) * b == -(a * b)) by (nonlinear_arith);
    }
    if a == 0 {
        assert(t == 0) by (nonlinear_arith)
            requires
                t == m * b,
                m == 0,
        ;
        assert(k == 0) by (nonlinear_arith)
            requires
                u == k * l,
                0 <= u <= 0,
                0 < l,
        ;
    }
    k
}

/// A vector other than zero, stretched or shrunk to the length `len`, points
/// the same way along every axis and is no longer than asked for along any;
/// its length is more than `len - 4`, and at most `len` up to what the
/// rounding of its own length brings. The result is that length, in
/// 65536ths.
pub proof fn lemma_with_length(v: Vec3, len: i32) -> (l: int)
    requires
        v.norm_squared() > 0,
        16 <= len,
    ensures
        l == v.length(),
        l >= 0x1_0000,
        v.x >= 0 ==> (0 <= v.with_length(len).x && v.with_length(len).x <= len),
        v.x <= 0 ==> (-len <= v.with_length(len).x && v.with_length(len).x <= 0),
        v.y >= 0 ==> (0 <= v.with_length(len).y && v.with_length(len).y <= len),
        v.y <= 0 ==> (-len <= v.with_length(len).y && v.with_length(len).y <= 0),
        v.z >= 0 ==> (0 <= v.with_length(len).z && v.with_length(len).z <= len),
        v.z <= 0 ==> (-len <= v.with_length(len).z && v.with_length(len).z <= 0),
        v.with_length(len).norm_squared() > (len - 4) * (len - 4),
        v.with_length(len).norm_squared() * (l * l) < (len * len) * (l * l + 2 * l + 1),
{
    let x = v.x as int;
    let y = v.y as int;
    let z = v.z as int;
    let s = v.norm_squared();
    let len = len as int;
    assert(x * x >= 0 && y * y >= 0 && z * z >= 0) by (nonlinear_arith);
    assert(s == x * x + y * y + z * z);
    let w = s * 0x1_0000_0000;
    lemma_sqrt_exists(w);
    let l = sqrt(w);
    lemma_sqrt_at_least(w, 0x1_0000);
    let kx = lemma_axis(x, s, l, len);
    let ky = lemma_axis(y, s, l, len);
    let kz = lemma_axis(z, s, l, len);
    let q = v.with_length(len as i32);
    assert(q.x == (if x >= 0 {
        kx
    } else {
        -kx
    }));
    assert(q.y == (if y >= 0 {
        ky
    } else {
        -ky
    }));
    assert(q.z == (if z >= 0 {
        kz
    } else {
        -kz
    }));
    let n = q.norm_squared();
    assert(n == kx * kx + ky * ky + kz * kz) by (nonlinear_arith)
        requires
            n == q.x * q.x + q.y * q.y + q.z * q.z,
            q.x == kx || q.x == -kx,
            q.y == ky || q.y == -ky,
            q.z == kz || q.z == -kz,
    ;
    let bb = (len * 0x1_0000) * (len * 0x1_0000);
    let c = (len * l) * l;
    let ux = (kx * l) * (kx * l);
    let uy = (ky * l) * (ky * l);
    let uz = (kz * l) * (kz * l);
    assert(ux == (kx * kx) * (l * l)) by (nonlinear_arith)
        requires
            ux == (kx * l) * (kx * l),
    ;
    assert(uy == (ky * ky) * (l * l)) by (nonlinear_arith)
        requires
            uy == (ky * l) * (ky * l),
    ;
    assert(uz == (kz * kz) * (l * l)) by (nonlinear_arith)
        requires
            uz == (kz * l) * (kz * l),
    ;
    assert((kx * kx + ky * ky + kz * kz) * (l * l) == (kx * kx) * (l * l) + (ky * ky) * (l * l) + (
    kz * kz) * (l * l)) by (nonlinear_arith);
    assert(ux + uy + uz == n * (l * l));
    assert((x * x) * bb + (y * y) * bb + (z * z) * bb == s * bb) by (nonlinear_arith)
        requires
            s == x * x + y * y + z * z,
    ;
    assert(bb == (len * len) * 0x1_0000_0000) by (nonlinear_arith)
        requires
            bb == (len * 0x1_0000) * (len * 0x1_0000),
    ;
    assert(s * bb == (len * len) * w) by (nonlinear_arith)
        requires
            bb == (len * len) * 0x1_0000_0000,
            w == s * 0x1_0000_0000,
    ;
    let ll = l * l;
    assert((l + 1) * (l + 1) == ll + 2 * l + 1) by (nonlinear_arith)
        requires
            ll == l * l,
    ;
    // From above.
    assert(n * ll <= (len * len) * w);
    assert((len * len) * w < (len * len) * (ll + 2 * l + 1)) by (nonlinear_arith)
        requires
            w < ll + 2 * l + 1,
            len >= 16,
    ;
    // From below.
    assert(n * ll >= (len * len) * w - 6 * c);
    assert((len * len) * w >= (len * len) * ll) by (nonlinear_arith)
        requires
            w >= ll,
            len >= 16,
    ;
    assert(c == len * ll) by (nonlinear_arith)
        requires
            c == (len * l) * l,
            ll == l * l,
    ;
    assert(n * ll >= (len * len - 6 * len) * ll) by (nonlinear_arith)
        requires
            n * ll >= (len * len) * ll - 6 * (len * ll),
    ;
    assert(ll > 0) by (nonlinear_arith)
        requires
            ll == l * l,
            l >= 0x1_0000,
    ;
    assert(n >= len * len - 6 * len) by (nonlinear_arith)
        requires
            n * ll >= (len * len - 6 * len) * ll,
            ll > 0,
    ;
    assert((len - 4) * (len - 4) < len * len - 6 * len) by (nonlinear_arith)
        requires
            len >= 16,
    ;
    l
}

/// A vector other than zero, normalized, has the length one, within four
/// thousandths below and sixteen millionths above.
pub proof fn lemma_normalized_length(v: Vec3)
    requires
        v.norm_squared() > 0,
    ensures
        (UNIT - 4) * (UNIT - 4) < v.normalized().norm_squared() <= UNIT * UNIT + 31,
{
    let n = v.normalized().norm_squared();
    let l = lemma_with_length(v, UNIT);
    let ll = l * l;
    if n >= 1_000_032 {
        assert(n * ll >= 1_000_032 * ll) by (nonlinear_arith)
            requires
                n >= 1_000_032,
                ll >= 0,
                ll == l * l,
        ;
        assert(ll >= 0x1_0000 * l) by (nonlinear_arith)
            requires
                ll == l * l,
                l >= 0x1_0000,
        ;
        assert(false) by (nonlinear_arith)
            requires
                1_000_032 * ll < 1_000_000 * (ll + 2 * l + 1),
                ll >= 0x1_0000 * l,
                l >= 0x1_0000,
        ;
    }
}

} // verus!
