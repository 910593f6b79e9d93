//! The configuration space: which points a sweep visits, and in which order.
//!
//! A configuration point assigns one variant to each of the five dimensions
//! that the compiler reads. A space lists, for every dimension, the variants
//! to visit. Its points are numbered in lexicographic order, the optimisation
//! level most significant and the panic strategy least: the number of a point
//! is the mixed-radix number whose digits are the positions of its variants.

use vstd::prelude::*;
use vstd::arithmetic::div_mod::lemma_fundamental_div_mod;
use vstd::arithmetic::div_mod::lemma_fundamental_div_mod_converse;
use vstd::arithmetic::div_mod::lemma_mod_bound;
use crate::options::{CodegenUnits, Lto, OptLevel, Panic, Strip, WasmOpt};

verus! {

/// One assignment of a variant to every dimension that the compiler reads.
#[derive(Clone, Copy, Debug, PartialEq, Eq, Structural)]
pub struct ConfigPoint {
    pub opt_level: OptLevel,
    pub lto: Lto,
    pub codegen_units: CodegenUnits,
    pub strip: Strip,
    pub panic: Panic,
}

/// The variants to visit, dimension by dimension. `profiles` are the
/// optimizer profiles, which are run through for every configuration point.
#[derive(Clone, Debug, PartialEq, Eq)]
pub struct ConfigSpace {
    pub opt_levels: Vec<OptLevel>,
    pub ltos: Vec<Lto>,
    pub codegen_units: Vec<CodegenUnits>,
    pub strips: Vec<Strip>,
    pub panics: Vec<Panic>,
    pub profiles: Vec<WasmOpt>,
}

/// For a positive `m`, `k` lies below `a * m` exactly if `k / m` lies below `a`.
proof fn lemma_quotient_bound(k: nat, a: nat, m: nat)
    requires
        m > 0,
    ensures
        (k < a * m) == (k / m < a),
{
    lemma_fundamental_div_mod(k as int, m as int);
    lemma_mod_bound(k as int, m as int);
    let q = k / m;
    let r = k % m;
    assert(k == m * q + r);
    if q < a {
        assert(m * q + m <= m * a) by (nonlinear_arith)
            requires
                q + 1 <= a,
                m > 0,
        ;
        assert(m * a == a * m) by (nonlinear_arith);
    } else {
        assert(m * q >= m * a) by (nonlinear_arith)
            requires
                q >= a,
                m > 0,
        ;
        assert(m * a == a * m) by (nonlinear_arith);
    }
}

impl ConfigSpace {
    /// The number of configuration points: the product of the five
    /// dimensions' lengths.
    pub open spec fn point_count(&self) -> nat {
        (self.opt_levels.len() * self.ltos.len() * self.codegen_units.len() * self.strips.len()
            * self.panics.len()) as nat
    }

    /// The number of rows of a complete sweep.
    pub open spec fn row_count(&self) -> nat {
        (self.point_count() * self.profiles.len()) as nat
    }

    /// The number of the point whose variants stand at positions `a` to `e`
    /// of their dimensions.
    pub open spec fn index_of(&self, a: nat, b: nat, c: nat, d: nat, e: nat) -> nat {
        ((((a * self.ltos.len() + b) * self.codegen_units.len() + c) * self.strips.len() + d)
            * self.panics.len() + e) as nat
    }

    /// Whether `a` to `e` are positions within the five dimensions.
    pub open spec fn in_range(&self, a: nat, b: nat, c: nat, d: nat, e: nat) -> bool {
        &&& a < self.opt_levels.len()
        &&& b < self.ltos.len()
        &&& c < self.codegen_units.len()
        &&& d < self.strips.len()
        &&& e < self.panics.len()
    }

    /// The point made of the variants at positions `a` to `e`.
    pub open spec fn combination(&self, a: nat, b: nat, c: nat, d: nat, e: nat) -> ConfigPoint {
        ConfigPoint {
            opt_level: self.opt_levels[a as int],
            lto: self.ltos[b as int],
            codegen_units: self.codegen_units[c as int],
            strip: self.strips[d as int],
            panic: self.panics[e as int],
        }
    }

    /// Position of point `k`'s panic strategy.
    pub open spec fn panic_digit(&self, k: nat) -> nat {
        k % (self.panics.len() as nat)
    }

    /// Position of point `k`'s stripping mode.
    pub open spec fn strip_digit(&self, k: nat) -> nat {
        (k / (self.panics.len() as nat)) % (self.strips.len() as nat)
    }

    /// Position of point `k`'s code generation units.
    pub open spec fn codegen_digit(&self, k: nat) -> nat {
        (k / (self.panics.len() as nat) / (self.strips.len() as nat)) % (
        self.codegen_units.len() as nat)
    }

    /// Position of point `k`'s link-time optimisation mode.
    pub open spec fn lto_digit(&self, k: nat) -> nat {
        (k / (self.panics.len() as nat) / (self.strips.len() as nat) / (
        self.codegen_units.len() as nat)) % (self.ltos.len() as nat)
    }

    /// Position of point `k`'s optimisation level.
    pub open spec fn opt_digit(&self, k: nat) -> nat {
        k / (self.panics.len() as nat) / (self.strips.len() as nat) / (
        self.codegen_units.len() as nat) / (self.ltos.len() as nat)
    }

    /// Point number `k` of the space.
    pub open spec fn point_at(&self, k: nat) -> ConfigPoint {
        self.combination(
            self.opt_digit(k),
            self.lto_digit(k),
            self.codegen_digit(k),
            self.strip_digit(k),
            self.panic_digit(k),
        )
    }

    /// The space of every variant of every dimension, each in declared order.
    pub fn full() -> (space: ConfigSpace)
        ensures
            is_full(space),
            space.point_count() == 72,
            space.row_count() == 360,
    {
        let space = ConfigSpace {
            opt_levels: OptLevel::variants(),
            ltos: Lto::variants(),
            codegen_units: CodegenUnits::variants(),
            strips: Strip::variants(),
            panics: Panic::variants(),
            profiles: WasmOpt::variants(),
        };
        assert(space.opt_levels.len() * space.ltos.len() * space.codegen_units.len()
            * space.strips.len() * space.panics.len() == 72) by (nonlinear_arith)
            requires
                space.opt_levels.len() == 3,
                space.ltos.len() == 3,
                space.codegen_units.len() == 2,
                space.strips.len() == 2,
                space.panics.len() == 2,
        ;
        space
    }

    /// Counts the configuration points. `None` means that the count does not
    /// fit the machine's word.
    pub fn count(&self) -> (n: Option<usize>)
        ensures
            n == (if self.point_count() <= usize::MAX {
                Some(self.point_count() as usize)
            } else {
                None
            }),
    {
        let n1 = self.opt_levels.len();
        let n2 = self.ltos.len();
        let n3 = self.codegen_units.len();
        let n4 = self.strips.len();
        let n5 = self.panics.len();
        if n1 == 0 || n2 == 0 || n3 == 0 || n4 == 0 || n5 == 0 {
            assert(n1 * n2 * n3 * n4 * n5 == 0) by (nonlinear_arith)
                requires
                    n1 == 0 || n2 == 0 || n3 == 0 || n4 == 0 || n5 == 0,
            ;
            return Some(0);
        }
        proof {
            assert(n1 * n2 <= n1 * n2 * n3 <= n1 * n2 * n3 * n4 <= n1 * n2 * n3 * n4 * n5)
                by (nonlinear_arith)
                requires
                    n1 >= 1,
                    n2 >= 1,
                    n3 >= 1,
                    n4 >= 1,
                    n5 >= 1,
            ;
        }
        let p2 = match n1.checked_mul(n2) {
            Some(p) => p,
            None => {
                return None;
            },
        };
        let p3 = match p2.checked_mul(n3) {
            Some(p) => p,
            None => {
                return None;
            },
        };
        let p4 = match p3.checked_mul(n4) {
            Some(p) => p,
            None => {
                return None;
            },
        };
        p4.checked_mul(n5)
    }

    /// Returns point number `index`, or `None` where the space has no such
    /// point.
    pub fn point(&self, index: usize) -> (found: Option<ConfigPoint>)
        ensures
            found == (if index < self.point_count() {
                Some(self.point_at(index as nat))
            } else {
                None
            }),
    {
        let n1 = self.opt_levels.len();
        let n2 = self.ltos.len();
        let n3 = self.codegen_units.len();
        let n4 = self.strips.len();
        let n5 = self.panics.len();
        if n1 == 0 || n2 == 0 || n3 == 0 || n4 == 0 || n5 == 0 {
            assert(n1 * n2 * n3 * n4 * n5 == 0) by (nonlinear_arith)
                requires
                    n1 == 0 || n2 == 0 || n3 == 0 || n4 == 0 || n5 == 0,
            ;
            return None;
        }
        let e = index % n5;
        let r4 = index / n5;
        let d = r4 % n4;
        let r3 = r4 / n4;
        let c = r3 % n3;
        let r2 = r3 / n3;
        let b = r2 % n2;
        let a = r2 / n2;
        proof {
            lemma_quotient_bound(index as nat, (n1 * n2 * n3 * n4) as nat, n5 as nat);
            lemma_quotient_bound(r4 as nat, (n1 * n2 * n3) as nat, n4 as nat);
            lemma_quotient_bound(r3 as nat, (n1 * n2) as nat, n3 as nat);
            lemma_quotient_bound(r2 as nat, n1 as nat, n2 as nat);
        }
        if a >= n1 {
            return None;
        }
        Some(
            ConfigPoint {
                opt_level: self.opt_levels[a],
                lto: self.ltos[b],
                codegen_units: self.codegen_units[c],
                strip: self.strips[d],
                panic: self.panics[e],
            },
        )
    }

    /// Every point number below the count names a combination of positions
    /// within the dimensions, and is the number of that combination.
    pub proof fn lemma_point_has_positions(&self, k: nat)
        requires
            k < self.point_count(),
        ensures
            self.in_range(
                self.opt_digit(k),
                self.lto_digit(k),
                self.codegen_digit(k),
                self.strip_digit(k),
                self.panic_digit(k),
            ),
            self.index_of(
                self.opt_digit(k),
                self.lto_digit(k),
                self.codegen_digit(k),
                self.strip_digit(k),
                self.panic_digit(k),
            ) == k,
    {
        let n1 = self.opt_levels.len() as nat;
        let n2 = self.ltos.len() as nat;
        let n3 = self.codegen_units.len() as nat;
        let n4 = self.strips.len() as nat;
        let n5 = self.panics.len() as nat;
        assert(n1 > 0 && n2 > 0 && n3 > 0 && n4 > 0 && n5 > 0) by (nonlinear_arith)
            requires
                k < n1 * n2 * n3 * n4 * n5,
        ;
        let r4 = k / n5;
        let r3 = r4 / n4;
        let r2 = r3 / n3;
        let r1 = r2 / n2;
        lemma_quotient_bound(k, n1 * n2 * n3 * n4, n5);
        lemma_quotient_bound(r4, n1 * n2 * n3, n4);
        lemma_quotient_bound(r3, n1 * n2, n3);
        lemma_quotient_bound(r2, n1, n2);
        lemma_fundamental_div_mod(k as int, n5 as int);
        lemma_fundamental_div_mod(r4 as int, n4 as int);
        lemma_fundamental_div_mod(r3 as int, n3 as int);
        lemma_fundamental_div_mod(r2 as int, n2 as int);
        lemma_mod_bound(k as int, n5 as int);
        lemma_mod_bound(r4 as int, n4 as int);
        lemma_mod_bound(r3 as int, n3 as int);
        lemma_mod_bound(r2 as int, n2 as int);
        assert(r1 * n2 + r2 % n2 == r2) by (nonlinear_arith)
            requires
                r2 == n2 * (r2 / n2) + r2 % n2,
                r1 == r2 / n2,
        ;
        assert(r2 * n3 + r3 % n3 == r3) by (nonlinear_arith)
            requires
                r3 == n3 * (r3 / n3) + r3 % n3,
                r2 == r3 / n3,
        ;
        assert(r3 * n4 + r4 % n4 == r4) by (nonlinear_arith)
            requires
                r4 == n4 * (r4 / n4) + r4 % n4,
                r3 == r4 / n4,
        ;
        assert(r4 * n5 + k % n5 == k) by (nonlinear_arith)
            requires
                k == n5 * (k / n5) + k % n5,
                r4 == k / n5,
        ;
    }

    /// Every combination of positions within the dimensions has a number
    /// below the count, and the point of that number is the combination.
    pub proof fn lemma_combination_has_number(&self, a: nat, b: nat, c: nat, d: nat, e: nat)
        requires
            self.in_range(a, b, c, d, e),
        ensures
            self.index_of(a, b, c, d, e) < self.point_count(),
            self.opt_digit(self.index_of(a, b, c, d, e)) == a,
            self.lto_digit(self.index_of(a, b, c, d, e)) == b,
            self.codegen_digit(self.index_of(a, b, c, d, e)) == c,
            self.strip_digit(self.index_of(a, b, c, d, e)) == d,
            self.panic_digit(self.index_of(a, b, c, d, e)) == e,
            self.point_at(self.index_of(a, b, c, d, e)) == self.combination(a, b, c, d, e),
    {
        let n1 = self.opt_levels.len() as nat;
        let n2 = self.ltos.len() as nat;
        let n3 = self.codegen_units.len() as nat;
        let n4 = self.strips.len() as nat;
        let n5 = self.panics.len() as nat;
        let k2 = a * n2 + b;
        let k3 = k2 * n3 + c;
        let k4 = k3 * n4 + d;
        let k = k4 * n5 + e;
        assert(k == self.index_of(a, b, c, d, e));
        lemma_fundamental_div_mod_converse(k as int, n5 as int, k4 as int, e as int);
        lemma_fundamental_div_mod_converse(k4 as int, n4 as int, k3 as int, d as int);
        lemma_fundamental_div_mod_converse(k3 as int, n3 as int, k2 as int, c as int);
        lemma_fundamental_div_mod_converse(k2 as int, n2 as int, a as int, b as int);
        assert(k / n5 == k4);
        assert(k4 / n4 == k3);
        assert(k3 / n3 == k2);
        assert(k2 / n2 == a);
        lemma_quotient_bound(k, n1 * n2 * n3 * n4, n5);
        lemma_quotient_bound(k4, n1 * n2 * n3, n4);
        lemma_quotient_bound(k3, n1 * n2, n3);
        lemma_quotient_bound(k2, n1, n2);
    }
}

/// Whether `space` is the space of every variant of every dimension.
pub open spec fn is_full(space: ConfigSpace) -> bool {
    &&& space.opt_levels@ == OptLevel::all()
    &&& space.ltos@ == Lto::all()
    &&& space.codegen_units@ == CodegenUnits::all()
    &&& space.strips@ == Strip::all()
    &&& space.panics@ == Panic::all()
    &&& space.profiles@ == WasmOpt::all()
}

/// The points of the full space by number: the panic strategy alternates
/// from point to point, the stripping mode every two points, the code
/// generation units every four, the link-time optimisation mode every eight
/// and the optimisation level every twenty-four.
pub proof fn lemma_full_space_points(space: ConfigSpace, k: nat)
    requires
        is_full(space),
        k < 72,
    ensures
        space.point_count() == 72,
        space.point_at(k) == (ConfigPoint {
            opt_level: OptLevel::all()[k as int / 24],
            lto: Lto::all()[(k as int / 8) % 3],
            codegen_units: CodegenUnits::all()[(k as int / 4) % 2],
            strip: Strip::all()[(k as int / 2) % 2],
            panic: Panic::all()[k as int % 2],
        }),
{
    let n2 = space.ltos.len() as nat;
    let n3 = space.codegen_units.len() as nat;
    let n4 = space.strips.len() as nat;
    let n5 = space.panics.len() as nat;
    assert(space.opt_levels.len() == 3 && n2 == 3 && n3 == 2 && n4 == 2 && n5 == 2);
    assert(space.opt_levels.len() * space.ltos.len() * space.codegen_units.len()
        * space.strips.len() * space.panics.len() == 72) by (nonlinear_arith)
        requires
            space.opt_levels.len() == 3,
            space.ltos.len() == 3,
            space.codegen_units.len() == 2,
            space.strips.len() == 2,
            space.panics.len() == 2,
    ;
    let r4 = k / n5;
    let r3 = r4 / n4;
    let r2 = r3 / n3;
    let r1 = r2 / n2;
    assert(r4 == k / 2);
    assert(r3 == k / 4);
    assert(r2 == k / 8);
    assert(r1 == k / 24);
    assert(space.panic_digit(k) == k % 2);
    assert(space.strip_digit(k) == (k / 2) % 2);
    assert(space.codegen_digit(k) == (k / 4) % 2);
    assert(space.lto_digit(k) == (k / 8) % 3);
    assert(space.opt_digit(k) == k / 24);
}

/// Whether the positions `a` to `e` come before the positions `v` to `z` in
/// lexicographic order.
pub open spec fn comes_before(
    a: nat,
    b: nat,
    c: nat,
    d: nat,
    e: nat,
    v: nat,
    w: nat,
    x: nat,
    y: nat,
    z: nat,
) -> bool {
    a < v || (a == v && (b < w || (b == w && (c < x || (c == x && (d < y || (d == y && e
        < z)))))))
}

/// One more digit keeps the order: of two numbers, the smaller stays the
/// smaller when each gets a further digit below the radix, and equal numbers
/// are ordered by the new digit.
proof fn lemma_digit_keeps_order(high: nat, low: nat, other_high: nat, other_low: nat, radix: nat)
    requires
        low < radix,
        other_low < radix,
        high < other_high || (high == other_high && low < other_low),
    ensures
        high * radix + low < other_high * radix + other_low,
{
    if high < other_high {
        assert(high * radix + radix <= other_high * radix) by (nonlinear_arith)
            requires
                high + 1 <= other_high,
        ;
    }
}

impl ConfigSpace {
    /// The points are numbered in lexicographic order of their variants'
    /// positions, the optimisation level first: a combination that comes
    /// before another has the smaller number.
    pub proof fn lemma_numbers_follow_order(
        &self,
        a: nat,
        b: nat,
        c: nat,
        d: nat,
        e: nat,
        v: nat,
        w: nat,
        x: nat,
        y: nat,
        z: nat,
    )
        requires
            self.in_range(a, b, c, d, e),
            self.in_range(v, w, x, y, z),
            comes_before(a, b, c, d, e, v, w, x, y, z),
        ensures
            self.index_of(a, b, c, d, e) < self.index_of(v, w, x, y, z),
    {
        let n2 = self.ltos.len() as nat;
        let n3 = self.codegen_units.len() as nat;
        let n4 = self.strips.len() as nat;
        let n5 = self.panics.len() as nat;
        let k2 = a * n2 + b;
        let l2 = v * n2 + w;
        let k3 = k2 * n3 + c;
        let l3 = l2 * n3 + x;
        let k4 = k3 * n4 + d;
        let l4 = l3 * n4 + y;
        if a < v || (a == v && b < w) {
            lemma_digit_keeps_order(a, b, v, w, n2);
        }
        if k2 < l2 || (k2 == l2 && c < x) {
            lemma_digit_keeps_order(k2, c, l2, x, n3);
        }
        if k3 < l3 || (k3 == l3 && d < y) {
            lemma_digit_keeps_order(k3, d, l3, y, n4);
        }
        lemma_digit_keeps_order(k4, e, l4, z, n5);
    }
}

} // verus!
