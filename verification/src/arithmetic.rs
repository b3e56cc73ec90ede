use vstd::prelude::*;
use vstd::arithmetic::div_mod::lemma_fundamental_div_mod;
use vstd::arithmetic::div_mod::lemma_fundamental_div_mod_converse;
use vstd::arithmetic::div_mod::lemma_div_is_ordered;
use crate::MAX_BASIS_POINTS;

verus! {

/// The radix of the limb representation: two to the sixty-fourth power.
pub open spec fn limb_base() -> nat {
    0x10000000000000000
}

/// An unsigned 256-bit amount, held as four 64-bit limbs, least
/// significant limb first. Sale prices and royalty payments are amounts
/// of the chain's currency in its smallest unit.
#[derive(Clone, Copy, Debug, PartialEq, Eq, Structural)]
pub struct U256 {
    pub l0: u64,
    pub l1: u64,
    pub l2: u64,
    pub l3: u64,
}

impl U256 {
    /// The number this amount stands for.
    pub open spec fn value(self) -> nat {
        (self.l0 as nat) + (self.l1 as nat) * limb_base() + (self.l2 as nat) * limb_base()
            * limb_base() + (self.l3 as nat) * limb_base() * limb_base() * limb_base()
    }

    /// An amount small enough to fit one limb.
    pub fn from_u64(n: u64) -> (r: U256)
        ensures
            r.value() == n,
    {
        U256 { l0: n, l1: 0, l2: 0, l3: 0 }
    }

    /// An amount given limb by limb, least significant first.
    pub fn from_limbs(l0: u64, l1: u64, l2: u64, l3: u64) -> (r: U256)
        ensures
            r == (U256 { l0, l1, l2, l3 }),
    {
        U256 { l0, l1, l2, l3 }
    }
}

/// The royalty payment owed on a sale: `floor(sale_price * fee / 10000)`,
/// with a wide intermediate so the product cannot overflow and truncating
/// division as the rounding mode. The payment never exceeds the price.
pub fn compute_royalty(fee_basis_points: u16, sale_price: U256) -> (r: U256)
    requires
        fee_basis_points <= MAX_BASIS_POINTS,
    ensures
        r.value() == (sale_price.value() * (fee_basis_points as nat)) / 10000,
        r.value() <= sale_price.value(),
{
    let f: u128 = fee_basis_points as u128;
    let ghost ff: int = f as int;
    let ghost bb: int = 0x10000000000000000;
    let ghost li0: int = sale_price.l0 as int;
    let ghost li1: int = sale_price.l1 as int;
    let ghost li2: int = sale_price.l2 as int;
    let ghost li3: int = sale_price.l3 as int;

    // Widening multiply: each limb times the fee, with the carry folded
    // into the next limb. The carry never exceeds the fee.
    assert(li0 * ff <= 0xffffffffffffffff * 10000) by (nonlinear_arith)
        requires
            0 <= li0 <= 0xffffffffffffffff,
            0 <= ff <= 10000,
    ;
    let p0: u128 = (sale_price.l0 as u128) * f;
    let m0: u64 = (p0 % 0x10000000000000000u128) as u64;
    let c1: u64 = (p0 / 0x10000000000000000u128) as u64;
    assert(li1 * ff <= 0xffffffffffffffff * 10000) by (nonlinear_arith)
        requires
            0 <= li1 <= 0xffffffffffffffff,
            0 <= ff <= 10000,
    ;
    let p1: u128 = (sale_price.l1 as u128) * f + (c1 as u128);
    let m1: u64 = (p1 % 0x10000000000000000u128) as u64;
    let c2: u64 = (p1 / 0x10000000000000000u128) as u64;
    assert(li2 * ff <= 0xffffffffffffffff * 10000) by (nonlinear_arith)
        requires
            0 <= li2 <= 0xffffffffffffffff,
            0 <= ff <= 10000,
    ;
    let p2: u128 = (sale_price.l2 as u128) * f + (c2 as u128);
    let m2: u64 = (p2 % 0x10000000000000000u128) as u64;
    let c3: u64 = (p2 / 0x10000000000000000u128) as u64;
    assert(li3 * ff <= 0xffffffffffffffff * 10000) by (nonlinear_arith)
        requires
            0 <= li3 <= 0xffffffffffffffff,
            0 <= ff <= 10000,
    ;
    let p3: u128 = (sale_price.l3 as u128) * f + (c3 as u128);
    let m3: u64 = (p3 % 0x10000000000000000u128) as u64;
    let c4: u64 = (p3 / 0x10000000000000000u128) as u64;

    let ghost mm0: int = m0 as int;
    let ghost mm1: int = m1 as int;
    let ghost mm2: int = m2 as int;
    let ghost mm3: int = m3 as int;
    let ghost cc4: int = c4 as int;
    let ghost vv: int = sale_price.value() as int;
    let ghost dd: int = vv * ff;

    let ghost b4: int = bb * bb * bb * bb;
    let ghost g0: int = li0 * ff;
    let ghost g1: int = li1 * ff;
    let ghost g2: int = li2 * ff;
    let ghost g3: int = li3 * ff;

    proof {
        lemma_fundamental_div_mod(p0 as int, bb);
        lemma_fundamental_div_mod(p1 as int, bb);
        lemma_fundamental_div_mod(p2 as int, bb);
        lemma_fundamental_div_mod(p3 as int, bb);
        assert(vv * ff == g0 + g1 * bb + g2 * bb * bb + g3 * bb * bb * bb) by (nonlinear_arith)
            requires
                g0 == li0 * ff,
                g1 == li1 * ff,
                g2 == li2 * ff,
                g3 == li3 * ff,
                vv == li0 + li1 * bb + li2 * bb * bb + li3 * bb * bb * bb,
        ;
        assert(g0 + g1 * bb + g2 * bb * bb + g3 * bb * bb * bb == mm0 + mm1 * bb + mm2 * bb * bb
            + mm3 * bb * bb * bb + cc4 * (bb * bb * bb * bb)) by (nonlinear_arith)
            requires
                g0 == mm0 + (c1 as int) * bb,
                g1 + (c1 as int) == mm1 + (c2 as int) * bb,
                g2 + (c2 as int) == mm2 + (c3 as int) * bb,
                g3 + (c3 as int) == mm3 + cc4 * bb,
        ;
        assert(dd == mm0 + mm1 * bb + mm2 * bb * bb + mm3 * bb * bb * bb + cc4 * b4);
        // The top carry is below the divisor, so the quotient keeps to
        // four limbs.
        assert(vv <= b4 - 1) by (nonlinear_arith)
            requires
                b4 == bb * bb * bb * bb,
                0 <= li0 <= bb - 1,
                0 <= li1 <= bb - 1,
                0 <= li2 <= bb - 1,
                0 <= li3 <= bb - 1,
                2 <= bb,
                vv == li0 + li1 * bb + li2 * bb * bb + li3 * bb * bb * bb,
        ;
        assert(dd <= (b4 - 1) * 10000) by (nonlinear_arith)
            requires
                dd == vv * ff,
                0 <= ff <= 10000,
                0 <= vv <= b4 - 1,
        ;
        assert(cc4 < 10000) by (nonlinear_arith)
            requires
                dd == mm0 + mm1 * bb + mm2 * bb * bb + mm3 * bb * bb * bb + cc4 * b4,
                dd <= (b4 - 1) * 10000,
                0 <= mm0,
                0 <= mm1,
                0 <= mm2,
                0 <= mm3,
                0 <= cc4,
                2 <= bb,
                b4 == bb * bb * bb * bb,
        ;
    }

    // Long division of the five-limb intermediate by 10000, from the most
    // significant limb down; each partial remainder stays below 10000.
    let t3: u128 = (c4 as u128) * 0x10000000000000000u128 + (m3 as u128);
    let q3: u64 = (t3 / 10000) as u64;
    let r3: u64 = (t3 % 10000) as u64;
    proof {
        assert(t3 as int <= 10000 * bb - 1);
        lemma_div_is_ordered(t3 as int, 10000 * bb - 1, 10000);
        lemma_fundamental_div_mod_converse(10000 * bb - 1, 10000, bb - 1, 9999);
    }
    let t2: u128 = (r3 as u128) * 0x10000000000000000u128 + (m2 as u128);
    let q2: u64 = (t2 / 10000) as u64;
    let r2: u64 = (t2 % 10000) as u64;
    proof {
        assert(t2 as int <= 10000 * bb - 1);
        lemma_div_is_ordered(t2 as int, 10000 * bb - 1, 10000);
        lemma_fundamental_div_mod_converse(10000 * bb - 1, 10000, bb - 1, 9999);
    }
    let t1: u128 = (r2 as u128) * 0x10000000000000000u128 + (m1 as u128);
    let q1: u64 = (t1 / 10000) as u64;
    let r1: u64 = (t1 % 10000) as u64;
    proof {
        assert(t1 as int <= 10000 * bb - 1);
        lemma_div_is_ordered(t1 as int, 10000 * bb - 1, 10000);
        lemma_fundamental_div_mod_converse(10000 * bb - 1, 10000, bb - 1, 9999);
    }
    let t0: u128 = (r1 as u128) * 0x10000000000000000u128 + (m0 as u128);
    let q0: u64 = (t0 / 10000) as u64;
    let r0: u64 = (t0 % 10000) as u64;
    proof {
        assert(t0 as int <= 10000 * bb - 1);
        lemma_div_is_ordered(t0 as int, 10000 * bb - 1, 10000);
        lemma_fundamental_div_mod_converse(10000 * bb - 1, 10000, bb - 1, 9999);
    }

    let r = U256 { l0: q0, l1: q1, l2: q2, l3: q3 };
    proof {
        let qq: int = (q0 as int) + (q1 as int) * bb + (q2 as int) * bb * bb + (q3 as int) * bb
            * bb * bb;
        lemma_fundamental_div_mod(t3 as int, 10000);
        lemma_fundamental_div_mod(t2 as int, 10000);
        lemma_fundamental_div_mod(t1 as int, 10000);
        lemma_fundamental_div_mod(t0 as int, 10000);
        // Horner evaluation of the five-limb intermediate, to fold the
        // quotient limbs in one at a time.
        let hh3: int = cc4 * bb + mm3;
        let hh2: int = hh3 * bb + mm2;
        let hh1: int = hh2 * bb + mm1;
        let hh0: int = hh1 * bb + mm0;
        assert(dd == hh0) by (nonlinear_arith)
            requires
                dd == mm0 + mm1 * bb + mm2 * bb * bb + mm3 * bb * bb * bb + cc4 * b4,
                b4 == bb * bb * bb * bb,
                hh3 == cc4 * bb + mm3,
                hh2 == hh3 * bb + mm2,
                hh1 == hh2 * bb + mm1,
                hh0 == hh1 * bb + mm0,
        ;
        assert(hh2 == ((q3 as int) * bb + (q2 as int)) * 10000 + (r2 as int))
            by (nonlinear_arith)
            requires
                hh2 == hh3 * bb + mm2,
                hh3 == (q3 as int) * 10000 + (r3 as int),
                t2 as int == (r3 as int) * bb + mm2,
                t2 as int == (q2 as int) * 10000 + (r2 as int),
        ;
        assert(hh1 == (((q3 as int) * bb + (q2 as int)) * bb + (q1 as int)) * 10000 + (
        r1 as int)) by (nonlinear_arith)
            requires
                hh1 == hh2 * bb + mm1,
                hh2 == ((q3 as int) * bb + (q2 as int)) * 10000 + (r2 as int),
                t1 as int == (r2 as int) * bb + mm1,
                t1 as int == (q1 as int) * 10000 + (r1 as int),
        ;
        assert(hh0 == ((((q3 as int) * bb + (q2 as int)) * bb + (q1 as int)) * bb + (q0 as int))
            * 10000 + (r0 as int)) by (nonlinear_arith)
            requires
                hh0 == hh1 * bb + mm0,
                hh1 == (((q3 as int) * bb + (q2 as int)) * bb + (q1 as int)) * 10000 + (
                r1 as int),
                t0 as int == (r1 as int) * bb + mm0,
                t0 as int == (q0 as int) * 10000 + (r0 as int),
        ;
        assert(qq == (((q3 as int) * bb + (q2 as int)) * bb + (q1 as int)) * bb + (q0 as int))
            by (nonlinear_arith)
            requires
                qq == (q0 as int) + (q1 as int) * bb + (q2 as int) * bb * bb + (q3 as int) * bb
                    * bb * bb,
        ;
        lemma_fundamental_div_mod_converse(dd, 10000, qq, r0 as int);
        assert(r.value() as int == qq);
        // The payment never exceeds the price: the fee is at most one
        // hundred percent.
        assert(dd <= vv * 10000) by (nonlinear_arith)
            requires
                dd == vv * ff,
                0 <= vv,
                0 <= ff <= 10000,
        ;
        lemma_div_is_ordered(dd, vv * 10000, 10000);
        lemma_fundamental_div_mod_converse(vv * 10000, 10000, vv, 0);
    }
    r
}

} // verus!
