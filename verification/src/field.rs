//! Scalar arithmetic over a prime field.
//!
//! A [`Scalar`] is a residue modulo the modulus of a [`ScalarField`].  The
//! rotation protocol only needs multiplication and multiplicative inverses;
//! inverses come from the extended Euclidean algorithm, whose contract is
//! exact in both directions: an inverse is returned if and only if one
//! exists — for a prime modulus, for every scalar nonzero modulo it.
//!
//! Residues are machine words, so the modulus must fit in a `u64`; a curve
//! whose group order is wider (such as a 256-bit curve) would back the same
//! contracts with a wider scalar representation.

use vstd::prelude::*;
use vstd::arithmetic::div_mod::lemma_fundamental_div_mod;
use vstd::arithmetic::div_mod::lemma_mod_add_multiples_vanish;
use vstd::arithmetic::div_mod::lemma_mod_multiples_vanish;
use vstd::arithmetic::div_mod::lemma_mul_mod_noop_general;
use vstd::arithmetic::div_mod::lemma_small_mod;
use vstd::arithmetic::div_mod::lemma_sub_mod_noop;

verus! {

/// A residue modulo the field modulus.
#[derive(Clone, Copy, Debug, PartialEq, Eq, Structural)]
pub struct Scalar {
    pub v: u64,
}

/// The prime scalar field, described by its modulus.
#[derive(Clone, Copy, Debug, PartialEq, Eq, Structural)]
pub struct ScalarField {
    pub modulus: u64,
}

/// The product of two residues, reduced modulo `m`.
pub open spec fn mul_mod(a: nat, b: nat, m: nat) -> nat
    recommends
        m > 1,
{
    (a * b) % m
}

impl ScalarField {
    /// A field needs a modulus that leaves room for the residues 0 and 1.
    pub open spec fn wf(self) -> bool {
        self.modulus > 1
    }

    /// Whether `s` is a reduced residue of this field.
    pub open spec fn in_field(self, s: Scalar) -> bool {
        s.v < self.modulus
    }

    pub fn new(modulus: u64) -> (r: Option<ScalarField>)
        ensures
            r matches Some(f) ==> f.wf() && f.modulus == modulus,
            modulus > 1 <==> r is Some,
    {
        if modulus > 1 {
            Some(ScalarField { modulus })
        } else {
            None
        }
    }

    /// Reduce an arbitrary machine word into the field.
    pub fn reduce(&self, x: u64) -> (r: Scalar)
        requires
            self.wf(),
        ensures
            self.in_field(r),
            r.v == x % self.modulus,
    {
        Scalar { v: x % self.modulus }
    }

    /// Field multiplication.
    pub fn mul(&self, a: Scalar, b: Scalar) -> (r: Scalar)
        requires
            self.wf(),
        ensures
            self.in_field(r),
            r.v == mul_mod(a.v as nat, b.v as nat, self.modulus as nat),
    {
        proof {
            assert(a.v as int * b.v as int <= (u64::MAX as int) * (u64::MAX as int))
                by (nonlinear_arith)
                requires
                    a.v <= u64::MAX,
                    b.v <= u64::MAX,
            ;
        }
        let p: u128 = self.modulus as u128;
        let prod: u128 = (a.v as u128) * (b.v as u128);
        let red: u128 = prod % p;
        proof {
            assert(prod == a.v * b.v);
            assert(red == (a.v * b.v) % (self.modulus as int));
            assert(red < p);
        }
        Scalar { v: red as u64 }
    }

    /// Whether `s` has a multiplicative inverse in this field.
    pub open spec fn invertible(self, s: Scalar) -> bool {
        exists|b: nat| mul_mod(s.v as nat, b, self.modulus as nat) == 1
    }

    /// Multiplicative inverse, by the extended Euclidean algorithm.
    /// Succeeds exactly when an inverse exists — for a prime modulus, on
    /// every scalar that is nonzero modulo it.
    ///
    /// The loop carries the Bezout coefficients of the two remainders both
    /// ways: each remainder is a combination of the modulus and `a`, which
    /// yields the inverse when the last nonzero remainder is 1, and the
    /// modulus and `a` are multiples of that remainder, which refutes every
    /// candidate inverse when it is not.
    pub fn invert(&self, a: Scalar) -> (r: Option<Scalar>)
        requires
            self.wf(),
        ensures
            r matches Some(b) ==> self.in_field(b) && mul_mod(
                a.v as nat,
                b.v as nat,
                self.modulus as nat,
            ) == 1,
            r is Some <==> self.invertible(a),
            a.v % self.modulus == 0 ==> r is None,
    {
        let m: u64 = self.modulus;
        let ghost mi = m as int;
        let ghost av = a.v as int;
        let mut r0: u64 = m;
        let mut r1: u64 = a.v % m;
        // The remainders as combinations of the modulus and a.
        let ghost mut s0: int = 1;
        let ghost mut t0: int = 0;
        let ghost mut s1: int = -(av / mi);
        let ghost mut t1: int = 1;
        // The modulus and a as combinations of the remainders.
        let ghost mut u00: int = 1;
        let ghost mut u01: int = 0;
        let ghost mut u10: int = av / mi;
        let ghost mut u11: int = 1;
        // The t coefficients reduced into the field.
        let mut t0e: u64 = 0;
        let mut t1e: u64 = 1 % m;
        proof {
            lemma_fundamental_div_mod(av, mi);
            assert(r1 as int == s1 * mi + t1 * av) by (nonlinear_arith)
                requires
                    av == mi * (av / mi) + av % mi,
                    r1 as int == av % mi,
                    s1 == -(av / mi),
                    t1 == 1,
            ;
            assert(av == u10 * (r0 as int) + u11 * (r1 as int)) by (nonlinear_arith)
                requires
                    av == mi * (av / mi) + av % mi,
                    r0 as int == mi,
                    r1 as int == av % mi,
                    u10 == av / mi,
                    u11 == 1,
            ;
            lemma_small_mod(0, m as nat);
            lemma_small_mod(1, m as nat);
        }
        while r1 != 0
            invariant
                m == self.modulus,
                m > 1,
                mi == m as int,
                av == a.v as int,
                r0 >= 1,
                r0 as int == s0 * mi + t0 * av,
                r1 as int == s1 * mi + t1 * av,
                mi == u00 * (r0 as int) + u01 * (r1 as int),
                av == u10 * (r0 as int) + u11 * (r1 as int),
                t0e < m,
                t1e < m,
                t0e as int == t0 % mi,
                t1e as int == t1 % mi,
            decreases r1,
        {
            let q: u64 = r0 / r1;
            let r2: u64 = r0 % r1;
            let ghost qi = q as int;
            let ghost s2 = s0 - qi * s1;
            let ghost t2 = t0 - qi * t1;
            proof {
                lemma_fundamental_div_mod(r0 as int, r1 as int);
                assert(r2 as int == s2 * mi + t2 * av) by (nonlinear_arith)
                    requires
                        r0 as int == s0 * mi + t0 * av,
                        r1 as int == s1 * mi + t1 * av,
                        r0 as int == (r1 as int) * qi + (r2 as int),
                        s2 == s0 - qi * s1,
                        t2 == t0 - qi * t1,
                ;
                assert(mi == (u00 * qi + u01) * (r1 as int) + u00 * (r2 as int))
                    by (nonlinear_arith)
                    requires
                        mi == u00 * (r0 as int) + u01 * (r1 as int),
                        r0 as int == (r1 as int) * qi + (r2 as int),
                ;
                assert(av == (u10 * qi + u11) * (r1 as int) + u10 * (r2 as int))
                    by (nonlinear_arith)
                    requires
                        av == u10 * (r0 as int) + u11 * (r1 as int),
                        r0 as int == (r1 as int) * qi + (r2 as int),
                ;
            }
            let qm: u64 = q % m;
            proof {
                assert((qm as int) * (t1e as int) <= (u64::MAX as int) * (u64::MAX as int))
                    by (nonlinear_arith)
                    requires
                        qm <= u64::MAX,
                        t1e <= u64::MAX,
                ;
            }
            let w: u64 = (((qm as u128) * (t1e as u128)) % (m as u128)) as u64;
            let t2e: u64 = (((t0e as u128) + (m as u128) - (w as u128)) % (m as u128)) as u64;
            proof {
                lemma_mul_mod_noop_general(qi, t1, mi);
                assert(w as int == (qi * t1) % mi);
                lemma_sub_mod_noop(t0, qi * t1, mi);
                lemma_mod_add_multiples_vanish((t0e as int) - (w as int), mi);
                assert(t2e as int == t2 % mi);
            }
            r0 = r1;
            r1 = r2;
            t0e = t1e;
            t1e = t2e;
            proof {
                s0 = s1;
                t0 = t1;
                s1 = s2;
                t1 = t2;
                let u00n = u00 * qi + u01;
                u01 = u00;
                u00 = u00n;
                let u10n = u10 * qi + u11;
                u11 = u10;
                u10 = u10n;
            }
        }
        if r0 == 1 {
            proof {
                assert(av * t0 == mi * (-s0) + 1) by (nonlinear_arith)
                    requires
                        (r0 as int) == s0 * mi + t0 * av,
                        r0 == 1,
                ;
                lemma_mod_multiples_vanish(-s0, 1, mi);
                lemma_small_mod(1, m as nat);
                assert((av * t0) % mi == 1);
                lemma_mul_mod_noop_general(av, t0, mi);
                assert((av * (t0e as int)) % mi == 1);
                if av % mi == 0 {
                    lemma_mul_mod_noop_general(av, t0e as int, mi);
                    assert((av % mi) * (t0e as int) == 0) by (nonlinear_arith)
                        requires
                            av % mi == 0,
                    ;
                    lemma_small_mod(0, m as nat);
                    assert(false);
                }
                assert(mul_mod(a.v as nat, t0e as nat, m as nat) == 1);
            }
            Some(Scalar { v: t0e })
        } else {
            proof {
                let g = r0 as int;
                assert(mi == u00 * g);
                assert(av == u10 * g);
                assert forall|b: nat| mul_mod(a.v as nat, b, self.modulus as nat) != 1 by {
                    if mul_mod(a.v as nat, b, self.modulus as nat) == 1 {
                        assert((av * b) % mi == 1);
                        lemma_fundamental_div_mod(av * b, mi);
                        let qq = (av * b) / mi;
                        let k = u10 * b - u00 * qq;
                        assert(g * k == 1) by (nonlinear_arith)
                            requires
                                av == u10 * g,
                                mi == u00 * g,
                                av * b == mi * qq + (1 as int),
                                k == u10 * b - u00 * qq,
                        ;
                        if k >= 1 {
                            assert(g * k >= 2) by (nonlinear_arith)
                                requires
                                    g >= 2,
                                    k >= 1,
                            ;
                        } else {
                            assert(g * k <= 0) by (nonlinear_arith)
                                requires
                                    g >= 0,
                                    k <= 0,
                            ;
                        }
                        assert(false);
                    }
                }
            }
            None
        }
    }
}

} // verus!
