//! The key-rotation (blinding) arithmetic.
//!
//! Ownership of a chain moves from owner 1 (share `o1`) to owner 2 (share
//! `o2`) while the entity's share moves from `s1` to `s2`, such that the
//! joint key `o1 * s1` — and with it the joint public point — is unchanged:
//! the sender computes `t1 = o1 * x1 * o2^-1` under the blinding nonce `x1`,
//! and the entity adopts `s2 = t1 * x1^-1 * s1`.

use vstd::prelude::*;
use vstd::arithmetic::div_mod::lemma_mul_mod_noop_general;
use crate::errors::SeError;
use crate::field::Scalar;
use crate::field::ScalarField;
use crate::field::mul_mod;

verus! {

/// Law: rotation preserves the joint key.  For any modulus `m > 1` and any
/// residues, if `io2` inverts `o2`, `ix1` inverts `x1`,
/// `t1 = (o1 * x1) * io2` and `s2 = (t1 * ix1) * s1` (all products reduced
/// modulo `m`), then `o2 * s2 == o1 * s1` modulo `m`.
pub proof fn lemma_rotation_invariant(
    m: nat,
    o1: nat,
    s1: nat,
    o2: nat,
    x1: nat,
    io2: nat,
    ix1: nat,
    t1: nat,
    s2: nat,
)
    requires
        m > 1,
        o1 < m,
        s1 < m,
        mul_mod(o2, io2, m) == 1,
        mul_mod(x1, ix1, m) == 1,
        t1 == mul_mod(mul_mod(o1, x1, m), io2, m),
        s2 == mul_mod(mul_mod(t1, ix1, m), s1, m),
    ensures
        mul_mod(o2, s2, m) == mul_mod(o1, s1, m),
{
    let mi = m as int;
    let o1i = o1 as int;
    let s1i = s1 as int;
    let o2i = o2 as int;
    let x1i = x1 as int;
    let io2i = io2 as int;
    let ix1i = ix1 as int;
    let t1i = t1 as int;
    let s2i = s2 as int;
    // Collapse the nested reductions of s2 into one product modulo m.
    assert((o2i * s2i) % mi == (o2i * (((t1i * ix1i) % mi) * s1i)) % mi) by {
        lemma_mul_mod_noop_general(o2i, ((t1i * ix1i) % mi) * s1i, mi);
        assert(s2i == (((t1i * ix1i) % mi) * s1i) % mi);
    }
    assert((o2i * (((t1i * ix1i) % mi) * s1i)) % mi == (o2i * ((t1i * ix1i) * s1i)) % mi) by {
        assert((o2i * (((t1i * ix1i) % mi) * s1i)) == (((t1i * ix1i) % mi) * (o2i * s1i)))
            by (nonlinear_arith);
        assert((o2i * ((t1i * ix1i) * s1i)) == ((t1i * ix1i) * (o2i * s1i))) by (nonlinear_arith);
        lemma_mul_mod_noop_general(t1i * ix1i, o2i * s1i, mi);
    }
    // Collapse the nested reductions of t1 as well.
    let u = (o1i * x1i) * io2i;
    assert((o2i * ((t1i * ix1i) * s1i)) % mi == (o2i * ((u * ix1i) * s1i)) % mi) by {
        assert(t1i == ((((o1i * x1i) % mi) * io2i) % mi));
        assert((((o1i * x1i) % mi) * io2i) % mi == ((o1i * x1i) * io2i) % mi) by {
            lemma_mul_mod_noop_general(o1i * x1i, io2i, mi);
        }
        assert(o2i * ((t1i * ix1i) * s1i) == t1i * (ix1i * (o2i * s1i))) by (nonlinear_arith);
        assert(o2i * ((u * ix1i) * s1i) == u * (ix1i * (o2i * s1i))) by (nonlinear_arith);
        lemma_mul_mod_noop_general(u, ix1i * (o2i * s1i), mi);
        assert(((u % mi) * (ix1i * (o2i * s1i))) % mi == (u * (ix1i * (o2i * s1i))) % mi);
        assert(t1i == u % mi);
    }
    // Rearrange the flat product so the inverse pairs stand together.
    let a = o2i * io2i;
    let b = x1i * ix1i;
    let c = o1i * s1i;
    assert(u * ix1i == (o1i * io2i) * b) by (nonlinear_arith)
        requires
            u == (o1i * x1i) * io2i,
            b == x1i * ix1i,
    ;
    assert(o2i * (((o1i * io2i) * b) * s1i) == (c * io2i) * (o2i * b)) by (nonlinear_arith)
        requires
            c == o1i * s1i,
    ;
    assert((c * io2i) * (o2i * b) == c * (a * b)) by (nonlinear_arith)
        requires
            a == o2i * io2i,
    ;
    assert(o2i * ((u * ix1i) * s1i) == (o1i * s1i) * (a * b));
    // Each inverse pair contributes a factor congruent to 1.
    assert(((o1i * s1i) * (a * b)) % mi == (o1i * s1i) % mi) by {
        lemma_mul_mod_noop_general(a, b, mi);
        assert((a * b) % mi == ((a % mi) * (b % mi)) % mi);
        assert((a % mi) == 1 && (b % mi) == 1);
        assert(((a % mi) * (b % mi)) % mi == 1int % mi);
        assert(1int % mi == 1);
        lemma_mul_mod_noop_general(o1i * s1i, a * b, mi);
        assert(((o1i * s1i) * ((a * b) % mi)) % mi == ((o1i * s1i) * (a * b)) % mi);
        assert((o1i * s1i) * 1 == o1i * s1i) by (nonlinear_arith);
    }
    // The right-hand side needs no reduction of its factors.
    assert((o1i * s1i) % mi == mul_mod(o1, s1, m));
}

/// The sender's blinding value `t1 = o1 * x1 * o2^-1`.
///
/// Succeeds exactly when `o2` has an inverse — in a prime field, whenever
/// `o2` is nonzero modulo it — and fails with `CryptoError` otherwise.
pub fn compute_t1(field: &ScalarField, o1: Scalar, x1: Scalar, o2: Scalar) -> (r: Result<
    Scalar,
    SeError,
>)
    requires
        field.wf(),
    ensures
        r matches Ok(t1) ==> {
            &&& field.in_field(t1)
            &&& exists|io2: nat|
                mul_mod(o2.v as nat, io2, field.modulus as nat) == 1 && t1.v == mul_mod(
                    mul_mod(o1.v as nat, x1.v as nat, field.modulus as nat),
                    io2,
                    field.modulus as nat,
                )
        },
        r matches Err(e) ==> e is CryptoError,
        r is Ok <==> field.invertible(o2),
        o2.v % field.modulus == 0 ==> (r matches Err(e) && e is CryptoError),
{
    match field.invert(o2) {
        Some(io2) => {
            let t1 = field.mul(field.mul(o1, x1), io2);
            proof {
                assert(mul_mod(o2.v as nat, io2.v as nat, field.modulus as nat) == 1);
            }
            Ok(t1)
        },
        None => Err(SeError::CryptoError),
    }
}

/// The entity's new share `s2 = t1 * x1^-1 * s1`.
///
/// Succeeds exactly when `x1` has an inverse — in a prime field, whenever
/// `x1` is nonzero modulo it — and fails with `CryptoError` otherwise.
pub fn compute_s2(field: &ScalarField, t1: Scalar, x1: Scalar, s1: Scalar) -> (r: Result<
    Scalar,
    SeError,
>)
    requires
        field.wf(),
    ensures
        r matches Ok(s2) ==> {
            &&& field.in_field(s2)
            &&& exists|ix1: nat|
                mul_mod(x1.v as nat, ix1, field.modulus as nat) == 1 && s2.v == mul_mod(
                    mul_mod(t1.v as nat, ix1, field.modulus as nat),
                    s1.v as nat,
                    field.modulus as nat,
                )
        },
        r matches Err(e) ==> e is CryptoError,
        r is Ok <==> field.invertible(x1),
        x1.v % field.modulus == 0 ==> (r matches Err(e) && e is CryptoError),
{
    match field.invert(x1) {
        Some(ix1) => {
            let s2 = field.mul(field.mul(t1, ix1), s1);
            Ok(s2)
        },
        None => Err(SeError::CryptoError),
    }
}

/// One whole rotation: from the shares of owner 1 and the entity, the share
/// of owner 2 and the blinding nonce, compute the blinding value `t1` and
/// the entity's new share `s2`.  It succeeds exactly when `o2` and `x1`
/// both have inverses, and on success the joint key is preserved:
/// `o2 * s2 == o1 * s1` in the field.
pub fn rotate(field: &ScalarField, o1: Scalar, s1: Scalar, o2: Scalar, x1: Scalar) -> (r: Result<
    (Scalar, Scalar),
    SeError,
>)
    requires
        field.wf(),
        field.in_field(o1),
        field.in_field(s1),
    ensures
        r matches Ok(p) ==> {
            &&& field.in_field(p.0)
            &&& field.in_field(p.1)
            &&& mul_mod(o2.v as nat, p.1.v as nat, field.modulus as nat) == mul_mod(
                o1.v as nat,
                s1.v as nat,
                field.modulus as nat,
            )
        },
        r matches Err(e) ==> e is CryptoError,
        r is Ok <==> (field.invertible(o2) && field.invertible(x1)),
{
    let t1 = compute_t1(field, o1, x1, o2)?;
    let s2 = compute_s2(field, t1, x1, s1)?;
    proof {
        let m = field.modulus as nat;
        let io2 = choose|io2: nat|
            mul_mod(o2.v as nat, io2, m) == 1 && t1.v == mul_mod(
                mul_mod(o1.v as nat, x1.v as nat, m),
                io2,
                m,
            );
        let ix1 = choose|ix1: nat|
            mul_mod(x1.v as nat, ix1, m) == 1 && s2.v == mul_mod(
                mul_mod(t1.v as nat, ix1, m),
                s1.v as nat,
                m,
            );
        lemma_rotation_invariant(
            m,
            o1.v as nat,
            s1.v as nat,
            o2.v as nat,
            x1.v as nat,
            io2,
            ix1,
            t1.v as nat,
            s2.v as nat,
        );
    }
    Ok((t1, s2))
}

} // verus!
