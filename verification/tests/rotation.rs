//! Tests of the scalar field and the key-rotation arithmetic.

use statechain::Scalar;
use statechain::ScalarField;
use statechain::SeError;
use statechain::compute_s2;
use statechain::compute_t1;
use statechain::rotate;

fn field(p: u64) -> ScalarField {
    ScalarField::new(p).unwrap()
}

fn nonzero_scalar(f: &ScalarField) -> Scalar {
    loop {
        let s = f.reduce(rand::random::<u64>());
        if s.v != 0 {
            return s;
        }
    }
}

#[test]
fn math() {
    // A large prime scalar field.
    let f = field(2305843009213693951);

    // owner1 share
    let o1_s = nonzero_scalar(&f);

    // entity share
    let s1_s = nonzero_scalar(&f);

    // deposit P (the scalar part of the joint key)
    let p_p = f.mul(o1_s, s1_s);
    println!("P1: {:?}", p_p);

    // transfer: entity's fresh random key x1
    let x1_s = nonzero_scalar(&f);

    // owner2 share
    let o2_s = nonzero_scalar(&f);

    // t1 = o1*x1*o2_inv
    let t1 = f.mul(f.mul(o1_s, x1_s), f.invert(o2_s).unwrap());

    // s2 = t1*x1_inv*s1
    let s2_s = f.mul(f.mul(t1, f.invert(x1_s).unwrap()), s1_s);

    println!("P2: {:?}", f.mul(o2_s, s2_s));
    assert_eq!(f.mul(o2_s, s2_s), p_p);
}

#[test]
fn rotation_toy_vector() {
    // The toy field modulo 17: o1=5, s1=3, o2=7, x1=4.
    let f = field(17);
    let o1 = Scalar { v: 5 };
    let s1 = Scalar { v: 3 };
    let o2 = Scalar { v: 7 };
    let x1 = Scalar { v: 4 };

    let t1 = compute_t1(&f, o1, x1, o2).unwrap();
    assert_eq!(t1.v, 15);

    let s2 = compute_s2(&f, t1, x1, s1).unwrap();
    assert_eq!(s2.v, 7);

    // o1*s1 == o2*s2 == 15 (mod 17)
    assert_eq!(f.mul(o1, s1).v, 15);
    assert_eq!(f.mul(o2, s2).v, 15);

    let (t1b, s2b) = rotate(&f, o1, s1, o2, x1).unwrap();
    assert_eq!(t1b.v, 15);
    assert_eq!(s2b.v, 7);
}

#[test]
fn invert_small_field() {
    let f = field(17);
    assert_eq!(f.invert(Scalar { v: 7 }).unwrap().v, 5);
    assert_eq!(f.invert(Scalar { v: 4 }).unwrap().v, 13);
    assert!(f.invert(Scalar { v: 0 }).is_none());
    // Inputs need not be reduced: 24 = 7 (mod 17).
    assert_eq!(f.invert(Scalar { v: 24 }).unwrap().v, 5);
}

#[test]
fn invert_succeeds_exactly_on_invertible_scalars() {
    // Modulo 10 the invertible residues are exactly those coprime to 10.
    let f = field(10);
    for v in 0..10u64 {
        let r = f.invert(Scalar { v });
        if v % 2 != 0 && v % 5 != 0 {
            let b = r.unwrap();
            assert_eq!(f.mul(Scalar { v }, b).v, 1);
        } else {
            assert!(r.is_none());
        }
    }
    // In a prime field, every nonzero scalar is invertible.
    let p = field(2305843009213693951);
    for v in 1..50u64 {
        let b = p.invert(Scalar { v }).unwrap();
        assert_eq!(p.mul(Scalar { v }, b).v, 1);
    }
}

#[test]
fn zero_shares_rejected() {
    let f = field(17);
    let o1 = Scalar { v: 5 };
    let s1 = Scalar { v: 3 };
    let x1 = Scalar { v: 4 };
    // o2 = 0 has no inverse: blinding fails closed.
    assert_eq!(
        compute_t1(&f, o1, x1, Scalar { v: 0 }).unwrap_err(),
        SeError::CryptoError
    );
    // x1 = 0 has no inverse: finalization fails closed.
    assert_eq!(
        compute_s2(&f, Scalar { v: 15 }, Scalar { v: 0 }, s1).unwrap_err(),
        SeError::CryptoError
    );
}

#[test]
fn field_requires_room() {
    assert!(ScalarField::new(0).is_none());
    assert!(ScalarField::new(1).is_none());
    assert!(ScalarField::new(2).is_some());
}
