//! Modular arithmetic model underlying every algebraic contract.
//!
//! A group or field element is modelled by a residue: a natural number
//! below the order of its structure.  The contracts of [`crate::algebra::Additive`],
//! [`crate::algebra::Multiplicative`] and friends are stated with the spec functions
//! here, and the abelian-group and field-identity laws are proved once,
//! for every conforming implementation.

use vstd::prelude::*;

verus! {

use vstd::arithmetic::div_mod::lemma_add_mod_noop;
use vstd::arithmetic::div_mod::lemma_add_mod_noop_right;
use vstd::arithmetic::div_mod::lemma_mod_self_0;
use vstd::arithmetic::div_mod::lemma_small_mod;

/// Sum of two residues, reduced modulo `m`.
pub open spec fn add_mod(a: nat, b: nat, m: nat) -> nat
    recommends
        m > 0,
{
    (a + b) % m
}

/// Additive inverse of a residue modulo `m`.
pub open spec fn neg_mod(a: nat, m: nat) -> nat
    recommends
        m > 0,
{
    if a % m == 0 {
        0
    } else {
        (m - a % m) as nat
    }
}

/// Difference of two residues modulo `m`: adding the additive inverse.
pub open spec fn sub_mod(a: nat, b: nat, m: nat) -> nat
    recommends
        m > 0,
{
    add_mod(a, neg_mod(b, m), m)
}

/// Product of two residues, reduced modulo `m`.
pub open spec fn mul_mod(a: nat, b: nat, m: nat) -> nat
    recommends
        m > 0,
{
    (a * b) % m
}

/// The sum of residues is itself a residue.
pub proof fn lemma_add_mod_in_range(a: nat, b: nat, m: nat)
    requires
        m > 0,
    ensures
        add_mod(a, b, m) < m,
{
}

/// The additive inverse of a residue is itself a residue.
pub proof fn lemma_neg_mod_in_range(a: nat, m: nat)
    requires
        m > 0,
    ensures
        neg_mod(a, m) < m,
{
}

/// The product of residues is itself a residue.
pub proof fn lemma_mul_mod_in_range(a: nat, b: nat, m: nat)
    requires
        m > 0,
    ensures
        mul_mod(a, b, m) < m,
{
}

/// Group addition commutes.
pub proof fn lemma_add_mod_commutes(a: nat, b: nat, m: nat)
    requires
        m > 0,
    ensures
        add_mod(a, b, m) == add_mod(b, a, m),
{
}

/// Group addition associates: for residues `a`, `b`, `c`,
/// `(a + b) + c == a + (b + c)` modulo `m`.
pub proof fn lemma_add_mod_associates(a: nat, b: nat, c: nat, m: nat)
    requires
        m > 0,
        a < m,
        b < m,
        c < m,
    ensures
        add_mod(add_mod(a, b, m), c, m) == add_mod(a, add_mod(b, c, m), m),
{
    lemma_small_mod(c, m);
    lemma_add_mod_noop((a + b) as int, c as int, m as int);
    lemma_add_mod_noop_right(a as int, (b + c) as int, m as int);
}

/// The additive identity is neutral: `a + 0 == a` for a residue `a`.
pub proof fn lemma_add_mod_identity(a: nat, m: nat)
    requires
        m > 0,
        a < m,
    ensures
        add_mod(a, 0, m) == a,
{
    lemma_small_mod(a, m);
}

/// Every residue cancels with its additive inverse: `a + (-a) == 0`.
pub proof fn lemma_add_mod_negate(a: nat, m: nat)
    requires
        m > 0,
        a < m,
    ensures
        add_mod(a, neg_mod(a, m), m) == 0,
{
    lemma_small_mod(a, m);
    if a == 0 {
        lemma_small_mod(0, m);
    } else {
        lemma_mod_self_0(m as int);
    }
}

/// The multiplicative identity is neutral: `a * 1 == a` for a residue `a`.
pub proof fn lemma_mul_mod_identity(a: nat, m: nat)
    requires
        m > 0,
        a < m,
    ensures
        mul_mod(a, 1, m) == a,
{
    lemma_small_mod(a, m);
}

/// Field multiplication commutes.
pub proof fn lemma_mul_mod_commutes(a: nat, b: nat, m: nat)
    requires
        m > 0,
    ensures
        mul_mod(a, b, m) == mul_mod(b, a, m),
{
}

} // verus!
