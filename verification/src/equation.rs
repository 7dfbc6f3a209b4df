//! Evaluable expressions.
//!
//! An `Equation` maps a scalar input to a scalar output and renders itself as
//! text. New expression forms are added by implementing this trait; the
//! renderer is generic over it and never has to change.

use crate::numfmt::{scalar_trimmed, trimmed_chars, trimmed_str};
use crate::scalar::{div_to_zero, sat_i64, Scalar, SCALE};
use crate::var::Variable;
use vstd::prelude::*;

verus! {

/// The value of a linear expression `m * x + b` on fixed-point units: the
/// product of the unit counts is rescaled toward zero and the sum saturates
/// at the `i64` bounds.
pub open spec fn linear_eval(m: int, b: int, x: int) -> int {
    sat_i64(div_to_zero(m * x, SCALE as int) + b)
}

/// An evaluable expression: a total mapping from a scalar to a scalar,
/// together with a human-readable textual form.
///
/// Both operations are pinned to spec functions of the expression value
/// alone, so evaluation is a pure function of its input and repeated
/// evaluation or display of the same expression yields the same result.
pub trait Equation: Sized + Clone {
    /// The mathematical value of the expression at `x`, in scalar units.
    spec fn eval_spec(&self, x: int) -> int;

    /// The exact text of the expression's display form.
    spec fn display_spec(&self) -> Seq<char>;

    /// Evaluates the expression at a point; total, never fails.
    fn eval(&self, var: &Variable) -> (r: Scalar)
        ensures
            r@ == self.eval_spec(var@),
    ;

    /// The human-readable form of the expression.
    fn display(&self) -> (s: String)
        ensures
            s@ == self.display_spec(),
    ;

    /// The same display text as a character vector, for cell-wise layout.
    fn display_chars(&self) -> (v: Vec<char>)
        ensures
            v@ == self.display_spec(),
    ;
}

/// A linear expression `y = m x + b` with scalar slope and intercept.
#[derive(Clone, Copy, Debug, PartialEq, Eq, Structural)]
pub struct LinearEquation {
    pub m: Scalar,
    pub b: Scalar,
}

impl LinearEquation {
    /// A linear expression from its slope and intercept.
    pub fn new(m: Scalar, b: Scalar) -> (r: LinearEquation)
        ensures
            r.m == m,
            r.b == b,
    {
        LinearEquation { m, b }
    }
}

impl Equation for LinearEquation {
    open spec fn eval_spec(&self, x: int) -> int {
        linear_eval(self.m@, self.b@, x)
    }

    open spec fn display_spec(&self) -> Seq<char> {
        "y = "@ + trimmed_str(self.m@) + "x + "@ + trimmed_str(self.b@)
    }

    fn eval(&self, var: &Variable) -> (r: Scalar) {
        let m = self.m.units;
        let x = var.value.units;
        proof {
            assert(-0x40000000000000000000000000000000 <= (m as int) * (x as int)
                <= 0x40000000000000000000000000000000) by (nonlinear_arith)
                requires
                    i64::MIN <= m <= i64::MAX,
                    i64::MIN <= x <= i64::MAX,
            ;
        }
        let p: i128 = m as i128 * x as i128;
        let q: i128 = if p >= 0 {
            proof {
                vstd::arithmetic::div_mod::lemma_div_nonincreasing(p as int, SCALE as int);
            }
            ((p as u128) / (SCALE as u128)) as i128
        } else {
            proof {
                vstd::arithmetic::div_mod::lemma_div_nonincreasing(-(p as int), SCALE as int);
            }
            -((((-p) as u128) / (SCALE as u128)) as i128)
        };
        let units = crate::scalar::sat_to_i64(q + self.b.units as i128);
        proof {
            assert(q as int == div_to_zero((m as int) * (x as int), SCALE as int));
        }
        Scalar { units }
    }

    fn display(&self) -> (s: String) {
        let mut s = String::from_str("y = ");
        let mt = scalar_trimmed(self.m);
        s.append(mt.as_str());
        s.append("x + ");
        let bt = scalar_trimmed(self.b);
        s.append(bt.as_str());
        proof {
            assert(s@ =~= self.display_spec());
        }
        s
    }

    fn display_chars(&self) -> (v: Vec<char>) {
        let mut v: Vec<char> = Vec::new();
        v.push('y');
        v.push(' ');
        v.push('=');
        v.push(' ');
        let mut mt = trimmed_chars(self.m);
        v.append(&mut mt);
        v.push('x');
        v.push(' ');
        v.push('+');
        v.push(' ');
        let mut bt = trimmed_chars(self.b);
        v.append(&mut bt);
        proof {
            reveal_strlit("y = ");
            reveal_strlit("x + ");
            assert(v@ =~= self.display_spec());
        }
        v
    }
}

} // verus!
