//! The evaluator: dispatch on the operation selector, validation of the
//! operands for the selected operation, and the arithmetic itself.
//!
//! All arithmetic is trapping: whenever the mathematical result does not
//! fit in a signed 64-bit integer, evaluation returns
//! `CalcError::ArithmeticOverflow`.

use vstd::prelude::*;
use vstd::arithmetic::power::pow;
use vstd::arithmetic::power::lemma0_pow;
use vstd::arithmetic::power::lemma1_pow;
use vstd::arithmetic::power::lemma_pow0;
use crate::instruction::CalcError;
use crate::instruction::CalculatorInstruction;

verus! {

/// True when `x` fits in a signed 64-bit integer.
pub open spec fn fits_i64(x: int) -> bool {
    i64::MIN <= x <= i64::MAX
}

/// Truncating (round-toward-zero) division: the semantics of machine
/// integer division. The quotient's sign is the product of the operands'
/// signs.
pub open spec fn trunc_div(l: int, r: int) -> int
    recommends
        r != 0,
{
    if l == 0 {
        0
    } else if l > 0 && r > 0 {
        l / r
    } else if l < 0 && r < 0 {
        (-l) / (-r)
    } else if l < 0 {
        -((-l) / r)
    } else {
        -(l / (-r))
    }
}

/// Truncating remainder: the remainder left by truncating division. Its
/// sign follows the left operand.
pub open spec fn trunc_rem(l: int, r: int) -> int
    recommends
        r != 0,
{
    if l == 0 {
        0
    } else if l > 0 && r > 0 {
        l % r
    } else if l < 0 && r < 0 {
        -((-l) % (-r))
    } else if l < 0 {
        -((-l) % r)
    } else {
        l % (-r)
    }
}

/// What evaluation returns for every instruction: the dispatch table over
/// the operation selector, with the operand validation of each operation.
///
/// The remainder of `i64::MIN` by `-1` is mathematically 0, but the
/// machine remainder operation traps on that operand pair, so it is
/// reported as overflow here as well.
///
/// The power exponent is taken at its full signed 64-bit value, never
/// narrowed to a smaller width: a non-negative exponent too large for
/// the result to fit is reported as overflow, not truncated.
pub open spec fn spec_eval(instr: CalculatorInstruction) -> Result<i64, CalcError> {
    let l = instr.left as int;
    let r = instr.right as int;
    if instr.operation == 0 {
        if fits_i64(l + r) {
            Ok(((l + r) as i64))
        } else {
            Err(CalcError::ArithmeticOverflow)
        }
    } else if instr.operation == 1 {
        if fits_i64(l - r) {
            Ok(((l - r) as i64))
        } else {
            Err(CalcError::ArithmeticOverflow)
        }
    } else if instr.operation == 2 {
        if fits_i64(l * r) {
            Ok(((l * r) as i64))
        } else {
            Err(CalcError::ArithmeticOverflow)
        }
    } else if instr.operation == 3 {
        if r == 0 {
            Err(CalcError::DivisionByZero)
        } else if fits_i64(trunc_div(l, r)) {
            Ok((trunc_div(l, r) as i64))
        } else {
            Err(CalcError::ArithmeticOverflow)
        }
    } else if instr.operation == 4 {
        if r == 0 {
            Err(CalcError::DivisionByZero)
        } else if l == i64::MIN && r == -1 {
            Err(CalcError::ArithmeticOverflow)
        } else {
            Ok((trunc_rem(l, r) as i64))
        }
    } else if instr.operation == 5 {
        if r < 0 {
            Err(CalcError::NegativeExponent)
        } else if fits_i64(pow(l, r as nat)) {
            Ok((pow(l, r as nat) as i64))
        } else {
            Err(CalcError::ArithmeticOverflow)
        }
    } else {
        Err(CalcError::UnknownOperation)
    }
}

/// `-1` to an even power is 1 and to an odd power is `-1`.
proof fn lemma_neg1_pow(e: nat)
    ensures
        pow(-1, e) == (if e % 2 == 0 {
            1int
        } else {
            -1int
        }),
    decreases e,
{
    reveal(pow);
    if e > 0 {
        lemma_neg1_pow((e - 1) as nat);
    }
}

/// Once a power of a base of magnitude at least 2 has left the signed
/// 64-bit range, every higher power of that base stays out of the range.
proof fn lemma_pow_stays_out(b: int, j: nat, e: nat)
    requires
        b <= -2 || b >= 2,
        j <= e,
        !fits_i64(pow(b, j)),
    ensures
        !fits_i64(pow(b, e)),
    decreases e - j,
{
    if j < e {
        let p = pow(b, j);
        let q = pow(b, (j + 1) as nat);
        assert(q == b * p) by {
            reveal(pow);
        }
        assert(!fits_i64(q)) by (nonlinear_arith)
            requires
                b <= -2 || b >= 2,
                !fits_i64(p),
                q == b * p,
        {
        }
        lemma_pow_stays_out(b, (j + 1) as nat, e);
    }
}

/// Evaluates `base` raised to the exponent `exp` by repeated
/// multiplication, trapping on overflow. Bases of magnitude at most 1 are
/// answered directly, so the multiplication loop only ever runs for bases
/// whose powers overflow within at most 64 steps.
fn power(base: i64, exp: i64) -> (r: Result<i64, CalcError>)
    requires
        exp >= 0,
    ensures
        r == (if fits_i64(pow(base as int, exp as nat)) {
            Ok::<i64, CalcError>((pow(base as int, exp as nat) as i64))
        } else {
            Err::<i64, CalcError>(CalcError::ArithmeticOverflow)
        }),
{
    if base == 0 {
        if exp == 0 {
            proof {
                lemma_pow0(0int);
            }
            return Ok(1);
        }
        proof {
            lemma0_pow(exp as nat);
        }
        return Ok(0);
    }
    if base == 1 {
        proof {
            lemma1_pow(exp as nat);
        }
        return Ok(1);
    }
    if base == -1 {
        proof {
            lemma_neg1_pow(exp as nat);
        }
        if exp % 2 == 0 {
            return Ok(1);
        } else {
            return Ok(-1);
        }
    }
    let mut acc: i64 = 1;
    let mut i: i64 = 0;
    proof {
        lemma_pow0(base as int);
    }
    while i < exp
        invariant
            0 <= i <= exp,
            base <= -2 || base >= 2,
            acc == pow(base as int, i as nat),
        decreases exp - i,
    {
        match acc.checked_mul(base) {
            Some(v) => {
                proof {
                    assert(pow(base as int, (i + 1) as nat) == base * pow(base as int, i as nat))
                        by {
                        reveal(pow);
                    }
                }
                acc = v;
                i = i + 1;
            },
            None => {
                proof {
                    assert(pow(base as int, (i + 1) as nat) == base * pow(base as int, i as nat))
                        by {
                        reveal(pow);
                    }
                    lemma_pow_stays_out(base as int, (i + 1) as nat, exp as nat);
                }
                return Err(CalcError::ArithmeticOverflow);
            },
        }
    }
    Ok(acc)
}

impl CalculatorInstruction {
    /// Performs the arithmetic operation selected by `operation` on
    /// `left` and `right`, validating the operands first: divide and
    /// modulo demand a nonzero right operand, power a non-negative one,
    /// and a selector outside {0..5} is rejected as unknown.
    pub fn evaluate(&self) -> (r: Result<i64, CalcError>)
        ensures
            r == spec_eval(*self),
    {
        match self.operation {
            0 => match self.left.checked_add(self.right) {
                Some(v) => Ok(v),
                None => Err(CalcError::ArithmeticOverflow),
            },
            1 => match self.left.checked_sub(self.right) {
                Some(v) => Ok(v),
                None => Err(CalcError::ArithmeticOverflow),
            },
            2 => match self.left.checked_mul(self.right) {
                Some(v) => Ok(v),
                None => Err(CalcError::ArithmeticOverflow),
            },
            3 => {
                if self.right == 0 {
                    Err(CalcError::DivisionByZero)
                } else {
                    match self.left.checked_div(self.right) {
                        Some(v) => Ok(v),
                        None => Err(CalcError::ArithmeticOverflow),
                    }
                }
            },
            4 => {
                if self.right == 0 {
                    Err(CalcError::DivisionByZero)
                } else {
                    match self.left.checked_rem(self.right) {
                        Some(v) => Ok(v),
                        None => Err(CalcError::ArithmeticOverflow),
                    }
                }
            },
            5 => {
                if self.right < 0 {
                    Err(CalcError::NegativeExponent)
                } else {
                    power(self.left, self.right)
                }
            },
            _ => Err(CalcError::UnknownOperation),
        }
    }
}

/// For selectors 0, 1 and 2 and any operands whose sum, difference or
/// product fits in a signed 64-bit integer, evaluation returns exactly
/// that sum, difference or product.
pub proof fn lemma_add_sub_mul_exact(instr: CalculatorInstruction)
    requires
        instr.operation == 0 || instr.operation == 1 || instr.operation == 2,
        instr.operation == 0 ==> fits_i64(instr.left + instr.right),
        instr.operation == 1 ==> fits_i64(instr.left - instr.right),
        instr.operation == 2 ==> fits_i64(instr.left * instr.right),
    ensures
        instr.operation == 0 ==> spec_eval(instr) == Ok::<i64, CalcError>(
            ((instr.left + instr.right) as i64),
        ),
        instr.operation == 1 ==> spec_eval(instr) == Ok::<i64, CalcError>(
            ((instr.left - instr.right) as i64),
        ),
        instr.operation == 2 ==> spec_eval(instr) == Ok::<i64, CalcError>(
            ((instr.left * instr.right) as i64),
        ),
{
}

/// For divide and modulo, a zero right operand always yields
/// `DivisionByZero`, whatever the left operand.
pub proof fn lemma_division_by_zero(instr: CalculatorInstruction)
    requires
        instr.operation == 3 || instr.operation == 4,
        instr.right == 0,
    ensures
        spec_eval(instr) == Err::<i64, CalcError>(CalcError::DivisionByZero),
{
}

/// For power, a negative right operand always yields `NegativeExponent`,
/// whatever the left operand.
pub proof fn lemma_negative_exponent(instr: CalculatorInstruction)
    requires
        instr.operation == 5,
        instr.right < 0,
    ensures
        spec_eval(instr) == Err::<i64, CalcError>(CalcError::NegativeExponent),
{
}

/// For power with a non-negative exponent, whenever the repeated-
/// multiplication power of the operands fits in a signed 64-bit integer,
/// evaluation returns exactly that power.
pub proof fn lemma_power_exact(instr: CalculatorInstruction)
    requires
        instr.operation == 5,
        instr.right >= 0,
        fits_i64(pow(instr.left as int, instr.right as nat)),
    ensures
        spec_eval(instr) == Ok::<i64, CalcError>(
            (pow(instr.left as int, instr.right as nat) as i64),
        ),
{
}

/// Every selector outside {0, 1, 2, 3, 4, 5} yields `UnknownOperation`,
/// regardless of the operand values.
pub proof fn lemma_unknown_operation(instr: CalculatorInstruction)
    requires
        instr.operation > 5,
    ensures
        spec_eval(instr) == Err::<i64, CalcError>(CalcError::UnknownOperation),
{
}

} // verus!
