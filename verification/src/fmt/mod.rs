//! Rendering as text: numbers, names and formatted expressions.

pub mod ty;
pub mod weight;

use vstd::prelude::*;
use vstd::string::*;
use crate::names::TraitName;

verus! {

/// A piece of rendered text that knows whether it needs parentheses where it
/// stands as an operand.
#[derive(Debug, PartialEq, Eq)]
pub enum FmtExpr {
    /// Text that stands on its own, like `bool` or `f(x)`.
    Atomic(String),
    /// Text that has to be wrapped when it is part of a larger expression.
    NonAtomic(String),
}

impl FmtExpr {
    /// The text as it was rendered.
    pub open spec fn text(self) -> Seq<char> {
        match self {
            FmtExpr::Atomic(s) => s@,
            FmtExpr::NonAtomic(s) => s@,
        }
    }

    /// The text, in parentheses where it does not stand on its own.
    pub open spec fn atomic_text(self) -> Seq<char> {
        match self {
            FmtExpr::Atomic(s) => s@,
            FmtExpr::NonAtomic(s) => "("@ + s@ + ")"@,
        }
    }

    /// The text as it was rendered.
    pub fn to_string(self) -> (s: String)
        ensures
            s@ == self.text(),
    {
        match self {
            FmtExpr::Atomic(s) => s,
            FmtExpr::NonAtomic(s) => s,
        }
    }

    /// The text, in parentheses where it does not stand on its own.
    pub fn to_atomic_string(self) -> (s: String)
        ensures
            s@ == self.atomic_text(),
    {
        match self {
            FmtExpr::Atomic(s) => s,
            FmtExpr::NonAtomic(s) => {
                let mut out = String::from_str("(");
                out.append(s.as_str());
                out.append(")");
                out
            },
        }
    }
}

/// The decimal digit `d`, for `d` below 10.
pub open spec fn digit_text(d: nat) -> Seq<char> {
    if d == 0 {
        "0"@
    } else if d == 1 {
        "1"@
    } else if d == 2 {
        "2"@
    } else if d == 3 {
        "3"@
    } else if d == 4 {
        "4"@
    } else if d == 5 {
        "5"@
    } else if d == 6 {
        "6"@
    } else if d == 7 {
        "7"@
    } else if d == 8 {
        "8"@
    } else {
        "9"@
    }
}

/// The decimal numeral of `n`, without leading zeros.
pub open spec fn decimal(n: nat) -> Seq<char>
    decreases n,
{
    if n < 10 {
        digit_text(n)
    } else {
        decimal(n / 10) + digit_text(n % 10)
    }
}

/// The decimal numeral of `n`, with a minus sign where it is negative.
pub open spec fn signed_decimal(n: int) -> Seq<char> {
    if n < 0 {
        "-"@ + decimal((-n) as nat)
    } else {
        decimal(n as nat)
    }
}

/// The decimal digit `d`.
fn fmt_digit(d: u128) -> (s: &'static str)
    requires
        d < 10,
    ensures
        s@ == digit_text(d as nat),
{
    if d == 0 {
        "0"
    } else if d == 1 {
        "1"
    } else if d == 2 {
        "2"
    } else if d == 3 {
        "3"
    } else if d == 4 {
        "4"
    } else if d == 5 {
        "5"
    } else if d == 6 {
        "6"
    } else if d == 7 {
        "7"
    } else if d == 8 {
        "8"
    } else {
        "9"
    }
}

/// Renders `n` as a decimal numeral.
pub fn fmt_nat(n: u128) -> (s: String)
    ensures
        s@ == decimal(n as nat),
    decreases n,
{
    if n < 10 {
        String::from_str(fmt_digit(n))
    } else {
        let mut s = fmt_nat(n / 10);
        s.append(fmt_digit(n % 10));
        s
    }
}

/// Renders `n` as a decimal numeral, with a minus sign where it is negative.
pub fn fmt_int(n: i128) -> (s: String)
    ensures
        s@ == signed_decimal(n as int),
{
    if n < 0 {
        let magnitude: u128 = if n == i128::MIN {
            0x8000_0000_0000_0000_0000_0000_0000_0000u128
        } else {
            (-n) as u128
        };
        let mut s = String::from_str("-");
        s.append(fmt_nat(magnitude).as_str());
        s
    } else {
        fmt_nat(n as u128)
    }
}

/// The text of a trait name: `trait` and its number.
pub open spec fn trait_name_text(name: TraitName) -> Seq<char> {
    "trait"@ + decimal(name.0.id as nat)
}

/// Renders a trait name.
pub fn fmt_trait_name(name: TraitName) -> (s: String)
    ensures
        s@ == trait_name_text(name),
{
    let mut s = String::from_str("trait");
    s.append(fmt_nat(name.0.id as u128).as_str());
    s
}

} // verus!
