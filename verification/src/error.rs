//! The errors of operations that change a link, and their wording.

use vstd::prelude::*;
use vstd::string::*;

verus! {

/// Why an operation on a link failed. Each variant carries the raw indices
/// concerned.
#[derive(Debug, Clone, PartialEq)]
pub enum EcsErr {
    /// The entity (first index) is linked to a component (second index)
    /// that its store does not hold.
    CompVecMissingComponent(usize, usize),
    /// The entity has no component of the type asked for.
    EntityMissingComponent(usize),
    /// No entity has this index.
    NoSuchEntityId(usize),
    /// The store has no slot with this index.
    NoSuchCompId(usize),
}

/// The character of the decimal digit `d`.
pub open spec fn digit(d: nat) -> char {
    if d == 0 {
        '0'
    } else if d == 1 {
        '1'
    } else if d == 2 {
        '2'
    } else if d == 3 {
        '3'
    } else if d == 4 {
        '4'
    } else if d == 5 {
        '5'
    } else if d == 6 {
        '6'
    } else if d == 7 {
        '7'
    } else if d == 8 {
        '8'
    } else {
        '9'
    }
}

/// `n` written in decimal, without leading zeros.
pub open spec fn decimal(n: nat) -> Seq<char>
    decreases n,
{
    if n < 10 {
        seq![digit(n)]
    } else {
        decimal(n / 10).push(digit(n % 10))
    }
}

/// The one-character string of the decimal digit `d`.
fn digit_str(d: usize) -> (r: &'static str)
    requires
        d < 10,
    ensures
        r@ == seq![digit(d as nat)],
{
    proof {
        reveal_strlit("0");
        reveal_strlit("1");
        reveal_strlit("2");
        reveal_strlit("3");
        reveal_strlit("4");
        reveal_strlit("5");
        reveal_strlit("6");
        reveal_strlit("7");
        reveal_strlit("8");
        reveal_strlit("9");
    }
    let r = if d == 0 {
        "0"
    } else if d == 1 {
        "1"
    } else if d == 2 {
        "2"
    } else if d == 3 {
        "3"
    } else if d == 4 {
        "4"
    } else if d == 5 {
        "5"
    } else if d == 6 {
        "6"
    } else if d == 7 {
        "7"
    } else if d == 8 {
        "8"
    } else {
        "9"
    };
    assert(r@ =~= seq![digit(d as nat)]);
    r
}

/// Appends `n` in decimal to `out`.
fn push_decimal(out: &mut String, n: usize)
    ensures
        final(out)@ == old(out)@ + decimal(n as nat),
    decreases n,
{
    if n >= 10 {
        push_decimal(out, n / 10);
    }
    out.append(digit_str(n % 10));
    assert(out@ =~= old(out)@ + decimal(n as nat));
}

impl EcsErr {
    /// The wording of the error.
    pub open spec fn wording(self) -> Seq<char> {
        match self {
            EcsErr::CompVecMissingComponent(e_id, c_id) => "component with id: "@ + decimal(
                c_id as nat,
            ) + " is present in entity with id "@ + decimal(e_id as nat)
                + ", but cannot be found in CompVec"@,
            EcsErr::EntityMissingComponent(id) => "missing component in entity with id: "@
                + decimal(id as nat),
            EcsErr::NoSuchEntityId(id) => "entity with id: "@ + decimal(id as nat)
                + " does not exist"@,
            EcsErr::NoSuchCompId(id) => "component with id: "@ + decimal(id as nat)
                + " does not exist"@,
        }
    }

    /// The error in words, with the indices in decimal.
    pub fn message(&self) -> (r: String)
        ensures
            r@ == self.wording(),
    {
        match self {
            EcsErr::CompVecMissingComponent(e_id, c_id) => {
                let mut out = String::from_str("component with id: ");
                push_decimal(&mut out, *c_id);
                out.append(" is present in entity with id ");
                push_decimal(&mut out, *e_id);
                out.append(", but cannot be found in CompVec");
                out
            },
            EcsErr::EntityMissingComponent(id) => {
                let mut out = String::from_str("missing component in entity with id: ");
                push_decimal(&mut out, *id);
                out
            },
            EcsErr::NoSuchEntityId(id) => {
                let mut out = String::from_str("entity with id: ");
                push_decimal(&mut out, *id);
                out.append(" does not exist");
                out
            },
            EcsErr::NoSuchCompId(id) => {
                let mut out = String::from_str("component with id: ");
                push_decimal(&mut out, *id);
                out.append(" does not exist");
                out
            },
        }
    }
}

} // verus!
