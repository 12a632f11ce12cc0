//! The machine's error taxonomy: a structured failure value with a kind
//! and a human-readable message, plus the verified decimal formatting
//! used to name an offending byte in a message.

use vstd::prelude::*;

verus! {

use vstd::string::StringExecFns;

/// The two kinds of failure the machine reports.
///
/// `Compilation` covers malformed instruction streams: an undefined
/// opcode byte, a missing operand byte, or a constant index outside the
/// pool. `Runtime` covers value-dependent failures: stack underflow and
/// operands of the wrong variant.
#[derive(Clone, Copy, Debug, PartialEq, Eq, Structural)]
pub enum VirtualMachineErrorKind {
    Runtime,
    Compilation,
}

/// A structured execution failure: its kind and a message for a human.
#[derive(Debug)]
pub struct VirtualMachineError {
    pub kind: VirtualMachineErrorKind,
    pub message: String,
}

/// The decimal digit character for `d`.
pub open spec fn digit_char(d: nat) -> char
    recommends
        d < 10,
{
    if d == 0 {
        '0'
    } else if d == 1 {
        '1'
    } else if d == 2 {
        '2'
    } else if d == 3 {
        '3'
    } else if d == 4 {
        '4'
    } else if d == 5 {
        '5'
    } else if d == 6 {
        '6'
    } else if d == 7 {
        '7'
    } else if d == 8 {
        '8'
    } else {
        '9'
    }
}

/// The decimal representation of `n`, most significant digit first,
/// without leading zeros (a single `'0'` for zero).
pub open spec fn decimal_rep(n: nat) -> Seq<char>
    decreases n,
{
    if n < 10 {
        seq![digit_char(n)]
    } else {
        decimal_rep(n / 10).push(digit_char(n % 10))
    }
}

/// The decimal digit of `d` as a one-character string slice.
fn digit_str(d: u8) -> (r: &'static str)
    requires
        d < 10,
    ensures
        r@ == seq![digit_char(d as nat)],
{
    proof {
        reveal_strlit("0");
        reveal_strlit("1");
        reveal_strlit("2");
        reveal_strlit("3");
        reveal_strlit("4");
        reveal_strlit("5");
        reveal_strlit("6");
        reveal_strlit("7");
        reveal_strlit("8");
        reveal_strlit("9");
    }
    let r: &'static str = if d == 0 {
        "0"
    } else if d == 1 {
        "1"
    } else if d == 2 {
        "2"
    } else if d == 3 {
        "3"
    } else if d == 4 {
        "4"
    } else if d == 5 {
        "5"
    } else if d == 6 {
        "6"
    } else if d == 7 {
        "7"
    } else if d == 8 {
        "8"
    } else {
        "9"
    };
    proof {
        assert(r@ =~= seq![digit_char(d as nat)]);
    }
    r
}

/// Appends the decimal representation of `n` to `out`.
pub fn append_decimal_u8(out: &mut String, n: u8)
    ensures
        final(out)@ == old(out)@ + decimal_rep(n as nat),
{
    if n >= 100 {
        let lead: u8 = n / 100;
        let mid: u8 = (n / 10) % 10;
        let last: u8 = n % 10;
        proof {
            let m = n as nat;
            assert(m / 10 / 10 == m / 100) by (nonlinear_arith);
            assert(decimal_rep(m) == decimal_rep(m / 10).push(digit_char(m % 10)));
            assert(decimal_rep(m / 10) == decimal_rep(m / 10 / 10).push(digit_char((m / 10) % 10)));
            assert(decimal_rep(m / 100) == seq![digit_char(m / 100)]);
            assert(decimal_rep(m) =~= seq![
                digit_char(m / 100),
                digit_char((m / 10) % 10),
                digit_char(m % 10),
            ]);
        }
        out.append(digit_str(lead));
        out.append(digit_str(mid));
        out.append(digit_str(last));
        proof {
            assert(out@ =~= old(out)@ + decimal_rep(n as nat));
        }
    } else if n >= 10 {
        let lead: u8 = n / 10;
        let last: u8 = n % 10;
        proof {
            let m = n as nat;
            assert(decimal_rep(m) == decimal_rep(m / 10).push(digit_char(m % 10)));
            assert(decimal_rep(m / 10) == seq![digit_char(m / 10)]);
            assert(decimal_rep(m) =~= seq![digit_char(m / 10), digit_char(m % 10)]);
        }
        out.append(digit_str(lead));
        out.append(digit_str(last));
        proof {
            assert(out@ =~= old(out)@ + decimal_rep(n as nat));
        }
    } else {
        out.append(digit_str(n));
        proof {
            assert(out@ =~= old(out)@ + decimal_rep(n as nat));
        }
    }
}

} // verus!
