use vstd::prelude::*;
use vstd::string::StringExecFns;

verus! {

/// A single typed scalar value.
#[allow(non_camel_case_types)]
#[derive(Debug, Clone, Copy, PartialEq, Eq, Structural)]
pub enum Datum {
    INT(isize),
    BOOL(bool),
}

/// An ordered, fixed-arity tuple of values: one record.
#[derive(Debug)]
pub struct Row {
    pub cols: Vec<Datum>,
}

impl View for Row {
    type V = Seq<Datum>;

    open spec fn view(&self) -> Seq<Datum> {
        self.cols@
    }
}

impl Row {
    /// Builds a row whose columns are `cols`, in order.
    pub fn new(cols: Vec<Datum>) -> (r: Row)
        ensures
            r@ == cols@,
    {
        Row { cols }
    }

    /// The number of columns.
    pub fn arity(&self) -> (r: usize)
        ensures
            r == self@.len(),
    {
        self.cols.len()
    }

    /// A copy of the value at column `index`; the index must be in bounds.
    pub fn get_column(&self, index: usize) -> (r: Datum)
        requires
            index < self@.len(),
        ensures
            r == self@[index as int],
    {
        self.cols[index]
    }
}

/// The character of a decimal digit `d < 10`.
pub open spec fn digit_char(d: nat) -> char {
    if d == 0 {
        '0'
    } else if d == 1 {
        '1'
    } else if d == 2 {
        '2'
    } else if d == 3 {
        '3'
    } else if d == 4 {
        '4'
    } else if d == 5 {
        '5'
    } else if d == 6 {
        '6'
    } else if d == 7 {
        '7'
    } else if d == 8 {
        '8'
    } else {
        '9'
    }
}

/// The decimal digits of `n`, most significant first, without leading zeros.
pub open spec fn nat_text(n: nat) -> Seq<char>
    decreases n,
{
    if n < 10 {
        seq![digit_char(n)]
    } else {
        nat_text(n / 10).push(digit_char(n % 10))
    }
}

/// The decimal form of `i`, with a leading `-` when it is negative.
pub open spec fn int_text(i: int) -> Seq<char> {
    if i < 0 {
        seq!['-'] + nat_text((-i) as nat)
    } else {
        nat_text(i as nat)
    }
}

/// The printed form of a value: an integer in decimal, a boolean as
/// `true` or `false`.
pub open spec fn datum_text(d: Datum) -> Seq<char> {
    match d {
        Datum::INT(i) => int_text(i as int),
        Datum::BOOL(b) => if b {
            seq!['t', 'r', 'u', 'e']
        } else {
            seq!['f', 'a', 'l', 's', 'e']
        },
    }
}

/// The one-character string of the digit `d`.
fn digit_str(d: u128) -> (r: &'static str)
    requires
        d < 10,
    ensures
        r@ == seq![digit_char(d as nat)],
{
    proof {
        reveal_strlit("0");
        reveal_strlit("1");
        reveal_strlit("2");
        reveal_strlit("3");
        reveal_strlit("4");
        reveal_strlit("5");
        reveal_strlit("6");
        reveal_strlit("7");
        reveal_strlit("8");
        reveal_strlit("9");
    }
    if d == 0 {
        "0"
    } else if d == 1 {
        "1"
    } else if d == 2 {
        "2"
    } else if d == 3 {
        "3"
    } else if d == 4 {
        "4"
    } else if d == 5 {
        "5"
    } else if d == 6 {
        "6"
    } else if d == 7 {
        "7"
    } else if d == 8 {
        "8"
    } else {
        "9"
    }
}

/// Appends the decimal digits of `n` to `out`.
pub fn push_nat(out: &mut String, n: u128)
    ensures
        final(out)@ == old(out)@ + nat_text(n as nat),
    decreases n,
{
    if n >= 10 {
        push_nat(out, n / 10);
    }
    out.append(digit_str(n % 10));
    assert(out@ =~= old(out)@ + nat_text(n as nat));
}

impl Datum {
    /// Appends the printed form of this value to `out`.
    pub fn write_text(&self, out: &mut String)
        ensures
            final(out)@ == old(out)@ + datum_text(*self),
    {
        match self {
            Datum::INT(i) => {
                if *i < 0 {
                    proof {
                        reveal_strlit("-");
                    }
                    out.append("-");
                    let m: u128 = (0 - (*i as i128)) as u128;
                    push_nat(out, m);
                } else {
                    push_nat(out, *i as u128);
                }
            },
            Datum::BOOL(b) => {
                proof {
                    reveal_strlit("true");
                    reveal_strlit("false");
                }
                if *b {
                    out.append("true");
                } else {
                    out.append("false");
                }
            },
        }
        assert(out@ =~= old(out)@ + datum_text(*self));
    }

    /// The printed form of this value.
    pub fn to_text(&self) -> (r: String)
        ensures
            r@ == datum_text(*self),
    {
        let mut out = String::new();
        self.write_text(&mut out);
        assert(out@ =~= datum_text(*self));
        out
    }
}

} // verus!
