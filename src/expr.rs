use vstd::prelude::*;
use crate::row::{datum_text, nat_text, push_nat, Datum, Row};
use vstd::string::StringExecFns;

verus! {

/// Arithmetic operators over integers.
#[derive(Debug, Clone, Copy, PartialEq, Eq, Structural)]
pub enum ArithOp {
    Add,
    Sub,
    Mul,
    Div,
}

/// Boolean combinators; declared for plans but not evaluated.
#[derive(Debug, Clone, Copy, PartialEq, Eq, Structural)]
pub enum LogOp {
    And,
    Or,
    Not,
}

/// Relational comparisons between integers.
#[derive(Debug, Clone, Copy, PartialEq, Eq, Structural)]
pub enum RelOp {
    Eq,
    Ne,
    Gt,
    Ge,
    Lt,
    Le,
}

/// An expression tree; each node exclusively owns its children.
#[derive(Debug)]
pub enum Expr {
    CID(usize),
    Literal(Datum),
    ArithExpr(Box<Expr>, ArithOp, Box<Expr>),
    RelExpr(Box<Expr>, RelOp, Box<Expr>),
}

/// Why an evaluation cannot produce a value. Each of these is a fatal
/// planning error: a validated plan never meets one.
#[derive(Debug, Clone, Copy, PartialEq, Eq, Structural)]
pub enum EvalError {
    /// A column reference is not below the row's arity.
    ColumnOutOfBounds,
    /// An operator met operands of a kind it does not take.
    UnresolvedOperand,
    /// An integer division by zero.
    DivisionByZero,
    /// The exact integer result does not fit in `isize`.
    Overflow,
}

/// Integer division truncating toward zero.
pub open spec fn trunc_div(a: int, b: int) -> int {
    let q: int = vstd::math::abs(a) as int / vstd::math::abs(b) as int;
    if (a < 0) == (b < 0) {
        q
    } else {
        -q
    }
}

/// The exact mathematical value of `a op b` (for `Div`, `b` must be nonzero).
pub open spec fn arith_value(op: ArithOp, a: int, b: int) -> int {
    match op {
        ArithOp::Add => a + b,
        ArithOp::Sub => a - b,
        ArithOp::Mul => a * b,
        ArithOp::Div => trunc_div(a, b),
    }
}

/// The truth of `a op b`.
pub open spec fn rel_value(op: RelOp, a: int, b: int) -> bool {
    match op {
        RelOp::Eq => a == b,
        RelOp::Ne => a != b,
        RelOp::Gt => a > b,
        RelOp::Ge => a >= b,
        RelOp::Lt => a < b,
        RelOp::Le => a <= b,
    }
}

/// The outcome of applying an arithmetic operator to two integers.
pub open spec fn arith_outcome(op: ArithOp, a: int, b: int) -> Result<Datum, EvalError> {
    if op == ArithOp::Div && b == 0 {
        Err(EvalError::DivisionByZero)
    } else if isize::MIN <= arith_value(op, a, b) <= isize::MAX {
        Ok(Datum::INT(arith_value(op, a, b) as isize))
    } else {
        Err(EvalError::Overflow)
    }
}

impl Expr {
    /// The value of this expression on a row, or the fatal error that stops
    /// it. The left operand is evaluated before the right one, and the first
    /// error met is the one reported.
    pub open spec fn spec_eval(&self, row: Seq<Datum>) -> Result<Datum, EvalError>
        decreases self,
    {
        match self {
            Expr::CID(i) => if *i < row.len() {
                Ok(row[*i as int])
            } else {
                Err(EvalError::ColumnOutOfBounds)
            },
            Expr::Literal(d) => Ok(*d),
            Expr::ArithExpr(l, op, r) => match (l.spec_eval(row), r.spec_eval(row)) {
                (Err(e), _) => Err(e),
                (Ok(_), Err(e)) => Err(e),
                (Ok(Datum::INT(a)), Ok(Datum::INT(b))) => arith_outcome(*op, a as int, b as int),
                _ => Err(EvalError::UnresolvedOperand),
            },
            Expr::RelExpr(l, op, r) => match (l.spec_eval(row), r.spec_eval(row)) {
                (Err(e), _) => Err(e),
                (Ok(_), Err(e)) => Err(e),
                (Ok(Datum::INT(a)), Ok(Datum::INT(b))) => Ok(Datum::BOOL(rel_value(*op, a as int, b as int))),
                _ => Err(EvalError::UnresolvedOperand),
            },
        }
    }

    /// Evaluates the expression on `row`; never panics, and reports the fatal
    /// error instead of a value where there is one.
    pub fn try_eval(&self, row: &Row) -> (r: Result<Datum, EvalError>)
        ensures
            r == self.spec_eval(row@),
        decreases self,
    {
        match self {
            Expr::CID(i) => {
                if *i < row.arity() {
                    Ok(row.get_column(*i))
                } else {
                    Err(EvalError::ColumnOutOfBounds)
                }
            },
            Expr::Literal(d) => Ok(*d),
            Expr::ArithExpr(l, op, r) => {
                let a = l.try_eval(row)?;
                let b = r.try_eval(row)?;
                match (a, b) {
                    (Datum::INT(x), Datum::INT(y)) => apply_arith(*op, x, y),
                    _ => Err(EvalError::UnresolvedOperand),
                }
            },
            Expr::RelExpr(l, op, r) => {
                let a = l.try_eval(row)?;
                let b = r.try_eval(row)?;
                match (a, b) {
                    (Datum::INT(x), Datum::INT(y)) => Ok(Datum::BOOL(apply_rel(*op, x, y))),
                    _ => Err(EvalError::UnresolvedOperand),
                }
            },
        }
    }

    /// Evaluates the expression on `row`. Out-of-bounds columns, mismatched
    /// operand kinds, division by zero and overflow are fatal, so the caller
    /// must rule them out.
    pub fn eval(&self, row: &Row) -> (r: Datum)
        requires
            self.spec_eval(row@) is Ok,
        ensures
            self.spec_eval(row@) == Ok::<Datum, EvalError>(r),
    {
        match self.try_eval(row) {
            Ok(d) => d,
            Err(_) => {
                proof {
                    assert(false);
                }
                Datum::BOOL(false)
            },
        }
    }
}

/// Applies an arithmetic operator with checked two's-complement arithmetic.
pub fn apply_arith(op: ArithOp, a: isize, b: isize) -> (r: Result<Datum, EvalError>)
    ensures
        r == arith_outcome(op, a as int, b as int),
{
    let v = match op {
        ArithOp::Add => a.checked_add(b),
        ArithOp::Sub => a.checked_sub(b),
        ArithOp::Mul => a.checked_mul(b),
        ArithOp::Div => {
            if b == 0 {
                return Err(EvalError::DivisionByZero);
            }
            a.checked_div(b)
        },
    };
    match v {
        Some(x) => Ok(Datum::INT(x)),
        None => Err(EvalError::Overflow),
    }
}

/// Applies a relational operator to two integers.
pub fn apply_rel(op: RelOp, a: isize, b: isize) -> (r: bool)
    ensures
        r == rel_value(op, a as int, b as int),
{
    match op {
        RelOp::Eq => a == b,
        RelOp::Ne => a != b,
        RelOp::Gt => a > b,
        RelOp::Ge => a >= b,
        RelOp::Lt => a < b,
        RelOp::Le => a <= b,
    }
}

/// `a + b` on expressions builds the `Add` node over `a` and `b`.
impl vstd::std_specs::ops::AddSpecImpl for Expr {
    open spec fn obeys_add_spec() -> bool {
        true
    }

    open spec fn add_req(self, rhs: Expr) -> bool {
        true
    }

    open spec fn add_spec(self, rhs: Expr) -> Expr {
        Expr::ArithExpr(Box::new(self), ArithOp::Add, Box::new(rhs))
    }
}

impl std::ops::Add for Expr {
    type Output = Expr;

    fn add(self, other: Expr) -> Expr {
        Expr::ArithExpr(Box::new(self), ArithOp::Add, Box::new(other))
    }
}

/// `a - b` on expressions builds the `Sub` node over `a` and `b`.
impl vstd::std_specs::ops::SubSpecImpl for Expr {
    open spec fn obeys_sub_spec() -> bool {
        true
    }

    open spec fn sub_req(self, rhs: Expr) -> bool {
        true
    }

    open spec fn sub_spec(self, rhs: Expr) -> Expr {
        Expr::ArithExpr(Box::new(self), ArithOp::Sub, Box::new(rhs))
    }
}

impl std::ops::Sub for Expr {
    type Output = Expr;

    fn sub(self, other: Expr) -> Expr {
        Expr::ArithExpr(Box::new(self), ArithOp::Sub, Box::new(other))
    }
}

/// `a * b` on expressions builds the `Mul` node over `a` and `b`.
impl vstd::std_specs::ops::MulSpecImpl for Expr {
    open spec fn obeys_mul_spec() -> bool {
        true
    }

    open spec fn mul_req(self, rhs: Expr) -> bool {
        true
    }

    open spec fn mul_spec(self, rhs: Expr) -> Expr {
        Expr::ArithExpr(Box::new(self), ArithOp::Mul, Box::new(rhs))
    }
}

impl std::ops::Mul for Expr {
    type Output = Expr;

    fn mul(self, other: Expr) -> Expr {
        Expr::ArithExpr(Box::new(self), ArithOp::Mul, Box::new(other))
    }
}

/// `a / b` on expressions builds the `Div` node over `a` and `b`.
impl vstd::std_specs::ops::DivSpecImpl for Expr {
    open spec fn obeys_div_spec() -> bool {
        true
    }

    open spec fn div_req(self, rhs: Expr) -> bool {
        true
    }

    open spec fn div_spec(self, rhs: Expr) -> Expr {
        Expr::ArithExpr(Box::new(self), ArithOp::Div, Box::new(rhs))
    }
}

impl std::ops::Div for Expr {
    type Output = Expr;

    fn div(self, other: Expr) -> Expr {
        Expr::ArithExpr(Box::new(self), ArithOp::Div, Box::new(other))
    }
}

/// The printed form of an arithmetic operator.
pub open spec fn arith_symbol(op: ArithOp) -> Seq<char> {
    match op {
        ArithOp::Add => seq!['+'],
        ArithOp::Sub => seq!['-'],
        ArithOp::Mul => seq!['*'],
        ArithOp::Div => seq!['/'],
    }
}

/// The printed form of a boolean combinator.
pub open spec fn log_symbol(op: LogOp) -> Seq<char> {
    match op {
        LogOp::And => seq!['&', '&'],
        LogOp::Or => seq!['|', '|'],
        LogOp::Not => seq!['!'],
    }
}

/// The printed form of a relational operator.
pub open spec fn rel_symbol(op: RelOp) -> Seq<char> {
    match op {
        RelOp::Eq => seq!['=', '='],
        RelOp::Ne => seq!['!', '='],
        RelOp::Gt => seq!['>'],
        RelOp::Ge => seq!['>', '='],
        RelOp::Lt => seq!['<'],
        RelOp::Le => seq!['<', '='],
    }
}

impl ArithOp {
    /// The operator's symbol.
    pub fn symbol(&self) -> (r: &'static str)
        ensures
            r@ == arith_symbol(*self),
    {
        proof {
            reveal_strlit("+");
            reveal_strlit("-");
            reveal_strlit("*");
            reveal_strlit("/");
        }
        match self {
            ArithOp::Add => "+",
            ArithOp::Sub => "-",
            ArithOp::Mul => "*",
            ArithOp::Div => "/",
        }
    }
}

impl LogOp {
    /// The combinator's symbol.
    pub fn symbol(&self) -> (r: &'static str)
        ensures
            r@ == log_symbol(*self),
    {
        proof {
            reveal_strlit("&&");
            reveal_strlit("||");
            reveal_strlit("!");
        }
        match self {
            LogOp::And => "&&",
            LogOp::Or => "||",
            LogOp::Not => "!",
        }
    }
}

impl RelOp {
    /// The operator's symbol.
    pub fn symbol(&self) -> (r: &'static str)
        ensures
            r@ == rel_symbol(*self),
    {
        proof {
            reveal_strlit("==");
            reveal_strlit("!=");
            reveal_strlit(">");
            reveal_strlit(">=");
            reveal_strlit("<");
            reveal_strlit("<=");
        }
        match self {
            RelOp::Eq => "==",
            RelOp::Ne => "!=",
            RelOp::Gt => ">",
            RelOp::Ge => ">=",
            RelOp::Lt => "<",
            RelOp::Le => "<=",
        }
    }
}

/// The printed form of an expression: `$i` for column `i`, a literal as its
/// value, and each operator node in parentheses with spaces around its
/// symbol.
pub open spec fn expr_text(e: Expr) -> Seq<char>
    decreases e,
{
    match e {
        Expr::CID(i) => seq!['$'] + nat_text(i as nat),
        Expr::Literal(d) => datum_text(d),
        Expr::ArithExpr(l, op, r) => seq!['('] + expr_text(*l) + seq![' '] + arith_symbol(op)
            + seq![' '] + expr_text(*r) + seq![')'],
        Expr::RelExpr(l, op, r) => seq!['('] + expr_text(*l) + seq![' '] + rel_symbol(op)
            + seq![' '] + expr_text(*r) + seq![')'],
    }
}

impl Expr {
    /// Appends the printed form of this expression to `out`.
    pub fn write_text(&self, out: &mut String)
        ensures
            final(out)@ == old(out)@ + expr_text(*self),
        decreases self,
    {
        proof {
            reveal_strlit("$");
            reveal_strlit("(");
            reveal_strlit(" ");
            reveal_strlit(")");
        }
        match self {
            Expr::CID(i) => {
                out.append("$");
                push_nat(out, *i as u128);
            },
            Expr::Literal(d) => d.write_text(out),
            Expr::ArithExpr(l, op, r) => {
                out.append("(");
                l.write_text(out);
                out.append(" ");
                out.append(op.symbol());
                out.append(" ");
                r.write_text(out);
                out.append(")");
            },
            Expr::RelExpr(l, op, r) => {
                out.append("(");
                l.write_text(out);
                out.append(" ");
                out.append(op.symbol());
                out.append(" ");
                r.write_text(out);
                out.append(")");
            },
        }
        assert(out@ =~= old(out)@ + expr_text(*self));
    }

    /// The printed form of this expression.
    pub fn to_text(&self) -> (r: String)
        ensures
            r@ == expr_text(*self),
    {
        let mut out = String::new();
        self.write_text(&mut out);
        assert(out@ =~= expr_text(*self));
        out
    }
}

/// Evaluation has no hidden state: the same tree on the same row always
/// gives the same outcome.
pub proof fn lemma_eval_deterministic(e: Expr, row1: Seq<Datum>, row2: Seq<Datum>)
    requires
        row1 == row2,
    ensures
        e.spec_eval(row1) == e.spec_eval(row2),
{
}

/// Dividing two integer literals gives their quotient truncated toward zero
/// when the divisor is nonzero and the quotient fits, and a division-by-zero
/// error when the divisor is zero.
pub proof fn lemma_div_literals(a: isize, b: isize, row: Seq<Datum>)
    requires
        !(a == isize::MIN && b == -1),
    ensures
        ({
            let e = Expr::ArithExpr(
                Box::new(Expr::Literal(Datum::INT(a))),
                ArithOp::Div,
                Box::new(Expr::Literal(Datum::INT(b))),
            );
            &&& b != 0 ==> e.spec_eval(row) == Ok::<Datum, EvalError>(Datum::INT(trunc_div(a as int, b as int) as isize))
            &&& b == 0 ==> e.spec_eval(row) == Err::<Datum, EvalError>(EvalError::DivisionByZero)
        }),
{
    let l = Expr::Literal(Datum::INT(a));
    let r = Expr::Literal(Datum::INT(b));
    assert(l.spec_eval(row) == Ok::<Datum, EvalError>(Datum::INT(a)));
    assert(r.spec_eval(row) == Ok::<Datum, EvalError>(Datum::INT(b)));
    if b != 0 {
        assert(isize::MIN <= trunc_div(a as int, b as int) <= isize::MAX) by (nonlinear_arith)
            requires
                !(a == isize::MIN && b == -1),
                b != 0,
                isize::MIN <= a <= isize::MAX,
                isize::MIN <= b <= isize::MAX,
        {
        }
    }
}

/// Comparing two integer literals gives the truth of the comparison, for
/// each of the six relational operators.
pub proof fn lemma_rel_literals(a: isize, op: RelOp, b: isize, row: Seq<Datum>)
    ensures
        ({
            let e = Expr::RelExpr(
                Box::new(Expr::Literal(Datum::INT(a))),
                op,
                Box::new(Expr::Literal(Datum::INT(b))),
            );
            &&& e.spec_eval(row) == Ok::<Datum, EvalError>(Datum::BOOL(rel_value(op, a as int, b as int)))
            &&& op == RelOp::Eq ==> e.spec_eval(row) == Ok::<Datum, EvalError>(Datum::BOOL(a == b))
            &&& op == RelOp::Ne ==> e.spec_eval(row) == Ok::<Datum, EvalError>(Datum::BOOL(a != b))
            &&& op == RelOp::Gt ==> e.spec_eval(row) == Ok::<Datum, EvalError>(Datum::BOOL(a > b))
            &&& op == RelOp::Ge ==> e.spec_eval(row) == Ok::<Datum, EvalError>(Datum::BOOL(a >= b))
            &&& op == RelOp::Lt ==> e.spec_eval(row) == Ok::<Datum, EvalError>(Datum::BOOL(a < b))
            &&& op == RelOp::Le ==> e.spec_eval(row) == Ok::<Datum, EvalError>(Datum::BOOL(a <= b))
        }),
{
    let l = Expr::Literal(Datum::INT(a));
    let r = Expr::Literal(Datum::INT(b));
    assert(l.spec_eval(row) == Ok::<Datum, EvalError>(Datum::INT(a)));
    assert(r.spec_eval(row) == Ok::<Datum, EvalError>(Datum::INT(b)));
}

/// A column reference at or past the row's arity never yields a value.
pub proof fn lemma_column_out_of_bounds(i: usize, row: Seq<Datum>)
    requires
        i >= row.len(),
    ensures
        Expr::CID(i).spec_eval(row) == Err::<Datum, EvalError>(EvalError::ColumnOutOfBounds),
{
}

} // verus!
