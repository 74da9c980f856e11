use flare::expr::{apply_arith, apply_rel, ArithOp, EvalError, Expr, LogOp, RelOp};
use flare::row::{Datum, Row};

fn lit(i: isize) -> Box<Expr> {
    Box::new(Expr::Literal(Datum::INT(i)))
}

fn row(v: &[isize]) -> Row {
    Row::new(v.iter().map(|i| Datum::INT(*i)).collect())
}

#[test]
fn expr_test() {
    let e: Expr = Expr::RelExpr(
        Box::new(Expr::CID(0) + Expr::CID(1)),
        RelOp::Gt,
        Box::new(Expr::Literal(Datum::INT(30))),
    );
    println!("{}", e.to_text())
}

#[test]
fn column_projection() {
    let e: Expr = Expr::RelExpr(
        Box::new(Expr::CID(0) + Expr::CID(1)),
        RelOp::Gt,
        Box::new(Expr::Literal(Datum::INT(30))),
    );
    assert_eq!(e.eval(&row(&[3, 7])), Datum::BOOL(false));
    assert_eq!(e.eval(&row(&[20, 15])), Datum::BOOL(true));
}

#[test]
fn evaluation_is_repeatable() {
    let e = Expr::CID(0) * Expr::Literal(Datum::INT(3)) - Expr::CID(1);
    let r = row(&[4, 5]);
    let first = e.eval(&r);
    for _ in 0..3 {
        assert_eq!(e.eval(&r), first);
    }
    assert_eq!(first, Datum::INT(7));
}

#[test]
fn division_truncates_toward_zero() {
    let r = row(&[]);
    let cases = [(7, 2, 3), (-7, 2, -3), (7, -2, -3), (-7, -2, 3), (0, 5, 0), (6, 3, 2)];
    for (a, b, q) in cases {
        let e = Expr::ArithExpr(lit(a), ArithOp::Div, lit(b));
        assert_eq!(e.eval(&r), Datum::INT(q));
    }
}

#[test]
fn division_by_zero_is_reported() {
    let e = Expr::ArithExpr(lit(9), ArithOp::Div, lit(0));
    assert_eq!(e.try_eval(&row(&[])), Err(EvalError::DivisionByZero));
}

#[test]
fn overflow_is_reported() {
    let r = row(&[]);
    let e = Expr::ArithExpr(lit(isize::MAX), ArithOp::Add, lit(1));
    assert_eq!(e.try_eval(&r), Err(EvalError::Overflow));
    let e = Expr::ArithExpr(lit(isize::MIN), ArithOp::Div, lit(-1));
    assert_eq!(e.try_eval(&r), Err(EvalError::Overflow));
    let e = Expr::ArithExpr(lit(isize::MIN), ArithOp::Sub, lit(1));
    assert_eq!(e.try_eval(&r), Err(EvalError::Overflow));
    let e = Expr::ArithExpr(lit(isize::MAX), ArithOp::Mul, lit(2));
    assert_eq!(e.try_eval(&r), Err(EvalError::Overflow));
}

#[test]
fn arithmetic_operators() {
    let r = row(&[]);
    assert_eq!((Expr::Literal(Datum::INT(6)) + Expr::Literal(Datum::INT(4))).eval(&r), Datum::INT(10));
    assert_eq!((Expr::Literal(Datum::INT(6)) - Expr::Literal(Datum::INT(4))).eval(&r), Datum::INT(2));
    assert_eq!((Expr::Literal(Datum::INT(6)) * Expr::Literal(Datum::INT(-4))).eval(&r), Datum::INT(-24));
    assert_eq!((Expr::Literal(Datum::INT(6)) / Expr::Literal(Datum::INT(4))).eval(&r), Datum::INT(1));
    assert_eq!(apply_arith(ArithOp::Sub, 1, 3), Ok(Datum::INT(-2)));
}

#[test]
fn relational_operators() {
    let r = row(&[]);
    let ops = [RelOp::Eq, RelOp::Ne, RelOp::Gt, RelOp::Ge, RelOp::Lt, RelOp::Le];
    for (a, b) in [(1, 2), (2, 2), (3, 2), (-5, 4)] {
        let expected = [a == b, a != b, a > b, a >= b, a < b, a <= b];
        for (op, want) in ops.iter().zip(expected) {
            let e = Expr::RelExpr(lit(a), *op, lit(b));
            assert_eq!(e.eval(&r), Datum::BOOL(want));
            assert_eq!(apply_rel(*op, a, b), want);
        }
    }
}

#[test]
fn column_out_of_bounds_is_reported() {
    let e = Expr::CID(5);
    assert_eq!(e.try_eval(&row(&[1, 2])), Err(EvalError::ColumnOutOfBounds));
    assert_eq!(Expr::CID(2).try_eval(&row(&[1, 2])), Err(EvalError::ColumnOutOfBounds));
    assert_eq!(Expr::CID(1).try_eval(&row(&[1, 2])), Ok(Datum::INT(2)));
}

#[test]
fn mismatched_operands_are_reported() {
    let r = Row::new(vec![Datum::BOOL(true), Datum::INT(1)]);
    let e = Expr::CID(0) + Expr::CID(1);
    assert_eq!(e.try_eval(&r), Err(EvalError::UnresolvedOperand));
    let e = Expr::RelExpr(Box::new(Expr::CID(1)), RelOp::Eq, Box::new(Expr::CID(0)));
    assert_eq!(e.try_eval(&r), Err(EvalError::UnresolvedOperand));
    let nested = Expr::RelExpr(lit(1), RelOp::Lt, lit(2));
    let e = Expr::ArithExpr(Box::new(nested), ArithOp::Add, lit(1));
    assert_eq!(e.try_eval(&r), Err(EvalError::UnresolvedOperand));
}

#[test]
fn first_error_from_the_left_wins() {
    let e = Expr::ArithExpr(Box::new(Expr::CID(9)), ArithOp::Div, lit(0));
    assert_eq!(e.try_eval(&row(&[])), Err(EvalError::ColumnOutOfBounds));
}

#[test]
fn literals_and_columns_copy_values() {
    let r = Row::new(vec![Datum::BOOL(false)]);
    assert_eq!(Expr::Literal(Datum::BOOL(true)).eval(&r), Datum::BOOL(true));
    assert_eq!(Expr::CID(0).eval(&r), Datum::BOOL(false));
    assert_eq!(r.get_column(0), Datum::BOOL(false));
    assert_eq!(r.arity(), 1);
}

#[test]
fn operator_symbols() {
    assert_eq!(ArithOp::Add.symbol(), "+");
    assert_eq!(ArithOp::Sub.symbol(), "-");
    assert_eq!(ArithOp::Mul.symbol(), "*");
    assert_eq!(ArithOp::Div.symbol(), "/");
    assert_eq!(LogOp::And.symbol(), "&&");
    assert_eq!(LogOp::Or.symbol(), "||");
    assert_eq!(LogOp::Not.symbol(), "!");
    assert_eq!(RelOp::Eq.symbol(), "==");
    assert_eq!(RelOp::Ne.symbol(), "!=");
    assert_eq!(RelOp::Gt.symbol(), ">");
    assert_eq!(RelOp::Ge.symbol(), ">=");
    assert_eq!(RelOp::Lt.symbol(), "<");
    assert_eq!(RelOp::Le.symbol(), "<=");
}

#[test]
fn expression_text() {
    let e: Expr = Expr::RelExpr(
        Box::new(Expr::CID(0) + Expr::CID(1)),
        RelOp::Gt,
        Box::new(Expr::Literal(Datum::INT(30))),
    );
    assert_eq!(e.to_text(), "(($0 + $1) > 30)");
    let e = Expr::Literal(Datum::INT(-7)) / Expr::CID(12) * Expr::Literal(Datum::BOOL(true));
    assert_eq!(e.to_text(), "((-7 / $12) * true)");
}

#[test]
fn value_text() {
    assert_eq!(Datum::INT(0).to_text(), "0");
    assert_eq!(Datum::INT(1234567).to_text(), "1234567");
    assert_eq!(Datum::INT(-90).to_text(), "-90");
    assert_eq!(Datum::INT(isize::MIN).to_text(), isize::MIN.to_string());
    assert_eq!(Datum::INT(isize::MAX).to_text(), isize::MAX.to_string());
    assert_eq!(Datum::BOOL(false).to_text(), "false");
    let mut out = String::from("x=");
    Datum::BOOL(true).write_text(&mut out);
    assert_eq!(out, "x=true");
}
