//! Control-operator interpretation: range syntax, `.eq/.ne/.le/.lt/.ge/.gt`,
//! `.size` (with its type-directed reading), and `.cbor`.
//!
//! Range arithmetic uses 128-bit signed integers, wide enough for every CDDL
//! integer literal and for the bounds `.size` produces up to the 64-bit
//! widths; anything wider is rejected rather than wrapped.

use vstd::prelude::*;
use crate::Error;
use crate::ast::{Operator, OperatorV, RangeCtlOp, CtlKind, Type2, Type2V};
use crate::ir::{Primitive, RustType};

verus! {

broadcast use crate::ast::group_ast_views, crate::ast::group_ast_view_defs;

/// A normalized control operator: an inclusive numeric range with open ends
/// allowed, or the `.cbor` marker (the caller lowers the operand itself).
#[derive(Clone, Copy, Debug, PartialEq, Eq, Structural)]
pub enum ControlOperator {
    Range { low: Option<i128>, high: Option<i128> },
    Cbor,
}

/// Two to the power `e`.
pub open spec fn p2(e: nat) -> int
    decreases e,
{
    if e == 0 {
        1
    } else {
        2 * p2((e - 1) as nat)
    }
}

proof fn lemma_p2_add(a: nat, b: nat)
    ensures
        p2(a + b) == p2(a) * p2(b),
    decreases b,
{
    if b == 0 {
    } else {
        lemma_p2_add(a, (b - 1) as nat);
        assert(2 * (p2(a) * p2((b - 1) as nat)) == p2(a) * (2 * p2((b - 1) as nat)))
            by (nonlinear_arith);
    }
}

proof fn lemma_p2_126_value()
    ensures
        p2(126nat) == 0x40000000000000000000000000000000,
{
    reveal_with_fuel(p2, 8);
    assert(p2(7nat) == 0x80);
    lemma_p2_add(7nat, 7nat);
    assert(p2(14nat) == 0x4000);
    lemma_p2_add(14nat, 14nat);
    assert(p2(28nat) == 0x10000000);
    lemma_p2_add(28nat, 28nat);
    assert(p2(56nat) == 0x100000000000000);
    lemma_p2_add(56nat, 56nat);
    assert(p2(112nat) == 0x10000000000000000000000000000);
    lemma_p2_add(112nat, 14nat);
}

proof fn lemma_p2_pos(e: nat)
    ensures
        p2(e) >= 1,
    decreases e,
{
    if e > 0 {
        lemma_p2_pos((e - 1) as nat);
    }
}

proof fn lemma_p2_mono(a: nat, b: nat)
    requires
        a <= b,
    ensures
        p2(a) <= p2(b),
    decreases b,
{
    if a < b {
        lemma_p2_mono(a, (b - 1) as nat);
        lemma_p2_pos((b - 1) as nat);
    }
}

/// Two to the power `e`, exactly.
fn pow2_i128(e: u32) -> (r: i128)
    requires
        e <= 126,
    ensures
        r as int == p2(e as nat),
        r >= 1,
{
    let mut acc: i128 = 1;
    let mut i: u32 = 0;
    while i < e
        invariant
            i <= e,
            e <= 126,
            acc as int == p2(i as nat),
            acc >= 1,
        decreases e - i,
    {
        proof {
            lemma_p2_mono((i + 1) as nat, 126nat);
            lemma_p2_126_value();
            assert(p2((i + 1) as nat) == 2 * p2(i as nat));
        }
        acc = acc * 2;
        i = i + 1;
    }
    acc
}

/// The numeric value of an integer literal in operand position.
pub open spec fn spec_type2_number(t2: Type2V) -> Result<i128, Error> {
    match t2 {
        Type2V::UintValue { value } => Ok(value as i128),
        Type2V::IntValue { value } => Ok(value as i128),
        _ => Err(Error::InvalidSchema),
    }
}

/// Reads an integer literal in operand position; anything else is invalid.
pub fn type2_to_number_literal(t2: &Type2) -> (r: Result<i128, Error>)
    ensures
        r == spec_type2_number(t2.deep_view()),
{
    match t2 {
        Type2::UintValue { value } => Ok(*value as i128),
        Type2::IntValue { value } => Ok(*value as i128),
        _ => Err(Error::InvalidSchema),
    }
}

/// Whether a `Type2` is the typename `name`.
pub open spec fn is_typename(t2: Type2V, name: Seq<char>) -> bool {
    match t2 {
        Type2V::Typename { ident, .. } => ident == name,
        _ => false,
    }
}

/// The `.size` operand normalized to a partial range: a bare literal `n`
/// gives `(None, n)`; a parenthesized `l..h` range gives `(l, h)` with an
/// exclusive upper end lowered by one; a parenthesized bare literal `n`
/// gives `(n, n)`.
pub open spec fn spec_size_operand(operand: Type2V) -> Result<(Option<i128>, Option<i128>), Error> {
    match operand {
        Type2V::UintValue { value } => Ok((None::<i128>, Some(value as i128))),
        Type2V::IntValue { value } => Ok((None::<i128>, Some(value as i128))),
        Type2V::ParenthesizedType { inner } => {
            if inner.choices.len() != 1 {
                Err(Error::InvalidSchema)
            } else {
                let it1 = inner.choices[0].type1;
                match spec_type2_number(it1.type2) {
                    Err(e) => Err(e),
                    Ok(min) => match it1.operator {
                        None => Ok((Some(min), Some(min))),
                        Some(op2) => match op2.op {
                            RangeCtlOp::RangeOp { is_inclusive } => match spec_type2_number(
                                op2.type2,
                            ) {
                                Err(e) => Err(e),
                                Ok(v) => Ok(
                                    (
                                        Some(min),
                                        Some(
                                            if is_inclusive {
                                                v
                                            } else {
                                                (v - 1) as i128
                                            },
                                        ),
                                    ),
                                ),
                            },
                            RangeCtlOp::CtlOp { .. } => Err(Error::InvalidSchema),
                        },
                    },
                }
            }
        },
        _ => Err(Error::SyntaxUnsupported),
    }
}

/// The meaning of `.size` under its parent type.
///
/// Under `uint`, `.size n` admits the values of `8 n` bits: `(0, 2^(8n)-1)`;
/// a range operand `(l, h)` gives `(2^(8l), 2^(8h)-1)`. Under `int`, only an
/// upper-bounded operand is supported and gives the symmetric window
/// `(-2^(8(h-1)), 2^(8(h-1))-1)`. Under anything else (bytes and text),
/// `.size n` means exact length `n` and an explicit range passes through.
/// An exponent that leaves 128-bit range is invalid.
pub open spec fn spec_size(parent: Type2V, operand: Type2V) -> Result<ControlOperator, Error> {
    match spec_size_operand(operand) {
        Err(e) => Err(e),
        Ok((lo, hi)) => {
            if is_typename(parent, "uint"@) {
                match (lo, hi) {
                    (Some(l), Some(h)) => {
                        if 0 <= l && 8 * l <= 126 && 0 <= h && 8 * h <= 126 {
                            Ok(
                                ControlOperator::Range {
                                    low: Some(p2((8 * l) as nat) as i128),
                                    high: Some((p2((8 * h) as nat) - 1) as i128),
                                },
                            )
                        } else {
                            Err(Error::InvalidSchema)
                        }
                    },
                    (None, Some(h)) => {
                        if 0 <= h && 8 * h <= 126 {
                            Ok(
                                ControlOperator::Range {
                                    low: Some(0),
                                    high: Some((p2((8 * h) as nat) - 1) as i128),
                                },
                            )
                        } else {
                            Err(Error::InvalidSchema)
                        }
                    },
                    _ => Err(Error::Unreachable),
                }
            } else if is_typename(parent, "int"@) {
                match (lo, hi) {
                    (Some(_l), Some(_h)) => Err(Error::InvalidSchema),
                    (None, Some(h)) => {
                        if 1 <= h && 8 * (h - 1) <= 126 {
                            Ok(
                                ControlOperator::Range {
                                    low: Some((-p2((8 * (h - 1)) as nat)) as i128),
                                    high: Some((p2((8 * (h - 1)) as nat) - 1) as i128),
                                },
                            )
                        } else {
                            Err(Error::InvalidSchema)
                        }
                    },
                    _ => Err(Error::Unreachable),
                }
            } else {
                match (lo, hi) {
                    (None, Some(h)) => Ok(ControlOperator::Range { low: Some(h), high: Some(h) }),
                    _ => Ok(ControlOperator::Range { low: lo, high: hi }),
                }
            }
        },
    }
}

/// The meaning of a range or control operator under its parent `Type2`.
///
/// Range syntax takes integer literals on both sides; the exclusive form
/// lowers the upper end by one. `.eq N` gives the point range; `.ne N` gives
/// the deliberately inverted range `(N+1, N-1)`, passed through for the
/// consumer to diagnose. `.le/.lt` keep the implicit lower bound `0` when
/// the parent is `uint`; `.ge/.gt` leave the upper end open. `.cbor` is
/// handed back as a marker for the caller to lower the operand. `.default`,
/// `.cborseq`, `.within` and `.and` are known but unsupported; any other
/// control is a shape the grammar should not produce.
pub open spec fn spec_ctl(parent: Type2V, op: OperatorV) -> Result<ControlOperator, Error> {
    let lower_bound: Option<i128> = if is_typename(parent, "uint"@) {
        Some(0i128)
    } else {
        None::<i128>
    };
    match op.op {
        RangeCtlOp::RangeOp { is_inclusive } => {
            match parent {
                Type2V::UintValue { value } => {
                    let start = value as i128;
                    match spec_type2_number(op.type2) {
                        Err(_e) => Err(Error::SyntaxUnsupported),
                        Ok(end) => Ok(
                            ControlOperator::Range {
                                low: Some(start),
                                high: Some(
                                    if is_inclusive {
                                        end
                                    } else {
                                        (end - 1) as i128
                                    },
                                ),
                            },
                        ),
                    }
                },
                Type2V::IntValue { value } => {
                    let start = value as i128;
                    match spec_type2_number(op.type2) {
                        Err(_e) => Err(Error::SyntaxUnsupported),
                        Ok(end) => Ok(
                            ControlOperator::Range {
                                low: Some(start),
                                high: Some(
                                    if is_inclusive {
                                        end
                                    } else {
                                        (end - 1) as i128
                                    },
                                ),
                            },
                        ),
                    }
                },
                _ => Err(Error::InvalidSchema),
            }
        },
        RangeCtlOp::CtlOp { ctrl } => match ctrl {
            CtlKind::Default => Err(Error::SyntaxUnsupported),
            CtlKind::CborSeq => Err(Error::SyntaxUnsupported),
            CtlKind::Within => Err(Error::SyntaxUnsupported),
            CtlKind::And => Err(Error::SyntaxUnsupported),
            CtlKind::Cbor => Ok(ControlOperator::Cbor),
            CtlKind::Eq => match spec_type2_number(op.type2) {
                Err(e) => Err(e),
                Ok(n) => Ok(ControlOperator::Range { low: Some(n), high: Some(n) }),
            },
            CtlKind::Ne => match spec_type2_number(op.type2) {
                Err(e) => Err(e),
                Ok(n) => Ok(
                    ControlOperator::Range { low: Some((n + 1) as i128), high: Some((n - 1) as i128) },
                ),
            },
            CtlKind::Le => match spec_type2_number(op.type2) {
                Err(e) => Err(e),
                Ok(n) => Ok(ControlOperator::Range { low: lower_bound, high: Some(n) }),
            },
            CtlKind::Lt => match spec_type2_number(op.type2) {
                Err(e) => Err(e),
                Ok(n) => Ok(ControlOperator::Range { low: lower_bound, high: Some((n - 1) as i128) }),
            },
            CtlKind::Ge => match spec_type2_number(op.type2) {
                Err(e) => Err(e),
                Ok(n) => Ok(ControlOperator::Range { low: Some(n), high: None::<i128> }),
            },
            CtlKind::Gt => match spec_type2_number(op.type2) {
                Err(e) => Err(e),
                Ok(n) => Ok(ControlOperator::Range { low: Some((n + 1) as i128), high: None::<i128> }),
            },
            CtlKind::Size => spec_size(parent, op.type2),
            CtlKind::Other => Err(Error::Unreachable),
        },
    }
}

fn size_operand(operand: &Type2) -> (r: Result<(Option<i128>, Option<i128>), Error>)
    ensures
        r == spec_size_operand(operand.deep_view()),
{
    match operand {
        Type2::UintValue { value } => Ok((None, Some(*value as i128))),
        Type2::IntValue { value } => Ok((None, Some(*value as i128))),
        Type2::ParenthesizedType { inner } => {
            if inner.choices.len() != 1 {
                return Err(Error::InvalidSchema);
            }
            let it1 = &inner.choices[0].type1;
            let min = match type2_to_number_literal(&it1.type2) {
                Ok(v) => v,
                Err(e) => {
                    return Err(e);
                },
            };
            match &it1.operator {
                None => Ok((Some(min), Some(min))),
                Some(op2) => match &op2.op {
                    RangeCtlOp::RangeOp { is_inclusive } => {
                        let v = match type2_to_number_literal(&op2.type2) {
                            Ok(v) => v,
                            Err(e) => {
                                return Err(e);
                            },
                        };
                        let hi: i128 = if *is_inclusive {
                            v
                        } else {
                            v - 1
                        };
                        Ok((Some(min), Some(hi)))
                    },
                    RangeCtlOp::CtlOp { .. } => Err(Error::InvalidSchema),
                },
            }
        },
        _ => Err(Error::SyntaxUnsupported),
    }
}

fn is_typename_exec(t2: &Type2, name: &str) -> (r: bool)
    ensures
        r == is_typename(t2.deep_view(), name@),
{
    match t2 {
        Type2::Typename { ident, .. } => {
            let n: String = name.to_owned();
            *ident == n
        },
        _ => false,
    }
}

fn size_control(parent: &Type2, operand: &Type2) -> (r: Result<ControlOperator, Error>)
    ensures
        r == spec_size(parent.deep_view(), operand.deep_view()),
{
    let base = match size_operand(operand) {
        Ok(b) => b,
        Err(e) => {
            return Err(e);
        },
    };
    if is_typename_exec(parent, "uint") {
        match base {
            (Some(l), Some(h)) => {
                if 0 <= l && l <= 15 && 0 <= h && h <= 15 {
                    let low = pow2_i128((8 * l) as u32);
                    let high = pow2_i128((8 * h) as u32);
                    Ok(ControlOperator::Range { low: Some(low), high: Some(high - 1) })
                } else {
                    proof {
                        if 0 <= l && 8 * l <= 126 && 0 <= h && 8 * h <= 126 {
                            assert(l <= 15 && h <= 15);
                        }
                    }
                    Err(Error::InvalidSchema)
                }
            },
            (None, Some(h)) => {
                if 0 <= h && h <= 15 {
                    let high = pow2_i128((8 * h) as u32);
                    Ok(ControlOperator::Range { low: Some(0), high: Some(high - 1) })
                } else {
                    Err(Error::InvalidSchema)
                }
            },
            _ => Err(Error::Unreachable),
        }
    } else if is_typename_exec(parent, "int") {
        match base {
            (Some(_l), Some(_h)) => Err(Error::InvalidSchema),
            (None, Some(h)) => {
                if 1 <= h && h <= 16 {
                    let w = pow2_i128((8 * (h - 1)) as u32);
                    Ok(ControlOperator::Range { low: Some(-w), high: Some(w - 1) })
                } else {
                    Err(Error::InvalidSchema)
                }
            },
            _ => Err(Error::Unreachable),
        }
    } else {
        match base {
            (None, Some(h)) => Ok(ControlOperator::Range { low: Some(h), high: Some(h) }),
            _ => Ok(ControlOperator::Range { low: base.0, high: base.1 }),
        }
    }
}

/// Interprets the operator of a `Type1` under its left-hand `Type2`, as
/// `spec_ctl` says.
pub fn parse_control_operator(parent: &Type2, op: &Operator) -> (r: Result<ControlOperator, Error>)
    ensures
        r == spec_ctl(parent.deep_view(), op.deep_view()),
{
    match &op.op {
        RangeCtlOp::RangeOp { is_inclusive } => {
            let start: i128 = match parent {
                Type2::UintValue { value } => *value as i128,
                Type2::IntValue { value } => *value as i128,
                _ => {
                    return Err(Error::InvalidSchema);
                },
            };
            let end = match type2_to_number_literal(&op.type2) {
                Ok(v) => v,
                Err(_e) => {
                    return Err(Error::SyntaxUnsupported);
                },
            };
            let high: i128 = if *is_inclusive {
                end
            } else {
                end - 1
            };
            Ok(ControlOperator::Range { low: Some(start), high: Some(high) })
        },
        RangeCtlOp::CtlOp { ctrl } => {
            match ctrl {
                CtlKind::Default | CtlKind::CborSeq | CtlKind::Within | CtlKind::And => Err(
                    Error::SyntaxUnsupported,
                ),
                CtlKind::Cbor => Ok(ControlOperator::Cbor),
                CtlKind::Other => Err(Error::Unreachable),
                CtlKind::Size => size_control(parent, &op.type2),
                CtlKind::Eq | CtlKind::Ne | CtlKind::Le | CtlKind::Lt | CtlKind::Ge
                    | CtlKind::Gt => {
                    let n = match type2_to_number_literal(&op.type2) {
                        Ok(v) => v,
                        Err(e) => {
                            return Err(e);
                        },
                    };
                    let lower_bound: Option<i128> = if is_typename_exec(parent, "uint") {
                        Some(0)
                    } else {
                        None
                    };
                    match ctrl {
                        CtlKind::Eq => Ok(ControlOperator::Range { low: Some(n), high: Some(n) }),
                        CtlKind::Ne => Ok(
                            ControlOperator::Range { low: Some(n + 1), high: Some(n - 1) },
                        ),
                        CtlKind::Le => Ok(ControlOperator::Range { low: lower_bound, high: Some(n) }),
                        CtlKind::Lt => Ok(
                            ControlOperator::Range { low: lower_bound, high: Some(n - 1) },
                        ),
                        CtlKind::Ge => Ok(ControlOperator::Range { low: Some(n), high: None }),
                        _ => Ok(ControlOperator::Range { low: Some(n + 1), high: None }),
                    }
                },
            }
        },
    }
}

/// Tests whether a term is the `uint` or `int` typename.
pub fn type2_is_uint_or_int_name(t2: &Type2) -> (r: bool)
    ensures
        r == (is_typename(t2.deep_view(), "uint"@) || is_typename(t2.deep_view(), "int"@)),
{
    is_typename_exec(t2, "uint") || is_typename_exec(t2, "int")
}

/// The bounds of each fixed-width primitive.
pub open spec fn prim_low(p: Primitive) -> int {
    match p {
        Primitive::U8 => 0,
        Primitive::I8 => -0x80,
        Primitive::U16 => 0,
        Primitive::I16 => -0x8000,
        Primitive::U32 => 0,
        Primitive::I32 => -0x80000000,
        Primitive::U64 => 0,
        Primitive::I64 => -0x8000000000000000,
        Primitive::Str => 0,
        Primitive::Bytes => 0,
    }
}

pub open spec fn prim_high(p: Primitive) -> int {
    match p {
        Primitive::U8 => 0xff,
        Primitive::I8 => 0x7f,
        Primitive::U16 => 0xffff,
        Primitive::I16 => 0x7fff,
        Primitive::U32 => 0xffffffff,
        Primitive::I32 => 0x7fffffff,
        Primitive::U64 => 0xffffffffffffffff,
        Primitive::I64 => 0x7fffffffffffffff,
        Primitive::Str => 0,
        Primitive::Bytes => 0,
    }
}

/// The integer primitive whose inclusive range is exactly `(low, high)`,
/// if one exists; both ends must be present and match exactly.
pub open spec fn spec_range_to_primitive(low: Option<i128>, high: Option<i128>) -> Option<
    Primitive,
> {
    match (low, high) {
        (Some(l), Some(h)) => {
            if l == 0 && h == 0xff {
                Some(Primitive::U8)
            } else if l == -0x80 && h == 0x7f {
                Some(Primitive::I8)
            } else if l == 0 && h == 0xffff {
                Some(Primitive::U16)
            } else if l == -0x8000 && h == 0x7fff {
                Some(Primitive::I16)
            } else if l == 0 && h == 0xffffffff {
                Some(Primitive::U32)
            } else if l == -0x80000000 && h == 0x7fffffff {
                Some(Primitive::I32)
            } else if l == 0 && h == 0xffffffffffffffff {
                Some(Primitive::U64)
            } else if l == -0x8000000000000000 && h == 0x7fffffffffffffff {
                Some(Primitive::I64)
            } else {
                None
            }
        },
        _ => None,
    }
}

/// Promotes a range that coincides exactly with a fixed-width integer's
/// bounds to that primitive.
pub fn range_to_primitive(low: Option<i128>, high: Option<i128>) -> (r: Option<RustType>)
    ensures
        match spec_range_to_primitive(low, high) {
            Some(p) => r == Some(RustType::Primitive(p)),
            None => r is None,
        },
{
    match (low, high) {
        (Some(l), Some(h)) => {
            if l == 0 && h == 0xff {
                Some(RustType::Primitive(Primitive::U8))
            } else if l == -0x80 && h == 0x7f {
                Some(RustType::Primitive(Primitive::I8))
            } else if l == 0 && h == 0xffff {
                Some(RustType::Primitive(Primitive::U16))
            } else if l == -0x8000 && h == 0x7fff {
                Some(RustType::Primitive(Primitive::I16))
            } else if l == 0 && h == 0xffffffff {
                Some(RustType::Primitive(Primitive::U32))
            } else if l == -0x80000000 && h == 0x7fffffff {
                Some(RustType::Primitive(Primitive::I32))
            } else if l == 0 && h == 0xffffffffffffffff {
                Some(RustType::Primitive(Primitive::U64))
            } else if l == -0x8000000000000000 && h == 0x7fffffffffffffff {
                Some(RustType::Primitive(Primitive::I64))
            } else {
                None
            }
        },
        _ => None,
    }
}

} // verus!
