use vstd::prelude::*;
use crate::template::{digits_value, is_digit};

verus! {

/// A resolved attribute value: a literal known while generating, or a path
/// to an item whose value is looked up where the generated code runs.
#[derive(Debug, Clone, PartialEq, Eq)]
pub enum AttrValue<T> {
    Literal(T),
    Reference(String),
}

/// The mathematical model of an attribute value: a reference by its text.
pub enum AttrModel<T> {
    Literal(T),
    Reference(Seq<char>),
}

/// The model of a resolved status.
pub open spec fn status_model(a: AttrValue<u16>) -> AttrModel<u16> {
    match a {
        AttrValue::Literal(v) => AttrModel::Literal(v),
        AttrValue::Reference(p) => AttrModel::Reference(p@),
    }
}

/// The model of a resolved text attribute.
pub open spec fn text_model(a: AttrValue<String>) -> AttrModel<Seq<char>> {
    match a {
        AttrValue::Literal(v) => AttrModel::Literal(v@),
        AttrValue::Reference(p) => AttrModel::Reference(p@),
    }
}

/// The model of an optional resolved text attribute.
pub open spec fn opt_text_model(a: Option<AttrValue<String>>) -> Option<AttrModel<Seq<char>>> {
    match a {
        Some(v) => Some(text_model(v)),
        None => None,
    }
}

/// The syntactic value written for an attribute (`name = value`).
#[derive(Debug, Clone, PartialEq, Eq)]
pub enum AttrSyntax {
    /// An integer literal, by its base-10 digits.
    IntLit(String),
    /// A string literal, by its contents.
    StrLit(String),
    /// A bare path such as `crate::codes::NOT_FOUND`, by its text.
    PathExpr(String),
    /// Any other expression.
    Other,
}

/// The index where the digits of a number written as `s` start: after an
/// optional leading `+`.
pub open spec fn number_start(s: Seq<char>) -> int {
    if s.len() > 0 && s[0] == '+' {
        1
    } else {
        0
    }
}

/// The `u16` that `s` writes in decimal, with an optional leading `+`, if it
/// writes one.
pub open spec fn decimal_u16(s: Seq<char>) -> Option<u16> {
    let a = number_start(s);
    if a < s.len() && (forall|k: int| a <= k < s.len() ==> is_digit(#[trigger] s[k]))
        && digits_value(s, a, s.len() as int) <= 65535 {
        Some(digits_value(s, a, s.len() as int) as u16)
    } else {
        None
    }
}

/// Reads a `u16` written in decimal, as `str::parse::<u16>` does.
pub fn parse_u16(s: &str) -> (r: Option<u16>)
    ensures
        r == decimal_u16(s@),
{
    let n = s.unicode_len();
    let a: usize = if n > 0 && s.get_char(0) == '+' {
        1
    } else {
        0
    };
    if a >= n {
        return None;
    }
    let mut i: usize = a;
    let mut v: u32 = 0;
    while i < n
        invariant
            n == s@.len(),
            a == number_start(s@),
            a < n,
            a <= i <= n,
            forall|k: int| a <= k < i ==> is_digit(#[trigger] s@[k]),
            v as int == digits_value(s@, a as int, i as int),
            v <= 65535,
        decreases n - i,
    {
        let c = s.get_char(i);
        if !('0' <= c && c <= '9') {
            return None;
        }
        let ghost old_v = v as int;
        let next: u32 = v * 10 + (c as u32 - '0' as u32);
        proof {
            assert(digits_value(s@, a as int, i + 1) == old_v * 10 + (c as int - '0' as int));
        }
        if next > 65535 {
            proof {
                lemma_digits_grow(s@, a as int, i + 1, n as int);
            }
            return None;
        }
        v = next;
        i = i + 1;
    }
    Some(v as u16)
}

/// A decimal number does not shrink when more digits follow.
proof fn lemma_digits_grow(s: Seq<char>, a: int, b: int, c: int)
    requires
        a <= b <= c,
    ensures
        digits_value(s, a, b) <= digits_value(s, a, c),
    decreases c - b,
{
    if c > b {
        lemma_digits_grow(s, a, b, c - 1);
        let p = digits_value(s, a, c - 1);
        assert(p * 10 + crate::template::digit_value(s[c - 1]) >= p) by (nonlinear_arith);
    }
}

/// Whether `s` reads as a Rust path.
pub uninterp spec fn path_parses(s: Seq<char>) -> bool;

/// Relies on `syn::parse_str::<syn::Path>` to tell whether a string reads as
/// a path; the string itself is then the path's text.
#[verifier::external_body]
fn parse_path(s: &str) -> (r: Option<String>)
    ensures
        r is Some <==> path_parses(s@),
        r is Some ==> r->0@ == s@,
{
    match syn::parse_str::<syn::Path>(s) {
        Ok(_) => Some(s.to_string()),
        Err(_) => None,
    }
}

/// The literal reading of an attribute when it has one, else its reading as
/// a path.
pub open spec fn literal_or_path<T>(literal: Option<T>, path: Option<String>) -> Option<
    AttrValue<T>,
> {
    match literal {
        Some(v) => Some(AttrValue::Literal(v)),
        None => match path {
            Some(p) => Some(AttrValue::Reference(p)),
            None => None,
        },
    }
}

/// Takes the literal reading of an attribute when there is one, and only
/// then falls back to its reading as a path.
pub fn prefer_literal<T>(literal: Option<T>, path: Option<String>) -> (r: Option<AttrValue<T>>)
    ensures
        r == literal_or_path(literal, path),
{
    match literal {
        Some(v) => Some(AttrValue::Literal(v)),
        None => match path {
            Some(p) => Some(AttrValue::Reference(p)),
            None => None,
        },
    }
}

/// What a status attribute resolves to: an integer literal or a string that
/// writes a `u16` gives that literal; a string that does not, but reads as a
/// path, and a bare path give a reference; anything else fails.
pub open spec fn status_resolution(a: AttrSyntax) -> Option<AttrModel<u16>> {
    match a {
        AttrSyntax::IntLit(d) => match decimal_u16(d@) {
            Some(v) => Some(AttrModel::Literal(v)),
            None => None,
        },
        AttrSyntax::StrLit(s) => match decimal_u16(s@) {
            Some(v) => Some(AttrModel::Literal(v)),
            None => if path_parses(s@) {
                Some(AttrModel::Reference(s@))
            } else {
                None
            },
        },
        AttrSyntax::PathExpr(p) => Some(AttrModel::Reference(p@)),
        AttrSyntax::Other => None,
    }
}

/// The model of an optional resolved status.
pub open spec fn opt_status_model(a: Option<AttrValue<u16>>) -> Option<AttrModel<u16>> {
    match a {
        Some(v) => Some(status_model(v)),
        None => None,
    }
}

/// Resolves a status attribute.
pub fn resolve_status(a: &AttrSyntax) -> (r: Option<AttrValue<u16>>)
    ensures
        opt_status_model(r) == status_resolution(*a),
{
    match a {
        AttrSyntax::IntLit(d) => prefer_literal(parse_u16(d.as_str()), None),
        AttrSyntax::StrLit(s) => {
            let lit = parse_u16(s.as_str());
            if lit.is_some() {
                prefer_literal(lit, None)
            } else {
                prefer_literal(lit, parse_path(s.as_str()))
            }
        },
        AttrSyntax::PathExpr(p) => prefer_literal(None, Some(p.clone())),
        AttrSyntax::Other => None,
    }
}

/// What a text attribute resolves to: a string literal gives that literal, a
/// bare path a reference, anything else fails.
pub open spec fn text_resolution(a: AttrSyntax) -> Option<AttrModel<Seq<char>>> {
    match a {
        AttrSyntax::StrLit(s) => Some(AttrModel::Literal(s@)),
        AttrSyntax::PathExpr(p) => Some(AttrModel::Reference(p@)),
        _ => None,
    }
}

/// Resolves a text attribute (title, detail or problem type).
pub fn resolve_text(a: &AttrSyntax) -> (r: Option<AttrValue<String>>)
    ensures
        opt_text_model(r) == text_resolution(*a),
{
    match a {
        AttrSyntax::StrLit(s) => prefer_literal(Some(s.clone()), None),
        AttrSyntax::PathExpr(p) => prefer_literal(None, Some(p.clone())),
        _ => None,
    }
}

/// A copy of a resolved text attribute.
pub fn copy_text(a: &AttrValue<String>) -> (r: AttrValue<String>)
    ensures
        r == *a,
{
    match a {
        AttrValue::Literal(s) => AttrValue::Literal(s.clone()),
        AttrValue::Reference(p) => AttrValue::Reference(p.clone()),
    }
}

/// A copy of a resolved status.
pub fn copy_status(a: &AttrValue<u16>) -> (r: AttrValue<u16>)
    ensures
        r == *a,
{
    match a {
        AttrValue::Literal(s) => AttrValue::Literal(*s),
        AttrValue::Reference(p) => AttrValue::Reference(p.clone()),
    }
}

} // verus!
