use vstd::prelude::*;
use crate::attr::{AttrModel, AttrSyntax, text_resolution};
use crate::dispatch::{ProblemModel, problem_of};
use crate::generate::{
    Declaration, GeneratorError, Generated, all_resolve, first_attr_failure, generated_for,
    generation_ok, is_generation_error, opt_text, resolved_status, status_in_range, status_valid,
    variant_record, variant_rule,
};
use crate::template::{
    digits_end, digits_value, is_digit, lemma_digits_end_bounds, placeholder_at, render, render_from,
};

verus! {

/// A text holds no brace.
pub open spec fn brace_free(s: Seq<char>) -> bool {
    forall|k: int| 0 <= k < s.len() ==> (#[trigger] s[k]) != '{' && s[k] != '}'
}

/// A variant with a status and no other attribute is classified by that
/// status, and its payload has the type `about:blank` and neither title nor
/// detail, whatever its fields hold.
pub proof fn lemma_status_only_variant(v: crate::generate::VariantDecl, args: Seq<Seq<char>>)
    requires
        first_attr_failure(v) is None,
        v.title is None,
        v.detail is None,
        v.ty is None,
    ensures
        variant_rule(v).status == resolved_status(v),
        problem_of(variant_rule(v), args) == (ProblemModel {
            ty: AttrModel::Literal("about:blank"@),
            status: resolved_status(v),
            title: None,
            detail: None,
        }),
{
}

/// A literal status out of range, in an enum whose attributes all resolve,
/// makes generation fail, and the only error it can report is an invalid
/// status code.
pub proof fn lemma_status_out_of_range_fails(d: Declaration, i: int, s: u16)
    requires
        d.is_enum,
        all_resolve(d.variants@),
        0 <= i < d.variants@.len(),
        resolved_status(d.variants@[i]) == AttrModel::<u16>::Literal(s),
        !status_in_range(s),
    ensures
        !generation_ok(d),
        forall|e: GeneratorError| is_generation_error(d, e) ==> e is InvalidStatusCode,
{
    assert(!status_valid(resolved_status(d.variants@[i])));
    assert forall|e: GeneratorError| is_generation_error(d, e) implies e is InvalidStatusCode by {
        if let GeneratorError::AttributeParseFailure { variant, attribute } = e {
            assert(first_attr_failure(d.variants@[variant as int]) is None);
        }
    }
}

/// An enum whose attributes all resolve and whose statuses are all literals
/// from 100 up to 999 generates.
pub proof fn lemma_in_range_statuses_generate(d: Declaration)
    requires
        d.is_enum,
        all_resolve(d.variants@),
        forall|i: int|
            0 <= i < d.variants@.len() ==> exists|s: u16|
                100 <= s <= 999 && resolved_status(#[trigger] d.variants@[i])
                    == AttrModel::<u16>::Literal(s),
    ensures
        generation_ok(d),
{
    assert forall|i: int| 0 <= i < d.variants@.len() implies status_valid(
        resolved_status(#[trigger] d.variants@[i]),
    ) by {
        let s = choose|s: u16|
            100 <= s <= 999 && resolved_status(d.variants@[i]) == AttrModel::<u16>::Literal(s);
    }
}

/// The payload of a variant with a `ty` has that type as it was written.
pub proof fn lemma_type_override(
    v: crate::generate::VariantDecl,
    a: AttrSyntax,
    args: Seq<Seq<char>>,
)
    requires
        v.ty == Some(a),
        text_resolution(a) is Some,
    ensures
        problem_of(variant_rule(v), args).ty == text_resolution(a)->0,
        a matches AttrSyntax::StrLit(t) ==> problem_of(variant_rule(v), args).ty
            == AttrModel::Literal(t@),
{
}

/// The payload of a variant has its `title` as it was written where the
/// variant has one, and no title where it has none.
pub proof fn lemma_title_override(v: crate::generate::VariantDecl, args: Seq<Seq<char>>)
    ensures
        problem_of(variant_rule(v), args).title == opt_text(v.title),
        v.title is None ==> problem_of(variant_rule(v), args).title is None,
        v.title matches Some(AttrSyntax::StrLit(t)) ==> problem_of(variant_rule(v), args).title
            == Some(AttrModel::Literal(t@)),
{
}

/// Rendering copies a text without braces as it is.
proof fn lemma_render_brace_free(t: Seq<char>, args: Seq<Seq<char>>, i: int)
    requires
        0 <= i <= t.len(),
        forall|k: int| i <= k < t.len() ==> (#[trigger] t[k]) != '{' && t[k] != '}',
    ensures
        render_from(t, args, i) == t.subrange(i, t.len() as int),
    decreases t.len() - i,
{
    if i < t.len() {
        lemma_render_brace_free(t, args, i + 1);
        assert(seq![t[i]] + t.subrange(i + 1, t.len() as int) =~= t.subrange(i, t.len() as int));
    } else {
        assert(t.subrange(i, t.len() as int) =~= Seq::<char>::empty());
    }
}

/// A text holds no placeholder: each of its braces is half of an escaped
/// pair (`{{` or `}}`).
pub open spec fn escaped(s: Seq<char>) -> bool
    decreases s.len(),
{
    if s.len() == 0 {
        true
    } else if s.len() >= 2 && ((s[0] == '{' && s[1] == '{') || (s[0] == '}' && s[1] == '}')) {
        escaped(s.subrange(2, s.len() as int))
    } else {
        s[0] != '{' && s[0] != '}' && escaped(s.drop_first())
    }
}

proof fn lemma_digits_end_shift(x: Seq<char>, y: Seq<char>, j: int)
    requires
        0 <= j <= y.len(),
    ensures
        digits_end(x + y, x.len() + j) == x.len() + digits_end(y, j),
    decreases y.len() - j,
{
    if j < y.len() {
        assert((x + y)[x.len() + j] == y[j]);
        if is_digit(y[j]) {
            lemma_digits_end_shift(x, y, j + 1);
        }
    }
}

proof fn lemma_digits_value_shift(x: Seq<char>, y: Seq<char>, a: int, b: int)
    requires
        0 <= a <= b <= y.len(),
    ensures
        digits_value(x + y, x.len() + a, x.len() + b) == digits_value(y, a, b),
    decreases b - a,
{
    if b > a {
        lemma_digits_value_shift(x, y, a, b - 1);
        assert((x + y)[x.len() + b - 1] == y[b - 1]);
    }
}

/// Rendering reads only forward: what follows a prefix renders as it would
/// alone.
proof fn lemma_render_shift(x: Seq<char>, y: Seq<char>, args: Seq<Seq<char>>, j: int)
    requires
        0 <= j <= y.len(),
    ensures
        render_from(x + y, args, x.len() + j) == render_from(y, args, j),
    decreases y.len() - j,
{
    let t = x + y;
    let m = x.len() as int;
    if j < y.len() {
        assert(t[m + j] == y[j]);
        if j + 1 < y.len() {
            assert(t[m + j + 1] == y[j + 1]);
        }
        lemma_digits_end_bounds(y, j + 1);
        lemma_digits_end_shift(x, y, j + 1);
        let e = digits_end(y, j + 1);
        lemma_digits_value_shift(x, y, j + 1, e);
        if e < y.len() {
            assert(t[m + e] == y[e]);
            lemma_render_shift(x, y, args, e + 1);
        }
        assert(placeholder_at(t, args.len() as int, m + j) == placeholder_at(y, args.len() as int, j));
        lemma_render_shift(x, y, args, j + 1);
        if j + 2 <= y.len() {
            lemma_render_shift(x, y, args, j + 2);
        }
    }
}

/// An escaped prefix renders on its own, before whatever follows it.
proof fn lemma_render_escaped_prefix(pre: Seq<char>, rest: Seq<char>, args: Seq<Seq<char>>, i: int)
    requires
        0 <= i <= pre.len(),
        escaped(pre.subrange(i, pre.len() as int)),
    ensures
        render_from(pre + rest, args, i) == render_from(pre, args, i) + render_from(
            pre + rest,
            args,
            pre.len() as int,
        ),
    decreases pre.len() - i,
{
    let t = pre + rest;
    let n = pre.len() as int;
    let s = pre.subrange(i, n);
    let tail = render_from(t, args, n);
    if i < n {
        assert(t[i] == pre[i]);
        assert(s[0] == pre[i]);
        if i + 1 < n {
            assert(t[i + 1] == pre[i + 1]);
            assert(s[1] == pre[i + 1]);
        }
        if s.len() >= 2 && ((s[0] == '{' && s[1] == '{') || (s[0] == '}' && s[1] == '}')) {
            assert(s.subrange(2, s.len() as int) =~= pre.subrange(i + 2, n));
            lemma_render_escaped_prefix(pre, rest, args, i + 2);
            let c = pre[i];
            assert(seq![c] + (render_from(pre, args, i + 2) + tail) =~= (seq![c] + render_from(
                pre,
                args,
                i + 2,
            )) + tail);
        } else {
            assert(s.drop_first() =~= pre.subrange(i + 1, n));
            lemma_render_escaped_prefix(pre, rest, args, i + 1);
            assert(!placeholder_at(t, args.len() as int, i));
            assert(!placeholder_at(pre, args.len() as int, i));
            let c = pre[i];
            assert(seq![c] + (render_from(pre, args, i + 1) + tail) =~= (seq![c] + render_from(
                pre,
                args,
                i + 1,
            )) + tail);
        }
    } else {
        assert(Seq::<char>::empty() + tail =~= tail);
    }
}

/// A detail template made of an escaped part, one placeholder `{k}` that
/// names one of the captured fields, and any rest is filled with that
/// field's text in the placeholder's place: the escaped part renders with its
/// pairs collapsed (as it is when it holds no brace), and the rest renders on
/// its own.
pub proof fn lemma_detail_one_placeholder(
    v: crate::generate::VariantDecl,
    d: String,
    pre: Seq<char>,
    digits: Seq<char>,
    post: Seq<char>,
    args: Seq<Seq<char>>,
)
    requires
        v.detail == Some(AttrSyntax::StrLit(d)),
        d@ == pre + seq!['{'] + digits + seq!['}'] + post,
        escaped(pre),
        digits.len() > 0,
        forall|k: int| 0 <= k < digits.len() ==> is_digit(#[trigger] digits[k]),
        digits_value(digits, 0, digits.len() as int) < args.len(),
    ensures
        problem_of(variant_rule(v), args).detail == Some(
            AttrModel::Literal(
                render(pre, args) + args[digits_value(digits, 0, digits.len() as int) as int]
                    + render(post, args),
            ),
        ),
        brace_free(pre) && brace_free(post) ==> problem_of(variant_rule(v), args).detail == Some(
            AttrModel::Literal(pre + args[digits_value(digits, 0, digits.len() as int) as int] + post),
        ),
{
    let t = d@;
    let n = pre.len() as int;
    let g = digits.len() as int;
    let ph = seq!['{'] + digits + seq!['}'];
    let k = digits_value(digits, 0, g);
    assert(t =~= pre + (ph + post));
    assert(pre.subrange(0, n) =~= pre);
    lemma_render_escaped_prefix(pre, ph + post, args, 0);
    // At the placeholder.
    let x = pre + seq!['{'];
    let y = digits + seq!['}'] + post;
    assert(t =~= x + y);
    lemma_digits_end_shift(x, y, 0);
    assert forall|j: int| 0 <= j <= g implies digits_end(y, j) == g by {
        lemma_digits_end_tail(y, g, j);
    }
    lemma_digits_value_shift(x, y, 0, g);
    assert forall|j: int| 0 <= j <= g implies digits_value(y, 0, j) == digits_value(digits, 0, j) by {
        lemma_digits_value_prefix(y, digits, j);
    }
    assert(t[n] == '{');
    assert(t[n + 1] == digits[0]);
    assert(t[n + 1 + g] == '}');
    assert(digits_end(t, n + 1) == n + 1 + g);
    assert(digits_value(t, n + 1, n + 1 + g) == k);
    assert(placeholder_at(t, args.len() as int, n));
    assert(render_from(t, args, n) == args[k as int] + render_from(t, args, n + 2 + g));
    let z = pre + ph;
    assert(t =~= z + post);
    lemma_render_shift(z, post, args, 0);
    assert(render(t, args) =~= render(pre, args) + args[k as int] + render(post, args));
    if brace_free(pre) && brace_free(post) {
        lemma_render_brace_free(pre, args, 0);
        lemma_render_brace_free(post, args, 0);
        assert(post.subrange(0, post.len() as int) =~= post);
    }
}

/// In digits followed by a non-digit at `g`, the digits end at `g`.
proof fn lemma_digits_end_tail(y: Seq<char>, g: int, j: int)
    requires
        0 <= j <= g < y.len(),
        forall|k: int| j <= k < g ==> is_digit(#[trigger] y[k]),
        !is_digit(y[g]),
    ensures
        digits_end(y, j) == g,
    decreases g - j,
{
    if j < g {
        lemma_digits_end_tail(y, g, j + 1);
    }
}

/// The value of digits depends only on the digits read.
proof fn lemma_digits_value_prefix(y: Seq<char>, digits: Seq<char>, j: int)
    requires
        0 <= j <= digits.len(),
        forall|k: int| 0 <= k < digits.len() ==> y[k] == digits[k],
    ensures
        digits_value(y, 0, j) == digits_value(digits, 0, j),
    decreases j,
{
    if j > 0 {
        lemma_digits_value_prefix(y, digits, j - 1);
    }
}

/// Generation is deterministic: a declaration has at most one error, and any
/// two results for it hold the same metadata records and dispatch rules.
pub proof fn lemma_generation_deterministic(d: Declaration, g1: Generated, g2: Generated)
    ensures
        forall|e1: GeneratorError, e2: GeneratorError|
            is_generation_error(d, e1) && is_generation_error(d, e2) ==> e1 == e2,
        generated_for(g1, d.name, d.variants@) && generated_for(g2, d.name, d.variants@) ==> {
            &&& g1.records@.len() == g2.records@.len()
            &&& g1.rules@.len() == g2.rules@.len()
            &&& forall|i: int| 0 <= i < g1.records@.len() ==> (#[trigger] g1.records@[i]).model()
                == g2.records@[i].model()
            &&& forall|i: int| 0 <= i < g1.rules@.len() ==> (#[trigger] g1.rules@[i]).model()
                == g2.rules@[i].model()
        },
{
    let vs = d.variants@;
    assert forall|e1: GeneratorError, e2: GeneratorError|
        is_generation_error(d, e1) && is_generation_error(d, e2) implies e1 == e2 by {
        match e1 {
            GeneratorError::NotAnEnum => {},
            GeneratorError::AttributeParseFailure { variant: a, attribute: _ } => {
                match e2 {
                    GeneratorError::AttributeParseFailure { variant: b, attribute: _ } => {
                        if a < b {
                            assert(first_attr_failure(vs[a as int]) is None);
                        } else if b < a {
                            assert(first_attr_failure(vs[b as int]) is None);
                        }
                    },
                    GeneratorError::InvalidStatusCode { variant: _ } => {
                        assert(first_attr_failure(vs[a as int]) is None);
                    },
                    GeneratorError::NotAnEnum => {},
                }
            },
            GeneratorError::InvalidStatusCode { variant: a } => {
                match e2 {
                    GeneratorError::InvalidStatusCode { variant: b } => {
                        if a < b {
                            assert(status_valid(resolved_status(vs[a as int])));
                        } else if b < a {
                            assert(status_valid(resolved_status(vs[b as int])));
                        }
                    },
                    GeneratorError::AttributeParseFailure { variant: b, attribute: _ } => {
                        assert(first_attr_failure(vs[b as int]) is None);
                    },
                    GeneratorError::NotAnEnum => {},
                }
            },
        }
    }
}

/// The records and rules come in the order of the variants they were
/// generated from.
pub proof fn lemma_declaration_order(g: Generated, d: Declaration, i: int)
    requires
        generated_for(g, d.name, d.variants@),
        0 <= i < d.variants@.len(),
    ensures
        g.records@[i].model() == variant_record(d.variants@[i]),
        g.rules@[i].model() == variant_rule(d.variants@[i]),
        g.rules@[i].pattern.variant@ == d.variants@[i].name@,
{
}

/// A struct generates nothing: its one error is that it is not an enum.
pub proof fn lemma_struct_rejected(d: Declaration)
    requires
        !d.is_enum,
    ensures
        !generation_ok(d),
        forall|e: GeneratorError| is_generation_error(d, e) <==> e == GeneratorError::NotAnEnum,
{
}

} // verus!
