use vstd::prelude::*;

verus! {

/// Whether a character is an ASCII decimal digit.
pub open spec fn is_digit(c: char) -> bool {
    '0' <= c && c <= '9'
}

/// The numeric value of a decimal digit character.
pub open spec fn digit_value(c: char) -> nat {
    (c as nat - '0' as nat) as nat
}

/// The first index at or after `j` that does not hold a digit.
pub open spec fn digits_end(t: Seq<char>, j: int) -> int
    decreases t.len() - j,
{
    if j < 0 || j >= t.len() || !is_digit(t[j]) {
        j
    } else {
        digits_end(t, j + 1)
    }
}

/// The decimal number written by the characters `t[a..b]`.
pub open spec fn digits_value(t: Seq<char>, a: int, b: int) -> nat
    decreases b - a,
{
    if b <= a {
        0
    } else {
        digits_value(t, a, b - 1) * 10 + digit_value(t[b - 1])
    }
}

/// The argument texts a template is filled with.
pub open spec fn texts(args: Seq<String>) -> Seq<Seq<char>> {
    args.map_values(|s: String| s@)
}

/// Whether `t[i..]` starts with a positional placeholder `{n}` whose index
/// names one of `n_args` arguments.
pub open spec fn placeholder_at(t: Seq<char>, n_args: int, i: int) -> bool {
    let e = digits_end(t, i + 1);
    0 <= i && i < t.len() && t[i] == '{' && e > i + 1 && e < t.len() && t[e] == '}'
        && digits_value(t, i + 1, e) < n_args
}

/// The text of `t[i..]` once every escaped brace (`{{`, `}}`) is collapsed and
/// every positional placeholder `{n}` is replaced by the n-th argument. A brace
/// that starts neither is kept as it is.
pub open spec fn render_from(t: Seq<char>, args: Seq<Seq<char>>, i: int) -> Seq<char>
    decreases t.len() - i,
{
    if i < 0 || i >= t.len() {
        Seq::empty()
    } else if t[i] == '{' && i + 1 < t.len() && t[i + 1] == '{' {
        seq!['{'] + render_from(t, args, i + 2)
    } else if t[i] == '}' && i + 1 < t.len() && t[i + 1] == '}' {
        seq!['}'] + render_from(t, args, i + 2)
    } else if placeholder_at(t, args.len() as int, i) {
        let e = digits_end(t, i + 1);
        args[digits_value(t, i + 1, e) as int] + render_from(t, args, e + 1)
    } else {
        seq![t[i]] + render_from(t, args, i + 1)
    }
}

/// A whole template rendered with its arguments.
pub open spec fn render(t: Seq<char>, args: Seq<Seq<char>>) -> Seq<char> {
    render_from(t, args, 0)
}

/// The digits starting at `j` end within the text, and all that they cover are
/// digits.
pub proof fn lemma_digits_end_bounds(t: Seq<char>, j: int)
    requires
        0 <= j <= t.len(),
    ensures
        j <= digits_end(t, j) <= t.len(),
        forall|k: int| j <= k < digits_end(t, j) ==> is_digit(#[trigger] t[k]),
    decreases t.len() - j,
{
    if j < t.len() && is_digit(t[j]) {
        lemma_digits_end_bounds(t, j + 1);
    }
}

/// Whether a character is a decimal digit.
fn char_is_digit(c: char) -> (r: bool)
    ensures
        r == is_digit(c),
{
    '0' <= c && c <= '9'
}

/// Fills a detail template with the textual forms of a variant's captured
/// fields: `{n}` becomes the n-th of `args`, `{{` and `}}` become single
/// braces, and anything else is copied.
pub fn render_template(t: &str, args: &Vec<String>) -> (r: String)
    ensures
        r@ == render(t@, texts(args@)),
{
    let n = t.unicode_len();
    let ghost a = texts(args@);
    let mut out = String::new();
    let mut i: usize = 0;
    while i < n
        invariant
            n == t@.len(),
            a == texts(args@),
            i <= n,
            out@ + render_from(t@, a, i as int) == render(t@, a),
        decreases n - i,
    {
        let c = t.get_char(i);
        if c == '{' && i + 1 < n && t.get_char(i + 1) == '{' {
            out.append(t.substring_char(i, i + 1));
            proof {
                assert(out@ + render_from(t@, a, i + 2) =~= render(t@, a));
            }
            i = i + 2;
        } else if c == '}' && i + 1 < n && t.get_char(i + 1) == '}' {
            out.append(t.substring_char(i, i + 1));
            proof {
                assert(out@ + render_from(t@, a, i + 2) =~= render(t@, a));
            }
            i = i + 2;
        } else {
            // Scan the digits after an opening brace, keeping their value only
            // while it still names an argument.
            let mut j: usize = i + 1;
            let mut v: usize = 0;
            let mut fits: bool = args.len() > 0;
            if c == '{' {
                proof {
                    lemma_digits_end_bounds(t@, i + 1);
                }
                while j < n && char_is_digit(t.get_char(j))
                    invariant
                        n == t@.len(),
                        i < n,
                        i + 1 <= j <= n,
                        j <= digits_end(t@, i + 1 as int),
                        digits_end(t@, j as int) == digits_end(t@, i + 1 as int),
                        fits ==> v as int == digits_value(t@, i + 1 as int, j as int),
                        fits ==> v < args.len(),
                        !fits ==> digits_value(t@, i + 1 as int, j as int) >= args.len(),
                        args.len() == a.len(),
                    decreases n - j,
                {
                    let d = t.get_char(j);
                    proof {
                        lemma_digits_end_bounds(t@, j + 1);
                        assert(digits_end(t@, j as int) == digits_end(t@, j + 1));
                    }
                    let ghost old_val = digits_value(t@, i + 1 as int, j as int);
                    proof {
                        assert(digits_value(t@, i + 1 as int, j + 1 as int) == old_val * 10
                            + digit_value(d));
                        assert(old_val * 10 + digit_value(d) >= old_val) by (nonlinear_arith);
                    }
                    if fits {
                        let dv: usize = (d as u32 - '0' as u32) as usize;
                        let next = match v.checked_mul(10) {
                            Some(m) => m.checked_add(dv),
                            None => None,
                        };
                        match next {
                            Some(s) => {
                                if s < args.len() {
                                    v = s;
                                } else {
                                    fits = false;
                                }
                            },
                            None => {
                                fits = false;
                            },
                        }
                    }
                    j = j + 1;
                }
            }
            if c == '{' && j > i + 1 && j < n && t.get_char(j) == '}' && fits {
                proof {
                    assert(placeholder_at(t@, a.len() as int, i as int));
                    assert(a[v as int] == args@[v as int]@);
                }
                out.append(args[v].as_str());
                proof {
                    assert(out@ + render_from(t@, a, j + 1) =~= render(t@, a));
                }
                i = j + 1;
            } else {
                proof {
                    if c == '{' {
                        assert(!placeholder_at(t@, a.len() as int, i as int));
                    }
                }
                out.append(t.substring_char(i, i + 1));
                proof {
                    assert(out@ + render_from(t@, a, i + 1) =~= render(t@, a));
                }
                i = i + 1;
            }
        }
    }
    out
}

} // verus!
