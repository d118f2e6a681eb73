use vstd::prelude::*;

verus! {

/// Whether a character has Unicode's White_Space property.
pub open spec fn is_white_space(c: char) -> bool {
    ('\u{9}' <= c && c <= '\u{d}') || c == ' ' || c == '\u{85}' || c == '\u{a0}'
        || c == '\u{1680}' || ('\u{2000}' <= c && c <= '\u{200a}') || c == '\u{2028}'
        || c == '\u{2029}' || c == '\u{202f}' || c == '\u{205f}' || c == '\u{3000}'
}

/// A string without its leading white space.
pub open spec fn trim_start(s: Seq<char>) -> Seq<char>
    decreases s.len(),
{
    if s.len() > 0 && is_white_space(s[0]) {
        trim_start(s.drop_first())
    } else {
        s
    }
}

/// A string without its trailing white space.
pub open spec fn trim_end(s: Seq<char>) -> Seq<char>
    decreases s.len(),
{
    if s.len() > 0 && is_white_space(s.last()) {
        trim_end(s.drop_last())
    } else {
        s
    }
}

/// A string with leading and trailing white space removed.
pub open spec fn trimmed(s: Seq<char>) -> Seq<char> {
    trim_end(trim_start(s))
}

/// Relies on `str::trim`, which removes the leading and trailing characters
/// that have the White_Space property.
#[verifier::external_body]
fn trim_text(s: &str) -> (r: &str)
    ensures
        r@ == trimmed(s@),
{
    s.trim()
}

/// Lines joined by newlines, where a line that comes while nothing has been
/// collected yet adds no separator.
pub open spec fn doc_join(lines: Seq<Seq<char>>) -> Seq<char>
    decreases lines.len(),
{
    if lines.len() == 0 {
        Seq::empty()
    } else {
        let acc = doc_join(lines.drop_last());
        if acc.len() == 0 {
            lines.last()
        } else {
            acc + seq!['\n'] + lines.last()
        }
    }
}

/// The description made of documentation lines that are already trimmed:
/// their join, or none when that is empty.
pub open spec fn description_of_trimmed(lines: Seq<Seq<char>>) -> Option<Seq<char>> {
    let j = doc_join(lines);
    if j.len() == 0 {
        None
    } else {
        Some(j)
    }
}

/// The views of a sequence of strings.
pub open spec fn views(ls: Seq<String>) -> Seq<Seq<char>> {
    ls.map_values(|s: String| s@)
}

/// The views of a sequence of strings, each trimmed.
pub open spec fn trimmed_views(ls: Seq<String>) -> Seq<Seq<char>> {
    ls.map_values(|s: String| trimmed(s@))
}

/// The description that a variant's documentation lines give.
pub open spec fn description_of(docs: Seq<String>) -> Option<Seq<char>> {
    description_of_trimmed(trimmed_views(docs))
}

/// The model of an optional string.
pub open spec fn opt_view(s: Option<String>) -> Option<Seq<char>> {
    match s {
        Some(v) => Some(v@),
        None => None,
    }
}

/// Joins trimmed documentation lines into a description.
pub fn join_doc_lines(lines: &Vec<String>) -> (r: Option<String>)
    ensures
        opt_view(r) == description_of_trimmed(views(lines@)),
{
    let mut out = String::new();
    let mut i: usize = 0;
    while i < lines.len()
        invariant
            i <= lines.len(),
            out@ == doc_join(views(lines@).take(i as int)),
        decreases lines.len() - i,
    {
        proof {
            assert(views(lines@).take(i + 1).drop_last() =~= views(lines@).take(i as int));
        }
        if out.unicode_len() > 0 {
            proof {
                reveal_strlit("\n");
            }
            out.append("\n");
        }
        out.append(lines[i].as_str());
        proof {
            assert(out@ =~= doc_join(views(lines@).take(i + 1)));
        }
        i = i + 1;
    }
    proof {
        assert(views(lines@).take(lines.len() as int) =~= views(lines@));
    }
    if out.unicode_len() == 0 {
        None
    } else {
        Some(out)
    }
}

/// The description of a variant: its documentation lines, each trimmed, then
/// joined by newlines; none when nothing is left.
pub fn get_description(docs: &Vec<String>) -> (r: Option<String>)
    ensures
        opt_view(r) == description_of(docs@),
{
    let mut lines: Vec<String> = Vec::new();
    let mut i: usize = 0;
    while i < docs.len()
        invariant
            i <= docs.len(),
            views(lines@) =~= trimmed_views(docs@).take(i as int),
        decreases docs.len() - i,
    {
        let t = trim_text(docs[i].as_str());
        let line = String::from_str(t);
        let ghost before = lines@;
        lines.push(line);
        proof {
            assert(lines@ == before.push(line));
            assert(views(before).len() == i);
            assert(lines@.len() == i + 1);
            assert(line@ == trimmed(docs@[i as int]@));
            assert forall|k: int| 0 <= k < i + 1 implies #[trigger] views(lines@)[k]
                == trimmed_views(docs@).take(i + 1)[k] by {
                if k < i {
                    assert(views(before)[k] == trimmed_views(docs@).take(i as int)[k]);
                }
            }
            assert(views(lines@) =~= trimmed_views(docs@).take(i + 1));
        }
        i = i + 1;
    }
    proof {
        assert(trimmed_views(docs@).take(docs.len() as int) =~= trimmed_views(docs@));
    }
    join_doc_lines(&lines)
}


/// The end of the run of documentation lines that starts at `j`, in a
/// variant's attributes listed in order with each doc line as its text and
/// any other attribute as none.
pub open spec fn doc_run_end(attrs: Seq<Option<String>>, j: int) -> int
    decreases attrs.len() - j,
{
    if j < 0 || j >= attrs.len() || attrs[j] is None {
        j
    } else {
        doc_run_end(attrs, j + 1)
    }
}

/// The documentation lines that lead a variant's attributes, up to the first
/// attribute that is not one.
pub fn leading_doc_lines(attrs: &Vec<Option<String>>) -> (r: Vec<String>)
    ensures
        r@.len() == doc_run_end(attrs@, 0),
        forall|k: int| 0 <= k < r@.len() ==> attrs@[k] == Some(#[trigger] r@[k]),
{
    let mut r: Vec<String> = Vec::new();
    let mut i: usize = 0;
    while i < attrs.len()
        invariant
            i <= attrs.len(),
            r@.len() == i,
            doc_run_end(attrs@, i as int) == doc_run_end(attrs@, 0),
            forall|k: int| 0 <= k < i ==> attrs@[k] == Some(#[trigger] r@[k]),
        decreases attrs.len() - i,
    {
        match &attrs[i] {
            Some(t) => {
                r.push(t.clone());
            },
            None => {
                return r;
            },
        }
        i = i + 1;
    }
    r
}

} // verus!
