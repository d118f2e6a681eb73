use vstd::prelude::*;
use crate::attr::{AttrModel, AttrValue, copy_status, copy_text, opt_text_model, status_model, text_model};
use crate::template::{render, render_template, texts};

verus! {

/// How a variant's fields are written, which decides the shape of the pattern
/// that matches it.
#[derive(Debug, Clone, Copy, PartialEq, Eq)]
pub enum FieldStyle {
    Unit,
    Tuple,
    Struct,
}

/// The media type of every payload that the generated code builds.
pub fn problem_content_type() -> (r: &'static str)
    ensures
        r@ == "application/problem+json"@,
{
    "application/problem+json"
}

/// The pattern that matches one variant, whatever its field values.
#[derive(Debug, Clone, PartialEq, Eq)]
pub struct Pattern {
    pub variant: String,
    pub style: FieldStyle,
    pub n_fields: usize,
}

/// One arm of the generated dispatch: the pattern of a variant with the
/// status it is classified as and what its payload is built from.
#[derive(Debug, Clone, PartialEq, Eq)]
pub struct DispatchRule {
    pub pattern: Pattern,
    pub status: AttrValue<u16>,
    pub ty: AttrValue<String>,
    pub title: Option<AttrValue<String>>,
    pub detail: Option<AttrValue<String>>,
}

/// The model of a dispatch rule.
pub struct RuleModel {
    pub variant: Seq<char>,
    pub style: FieldStyle,
    pub n_fields: nat,
    pub status: AttrModel<u16>,
    pub ty: AttrModel<Seq<char>>,
    pub title: Option<AttrModel<Seq<char>>>,
    pub detail: Option<AttrModel<Seq<char>>>,
}

/// A problem-details payload: its `type`, its `status` member, and its
/// optional `title` and `detail`.
#[derive(Debug, Clone, PartialEq, Eq)]
pub struct Problem {
    pub ty: AttrValue<String>,
    pub status: AttrValue<u16>,
    pub title: Option<AttrValue<String>>,
    pub detail: Option<AttrValue<String>>,
}

/// The model of a payload.
pub struct ProblemModel {
    pub ty: AttrModel<Seq<char>>,
    pub status: AttrModel<u16>,
    pub title: Option<AttrModel<Seq<char>>>,
    pub detail: Option<AttrModel<Seq<char>>>,
}

impl DispatchRule {
    pub open spec fn model(self) -> RuleModel {
        RuleModel {
            variant: self.pattern.variant@,
            style: self.pattern.style,
            n_fields: self.pattern.n_fields as nat,
            status: status_model(self.status),
            ty: text_model(self.ty),
            title: opt_text_model(self.title),
            detail: opt_text_model(self.detail),
        }
    }
}

impl Problem {
    pub open spec fn model(self) -> ProblemModel {
        ProblemModel {
            ty: text_model(self.ty),
            status: status_model(self.status),
            title: opt_text_model(self.title),
            detail: opt_text_model(self.detail),
        }
    }
}

/// The payload a rule builds for a value whose captured fields read as
/// `args`: a literal detail is a template filled with them, a referenced
/// detail is used as it is.
pub open spec fn problem_of(rule: RuleModel, args: Seq<Seq<char>>) -> ProblemModel {
    ProblemModel {
        ty: rule.ty,
        status: rule.status,
        title: rule.title,
        detail: match rule.detail {
            Some(AttrModel::Literal(t)) => Some(AttrModel::Literal(render(t, args))),
            Some(AttrModel::Reference(p)) => Some(AttrModel::Reference(p)),
            None => None,
        },
    }
}

impl DispatchRule {
    /// The status a value matched by this rule is classified as.
    pub fn classify(&self) -> (r: AttrValue<u16>)
        ensures
            r == self.status,
    {
        copy_status(&self.status)
    }

    /// The payload for a value matched by this rule, given the textual forms
    /// of its captured fields in order.
    pub fn render(&self, fields: &Vec<String>) -> (r: Problem)
        ensures
            r.model() == problem_of(self.model(), texts(fields@)),
    {
        let detail = match &self.detail {
            Some(AttrValue::Literal(t)) => Some(AttrValue::Literal(render_template(t.as_str(), fields))),
            Some(AttrValue::Reference(p)) => Some(AttrValue::Reference(p.clone())),
            None => None,
        };
        let title = match &self.title {
            Some(t) => Some(copy_text(t)),
            None => None,
        };
        Problem { ty: copy_text(&self.ty), status: copy_status(&self.status), title, detail }
    }
}

/// The index of the first rule whose pattern names `variant`, if any.
pub open spec fn first_rule_for(rules: Seq<DispatchRule>, variant: Seq<char>, i: int) -> bool {
    0 <= i < rules.len() && rules[i].pattern.variant@ == variant && forall|j: int|
        0 <= j < i ==> (#[trigger] rules[j]).pattern.variant@ != variant
}

/// Finds the rule that matches a value of the given variant: the first whose
/// pattern names it.
pub fn find_rule(rules: &Vec<DispatchRule>, variant: &String) -> (r: Option<usize>)
    ensures
        match r {
            Some(i) => first_rule_for(rules@, variant@, i as int),
            None => forall|j: int| 0 <= j < rules@.len() ==> (#[trigger] rules@[j]).pattern.variant@ != variant@,
        },
{
    let mut i: usize = 0;
    while i < rules.len()
        invariant
            i <= rules.len(),
            forall|j: int| 0 <= j < i ==> (#[trigger] rules@[j]).pattern.variant@ != variant@,
        decreases rules.len() - i,
    {
        if rules[i].pattern.variant == *variant {
            return Some(i);
        }
        i = i + 1;
    }
    None
}

} // verus!
