use vstd::prelude::*;
use crate::attr::{
    AttrModel, AttrSyntax, AttrValue, copy_status, copy_text, opt_text_model, resolve_status,
    resolve_text, status_model, status_resolution, text_model, text_resolution,
};
use crate::dispatch::{
    DispatchRule, FieldStyle, Pattern, Problem, RuleModel, find_rule, first_rule_for, problem_of,
};
use crate::template::texts;
use crate::docs::{description_of, get_description, opt_view};

verus! {

/// One variant of the annotated enum, as written.
#[derive(Debug, Clone, PartialEq, Eq)]
pub struct VariantDecl {
    pub name: String,
    pub style: FieldStyle,
    pub n_fields: usize,
    /// The variant's documentation lines, in order.
    pub docs: Vec<String>,
    pub status: Option<AttrSyntax>,
    pub title: Option<AttrSyntax>,
    pub detail: Option<AttrSyntax>,
    pub ty: Option<AttrSyntax>,
}

/// The annotated declaration: its name, whether it is an enum, and its
/// variants in order.
#[derive(Debug, Clone, PartialEq, Eq)]
pub struct Declaration {
    pub name: String,
    pub is_enum: bool,
    pub variants: Vec<VariantDecl>,
}

/// The attributes of a variant.
#[derive(Debug, Clone, Copy, PartialEq, Eq)]
pub enum AttrName {
    Status,
    Title,
    Detail,
    Type,
}

/// Why no code is generated for a declaration.
#[derive(Debug, Clone, Copy, PartialEq, Eq)]
pub enum GeneratorError {
    /// The declaration is a struct.
    NotAnEnum,
    /// A variant's literal status is below 100 or not below 1000.
    InvalidStatusCode { variant: usize },
    /// A variant's attribute is missing (the status) or reads neither as a
    /// literal nor as a path.
    AttributeParseFailure { variant: usize, attribute: AttrName },
}

/// Whether a literal status lies in the accepted range.
pub open spec fn status_in_range(s: u16) -> bool {
    100 <= s && s < 1000
}

/// Whether a resolved status passes validation: a literal must be in range,
/// a reference is checked only where the generated code runs.
pub open spec fn status_valid(m: AttrModel<u16>) -> bool {
    match m {
        AttrModel::Literal(s) => status_in_range(s),
        AttrModel::Reference(_) => true,
    }
}

/// Whether an optional text attribute resolves.
pub open spec fn text_resolves(a: Option<AttrSyntax>) -> bool {
    match a {
        Some(x) => text_resolution(x) is Some,
        None => true,
    }
}

/// The first attribute of a variant that fails to resolve, if any.
pub open spec fn first_attr_failure(v: VariantDecl) -> Option<AttrName> {
    if v.status is None || status_resolution(v.status->0) is None {
        Some(AttrName::Status)
    } else if !text_resolves(v.title) {
        Some(AttrName::Title)
    } else if !text_resolves(v.detail) {
        Some(AttrName::Detail)
    } else if !text_resolves(v.ty) {
        Some(AttrName::Type)
    } else {
        None
    }
}

/// The resolved status of a variant whose attributes resolve.
pub open spec fn resolved_status(v: VariantDecl) -> AttrModel<u16> {
    status_resolution(v.status->0)->0
}

/// The resolved value of an optional text attribute.
pub open spec fn opt_text(a: Option<AttrSyntax>) -> Option<AttrModel<Seq<char>>> {
    match a {
        Some(x) => text_resolution(x),
        None => None,
    }
}

/// The problem type of a variant: its `ty`, or `about:blank`.
pub open spec fn type_of(v: VariantDecl) -> AttrModel<Seq<char>> {
    match opt_text(v.ty) {
        Some(m) => m,
        None => AttrModel::Literal("about:blank"@),
    }
}

/// The dispatch rule generated for a variant.
pub open spec fn variant_rule(v: VariantDecl) -> RuleModel {
    RuleModel {
        variant: v.name@,
        style: v.style,
        n_fields: v.n_fields as nat,
        status: resolved_status(v),
        ty: type_of(v),
        title: opt_text(v.title),
        detail: opt_text(v.detail),
    }
}

/// A property of the payload's schema. The status is a number, the others
/// are strings; the detail carries no constant.
#[derive(Debug, Clone, PartialEq, Eq)]
pub enum Property {
    Type(AttrValue<String>),
    Status(AttrValue<u16>),
    Title(AttrValue<String>),
    Detail,
}

/// The model of a schema property.
pub enum PropertyModel {
    Type(AttrModel<Seq<char>>),
    Status(AttrModel<u16>),
    Title(AttrModel<Seq<char>>),
    Detail,
}

/// The kind of value a schema property holds.
#[derive(Debug, Clone, Copy, PartialEq, Eq)]
pub enum SchemaKind {
    Number,
    Text,
}

impl Property {
    pub open spec fn model(self) -> PropertyModel {
        match self {
            Property::Type(v) => PropertyModel::Type(text_model(v)),
            Property::Status(v) => PropertyModel::Status(status_model(v)),
            Property::Title(v) => PropertyModel::Title(text_model(v)),
            Property::Detail => PropertyModel::Detail,
        }
    }

    /// The kind of value the property holds.
    pub fn kind(&self) -> (r: SchemaKind)
        ensures
            r == (if self is Status {
                SchemaKind::Number
            } else {
                SchemaKind::Text
            }),
    {
        match self {
            Property::Status(_) => SchemaKind::Number,
            _ => SchemaKind::Text,
        }
    }
}

/// The response metadata registered for one variant.
#[derive(Debug, Clone, PartialEq, Eq)]
pub struct MetadataRecord {
    pub status: AttrValue<u16>,
    pub description: Option<String>,
    pub properties: Vec<Property>,
}

/// The model of a metadata record.
pub struct RecordModel {
    pub status: AttrModel<u16>,
    pub description: Option<Seq<char>>,
    pub properties: Seq<PropertyModel>,
}

/// The models of a sequence of properties.
pub open spec fn property_models(ps: Seq<Property>) -> Seq<PropertyModel> {
    ps.map_values(|p: Property| p.model())
}

impl MetadataRecord {
    pub open spec fn model(self) -> RecordModel {
        RecordModel {
            status: status_model(self.status),
            description: opt_view(self.description),
            properties: property_models(self.properties@),
        }
    }
}

/// The schema properties of a variant's payload: type and status always,
/// then its title and its detail where it has them.
pub open spec fn variant_properties(v: VariantDecl) -> Seq<PropertyModel> {
    let base = seq![PropertyModel::Type(type_of(v)), PropertyModel::Status(resolved_status(v))];
    let with_title = match opt_text(v.title) {
        Some(t) => base.push(PropertyModel::Title(t)),
        None => base,
    };
    match opt_text(v.detail) {
        Some(_) => with_title.push(PropertyModel::Detail),
        None => with_title,
    }
}

/// The metadata record generated for a variant.
pub open spec fn variant_record(v: VariantDecl) -> RecordModel {
    RecordModel {
        status: resolved_status(v),
        description: description_of(v.docs@),
        properties: variant_properties(v),
    }
}

/// What is generated for an enum: its name, one metadata record and one
/// dispatch rule per variant, in the variants' order.
#[derive(Debug, Clone, PartialEq, Eq)]
pub struct Generated {
    pub name: String,
    pub records: Vec<MetadataRecord>,
    pub rules: Vec<DispatchRule>,
}

/// Whether every variant's attributes resolve.
pub open spec fn all_resolve(vs: Seq<VariantDecl>) -> bool {
    forall|i: int| 0 <= i < vs.len() ==> first_attr_failure(#[trigger] vs[i]) is None
}

/// Whether every variant's status passes validation.
pub open spec fn all_valid(vs: Seq<VariantDecl>) -> bool {
    forall|i: int| 0 <= i < vs.len() ==> status_valid(resolved_status(#[trigger] vs[i]))
}

/// Whether `g` holds, in order, what is generated for the variants `vs` of
/// the enum named `name`.
pub open spec fn generated_for(g: Generated, name: String, vs: Seq<VariantDecl>) -> bool {
    &&& g.name == name
    &&& g.records@.len() == vs.len()
    &&& g.rules@.len() == vs.len()
    &&& forall|i: int| 0 <= i < vs.len() ==> (#[trigger] g.records@[i]).model() == variant_record(vs[i])
    &&& forall|i: int| 0 <= i < vs.len() ==> (#[trigger] g.rules@[i]).model() == variant_rule(vs[i])
}

/// The outcome of generation, over the declaration alone.
pub open spec fn generation_ok(d: Declaration) -> bool {
    d.is_enum && all_resolve(d.variants@) && all_valid(d.variants@)
}

/// Whether `e` is the error that generation reports for `d`: for a struct,
/// that it is not an enum; else the first attribute that fails to resolve,
/// in variant order and, within a variant, in the order status, title,
/// detail, type; when all resolve, the first variant whose literal status is
/// out of range.
pub open spec fn is_generation_error(d: Declaration, e: GeneratorError) -> bool {
    let vs = d.variants@;
    match e {
        GeneratorError::NotAnEnum => !d.is_enum,
        GeneratorError::AttributeParseFailure { variant, attribute } => {
            &&& d.is_enum
            &&& variant < vs.len()
            &&& forall|j: int| 0 <= j < variant ==> first_attr_failure(#[trigger] vs[j]) is None
            &&& first_attr_failure(vs[variant as int]) == Some(attribute)
        },
        GeneratorError::InvalidStatusCode { variant } => {
            &&& d.is_enum
            &&& all_resolve(vs)
            &&& variant < vs.len()
            &&& forall|j: int| 0 <= j < variant ==> status_valid(resolved_status(#[trigger] vs[j]))
            &&& !status_valid(resolved_status(vs[variant as int]))
        },
    }
}

/// The resolved attributes of a variant.
pub struct ResolvedAttrs {
    pub status: AttrValue<u16>,
    pub ty: AttrValue<String>,
    pub title: Option<AttrValue<String>>,
    pub detail: Option<AttrValue<String>>,
}

/// Resolves an optional text attribute.
fn resolve_opt_text(a: &Option<AttrSyntax>) -> (r: Result<Option<AttrValue<String>>, ()>)
    ensures
        r is Ok <==> text_resolves(*a),
        r is Ok ==> opt_text_model(r->Ok_0) == opt_text(*a),
{
    match a {
        Some(x) => match resolve_text(x) {
            Some(v) => Ok(Some(v)),
            None => Err(()),
        },
        None => Ok(None),
    }
}

/// Resolves every attribute of a variant, or names the first that fails.
pub fn resolve_variant(v: &VariantDecl) -> (r: Result<ResolvedAttrs, AttrName>)
    ensures
        match r {
            Ok(a) => {
                &&& first_attr_failure(*v) is None
                &&& status_model(a.status) == resolved_status(*v)
                &&& text_model(a.ty) == type_of(*v)
                &&& opt_text_model(a.title) == opt_text(v.title)
                &&& opt_text_model(a.detail) == opt_text(v.detail)
            },
            Err(n) => first_attr_failure(*v) == Some(n),
        },
{
    let status = match &v.status {
        Some(s) => match resolve_status(s) {
            Some(x) => x,
            None => {
                return Err(AttrName::Status);
            },
        },
        None => {
            return Err(AttrName::Status);
        },
    };
    let title = match resolve_opt_text(&v.title) {
        Ok(t) => t,
        Err(_) => {
            return Err(AttrName::Title);
        },
    };
    let detail = match resolve_opt_text(&v.detail) {
        Ok(t) => t,
        Err(_) => {
            return Err(AttrName::Detail);
        },
    };
    let ty = match resolve_opt_text(&v.ty) {
        Ok(Some(t)) => t,
        Ok(None) => AttrValue::Literal(String::from_str("about:blank")),
        Err(_) => {
            return Err(AttrName::Type);
        },
    };
    Ok(ResolvedAttrs { status, ty, title, detail })
}

/// Checks a resolved status: a literal must be at least 100 and below 1000;
/// a reference is left to the code that evaluates it.
pub fn get_status(status: &AttrValue<u16>) -> (r: bool)
    ensures
        r == status_valid(status_model(*status)),
{
    match status {
        AttrValue::Literal(s) => 100 <= *s && *s < 1000,
        AttrValue::Reference(_) => true,
    }
}

/// The schema properties of a variant's payload.
fn build_properties(a: &ResolvedAttrs) -> (r: Vec<Property>)
    ensures
        property_models(r@) == ({
            let base = seq![PropertyModel::Type(text_model(a.ty)), PropertyModel::Status(status_model(a.status))];
            let with_title = match opt_text_model(a.title) {
                Some(t) => base.push(PropertyModel::Title(t)),
                None => base,
            };
            match a.detail {
                Some(_) => with_title.push(PropertyModel::Detail),
                None => with_title,
            }
        }),
{
    let mut ps: Vec<Property> = Vec::new();
    ps.push(Property::Type(copy_text(&a.ty)));
    ps.push(Property::Status(copy_status(&a.status)));
    match &a.title {
        Some(t) => {
            ps.push(Property::Title(copy_text(t)));
        },
        None => {},
    }
    match &a.detail {
        Some(_) => {
            ps.push(Property::Detail);
        },
        None => {},
    }
    proof {
        assert(property_models(ps@) =~= ({
            let base = seq![PropertyModel::Type(text_model(a.ty)), PropertyModel::Status(status_model(a.status))];
            let with_title = match opt_text_model(a.title) {
                Some(t) => base.push(PropertyModel::Title(t)),
                None => base,
            };
            match a.detail {
                Some(_) => with_title.push(PropertyModel::Detail),
                None => with_title,
            }
        }));
    }
    ps
}

/// The metadata record of a variant whose attributes resolved to `a`.
pub fn build_record(v: &VariantDecl, a: &ResolvedAttrs) -> (r: MetadataRecord)
    requires
        first_attr_failure(*v) is None,
        status_model(a.status) == resolved_status(*v),
        text_model(a.ty) == type_of(*v),
        opt_text_model(a.title) == opt_text(v.title),
        opt_text_model(a.detail) == opt_text(v.detail),
    ensures
        r.model() == variant_record(*v),
{
    let properties = build_properties(a);
    let description = get_description(&v.docs);
    proof {
        assert(property_models(properties@) =~= variant_properties(*v));
    }
    MetadataRecord { status: copy_status(&a.status), description, properties }
}

/// The dispatch rule of a variant whose attributes resolved to `a`.
pub fn build_rule(v: &VariantDecl, a: &ResolvedAttrs) -> (r: DispatchRule)
    requires
        first_attr_failure(*v) is None,
        status_model(a.status) == resolved_status(*v),
        text_model(a.ty) == type_of(*v),
        opt_text_model(a.title) == opt_text(v.title),
        opt_text_model(a.detail) == opt_text(v.detail),
    ensures
        r.model() == variant_rule(*v),
{
    let title = match &a.title {
        Some(t) => Some(copy_text(t)),
        None => None,
    };
    let detail = match &a.detail {
        Some(t) => Some(copy_text(t)),
        None => None,
    };
    DispatchRule {
        pattern: Pattern { variant: v.name.clone(), style: v.style, n_fields: v.n_fields },
        status: copy_status(&a.status),
        ty: copy_text(&a.ty),
        title,
        detail,
    }
}


/// Generates the metadata records and dispatch rules of an annotated enum.
/// Nothing is generated for a struct, nor when an attribute fails to resolve
/// or a literal status is out of range: the first such error is returned.
pub fn generate(d: &Declaration) -> (r: Result<Generated, GeneratorError>)
    ensures
        r is Ok <==> generation_ok(*d),
        match r {
            Ok(g) => generated_for(g, d.name, d.variants@),
            Err(e) => is_generation_error(*d, e),
        },
{
    if !d.is_enum {
        return Err(GeneratorError::NotAnEnum);
    }
    let vs = &d.variants;
    let mut resolved: Vec<ResolvedAttrs> = Vec::new();
    let mut i: usize = 0;
    while i < vs.len()
        invariant
            d.is_enum,
            vs == &d.variants,
            i <= vs.len(),
            resolved@.len() == i,
            forall|j: int| 0 <= j < i ==> first_attr_failure(#[trigger] vs@[j]) is None,
            forall|j: int| 0 <= j < i ==> {
                let a = #[trigger] resolved@[j];
                &&& status_model(a.status) == resolved_status(vs@[j])
                &&& text_model(a.ty) == type_of(vs@[j])
                &&& opt_text_model(a.title) == opt_text(vs@[j].title)
                &&& opt_text_model(a.detail) == opt_text(vs@[j].detail)
            },
        decreases vs.len() - i,
    {
        match resolve_variant(&vs[i]) {
            Ok(a) => {
                resolved.push(a);
            },
            Err(n) => {
                return Err(GeneratorError::AttributeParseFailure { variant: i, attribute: n });
            },
        }
        i = i + 1;
    }
    let mut k: usize = 0;
    while k < vs.len()
        invariant
            d.is_enum,
            vs == &d.variants,
            all_resolve(vs@),
            resolved@.len() == vs.len(),
            k <= vs.len(),
            forall|j: int| 0 <= j < vs.len() ==> status_model((#[trigger] resolved@[j]).status)
                == resolved_status(vs@[j]),
            forall|j: int| 0 <= j < k ==> status_valid(resolved_status(#[trigger] vs@[j])),
        decreases vs.len() - k,
    {
        if !get_status(&resolved[k].status) {
            return Err(GeneratorError::InvalidStatusCode { variant: k });
        }
        k = k + 1;
    }
    let mut records: Vec<MetadataRecord> = Vec::new();
    let mut rules: Vec<DispatchRule> = Vec::new();
    let mut m: usize = 0;
    while m < vs.len()
        invariant
            d.is_enum,
            vs == &d.variants,
            all_resolve(vs@),
            all_valid(vs@),
            resolved@.len() == vs.len(),
            forall|j: int| 0 <= j < vs.len() ==> {
                let a = #[trigger] resolved@[j];
                &&& status_model(a.status) == resolved_status(vs@[j])
                &&& text_model(a.ty) == type_of(vs@[j])
                &&& opt_text_model(a.title) == opt_text(vs@[j].title)
                &&& opt_text_model(a.detail) == opt_text(vs@[j].detail)
            },
            m <= vs.len(),
            records@.len() == m,
            rules@.len() == m,
            forall|j: int| 0 <= j < m ==> (#[trigger] records@[j]).model() == variant_record(vs@[j]),
            forall|j: int| 0 <= j < m ==> (#[trigger] rules@[j]).model() == variant_rule(vs@[j]),
        decreases vs.len() - m,
    {
        proof {
            assert(first_attr_failure(vs@[m as int]) is None);
        }
        records.push(build_record(&vs[m], &resolved[m]));
        rules.push(build_rule(&vs[m], &resolved[m]));
        m = m + 1;
    }
    Ok(Generated { name: d.name.clone(), records, rules })
}

impl Generated {
    /// The status of a value of the given variant, if the enum has it.
    pub fn classify(&self, variant: &String) -> (r: Option<AttrValue<u16>>)
        ensures
            match r {
                Some(s) => exists|i: int| first_rule_for(self.rules@, variant@, i) && s == self.rules@[i].status,
                None => forall|j: int| 0 <= j < self.rules@.len() ==> (#[trigger] self.rules@[j]).pattern.variant@ != variant@,
            },
    {
        match find_rule(&self.rules, variant) {
            Some(i) => Some(self.rules[i].classify()),
            None => None,
        }
    }

    /// The payload for a value of the given variant whose captured fields
    /// read as `fields`, if the enum has that variant.
    pub fn render(&self, variant: &String, fields: &Vec<String>) -> (r: Option<Problem>)
        ensures
            match r {
                Some(p) => exists|i: int| first_rule_for(self.rules@, variant@, i)
                    && p.model() == problem_of(self.rules@[i].model(), texts(fields@)),
                None => forall|j: int| 0 <= j < self.rules@.len() ==> (#[trigger] self.rules@[j]).pattern.variant@ != variant@,
            },
    {
        match find_rule(&self.rules, variant) {
            Some(i) => Some(self.rules[i].render(fields)),
            None => None,
        }
    }
}

} // verus!
