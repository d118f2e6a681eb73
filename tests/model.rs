use problem_details_derive::attr::{parse_u16, prefer_literal, resolve_status, resolve_text, AttrSyntax, AttrValue};
use problem_details_derive::dispatch::{find_rule, FieldStyle};
use problem_details_derive::docs::{get_description, join_doc_lines, leading_doc_lines};
use problem_details_derive::generate::{
    generate, get_status, AttrName, Declaration, GeneratorError, Property, SchemaKind, VariantDecl,
};
use problem_details_derive::template::render_template;

fn s(x: &str) -> String {
    x.to_string()
}

fn unit(name: &str, status: AttrSyntax) -> VariantDecl {
    VariantDecl {
        name: s(name),
        style: FieldStyle::Unit,
        n_fields: 0,
        docs: vec![],
        status: Some(status),
        title: None,
        detail: None,
        ty: None,
    }
}

fn int_lit(x: &str) -> AttrSyntax {
    AttrSyntax::IntLit(s(x))
}

fn decl(variants: Vec<VariantDecl>) -> Declaration {
    Declaration { name: s("E"), is_enum: true, variants }
}

#[test]
fn parse_u16_reads_decimal() {
    assert_eq!(parse_u16("404"), Some(404));
    assert_eq!(parse_u16("+7"), Some(7));
    assert_eq!(parse_u16("0065535"), Some(65535));
    assert_eq!(parse_u16("65536"), None);
    assert_eq!(parse_u16(""), None);
    assert_eq!(parse_u16("+"), None);
    assert_eq!(parse_u16("4x"), None);
    assert_eq!(parse_u16("-1"), None);
}

#[test]
fn literal_wins_over_path() {
    assert_eq!(prefer_literal(Some(3u16), Some(s("X"))), Some(AttrValue::Literal(3)));
    assert_eq!(prefer_literal::<u16>(None, Some(s("X"))), Some(AttrValue::Reference(s("X"))));
    assert_eq!(prefer_literal::<u16>(None, None), None);
}

#[test]
fn status_resolution_forms() {
    assert_eq!(resolve_status(&int_lit("500")), Some(AttrValue::Literal(500)));
    assert_eq!(resolve_status(&int_lit("70000")), None);
    assert_eq!(resolve_status(&AttrSyntax::StrLit(s("418"))), Some(AttrValue::Literal(418)));
    assert_eq!(
        resolve_status(&AttrSyntax::StrLit(s("codes::NOT_FOUND"))),
        Some(AttrValue::Reference(s("codes::NOT_FOUND")))
    );
    assert_eq!(resolve_status(&AttrSyntax::StrLit(s("not a path"))), None);
    assert_eq!(resolve_status(&AttrSyntax::PathExpr(s("CODE"))), Some(AttrValue::Reference(s("CODE"))));
    assert_eq!(resolve_status(&AttrSyntax::Other), None);
}

#[test]
fn text_resolution_forms() {
    assert_eq!(resolve_text(&AttrSyntax::StrLit(s("hi"))), Some(AttrValue::Literal(s("hi"))));
    assert_eq!(resolve_text(&AttrSyntax::PathExpr(s("TITLE"))), Some(AttrValue::Reference(s("TITLE"))));
    assert_eq!(resolve_text(&int_lit("3")), None);
    assert_eq!(resolve_text(&AttrSyntax::Other), None);
}

#[test]
fn status_range_edges() {
    assert!(!get_status(&AttrValue::Literal(99)));
    assert!(get_status(&AttrValue::Literal(100)));
    assert!(get_status(&AttrValue::Literal(999)));
    assert!(!get_status(&AttrValue::Literal(1000)));
    assert!(get_status(&AttrValue::Reference(s("ANY"))));
}

#[test]
fn generation_accepts_100_and_999() {
    let g = generate(&decl(vec![unit("A", int_lit("100")), unit("B", int_lit("999"))])).unwrap();
    assert_eq!(g.rules.len(), 2);
}

#[test]
fn generation_rejects_out_of_range_status() {
    let r = generate(&decl(vec![unit("A", int_lit("200")), unit("B", int_lit("99")), unit("C", int_lit("1000"))]));
    assert_eq!(r, Err(GeneratorError::InvalidStatusCode { variant: 1 }));
    let r = generate(&decl(vec![unit("A", int_lit("1000"))]));
    assert_eq!(r, Err(GeneratorError::InvalidStatusCode { variant: 0 }));
}

#[test]
fn generation_rejects_struct() {
    let d = Declaration { name: s("S"), is_enum: false, variants: vec![] };
    assert_eq!(generate(&d), Err(GeneratorError::NotAnEnum));
}

#[test]
fn attribute_failures_come_before_status_checks() {
    let mut bad = unit("B", int_lit("404"));
    bad.title = Some(int_lit("5"));
    let r = generate(&decl(vec![unit("A", int_lit("5")), bad]));
    assert_eq!(r, Err(GeneratorError::AttributeParseFailure { variant: 1, attribute: AttrName::Title }));
    let mut missing = unit("M", int_lit("404"));
    missing.status = None;
    let r = generate(&decl(vec![missing]));
    assert_eq!(r, Err(GeneratorError::AttributeParseFailure { variant: 0, attribute: AttrName::Status }));
    let mut bad_ty = unit("T", int_lit("404"));
    bad_ty.ty = Some(AttrSyntax::Other);
    let r = generate(&decl(vec![bad_ty]));
    assert_eq!(r, Err(GeneratorError::AttributeParseFailure { variant: 0, attribute: AttrName::Type }));
}

#[test]
fn records_follow_declaration_order() {
    let mut second = unit("Second", AttrSyntax::PathExpr(s("CODE")));
    second.docs = vec![s("  First line.  "), s(" Second line.")];
    second.title = Some(AttrSyntax::StrLit(s("T")));
    second.detail = Some(AttrSyntax::StrLit(s("d")));
    let g = generate(&decl(vec![unit("First", int_lit("400")), second, unit("Third", int_lit("500"))])).unwrap();
    let names: Vec<String> = g.rules.iter().map(|r| r.pattern.variant.clone()).collect();
    assert_eq!(names, vec![s("First"), s("Second"), s("Third")]);
    assert_eq!(g.records[0].status, AttrValue::Literal(400));
    assert_eq!(g.records[0].description, None);
    assert_eq!(
        g.records[0].properties,
        vec![Property::Type(AttrValue::Literal(s("about:blank"))), Property::Status(AttrValue::Literal(400))]
    );
    assert_eq!(g.records[1].status, AttrValue::Reference(s("CODE")));
    assert_eq!(g.records[1].description, Some(s("First line.\nSecond line.")));
    assert_eq!(
        g.records[1].properties,
        vec![
            Property::Type(AttrValue::Literal(s("about:blank"))),
            Property::Status(AttrValue::Reference(s("CODE"))),
            Property::Title(AttrValue::Literal(s("T"))),
            Property::Detail,
        ]
    );
    assert_eq!(g.records[2].status, AttrValue::Literal(500));
    assert_eq!(g.records[1].properties[1].kind(), SchemaKind::Number);
    assert_eq!(g.records[1].properties[3].kind(), SchemaKind::Text);
}

#[test]
fn generation_is_repeatable() {
    let d = decl(vec![unit("A", int_lit("404")), unit("B", AttrSyntax::StrLit(s("410")))]);
    assert_eq!(generate(&d), generate(&d));
}

#[test]
fn template_fills_positional_placeholders() {
    let args = vec![s("a"), s("b")];
    assert_eq!(render_template("{1}-{0}", &args), "b-a");
    assert_eq!(render_template("{{0}} {0}", &args), "{0} a");
    assert_eq!(render_template("{2} {x} {", &args), "{2} {x} {");
    assert_eq!(render_template("}} }", &args), "} }");
    assert_eq!(render_template("", &args), "");
    assert_eq!(render_template("{0}", &vec![]), "{0}");
    assert_eq!(render_template("{00001}", &args), "b");
    assert_eq!(render_template("{99999999999999999999999}", &args), "{99999999999999999999999}");
}

#[test]
fn one_placeholder_is_substituted() {
    assert_eq!(render_template("Value `{0}` is wrong", &vec![s("7")]), "Value `7` is wrong");
}

#[test]
fn description_trims_and_joins() {
    assert_eq!(get_description(&vec![]), None);
    assert_eq!(get_description(&vec![s("   "), s("  x "), s(""), s("y")]), Some(s("x\n\ny")));
    assert_eq!(get_description(&vec![s(" \t ")]), None);
    assert_eq!(join_doc_lines(&vec![s(""), s("a"), s("b")]), Some(s("a\nb")));
}

#[test]
fn referenced_detail_is_kept() {
    let mut v = unit("R", int_lit("400"));
    v.detail = Some(AttrSyntax::PathExpr(s("DETAIL")));
    v.n_fields = 1;
    v.style = FieldStyle::Tuple;
    let g = generate(&decl(vec![v])).unwrap();
    let p = g.render(&s("R"), &vec![s("1")]).unwrap();
    assert_eq!(p.detail, Some(AttrValue::Reference(s("DETAIL"))));
    assert_eq!(g.classify(&s("Missing")), None);
    assert_eq!(find_rule(&g.rules, &s("R")), Some(0));
}

#[test]
fn only_leading_doc_lines_count() {
    let attrs = vec![Some(s(" a")), Some(s("b ")), None, Some(s("late"))];
    assert_eq!(leading_doc_lines(&attrs), vec![s(" a"), s("b ")]);
    assert_eq!(leading_doc_lines(&vec![None, Some(s("x"))]), Vec::<String>::new());
    assert_eq!(leading_doc_lines(&vec![]), Vec::<String>::new());
    assert_eq!(get_description(&leading_doc_lines(&attrs)), Some(s("a\nb")));
}

#[test]
fn unicode_white_space_is_trimmed() {
    assert_eq!(get_description(&vec![s("\u{3000}x\u{a0}\u{2028}")]), Some(s("x")));
}
