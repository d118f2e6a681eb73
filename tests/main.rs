use problem_details_derive::attr::{AttrSyntax, AttrValue};
use problem_details_derive::dispatch::{problem_content_type, FieldStyle, Problem};
use problem_details_derive::generate::{generate, Declaration, Generated, VariantDecl};

fn s(x: &str) -> String {
    x.to_string()
}

fn variant(
    name: &str,
    style: FieldStyle,
    n_fields: usize,
    status: u16,
    title: Option<&str>,
    detail: Option<&str>,
    ty: Option<&str>,
) -> VariantDecl {
    VariantDecl {
        name: s(name),
        style,
        n_fields,
        docs: vec![],
        status: Some(AttrSyntax::IntLit(status.to_string())),
        title: title.map(|t| AttrSyntax::StrLit(s(t))),
        detail: detail.map(|t| AttrSyntax::StrLit(s(t))),
        ty: ty.map(|t| AttrSyntax::StrLit(s(t))),
    }
}

fn index_error() -> Generated {
    let decl = Declaration {
        name: s("IndexError"),
        is_enum: true,
        variants: vec![
            variant("PlainError", FieldStyle::Unit, 0, 404, None, None, None),
            variant(
                "ErrorWithType",
                FieldStyle::Unit,
                0,
                422,
                None,
                None,
                Some("https://example.com/probs/out-of-credit"),
            ),
            variant("ErrorWithTitle", FieldStyle::Unit, 0, 401, Some("Something went wrong"), None, None),
            variant("ErrorWithDetail", FieldStyle::Tuple, 1, 403, None, Some("Fill this number `{0}`"), None),
        ],
    };
    generate(&decl).expect("the declaration is valid")
}

fn lit(x: &str) -> AttrValue<String> {
    AttrValue::Literal(s(x))
}

#[test]
fn it_should_respond_with_the_correct_code() {
    let g = index_error();
    assert_eq!(g.classify(&s("PlainError")), Some(AttrValue::Literal(404)));
}

#[test]
fn it_should_respond_with_content_type_problem_json() {
    assert_eq!(problem_content_type(), "application/problem+json");
}

#[test]
fn it_should_respond_with_about_blank_if_no_type_is_provided() {
    let g = index_error();
    let body = g.render(&s("PlainError"), &vec![]).expect("Failed to get json body");
    assert_eq!(
        body,
        Problem { ty: lit("about:blank"), status: AttrValue::Literal(404), title: None, detail: None }
    );
}

#[test]
fn it_should_respond_with_a_type_if_provided() {
    let g = index_error();
    let body = g.render(&s("ErrorWithType"), &vec![]).expect("Failed to get json body");
    assert_eq!(
        body,
        Problem {
            ty: lit("https://example.com/probs/out-of-credit"),
            status: AttrValue::Literal(422),
            title: None,
            detail: None,
        }
    );
}

#[test]
fn it_should_respond_with_a_title_if_provided() {
    let g = index_error();
    let body = g.render(&s("ErrorWithTitle"), &vec![]).expect("Failed to get json body");
    assert_eq!(
        body,
        Problem {
            ty: lit("about:blank"),
            status: AttrValue::Literal(401),
            title: Some(lit("Something went wrong")),
            detail: None,
        }
    );
}

#[test]
fn it_should_respond_with_a_detail_if_provided() {
    let g = index_error();
    let body = g.render(&s("ErrorWithDetail"), &vec![42u16.to_string()]).expect("Failed to get json body");
    assert_eq!(
        body,
        Problem {
            ty: lit("about:blank"),
            status: AttrValue::Literal(403),
            title: None,
            detail: Some(lit("Fill this number `42`")),
        }
    );
}
