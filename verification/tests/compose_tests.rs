use rustic::compose::{build_context, compose, page_from, template_name, RenderError};
use rustic::metadata::FrontMatter;

fn greeting() -> FrontMatter {
    FrontMatter { title: "Hello".to_string(), stinger: "A greeting".to_string() }
}

fn engine_with(layout: &str) -> tera::Tera {
    let mut engine = tera::Tera::default();
    engine.add_raw_template("template.html", layout).unwrap();
    engine
}

#[test]
fn template_name_is_fixed() {
    assert_eq!(template_name(), "template.html");
}

#[test]
fn build_context_binds_the_four_values() {
    let context = build_context(&greeting(), "<h2>Hi</h2>\n", "..");
    assert_eq!(context.get("title").and_then(|v| v.as_str()), Some("Hello"));
    assert_eq!(context.get("stinger").and_then(|v| v.as_str()), Some("A greeting"));
    assert_eq!(context.get("content").and_then(|v| v.as_str()), Some("<h2>Hi</h2>\n"));
    assert_eq!(context.get("path_prefix").and_then(|v| v.as_str()), Some(".."));
}

#[test]
fn build_context_binds_nothing_else() {
    let context = build_context(&greeting(), "body", "");
    let json = context.into_json();
    let object = json.as_object().unwrap();
    assert_eq!(object.len(), 4);
    let mut names: Vec<&str> = object.keys().map(|k| k.as_str()).collect();
    names.sort();
    assert_eq!(names, vec!["content", "path_prefix", "stinger", "title"]);
}

#[test]
fn compose_substitutes_every_value() {
    let engine = engine_with("{{ title }}|{{ stinger }}|{{ content | safe }}|{{ path_prefix }}/style.css");
    let page = compose(&greeting(), "<h2>Hi</h2>\n", "..", &engine);
    assert_eq!(page, Ok("Hello|A greeting|<h2>Hi</h2>\n|../style.css".to_string()));
}

#[test]
fn compose_without_the_template_fails() {
    let engine = tera::Tera::default();
    let page = compose(&greeting(), "body", "", &engine);
    assert!(matches!(page, Err(RenderError::TemplateRenderError { .. })));
}

#[test]
fn compose_with_an_undeclared_value_fails() {
    let engine = engine_with("{{ title }} {{ author }}");
    let page = compose(&greeting(), "body", "", &engine);
    assert!(matches!(page, Err(RenderError::TemplateRenderError { .. })));
}

#[test]
fn page_from_keeps_the_page() {
    assert_eq!(page_from(Ok("<html></html>".to_string())), Ok("<html></html>".to_string()));
}

#[test]
fn page_from_wraps_the_message() {
    assert_eq!(
        page_from(Err("no such template".to_string())),
        Err(RenderError::TemplateRenderError { message: "no such template".to_string() })
    );
}

#[test]
fn compose_reports_the_engine_message() {
    let page = compose(&greeting(), "body", "", &tera::Tera::default());
    match page {
        Err(RenderError::TemplateRenderError { message }) => {
            assert!(message.contains("template.html"));
        }
        Ok(_) => panic!("no template was loaded"),
    }
}
