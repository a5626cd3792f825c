use rustic::compose::RenderError;
use rustic::metadata::ExtractionError;
use rustic::paths::PathInfo;
use rustic::pipeline::{finish, process, Document, Failure, Page, PipelineError};

fn parts(items: &[&str]) -> Vec<String> {
    items.iter().map(|p| p.to_string()).collect()
}

fn layout() -> tera::Tera {
    let mut engine = tera::Tera::default();
    engine
        .add_raw_template(
            "template.html",
            "<title>{{ title }}</title><link href=\"{{ path_prefix }}/style.css\"><p>{{ stinger }}</p><main>{{ content | safe }}</main>",
        )
        .unwrap();
    engine
}

#[test]
fn end_to_end_blog_post() {
    let document = Document {
        source_path: parts(&["content", "blog", "post.md"]),
        raw_text: "---\ntitle: \"Hello\"\nstinger: \"A greeting\"\n---\n## Hi".to_string(),
    };
    let page = process(&document, &parts(&["content"]), &parts(&["public"]), &layout()).unwrap();
    assert_eq!(page.destination_path, parts(&["public", "blog", "post.html"]));
    assert_eq!(
        page.html,
        "<title>Hello</title><link href=\"../style.css\"><p>A greeting</p><main><h2>Hi</h2>\n</main>"
    );
}

#[test]
fn a_document_at_the_root_gets_an_empty_prefix() {
    let document = Document {
        source_path: parts(&["content", "index.md"]),
        raw_text: "---\ntitle: Home\nstinger: Start here\n---\nWelcome".to_string(),
    };
    let page = process(&document, &parts(&["content"]), &parts(&["public"]), &layout()).unwrap();
    assert_eq!(page.destination_path, parts(&["public", "index.html"]));
    assert_eq!(
        page.html,
        "<title>Home</title><link href=\"/style.css\"><p>Start here</p><main><p>Welcome</p>\n</main>"
    );
}

#[test]
fn processing_twice_gives_the_same_page() {
    let document = Document {
        source_path: parts(&["content", "a", "b", "deep.md"]),
        raw_text: "---\ntitle: Deep\nstinger: Far down\n---\n* one\n* two\n".to_string(),
    };
    let engine = layout();
    let first = process(&document, &parts(&["content"]), &parts(&["public"]), &engine);
    let second = process(&document, &parts(&["content"]), &parts(&["public"]), &engine);
    assert_eq!(first, second);
    assert!(first.unwrap().html.contains("href=\"..../style.css\""));
}

#[test]
fn missing_metadata_is_reported_with_the_source() {
    let document = Document { source_path: parts(&["content", "post.md"]), raw_text: "## Hi".to_string() };
    let outcome = process(&document, &parts(&["content"]), &parts(&["public"]), &layout());
    assert_eq!(
        outcome,
        Err(PipelineError {
            source_path: parts(&["content", "post.md"]),
            failure: Failure::Extraction(ExtractionError::MissingMetadata),
        })
    );
}

#[test]
fn incomplete_metadata_is_reported_with_the_source() {
    let document = Document {
        source_path: parts(&["content", "post.md"]),
        raw_text: "---\ntitle: Hello\n---\n## Hi".to_string(),
    };
    let outcome = process(&document, &parts(&["content"]), &parts(&["public"]), &layout());
    assert_eq!(
        outcome,
        Err(PipelineError {
            source_path: parts(&["content", "post.md"]),
            failure: Failure::Extraction(ExtractionError::InvalidMetadataSchema),
        })
    );
}

#[test]
fn a_source_outside_the_root_is_refused() {
    let document = Document {
        source_path: parts(&["drafts", "post.md"]),
        raw_text: "---\ntitle: Hello\nstinger: A greeting\n---\n## Hi".to_string(),
    };
    let outcome = process(&document, &parts(&["content"]), &parts(&["public"]), &layout());
    assert_eq!(
        outcome,
        Err(PipelineError { source_path: parts(&["drafts", "post.md"]), failure: Failure::PathOutsideRoot })
    );
}

#[test]
fn the_metadata_is_checked_before_the_path() {
    let document = Document { source_path: parts(&["drafts", "post.md"]), raw_text: "no block".to_string() };
    let outcome = process(&document, &parts(&["content"]), &parts(&["public"]), &layout());
    assert_eq!(outcome.unwrap_err().failure, Failure::Extraction(ExtractionError::MissingMetadata));
}

#[test]
fn a_missing_template_fails_the_document() {
    let document = Document {
        source_path: parts(&["content", "post.md"]),
        raw_text: "---\ntitle: Hello\nstinger: A greeting\n---\n## Hi".to_string(),
    };
    let outcome = process(&document, &parts(&["content"]), &parts(&["public"]), &tera::Tera::default());
    let error = outcome.unwrap_err();
    assert_eq!(error.source_path, parts(&["content", "post.md"]));
    assert!(matches!(error.failure, Failure::TemplateRender(_)));
}

#[test]
fn finish_puts_the_page_at_its_destination() {
    let info = PathInfo { destination_path: parts(&["public", "post.html"]), link_prefix: String::new() };
    let outcome = finish(&parts(&["content", "post.md"]), info, Ok("<html></html>".to_string()));
    assert_eq!(
        outcome,
        Ok(Page { destination_path: parts(&["public", "post.html"]), html: "<html></html>".to_string() })
    );
}

#[test]
fn finish_tags_a_render_error_with_the_source() {
    let info = PathInfo { destination_path: parts(&["public", "post.html"]), link_prefix: String::new() };
    let outcome = finish(
        &parts(&["content", "post.md"]),
        info,
        Err(RenderError::TemplateRenderError { message: "broken".to_string() }),
    );
    assert_eq!(
        outcome,
        Err(PipelineError {
            source_path: parts(&["content", "post.md"]),
            failure: Failure::TemplateRender("broken".to_string()),
        })
    );
}
