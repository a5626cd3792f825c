//! Binding a document's values into the shared page template.
//!
//! Templates are loaded and rendered by the `tera` crate. What is handed to
//! the engine, and what becomes of its answer, is decided here.

use crate::metadata::FrontMatter;
use vstd::prelude::*;

verus! {

/// The template engine with its loaded templates. It is only read.
#[verifier::external_type_specification]
#[verifier::external_body]
pub struct ExTera(tera::Tera);

/// The values that a template is rendered with.
#[verifier::external_type_specification]
#[verifier::external_body]
pub struct ExContext(tera::Context);

/// The engine's own error.
#[verifier::external_type_specification]
#[verifier::external_body]
pub struct ExTeraError(tera::Error);

/// The names of the templates that an engine has loaded.
pub uninterp spec fn loaded_templates(engine: tera::Tera) -> Set<Seq<char>>;

/// The texts bound in a context, by name.
pub uninterp spec fn context_bindings(context: tera::Context) -> Map<Seq<char>, Seq<char>>;

/// Why no page came out.
#[derive(Debug, Clone, PartialEq, Eq)]
pub enum RenderError {
    /// The page template was not found, or its rendering failed.
    TemplateRenderError { message: String },
}

/// No name bound at all.
pub open spec fn no_bindings() -> Map<Seq<char>, Seq<char>> {
    Map::empty()
}

/// The four values that a page template may use, under their names.
pub open spec fn bindings_of(
    title: Seq<char>,
    stinger: Seq<char>,
    content: Seq<char>,
    link_prefix: Seq<char>,
) -> Map<Seq<char>, Seq<char>> {
    no_bindings().insert("title"@, title).insert(
        "stinger"@,
        stinger,
    ).insert("content"@, content).insert("path_prefix"@, link_prefix)
}

/// A context binds exactly four names, each to the value given for it.
pub proof fn bindings_are_exactly_four(
    title: Seq<char>,
    stinger: Seq<char>,
    content: Seq<char>,
    link_prefix: Seq<char>,
)
    ensures
        bindings_of(title, stinger, content, link_prefix).dom() == set![
            "title"@,
            "stinger"@,
            "content"@,
            "path_prefix"@,
        ],
        bindings_of(title, stinger, content, link_prefix).dom().len() == 4,
        bindings_of(title, stinger, content, link_prefix)["title"@] == title,
        bindings_of(title, stinger, content, link_prefix)["stinger"@] == stinger,
        bindings_of(title, stinger, content, link_prefix)["content"@] == content,
        bindings_of(title, stinger, content, link_prefix)["path_prefix"@] == link_prefix,
{
    reveal_strlit("title");
    reveal_strlit("stinger");
    reveal_strlit("content");
    reveal_strlit("path_prefix");
    assert("title"@.len() == 5 && "stinger"@.len() == 7);
    assert("content"@.len() == 7 && "path_prefix"@.len() == 11);
    assert("stinger"@[0] == 's' && "content"@[0] == 'c');
    assert("stinger"@ != "content"@);
    let names = set!["title"@, "stinger"@, "content"@, "path_prefix"@];
    assert(bindings_of(title, stinger, content, link_prefix).dom() =~= names);
    let one = Set::<Seq<char>>::empty().insert("title"@);
    let two = one.insert("stinger"@);
    let three = two.insert("content"@);
    let four = three.insert("path_prefix"@);
    assert(one.len() == 1);
    assert(two.len() == 2);
    assert(three.len() == 3);
    assert(four.len() == 4);
    assert(names =~= four);
}

/// `tera::Context::new`. Trusted: that the new context binds nothing.
#[verifier::external_body]
fn empty_context() -> (context: tera::Context)
    ensures
        context_bindings(context) == no_bindings(),
{
    tera::Context::new()
}

/// `tera::Context::insert` with a text as the value. Trusted: that the name
/// is bound to the text afterwards, in the place of what it was bound to
/// before, and that no other binding changes.
#[verifier::external_body]
fn bind_text(context: &mut tera::Context, name: &str, text: &str)
    ensures
        context_bindings(*final(context)) == context_bindings(*old(context)).insert(name@, text@),
{
    context.insert(name, text);
}

/// `tera::Tera::render`. Trusted: that it fails where no template of that
/// name is loaded. Nothing else is claimed of its answer: a template may ask
/// the engine for the time, the environment or a random number.
#[verifier::external_body]
fn render_template(template: &tera::Tera, name: &str, context: &tera::Context) -> (rendered:
    Result<String, tera::Error>)
    ensures
        !loaded_templates(*template).contains(name@) ==> rendered is Err,
{
    template.render(name, context)
}

/// The engine's error as text, by its `Display`. Nothing is claimed of the text.
#[verifier::external_body]
fn error_text(error: &tera::Error) -> (text: String) {
    error.to_string()
}

/// The name under which the page template is loaded.
pub fn template_name() -> (name: &'static str)
    ensures
        name@ == "template.html"@,
{
    "template.html"
}

/// Builds the context for one page: title, stinger, content and link
/// prefix, and nothing else.
pub fn build_context(front_matter: &FrontMatter, body_html: &str, link_prefix: &str) -> (context:
    tera::Context)
    ensures
        context_bindings(context) == bindings_of(
            front_matter.title@,
            front_matter.stinger@,
            body_html@,
            link_prefix@,
        ),
{
    let mut context = empty_context();
    bind_text(&mut context, "title", front_matter.title.as_str());
    bind_text(&mut context, "stinger", front_matter.stinger.as_str());
    bind_text(&mut context, "content", body_html);
    bind_text(&mut context, "path_prefix", link_prefix);
    context
}

/// Turns the engine's answer into the composer's: the page as it was
/// rendered, or the engine's message as a template render error.
pub fn page_from(rendered: Result<String, String>) -> (page: Result<String, RenderError>)
    ensures
        match rendered {
            Ok(html) => page is Ok && page->Ok_0@ == html@,
            Err(message) => page is Err && page->Err_0->message@ == message@,
        },
{
    match rendered {
        Ok(html) => Ok(html),
        Err(message) => Err(RenderError::TemplateRenderError { message }),
    }
}

/// Renders the page template with the four values of one document. Without
/// a loaded page template there is no page. With one, whether a page comes
/// out is the engine's decision: a name that the template uses without its
/// being bound ends in an error too.
pub fn compose(
    front_matter: &FrontMatter,
    body_html: &str,
    link_prefix: &str,
    template: &tera::Tera,
) -> (page: Result<String, RenderError>)
    ensures
        !loaded_templates(*template).contains("template.html"@) ==> page is Err,
{
    let context = build_context(front_matter, body_html, link_prefix);
    let rendered = match render_template(template, template_name(), &context) {
        Ok(html) => Ok(html),
        Err(error) => Err(error_text(&error)),
    };
    page_from(rendered)
}

} // verus!
