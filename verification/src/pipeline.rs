//! The pipeline for one document: extract, render, resolve, compose.
//!
//! Reading the source and writing the page are the caller's part: the
//! pipeline takes the raw text and hands back the page with its destination.

use crate::compose::{compose, loaded_templates, RenderError};
use crate::content::render_body;
use crate::metadata::{extract, matter_parse, schema_outcome, ExtractionError};
use crate::paths::{copy_path, destination_of, is_under, path_view, resolve, PathInfo};
use vstd::prelude::*;

verus! {

/// One source file: where it was found and what it holds.
#[derive(Debug, Clone, PartialEq, Eq)]
pub struct Document {
    pub source_path: Vec<String>,
    pub raw_text: String,
}

/// A finished page and the place it is to be written to.
#[derive(Debug, Clone, PartialEq, Eq)]
pub struct Page {
    pub destination_path: Vec<String>,
    pub html: String,
}

/// The stage at which a document failed, with what the stage reported.
#[derive(Debug, Clone, PartialEq, Eq)]
pub enum Failure {
    Extraction(ExtractionError),
    PathOutsideRoot,
    TemplateRender(String),
}

/// A failure, tagged with the document it belongs to.
#[derive(Debug, Clone, PartialEq, Eq)]
pub struct PipelineError {
    pub source_path: Vec<String>,
    pub failure: Failure,
}

/// The extension of every page.
pub open spec fn page_extension() -> Seq<char> {
    "html"@
}

/// The last step: the composed page goes to the resolved destination, and a
/// composer's error becomes the document's failure.
pub fn finish(source_path: &Vec<String>, info: PathInfo, composed: Result<String, RenderError>) -> (outcome:
    Result<Page, PipelineError>)
    ensures
        match composed {
            Ok(html) => {
                &&& outcome is Ok
                &&& outcome->Ok_0.html@ == html@
                &&& outcome->Ok_0.destination_path == info.destination_path
            },
            Err(error) => {
                &&& outcome is Err
                &&& path_view(outcome->Err_0.source_path@) == path_view(source_path@)
                &&& outcome->Err_0.failure is TemplateRender
                &&& outcome->Err_0.failure->TemplateRender_0@ == error->message@
            },
        },
{
    match composed {
        Ok(html) => Ok(Page { destination_path: info.destination_path, html }),
        Err(RenderError::TemplateRenderError { message }) => Err(
            PipelineError {
                source_path: copy_path(source_path),
                failure: Failure::TemplateRender(message),
            },
        ),
    }
}

/// Runs one document through the pipeline. The first stage that fails
/// decides the error: the metadata, then the path, then the template. On
/// success the page's destination is the document's place below the output
/// root, with the page extension.
pub fn process(
    document: &Document,
    input_root: &Vec<String>,
    output_root: &Vec<String>,
    template: &tera::Tera,
) -> (outcome: Result<Page, PipelineError>)
    ensures
        match outcome {
            Ok(page) => {
                &&& schema_outcome(matter_parse(document.raw_text@).0) is Ok
                &&& is_under(path_view(document.source_path@), path_view(input_root@))
                &&& loaded_templates(*template).contains("template.html"@)
                &&& path_view(page.destination_path@) == destination_of(
                    path_view(document.source_path@),
                    path_view(input_root@),
                    path_view(output_root@),
                    page_extension(),
                )
            },
            Err(error) => {
                &&& path_view(error.source_path@) == path_view(document.source_path@)
                &&& match error.failure {
                    Failure::Extraction(e) => schema_outcome(matter_parse(document.raw_text@).0)
                        == Err::<(Seq<char>, Seq<char>), ExtractionError>(e),
                    Failure::PathOutsideRoot => {
                        &&& schema_outcome(matter_parse(document.raw_text@).0) is Ok
                        &&& !is_under(path_view(document.source_path@), path_view(input_root@))
                    },
                    Failure::TemplateRender(_) => {
                        &&& schema_outcome(matter_parse(document.raw_text@).0) is Ok
                        &&& is_under(path_view(document.source_path@), path_view(input_root@))
                    },
                }
            },
        },
{
    let (front_matter, body) = match extract(document.raw_text.as_str()) {
        Ok(parts) => parts,
        Err(e) => {
            return Err(
                PipelineError {
                    source_path: copy_path(&document.source_path),
                    failure: Failure::Extraction(e),
                },
            );
        },
    };
    let body_html = render_body(body.as_str());
    let info = match resolve(&document.source_path, input_root, output_root, "html") {
        Ok(info) => info,
        Err(_) => {
            return Err(
                PipelineError {
                    source_path: copy_path(&document.source_path),
                    failure: Failure::PathOutsideRoot,
                },
            );
        },
    };
    let composed = compose(&front_matter, body_html.as_str(), info.link_prefix.as_str(), template);
    finish(&document.source_path, info, composed)
}

} // verus!
