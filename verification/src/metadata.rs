//! Front matter: the block of named values at the head of a document.
//!
//! Splitting a document and reading the block as YAML is left to the
//! `gray_matter` crate. The schema, a `title` and a `stinger` that are both
//! text, is checked here.

use vstd::prelude::*;

verus! {

/// A value of the front matter block, as `gray_matter` hands it out. Nothing
/// inside it is visible to the verifier.
#[verifier::external_type_specification]
#[verifier::external_body]
pub struct ExPod(gray_matter::Pod);

/// The names under which a block value holds text, each with its text. A
/// value that is no table of named values has none.
pub uninterp spec fn pod_texts(data: gray_matter::Pod) -> Map<Seq<char>, Seq<char>>;

/// What `gray_matter` makes of a raw document: the text entries of its
/// front matter block, where it has a block, and the body after it.
pub uninterp spec fn matter_parse(raw: Seq<char>) -> (Option<Map<Seq<char>, Seq<char>>>, Seq<char>);

/// The metadata every document must carry.
#[derive(Debug, Clone, PartialEq, Eq)]
pub struct FrontMatter {
    pub title: String,
    /// A short tagline.
    pub stinger: String,
}

/// Why a document's metadata was refused.
#[derive(Debug, Clone, Copy, PartialEq, Eq)]
pub enum ExtractionError {
    /// The document has no front matter block.
    MissingMetadata,
    /// The block lacks `title` or `stinger`, or holds something other than text there.
    InvalidMetadataSchema,
}

/// The text entries of a block, where there is a block.
pub open spec fn block_texts(data: Option<gray_matter::Pod>) -> Option<Map<Seq<char>, Seq<char>>> {
    match data {
        Some(block) => Some(pod_texts(block)),
        None => None,
    }
}

/// The text under a name, where there is one.
pub open spec fn text_under(texts: Map<Seq<char>, Seq<char>>, name: Seq<char>) -> Option<
    Seq<char>,
> {
    if texts.contains_key(name) {
        Some(texts[name])
    } else {
        None
    }
}

/// The schema: without a block the metadata is missing; with one, both
/// texts must be there, and they are returned as title and stinger.
pub open spec fn checked(
    has_block: bool,
    title: Option<Seq<char>>,
    stinger: Option<Seq<char>>,
) -> Result<(Seq<char>, Seq<char>), ExtractionError> {
    if !has_block {
        Err(ExtractionError::MissingMetadata)
    } else if title is Some && stinger is Some {
        Ok((title->Some_0, stinger->Some_0))
    } else {
        Err(ExtractionError::InvalidMetadataSchema)
    }
}

/// The schema applied to a block's text entries.
pub open spec fn schema_outcome(block: Option<Map<Seq<char>, Seq<char>>>) -> Result<
    (Seq<char>, Seq<char>),
    ExtractionError,
> {
    match block {
        Some(texts) => checked(true, text_under(texts, "title"@), text_under(texts, "stinger"@)),
        None => checked(false, None, None),
    }
}

/// A document without a block is refused as missing its metadata. One with
/// a block is accepted exactly where the block holds text under both
/// `title` and `stinger`, and then those two texts are what comes back;
/// where either is absent, the schema is what fails.
pub proof fn metadata_must_be_complete(block: Option<Map<Seq<char>, Seq<char>>>)
    ensures
        schema_outcome(block) is Ok <==> block is Some && block->Some_0.contains_key("title"@)
            && block->Some_0.contains_key("stinger"@),
        schema_outcome(block) is Ok ==> schema_outcome(block)->Ok_0 == (
            block->Some_0["title"@],
            block->Some_0["stinger"@],
        ),
        block is None ==> schema_outcome(block)->Err_0 == ExtractionError::MissingMetadata,
        block is Some && schema_outcome(block) is Err ==> schema_outcome(block)->Err_0
            == ExtractionError::InvalidMetadataSchema,
{
}

/// Calls `gray_matter::Matter::<YAML>::parse` with the default `---`
/// delimiter and keeps the block and the body of what it returns. Trusted:
/// that the block's text entries and the body depend on the raw text alone.
#[verifier::external_body]
fn split_matter(raw: &str) -> (parts: (Option<gray_matter::Pod>, String))
    ensures
        (block_texts(parts.0), parts.1@) == matter_parse(raw@),
{
    let parsed = gray_matter::Matter::<gray_matter::engine::YAML>::new().parse(raw);
    (parsed.data, parsed.content)
}

/// Looks a name up in a block value with `Pod::as_hashmap` and reads what is
/// found with `Pod::as_string`. Trusted: that the text comes back exactly
/// where the value is a table that holds text under the name.
#[verifier::external_body]
fn text_at(data: &gray_matter::Pod, name: &str) -> (text: Option<String>)
    ensures
        text is Some <==> pod_texts(*data).contains_key(name@),
        text is Some ==> text->Some_0@ == pod_texts(*data)[name@],
{
    match data.as_hashmap() {
        Ok(table) => match table.get(name) {
            Some(value) => value.as_string().ok(),
            None => None,
        },
        Err(_) => None,
    }
}

/// Checks what was found in a document against the schema. No default is
/// ever put in the place of a missing value.
pub fn check_schema(has_block: bool, title: Option<String>, stinger: Option<String>) -> (outcome:
    Result<FrontMatter, ExtractionError>)
    ensures
        match checked(
            has_block,
            match title {
                Some(t) => Some(t@),
                None => None,
            },
            match stinger {
                Some(s) => Some(s@),
                None => None,
            },
        ) {
            Ok((t, s)) => outcome is Ok && outcome->Ok_0.title@ == t && outcome->Ok_0.stinger@ == s,
            Err(e) => outcome is Err && outcome->Err_0 == e,
        },
{
    if !has_block {
        return Err(ExtractionError::MissingMetadata);
    }
    match (title, stinger) {
        (Some(title), Some(stinger)) => Ok(FrontMatter { title, stinger }),
        _ => Err(ExtractionError::InvalidMetadataSchema),
    }
}

/// Splits a raw document into its front matter and its body. It succeeds
/// exactly where the document has a block that holds text under both
/// `title` and `stinger`, and then returns those two texts and the body.
pub fn extract(raw_text: &str) -> (outcome: Result<(FrontMatter, String), ExtractionError>)
    ensures
        match schema_outcome(matter_parse(raw_text@).0) {
            Ok((t, s)) => {
                &&& outcome is Ok
                &&& outcome->Ok_0.0.title@ == t
                &&& outcome->Ok_0.0.stinger@ == s
                &&& outcome->Ok_0.1@ == matter_parse(raw_text@).1
            },
            Err(e) => outcome is Err && outcome->Err_0 == e,
        },
{
    let (data, body) = split_matter(raw_text);
    let verdict = match data {
        Some(block) => check_schema(true, text_at(&block, "title"), text_at(&block, "stinger")),
        None => check_schema(false, None, None),
    };
    match verdict {
        Ok(front_matter) => Ok((front_matter, body)),
        Err(e) => Err(e),
    }
}

} // verus!
