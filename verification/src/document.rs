//! The whole pipeline on one document: scan, decode, convert, encode,
//! assemble. Each failure keeps its kind, so a caller can tell the swallowed
//! cases (no front matter, bad metadata) from the reported ones (a bad date,
//! a failed encoding).

use vstd::prelude::*;
use crate::convert::{convert_front, ConvertError};
use crate::datetime::parsed_datetime;
use crate::decode::{
    decode_failure, decode_front, parse_yaml_block, required_text, residual_entries,
    yaml_front_entries, DecodeError,
};
use crate::encode::{assemble, encode_front, entry_views, toml_encoding};
use crate::scanner::{join_lines, scan, spec_content, spec_front, spec_joined, spec_state, ScanState};
use crate::values::{datetime_value, text_value};

verus! {

/// Every way the pipeline can end without a document. The first four are the
/// quiet outcomes: the input simply carries no usable front matter. The last
/// two are reported failures.
#[derive(Clone, Copy, PartialEq, Eq, Structural, Debug)]
pub enum DocumentError {
    /// The scanner never saw an opening and a closing delimiter line.
    NoFrontMatter,
    /// The metadata block is not a valid mapping with textual keys.
    MalformedMetadata,
    /// A required metadata field is absent.
    MissingField,
    /// A required metadata field is not a textual scalar.
    WrongShape,
    /// The `date` text does not conform to the accepted date grammar.
    InvalidDate,
    /// The target serializer could not write the record.
    Encoding,
}

impl DocumentError {
    /// The outcomes that the conversion swallows: the document is dropped
    /// with no output and no report.
    pub open spec fn spec_is_silent(self) -> bool {
        match self {
            DocumentError::NoFrontMatter => true,
            DocumentError::MalformedMetadata => true,
            DocumentError::MissingField => true,
            DocumentError::WrongShape => true,
            DocumentError::InvalidDate => false,
            DocumentError::Encoding => false,
        }
    }

    /// Whether this outcome is swallowed rather than reported.
    pub fn is_silent(&self) -> (r: bool)
        ensures
            r == self.spec_is_silent(),
    {
        match self {
            DocumentError::NoFrontMatter => true,
            DocumentError::MalformedMetadata => true,
            DocumentError::MissingField => true,
            DocumentError::WrongShape => true,
            DocumentError::InvalidDate => false,
            DocumentError::Encoding => false,
        }
    }

    /// A short description of the outcome, for a report.
    pub fn describe(&self) -> (r: &'static str)
        ensures
            match self {
                DocumentError::NoFrontMatter => r@ == "no front matter found"@,
                DocumentError::MalformedMetadata => r@ == "front matter is not a key-value mapping"@,
                DocumentError::MissingField => r@ == "front matter lacks a required field"@,
                DocumentError::WrongShape => r@ == "a required field is not text"@,
                DocumentError::InvalidDate => r@ == "the date field does not parse as a date"@,
                DocumentError::Encoding => r@ == "the converted metadata cannot be encoded"@,
            },
    {
        match self {
            DocumentError::NoFrontMatter => "no front matter found",
            DocumentError::MalformedMetadata => "front matter is not a key-value mapping",
            DocumentError::MissingField => "front matter lacks a required field",
            DocumentError::WrongShape => "a required field is not text",
            DocumentError::InvalidDate => "the date field does not parse as a date",
            DocumentError::Encoding => "the converted metadata cannot be encoded",
        }
    }
}

/// What the whole pipeline returns on the given input lines: the converted
/// document, or the exact failure, stage by stage.
pub open spec fn pipeline_spec(lines: Seq<String>) -> Result<Seq<char>, DocumentError> {
    if !(spec_state(lines) is Content) {
        Err(DocumentError::NoFrontMatter)
    } else {
        match yaml_front_entries(spec_joined(spec_front(lines))) {
            None => Err(DocumentError::MalformedMetadata),
            Some(entries) => match decode_failure(entries) {
                Some(DecodeError::MissingField) => Err(DocumentError::MissingField),
                Some(DecodeError::WrongShape) => Err(DocumentError::WrongShape),
                None => match parsed_datetime(required_text(entries, "date"@)->Some_0) {
                    None => Err(DocumentError::InvalidDate),
                    Some(d) => {
                        let table = seq![
                            ("title"@, text_value(required_text(entries, "title"@)->Some_0)),
                            ("date"@, datetime_value(d)),
                            ("description"@, text_value(required_text(entries, "subtitle"@)->Some_0)),
                            ("author"@, text_value(required_text(entries, "author"@)->Some_0)),
                        ] + entry_views(residual_entries(entries));
                        match toml_encoding(table) {
                            None => Err(DocumentError::Encoding),
                            Some(block) => Ok(
                                "+++\n"@ + block + "\n+++\n"@ + spec_joined(spec_content(lines)),
                            ),
                        }
                    },
                },
            },
        }
    }
}

/// A document with no delimiter line at all produces no output and no
/// reported failure: the pipeline ends in the quiet `NoFrontMatter` outcome.
pub proof fn lemma_no_delimiter_is_quiet(lines: Seq<String>)
    requires
        crate::scanner::has_no_delimiter(lines),
    ensures
        pipeline_spec(lines) == Err::<Seq<char>, DocumentError>(DocumentError::NoFrontMatter),
        pipeline_spec(lines)->Err_0.spec_is_silent(),
{
    crate::scanner::lemma_unknown_skips(Seq::<String>::empty(), lines);
    assert(Seq::<String>::empty() + lines =~= lines);
}

/// Run the whole conversion on a document given as its lines, without their
/// line breaks: the result is the re-assembled document text, or the exact
/// failure that ended the pipeline.
pub fn convert_document(lines: &Vec<String>) -> (r: Result<String, DocumentError>)
    ensures
        match r {
            Ok(s) => pipeline_spec(lines@) == Ok::<Seq<char>, DocumentError>(s@),
            Err(e) => pipeline_spec(lines@) == Err::<Seq<char>, DocumentError>(e),
        },
{
    let outcome = scan(lines);
    let reached_content = match outcome.state {
        ScanState::Content => true,
        _ => false,
    };
    if !reached_content {
        return Err(DocumentError::NoFrontMatter);
    }
    let raw_front = join_lines(&outcome.front);
    let entries = match parse_yaml_block(raw_front.as_str()) {
        Some(entries) => entries,
        None => return Err(DocumentError::MalformedMetadata),
    };
    let ghost entries_view = entries@;
    let front = match decode_front(entries) {
        Ok(front) => front,
        Err(DecodeError::MissingField) => return Err(DocumentError::MissingField),
        Err(DecodeError::WrongShape) => return Err(DocumentError::WrongShape),
    };
    let zola = match convert_front(front) {
        Ok(zola) => zola,
        Err(ConvertError::InvalidDate) => return Err(DocumentError::InvalidDate),
    };
    let ghost zola_view = zola;
    let content = join_lines(&outcome.content);
    let encoded = match encode_front(zola) {
        Some(encoded) => encoded,
        None => return Err(DocumentError::Encoding),
    };
    proof {
        assert(crate::encode::front_entries(zola_view) =~= seq![
            ("title"@, text_value(required_text(entries_view, "title"@)->Some_0)),
            ("date"@, datetime_value(parsed_datetime(required_text(entries_view, "date"@)->Some_0)->Some_0)),
            ("description"@, text_value(required_text(entries_view, "subtitle"@)->Some_0)),
            ("author"@, text_value(required_text(entries_view, "author"@)->Some_0)),
        ] + entry_views(residual_entries(entries_view)));
    }
    Ok(assemble(encoded, &content))
}

} // verus!

