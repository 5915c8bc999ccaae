//! The step from the parser's outcome to a document that can be loaded.
//!
//! The parser is `fbxcel_dom`. It is called by the caller, on the bytes of
//! the file; which of its outcomes count as a document that can be loaded,
//! and with which error the others end the load, is decided here.

use vstd::prelude::*;
use fbxcel_dom::v7400::Document;
use crate::error::FbxLoadingError;

verus! {

/// A document as the parser makes it of a file of FBX version 7.
#[verifier::external_type_specification]
#[verifier::external_body]
pub struct ExDocument(Document);

/// Why the parser gave no document.
#[derive(Debug, PartialEq, Eq)]
pub enum ParseFailure {
    /// The parser read the file, but as a document of another kind than
    /// that of FBX version 7.
    OtherVersion,
    /// The parser reports a version that it does not support.
    UnsupportedVersion,
    /// The reader below the parser has no parser for the version that the
    /// file declares: it reads the versions from 7.0 to 7.9.
    UnsupportedParserVersion,
    /// The bytes are no well-formed document; the text is the parser's.
    Malformed(String),
}

/// The error with which a failure of the parser ends the load: each of the
/// three failures that speak of the version gives
/// `UnsupportedDocumentVersion`, and bytes that are no well-formed document
/// give the parser's text.
pub open spec fn loading_error(failure: ParseFailure) -> FbxLoadingError {
    match failure {
        ParseFailure::Malformed(text) => FbxLoadingError::Other(text),
        _ => FbxLoadingError::UnsupportedDocumentVersion,
    }
}

/// Decides what the parser's outcome means for the load: a document is
/// loaded, and a failure ends the load with its error.
pub fn document_from(parsed: Result<Document, ParseFailure>) -> (result: Result<
    Document,
    FbxLoadingError,
>)
    ensures
        match parsed {
            Ok(document) => result == Ok::<Document, FbxLoadingError>(document),
            Err(failure) => result == Err::<Document, FbxLoadingError>(loading_error(failure)),
        },
{
    match parsed {
        Ok(document) => Ok(document),
        Err(ParseFailure::Malformed(text)) => Err(FbxLoadingError::Other(text)),
        Err(_) => Err(FbxLoadingError::UnsupportedDocumentVersion),
    }
}

} // verus!
