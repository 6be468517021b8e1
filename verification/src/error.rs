//! The closed set of failures that deriving metadata can end in.

use vstd::prelude::*;
use crate::token::Token;

verus! {

/// Why a file was not accepted, a pattern not applied or a record not
/// written. Every variant but `Compile` concerns one file only: the caller
/// reports it and goes on with the next file.
#[derive(Clone, Copy, Debug, PartialEq, Eq, Structural)]
pub enum Failure {
    /// A matching expression could not be built, or did not yield one
    /// captured text for each of its placeholders.
    Compile,
    /// None of the patterns matched the filename stem.
    NoPatternMatched,
    /// The regular expression did not match the filename stem.
    RegexNoMatch,
    /// The text meant for a numeric field is not a number.
    FieldConversion(Token),
    /// The text is not the spelling of any placeholder.
    UnknownToken,
    /// The text consists of numeric characters only and still is not a
    /// number that fits the field.
    InvalidNumber,
    /// The path does not name an existing file.
    NoSuchFile,
    /// The file name has no extension to tell its type by.
    MissingExtension,
    /// The file's type is not one that tags can be written to.
    UnsupportedFileType,
    /// The album cover is not an image of a known type.
    UnsupportedCover,
    /// A numeric field still holds an unresolved token.
    TokenInTag(Token),
    /// The tags could not be initialised in the file.
    InitFailed,
    /// The tags could not be read from the file.
    ReadFailed,
    /// The tags could not be written to the file.
    WriteFailed,
}

} // verus!
