//! An audio file that was accepted for tagging, and what is derived for it
//! from its name.

use vstd::prelude::*;
use crate::error::Failure;
use crate::metadata::{Metadata, MetadataView};
use crate::options::{FilenameMode, FilenameModeView, Mode};
use crate::pattern::{first_match, match_first, metadata_result_view, ParsePattern, patterns_view};
use crate::regex_engine::{captures, regex_outcome, RegexOutcome};
use crate::substitute::{substitute_captures, substitution};
use crate::tags::{
    is_supported_type, supported, tag_format_of, tag_update, tag_update_of, write_step, TagFormat,
    WriteAction, WriteState,
};
use crate::text::text_view;

verus! {

/// `str::to_lowercase`: the lowercase form of a text.
pub uninterp spec fn lowercase(s: Seq<char>) -> Seq<char>;

/// `str::to_lowercase` gives the lowercase equivalent of its argument, as
/// Unicode defines it: a function of the text alone.
pub assume_specification[ str::to_lowercase ](s: &str) -> (r: String)
    ensures
        r@ == lowercase(s@),
;

/// What the file system and the path syntax say of a candidate path. The
/// caller fills it in; the fields are what `std::path::Path` gives for the
/// path.
#[derive(Clone, Debug, PartialEq, Eq)]
pub struct PathParts {
    /// The path as it was given.
    pub path: String,
    /// The extension of the file name, without the dot.
    pub extension: Option<String>,
    /// The file name without its extension.
    pub file_stem: Option<String>,
    /// Whether the path names an existing regular file.
    pub is_file: bool,
}

/// What a `PathParts` holds.
pub struct PathPartsView {
    pub path: Seq<char>,
    pub extension: Option<Seq<char>>,
    pub file_stem: Option<Seq<char>>,
    pub is_file: bool,
}

impl View for PathParts {
    type V = PathPartsView;

    open spec fn view(&self) -> PathPartsView {
        PathPartsView {
            path: self.path@,
            extension: text_view(self.extension),
            file_stem: text_view(self.file_stem),
            is_file: self.is_file,
        }
    }
}

/// A file that tags can be written to.
#[derive(Debug)]
pub struct AudioFile {
    path: String,
    stem: String,
    extension: String,
}

/// What an `AudioFile` holds.
pub struct AudioFileView {
    /// The path as it was given.
    pub path: Seq<char>,
    /// The file name without its extension.
    pub stem: Seq<char>,
    /// The extension in lower case.
    pub extension: Seq<char>,
}

impl View for AudioFile {
    type V = AudioFileView;

    closed spec fn view(&self) -> AudioFileView {
        AudioFileView { path: self.path@, stem: self.stem@, extension: self.extension@ }
    }
}

/// The extension by which a candidate's file type is told: its extension in
/// lower case, empty where it has none.
pub open spec fn type_extension(parts: PathPartsView) -> Seq<char> {
    match parts.extension {
        Some(ext) => lowercase(ext),
        None => Seq::empty(),
    }
}

/// Whether a candidate is accepted, and why not: it must be an existing
/// file, its name must have an extension, and the extension must be that of
/// a supported type. The conditions are looked at in this order.
pub open spec fn acceptance(parts: PathPartsView) -> Result<AudioFileView, Failure> {
    if !parts.is_file {
        Err(Failure::NoSuchFile)
    } else if type_extension(parts).len() == 0 || parts.file_stem is None {
        Err(Failure::MissingExtension)
    } else if !supported(type_extension(parts)) {
        Err(Failure::UnsupportedFileType)
    } else {
        Ok(
            AudioFileView {
                path: parts.path,
                stem: parts.file_stem->Some_0,
                extension: type_extension(parts),
            },
        )
    }
}

/// The view of an accepted file, or the failure.
pub open spec fn file_result_view(r: Result<AudioFile, Failure>) -> Result<AudioFileView, Failure> {
    match r {
        Ok(f) => Ok(f@),
        Err(e) => Err(e),
    }
}

/// The record that the regular expression `regex` derives from `stem` and
/// the override `over`.
pub open spec fn regex_derived(regex: Seq<char>, stem: Seq<char>, over: MetadataView) -> Result<
    MetadataView,
    Failure,
> {
    match regex_outcome(regex, stem) {
        RegexOutcome::Invalid => Err(Failure::Compile),
        RegexOutcome::NoMatch => Err(Failure::RegexNoMatch),
        RegexOutcome::Match(groups) => substitution(over, groups),
    }
}

/// The record to write for a file with the name `stem`. Templates derive a
/// record, into which the override is merged. A regular expression fills
/// the override's tokens, and what comes out is final.
pub open spec fn derived(stem: Seq<char>, over: MetadataView, mode: FilenameModeView) -> Result<
    MetadataView,
    Failure,
> {
    match mode {
        FilenameModeView::Parse(patterns) => match first_match(patterns, stem) {
            Ok(m) => Ok(m.merged(over)),
            Err(e) => Err(e),
        },
        FilenameModeView::Regex(regex) => regex_derived(regex, stem, over),
    }
}

impl AudioFile {
    #[verifier::type_invariant]
    spec fn type_is_supported(&self) -> bool {
        supported(self.extension@)
    }

    /// Accepts a candidate path as an audio file.
    pub fn new(file: &PathParts) -> (r: Result<AudioFile, Failure>)
        ensures
            file_result_view(r) == acceptance(file@),
    {
        let ext = match &file.extension {
            Some(x) => x.as_str().to_lowercase(),
            None => String::new(),
        };
        if !file.is_file {
            return Err(Failure::NoSuchFile);
        }
        if ext.as_str().is_empty() {
            return Err(Failure::MissingExtension);
        }
        let stem = match &file.file_stem {
            Some(s) => s.clone(),
            None => {
                return Err(Failure::MissingExtension);
            },
        };
        if !is_supported_type(ext.as_str()) {
            return Err(Failure::UnsupportedFileType);
        }
        Ok(AudioFile { path: file.path.clone(), stem, extension: ext })
    }

    /// The path as it was given.
    pub fn path(&self) -> (r: String)
        ensures
            r@ == self@.path,
    {
        self.path.clone()
    }

    /// The file name without its extension.
    pub fn filename_stem(&self) -> (r: String)
        ensures
            r@ == self@.stem,
    {
        self.stem.clone()
    }

    /// The format of the empty tags to write to the file where it has none.
    pub fn init_metadata(&self) -> (r: TagFormat)
        ensures
            Some(r) == tag_format_of(self@.extension),
    {
        proof {
            use_type_invariant(self);
        }
        match TagFormat::for_extension(self.extension.as_str()) {
            Some(format) => format,
            None => vstd::pervasive::unreached(),
        }
    }

    /// One step of writing `metadata` to the file's tags. The caller starts
    /// in `WriteState::Start`, does what the step says, and comes back with
    /// the state that the step gave and with whether the action succeeded,
    /// until the step says `Finish` or `Fail`. `cover_extension` is the
    /// extension of the album cover's file, if the record has a cover and
    /// its file an extension.
    pub fn write_metadata(
        &self,
        metadata: &Metadata,
        cover_extension: Option<&str>,
        state: WriteState,
        succeeded: bool,
    ) -> (r: (WriteState, WriteAction))
        ensures
            (r.0, r.1@) == write_step(
                tag_format_of(self@.extension)->Some_0,
                tag_update_of(
                    metadata@,
                    match cover_extension {
                        Some(ext) => Some(ext@),
                        None => None,
                    },
                ),
                state,
                succeeded,
            ),
    {
        match state {
            WriteState::Start => (WriteState::Reading, WriteAction::Read),
            WriteState::Reading => if succeeded {
                self.write_values(metadata, cover_extension)
            } else {
                (WriteState::Initializing, WriteAction::Init(self.init_metadata()))
            },
            WriteState::Initializing => if succeeded {
                (WriteState::Rereading, WriteAction::Read)
            } else {
                (WriteState::Done, WriteAction::Fail(Failure::InitFailed))
            },
            WriteState::Rereading => if succeeded {
                self.write_values(metadata, cover_extension)
            } else {
                (WriteState::Done, WriteAction::Fail(Failure::ReadFailed))
            },
            WriteState::Writing => if succeeded {
                (WriteState::Done, WriteAction::Finish)
            } else {
                (WriteState::Done, WriteAction::Fail(Failure::WriteFailed))
            },
            WriteState::Done => (WriteState::Done, WriteAction::Finish),
        }
    }

    fn write_values(&self, metadata: &Metadata, cover_extension: Option<&str>) -> (r: (
        WriteState,
        WriteAction,
    ))
        ensures
            (r.0, r.1@) == crate::tags::after_read(
                tag_update_of(
                    metadata@,
                    match cover_extension {
                        Some(ext) => Some(ext@),
                        None => None,
                    },
                ),
            ),
    {
        match tag_update(metadata, cover_extension) {
            Ok(update) => (WriteState::Writing, WriteAction::Write(update)),
            Err(e) => (WriteState::Done, WriteAction::Fail(e)),
        }
    }

    /// Derives the record to write to this file: from its name by
    /// `filename_mode`, and from the override `metadata`.
    pub fn process_file(&self, metadata: &Metadata, mode: Mode, filename_mode: &FilenameMode) -> (r:
        Result<Metadata, Failure>)
        requires
            mode == Mode::FromFilename,
        ensures
            metadata_result_view(r) == derived(self@.stem, metadata@, filename_mode@),
    {
        match filename_mode {
            FilenameMode::Parse(parse_patterns) => {
                match self.parse_metadata_from_filename(parse_patterns.as_slice()) {
                    Ok(mut derived_metadata) => {
                        derived_metadata.update(metadata);
                        Ok(derived_metadata)
                    },
                    Err(e) => Err(e),
                }
            },
            FilenameMode::Regex(regex) => self.regex_metadata_from_filename(
                regex.as_str(),
                metadata,
            ),
        }
    }

    /// Matches `regex` against the file's name and substitutes what it
    /// captured for the positional tokens in the override `metadata`.
    pub fn regex_metadata_from_filename(&self, regex: &str, metadata: &Metadata) -> (r: Result<
        Metadata,
        Failure,
    >)
        ensures
            metadata_result_view(r) == regex_derived(regex@, self@.stem, metadata@),
    {
        match captures(regex, self.stem.as_str()) {
            Err(_) => Err(Failure::Compile),
            Ok(None) => Err(Failure::RegexNoMatch),
            Ok(Some(groups)) => substitute_captures(&groups, metadata),
        }
    }

    /// Tries the templates on the file's name, in order, and gives the
    /// record of the first that yields one.
    pub fn parse_metadata_from_filename(&self, parse_patterns: &[ParsePattern]) -> (r: Result<
        Metadata,
        Failure,
    >)
        ensures
            metadata_result_view(r) == first_match(patterns_view(parse_patterns@), self@.stem),
    {
        match_first(parse_patterns, self.stem.as_str())
    }
}

} // verus!
