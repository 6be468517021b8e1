//! What a run is asked to do: the override record, how file names are
//! read, and which of the candidate files are taken.

use vstd::prelude::*;
use crate::audio_file::{acceptance, AudioFile, AudioFileView, PathParts, PathPartsView};
use crate::error::Failure;
use crate::metadata::Metadata;
use crate::pattern::{default_templates, patterns_view, ItemView, ParsePattern};
use crate::template::segments;
use crate::text::text_view;

verus! {

/// Where the metadata comes from.
#[derive(Clone, Copy, Debug, PartialEq, Eq, Structural)]
pub enum Mode {
    /// It is derived from the file's name.
    FromFilename,
    /// It is looked up on a network. Nothing derives metadata in this mode.
    FromInternet,
}

/// How a file's name is read.
#[derive(Clone, Debug, PartialEq, Eq)]
pub enum FilenameMode {
    /// One regular expression, whose capture groups fill the positional
    /// tokens of the override record.
    Regex(String),
    /// Templates, tried in order.
    Parse(Vec<ParsePattern>),
}

/// What a `FilenameMode` holds.
pub enum FilenameModeView {
    Regex(Seq<char>),
    Parse(Seq<Seq<ItemView>>),
}

impl View for FilenameMode {
    type V = FilenameModeView;

    open spec fn view(&self) -> FilenameModeView {
        match self {
            FilenameMode::Regex(regex) => FilenameModeView::Regex(regex@),
            FilenameMode::Parse(patterns) => FilenameModeView::Parse(patterns_view(patterns@)),
        }
    }
}

/// The options of one run.
#[derive(Clone, Debug, PartialEq, Eq)]
pub struct Opts {
    /// The values given for the tags, which override what file names give.
    pub metadata: Metadata,
    pub mode: Mode,
    /// The templates to try, in order.
    pub parse: Option<Vec<ParsePattern>>,
    /// The regular expression to match file names with.
    pub regex: Option<String>,
    /// The paths given.
    pub files: Vec<String>,
}

/// How file names are read under the given options: by the regular
/// expression where there is one; else by the templates given; else by the
/// built-in templates.
pub open spec fn chosen_mode(
    regex: Option<Seq<char>>,
    parse: Option<Seq<Seq<ItemView>>>,
) -> FilenameModeView {
    match regex {
        Some(exp) => FilenameModeView::Regex(exp),
        None => match parse {
            Some(patterns) => FilenameModeView::Parse(patterns),
            None => FilenameModeView::Parse(
                default_templates().map_values(|t: Seq<char>| segments(t)),
            ),
        },
    }
}

impl Opts {
    /// How file names are read in this run.
    pub fn filename_mode(&self) -> (r: FilenameMode)
        ensures
            r@ == chosen_mode(
                text_view(self.regex),
                match self.parse {
                    Some(patterns) => Some(patterns_view(patterns@)),
                    None => None,
                },
            ),
    {
        match &self.regex {
            Some(exp) => FilenameMode::Regex(exp.clone()),
            None => match &self.parse {
                Some(patterns) => {
                    let mut copy: Vec<ParsePattern> = Vec::new();
                    let mut i: usize = 0;
                    while i < patterns.len()
                        invariant
                            i <= patterns.len(),
                            patterns_view(copy@) == patterns_view(patterns@).take(i as int),
                        decreases patterns.len() - i,
                    {
                        copy.push(patterns[i].duplicate());
                        proof {
                            assert(patterns_view(patterns@).take(i + 1) == patterns_view(
                                patterns@,
                            ).take(i as int).push(patterns@[i as int]@));
                        }
                        i += 1;
                    }
                    proof {
                        assert(patterns_view(patterns@).take(patterns.len() as int)
                            == patterns_view(patterns@));
                    }
                    FilenameMode::Parse(copy)
                },
                None => FilenameMode::Parse(ParsePattern::default_patterns()),
            },
        }
    }
}

/// A candidate that was not accepted.
#[derive(Clone, Debug, PartialEq, Eq)]
pub struct Rejected {
    /// The path as it was given.
    pub path: String,
    pub reason: Failure,
}

/// The candidates taken and those left out.
#[derive(Debug)]
pub struct FileSelection {
    pub files: Vec<AudioFile>,
    pub rejected: Vec<Rejected>,
}

/// The views of the accepted files.
pub open spec fn files_view(files: Seq<AudioFile>) -> Seq<AudioFileView> {
    files.map_values(|f: AudioFile| f@)
}

/// The views of the candidates that were left out.
pub open spec fn rejected_view(rejected: Seq<Rejected>) -> Seq<(Seq<char>, Failure)> {
    rejected.map_values(|r: Rejected| (r.path@, r.reason))
}

/// The views of candidates.
pub open spec fn candidates_view(candidates: Seq<PathParts>) -> Seq<PathPartsView> {
    candidates.map_values(|c: PathParts| c@)
}

/// The accepted ones among `candidates`, in their order.
pub open spec fn accepted(candidates: Seq<PathPartsView>) -> Seq<AudioFileView>
    decreases candidates.len(),
{
    if candidates.len() == 0 {
        Seq::empty()
    } else {
        match acceptance(candidates.last()) {
            Ok(f) => accepted(candidates.drop_last()).push(f),
            Err(_) => accepted(candidates.drop_last()),
        }
    }
}

/// Those of `candidates` that are not accepted, in their order, each with
/// the reason.
pub open spec fn refused(candidates: Seq<PathPartsView>) -> Seq<(Seq<char>, Failure)>
    decreases candidates.len(),
{
    if candidates.len() == 0 {
        Seq::empty()
    } else {
        match acceptance(candidates.last()) {
            Ok(_) => refused(candidates.drop_last()),
            Err(e) => refused(candidates.drop_last()).push((candidates.last().path, e)),
        }
    }
}

/// Every candidate is either taken or left out.
pub proof fn lemma_selection_complete(candidates: Seq<PathPartsView>)
    ensures
        accepted(candidates).len() + refused(candidates).len() == candidates.len(),
    decreases candidates.len(),
{
    if candidates.len() > 0 {
        lemma_selection_complete(candidates.drop_last());
    }
}

/// Takes the audio files among the candidates: those that came on standard
/// input first, then those that were given as arguments.
pub fn get_all_files(files_from_args: &[PathParts], files_from_stdin: &[PathParts]) -> (r:
    FileSelection)
    ensures
        files_view(r.files@) == accepted(
            candidates_view(files_from_stdin@) + candidates_view(files_from_args@),
        ),
        rejected_view(r.rejected@) == refused(
            candidates_view(files_from_stdin@) + candidates_view(files_from_args@),
        ),
{
    let ghost all = candidates_view(files_from_stdin@) + candidates_view(files_from_args@);
    let mut selection = FileSelection { files: Vec::new(), rejected: Vec::new() };
    let mut i: usize = 0;
    while i < files_from_stdin.len()
        invariant
            i <= files_from_stdin.len(),
            all == candidates_view(files_from_stdin@) + candidates_view(files_from_args@),
            files_view(selection.files@) == accepted(all.take(i as int)),
            rejected_view(selection.rejected@) == refused(all.take(i as int)),
        decreases files_from_stdin.len() - i,
    {
        proof {
            assert(all.take(i + 1).drop_last() == all.take(i as int));
        }
        take_candidate(&files_from_stdin[i], &mut selection);
        i += 1;
    }
    let mut k: usize = 0;
    while k < files_from_args.len()
        invariant
            k <= files_from_args.len(),
            all == candidates_view(files_from_stdin@) + candidates_view(files_from_args@),
            files_view(selection.files@) == accepted(all.take(files_from_stdin@.len() + k)),
            rejected_view(selection.rejected@) == refused(all.take(files_from_stdin@.len() + k)),
        decreases files_from_args.len() - k,
    {
        proof {
            let n = files_from_stdin@.len() + k;
            assert(all.take(n + 1).drop_last() == all.take(n));
        }
        take_candidate(&files_from_args[k], &mut selection);
        k += 1;
    }
    proof {
        assert(all.take(all.len() as int) == all);
    }
    selection
}

/// Adds one candidate to the selection, on the side that it belongs to.
fn take_candidate(candidate: &PathParts, selection: &mut FileSelection)
    ensures
        match acceptance(candidate@) {
            Ok(f) => files_view(final(selection).files@) == files_view(old(selection).files@).push(
                f,
            ) && rejected_view(final(selection).rejected@) == rejected_view(
                old(selection).rejected@,
            ),
            Err(e) => files_view(final(selection).files@) == files_view(old(selection).files@)
                && rejected_view(final(selection).rejected@) == rejected_view(
                old(selection).rejected@,
            ).push((candidate@.path, e)),
        },
{
    match AudioFile::new(candidate) {
        Ok(audio_file) => {
            selection.files.push(audio_file);
        },
        Err(e) => {
            selection.rejected.push(Rejected { path: candidate.path.clone(), reason: e });
        },
    }
}

} // verus!
