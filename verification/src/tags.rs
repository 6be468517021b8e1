//! What is written to a file's tags: the tag format that goes with a file
//! type, the values that a record sets, and the steps of writing them.
//!
//! Reading and writing the tags themselves is the caller's work. The
//! functions here decide what is read, initialised and written, and when.

use vstd::prelude::*;
use crate::error::Failure;
use crate::metadata::{Metadata, MetadataView, NumberOrToken, NumberOrTokenView};
use crate::text::{chars_are, chars_of, clone_text, text_view};
use crate::token::Token;

verus! {

/// The tag formats that can be written.
#[derive(Clone, Copy, Debug, PartialEq, Eq, Structural)]
pub enum TagFormat {
    /// ID3v2.4 in an MPEG audio file.
    Id3,
    /// ID3v2.4 in a chunk of a WAV file.
    Id3Wav,
    /// The metadata atoms of an MPEG-4 file.
    Mp4,
    /// The Vorbis comments of a FLAC file.
    Flac,
}

/// The tag format for a file with the extension `ext`, which is taken as
/// it stands: upper and lower case differ.
pub open spec fn tag_format_of(ext: Seq<char>) -> Option<TagFormat> {
    if ext == "mp3"@ {
        Some(TagFormat::Id3)
    } else if ext == "wav"@ {
        Some(TagFormat::Id3Wav)
    } else if ext == "m4a"@ || ext == "m4b"@ || ext == "m4p"@ || ext == "m4v"@ || ext == "isom"@
        || ext == "mp4"@ {
        Some(TagFormat::Mp4)
    } else if ext == "flac"@ {
        Some(TagFormat::Flac)
    } else {
        None
    }
}

/// The extensions of the file types that tags can be written to.
pub open spec fn supported(ext: Seq<char>) -> bool {
    ext == "mp3"@ || ext == "wav"@ || ext == "flac"@ || ext == "mp4"@ || ext == "m4a"@ || ext
        == "m4b"@ || ext == "m4p"@ || ext == "m4v"@ || ext == "isom"@
}

/// The supported file types are those that have a tag format.
pub proof fn lemma_supported_has_format(ext: Seq<char>)
    ensures
        supported(ext) <==> tag_format_of(ext) is Some,
{
}

/// Whether tags can be written to files with the extension `ext`.
pub fn is_supported_type(ext: &str) -> (b: bool)
    ensures
        b == supported(ext@),
{
    let v = chars_of(ext);
    chars_are(&v, "mp3") || chars_are(&v, "wav") || chars_are(&v, "flac") || chars_are(&v, "mp4")
        || chars_are(&v, "m4a") || chars_are(&v, "m4b") || chars_are(&v, "m4p") || chars_are(
        &v,
        "m4v",
    ) || chars_are(&v, "isom")
}

impl TagFormat {
    /// The tag format for a file with the extension `ext`.
    pub fn for_extension(ext: &str) -> (r: Option<TagFormat>)
        ensures
            r == tag_format_of(ext@),
    {
        let v = chars_of(ext);
        if chars_are(&v, "mp3") {
            Some(TagFormat::Id3)
        } else if chars_are(&v, "wav") {
            Some(TagFormat::Id3Wav)
        } else if chars_are(&v, "m4a") || chars_are(&v, "m4b") || chars_are(&v, "m4p")
            || chars_are(&v, "m4v") || chars_are(&v, "isom") || chars_are(&v, "mp4") {
            Some(TagFormat::Mp4)
        } else if chars_are(&v, "flac") {
            Some(TagFormat::Flac)
        } else {
            None
        }
    }
}

/// The image types that an album cover can have.
#[derive(Clone, Copy, Debug, PartialEq, Eq, Structural)]
pub enum CoverFormat {
    Png,
    Jpeg,
}

/// The image type that goes with the extension `ext` of a cover's file.
pub open spec fn cover_format_of(ext: Seq<char>) -> Option<CoverFormat> {
    if ext == "png"@ || ext == "PNG"@ {
        Some(CoverFormat::Png)
    } else if ext == "jpg"@ || ext == "jpeg"@ || ext == "JPG"@ {
        Some(CoverFormat::Jpeg)
    } else {
        None
    }
}

impl CoverFormat {
    /// The image type that goes with the extension `ext` of a cover's file.
    pub fn for_extension(ext: &str) -> (r: Option<CoverFormat>)
        ensures
            r == cover_format_of(ext@),
    {
        let v = chars_of(ext);
        if chars_are(&v, "png") || chars_are(&v, "PNG") {
            Some(CoverFormat::Png)
        } else if chars_are(&v, "jpg") || chars_are(&v, "jpeg") || chars_are(&v, "JPG") {
            Some(CoverFormat::Jpeg)
        } else {
            None
        }
    }
}

/// The year as the tag holds it: the low 32 bits of the number, read as a
/// signed number.
pub open spec fn year_tag(n: u32) -> i32 {
    if n <= i32::MAX {
        n as i32
    } else {
        (n - 0x1_0000_0000) as i32
    }
}

/// The track number as the tag holds it: the low 16 bits of the number.
pub open spec fn track_tag(n: u32) -> u16 {
    (n % 0x1_0000) as u16
}

/// The values to set in a file's tags. A field that is `None` is not set.
#[derive(Clone, Debug, PartialEq, Eq)]
pub struct TagUpdate {
    pub artist: Option<String>,
    pub title: Option<String>,
    /// The path of the image to set as album cover.
    pub album_cover: Option<String>,
    /// The image type of the album cover; `Some` where `album_cover` is.
    pub cover_format: Option<CoverFormat>,
    pub album_title: Option<String>,
    pub year: Option<i32>,
    pub track_number: Option<u16>,
}

/// What a `TagUpdate` holds.
pub struct TagUpdateView {
    pub artist: Option<Seq<char>>,
    pub title: Option<Seq<char>>,
    pub album_cover: Option<Seq<char>>,
    pub cover_format: Option<CoverFormat>,
    pub album_title: Option<Seq<char>>,
    pub year: Option<i32>,
    pub track_number: Option<u16>,
}

impl View for TagUpdate {
    type V = TagUpdateView;

    open spec fn view(&self) -> TagUpdateView {
        TagUpdateView {
            artist: text_view(self.artist),
            title: text_view(self.title),
            album_cover: text_view(self.album_cover),
            cover_format: self.cover_format,
            album_title: text_view(self.album_title),
            year: self.year,
            track_number: self.track_number,
        }
    }
}

/// The image type of the record's album cover, if it has a cover.
pub open spec fn cover_of(m: MetadataView, cover_extension: Option<Seq<char>>) -> Option<
    CoverFormat,
> {
    match (m.album_cover, cover_extension) {
        (Some(_), Some(ext)) => cover_format_of(ext),
        _ => None,
    }
}

/// The values that writing the record `m` sets, where `cover_extension` is
/// the extension of the album cover's file. A cover must be an image of a
/// known type, and the numeric fields must hold numbers: the cover is
/// looked at first, then the year, then the track number.
pub open spec fn tag_update_of(m: MetadataView, cover_extension: Option<Seq<char>>) -> Result<
    TagUpdateView,
    Failure,
> {
    if m.album_cover is Some && cover_of(m, cover_extension) is None {
        Err(Failure::UnsupportedCover)
    } else if m.year matches Some(NumberOrTokenView::Token(_)) {
        Err(Failure::TokenInTag(Token::Year))
    } else if m.track_number matches Some(NumberOrTokenView::Token(_)) {
        Err(Failure::TokenInTag(Token::Track))
    } else {
        Ok(
            TagUpdateView {
                artist: m.artist,
                title: m.title,
                album_cover: m.album_cover,
                cover_format: cover_of(m, cover_extension),
                album_title: m.album_title,
                year: match m.year {
                    Some(NumberOrTokenView::Number(n)) => Some(year_tag(n)),
                    _ => None,
                },
                track_number: match m.track_number {
                    Some(NumberOrTokenView::Number(n)) => Some(track_tag(n)),
                    _ => None,
                },
            },
        )
    }
}

/// A record can be written exactly when its cover, if it has one, is an
/// image of a known type and no numeric field holds a token. The values
/// then name an image type exactly where they name a cover.
pub proof fn lemma_tag_update_accepted(m: MetadataView, cover_extension: Option<Seq<char>>)
    ensures
        tag_update_of(m, cover_extension) is Ok <==> (m.album_cover is Some ==> cover_of(
            m,
            cover_extension,
        ) is Some) && !(m.year matches Some(NumberOrTokenView::Token(_))) && !(
        m.track_number matches Some(NumberOrTokenView::Token(_))),
        tag_update_of(m, cover_extension) matches Ok(u) ==> (u.cover_format is Some
            <==> u.album_cover is Some),
{
}

/// The view of the values to set, or the failure.
pub open spec fn tag_update_view(r: Result<TagUpdate, Failure>) -> Result<TagUpdateView, Failure> {
    match r {
        Ok(u) => Ok(u@),
        Err(e) => Err(e),
    }
}

fn year_value(n: u32) -> (r: i32)
    ensures
        r == year_tag(n),
{
    if n <= 0x7fff_ffff {
        n as i32
    } else {
        let low: i64 = n as i64;
        (low - 0x1_0000_0000) as i32
    }
}

fn track_value(n: u32) -> (r: u16)
    ensures
        r == track_tag(n),
{
    (n % 0x1_0000) as u16
}

/// The values that writing `metadata` sets.
pub fn tag_update(metadata: &Metadata, cover_extension: Option<&str>) -> (r: Result<
    TagUpdate,
    Failure,
>)
    ensures
        tag_update_view(r) == tag_update_of(
            metadata@,
            match cover_extension {
                Some(ext) => Some(ext@),
                None => None,
            },
        ),
{
    let cover_format = match (&metadata.album_cover, cover_extension) {
        (Some(_), Some(ext)) => CoverFormat::for_extension(ext),
        _ => None,
    };
    if metadata.album_cover.is_some() && cover_format.is_none() {
        return Err(Failure::UnsupportedCover);
    }
    let year = match &metadata.year {
        Some(NumberOrToken::Token(_)) => {
            return Err(Failure::TokenInTag(Token::Year));
        },
        Some(NumberOrToken::Number(n)) => Some(year_value(*n)),
        None => None,
    };
    let track_number = match &metadata.track_number {
        Some(NumberOrToken::Token(_)) => {
            return Err(Failure::TokenInTag(Token::Track));
        },
        Some(NumberOrToken::Number(n)) => Some(track_value(*n)),
        None => None,
    };
    Ok(
        TagUpdate {
            artist: clone_text(&metadata.artist),
            title: clone_text(&metadata.title),
            album_cover: clone_text(&metadata.album_cover),
            cover_format,
            album_title: clone_text(&metadata.album_title),
            year,
            track_number,
        },
    )
}

/// Where writing a file's tags stands.
#[derive(Clone, Copy, Debug, PartialEq, Eq, Structural)]
pub enum WriteState {
    /// Nothing was done yet.
    Start,
    /// The file's tags are being read.
    Reading,
    /// The file had no tags that could be read; empty ones are being
    /// written to it.
    Initializing,
    /// The tags are being read again after they were initialised.
    Rereading,
    /// The values are being set and the tags written back.
    Writing,
    /// Writing has ended.
    Done,
}

/// What the caller does next.
#[derive(Clone, Debug, PartialEq, Eq)]
pub enum WriteAction {
    /// Read the tags from the file.
    Read,
    /// Write empty tags of this format to the file.
    Init(TagFormat),
    /// Set these values in the tags that were read, and write them back.
    Write(TagUpdate),
    /// Nothing more: the tags are written.
    Finish,
    /// Nothing more: writing has failed.
    Fail(Failure),
}

/// What a `WriteAction` holds.
pub enum WriteActionView {
    Read,
    Init(TagFormat),
    Write(TagUpdateView),
    Finish,
    Fail(Failure),
}

impl View for WriteAction {
    type V = WriteActionView;

    open spec fn view(&self) -> WriteActionView {
        match self {
            WriteAction::Read => WriteActionView::Read,
            WriteAction::Init(f) => WriteActionView::Init(*f),
            WriteAction::Write(u) => WriteActionView::Write(u@),
            WriteAction::Finish => WriteActionView::Finish,
            WriteAction::Fail(e) => WriteActionView::Fail(*e),
        }
    }
}

/// The step taken once the tags were read: the values are written, unless
/// the record cannot be written as it is.
pub open spec fn after_read(update: Result<TagUpdateView, Failure>) -> (
    WriteState,
    WriteActionView,
) {
    match update {
        Ok(u) => (WriteState::Writing, WriteActionView::Write(u)),
        Err(e) => (WriteState::Done, WriteActionView::Fail(e)),
    }
}

/// One step of writing a record to a file of the tag format `format`:
/// the state that follows `state`, and what to do next, given whether the
/// action before succeeded. The tags are read; tags that cannot be read are
/// initialised once and read again; then the values are written.
pub open spec fn write_step(
    format: TagFormat,
    update: Result<TagUpdateView, Failure>,
    state: WriteState,
    succeeded: bool,
) -> (WriteState, WriteActionView) {
    match state {
        WriteState::Start => (WriteState::Reading, WriteActionView::Read),
        WriteState::Reading => if succeeded {
            after_read(update)
        } else {
            (WriteState::Initializing, WriteActionView::Init(format))
        },
        WriteState::Initializing => if succeeded {
            (WriteState::Rereading, WriteActionView::Read)
        } else {
            (WriteState::Done, WriteActionView::Fail(Failure::InitFailed))
        },
        WriteState::Rereading => if succeeded {
            after_read(update)
        } else {
            (WriteState::Done, WriteActionView::Fail(Failure::ReadFailed))
        },
        WriteState::Writing => if succeeded {
            (WriteState::Done, WriteActionView::Finish)
        } else {
            (WriteState::Done, WriteActionView::Fail(Failure::WriteFailed))
        },
        WriteState::Done => (WriteState::Done, WriteActionView::Finish),
    }
}

/// The number of steps that writing can still take from `state`.
pub open spec fn steps_left(state: WriteState) -> nat {
    match state {
        WriteState::Start => 5,
        WriteState::Reading => 4,
        WriteState::Initializing => 3,
        WriteState::Rereading => 2,
        WriteState::Writing => 1,
        WriteState::Done => 0,
    }
}

/// Writing ends: every step but the one from `Done` brings the end nearer,
/// and a step says that nothing more is to do exactly when it leads to
/// `Done`.
pub proof fn lemma_write_ends(
    format: TagFormat,
    update: Result<TagUpdateView, Failure>,
    state: WriteState,
    succeeded: bool,
)
    ensures
        state != WriteState::Done ==> steps_left(write_step(format, update, state, succeeded).0)
            < steps_left(state),
        write_step(format, update, state, succeeded).0 == WriteState::Done <==> (write_step(
            format,
            update,
            state,
            succeeded,
        ).1 is Finish || write_step(format, update, state, succeeded).1 is Fail),
{
}

} // verus!
