use vstd::prelude::*;
use std::path::PathBuf;
use crate::naming::{extension, extension_of};

verus! {

#[verifier::external_type_specification]
#[verifier::external_body]
pub struct ExPathBuf(PathBuf);

/// The lowercase form of a text, as `str::to_lowercase` gives it.
pub uninterp spec fn lower_of(s: Seq<char>) -> Seq<char>;

/// Relies on `str::to_lowercase`: the result depends on the characters
/// alone, and the empty text stays empty.
#[verifier::external_body]
fn lowercase(s: &str) -> (r: String)
    ensures
        r@ == lower_of(s@),
        s@.len() == 0 ==> r@.len() == 0,
{
    s.to_lowercase()
}

/// What a dropped file is taken for, by its extension.
#[derive(Clone, Copy, Debug, PartialEq, Eq, Structural)]
pub enum MediaKind {
    Video,
    Audio,
    Other,
}

/// The kind that a lowercase extension denotes: `mp4`, `mkv` and `avi` are
/// video, `m4a`, `mp3` and `aac` audio.
pub open spec fn media_kind_of(lowered: Seq<char>) -> MediaKind {
    if lowered == seq!['m', 'p', '4'] || lowered == seq!['m', 'k', 'v'] || lowered == seq!['a', 'v', 'i'] {
        MediaKind::Video
    } else if lowered == seq!['m', '4', 'a'] || lowered == seq!['m', 'p', '3'] || lowered == seq!['a', 'a', 'c'] {
        MediaKind::Audio
    } else {
        MediaKind::Other
    }
}

/// The extension of a file name for media purposes: empty when there is none.
pub open spec fn media_ext_of(name: Seq<char>) -> Seq<char> {
    match extension_of(name) {
        Some(e) => e,
        None => Seq::empty(),
    }
}

fn is_text(s: &str, expected: &str) -> (r: bool)
    ensures
        r == (s@ == expected@),
{
    s.to_owned() == expected.to_owned()
}

/// Classifies an extension that is already lowercase.
pub fn classify_lowered(lowered: &str) -> (r: MediaKind)
    ensures
        r == media_kind_of(lowered@),
{
    proof {
        reveal_strlit("mp4");
        reveal_strlit("mkv");
        reveal_strlit("avi");
        reveal_strlit("m4a");
        reveal_strlit("mp3");
        reveal_strlit("aac");
        assert("mp4"@ =~= seq!['m', 'p', '4']);
        assert("mkv"@ =~= seq!['m', 'k', 'v']);
        assert("avi"@ =~= seq!['a', 'v', 'i']);
        assert("m4a"@ =~= seq!['m', '4', 'a']);
        assert("mp3"@ =~= seq!['m', 'p', '3']);
        assert("aac"@ =~= seq!['a', 'a', 'c']);
    }
    if is_text(lowered, "mp4") || is_text(lowered, "mkv") || is_text(lowered, "avi") {
        MediaKind::Video
    } else if is_text(lowered, "m4a") || is_text(lowered, "mp3") || is_text(lowered, "aac") {
        MediaKind::Audio
    } else {
        MediaKind::Other
    }
}

/// Classifies a file by the extension of its name, in any letter case.
pub fn classify_media(name: &str) -> (r: MediaKind)
    ensures
        r == media_kind_of(lower_of(media_ext_of(name@))),
{
    let ext = match extension(name) {
        Some(e) => e,
        None => "",
    };
    proof {
        reveal_strlit("");
        assert(ext@ =~= media_ext_of(name@));
    }
    let lowered = lowercase(ext);
    classify_lowered(lowered.as_str())
}

/// The inputs of a merge of one video and one audio track.
pub struct FFmpegApp {
    pub video_path: Option<PathBuf>,
    pub audio_path: Option<PathBuf>,
    /// Where the merged file goes; a fresh name beside the video when unset.
    pub output_path: Option<PathBuf>,
    /// Whether the two sources are removed after a successful merge.
    pub delete_orig: bool,
    pub status_message: String,
}

impl FFmpegApp {
    /// An empty selection.
    pub fn new() -> (r: FFmpegApp)
        ensures
            r.video_path is None,
            r.audio_path is None,
            r.output_path is None,
            !r.delete_orig,
            r.status_message@ == Seq::<char>::empty(),
    {
        FFmpegApp {
            video_path: None,
            audio_path: None,
            output_path: None,
            delete_orig: false,
            status_message: String::new(),
        }
    }

    /// Forgets the selection; the status message stays.
    pub fn clear_state(&mut self)
        ensures
            final(self).video_path is None,
            final(self).audio_path is None,
            final(self).output_path is None,
            !final(self).delete_orig,
            final(self).status_message == old(self).status_message,
    {
        self.video_path = None;
        self.audio_path = None;
        self.output_path = None;
        self.delete_orig = false;
    }

    /// Whether both tracks are chosen, so that a merge can start.
    pub fn can_execute(&self) -> (r: bool)
        ensures
            r == (self.video_path is Some && self.audio_path is Some),
    {
        self.video_path.is_some() && self.audio_path.is_some()
    }

    /// Takes a dropped file called `name` at `path`: a video fills the video
    /// slot and an audio file the audio slot, each only while it is empty.
    /// Anything else is ignored. Returns whether the file was taken.
    pub fn offer_dropped(&mut self, path: PathBuf, name: &str) -> (r: bool)
        ensures
            ({
                let kind = media_kind_of(lower_of(media_ext_of(name@)));
                &&& r == ((kind == MediaKind::Video && old(self).video_path is None) || (kind
                    == MediaKind::Audio && old(self).audio_path is None))
                &&& final(self).video_path == if kind == MediaKind::Video && old(self).video_path is None {
                    Some(path)
                } else {
                    old(self).video_path
                }
                &&& final(self).audio_path == if kind == MediaKind::Audio && old(self).audio_path is None {
                    Some(path)
                } else {
                    old(self).audio_path
                }
                &&& final(self).output_path == old(self).output_path
                &&& final(self).delete_orig == old(self).delete_orig
                &&& final(self).status_message == old(self).status_message
            }),
    {
        match classify_media(name) {
            MediaKind::Video => {
                if self.video_path.is_none() {
                    self.video_path = Some(path);
                    return true;
                }
                false
            },
            MediaKind::Audio => {
                if self.audio_path.is_none() {
                    self.audio_path = Some(path);
                    return true;
                }
                false
            },
            MediaKind::Other => false,
        }
    }
}

} // verus!
