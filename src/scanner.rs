use vstd::prelude::*;
use crate::types::FileType;

verus! {

/// ASCII upper-case letters become lower case; every other character stays.
pub open spec fn fold_char(c: char) -> char {
    if 'A' <= c && c <= 'Z' {
        ((c as u8) + 32) as char
    } else {
        c
    }
}

pub open spec fn fold_seq(s: Seq<char>) -> Seq<char> {
    s.map_values(|c: char| fold_char(c))
}

/// Extensions of photos, compared without regard to case. The names are all
/// ASCII, so folding ASCII letters is the same as comparing Unicode lower case.
pub open spec fn is_photo_ext(ext: Seq<char>) -> bool {
    let f = fold_seq(ext);
    f == "jpg"@ || f == "jpeg"@ || f == "png"@ || f == "heic"@
}

/// Extensions of videos, compared without regard to case.
pub open spec fn is_video_ext(ext: Seq<char>) -> bool {
    let f = fold_seq(ext);
    f == "mp4"@ || f == "mov"@ || f == "avi"@
}

pub open spec fn classify_spec(ext: Seq<char>) -> Option<FileType> {
    if is_photo_ext(ext) {
        Some(FileType::Photo)
    } else if is_video_ext(ext) {
        Some(FileType::Video)
    } else {
        None
    }
}

fn fold(c: char) -> (r: char)
    ensures
        r == fold_char(c),
{
    if 'A' <= c && c <= 'Z' {
        ((c as u8) + 32) as char
    } else {
        c
    }
}

/// Whether `s`, with ASCII letters folded to lower case, is exactly `word`.
fn matches_folded(s: &str, word: &str) -> (r: bool)
    ensures
        r == (fold_seq(s@) == word@),
{
    let n = s.unicode_len();
    if n != word.unicode_len() {
        return false;
    }
    let mut i: usize = 0;
    while i < n
        invariant
            n == s@.len(),
            n == word@.len(),
            i <= n,
            forall|j: int| 0 <= j < i ==> fold_char(#[trigger] s@[j]) == word@[j],
        decreases n - i,
    {
        if fold(s.get_char(i)) != word.get_char(i) {
            assert(fold_seq(s@)[i as int] != word@[i as int]);
            return false;
        }
        i = i + 1;
    }
    assert(fold_seq(s@) =~= word@);
    true
}

/// Whether a file extension names a photo.
pub fn is_photo(extension: &str) -> (r: bool)
    ensures
        r == is_photo_ext(extension@),
{
    matches_folded(extension, "jpg") || matches_folded(extension, "jpeg")
        || matches_folded(extension, "png") || matches_folded(extension, "heic")
}

/// Whether a file extension names a video.
pub fn is_video(extension: &str) -> (r: bool)
    ensures
        r == is_video_ext(extension@),
{
    matches_folded(extension, "mp4") || matches_folded(extension, "mov")
        || matches_folded(extension, "avi")
}

/// The media category of a file extension; `None` for a file that the archive
/// does not take.
pub fn classify(extension: &str) -> (r: Option<FileType>)
    ensures
        r == classify_spec(extension@),
{
    if is_photo(extension) {
        Some(FileType::Photo)
    } else if is_video(extension) {
        Some(FileType::Video)
    } else {
        None
    }
}

} // verus!
