use vstd::prelude::*;
use chrono::{Datelike, Timelike};
use crate::types::CaptureTime;

verus! {

/// What the three capture-time fields of an image's embedded metadata read as
/// text, in the order original capture, modification, digitization; `None`
/// for a field that is absent, and for all three where the metadata cannot be
/// read.
pub uninterp spec fn exif_capture_fields(contents: Seq<u8>) -> (
    Option<Seq<char>>,
    Option<Seq<char>>,
    Option<Seq<char>>,
);

/// The date and time that a `YYYY:MM:DD HH:MM:SS` text denotes, or `None`
/// where the text does not parse as one.
pub uninterp spec fn exif_datetime_of(text: Seq<char>) -> Option<CaptureTime>;

/// The text of the three capture-time fields of one image.
#[derive(Debug, Clone)]
pub struct CaptureFields {
    pub original: Option<String>,
    pub modified: Option<String>,
    pub digitized: Option<String>,
}

pub open spec fn opt_text(o: Option<String>) -> Option<Seq<char>> {
    match o {
        Some(s) => Some(s@),
        None => None,
    }
}

impl View for CaptureFields {
    type V = (Option<Seq<char>>, Option<Seq<char>>, Option<Seq<char>>);

    open spec fn view(&self) -> Self::V {
        (opt_text(self.original), opt_text(self.modified), opt_text(self.digitized))
    }
}

/// Relies on kamadak-exif: `Reader::read_from_container` parses the image
/// container and `Exif::get_field` looks up `DateTimeOriginal`, `DateTime` and
/// `DateTimeDigitized` in the primary image; a field's text is the first string
/// of its ASCII value. The outcome depends on the bytes alone.
#[verifier::external_body]
fn embedded_capture_fields(contents: &[u8]) -> (r: CaptureFields)
    ensures
        r@ == exif_capture_fields(contents@),
{
    let ex = match exif::Reader::new().read_from_container(&mut std::io::Cursor::new(contents)) {
        Ok(ex) => ex,
        Err(_) => return CaptureFields { original: None, modified: None, digitized: None },
    };
    let text = |tag| match ex.get_field(tag, exif::In::PRIMARY).map(|f| &f.value) {
        Some(exif::Value::Ascii(v)) => v.first().map(|b| String::from_utf8_lossy(b).into_owned()),
        _ => None,
    };
    CaptureFields {
        original: text(exif::Tag::DateTimeOriginal),
        modified: text(exif::Tag::DateTime),
        digitized: text(exif::Tag::DateTimeDigitized),
    }
}

/// Relies on chrono's `NaiveDateTime::parse_from_str` with the pattern
/// `%Y:%m:%d %H:%M:%S`, and on its `Datelike` and `Timelike` accessors, whose
/// documented ranges are month 1 to 12, day 1 to 31, hour 0 to 23, minute and
/// second 0 to 59. An empty text holds no date.
#[verifier::external_body]
fn parse_exif_datetime(text: &str) -> (r: Option<CaptureTime>)
    ensures
        r == exif_datetime_of(text@),
        r matches Some(t) ==> t.wf(),
        text@.len() == 0 ==> r is None,
{
    match chrono::NaiveDateTime::parse_from_str(text, "%Y:%m:%d %H:%M:%S") {
        Ok(n) => Some(CaptureTime {
            year: n.year(), month: n.month(), day: n.day(),
            hour: n.hour(), minute: n.minute(), second: n.second(),
        }),
        Err(_) => None,
    }
}

/// The date that a field yields: a present, non-empty text that parses.
pub open spec fn field_time(field: Option<Seq<char>>) -> Option<CaptureTime> {
    match field {
        Some(s) => if s.len() > 0 { exif_datetime_of(s) } else { None },
        None => None,
    }
}

/// The fallback chain: original capture (exact), then modification, then
/// digitization, then the filesystem's modification time (all approximate).
pub open spec fn pick_capture(
    original: Option<CaptureTime>,
    modified: Option<CaptureTime>,
    digitized: Option<CaptureTime>,
    mtime: Option<CaptureTime>,
) -> Option<(CaptureTime, bool)> {
    match original {
        Some(t) => Some((t, false)),
        None => match modified {
            Some(t) => Some((t, true)),
            None => match digitized {
                Some(t) => Some((t, true)),
                None => match mtime {
                    Some(t) => Some((t, true)),
                    None => None,
                },
            },
        },
    }
}

/// The fields that an image's bytes carry; none where the file could not be
/// opened.
pub open spec fn photo_fields(contents: Option<Seq<u8>>) -> (
    Option<Seq<char>>,
    Option<Seq<char>>,
    Option<Seq<char>>,
) {
    match contents {
        Some(b) => exif_capture_fields(b),
        None => (None, None, None),
    }
}

pub open spec fn resolve_spec(
    fields: (Option<Seq<char>>, Option<Seq<char>>, Option<Seq<char>>),
    mtime: Option<CaptureTime>,
) -> Option<(CaptureTime, bool)> {
    pick_capture(field_time(fields.0), field_time(fields.1), field_time(fields.2), mtime)
}

/// Picks a capture time from the parsed fields and the modification time.
/// The result is exact (not approximate) precisely when it came from the
/// original-capture field; `None` only where nothing gave a date.
pub fn choose_capture_time(
    original: Option<CaptureTime>,
    modified: Option<CaptureTime>,
    digitized: Option<CaptureTime>,
    mtime: Option<CaptureTime>,
) -> (r: Option<(CaptureTime, bool)>)
    ensures
        r == pick_capture(original, modified, digitized, mtime),
        r matches Some((_, approximate)) ==> (approximate <==> original is None),
        r is None <==> (original is None && modified is None && digitized is None && mtime is None),
{
    match original {
        Some(t) => Some((t, false)),
        None => match modified {
            Some(t) => Some((t, true)),
            None => match digitized {
                Some(t) => Some((t, true)),
                None => match mtime {
                    Some(t) => Some((t, true)),
                    None => None,
                },
            },
        },
    }
}

fn field_date(field: &Option<String>) -> (r: Option<CaptureTime>)
    ensures
        r == field_time(opt_text(*field)),
{
    match field {
        Some(s) => {
            if s.as_str().unicode_len() > 0 {
                parse_exif_datetime(s.as_str())
            } else {
                None
            }
        },
        None => None,
    }
}

/// The capture time of a photo from the text of its metadata fields, falling
/// back to the modification time.
pub fn resolve_photo_date(fields: &CaptureFields, mtime: Option<CaptureTime>) -> (r: Option<(
    CaptureTime,
    bool,
)>)
    ensures
        r == resolve_spec(fields@, mtime),
        r matches Some((_, approximate)) ==> (approximate <==> field_time(fields@.0) is None),
{
    let original = field_date(&fields.original);
    let modified = field_date(&fields.modified);
    let digitized = field_date(&fields.digitized);
    choose_capture_time(original, modified, digitized, mtime)
}

/// The capture time of a photo, from its contents (`None` where the file
/// could not be opened) and its modification time (`None` where that could
/// not be read). `None` where neither embedded metadata nor the modification
/// time gave a date: such a file is left out of the inventory.
pub fn extract_photo_date(contents: Option<&[u8]>, mtime: Option<CaptureTime>) -> (r: Option<(
    CaptureTime,
    bool,
)>)
    ensures
        r == resolve_spec(photo_fields(opt_bytes(contents)), mtime),
        r matches Some((_, approximate)) ==> (approximate <==> field_time(
            photo_fields(opt_bytes(contents)).0,
        ) is None),
{
    match contents {
        Some(b) => {
            let fields = embedded_capture_fields(b);
            resolve_photo_date(&fields, mtime)
        },
        None => {
            let fields = CaptureFields { original: None, modified: None, digitized: None };
            resolve_photo_date(&fields, mtime)
        },
    }
}

pub open spec fn opt_bytes(o: Option<&[u8]>) -> Option<Seq<u8>> {
    match o {
        Some(b) => Some(b@),
        None => None,
    }
}

/// The capture time of a video: its modification time, always approximate.
pub fn extract_video_date(mtime: Option<CaptureTime>) -> (r: Option<(CaptureTime, bool)>)
    ensures
        r == (match mtime {
            Some(t) => Some((t, true)),
            None => None::<(CaptureTime, bool)>,
        }),
{
    match mtime {
        Some(t) => Some((t, true)),
        None => None,
    }
}

} // verus!
