use photosort::{
    calculate_file_hash, choose_capture_time, extract_photo_date, extract_video_date,
    resolve_photo_date, CaptureFields, CaptureTime,
};

fn at(year: i32, month: u32, day: u32) -> CaptureTime {
    CaptureTime { year, month, day, hour: 0, minute: 0, second: 0 }
}

/// A little-endian TIFF whose Exif directory holds one DateTimeOriginal.
fn tiff_with_original(text: &str) -> Vec<u8> {
    let mut b: Vec<u8> = Vec::new();
    b.extend_from_slice(b"II");
    b.extend_from_slice(&42u16.to_le_bytes());
    b.extend_from_slice(&8u32.to_le_bytes());
    // IFD0: one entry, the pointer to the Exif directory at 26.
    b.extend_from_slice(&1u16.to_le_bytes());
    b.extend_from_slice(&0x8769u16.to_le_bytes());
    b.extend_from_slice(&4u16.to_le_bytes());
    b.extend_from_slice(&1u32.to_le_bytes());
    b.extend_from_slice(&26u32.to_le_bytes());
    b.extend_from_slice(&0u32.to_le_bytes());
    // Exif IFD: DateTimeOriginal, ASCII, value at 44.
    let mut value = text.as_bytes().to_vec();
    value.push(0);
    b.extend_from_slice(&1u16.to_le_bytes());
    b.extend_from_slice(&0x9003u16.to_le_bytes());
    b.extend_from_slice(&2u16.to_le_bytes());
    b.extend_from_slice(&(value.len() as u32).to_le_bytes());
    b.extend_from_slice(&44u32.to_le_bytes());
    b.extend_from_slice(&0u32.to_le_bytes());
    assert_eq!(b.len(), 44);
    b.extend_from_slice(&value);
    b
}

fn fields(o: Option<&str>, m: Option<&str>, d: Option<&str>) -> CaptureFields {
    CaptureFields {
        original: o.map(|s| s.to_string()),
        modified: m.map(|s| s.to_string()),
        digitized: d.map(|s| s.to_string()),
    }
}

#[test]
fn original_capture_is_exact() {
    let r = resolve_photo_date(&fields(Some("2020:05:01 13:45:10"), None, None), Some(at(2022, 1, 1)));
    let t = CaptureTime { year: 2020, month: 5, day: 1, hour: 13, minute: 45, second: 10 };
    assert_eq!(r, Some((t, false)));
}

#[test]
fn secondary_fields_are_approximate() {
    let r = resolve_photo_date(&fields(None, Some("2019:02:03 04:05:06"), Some("2018:01:01 00:00:00")), None);
    let t = CaptureTime { year: 2019, month: 2, day: 3, hour: 4, minute: 5, second: 6 };
    assert_eq!(r, Some((t, true)));
    let r = resolve_photo_date(&fields(Some(""), Some("garbage"), Some("2018:01:01 00:00:00")), None);
    assert_eq!(r, Some((at(2018, 1, 1), true)));
}

#[test]
fn unparsable_fields_fall_back_to_mtime() {
    let r = resolve_photo_date(
        &fields(Some("2020-05-01 00:00:00"), Some("2021:02:30 00:00:00"), Some("")),
        Some(at(2021, 3, 3)),
    );
    assert_eq!(r, Some((at(2021, 3, 3), true)));
    let r = resolve_photo_date(&fields(None, None, None), None);
    assert_eq!(r, None);
}

#[test]
fn chain_order() {
    let a = at(2001, 1, 1);
    let b = at(2002, 1, 1);
    let c = at(2003, 1, 1);
    let d = at(2004, 1, 1);
    assert_eq!(choose_capture_time(Some(a), Some(b), Some(c), Some(d)), Some((a, false)));
    assert_eq!(choose_capture_time(None, Some(b), Some(c), Some(d)), Some((b, true)));
    assert_eq!(choose_capture_time(None, None, Some(c), Some(d)), Some((c, true)));
    assert_eq!(choose_capture_time(None, None, None, Some(d)), Some((d, true)));
    assert_eq!(choose_capture_time(None, None, None, None), None);
}

#[test]
fn embedded_metadata_is_read_from_bytes() {
    let bytes = tiff_with_original("2020:05:01 00:00:00");
    let r = extract_photo_date(Some(bytes.as_slice()), Some(at(2022, 6, 6)));
    assert_eq!(r, Some((at(2020, 5, 1), false)));
}

#[test]
fn unreadable_photo_uses_mtime() {
    let r = extract_photo_date(Some(&b"not an image at all"[..]), Some(at(2021, 3, 3)));
    assert_eq!(r, Some((at(2021, 3, 3), true)));
    assert_eq!(extract_photo_date(None, Some(at(2021, 3, 3))), Some((at(2021, 3, 3), true)));
    assert_eq!(extract_photo_date(None, None), None);
}

#[test]
fn video_always_approximate() {
    assert_eq!(extract_video_date(Some(at(2015, 7, 8))), Some((at(2015, 7, 8), true)));
    assert_eq!(extract_video_date(None), None);
}

#[test]
fn digest_of_known_inputs() {
    assert_eq!(
        calculate_file_hash(b"abc"),
        "ba7816bf8f01cfea414140de5dae2223b00361a396177a9cb410ff61f20015ad"
    );
    assert_eq!(
        calculate_file_hash(b""),
        "e3b0c44298fc1c149afbf4c8996fb92427ae41e4649b934ca495991b7852b855"
    );
}
