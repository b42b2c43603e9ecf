//! Upload path naming, file-name helpers, and MIME inference.

use vstd::prelude::*;

use crate::text::{chars_of, concat, push_char, string_of};

verus! {

// ---------------------------------------------------------------------------
// Names for results of outside functions.

/// The extension that `std::path::Path::extension` reports for a path.
pub uninterp spec fn extension_of(path: Seq<char>) -> Option<Seq<char>>;

/// The text that `str::to_lowercase` returns.
pub uninterp spec fn lowercase_of(s: Seq<char>) -> Seq<char>;

/// Extension of a path: `Path::new(path).extension()` as text. The extension holds
/// no `.` and no `/` (it is the part of the final path component after its last `.`).
#[verifier::external_body]
pub(crate) fn path_extension(path: &str) -> (res: Option<String>)
    ensures
        res matches Some(e) ==> Some(e@) == extension_of(path@),
        res is None ==> extension_of(path@) is None,
        res matches Some(e) ==> !e@.contains('.') && !e@.contains('/'),
{
    std::path::Path::new(path).extension().and_then(|e| e.to_str()).map(|e| e.to_owned())
}

/// `str::to_lowercase`.
#[verifier::external_body]
pub(crate) fn to_lowercase(s: &str) -> (res: String)
    ensures
        res@ == lowercase_of(s@),
{
    s.to_lowercase()
}

/// Whether `s` has the form chrono writes for `%Y/%m`: a year of at least four
/// characters, `/`, and a two-digit month from `01` to `12`.
pub open spec fn year_month_shaped(s: Seq<char>) -> bool {
    let n = s.len() as int;
    &&& n >= 7
    &&& s[n - 3] == '/'
    &&& (s[n - 2] == '0' && '1' <= s[n - 1] && s[n - 1] <= '9' || s[n - 2] == '1' && '0' <= s[n - 1] && s[n - 1] <= '2')
}

/// The current UTC year and month as `YYYY/MM` (`chrono::Utc::now().format("%Y/%m")`).
/// Which month it is depends on the clock; every outcome has the shape of
/// `year_month_shaped` (chrono pads the year to four digits and signs years past 9999).
#[verifier::external_body]
pub(crate) fn utc_year_month() -> (res: String)
    ensures
        year_month_shaped(res@),
{
    chrono::Utc::now().format("%Y/%m").to_string()
}

/// A fresh random version-4 UUID (`uuid::Uuid::new_v4`) as its 128-bit big-endian value.
/// The version nibble is 4 and the variant bits are `10`; the other bits are random.
#[verifier::external_body]
pub(crate) fn new_uuid_v4() -> (res: u128)
    ensures
        (res >> 76u128) & 0xfu128 == 4,
        (res >> 62u128) & 0x3u128 == 2,
{
    uuid::Uuid::new_v4().as_u128()
}

// ---------------------------------------------------------------------------
// Hexadecimal text.

/// Lowercase hexadecimal digit of `d < 16`.
pub open spec fn hex_digit(d: nat) -> char {
    if d < 10 {
        (('0' as u32) + d) as char
    } else {
        (('a' as u32) + (d - 10)) as char
    }
}

pub(crate) fn hex_char(d: u8) -> (c: char)
    requires
        d < 16,
    ensures
        c == hex_digit(d as nat),
{
    match d {
        0 => '0',
        1 => '1',
        2 => '2',
        3 => '3',
        4 => '4',
        5 => '5',
        6 => '6',
        7 => '7',
        8 => '8',
        9 => '9',
        10 => 'a',
        11 => 'b',
        12 => 'c',
        13 => 'd',
        14 => 'e',
        _ => 'f',
    }
}

// ---------------------------------------------------------------------------
// File names and MIME types.

/// Lowercased extension of `filename`, or of `default` when the file name has none.
pub open spec fn ext_of_spec(filename: Seq<char>, default: Seq<char>) -> Seq<char> {
    match extension_of(filename) {
        Some(e) => lowercase_of(e),
        None => lowercase_of(default),
    }
}

/// Lowercased extension of `filename`, falling back to `default`.
pub fn ext_of(filename: &str, default: &str) -> (res: String)
    ensures
        res@ == ext_of_spec(filename@, default@),
{
    match path_extension(filename) {
        Some(e) => to_lowercase(e.as_str()),
        None => to_lowercase(default),
    }
}

/// `name` when it has at most `max` characters; otherwise `…` followed by its last
/// `max` characters (the extension is kept).
pub open spec fn truncated_name(name: Seq<char>, max: nat) -> Seq<char> {
    if name.len() <= max {
        name
    } else {
        seq!['…'] + name.subrange(name.len() - max, name.len() as int)
    }
}

/// Truncates a file name to its last `max` characters, counting characters, not bytes.
pub fn truncate_filename(name: &str, max: usize) -> (res: String)
    ensures
        res@ == truncated_name(name@, max as nat),
{
    let cs = chars_of(name);
    if cs.len() <= max {
        return name.to_owned();
    }
    let mut out: Vec<char> = Vec::new();
    out.push('…');
    let n = cs.len();
    let start = n - max;
    for k in start..n
        invariant
            start == n - max,
            n == cs@.len(),
            cs@ == name@,
            out@ == seq!['…'] + cs@.subrange(start as int, k as int),
    {
        out.push(cs[k]);
        assert(seq!['…'] + cs@.subrange(start as int, k + 1) =~= (seq!['…'] + cs@.subrange(start as int, k as int)).push(cs@[k as int]));
    }
    string_of(out.as_slice())
}

/// MIME type inferred from a (lowercase) file extension.
pub open spec fn mime_of_ext(ext: Seq<char>) -> Seq<char> {
    if ext == "pdf"@ {
        "application/pdf"@
    } else if ext == "doc"@ || ext == "docx"@ {
        "application/msword"@
    } else if ext == "xls"@ || ext == "xlsx"@ {
        "application/vnd.ms-excel"@
    } else if ext == "ppt"@ || ext == "pptx"@ {
        "application/vnd.ms-powerpoint"@
    } else if ext == "zip"@ {
        "application/zip"@
    } else if ext == "rar"@ {
        "application/x-rar-compressed"@
    } else if ext == "txt"@ {
        "text/plain"@
    } else if ext == "mp3"@ {
        "audio/mpeg"@
    } else if ext == "wav"@ {
        "audio/wav"@
    } else if ext == "aac"@ {
        "audio/aac"@
    } else if ext == "ogg"@ {
        "audio/ogg"@
    } else if ext == "m4a"@ {
        "audio/mp4"@
    } else {
        "application/octet-stream"@
    }
}

/// MIME type inferred from a file extension.
pub fn mime_from_ext(ext: &str) -> (res: String)
    ensures
        res@ == mime_of_ext(ext@),
{
    let m = if crate::text::same_text(ext, "pdf") {
        "application/pdf"
    } else if crate::text::same_text(ext, "doc") || crate::text::same_text(ext, "docx") {
        "application/msword"
    } else if crate::text::same_text(ext, "xls") || crate::text::same_text(ext, "xlsx") {
        "application/vnd.ms-excel"
    } else if crate::text::same_text(ext, "ppt") || crate::text::same_text(ext, "pptx") {
        "application/vnd.ms-powerpoint"
    } else if crate::text::same_text(ext, "zip") {
        "application/zip"
    } else if crate::text::same_text(ext, "rar") {
        "application/x-rar-compressed"
    } else if crate::text::same_text(ext, "txt") {
        "text/plain"
    } else if crate::text::same_text(ext, "mp3") {
        "audio/mpeg"
    } else if crate::text::same_text(ext, "wav") {
        "audio/wav"
    } else if crate::text::same_text(ext, "aac") {
        "audio/aac"
    } else if crate::text::same_text(ext, "ogg") {
        "audio/ogg"
    } else if crate::text::same_text(ext, "m4a") {
        "audio/mp4"
    } else {
        "application/octet-stream"
    };
    m.to_owned()
}

/// Whether a file extension is one of the audio types (`mp3 wav aac ogg m4a`).
pub open spec fn is_audio_ext(ext: Seq<char>) -> bool {
    ext == "mp3"@ || ext == "wav"@ || ext == "aac"@ || ext == "ogg"@ || ext == "m4a"@
}

// ---------------------------------------------------------------------------
// Object paths.

/// Hex digit `i` (most significant first) of the 32 hex digits of a UUID's value.
pub open spec fn uuid_digit(u: u128, i: int) -> char {
    hex_digit(((u >> ((124 - 4 * i) as u128)) & 15u128) as nat)
}

/// The 32 lowercase hex digits of a UUID's value.
pub open spec fn uuid_hex(u: u128) -> Seq<char> {
    Seq::new(32, |i: int| uuid_digit(u, i))
}

/// The hyphenated text of a UUID (`8-4-4-4-12` lowercase hex digits), as
/// `uuid::Uuid`'s `Display` writes it.
pub open spec fn uuid_text_of(u: u128) -> Seq<char> {
    let h = uuid_hex(u);
    h.subrange(0, 8) + seq!['-'] + h.subrange(8, 12) + seq!['-'] + h.subrange(12, 16) + seq!['-']
        + h.subrange(16, 20) + seq!['-'] + h.subrange(20, 32)
}

/// Appends hex digits `from..to` of a UUID's value.
fn push_uuid_digits(out: &mut String, u: u128, from: usize, to: usize)
    requires
        from <= to <= 32,
    ensures
        final(out)@ == old(out)@ + uuid_hex(u).subrange(from as int, to as int),
{
    let ghost start = out@;
    for i in from..to
        invariant
            from <= i <= to <= 32,
            out@ == start + uuid_hex(u).subrange(from as int, i as int),
    {
        let shift: u128 = (124 - 4 * i) as u128;
        let d: u128 = (u >> shift) & 15u128;
        assert(d < 16) by (bit_vector)
            requires d == (u >> shift) & 15u128;
        push_char(out, hex_char(d as u8));
        assert(uuid_hex(u).subrange(from as int, i + 1) =~= uuid_hex(u).subrange(from as int, i as int)
            + seq![uuid_digit(u, i as int)]);
    }
}

/// The hyphenated text of a UUID's value.
pub fn uuid_text(u: u128) -> (res: String)
    ensures
        res@ == uuid_text_of(u),
{
    let mut out = String::new();
    push_uuid_digits(&mut out, u, 0, 8);
    push_char(&mut out, '-');
    push_uuid_digits(&mut out, u, 8, 12);
    push_char(&mut out, '-');
    push_uuid_digits(&mut out, u, 12, 16);
    push_char(&mut out, '-');
    push_uuid_digits(&mut out, u, 16, 20);
    push_char(&mut out, '-');
    push_uuid_digits(&mut out, u, 20, 32);
    assert(out@ =~= uuid_text_of(u));
    out
}

/// `dir/date/uuid.ext`: where an uploaded object of directory `dir` is stored.
pub open spec fn object_path_of(dir: Seq<char>, date: Seq<char>, uid: u128, ext: Seq<char>) -> Seq<char> {
    dir + "/"@ + date + "/"@ + uuid_text_of(uid) + "."@ + ext
}

/// Storage path `dir/date/uuid.ext`.
pub fn object_path(dir: &str, date: &str, uid: u128, ext: &str) -> (res: String)
    ensures
        res@ == object_path_of(dir@, date@, uid, ext@),
{
    let a = concat(dir, "/");
    let b = concat(a.as_str(), date);
    let c = concat(b.as_str(), "/");
    let d = concat(c.as_str(), uuid_text(uid).as_str());
    let e = concat(d.as_str(), ".");
    concat(e.as_str(), ext)
}

} // verus!
