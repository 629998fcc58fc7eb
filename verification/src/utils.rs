//! File names, file types, image sources and the byte codecs used on media.

use vstd::prelude::*;
use vstd::string::*;

use crate::error::{prefixed, MiniMaxError};
use crate::lexorder::{compare_str, StrOrder};
use crate::text::{
    contains_seq, decimal, occurs_at, push_char, str_contains, str_starts_with, u128_to_string,
    u64_to_string,
};

verus! {

// ------------------------------------------------------------------
// Hex
// ------------------------------------------------------------------

/// Whether a byte is a hex digit (`0-9`, `a-f`, `A-F`).
pub open spec fn is_hex_digit(b: u8) -> bool {
    (48 <= b <= 57) || (97 <= b <= 102) || (65 <= b <= 70)
}

/// The value of a hex digit.
pub open spec fn hex_digit_value(b: u8) -> int {
    if 48 <= b <= 57 {
        b - 48
    } else if 97 <= b <= 102 {
        b - 97 + 10
    } else {
        b - 65 + 10
    }
}

/// The bytes that an even-length string of hex digits stands for, two digits each.
pub open spec fn hex_bytes(h: Seq<u8>) -> Seq<u8> {
    Seq::new(
        h.len() / 2,
        |i: int| (hex_digit_value(h[2 * i]) * 16 + hex_digit_value(h[2 * i + 1])) as u8,
    )
}

/// Why hex text could not be decoded.
#[derive(Debug, Clone, Copy, PartialEq, Eq)]
pub enum HexError {
    /// A byte that is not a hex digit, at this position.
    InvalidHexCharacter { c: char, index: usize },
    /// An odd number of digits.
    OddLength,
    /// A length that does not fit the target (not produced when decoding into a vector).
    InvalidStringLength,
}

/// `e` is the error by which hex decoding refuses `data`: an odd length first, else
/// the first byte that is not a hex digit.
pub open spec fn hex_rejects(data: Seq<u8>, e: HexError) -> bool {
    match e {
        HexError::OddLength => data.len() % 2 == 1,
        HexError::InvalidHexCharacter { c, index } => {
            &&& data.len() % 2 == 0
            &&& index < data.len()
            &&& !is_hex_digit(data[index as int])
            &&& c == data[index as int] as char
            &&& forall|j: int| 0 <= j < index ==> is_hex_digit(#[trigger] data[j])
        },
        HexError::InvalidStringLength => false,
    }
}

/// Trusted: `hex::decode`. Decodes pairs of hex digits into bytes; an odd length is
/// refused first, then the first byte that is not a hex digit.
#[verifier::external_body]
pub fn hex_decode(data: &[u8]) -> (r: Result<Vec<u8>, HexError>)
    ensures
        r is Ok <==> data@.len() % 2 == 0 && forall|i: int| 0 <= i < data@.len() ==> is_hex_digit(#[trigger] data@[i]),
        r matches Ok(v) ==> v@ == hex_bytes(data@),
        r matches Err(e) ==> hex_rejects(data@, e),
{
    match hex::decode(data) {
        Ok(v) => Ok(v),
        Err(hex::FromHexError::InvalidHexCharacter { c, index }) => Err(HexError::InvalidHexCharacter { c, index }),
        Err(hex::FromHexError::OddLength) => Err(HexError::OddLength),
        Err(hex::FromHexError::InvalidStringLength) => Err(HexError::InvalidStringLength),
    }
}

/// How `{:?}` shows a character.
pub uninterp spec fn char_debug_text(c: char) -> Seq<char>;

/// Trusted: `format!("{:?}", c)`, the `Debug` form of a character (quoted, escaped).
#[verifier::external_body]
fn char_debug(c: char) -> (r: String)
    ensures
        r@ == char_debug_text(c),
{
    format!("{:?}", c)
}

/// The message of a hex error: the text that the `Display` of `hex::FromHexError`
/// writes, which is all that `Display` does.
pub open spec fn hex_error_text(e: HexError) -> Seq<char> {
    match e {
        HexError::InvalidHexCharacter { c, index } => "Invalid character "@ + char_debug_text(c)
            + " at position "@ + decimal(index as nat),
        HexError::OddLength => "Odd number of digits"@,
        HexError::InvalidStringLength => "Invalid string length"@,
    }
}

impl HexError {
    /// The message of the error.
    pub fn message(&self) -> (r: String)
        ensures
            r@ == hex_error_text(*self),
    {
        match self {
            HexError::InvalidHexCharacter { c, index } => {
                let mut r = prefixed("Invalid character ", char_debug(*c).as_str());
                r.append(" at position ");
                r.append(u64_to_string(*index as u64).as_str());
                r
            },
            HexError::OddLength => String::from_str("Odd number of digits"),
            HexError::InvalidStringLength => String::from_str("Invalid string length"),
        }
    }
}

/// Decodes hex-encoded audio into its bytes.
pub fn decode_hex_audio(hex_str: &str) -> (r: Result<Vec<u8>, MiniMaxError>)
    ensures
        ({
            let b = hex_str.spec_bytes();
            &&& r is Ok <==> b.len() % 2 == 0 && forall|i: int| 0 <= i < b.len() ==> is_hex_digit(#[trigger] b[i])
            &&& r matches Ok(v) ==> v@ == hex_bytes(b)
            &&& r matches Err(e) ==> (e matches MiniMaxError::HexDecode(m) && exists|he: HexError|
                hex_rejects(b, he) && m@ == hex_error_text(he))
        }),
{
    match hex_decode(hex_str.as_bytes()) {
        Ok(v) => Ok(v),
        Err(e) => Err(MiniMaxError::HexDecode(e.message())),
    }
}

// ------------------------------------------------------------------
// Base64
// ------------------------------------------------------------------

/// The character of a Base64 digit (RFC 4648 alphabet): `A`-`Z`, `a`-`z`, `0`-`9`,
/// `+`, `/`.
pub open spec fn base64_digit(n: int) -> char {
    if n < 26 {
        (65 + n) as char
    } else if n < 52 {
        (97 + n - 26) as char
    } else if n < 62 {
        (48 + n - 52) as char
    } else if n == 62 {
        '+'
    } else {
        '/'
    }
}

/// The standard Base64 text of some bytes: each group of three bytes becomes four
/// digits of six bits each; a last group of one or two bytes is padded with `=`.
pub open spec fn base64_standard(data: Seq<u8>) -> Seq<char>
    decreases data.len(),
{
    if data.len() == 0 {
        Seq::empty()
    } else if data.len() == 1 {
        let b0 = data[0] as int;
        seq![base64_digit(b0 / 4), base64_digit((b0 % 4) * 16), '=', '=']
    } else if data.len() == 2 {
        let b0 = data[0] as int;
        let b1 = data[1] as int;
        seq![base64_digit(b0 / 4), base64_digit((b0 % 4) * 16 + b1 / 16), base64_digit((b1 % 16) * 4), '=']
    } else {
        let b0 = data[0] as int;
        let b1 = data[1] as int;
        let b2 = data[2] as int;
        seq![
            base64_digit(b0 / 4),
            base64_digit((b0 % 4) * 16 + b1 / 16),
            base64_digit((b1 % 16) * 4 + b2 / 64),
            base64_digit(b2 % 64),
        ] + base64_standard(data.skip(3))
    }
}

/// Trusted: `base64::Engine::encode` with the `STANDARD` engine, which writes the
/// RFC 4648 Base64 text with `=` padding stated by `base64_standard`. It panics when the
/// encoded length overflows `usize`, which the precondition rules out.
#[verifier::external_body]
pub fn base64_encode(data: &[u8]) -> (r: String)
    requires
        data@.len() / 3 * 4 + 4 <= usize::MAX,
    ensures
        r@ == base64_standard(data@),
{
    base64::Engine::encode(&base64::engine::general_purpose::STANDARD, data)
}

// ------------------------------------------------------------------
// File names
// ------------------------------------------------------------------

/// The first ten characters of `text`, spaces made underscores.
pub open spec fn filename_stem(text: Seq<char>) -> Seq<char> {
    let k: int = if text.len() < 10 { text.len() as int } else { 10 };
    text.take(k).map_values(|c: char| if c == ' ' { '_' } else { c })
}

/// `{tool}_{stem}_{millis}.{ext}`.
pub open spec fn filename_text(tool: Seq<char>, text: Seq<char>, ext: Seq<char>, millis: nat) -> Seq<char> {
    tool + "_"@ + filename_stem(text) + "_"@ + decimal(millis) + "."@ + ext
}

/// The file name for output of `tool` about `text`, stamped with `millis`: the tool, the
/// first ten characters of the text with spaces made underscores, the time in
/// milliseconds, and the extension.
pub fn filename_at(tool: &str, text: &str, ext: &str, millis: u128) -> (r: String)
    ensures
        r@ == filename_text(tool@, text@, ext@, millis as nat),
{
    let mut r = prefixed(tool, "_");
    let n = text.unicode_len();
    let k: usize = if n < 10 { n } else { 10 };
    let ghost start = r@;
    let mut i: usize = 0;
    while i < k
        invariant
            n == text@.len(),
            k <= n,
            k == (if n < 10 { n } else { 10 }),
            i <= k,
            r@ == start + text@.take(i as int).map_values(|c: char| if c == ' ' { '_' } else { c }),
        decreases k - i,
    {
        let c = text.get_char(i);
        let d = if c == ' ' { '_' } else { c };
        let ghost before = r@;
        push_char(&mut r, d);
        assert(text@.take(i + 1).map_values(|c: char| if c == ' ' { '_' } else { c }) =~= text@.take(
            i as int,
        ).map_values(|c: char| if c == ' ' { '_' } else { c }).push(d));
        assert(r@ =~= start + text@.take(i + 1).map_values(|c: char| if c == ' ' { '_' } else { c }));
        i = i + 1;
    }
    r.append("_");
    r.append(u128_to_string(millis).as_str());
    r.append(".");
    r.append(ext);
    assert(r@ =~= filename_text(tool@, text@, ext@, millis as nat));
    r
}

/// Trusted: the current time as milliseconds since the Unix epoch
/// (`SystemTime::now().duration_since(UNIX_EPOCH)`, zero if the clock is before it).
/// Nothing is stated of the value: it depends on the clock.
#[verifier::external_body]
fn now_millis() -> u128 {
    std::time::SystemTime::now().duration_since(std::time::SystemTime::UNIX_EPOCH).unwrap_or_default().as_millis()
}

/// The file name for output of `tool` about `text`, stamped with the current time.
pub fn build_filename(tool: &str, text: &str, ext: &str) -> (r: String)
    ensures
        exists|ms: nat| r@ == filename_text(tool@, text@, ext@, ms),
{
    let ms = now_millis();
    filename_at(tool, text, ext, ms)
}

// ------------------------------------------------------------------
// Paths and types
// ------------------------------------------------------------------

/// The last position of `c` in `s`, if any.
pub open spec fn last_index_of(s: Seq<char>, c: char) -> Option<int>
    decreases s.len(),
{
    if s.len() == 0 {
        None
    } else if s.last() == c {
        Some(s.len() - 1)
    } else {
        last_index_of(s.drop_last(), c)
    }
}

/// Finds the last position of `c` in `s`.
pub fn find_last(s: &str, c: char) -> (r: Option<usize>)
    ensures
        match r {
            Some(i) => last_index_of(s@, c) == Some(i as int) && (i as int) < s@.len(),
            None => last_index_of(s@, c) is None,
        },
{
    let n = s.unicode_len();
    let mut i: usize = n;
    assert(s@.take(n as int) =~= s@);
    while i > 0
        invariant
            n == s@.len(),
            i <= n,
            last_index_of(s@, c) == last_index_of(s@.take(i as int), c),
        decreases i,
    {
        assert(s@.take(i as int).drop_last() =~= s@.take(i - 1));
        if s.get_char(i - 1) == c {
            return Some(i - 1);
        }
        i = i - 1;
    }
    None
}

/// A path without its trailing separators and trailing `.` components, which do not
/// change which component comes last.
pub open spec fn trim_tail(p: Seq<char>) -> Seq<char>
    decreases p.len(),
{
    if p.len() > 0 && p.last() == '/' {
        trim_tail(p.drop_last())
    } else if p.len() >= 2 && p.last() == '.' && p[p.len() - 2] == '/' {
        trim_tail(p.drop_last())
    } else {
        p
    }
}

/// The file name of a path: its last component, what follows the last `/` once
/// trailing separators and `.` components are set aside.
pub open spec fn file_name_of(path: Seq<char>) -> Seq<char> {
    let p = trim_tail(path);
    match last_index_of(p, '/') {
        Some(i) => p.skip(i + 1),
        None => p,
    }
}

/// The length of `path` without its trailing separators and `.` components.
fn trimmed_len(path: &str) -> (k: usize)
    ensures
        k <= path@.len(),
        trim_tail(path@) == path@.take(k as int),
{
    let n = path.unicode_len();
    let mut k: usize = n;
    assert(path@.take(n as int) =~= path@);
    while k > 0
        invariant
            n == path@.len(),
            k <= n,
            trim_tail(path@) == trim_tail(path@.take(k as int)),
        decreases k,
    {
        let ghost p = path@.take(k as int);
        let c = path.get_char(k - 1);
        if c == '/' {
            assert(p.drop_last() =~= path@.take(k - 1));
        } else if c == '.' && k >= 2 && path.get_char(k - 2) == '/' {
            assert(p.drop_last() =~= path@.take(k - 1));
        } else {
            return k;
        }
        k = k - 1;
    }
    k
}

/// The extension of a path: what follows the last `.` of its file name, when that `.`
/// is not the file name's first character; `..` has none.
pub open spec fn extension_of(path: Seq<char>) -> Option<Seq<char>> {
    let name = file_name_of(path);
    if name == ".."@ {
        None
    } else {
        match last_index_of(name, '.') {
            Some(i) => if i == 0 {
                None
            } else {
                Some(name.skip(i + 1))
            },
            None => None,
        }
    }
}

/// The extension of a path, if it has one.
pub fn file_extension(path: &str) -> (r: Option<String>)
    ensures
        match r {
            Some(e) => extension_of(path@) == Some(e@),
            None => extension_of(path@) is None,
        },
{
    let k = trimmed_len(path);
    let trimmed: &str = path.substring_char(0, k);
    let name: &str = match find_last(trimmed, '/') {
        Some(i) => trimmed.substring_char(i + 1, k),
        None => trimmed,
    };
    assert(name@ == file_name_of(path@));
    if compare_str(name, "..") == StrOrder::Equal {
        return None;
    }
    match find_last(name, '.') {
        Some(i) => {
            if i == 0 {
                None
            } else {
                let m = name.unicode_len();
                Some(String::from_str(name.substring_char(i + 1, m)))
            }
        },
        None => None,
    }
}

/// The MIME type for a file extension, as uploads declare it.
pub open spec fn mime_for_extension(ext: Option<Seq<char>>) -> Seq<char> {
    match ext {
        Some(e) => if e == "mp3"@ || e == "mpeg"@ {
            "audio/mpeg"@
        } else if e == "wav"@ {
            "audio/wav"@
        } else if e == "flac"@ {
            "audio/flac"@
        } else if e == "m4a"@ {
            "audio/mp4"@
        } else if e == "jpg"@ || e == "jpeg"@ {
            "image/jpeg"@
        } else if e == "png"@ {
            "image/png"@
        } else if e == "gif"@ {
            "image/gif"@
        } else if e == "webp"@ {
            "image/webp"@
        } else if e == "mp4"@ {
            "video/mp4"@
        } else if e == "pdf"@ {
            "application/pdf"@
        } else {
            "application/octet-stream"@
        },
        None => "application/octet-stream"@,
    }
}

fn is(a: &str, b: &str) -> (r: bool)
    ensures
        r == (a@ == b@),
{
    compare_str(a, b) == StrOrder::Equal
}

/// The MIME type of a file to upload, from its extension.
pub fn mime_guess(path: &str) -> (r: String)
    ensures
        r@ == mime_for_extension(extension_of(path@)),
{
    let ext = file_extension(path);
    let m = match &ext {
        Some(e) => {
            let e = e.as_str();
            if is(e, "mp3") || is(e, "mpeg") {
                "audio/mpeg"
            } else if is(e, "wav") {
                "audio/wav"
            } else if is(e, "flac") {
                "audio/flac"
            } else if is(e, "m4a") {
                "audio/mp4"
            } else if is(e, "jpg") || is(e, "jpeg") {
                "image/jpeg"
            } else if is(e, "png") {
                "image/png"
            } else if is(e, "gif") {
                "image/gif"
            } else if is(e, "webp") {
                "image/webp"
            } else if is(e, "mp4") {
                "video/mp4"
            } else if is(e, "pdf") {
                "application/pdf"
            } else {
                "application/octet-stream"
            }
        },
        None => "application/octet-stream",
    };
    String::from_str(m)
}

// ------------------------------------------------------------------
// Images
// ------------------------------------------------------------------

/// `s` without its leading `@` characters.
pub open spec fn strip_at(s: Seq<char>) -> Seq<char>
    decreases s.len(),
{
    if s.len() > 0 && s[0] == '@' {
        strip_at(s.skip(1))
    } else {
        s
    }
}

/// Removes the leading `@` characters.
pub fn strip_at_prefix(s: &str) -> (r: &str)
    ensures
        r@ == strip_at(s@),
{
    let n = s.unicode_len();
    let mut i: usize = 0;
    assert(s@.skip(0) =~= s@);
    while i < n && s.get_char(i) == '@'
        invariant
            n == s@.len(),
            i <= n,
            strip_at(s@) == strip_at(s@.skip(i as int)),
        decreases n - i,
    {
        assert(s@.skip(i as int).skip(1) =~= s@.skip(i + 1));
        i = i + 1;
    }
    s.substring_char(i, n)
}

/// Where an image for analysis comes from.
#[derive(Debug)]
pub enum ImageSource {
    /// An HTTP(S) URL, to be downloaded.
    Remote(String),
    /// A `data:` URL, passed on as it is.
    DataUrl(String),
    /// A local path, to be read.
    Local(String),
}

/// The kind of an image source, after its leading `@` characters are removed.
pub open spec fn image_source_kind(s: Seq<char>) -> int {
    let t = strip_at(s);
    if occurs_at(t, "http://"@, 0) || occurs_at(t, "https://"@, 0) {
        0
    } else if occurs_at(t, "data:"@, 0) {
        1
    } else {
        2
    }
}

/// Classifies an image source (a URL or a path, possibly prefixed with `@`).
pub fn classify_image_source(src: &str) -> (r: ImageSource)
    ensures
        match r {
            ImageSource::Remote(u) => image_source_kind(src@) == 0 && u@ == strip_at(src@),
            ImageSource::DataUrl(u) => image_source_kind(src@) == 1 && u@ == strip_at(src@),
            ImageSource::Local(p) => image_source_kind(src@) == 2 && p@ == strip_at(src@),
        },
{
    let t = strip_at_prefix(src);
    if str_starts_with(t, "http://") || str_starts_with(t, "https://") {
        ImageSource::Remote(String::from_str(t))
    } else if str_starts_with(t, "data:") {
        ImageSource::DataUrl(String::from_str(t))
    } else {
        ImageSource::Local(String::from_str(t))
    }
}

/// The MIME type of a local image, from its extension (`png` when unknown).
pub open spec fn image_mime(ext: Option<Seq<char>>) -> Seq<char> {
    match ext {
        Some(e) => if e == "jpg"@ || e == "jpeg"@ {
            "image/jpeg"@
        } else if e == "webp"@ {
            "image/webp"@
        } else if e == "gif"@ {
            "image/gif"@
        } else {
            "image/png"@
        },
        None => "image/png"@,
    }
}

/// The MIME type of a local image file.
pub fn image_mime_for_path(path: &str) -> (r: String)
    ensures
        r@ == image_mime(extension_of(path@)),
{
    let ext = file_extension(path);
    let m = match &ext {
        Some(e) => {
            let e = e.as_str();
            if is(e, "jpg") || is(e, "jpeg") {
                "image/jpeg"
            } else if is(e, "webp") {
                "image/webp"
            } else if is(e, "gif") {
                "image/gif"
            } else {
                "image/png"
            }
        },
        None => "image/png",
    };
    String::from_str(m)
}

/// The image format named by a `Content-Type` (`image/jpeg` when absent).
pub open spec fn image_format(content_type: Option<Seq<char>>) -> Seq<char> {
    let ct = match content_type {
        Some(c) => c,
        None => "image/jpeg"@,
    };
    if contains_seq(ct, "png"@) {
        "png"@
    } else if contains_seq(ct, "webp"@) {
        "webp"@
    } else if contains_seq(ct, "gif"@) {
        "gif"@
    } else {
        "jpeg"@
    }
}

/// The image format of a downloaded image, from its `Content-Type`.
pub fn image_format_for_content_type(content_type: Option<&str>) -> (r: String)
    ensures
        r@ == image_format(match content_type {
            Some(c) => Some(c@),
            None => None,
        }),
{
    let ct = match content_type {
        Some(c) => c,
        None => "image/jpeg",
    };
    let f = if str_contains(ct, "png") {
        "png"
    } else if str_contains(ct, "webp") {
        "webp"
    } else if str_contains(ct, "gif") {
        "gif"
    } else {
        "jpeg"
    };
    String::from_str(f)
}

/// `data:{mime};base64,{data}`.
pub open spec fn data_url_text(mime: Seq<char>, data: Seq<u8>) -> Seq<char> {
    "data:"@ + mime + ";base64,"@ + base64_standard(data)
}

/// A `data:` URL holding `data` as Base64.
pub fn data_url(mime: &str, data: &[u8]) -> (r: String)
    requires
        data@.len() / 3 * 4 + 4 <= usize::MAX,
    ensures
        r@ == data_url_text(mime@, data@),
{
    let mut r = prefixed("data:", mime);
    r.append(";base64,");
    r.append(base64_encode(data).as_str());
    r
}

/// A path with a leading `~` replaced by the home directory (`/tmp` when unknown).
pub open spec fn expand_home_text(path: Seq<char>, home: Option<Seq<char>>) -> Seq<char> {
    if path.len() > 0 && path[0] == '~' {
        (match home {
            Some(h) => h,
            None => "/tmp"@,
        }) + path.skip(1)
    } else {
        path
    }
}

/// Replaces a leading `~` in a path by the home directory.
pub fn expand_home(path: &str, home: Option<&str>) -> (r: String)
    ensures
        r@ == expand_home_text(path@, match home {
            Some(h) => Some(h@),
            None => None,
        }),
{
    let n = path.unicode_len();
    if n > 0 && path.get_char(0) == '~' {
        let h = match home {
            Some(h) => h,
            None => "/tmp",
        };
        prefixed(h, path.substring_char(1, n))
    } else {
        String::from_str(path)
    }
}

/// The file extension of an image downloaded from a URL: `png` when the URL mentions
/// `.png`, else `jpg`.
pub fn image_extension_for_url(url: &str) -> (r: &'static str)
    ensures
        r@ == if contains_seq(url@, ".png"@) {
            "png"@
        } else {
            "jpg"@
        },
{
    if str_contains(url, ".png") {
        "png"
    } else {
        "jpg"
    }
}

} // verus!
