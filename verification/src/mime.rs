//! MIME types, mime groups, quality values and the Accept header.
use crate::text::{
    all_ascii, all_digits, chars_eq_lower_str, chars_eq_str, chars_of, copy_string, digit_char,
    digits_value, find_char, has_prefix, index_of, lemma_index_of, lemma_index_of_bounds,
    lower_seq, parse_unsigned_range, push_char, push_str, range_eq_str, split_chars,
    split_seq, starts_with_str, str_eq, string_of, sub_chars, trim_chars, trim_seq, views_of,
};
use vstd::prelude::*;

verus! {

broadcast use vstd::string::group_string_axioms;

/// Bytes that may stand in a mime type or mime group: printable ASCII other than
/// uppercase letters and `*()<>:?@[]\{}`.
pub open spec fn header_byte_ok(b: u8) -> bool {
    &&& b > 31
    &&& b < 128
    &&& !(65 <= b && b <= 90)
    &&& b != 42 && b != 40 && b != 41 && b != 58 && b != 60 && b != 62 && b != 63 && b != 64
    &&& b != 91 && b != 93 && b != 92 && b != 123 && b != 125 && b != 127
}

/// A character whose UTF-8 encoding is a single permitted byte.
pub open spec fn header_char_ok(c: char) -> bool {
    (c as u32) < 128 && header_byte_ok(c as u8)
}

pub open spec fn all_header_chars(s: Seq<char>) -> bool {
    forall|i: int| 0 <= i < s.len() ==> header_char_ok(#[trigger] s[i])
}

fn check_header_byte(char: u8) -> (r: bool)
    ensures
        r == header_byte_ok(char),
{
    if char <= 31 {
        return false;
    }
    if char & 0b1000_0000 != 0 {
        assert(char & 0x80 != 0 ==> char >= 128) by (bit_vector);
        return false;
    }
    assert(char & 0x80 == 0 ==> char < 128) by (bit_vector);
    if 65 <= char && char <= 90 {
        return false;
    }
    !(char == 42 || char == 40 || char == 41 || char == 58 || char == 60 || char == 62 || char
        == 63 || char == 64 || char == 91 || char == 93 || char == 92 || char == 123 || char
        == 125 || char == 127)
}

fn check_header_char(c: char) -> (r: bool)
    ensures
        r == header_char_ok(c),
{
    if (c as u32) < 128 {
        check_header_byte(c as u8)
    } else {
        false
    }
}

fn all_header_chars_in(v: &Vec<char>, from: usize, to: usize) -> (r: bool)
    requires
        from <= to <= v@.len(),
    ensures
        r == all_header_chars(v@.subrange(from as int, to as int)),
{
    let mut i = from;
    while i < to
        invariant
            from <= i <= to <= v@.len(),
            forall|j: int| from <= j < i ==> header_char_ok(#[trigger] v@[j]),
        decreases to - i,
    {
        if !check_header_char(v[i]) {
            assert(v@.subrange(from as int, to as int)[i - from] == v@[i as int]);
            return false;
        }
        i = i + 1;
    }
    assert forall|j: int| 0 <= j < to - from implies header_char_ok(
        #[trigger] v@.subrange(from as int, to as int)[j],
    ) by {
        assert(v@.subrange(from as int, to as int)[j] == v@[from + j]);
    }
    true
}

proof fn lemma_second_slash(s: Seq<char>, k: int, i: int)
    requires
        0 <= k < i < s.len(),
        s[k] == '/',
        s[i] == '/',
        forall|j: int| 0 <= j < i && j != k ==> s[j] != '/',
    ensures
        !is_other_mime_text(s),
{
    lemma_index_of(s, '/', k);
    let t = s.skip(k + 1);
    assert forall|j: int| 0 <= j < i - k - 1 implies t[j] != '/' by {
        assert(t[j] == s[k + 1 + j]);
    }
    lemma_index_of(t, '/', i - k - 1);
}

proof fn lemma_single_slash(s: Seq<char>, k: int)
    requires
        0 < k < s.len() - 1,
        s[k] == '/',
        s[0] != '/',
        forall|j: int| 0 <= j < s.len() && j != k ==> s[j] != '/',
        forall|j: int| 0 <= j < s.len() && s[j] != '/' ==> header_char_ok(#[trigger] s[j]),
    ensures
        is_other_mime_text(s),
        mime_group_of(s) is Some,
{
    lemma_index_of(s, '/', k);
    let t = s.skip(k + 1);
    assert forall|j: int| 0 <= j < t.len() implies t[j] != '/' by {
        assert(t[j] == s[k + 1 + j]);
    }
    lemma_index_of(t, '/', -1);
    let g = s.take(k);
    assert forall|j: int| 0 <= j < g.len() implies header_char_ok(#[trigger] g[j]) by {
        assert(g[j] == s[j]);
    }
}

/// Mime groups: what stands before the "/" of a mime type.
#[derive(Clone, Ord, PartialOrd, Eq, PartialEq, Hash, Debug)]
pub enum TiiMimeGroup<S = String> {
    /// Fonts
    Font,
    /// Custom application specific things.
    Application,
    /// Images, anything that can be rendered onto a screen.
    Image,
    /// Video maybe with audio maybe without.
    Video,
    /// Audio
    Audio,
    /// Any human or pseudo human-readable text.
    Text,
    /// Anything else.
    Other(S),
}

impl View for TiiMimeGroup<String> {
    type V = TiiMimeGroup<Seq<char>>;

    open spec fn view(&self) -> TiiMimeGroup<Seq<char>> {
        match self {
            TiiMimeGroup::Font => TiiMimeGroup::Font,
            TiiMimeGroup::Application => TiiMimeGroup::Application,
            TiiMimeGroup::Image => TiiMimeGroup::Image,
            TiiMimeGroup::Video => TiiMimeGroup::Video,
            TiiMimeGroup::Audio => TiiMimeGroup::Audio,
            TiiMimeGroup::Text => TiiMimeGroup::Text,
            TiiMimeGroup::Other(s) => TiiMimeGroup::Other(s@),
        }
    }
}

/// The part of `s` before its first "/", or all of `s`.
pub open spec fn group_part(s: Seq<char>) -> Seq<char> {
    let i = index_of(s, '/');
    if i >= 0 {
        s.take(i)
    } else {
        s
    }
}

/// The mime group that `s` names, where `s` is a group, a mime type or an accept mime type.
pub open spec fn mime_group_of(s: Seq<char>) -> Option<TiiMimeGroup<Seq<char>>> {
    let g = group_part(s);
    if !all_header_chars(g) {
        None
    } else if g == "font"@ {
        Some(TiiMimeGroup::Font)
    } else if g == "application"@ {
        Some(TiiMimeGroup::Application)
    } else if g == "image"@ {
        Some(TiiMimeGroup::Image)
    } else if g == "video"@ {
        Some(TiiMimeGroup::Video)
    } else if g == "audio"@ {
        Some(TiiMimeGroup::Audio)
    } else if g == "text"@ {
        Some(TiiMimeGroup::Text)
    } else {
        Some(TiiMimeGroup::Other(g))
    }
}

/// The text of a mime group.
pub open spec fn group_text(g: TiiMimeGroup<Seq<char>>) -> Seq<char> {
    match g {
        TiiMimeGroup::Font => "font"@,
        TiiMimeGroup::Application => "application"@,
        TiiMimeGroup::Image => "image"@,
        TiiMimeGroup::Video => "video"@,
        TiiMimeGroup::Audio => "audio"@,
        TiiMimeGroup::Text => "text"@,
        TiiMimeGroup::Other(s) => s,
    }
}

impl TiiMimeGroup {
    /// Parses a mime group from a group such as "video", a mime type such as "video/mp4"
    /// or an accept mime such as "video/*". Returns None when the group part holds
    /// characters that are not permitted, such as "*".
    pub fn parse(value: &str) -> (r: Option<Self>)
        ensures
            r matches Some(g) ==> mime_group_of(value@) == Some(g@),
            r is None ==> mime_group_of(value@) is None,
    {
        let v = chars_of(value);
        Self::parse_chars(&v)
    }

    /// Parses a mime group from the characters of `v`.
    pub fn parse_chars(v: &Vec<char>) -> (r: Option<Self>)
        ensures
            r matches Some(g) ==> mime_group_of(v@) == Some(g@),
            r is None ==> mime_group_of(v@) is None,
    {
        let end = match find_char(v, '/', 0) {
            Some(i) => i,
            None => v.len(),
        };
        proof {
            assert(v@.skip(0) =~= v@);
            assert(group_part(v@) =~= v@.subrange(0, end as int));
        }
        if !all_header_chars_in(v, 0, end) {
            return None;
        }
        let g = sub_chars(v, 0, end);
        if chars_eq_str(&g, "font") {
            Some(TiiMimeGroup::Font)
        }         else if chars_eq_str(&g, "application") {
            Some(TiiMimeGroup::Application)
        }         else if chars_eq_str(&g, "image") {
            Some(TiiMimeGroup::Image)
        }         else if chars_eq_str(&g, "video") {
            Some(TiiMimeGroup::Video)
        }         else if chars_eq_str(&g, "audio") {
            Some(TiiMimeGroup::Audio)
        }         else if chars_eq_str(&g, "text") {
            Some(TiiMimeGroup::Text)
        } else {
            Some(TiiMimeGroup::Other(string_of(&g)))
        }
    }

    /// All well known mime groups.
    pub fn well_known() -> (r: Vec<TiiMimeGroup>)
        ensures
            r@.len() == 6,
            forall|i: int| 0 <= i < r@.len() ==> !(#[trigger] r@[i] is Other),
    {
        let r = vec![
            TiiMimeGroup::Font,
            TiiMimeGroup::Application,
            TiiMimeGroup::Image,
            TiiMimeGroup::Video,
            TiiMimeGroup::Audio,
            TiiMimeGroup::Text,
        ];
        r
    }

    /// Returns true if this is a well known mime group.
    pub fn is_well_known(&self) -> (r: bool)
        ensures
            r == !(self is Other),
    {
        !matches!(self, TiiMimeGroup::Other(_))
    }

    /// Returns true if this is a custom mime group.
    pub fn is_custom(&self) -> (r: bool)
        ensures
            r == self is Other,
    {
        matches!(self, TiiMimeGroup::Other(_))
    }

    /// The static text of a well known group; None for custom groups.
    pub fn well_known_str(&self) -> (r: Option<&'static str>)
        ensures
            r is None <==> self is Other,
            r matches Some(t) ==> t@ == group_text(self@),
    {
        match self {
            TiiMimeGroup::Font => Some("font"),
            TiiMimeGroup::Application => Some("application"),
            TiiMimeGroup::Image => Some("image"),
            TiiMimeGroup::Video => Some("video"),
            TiiMimeGroup::Audio => Some("audio"),
            TiiMimeGroup::Text => Some("text"),
            TiiMimeGroup::Other(_) => None,
        }
    }

    /// The text of the mime group; it parses back to this group.
    pub fn as_str(&self) -> (r: &str)
        ensures
            r@ == group_text(self@),
    {
        match self {
            TiiMimeGroup::Font => "font",
            TiiMimeGroup::Application => "application",
            TiiMimeGroup::Image => "image",
            TiiMimeGroup::Video => "video",
            TiiMimeGroup::Audio => "audio",
            TiiMimeGroup::Text => "text",
            TiiMimeGroup::Other(o) => o.as_str(),
        }
    }

    /// Do two groups denote the same group?
    pub fn same_as(&self, other: &TiiMimeGroup) -> (r: bool)
        ensures
            r == (self@ == other@),
    {
        match (self, other) {
            (TiiMimeGroup::Font, TiiMimeGroup::Font) => true,
            (TiiMimeGroup::Application, TiiMimeGroup::Application) => true,
            (TiiMimeGroup::Image, TiiMimeGroup::Image) => true,
            (TiiMimeGroup::Video, TiiMimeGroup::Video) => true,
            (TiiMimeGroup::Audio, TiiMimeGroup::Audio) => true,
            (TiiMimeGroup::Text, TiiMimeGroup::Text) => true,
            (TiiMimeGroup::Other(a), TiiMimeGroup::Other(b)) => str_eq(a.as_str(), b.as_str()),
            _ => false,
        }
    }

    /// A copy of this group.
    pub fn duplicate(&self) -> (r: Self)
        ensures
            r@ == self@,
    {
        match self {
            TiiMimeGroup::Font => TiiMimeGroup::Font,
            TiiMimeGroup::Application => TiiMimeGroup::Application,
            TiiMimeGroup::Image => TiiMimeGroup::Image,
            TiiMimeGroup::Video => TiiMimeGroup::Video,
            TiiMimeGroup::Audio => TiiMimeGroup::Audio,
            TiiMimeGroup::Text => TiiMimeGroup::Text,
            TiiMimeGroup::Other(s) => TiiMimeGroup::Other(copy_string(s)),
        }
    }
}

/// Represents a MIME type as used in the `Content-Type` header.
#[derive(Clone, Ord, PartialOrd, Eq, PartialEq, Hash, Debug)]
pub enum TiiMimeType<S = String> {
    ///////////////////////////////////////// FONT
    /// font/ttf
    FontTtf,
    /// font/otf
    FontOtf,
    /// font/woff
    FontWoff,
    /// font/woff2
    FontWoff2,

    ////////////////////////////////////// Application
    /// application/x-abiword
    ApplicationAbiWord,

    /// application/x-freearc
    ApplicationFreeArc,

    /// application/vnd.amazon.ebook
    ApplicationAmazonEbook,

    /// application/x-bzip
    ApplicationBzip,

    /// application/x-bzip2
    ApplicationBzip2,

    /// application/x-cdf
    ApplicationCDAudio,

    /// application/x-csh
    ApplicationCShell,

    /// application/msword
    ApplicationMicrosoftWord,

    /// application/vnd.openxmlformats-officedocument.wordprocessingml.document
    ApplicationMicrosoftWordXml,

    /// application/vnd.ms-fontobject
    ApplicationMicrosoftFont,

    /// application/epub+zip
    ApplicationEpub,

    /// application/gzip IANA
    /// application/x-gzip Microsoft
    ApplicationGzip,

    /// application/java-archive
    ApplicationJar,

    /// application/x-java-class
    ApplicationJavaClass,

    /// application/octet-stream
    ApplicationOctetStream,
    /// application/json
    ApplicationJson,

    /// application/ld+json
    ApplicationJsonLd,

    /// application/yaml
    ApplicationYaml,

    /// application/x-lua
    TextLua,

    /// application/x-lua-bytecode
    ApplicationLuaBytecode,

    /// application/pdf
    ApplicationPdf,
    /// application/zip
    ApplicationZip,

    /// application/vnd.apple.installer+xml
    ApplicationAppleInstallerPackage,

    /// application/vnd.oasis.opendocument.presentation
    ApplicationOpenDocumentPresentation,

    /// application/vnd.oasis.opendocument.spreadsheet
    ApplicationOpenDocumentSpreadsheet,

    /// application/vnd.oasis.opendocument.text
    ApplicationOpenDocumentText,

    /// application/ogg
    ApplicationOgg,

    /// application/x-httpd-php
    ApplicationPhp,

    /// application/vnd.ms-powerpoint
    ApplicationMicrosoftPowerpoint,

    /// application/vnd.openxmlformats-officedocument.presentationml.presentation
    ApplicationMicrosoftPowerpointXml,

    /// application/vnd.rar
    ApplicationRar,

    /// application/rtf
    ApplicationRichText,

    /// application/x-sh
    ApplicationBourneShell,

    /// application/x-tar
    ApplicationTapeArchive,

    /// application/vnd.visio
    ApplicationMicrosoftVisio,

    /// application/xhtml+xml
    ApplicationXHtml,

    /// application/vnd.ms-excel
    ApplicationMicrosoftExcel,

    /// application/vnd.openxmlformats-officedocument.spreadsheetml.sheet
    ApplicationMicrosoftExcelXml,

    /// application/xml
    /// text/xml
    ApplicationXml,

    /// application/vnd.mozilla.xul+xml
    ApplicationXul,

    /// application/dicom
    ApplicationDicom,

    /// application/x-7z-compressed
    Application7Zip,

    /// application/x-xz
    ApplicationXz,

    /// application/wasm
    ApplicationWasm,

    ////////////////////////////////////// VIDEO
    /// video/mp4
    VideoMp4,
    /// video/ogg
    VideoOgg,
    /// video/webm
    VideoWebm,
    /// video/x-msvideo
    VideoAvi,

    /// video/mpeg
    VideoMpeg,

    /// video/mp2t
    VideoMpegTransportStream,

    /// audio/3gpp
    Video3gpp,

    /// audio/3gpp2
    Video3gpp2,

    ///////////////////////////////////// Image animated and not
    /// image/bmp
    ImageBmp,

    /// image/gif
    ImageGif,

    /// image/jpeg
    ImageJpeg,

    /// image/avif
    ImageAvif,

    /// image/png
    ImagePng,

    /// image/apng
    ImageApng,

    /// image/webp
    ImageWebp,
    /// image/svg+xml
    ImageSvg,
    /// image/vnd.microsoft.icon
    ImageIcon,

    /// image/tiff
    ImageTiff,

    ///////////////////////////////////// AUDIO
    /// audio/aac
    AudioAac,

    /// audio/midi
    /// audio/x-midi
    AudioMidi,

    /// audio/mpeg
    AudioMpeg,

    /// audio/ogg
    AudioOgg,

    /// audio/wav
    AudioWaveform,

    /// audio/webm
    AudioWebm,

    /// audio/3gpp
    Audio3gpp,

    /// audio/3gpp2
    Audio3gpp2,

    //////////////////////////////////// Text documents
    /// text/css
    TextCss,
    /// text/html
    TextHtml,
    /// text/javascript
    TextJavaScript,
    /// text/plain
    TextPlain,
    /// text/csv
    TextCsv,
    /// text/calendar
    TextCalendar,

    ///Anything else
    Other(TiiMimeGroup<S>, S),
}

impl View for TiiMimeType<String> {
    type V = TiiMimeType<Seq<char>>;

    open spec fn view(&self) -> TiiMimeType<Seq<char>> {
        match self {
            TiiMimeType::TextCss => TiiMimeType::TextCss,
            TiiMimeType::TextHtml => TiiMimeType::TextHtml,
            TiiMimeType::TextJavaScript => TiiMimeType::TextJavaScript,
            TiiMimeType::TextPlain => TiiMimeType::TextPlain,
            TiiMimeType::ImageBmp => TiiMimeType::ImageBmp,
            TiiMimeType::ImageGif => TiiMimeType::ImageGif,
            TiiMimeType::ImageJpeg => TiiMimeType::ImageJpeg,
            TiiMimeType::ImagePng => TiiMimeType::ImagePng,
            TiiMimeType::ImageWebp => TiiMimeType::ImageWebp,
            TiiMimeType::ImageSvg => TiiMimeType::ImageSvg,
            TiiMimeType::ImageIcon => TiiMimeType::ImageIcon,
            TiiMimeType::ApplicationOctetStream => TiiMimeType::ApplicationOctetStream,
            TiiMimeType::ApplicationJson => TiiMimeType::ApplicationJson,
            TiiMimeType::ApplicationPdf => TiiMimeType::ApplicationPdf,
            TiiMimeType::ApplicationZip => TiiMimeType::ApplicationZip,
            TiiMimeType::VideoMp4 => TiiMimeType::VideoMp4,
            TiiMimeType::VideoOgg => TiiMimeType::VideoOgg,
            TiiMimeType::VideoWebm => TiiMimeType::VideoWebm,
            TiiMimeType::FontTtf => TiiMimeType::FontTtf,
            TiiMimeType::FontOtf => TiiMimeType::FontOtf,
            TiiMimeType::FontWoff => TiiMimeType::FontWoff,
            TiiMimeType::FontWoff2 => TiiMimeType::FontWoff2,
            TiiMimeType::ApplicationAbiWord => TiiMimeType::ApplicationAbiWord,
            TiiMimeType::ApplicationFreeArc => TiiMimeType::ApplicationFreeArc,
            TiiMimeType::ApplicationAmazonEbook => TiiMimeType::ApplicationAmazonEbook,
            TiiMimeType::ApplicationBzip => TiiMimeType::ApplicationBzip,
            TiiMimeType::ApplicationBzip2 => TiiMimeType::ApplicationBzip2,
            TiiMimeType::ApplicationCDAudio => TiiMimeType::ApplicationCDAudio,
            TiiMimeType::ApplicationCShell => TiiMimeType::ApplicationCShell,
            TiiMimeType::ApplicationMicrosoftWord => TiiMimeType::ApplicationMicrosoftWord,
            TiiMimeType::ApplicationMicrosoftWordXml => TiiMimeType::ApplicationMicrosoftWordXml,
            TiiMimeType::ApplicationMicrosoftFont => TiiMimeType::ApplicationMicrosoftFont,
            TiiMimeType::ApplicationEpub => TiiMimeType::ApplicationEpub,
            TiiMimeType::ApplicationGzip => TiiMimeType::ApplicationGzip,
            TiiMimeType::ApplicationJar => TiiMimeType::ApplicationJar,
            TiiMimeType::ApplicationJavaClass => TiiMimeType::ApplicationJavaClass,
            TiiMimeType::ApplicationJsonLd => TiiMimeType::ApplicationJsonLd,
            TiiMimeType::ApplicationAppleInstallerPackage => TiiMimeType::ApplicationAppleInstallerPackage,
            TiiMimeType::ApplicationOpenDocumentPresentation => TiiMimeType::ApplicationOpenDocumentPresentation,
            TiiMimeType::ApplicationOpenDocumentSpreadsheet => TiiMimeType::ApplicationOpenDocumentSpreadsheet,
            TiiMimeType::ApplicationOpenDocumentText => TiiMimeType::ApplicationOpenDocumentText,
            TiiMimeType::ApplicationOgg => TiiMimeType::ApplicationOgg,
            TiiMimeType::ApplicationPhp => TiiMimeType::ApplicationPhp,
            TiiMimeType::ApplicationMicrosoftPowerpoint => TiiMimeType::ApplicationMicrosoftPowerpoint,
            TiiMimeType::ApplicationMicrosoftPowerpointXml => TiiMimeType::ApplicationMicrosoftPowerpointXml,
            TiiMimeType::ApplicationRar => TiiMimeType::ApplicationRar,
            TiiMimeType::ApplicationRichText => TiiMimeType::ApplicationRichText,
            TiiMimeType::ApplicationBourneShell => TiiMimeType::ApplicationBourneShell,
            TiiMimeType::ApplicationTapeArchive => TiiMimeType::ApplicationTapeArchive,
            TiiMimeType::ApplicationMicrosoftVisio => TiiMimeType::ApplicationMicrosoftVisio,
            TiiMimeType::ApplicationXHtml => TiiMimeType::ApplicationXHtml,
            TiiMimeType::ApplicationMicrosoftExcel => TiiMimeType::ApplicationMicrosoftExcel,
            TiiMimeType::ApplicationMicrosoftExcelXml => TiiMimeType::ApplicationMicrosoftExcelXml,
            TiiMimeType::ApplicationXml => TiiMimeType::ApplicationXml,
            TiiMimeType::ApplicationXul => TiiMimeType::ApplicationXul,
            TiiMimeType::ApplicationDicom => TiiMimeType::ApplicationDicom,
            TiiMimeType::Application7Zip => TiiMimeType::Application7Zip,
            TiiMimeType::ApplicationWasm => TiiMimeType::ApplicationWasm,
            TiiMimeType::VideoAvi => TiiMimeType::VideoAvi,
            TiiMimeType::VideoMpeg => TiiMimeType::VideoMpeg,
            TiiMimeType::VideoMpegTransportStream => TiiMimeType::VideoMpegTransportStream,
            TiiMimeType::Video3gpp => TiiMimeType::Video3gpp,
            TiiMimeType::Video3gpp2 => TiiMimeType::Video3gpp2,
            TiiMimeType::ImageAvif => TiiMimeType::ImageAvif,
            TiiMimeType::ImageApng => TiiMimeType::ImageApng,
            TiiMimeType::ImageTiff => TiiMimeType::ImageTiff,
            TiiMimeType::AudioAac => TiiMimeType::AudioAac,
            TiiMimeType::AudioMidi => TiiMimeType::AudioMidi,
            TiiMimeType::AudioMpeg => TiiMimeType::AudioMpeg,
            TiiMimeType::AudioOgg => TiiMimeType::AudioOgg,
            TiiMimeType::AudioWaveform => TiiMimeType::AudioWaveform,
            TiiMimeType::AudioWebm => TiiMimeType::AudioWebm,
            TiiMimeType::Audio3gpp => TiiMimeType::Audio3gpp,
            TiiMimeType::Audio3gpp2 => TiiMimeType::Audio3gpp2,
            TiiMimeType::TextCsv => TiiMimeType::TextCsv,
            TiiMimeType::TextCalendar => TiiMimeType::TextCalendar,
            TiiMimeType::ApplicationYaml => TiiMimeType::ApplicationYaml,
            TiiMimeType::TextLua => TiiMimeType::TextLua,
            TiiMimeType::ApplicationLuaBytecode => TiiMimeType::ApplicationLuaBytecode,
            TiiMimeType::ApplicationXz => TiiMimeType::ApplicationXz,
            TiiMimeType::Other(g, s) => TiiMimeType::Other(g@, s@),
        }
    }
}

/// The text of a mime type.
pub open spec fn mime_text(m: TiiMimeType<Seq<char>>) -> Seq<char> {
    match m {
        TiiMimeType::TextCss => "text/css"@,
        TiiMimeType::TextHtml => "text/html"@,
        TiiMimeType::TextJavaScript => "text/javascript"@,
        TiiMimeType::TextPlain => "text/plain"@,
        TiiMimeType::ImageBmp => "image/bmp"@,
        TiiMimeType::ImageGif => "image/gif"@,
        TiiMimeType::ImageJpeg => "image/jpeg"@,
        TiiMimeType::ImagePng => "image/png"@,
        TiiMimeType::ImageWebp => "image/webp"@,
        TiiMimeType::ImageSvg => "image/svg+xml"@,
        TiiMimeType::ImageIcon => "image/vnd.microsoft.icon"@,
        TiiMimeType::ApplicationOctetStream => "application/octet-stream"@,
        TiiMimeType::ApplicationJson => "application/json"@,
        TiiMimeType::ApplicationPdf => "application/pdf"@,
        TiiMimeType::ApplicationZip => "application/zip"@,
        TiiMimeType::VideoMp4 => "video/mp4"@,
        TiiMimeType::VideoOgg => "video/ogg"@,
        TiiMimeType::VideoWebm => "video/webm"@,
        TiiMimeType::FontTtf => "font/ttf"@,
        TiiMimeType::FontOtf => "font/otf"@,
        TiiMimeType::FontWoff => "font/woff"@,
        TiiMimeType::FontWoff2 => "font/woff2"@,
        TiiMimeType::ApplicationAbiWord => "application/x-abiword"@,
        TiiMimeType::ApplicationFreeArc => "application/x-freearc"@,
        TiiMimeType::ApplicationAmazonEbook => "application/vnd.amazon.ebook"@,
        TiiMimeType::ApplicationBzip => "application/x-bzip"@,
        TiiMimeType::ApplicationBzip2 => "application/x-bzip2"@,
        TiiMimeType::ApplicationCDAudio => "application/x-cdf"@,
        TiiMimeType::ApplicationCShell => "application/x-csh"@,
        TiiMimeType::ApplicationMicrosoftWord => "application/msword"@,
        TiiMimeType::ApplicationMicrosoftWordXml => "application/vnd.openxmlformats-officedocument.wordprocessingml.document"@,
        TiiMimeType::ApplicationMicrosoftFont => "application/vnd.ms-fontobject"@,
        TiiMimeType::ApplicationEpub => "application/epub+zip"@,
        TiiMimeType::ApplicationGzip => "application/gzip"@,
        TiiMimeType::ApplicationJar => "application/java-archive"@,
        TiiMimeType::ApplicationJavaClass => "application/x-java-class"@,
        TiiMimeType::ApplicationJsonLd => "application/ld+json"@,
        TiiMimeType::ApplicationAppleInstallerPackage => "application/vnd.apple.installer+xml"@,
        TiiMimeType::ApplicationOpenDocumentPresentation => "application/vnd.oasis.opendocument.presentation"@,
        TiiMimeType::ApplicationOpenDocumentSpreadsheet => "application/vnd.oasis.opendocument.spreadsheet"@,
        TiiMimeType::ApplicationOpenDocumentText => "application/vnd.oasis.opendocument.text"@,
        TiiMimeType::ApplicationOgg => "application/ogg"@,
        TiiMimeType::ApplicationPhp => "application/x-httpd-php"@,
        TiiMimeType::ApplicationMicrosoftPowerpoint => "application/vnd.ms-powerpoint"@,
        TiiMimeType::ApplicationMicrosoftPowerpointXml => "application/vnd.openxmlformats-officedocument.presentationml.presentation"@,
        TiiMimeType::ApplicationRar => "application/vnd.rar"@,
        TiiMimeType::ApplicationRichText => "application/rtf"@,
        TiiMimeType::ApplicationBourneShell => "application/x-sh"@,
        TiiMimeType::ApplicationTapeArchive => "application/x-tar"@,
        TiiMimeType::ApplicationMicrosoftVisio => "application/vnd.visio"@,
        TiiMimeType::ApplicationXHtml => "application/xhtml+xml"@,
        TiiMimeType::ApplicationMicrosoftExcel => "application/vnd.ms-excel"@,
        TiiMimeType::ApplicationMicrosoftExcelXml => "application/vnd.openxmlformats-officedocument.spreadsheetml.sheet"@,
        TiiMimeType::ApplicationXml => "application/xml"@,
        TiiMimeType::ApplicationXul => "application/vnd.mozilla.xul+xml"@,
        TiiMimeType::ApplicationDicom => "application/dicom"@,
        TiiMimeType::Application7Zip => "application/x-7z-compressed"@,
        TiiMimeType::ApplicationWasm => "application/wasm"@,
        TiiMimeType::VideoAvi => "video/x-msvideo"@,
        TiiMimeType::VideoMpeg => "video/mpeg"@,
        TiiMimeType::VideoMpegTransportStream => "video/mp2t"@,
        TiiMimeType::Video3gpp => "video/3gpp"@,
        TiiMimeType::Video3gpp2 => "video/3gpp2"@,
        TiiMimeType::ImageAvif => "image/avif"@,
        TiiMimeType::ImageApng => "image/apng"@,
        TiiMimeType::ImageTiff => "image/tiff"@,
        TiiMimeType::AudioAac => "audio/aac"@,
        TiiMimeType::AudioMidi => "audio/midi"@,
        TiiMimeType::AudioMpeg => "audio/mpeg"@,
        TiiMimeType::AudioOgg => "audio/ogg"@,
        TiiMimeType::AudioWaveform => "audio/wav"@,
        TiiMimeType::AudioWebm => "audio/webm"@,
        TiiMimeType::Audio3gpp => "audio/3gpp"@,
        TiiMimeType::Audio3gpp2 => "audio/3gpp2"@,
        TiiMimeType::TextCsv => "text/csv"@,
        TiiMimeType::TextCalendar => "text/calendar"@,
        TiiMimeType::ApplicationYaml => "application/yaml"@,
        TiiMimeType::TextLua => "text/x-lua"@,
        TiiMimeType::ApplicationLuaBytecode => "application/x-lua-bytecode"@,
        TiiMimeType::ApplicationXz => "application/x-xz"@,
        TiiMimeType::Other(_, s) => s,
    }
}

/// The usual file extension of a mime type.
pub open spec fn mime_extension(m: TiiMimeType<Seq<char>>) -> Seq<char> {
    match m {
        TiiMimeType::FontTtf => "ttf"@,
        TiiMimeType::FontOtf => "otf"@,
        TiiMimeType::FontWoff => "woff"@,
        TiiMimeType::FontWoff2 => "woff2"@,
        TiiMimeType::ApplicationAbiWord => "abw"@,
        TiiMimeType::ApplicationFreeArc => "arc"@,
        TiiMimeType::ApplicationAmazonEbook => "azw"@,
        TiiMimeType::ApplicationBzip => "bz"@,
        TiiMimeType::ApplicationBzip2 => "bz2"@,
        TiiMimeType::ApplicationCDAudio => "cda"@,
        TiiMimeType::ApplicationCShell => "csh"@,
        TiiMimeType::ApplicationMicrosoftWord => "doc"@,
        TiiMimeType::ApplicationMicrosoftWordXml => "docx"@,
        TiiMimeType::ApplicationMicrosoftFont => "eot"@,
        TiiMimeType::ApplicationEpub => "epub"@,
        TiiMimeType::ApplicationGzip => "gz"@,
        TiiMimeType::ApplicationJar => "jar"@,
        TiiMimeType::ApplicationJavaClass => "class"@,
        TiiMimeType::ApplicationOctetStream => "bin"@,
        TiiMimeType::ApplicationJson => "json"@,
        TiiMimeType::ApplicationJsonLd => "jsonld"@,
        TiiMimeType::ApplicationPdf => "pdf"@,
        TiiMimeType::ApplicationZip => "zip"@,
        TiiMimeType::ApplicationAppleInstallerPackage => "mpkg"@,
        TiiMimeType::ApplicationOpenDocumentPresentation => "odp"@,
        TiiMimeType::ApplicationOpenDocumentSpreadsheet => "ods"@,
        TiiMimeType::ApplicationOpenDocumentText => "odt"@,
        TiiMimeType::ApplicationOgg => "ogx"@,
        TiiMimeType::ApplicationPhp => "php"@,
        TiiMimeType::ApplicationMicrosoftPowerpoint => "ppt"@,
        TiiMimeType::ApplicationMicrosoftPowerpointXml => "pptx"@,
        TiiMimeType::ApplicationRar => "rar"@,
        TiiMimeType::ApplicationRichText => "rtf"@,
        TiiMimeType::ApplicationBourneShell => "sh"@,
        TiiMimeType::ApplicationTapeArchive => "tar"@,
        TiiMimeType::ApplicationMicrosoftVisio => "vsd"@,
        TiiMimeType::ApplicationXHtml => "xhtml"@,
        TiiMimeType::ApplicationMicrosoftExcel => "xls"@,
        TiiMimeType::ApplicationMicrosoftExcelXml => "xlsx"@,
        TiiMimeType::ApplicationXml => "xml"@,
        TiiMimeType::ApplicationXul => "xul"@,
        TiiMimeType::ApplicationDicom => "dcm"@,
        TiiMimeType::Application7Zip => "7z"@,
        TiiMimeType::ApplicationWasm => "wasm"@,
        TiiMimeType::VideoMp4 => "mp4"@,
        TiiMimeType::VideoOgg => "ogv"@,
        TiiMimeType::VideoWebm => "webm"@,
        TiiMimeType::VideoAvi => "avi"@,
        TiiMimeType::VideoMpeg => "mpeg"@,
        TiiMimeType::VideoMpegTransportStream => "ts"@,
        TiiMimeType::Video3gpp => "3gp"@,
        TiiMimeType::Video3gpp2 => "3g2"@,
        TiiMimeType::ImageBmp => "bmp"@,
        TiiMimeType::ImageGif => "gif"@,
        TiiMimeType::ImageJpeg => "jpg"@,
        TiiMimeType::ImageAvif => "avif"@,
        TiiMimeType::ImagePng => "png"@,
        TiiMimeType::ImageApng => "apng"@,
        TiiMimeType::ImageWebp => "webp"@,
        TiiMimeType::ImageSvg => "svg"@,
        TiiMimeType::ImageIcon => "ico"@,
        TiiMimeType::ImageTiff => "tif"@,
        TiiMimeType::AudioAac => "aac"@,
        TiiMimeType::AudioMidi => "mid"@,
        TiiMimeType::AudioMpeg => "mp3"@,
        TiiMimeType::AudioOgg => "oga"@,
        TiiMimeType::AudioWaveform => "wav"@,
        TiiMimeType::AudioWebm => "weba"@,
        TiiMimeType::Audio3gpp => "3gp"@,
        TiiMimeType::Audio3gpp2 => "3g2"@,
        TiiMimeType::TextCss => "css"@,
        TiiMimeType::TextHtml => "html"@,
        TiiMimeType::TextJavaScript => "js"@,
        TiiMimeType::TextPlain => "txt"@,
        TiiMimeType::TextCsv => "csv"@,
        TiiMimeType::TextCalendar => "cal"@,
        TiiMimeType::ApplicationYaml => "yaml"@,
        TiiMimeType::TextLua => "lua"@,
        TiiMimeType::ApplicationLuaBytecode => "luac"@,
        TiiMimeType::ApplicationXz => "xz"@,
        TiiMimeType::Other(_, _) => "bin"@,
    }
}

/// The group of a mime type.
pub open spec fn mime_group_spec(m: TiiMimeType<Seq<char>>) -> TiiMimeGroup<Seq<char>> {
    match m {
        TiiMimeType::FontTtf => TiiMimeGroup::Font,
        TiiMimeType::FontOtf => TiiMimeGroup::Font,
        TiiMimeType::FontWoff => TiiMimeGroup::Font,
        TiiMimeType::FontWoff2 => TiiMimeGroup::Font,
        TiiMimeType::ApplicationAbiWord => TiiMimeGroup::Application,
        TiiMimeType::ApplicationFreeArc => TiiMimeGroup::Application,
        TiiMimeType::ApplicationAmazonEbook => TiiMimeGroup::Application,
        TiiMimeType::ApplicationBzip => TiiMimeGroup::Application,
        TiiMimeType::ApplicationBzip2 => TiiMimeGroup::Application,
        TiiMimeType::ApplicationCDAudio => TiiMimeGroup::Application,
        TiiMimeType::ApplicationCShell => TiiMimeGroup::Application,
        TiiMimeType::ApplicationMicrosoftWord => TiiMimeGroup::Application,
        TiiMimeType::ApplicationMicrosoftWordXml => TiiMimeGroup::Application,
        TiiMimeType::ApplicationMicrosoftFont => TiiMimeGroup::Application,
        TiiMimeType::ApplicationEpub => TiiMimeGroup::Application,
        TiiMimeType::ApplicationGzip => TiiMimeGroup::Application,
        TiiMimeType::ApplicationJar => TiiMimeGroup::Application,
        TiiMimeType::ApplicationJavaClass => TiiMimeGroup::Application,
        TiiMimeType::ApplicationOctetStream => TiiMimeGroup::Application,
        TiiMimeType::ApplicationJson => TiiMimeGroup::Application,
        TiiMimeType::ApplicationJsonLd => TiiMimeGroup::Application,
        TiiMimeType::ApplicationYaml => TiiMimeGroup::Application,
        TiiMimeType::ApplicationLuaBytecode => TiiMimeGroup::Application,
        TiiMimeType::ApplicationPdf => TiiMimeGroup::Application,
        TiiMimeType::ApplicationZip => TiiMimeGroup::Application,
        TiiMimeType::ApplicationAppleInstallerPackage => TiiMimeGroup::Application,
        TiiMimeType::ApplicationOpenDocumentPresentation => TiiMimeGroup::Application,
        TiiMimeType::ApplicationOpenDocumentSpreadsheet => TiiMimeGroup::Application,
        TiiMimeType::ApplicationOpenDocumentText => TiiMimeGroup::Application,
        TiiMimeType::ApplicationOgg => TiiMimeGroup::Application,
        TiiMimeType::ApplicationPhp => TiiMimeGroup::Application,
        TiiMimeType::ApplicationMicrosoftPowerpoint => TiiMimeGroup::Application,
        TiiMimeType::ApplicationMicrosoftPowerpointXml => TiiMimeGroup::Application,
        TiiMimeType::ApplicationRar => TiiMimeGroup::Application,
        TiiMimeType::ApplicationRichText => TiiMimeGroup::Application,
        TiiMimeType::ApplicationBourneShell => TiiMimeGroup::Application,
        TiiMimeType::ApplicationTapeArchive => TiiMimeGroup::Application,
        TiiMimeType::ApplicationMicrosoftVisio => TiiMimeGroup::Application,
        TiiMimeType::ApplicationXHtml => TiiMimeGroup::Application,
        TiiMimeType::ApplicationMicrosoftExcel => TiiMimeGroup::Application,
        TiiMimeType::ApplicationMicrosoftExcelXml => TiiMimeGroup::Application,
        TiiMimeType::ApplicationXml => TiiMimeGroup::Application,
        TiiMimeType::ApplicationXul => TiiMimeGroup::Application,
        TiiMimeType::ApplicationDicom => TiiMimeGroup::Application,
        TiiMimeType::Application7Zip => TiiMimeGroup::Application,
        TiiMimeType::ApplicationXz => TiiMimeGroup::Application,
        TiiMimeType::ApplicationWasm => TiiMimeGroup::Application,
        TiiMimeType::VideoMp4 => TiiMimeGroup::Video,
        TiiMimeType::VideoOgg => TiiMimeGroup::Video,
        TiiMimeType::VideoWebm => TiiMimeGroup::Video,
        TiiMimeType::VideoAvi => TiiMimeGroup::Video,
        TiiMimeType::VideoMpeg => TiiMimeGroup::Video,
        TiiMimeType::VideoMpegTransportStream => TiiMimeGroup::Video,
        TiiMimeType::Video3gpp => TiiMimeGroup::Video,
        TiiMimeType::Video3gpp2 => TiiMimeGroup::Video,
        TiiMimeType::ImageBmp => TiiMimeGroup::Image,
        TiiMimeType::ImageGif => TiiMimeGroup::Image,
        TiiMimeType::ImageJpeg => TiiMimeGroup::Image,
        TiiMimeType::ImageAvif => TiiMimeGroup::Image,
        TiiMimeType::ImagePng => TiiMimeGroup::Image,
        TiiMimeType::ImageApng => TiiMimeGroup::Image,
        TiiMimeType::ImageWebp => TiiMimeGroup::Image,
        TiiMimeType::ImageSvg => TiiMimeGroup::Image,
        TiiMimeType::ImageIcon => TiiMimeGroup::Image,
        TiiMimeType::ImageTiff => TiiMimeGroup::Image,
        TiiMimeType::AudioAac => TiiMimeGroup::Audio,
        TiiMimeType::AudioMidi => TiiMimeGroup::Audio,
        TiiMimeType::AudioMpeg => TiiMimeGroup::Audio,
        TiiMimeType::AudioOgg => TiiMimeGroup::Audio,
        TiiMimeType::AudioWaveform => TiiMimeGroup::Audio,
        TiiMimeType::AudioWebm => TiiMimeGroup::Audio,
        TiiMimeType::Audio3gpp => TiiMimeGroup::Audio,
        TiiMimeType::Audio3gpp2 => TiiMimeGroup::Audio,
        TiiMimeType::TextCss => TiiMimeGroup::Text,
        TiiMimeType::TextHtml => TiiMimeGroup::Text,
        TiiMimeType::TextJavaScript => TiiMimeGroup::Text,
        TiiMimeType::TextLua => TiiMimeGroup::Text,
        TiiMimeType::TextPlain => TiiMimeGroup::Text,
        TiiMimeType::TextCsv => TiiMimeGroup::Text,
        TiiMimeType::TextCalendar => TiiMimeGroup::Text,
        TiiMimeType::Other(g, _) => g,
    }
}

/// The mime type for a file extension; the comparison ignores ASCII case and
/// unknown extensions give application/octet-stream.
pub open spec fn mime_of_extension(ext: Seq<char>) -> TiiMimeType<Seq<char>> {
    let l = lower_seq(ext);
    if l == "css"@ {
        TiiMimeType::TextCss
    }     else if l == "html"@ {
        TiiMimeType::TextHtml
    }     else if l == "htm"@ {
        TiiMimeType::TextHtml
    }     else if l == "js"@ {
        TiiMimeType::TextJavaScript
    }     else if l == "mjs"@ {
        TiiMimeType::TextJavaScript
    }     else if l == "txt"@ {
        TiiMimeType::TextPlain
    }     else if l == "bmp"@ {
        TiiMimeType::ImageBmp
    }     else if l == "gif"@ {
        TiiMimeType::ImageGif
    }     else if l == "jpeg"@ {
        TiiMimeType::ImageJpeg
    }     else if l == "jpg"@ {
        TiiMimeType::ImageJpeg
    }     else if l == "png"@ {
        TiiMimeType::ImagePng
    }     else if l == "webp"@ {
        TiiMimeType::ImageWebp
    }     else if l == "svg"@ {
        TiiMimeType::ImageSvg
    }     else if l == "ico"@ {
        TiiMimeType::ImageIcon
    }     else if l == "json"@ {
        TiiMimeType::ApplicationJson
    }     else if l == "pdf"@ {
        TiiMimeType::ApplicationPdf
    }     else if l == "zip"@ {
        TiiMimeType::ApplicationZip
    }     else if l == "mp4"@ {
        TiiMimeType::VideoMp4
    }     else if l == "ogv"@ {
        TiiMimeType::VideoOgg
    }     else if l == "webm"@ {
        TiiMimeType::VideoWebm
    }     else if l == "ttf"@ {
        TiiMimeType::FontTtf
    }     else if l == "otf"@ {
        TiiMimeType::FontOtf
    }     else if l == "woff"@ {
        TiiMimeType::FontWoff
    }     else if l == "woff2"@ {
        TiiMimeType::FontWoff2
    }     else if l == "abw"@ {
        TiiMimeType::ApplicationAbiWord
    }     else if l == "arc"@ {
        TiiMimeType::ApplicationFreeArc
    }     else if l == "azw"@ {
        TiiMimeType::ApplicationAmazonEbook
    }     else if l == "bz"@ {
        TiiMimeType::ApplicationBzip
    }     else if l == "bz2"@ {
        TiiMimeType::ApplicationBzip2
    }     else if l == "cda"@ {
        TiiMimeType::ApplicationCDAudio
    }     else if l == "csh"@ {
        TiiMimeType::ApplicationCShell
    }     else if l == "doc"@ {
        TiiMimeType::ApplicationMicrosoftWord
    }     else if l == "docx"@ {
        TiiMimeType::ApplicationMicrosoftWordXml
    }     else if l == "eot"@ {
        TiiMimeType::ApplicationMicrosoftFont
    }     else if l == "epub"@ {
        TiiMimeType::ApplicationEpub
    }     else if l == "gz"@ {
        TiiMimeType::ApplicationGzip
    }     else if l == "jar"@ {
        TiiMimeType::ApplicationJar
    }     else if l == "class"@ {
        TiiMimeType::ApplicationJavaClass
    }     else if l == "bin"@ {
        TiiMimeType::ApplicationOctetStream
    }     else if l == "jsonld"@ {
        TiiMimeType::ApplicationJsonLd
    }     else if l == "mpkg"@ {
        TiiMimeType::ApplicationAppleInstallerPackage
    }     else if l == "odp"@ {
        TiiMimeType::ApplicationOpenDocumentPresentation
    }     else if l == "ods"@ {
        TiiMimeType::ApplicationOpenDocumentSpreadsheet
    }     else if l == "odt"@ {
        TiiMimeType::ApplicationOpenDocumentText
    }     else if l == "ogx"@ {
        TiiMimeType::ApplicationOgg
    }     else if l == "php"@ {
        TiiMimeType::ApplicationPhp
    }     else if l == "ppt"@ {
        TiiMimeType::ApplicationMicrosoftPowerpoint
    }     else if l == "pptx"@ {
        TiiMimeType::ApplicationMicrosoftPowerpointXml
    }     else if l == "rar"@ {
        TiiMimeType::ApplicationRar
    }     else if l == "rtf"@ {
        TiiMimeType::ApplicationRichText
    }     else if l == "sh"@ {
        TiiMimeType::ApplicationBourneShell
    }     else if l == "tar"@ {
        TiiMimeType::ApplicationTapeArchive
    }     else if l == "vsd"@ {
        TiiMimeType::ApplicationMicrosoftVisio
    }     else if l == "xhtml"@ {
        TiiMimeType::ApplicationXHtml
    }     else if l == "xls"@ {
        TiiMimeType::ApplicationMicrosoftExcel
    }     else if l == "xlsx"@ {
        TiiMimeType::ApplicationMicrosoftExcelXml
    }     else if l == "xml"@ {
        TiiMimeType::ApplicationXml
    }     else if l == "xul"@ {
        TiiMimeType::ApplicationXul
    }     else if l == "dcm"@ {
        TiiMimeType::ApplicationDicom
    }     else if l == "7z"@ {
        TiiMimeType::Application7Zip
    }     else if l == "wasm"@ {
        TiiMimeType::ApplicationWasm
    }     else if l == "avi"@ {
        TiiMimeType::VideoAvi
    }     else if l == "mpeg"@ {
        TiiMimeType::VideoMpeg
    }     else if l == "ts"@ {
        TiiMimeType::VideoMpegTransportStream
    }     else if l == "3gp"@ {
        TiiMimeType::Video3gpp
    }     else if l == "3g2"@ {
        TiiMimeType::Video3gpp2
    }     else if l == "avif"@ {
        TiiMimeType::ImageAvif
    }     else if l == "apng"@ {
        TiiMimeType::ImageApng
    }     else if l == "tif"@ {
        TiiMimeType::ImageTiff
    }     else if l == "aac"@ {
        TiiMimeType::AudioAac
    }     else if l == "mid"@ {
        TiiMimeType::AudioMidi
    }     else if l == "mp3"@ {
        TiiMimeType::AudioMpeg
    }     else if l == "oga"@ {
        TiiMimeType::AudioOgg
    }     else if l == "wav"@ {
        TiiMimeType::AudioWaveform
    }     else if l == "weba"@ {
        TiiMimeType::AudioWebm
    }     else if l == "csv"@ {
        TiiMimeType::TextCsv
    }     else if l == "cal"@ {
        TiiMimeType::TextCalendar
    }     else if l == "yaml"@ || l == "yml"@ {
        TiiMimeType::ApplicationYaml
    }     else if l == "lua"@ {
        TiiMimeType::TextLua
    }     else if l == "luac"@ {
        TiiMimeType::ApplicationLuaBytecode
    }     else if l == "xz"@ {
        TiiMimeType::ApplicationXz
    } else {
        TiiMimeType::ApplicationOctetStream
    }
}

/// Is `s` a mime type outside the well known ones: exactly one "/", not at either end,
/// and otherwise only characters that are permitted in a mime type?
pub open spec fn is_other_mime_text(s: Seq<char>) -> bool {
    let i = index_of(s, '/');
    &&& s.len() > 0
    &&& s[0] != '/'
    &&& s.last() != '/'
    &&& i >= 0
    &&& index_of(s.skip(i + 1), '/') < 0
    &&& forall|j: int| 0 <= j < s.len() && s[j] != '/' ==> header_char_ok(#[trigger] s[j])
}

/// The mime type that a text names, if it names one.
pub open spec fn mime_type_of(s: Seq<char>) -> Option<TiiMimeType<Seq<char>>> {
    if s == "text/css"@ {
        Some(TiiMimeType::TextCss)
    }     else if s == "text/html"@ {
        Some(TiiMimeType::TextHtml)
    }     else if s == "text/javascript"@ {
        Some(TiiMimeType::TextJavaScript)
    }     else if s == "text/plain"@ {
        Some(TiiMimeType::TextPlain)
    }     else if s == "image/bmp"@ {
        Some(TiiMimeType::ImageBmp)
    }     else if s == "image/gif"@ {
        Some(TiiMimeType::ImageGif)
    }     else if s == "image/jpeg"@ {
        Some(TiiMimeType::ImageJpeg)
    }     else if s == "image/png"@ {
        Some(TiiMimeType::ImagePng)
    }     else if s == "image/webp"@ {
        Some(TiiMimeType::ImageWebp)
    }     else if s == "image/svg+xml"@ {
        Some(TiiMimeType::ImageSvg)
    }     else if s == "image/vnd.microsoft.icon"@ {
        Some(TiiMimeType::ImageIcon)
    }     else if s == "application/octet-stream"@ {
        Some(TiiMimeType::ApplicationOctetStream)
    }     else if s == "application/json"@ {
        Some(TiiMimeType::ApplicationJson)
    }     else if s == "application/pdf"@ {
        Some(TiiMimeType::ApplicationPdf)
    }     else if s == "application/zip"@ {
        Some(TiiMimeType::ApplicationZip)
    }     else if s == "video/mp4"@ {
        Some(TiiMimeType::VideoMp4)
    }     else if s == "video/ogg"@ {
        Some(TiiMimeType::VideoOgg)
    }     else if s == "video/webm"@ {
        Some(TiiMimeType::VideoWebm)
    }     else if s == "font/ttf"@ {
        Some(TiiMimeType::FontTtf)
    }     else if s == "font/otf"@ {
        Some(TiiMimeType::FontOtf)
    }     else if s == "font/woff"@ {
        Some(TiiMimeType::FontWoff)
    }     else if s == "font/woff2"@ {
        Some(TiiMimeType::FontWoff2)
    }     else if s == "application/x-abiword"@ {
        Some(TiiMimeType::ApplicationAbiWord)
    }     else if s == "application/x-freearc"@ {
        Some(TiiMimeType::ApplicationFreeArc)
    }     else if s == "application/vnd.amazon.ebook"@ {
        Some(TiiMimeType::ApplicationAmazonEbook)
    }     else if s == "application/x-bzip"@ {
        Some(TiiMimeType::ApplicationBzip)
    }     else if s == "application/x-bzip2"@ {
        Some(TiiMimeType::ApplicationBzip2)
    }     else if s == "application/x-cdf"@ {
        Some(TiiMimeType::ApplicationCDAudio)
    }     else if s == "application/x-csh"@ {
        Some(TiiMimeType::ApplicationCShell)
    }     else if s == "application/msword"@ {
        Some(TiiMimeType::ApplicationMicrosoftWord)
    }     else if s == "application/vnd.openxmlformats-officedocument.wordprocessingml.document"@ {
        Some(TiiMimeType::ApplicationMicrosoftWordXml)
    }     else if s == "application/vnd.ms-fontobject"@ {
        Some(TiiMimeType::ApplicationMicrosoftFont)
    }     else if s == "application/epub+zip"@ {
        Some(TiiMimeType::ApplicationEpub)
    }     else if s == "application/gzip"@ {
        Some(TiiMimeType::ApplicationGzip)
    }     else if s == "application/java-archive"@ {
        Some(TiiMimeType::ApplicationJar)
    }     else if s == "application/x-java-class"@ {
        Some(TiiMimeType::ApplicationJavaClass)
    }     else if s == "application/ld+json"@ {
        Some(TiiMimeType::ApplicationJsonLd)
    }     else if s == "application/vnd.apple.installer+xml"@ {
        Some(TiiMimeType::ApplicationAppleInstallerPackage)
    }     else if s == "application/vnd.oasis.opendocument.presentation"@ {
        Some(TiiMimeType::ApplicationOpenDocumentPresentation)
    }     else if s == "application/vnd.oasis.opendocument.spreadsheet"@ {
        Some(TiiMimeType::ApplicationOpenDocumentSpreadsheet)
    }     else if s == "application/vnd.oasis.opendocument.text"@ {
        Some(TiiMimeType::ApplicationOpenDocumentText)
    }     else if s == "application/ogg"@ {
        Some(TiiMimeType::ApplicationOgg)
    }     else if s == "application/x-httpd-php"@ {
        Some(TiiMimeType::ApplicationPhp)
    }     else if s == "application/vnd.ms-powerpoint"@ {
        Some(TiiMimeType::ApplicationMicrosoftPowerpoint)
    }     else if s == "application/vnd.openxmlformats-officedocument.presentationml.presentation"@ {
        Some(TiiMimeType::ApplicationMicrosoftPowerpointXml)
    }     else if s == "application/vnd.rar"@ {
        Some(TiiMimeType::ApplicationRar)
    }     else if s == "application/rtf"@ {
        Some(TiiMimeType::ApplicationRichText)
    }     else if s == "application/x-sh"@ {
        Some(TiiMimeType::ApplicationBourneShell)
    }     else if s == "application/x-tar"@ {
        Some(TiiMimeType::ApplicationTapeArchive)
    }     else if s == "application/vnd.visio"@ {
        Some(TiiMimeType::ApplicationMicrosoftVisio)
    }     else if s == "application/xhtml+xml"@ {
        Some(TiiMimeType::ApplicationXHtml)
    }     else if s == "application/vnd.ms-excel"@ {
        Some(TiiMimeType::ApplicationMicrosoftExcel)
    }     else if s == "application/vnd.openxmlformats-officedocument.spreadsheetml.sheet"@ {
        Some(TiiMimeType::ApplicationMicrosoftExcelXml)
    }     else if s == "application/xml"@ {
        Some(TiiMimeType::ApplicationXml)
    }     else if s == "application/vnd.mozilla.xul+xml"@ {
        Some(TiiMimeType::ApplicationXul)
    }     else if s == "application/dicom"@ {
        Some(TiiMimeType::ApplicationDicom)
    }     else if s == "application/x-7z-compressed"@ {
        Some(TiiMimeType::Application7Zip)
    }     else if s == "application/wasm"@ {
        Some(TiiMimeType::ApplicationWasm)
    }     else if s == "video/x-msvideo"@ {
        Some(TiiMimeType::VideoAvi)
    }     else if s == "video/mpeg"@ {
        Some(TiiMimeType::VideoMpeg)
    }     else if s == "video/mp2t"@ {
        Some(TiiMimeType::VideoMpegTransportStream)
    }     else if s == "video/3gpp"@ {
        Some(TiiMimeType::Video3gpp)
    }     else if s == "video/3gpp2"@ {
        Some(TiiMimeType::Video3gpp2)
    }     else if s == "audio/3gpp"@ {
        Some(TiiMimeType::Audio3gpp)
    }     else if s == "audio/3gpp2"@ {
        Some(TiiMimeType::Audio3gpp2)
    }     else if s == "image/avif"@ {
        Some(TiiMimeType::ImageAvif)
    }     else if s == "image/apng"@ {
        Some(TiiMimeType::ImageApng)
    }     else if s == "image/tiff"@ {
        Some(TiiMimeType::ImageTiff)
    }     else if s == "audio/aac"@ {
        Some(TiiMimeType::AudioAac)
    }     else if s == "audio/midi"@ {
        Some(TiiMimeType::AudioMidi)
    }     else if s == "audio/mpeg"@ {
        Some(TiiMimeType::AudioMpeg)
    }     else if s == "audio/ogg"@ {
        Some(TiiMimeType::AudioOgg)
    }     else if s == "audio/wav"@ {
        Some(TiiMimeType::AudioWaveform)
    }     else if s == "audio/webm"@ {
        Some(TiiMimeType::AudioWebm)
    }     else if s == "text/csv"@ {
        Some(TiiMimeType::TextCsv)
    }     else if s == "text/calendar"@ {
        Some(TiiMimeType::TextCalendar)
    }     else if s == "application/yaml"@ {
        Some(TiiMimeType::ApplicationYaml)
    }     else if s == "text/x-lua"@ {
        Some(TiiMimeType::TextLua)
    }     else if s == "application/x-lua-bytecode"@ {
        Some(TiiMimeType::ApplicationLuaBytecode)
    }     else if s == "application/x-xz"@ {
        Some(TiiMimeType::ApplicationXz)
    } else if is_other_mime_text(s) {
        Some(TiiMimeType::Other(mime_group_of(s).unwrap(), s))
    } else {
        None
    }
}

impl TiiMimeType {
    /// The mime type for a file extension; unknown extensions give application/octet-stream.
    pub fn from_extension(extension: &str) -> (r: Self)
        ensures
            r@ == mime_of_extension(extension@),
    {
        let v = chars_of(extension);
        let v = &v;
        if chars_eq_lower_str(v, "css") {
            TiiMimeType::TextCss
        }         else if chars_eq_lower_str(v, "html") {
            TiiMimeType::TextHtml
        }         else if chars_eq_lower_str(v, "htm") {
            TiiMimeType::TextHtml
        }         else if chars_eq_lower_str(v, "js") {
            TiiMimeType::TextJavaScript
        }         else if chars_eq_lower_str(v, "mjs") {
            TiiMimeType::TextJavaScript
        }         else if chars_eq_lower_str(v, "txt") {
            TiiMimeType::TextPlain
        }         else if chars_eq_lower_str(v, "bmp") {
            TiiMimeType::ImageBmp
        }         else if chars_eq_lower_str(v, "gif") {
            TiiMimeType::ImageGif
        }         else if chars_eq_lower_str(v, "jpeg") {
            TiiMimeType::ImageJpeg
        }         else if chars_eq_lower_str(v, "jpg") {
            TiiMimeType::ImageJpeg
        }         else if chars_eq_lower_str(v, "png") {
            TiiMimeType::ImagePng
        }         else if chars_eq_lower_str(v, "webp") {
            TiiMimeType::ImageWebp
        }         else if chars_eq_lower_str(v, "svg") {
            TiiMimeType::ImageSvg
        }         else if chars_eq_lower_str(v, "ico") {
            TiiMimeType::ImageIcon
        }         else if chars_eq_lower_str(v, "json") {
            TiiMimeType::ApplicationJson
        }         else if chars_eq_lower_str(v, "pdf") {
            TiiMimeType::ApplicationPdf
        }         else if chars_eq_lower_str(v, "zip") {
            TiiMimeType::ApplicationZip
        }         else if chars_eq_lower_str(v, "mp4") {
            TiiMimeType::VideoMp4
        }         else if chars_eq_lower_str(v, "ogv") {
            TiiMimeType::VideoOgg
        }         else if chars_eq_lower_str(v, "webm") {
            TiiMimeType::VideoWebm
        }         else if chars_eq_lower_str(v, "ttf") {
            TiiMimeType::FontTtf
        }         else if chars_eq_lower_str(v, "otf") {
            TiiMimeType::FontOtf
        }         else if chars_eq_lower_str(v, "woff") {
            TiiMimeType::FontWoff
        }         else if chars_eq_lower_str(v, "woff2") {
            TiiMimeType::FontWoff2
        }         else if chars_eq_lower_str(v, "abw") {
            TiiMimeType::ApplicationAbiWord
        }         else if chars_eq_lower_str(v, "arc") {
            TiiMimeType::ApplicationFreeArc
        }         else if chars_eq_lower_str(v, "azw") {
            TiiMimeType::ApplicationAmazonEbook
        }         else if chars_eq_lower_str(v, "bz") {
            TiiMimeType::ApplicationBzip
        }         else if chars_eq_lower_str(v, "bz2") {
            TiiMimeType::ApplicationBzip2
        }         else if chars_eq_lower_str(v, "cda") {
            TiiMimeType::ApplicationCDAudio
        }         else if chars_eq_lower_str(v, "csh") {
            TiiMimeType::ApplicationCShell
        }         else if chars_eq_lower_str(v, "doc") {
            TiiMimeType::ApplicationMicrosoftWord
        }         else if chars_eq_lower_str(v, "docx") {
            TiiMimeType::ApplicationMicrosoftWordXml
        }         else if chars_eq_lower_str(v, "eot") {
            TiiMimeType::ApplicationMicrosoftFont
        }         else if chars_eq_lower_str(v, "epub") {
            TiiMimeType::ApplicationEpub
        }         else if chars_eq_lower_str(v, "gz") {
            TiiMimeType::ApplicationGzip
        }         else if chars_eq_lower_str(v, "jar") {
            TiiMimeType::ApplicationJar
        }         else if chars_eq_lower_str(v, "class") {
            TiiMimeType::ApplicationJavaClass
        }         else if chars_eq_lower_str(v, "bin") {
            TiiMimeType::ApplicationOctetStream
        }         else if chars_eq_lower_str(v, "jsonld") {
            TiiMimeType::ApplicationJsonLd
        }         else if chars_eq_lower_str(v, "mpkg") {
            TiiMimeType::ApplicationAppleInstallerPackage
        }         else if chars_eq_lower_str(v, "odp") {
            TiiMimeType::ApplicationOpenDocumentPresentation
        }         else if chars_eq_lower_str(v, "ods") {
            TiiMimeType::ApplicationOpenDocumentSpreadsheet
        }         else if chars_eq_lower_str(v, "odt") {
            TiiMimeType::ApplicationOpenDocumentText
        }         else if chars_eq_lower_str(v, "ogx") {
            TiiMimeType::ApplicationOgg
        }         else if chars_eq_lower_str(v, "php") {
            TiiMimeType::ApplicationPhp
        }         else if chars_eq_lower_str(v, "ppt") {
            TiiMimeType::ApplicationMicrosoftPowerpoint
        }         else if chars_eq_lower_str(v, "pptx") {
            TiiMimeType::ApplicationMicrosoftPowerpointXml
        }         else if chars_eq_lower_str(v, "rar") {
            TiiMimeType::ApplicationRar
        }         else if chars_eq_lower_str(v, "rtf") {
            TiiMimeType::ApplicationRichText
        }         else if chars_eq_lower_str(v, "sh") {
            TiiMimeType::ApplicationBourneShell
        }         else if chars_eq_lower_str(v, "tar") {
            TiiMimeType::ApplicationTapeArchive
        }         else if chars_eq_lower_str(v, "vsd") {
            TiiMimeType::ApplicationMicrosoftVisio
        }         else if chars_eq_lower_str(v, "xhtml") {
            TiiMimeType::ApplicationXHtml
        }         else if chars_eq_lower_str(v, "xls") {
            TiiMimeType::ApplicationMicrosoftExcel
        }         else if chars_eq_lower_str(v, "xlsx") {
            TiiMimeType::ApplicationMicrosoftExcelXml
        }         else if chars_eq_lower_str(v, "xml") {
            TiiMimeType::ApplicationXml
        }         else if chars_eq_lower_str(v, "xul") {
            TiiMimeType::ApplicationXul
        }         else if chars_eq_lower_str(v, "dcm") {
            TiiMimeType::ApplicationDicom
        }         else if chars_eq_lower_str(v, "7z") {
            TiiMimeType::Application7Zip
        }         else if chars_eq_lower_str(v, "wasm") {
            TiiMimeType::ApplicationWasm
        }         else if chars_eq_lower_str(v, "avi") {
            TiiMimeType::VideoAvi
        }         else if chars_eq_lower_str(v, "mpeg") {
            TiiMimeType::VideoMpeg
        }         else if chars_eq_lower_str(v, "ts") {
            TiiMimeType::VideoMpegTransportStream
        }         else if chars_eq_lower_str(v, "3gp") {
            TiiMimeType::Video3gpp
        }         else if chars_eq_lower_str(v, "3g2") {
            TiiMimeType::Video3gpp2
        }         else if chars_eq_lower_str(v, "avif") {
            TiiMimeType::ImageAvif
        }         else if chars_eq_lower_str(v, "apng") {
            TiiMimeType::ImageApng
        }         else if chars_eq_lower_str(v, "tif") {
            TiiMimeType::ImageTiff
        }         else if chars_eq_lower_str(v, "aac") {
            TiiMimeType::AudioAac
        }         else if chars_eq_lower_str(v, "mid") {
            TiiMimeType::AudioMidi
        }         else if chars_eq_lower_str(v, "mp3") {
            TiiMimeType::AudioMpeg
        }         else if chars_eq_lower_str(v, "oga") {
            TiiMimeType::AudioOgg
        }         else if chars_eq_lower_str(v, "wav") {
            TiiMimeType::AudioWaveform
        }         else if chars_eq_lower_str(v, "weba") {
            TiiMimeType::AudioWebm
        }         else if chars_eq_lower_str(v, "csv") {
            TiiMimeType::TextCsv
        }         else if chars_eq_lower_str(v, "cal") {
            TiiMimeType::TextCalendar
        }         else if chars_eq_lower_str(v, "yaml") || chars_eq_lower_str(v, "yml") {
            TiiMimeType::ApplicationYaml
        }         else if chars_eq_lower_str(v, "lua") {
            TiiMimeType::TextLua
        }         else if chars_eq_lower_str(v, "luac") {
            TiiMimeType::ApplicationLuaBytecode
        }         else if chars_eq_lower_str(v, "xz") {
            TiiMimeType::ApplicationXz
        } else {
            TiiMimeType::ApplicationOctetStream
        }
    }

    /// The file extension that is most likely correct for this mime type; "bin" when unclear.
    pub fn extension(&self) -> (r: &'static str)
        ensures
            r@ == mime_extension(self@),
    {
        match self {
            TiiMimeType::FontTtf => "ttf",
            TiiMimeType::FontOtf => "otf",
            TiiMimeType::FontWoff => "woff",
            TiiMimeType::FontWoff2 => "woff2",
            TiiMimeType::ApplicationAbiWord => "abw",
            TiiMimeType::ApplicationFreeArc => "arc",
            TiiMimeType::ApplicationAmazonEbook => "azw",
            TiiMimeType::ApplicationBzip => "bz",
            TiiMimeType::ApplicationBzip2 => "bz2",
            TiiMimeType::ApplicationCDAudio => "cda",
            TiiMimeType::ApplicationCShell => "csh",
            TiiMimeType::ApplicationMicrosoftWord => "doc",
            TiiMimeType::ApplicationMicrosoftWordXml => "docx",
            TiiMimeType::ApplicationMicrosoftFont => "eot",
            TiiMimeType::ApplicationEpub => "epub",
            TiiMimeType::ApplicationGzip => "gz",
            TiiMimeType::ApplicationJar => "jar",
            TiiMimeType::ApplicationJavaClass => "class",
            TiiMimeType::ApplicationOctetStream => "bin",
            TiiMimeType::ApplicationJson => "json",
            TiiMimeType::ApplicationJsonLd => "jsonld",
            TiiMimeType::ApplicationPdf => "pdf",
            TiiMimeType::ApplicationZip => "zip",
            TiiMimeType::ApplicationAppleInstallerPackage => "mpkg",
            TiiMimeType::ApplicationOpenDocumentPresentation => "odp",
            TiiMimeType::ApplicationOpenDocumentSpreadsheet => "ods",
            TiiMimeType::ApplicationOpenDocumentText => "odt",
            TiiMimeType::ApplicationOgg => "ogx",
            TiiMimeType::ApplicationPhp => "php",
            TiiMimeType::ApplicationMicrosoftPowerpoint => "ppt",
            TiiMimeType::ApplicationMicrosoftPowerpointXml => "pptx",
            TiiMimeType::ApplicationRar => "rar",
            TiiMimeType::ApplicationRichText => "rtf",
            TiiMimeType::ApplicationBourneShell => "sh",
            TiiMimeType::ApplicationTapeArchive => "tar",
            TiiMimeType::ApplicationMicrosoftVisio => "vsd",
            TiiMimeType::ApplicationXHtml => "xhtml",
            TiiMimeType::ApplicationMicrosoftExcel => "xls",
            TiiMimeType::ApplicationMicrosoftExcelXml => "xlsx",
            TiiMimeType::ApplicationXml => "xml",
            TiiMimeType::ApplicationXul => "xul",
            TiiMimeType::ApplicationDicom => "dcm",
            TiiMimeType::Application7Zip => "7z",
            TiiMimeType::ApplicationWasm => "wasm",
            TiiMimeType::VideoMp4 => "mp4",
            TiiMimeType::VideoOgg => "ogv",
            TiiMimeType::VideoWebm => "webm",
            TiiMimeType::VideoAvi => "avi",
            TiiMimeType::VideoMpeg => "mpeg",
            TiiMimeType::VideoMpegTransportStream => "ts",
            TiiMimeType::Video3gpp => "3gp",
            TiiMimeType::Video3gpp2 => "3g2",
            TiiMimeType::ImageBmp => "bmp",
            TiiMimeType::ImageGif => "gif",
            TiiMimeType::ImageJpeg => "jpg",
            TiiMimeType::ImageAvif => "avif",
            TiiMimeType::ImagePng => "png",
            TiiMimeType::ImageApng => "apng",
            TiiMimeType::ImageWebp => "webp",
            TiiMimeType::ImageSvg => "svg",
            TiiMimeType::ImageIcon => "ico",
            TiiMimeType::ImageTiff => "tif",
            TiiMimeType::AudioAac => "aac",
            TiiMimeType::AudioMidi => "mid",
            TiiMimeType::AudioMpeg => "mp3",
            TiiMimeType::AudioOgg => "oga",
            TiiMimeType::AudioWaveform => "wav",
            TiiMimeType::AudioWebm => "weba",
            TiiMimeType::Audio3gpp => "3gp",
            TiiMimeType::Audio3gpp2 => "3g2",
            TiiMimeType::TextCss => "css",
            TiiMimeType::TextHtml => "html",
            TiiMimeType::TextJavaScript => "js",
            TiiMimeType::TextPlain => "txt",
            TiiMimeType::TextCsv => "csv",
            TiiMimeType::TextCalendar => "cal",
            TiiMimeType::ApplicationYaml => "yaml",
            TiiMimeType::TextLua => "lua",
            TiiMimeType::ApplicationLuaBytecode => "luac",
            TiiMimeType::ApplicationXz => "xz",
            TiiMimeType::Other(_, _) => "bin",
        }
    }

    /// The mime group of this mime type.
    pub fn mime_group(&self) -> (r: &TiiMimeGroup)
        ensures
            r@ == mime_group_spec(self@),
    {
        match self {
            TiiMimeType::FontTtf => &TiiMimeGroup::Font,
            TiiMimeType::FontOtf => &TiiMimeGroup::Font,
            TiiMimeType::FontWoff => &TiiMimeGroup::Font,
            TiiMimeType::FontWoff2 => &TiiMimeGroup::Font,
            TiiMimeType::ApplicationAbiWord => &TiiMimeGroup::Application,
            TiiMimeType::ApplicationFreeArc => &TiiMimeGroup::Application,
            TiiMimeType::ApplicationAmazonEbook => &TiiMimeGroup::Application,
            TiiMimeType::ApplicationBzip => &TiiMimeGroup::Application,
            TiiMimeType::ApplicationBzip2 => &TiiMimeGroup::Application,
            TiiMimeType::ApplicationCDAudio => &TiiMimeGroup::Application,
            TiiMimeType::ApplicationCShell => &TiiMimeGroup::Application,
            TiiMimeType::ApplicationMicrosoftWord => &TiiMimeGroup::Application,
            TiiMimeType::ApplicationMicrosoftWordXml => &TiiMimeGroup::Application,
            TiiMimeType::ApplicationMicrosoftFont => &TiiMimeGroup::Application,
            TiiMimeType::ApplicationEpub => &TiiMimeGroup::Application,
            TiiMimeType::ApplicationGzip => &TiiMimeGroup::Application,
            TiiMimeType::ApplicationJar => &TiiMimeGroup::Application,
            TiiMimeType::ApplicationJavaClass => &TiiMimeGroup::Application,
            TiiMimeType::ApplicationOctetStream => &TiiMimeGroup::Application,
            TiiMimeType::ApplicationJson => &TiiMimeGroup::Application,
            TiiMimeType::ApplicationJsonLd => &TiiMimeGroup::Application,
            TiiMimeType::ApplicationYaml => &TiiMimeGroup::Application,
            TiiMimeType::ApplicationLuaBytecode => &TiiMimeGroup::Application,
            TiiMimeType::ApplicationPdf => &TiiMimeGroup::Application,
            TiiMimeType::ApplicationZip => &TiiMimeGroup::Application,
            TiiMimeType::ApplicationAppleInstallerPackage => &TiiMimeGroup::Application,
            TiiMimeType::ApplicationOpenDocumentPresentation => &TiiMimeGroup::Application,
            TiiMimeType::ApplicationOpenDocumentSpreadsheet => &TiiMimeGroup::Application,
            TiiMimeType::ApplicationOpenDocumentText => &TiiMimeGroup::Application,
            TiiMimeType::ApplicationOgg => &TiiMimeGroup::Application,
            TiiMimeType::ApplicationPhp => &TiiMimeGroup::Application,
            TiiMimeType::ApplicationMicrosoftPowerpoint => &TiiMimeGroup::Application,
            TiiMimeType::ApplicationMicrosoftPowerpointXml => &TiiMimeGroup::Application,
            TiiMimeType::ApplicationRar => &TiiMimeGroup::Application,
            TiiMimeType::ApplicationRichText => &TiiMimeGroup::Application,
            TiiMimeType::ApplicationBourneShell => &TiiMimeGroup::Application,
            TiiMimeType::ApplicationTapeArchive => &TiiMimeGroup::Application,
            TiiMimeType::ApplicationMicrosoftVisio => &TiiMimeGroup::Application,
            TiiMimeType::ApplicationXHtml => &TiiMimeGroup::Application,
            TiiMimeType::ApplicationMicrosoftExcel => &TiiMimeGroup::Application,
            TiiMimeType::ApplicationMicrosoftExcelXml => &TiiMimeGroup::Application,
            TiiMimeType::ApplicationXml => &TiiMimeGroup::Application,
            TiiMimeType::ApplicationXul => &TiiMimeGroup::Application,
            TiiMimeType::ApplicationDicom => &TiiMimeGroup::Application,
            TiiMimeType::Application7Zip => &TiiMimeGroup::Application,
            TiiMimeType::ApplicationXz => &TiiMimeGroup::Application,
            TiiMimeType::ApplicationWasm => &TiiMimeGroup::Application,
            TiiMimeType::VideoMp4 => &TiiMimeGroup::Video,
            TiiMimeType::VideoOgg => &TiiMimeGroup::Video,
            TiiMimeType::VideoWebm => &TiiMimeGroup::Video,
            TiiMimeType::VideoAvi => &TiiMimeGroup::Video,
            TiiMimeType::VideoMpeg => &TiiMimeGroup::Video,
            TiiMimeType::VideoMpegTransportStream => &TiiMimeGroup::Video,
            TiiMimeType::Video3gpp => &TiiMimeGroup::Video,
            TiiMimeType::Video3gpp2 => &TiiMimeGroup::Video,
            TiiMimeType::ImageBmp => &TiiMimeGroup::Image,
            TiiMimeType::ImageGif => &TiiMimeGroup::Image,
            TiiMimeType::ImageJpeg => &TiiMimeGroup::Image,
            TiiMimeType::ImageAvif => &TiiMimeGroup::Image,
            TiiMimeType::ImagePng => &TiiMimeGroup::Image,
            TiiMimeType::ImageApng => &TiiMimeGroup::Image,
            TiiMimeType::ImageWebp => &TiiMimeGroup::Image,
            TiiMimeType::ImageSvg => &TiiMimeGroup::Image,
            TiiMimeType::ImageIcon => &TiiMimeGroup::Image,
            TiiMimeType::ImageTiff => &TiiMimeGroup::Image,
            TiiMimeType::AudioAac => &TiiMimeGroup::Audio,
            TiiMimeType::AudioMidi => &TiiMimeGroup::Audio,
            TiiMimeType::AudioMpeg => &TiiMimeGroup::Audio,
            TiiMimeType::AudioOgg => &TiiMimeGroup::Audio,
            TiiMimeType::AudioWaveform => &TiiMimeGroup::Audio,
            TiiMimeType::AudioWebm => &TiiMimeGroup::Audio,
            TiiMimeType::Audio3gpp => &TiiMimeGroup::Audio,
            TiiMimeType::Audio3gpp2 => &TiiMimeGroup::Audio,
            TiiMimeType::TextCss => &TiiMimeGroup::Text,
            TiiMimeType::TextHtml => &TiiMimeGroup::Text,
            TiiMimeType::TextJavaScript => &TiiMimeGroup::Text,
            TiiMimeType::TextLua => &TiiMimeGroup::Text,
            TiiMimeType::TextPlain => &TiiMimeGroup::Text,
            TiiMimeType::TextCsv => &TiiMimeGroup::Text,
            TiiMimeType::TextCalendar => &TiiMimeGroup::Text,
            TiiMimeType::Other(group, _) => group,
        }
    }

    /// Does this mime type have an extension that no other well known mime type shares?
    pub fn has_unique_known_extension(&self) -> (r: bool)
        ensures
            r == !(self is Video3gpp2 || self is Audio3gpp2 || self is Video3gpp || self is Audio3gpp
                || self is Other),
    {
        match self {
            TiiMimeType::Video3gpp2 | TiiMimeType::Audio3gpp2 => false,
            TiiMimeType::Video3gpp | TiiMimeType::Audio3gpp => false,
            TiiMimeType::Other(_, _) => false,
            _ => true,
        }
    }

    /// All well known mime types.
    pub fn well_known() -> (r: Vec<TiiMimeType>)
        ensures
            r@.len() == 80,
            forall|i: int| 0 <= i < r@.len() ==> !(#[trigger] r@[i] is Other),
    {
        let r = vec![
            TiiMimeType::FontTtf,
            TiiMimeType::FontOtf,
            TiiMimeType::FontWoff,
            TiiMimeType::FontWoff2,
            TiiMimeType::ApplicationAbiWord,
            TiiMimeType::ApplicationFreeArc,
            TiiMimeType::ApplicationAmazonEbook,
            TiiMimeType::ApplicationBzip,
            TiiMimeType::ApplicationBzip2,
            TiiMimeType::ApplicationCDAudio,
            TiiMimeType::ApplicationCShell,
            TiiMimeType::ApplicationMicrosoftWord,
            TiiMimeType::ApplicationMicrosoftWordXml,
            TiiMimeType::ApplicationMicrosoftFont,
            TiiMimeType::ApplicationEpub,
            TiiMimeType::ApplicationGzip,
            TiiMimeType::ApplicationJar,
            TiiMimeType::ApplicationJavaClass,
            TiiMimeType::ApplicationOctetStream,
            TiiMimeType::ApplicationJson,
            TiiMimeType::ApplicationJsonLd,
            TiiMimeType::ApplicationPdf,
            TiiMimeType::ApplicationZip,
            TiiMimeType::ApplicationAppleInstallerPackage,
            TiiMimeType::ApplicationOpenDocumentPresentation,
            TiiMimeType::ApplicationOpenDocumentSpreadsheet,
            TiiMimeType::ApplicationOpenDocumentText,
            TiiMimeType::ApplicationOgg,
            TiiMimeType::ApplicationPhp,
            TiiMimeType::ApplicationMicrosoftPowerpoint,
            TiiMimeType::ApplicationMicrosoftPowerpointXml,
            TiiMimeType::ApplicationRar,
            TiiMimeType::ApplicationRichText,
            TiiMimeType::ApplicationBourneShell,
            TiiMimeType::ApplicationTapeArchive,
            TiiMimeType::ApplicationMicrosoftVisio,
            TiiMimeType::ApplicationXHtml,
            TiiMimeType::ApplicationMicrosoftExcel,
            TiiMimeType::ApplicationMicrosoftExcelXml,
            TiiMimeType::ApplicationXml,
            TiiMimeType::ApplicationXul,
            TiiMimeType::ApplicationDicom,
            TiiMimeType::Application7Zip,
            TiiMimeType::ApplicationWasm,
            TiiMimeType::VideoMp4,
            TiiMimeType::VideoOgg,
            TiiMimeType::VideoWebm,
            TiiMimeType::VideoAvi,
            TiiMimeType::VideoMpeg,
            TiiMimeType::VideoMpegTransportStream,
            TiiMimeType::Video3gpp,
            TiiMimeType::Video3gpp2,
            TiiMimeType::ImageBmp,
            TiiMimeType::ImageGif,
            TiiMimeType::ImageJpeg,
            TiiMimeType::ImageAvif,
            TiiMimeType::ImagePng,
            TiiMimeType::ImageApng,
            TiiMimeType::ImageWebp,
            TiiMimeType::ImageSvg,
            TiiMimeType::ImageIcon,
            TiiMimeType::ImageTiff,
            TiiMimeType::AudioAac,
            TiiMimeType::AudioMidi,
            TiiMimeType::AudioMpeg,
            TiiMimeType::AudioOgg,
            TiiMimeType::AudioWaveform,
            TiiMimeType::AudioWebm,
            TiiMimeType::Audio3gpp,
            TiiMimeType::Audio3gpp2,
            TiiMimeType::TextCss,
            TiiMimeType::TextHtml,
            TiiMimeType::TextJavaScript,
            TiiMimeType::TextPlain,
            TiiMimeType::TextCsv,
            TiiMimeType::TextCalendar,
            TiiMimeType::ApplicationYaml,
            TiiMimeType::TextLua,
            TiiMimeType::ApplicationLuaBytecode,
            TiiMimeType::ApplicationXz,
        ];
        r
    }

    /// Returns true if this is a well known mime type.
    pub fn is_well_known(&self) -> (r: bool)
        ensures
            r == !(self is Other),
    {
        !matches!(self, TiiMimeType::Other(_, _))
    }

    /// Returns true if this is a custom mime type.
    pub fn is_custom(&self) -> (r: bool)
        ensures
            r == self is Other,
    {
        matches!(self, TiiMimeType::Other(_, _))
    }

    /// The static text of a well known mime type; None for custom types.
    pub fn well_known_str(&self) -> (r: Option<&'static str>)
        ensures
            r is None <==> self is Other,
            r matches Some(t) ==> t@ == mime_text(self@),
    {
        match self {
            TiiMimeType::TextCss => Some("text/css"),
            TiiMimeType::TextHtml => Some("text/html"),
            TiiMimeType::TextJavaScript => Some("text/javascript"),
            TiiMimeType::TextPlain => Some("text/plain"),
            TiiMimeType::ImageBmp => Some("image/bmp"),
            TiiMimeType::ImageGif => Some("image/gif"),
            TiiMimeType::ImageJpeg => Some("image/jpeg"),
            TiiMimeType::ImagePng => Some("image/png"),
            TiiMimeType::ImageWebp => Some("image/webp"),
            TiiMimeType::ImageSvg => Some("image/svg+xml"),
            TiiMimeType::ImageIcon => Some("image/vnd.microsoft.icon"),
            TiiMimeType::ApplicationOctetStream => Some("application/octet-stream"),
            TiiMimeType::ApplicationJson => Some("application/json"),
            TiiMimeType::ApplicationPdf => Some("application/pdf"),
            TiiMimeType::ApplicationZip => Some("application/zip"),
            TiiMimeType::VideoMp4 => Some("video/mp4"),
            TiiMimeType::VideoOgg => Some("video/ogg"),
            TiiMimeType::VideoWebm => Some("video/webm"),
            TiiMimeType::FontTtf => Some("font/ttf"),
            TiiMimeType::FontOtf => Some("font/otf"),
            TiiMimeType::FontWoff => Some("font/woff"),
            TiiMimeType::FontWoff2 => Some("font/woff2"),
            TiiMimeType::ApplicationAbiWord => Some("application/x-abiword"),
            TiiMimeType::ApplicationFreeArc => Some("application/x-freearc"),
            TiiMimeType::ApplicationAmazonEbook => Some("application/vnd.amazon.ebook"),
            TiiMimeType::ApplicationBzip => Some("application/x-bzip"),
            TiiMimeType::ApplicationBzip2 => Some("application/x-bzip2"),
            TiiMimeType::ApplicationCDAudio => Some("application/x-cdf"),
            TiiMimeType::ApplicationCShell => Some("application/x-csh"),
            TiiMimeType::ApplicationMicrosoftWord => Some("application/msword"),
            TiiMimeType::ApplicationMicrosoftWordXml => Some("application/vnd.openxmlformats-officedocument.wordprocessingml.document"),
            TiiMimeType::ApplicationMicrosoftFont => Some("application/vnd.ms-fontobject"),
            TiiMimeType::ApplicationEpub => Some("application/epub+zip"),
            TiiMimeType::ApplicationGzip => Some("application/gzip"),
            TiiMimeType::ApplicationJar => Some("application/java-archive"),
            TiiMimeType::ApplicationJavaClass => Some("application/x-java-class"),
            TiiMimeType::ApplicationJsonLd => Some("application/ld+json"),
            TiiMimeType::ApplicationAppleInstallerPackage => Some("application/vnd.apple.installer+xml"),
            TiiMimeType::ApplicationOpenDocumentPresentation => Some("application/vnd.oasis.opendocument.presentation"),
            TiiMimeType::ApplicationOpenDocumentSpreadsheet => Some("application/vnd.oasis.opendocument.spreadsheet"),
            TiiMimeType::ApplicationOpenDocumentText => Some("application/vnd.oasis.opendocument.text"),
            TiiMimeType::ApplicationOgg => Some("application/ogg"),
            TiiMimeType::ApplicationPhp => Some("application/x-httpd-php"),
            TiiMimeType::ApplicationMicrosoftPowerpoint => Some("application/vnd.ms-powerpoint"),
            TiiMimeType::ApplicationMicrosoftPowerpointXml => Some("application/vnd.openxmlformats-officedocument.presentationml.presentation"),
            TiiMimeType::ApplicationRar => Some("application/vnd.rar"),
            TiiMimeType::ApplicationRichText => Some("application/rtf"),
            TiiMimeType::ApplicationBourneShell => Some("application/x-sh"),
            TiiMimeType::ApplicationTapeArchive => Some("application/x-tar"),
            TiiMimeType::ApplicationMicrosoftVisio => Some("application/vnd.visio"),
            TiiMimeType::ApplicationXHtml => Some("application/xhtml+xml"),
            TiiMimeType::ApplicationMicrosoftExcel => Some("application/vnd.ms-excel"),
            TiiMimeType::ApplicationMicrosoftExcelXml => Some("application/vnd.openxmlformats-officedocument.spreadsheetml.sheet"),
            TiiMimeType::ApplicationXml => Some("application/xml"),
            TiiMimeType::ApplicationXul => Some("application/vnd.mozilla.xul+xml"),
            TiiMimeType::ApplicationDicom => Some("application/dicom"),
            TiiMimeType::Application7Zip => Some("application/x-7z-compressed"),
            TiiMimeType::ApplicationWasm => Some("application/wasm"),
            TiiMimeType::VideoAvi => Some("video/x-msvideo"),
            TiiMimeType::VideoMpeg => Some("video/mpeg"),
            TiiMimeType::VideoMpegTransportStream => Some("video/mp2t"),
            TiiMimeType::Video3gpp => Some("video/3gpp"),
            TiiMimeType::Video3gpp2 => Some("video/3gpp2"),
            TiiMimeType::ImageAvif => Some("image/avif"),
            TiiMimeType::ImageApng => Some("image/apng"),
            TiiMimeType::ImageTiff => Some("image/tiff"),
            TiiMimeType::AudioAac => Some("audio/aac"),
            TiiMimeType::AudioMidi => Some("audio/midi"),
            TiiMimeType::AudioMpeg => Some("audio/mpeg"),
            TiiMimeType::AudioOgg => Some("audio/ogg"),
            TiiMimeType::AudioWaveform => Some("audio/wav"),
            TiiMimeType::AudioWebm => Some("audio/webm"),
            TiiMimeType::Audio3gpp => Some("audio/3gpp"),
            TiiMimeType::Audio3gpp2 => Some("audio/3gpp2"),
            TiiMimeType::TextCsv => Some("text/csv"),
            TiiMimeType::TextCalendar => Some("text/calendar"),
            TiiMimeType::ApplicationYaml => Some("application/yaml"),
            TiiMimeType::TextLua => Some("text/x-lua"),
            TiiMimeType::ApplicationLuaBytecode => Some("application/x-lua-bytecode"),
            TiiMimeType::ApplicationXz => Some("application/x-xz"),
            TiiMimeType::Other(_, _) => None,
        }
    }

    /// The text of this mime type.
    pub fn as_str(&self) -> (r: &str)
        ensures
            r@ == mime_text(self@),
    {
        match self {
            TiiMimeType::TextCss => "text/css",
            TiiMimeType::TextHtml => "text/html",
            TiiMimeType::TextJavaScript => "text/javascript",
            TiiMimeType::TextPlain => "text/plain",
            TiiMimeType::ImageBmp => "image/bmp",
            TiiMimeType::ImageGif => "image/gif",
            TiiMimeType::ImageJpeg => "image/jpeg",
            TiiMimeType::ImagePng => "image/png",
            TiiMimeType::ImageWebp => "image/webp",
            TiiMimeType::ImageSvg => "image/svg+xml",
            TiiMimeType::ImageIcon => "image/vnd.microsoft.icon",
            TiiMimeType::ApplicationOctetStream => "application/octet-stream",
            TiiMimeType::ApplicationJson => "application/json",
            TiiMimeType::ApplicationPdf => "application/pdf",
            TiiMimeType::ApplicationZip => "application/zip",
            TiiMimeType::VideoMp4 => "video/mp4",
            TiiMimeType::VideoOgg => "video/ogg",
            TiiMimeType::VideoWebm => "video/webm",
            TiiMimeType::FontTtf => "font/ttf",
            TiiMimeType::FontOtf => "font/otf",
            TiiMimeType::FontWoff => "font/woff",
            TiiMimeType::FontWoff2 => "font/woff2",
            TiiMimeType::ApplicationAbiWord => "application/x-abiword",
            TiiMimeType::ApplicationFreeArc => "application/x-freearc",
            TiiMimeType::ApplicationAmazonEbook => "application/vnd.amazon.ebook",
            TiiMimeType::ApplicationBzip => "application/x-bzip",
            TiiMimeType::ApplicationBzip2 => "application/x-bzip2",
            TiiMimeType::ApplicationCDAudio => "application/x-cdf",
            TiiMimeType::ApplicationCShell => "application/x-csh",
            TiiMimeType::ApplicationMicrosoftWord => "application/msword",
            TiiMimeType::ApplicationMicrosoftWordXml => "application/vnd.openxmlformats-officedocument.wordprocessingml.document",
            TiiMimeType::ApplicationMicrosoftFont => "application/vnd.ms-fontobject",
            TiiMimeType::ApplicationEpub => "application/epub+zip",
            TiiMimeType::ApplicationGzip => "application/gzip",
            TiiMimeType::ApplicationJar => "application/java-archive",
            TiiMimeType::ApplicationJavaClass => "application/x-java-class",
            TiiMimeType::ApplicationJsonLd => "application/ld+json",
            TiiMimeType::ApplicationAppleInstallerPackage => "application/vnd.apple.installer+xml",
            TiiMimeType::ApplicationOpenDocumentPresentation => "application/vnd.oasis.opendocument.presentation",
            TiiMimeType::ApplicationOpenDocumentSpreadsheet => "application/vnd.oasis.opendocument.spreadsheet",
            TiiMimeType::ApplicationOpenDocumentText => "application/vnd.oasis.opendocument.text",
            TiiMimeType::ApplicationOgg => "application/ogg",
            TiiMimeType::ApplicationPhp => "application/x-httpd-php",
            TiiMimeType::ApplicationMicrosoftPowerpoint => "application/vnd.ms-powerpoint",
            TiiMimeType::ApplicationMicrosoftPowerpointXml => "application/vnd.openxmlformats-officedocument.presentationml.presentation",
            TiiMimeType::ApplicationRar => "application/vnd.rar",
            TiiMimeType::ApplicationRichText => "application/rtf",
            TiiMimeType::ApplicationBourneShell => "application/x-sh",
            TiiMimeType::ApplicationTapeArchive => "application/x-tar",
            TiiMimeType::ApplicationMicrosoftVisio => "application/vnd.visio",
            TiiMimeType::ApplicationXHtml => "application/xhtml+xml",
            TiiMimeType::ApplicationMicrosoftExcel => "application/vnd.ms-excel",
            TiiMimeType::ApplicationMicrosoftExcelXml => "application/vnd.openxmlformats-officedocument.spreadsheetml.sheet",
            TiiMimeType::ApplicationXml => "application/xml",
            TiiMimeType::ApplicationXul => "application/vnd.mozilla.xul+xml",
            TiiMimeType::ApplicationDicom => "application/dicom",
            TiiMimeType::Application7Zip => "application/x-7z-compressed",
            TiiMimeType::ApplicationWasm => "application/wasm",
            TiiMimeType::VideoAvi => "video/x-msvideo",
            TiiMimeType::VideoMpeg => "video/mpeg",
            TiiMimeType::VideoMpegTransportStream => "video/mp2t",
            TiiMimeType::Video3gpp => "video/3gpp",
            TiiMimeType::Video3gpp2 => "video/3gpp2",
            TiiMimeType::ImageAvif => "image/avif",
            TiiMimeType::ImageApng => "image/apng",
            TiiMimeType::ImageTiff => "image/tiff",
            TiiMimeType::AudioAac => "audio/aac",
            TiiMimeType::AudioMidi => "audio/midi",
            TiiMimeType::AudioMpeg => "audio/mpeg",
            TiiMimeType::AudioOgg => "audio/ogg",
            TiiMimeType::AudioWaveform => "audio/wav",
            TiiMimeType::AudioWebm => "audio/webm",
            TiiMimeType::Audio3gpp => "audio/3gpp",
            TiiMimeType::Audio3gpp2 => "audio/3gpp2",
            TiiMimeType::TextCsv => "text/csv",
            TiiMimeType::TextCalendar => "text/calendar",
            TiiMimeType::ApplicationYaml => "application/yaml",
            TiiMimeType::TextLua => "text/x-lua",
            TiiMimeType::ApplicationLuaBytecode => "application/x-lua-bytecode",
            TiiMimeType::ApplicationXz => "application/x-xz",
            TiiMimeType::Other(_, data) => data.as_str(),
        }
    }

    /// Parses the mime type of a Content-Type header value, ignoring what follows the first ";".
    pub fn parse_from_content_type_header(value: &str) -> (r: Option<Self>)
        ensures
            r matches Some(m) ==> mime_type_of(split_seq(value@, ';')[0]) == Some(m@),
            r is None ==> mime_type_of(split_seq(value@, ';')[0]) is None,
    {
        let v = chars_of(value);
        let end = match find_char(&v, ';', 0) {
            Some(i) => i,
            None => v.len(),
        };
        proof {
            assert(v@.skip(0) =~= v@);
            lemma_index_of_bounds(v@, ';');
            if end < v@.len() {
                assert(v@.take(end as int) =~= v@.subrange(0, end as int));
            } else {
                assert(v@ =~= v@.subrange(0, end as int));
            }
        }
        let head = sub_chars(&v, 0, end);
        Self::parse_chars(&head)
    }

    /// Parses a mime type; None for invalid mime types.
    pub fn parse(value: &str) -> (r: Option<Self>)
        ensures
            r matches Some(m) ==> mime_type_of(value@) == Some(m@),
            r is None ==> mime_type_of(value@) is None,
    {
        let v = chars_of(value);
        Self::parse_chars(&v)
    }

    /// Parses a mime type from the characters of `v`.
    pub fn parse_chars(v: &Vec<char>) -> (r: Option<Self>)
        ensures
            r matches Some(m) ==> mime_type_of(v@) == Some(m@),
            r is None ==> mime_type_of(v@) is None,
    {
        if chars_eq_str(v, "text/css") {
            Some(TiiMimeType::TextCss)
        }         else if chars_eq_str(v, "text/html") {
            Some(TiiMimeType::TextHtml)
        }         else if chars_eq_str(v, "text/javascript") {
            Some(TiiMimeType::TextJavaScript)
        }         else if chars_eq_str(v, "text/plain") {
            Some(TiiMimeType::TextPlain)
        }         else if chars_eq_str(v, "image/bmp") {
            Some(TiiMimeType::ImageBmp)
        }         else if chars_eq_str(v, "image/gif") {
            Some(TiiMimeType::ImageGif)
        }         else if chars_eq_str(v, "image/jpeg") {
            Some(TiiMimeType::ImageJpeg)
        }         else if chars_eq_str(v, "image/png") {
            Some(TiiMimeType::ImagePng)
        }         else if chars_eq_str(v, "image/webp") {
            Some(TiiMimeType::ImageWebp)
        }         else if chars_eq_str(v, "image/svg+xml") {
            Some(TiiMimeType::ImageSvg)
        }         else if chars_eq_str(v, "image/vnd.microsoft.icon") {
            Some(TiiMimeType::ImageIcon)
        }         else if chars_eq_str(v, "application/octet-stream") {
            Some(TiiMimeType::ApplicationOctetStream)
        }         else if chars_eq_str(v, "application/json") {
            Some(TiiMimeType::ApplicationJson)
        }         else if chars_eq_str(v, "application/pdf") {
            Some(TiiMimeType::ApplicationPdf)
        }         else if chars_eq_str(v, "application/zip") {
            Some(TiiMimeType::ApplicationZip)
        }         else if chars_eq_str(v, "video/mp4") {
            Some(TiiMimeType::VideoMp4)
        }         else if chars_eq_str(v, "video/ogg") {
            Some(TiiMimeType::VideoOgg)
        }         else if chars_eq_str(v, "video/webm") {
            Some(TiiMimeType::VideoWebm)
        }         else if chars_eq_str(v, "font/ttf") {
            Some(TiiMimeType::FontTtf)
        }         else if chars_eq_str(v, "font/otf") {
            Some(TiiMimeType::FontOtf)
        }         else if chars_eq_str(v, "font/woff") {
            Some(TiiMimeType::FontWoff)
        }         else if chars_eq_str(v, "font/woff2") {
            Some(TiiMimeType::FontWoff2)
        }         else if chars_eq_str(v, "application/x-abiword") {
            Some(TiiMimeType::ApplicationAbiWord)
        }         else if chars_eq_str(v, "application/x-freearc") {
            Some(TiiMimeType::ApplicationFreeArc)
        }         else if chars_eq_str(v, "application/vnd.amazon.ebook") {
            Some(TiiMimeType::ApplicationAmazonEbook)
        }         else if chars_eq_str(v, "application/x-bzip") {
            Some(TiiMimeType::ApplicationBzip)
        }         else if chars_eq_str(v, "application/x-bzip2") {
            Some(TiiMimeType::ApplicationBzip2)
        }         else if chars_eq_str(v, "application/x-cdf") {
            Some(TiiMimeType::ApplicationCDAudio)
        }         else if chars_eq_str(v, "application/x-csh") {
            Some(TiiMimeType::ApplicationCShell)
        }         else if chars_eq_str(v, "application/msword") {
            Some(TiiMimeType::ApplicationMicrosoftWord)
        }         else if chars_eq_str(v, "application/vnd.openxmlformats-officedocument.wordprocessingml.document") {
            Some(TiiMimeType::ApplicationMicrosoftWordXml)
        }         else if chars_eq_str(v, "application/vnd.ms-fontobject") {
            Some(TiiMimeType::ApplicationMicrosoftFont)
        }         else if chars_eq_str(v, "application/epub+zip") {
            Some(TiiMimeType::ApplicationEpub)
        }         else if chars_eq_str(v, "application/gzip") {
            Some(TiiMimeType::ApplicationGzip)
        }         else if chars_eq_str(v, "application/java-archive") {
            Some(TiiMimeType::ApplicationJar)
        }         else if chars_eq_str(v, "application/x-java-class") {
            Some(TiiMimeType::ApplicationJavaClass)
        }         else if chars_eq_str(v, "application/ld+json") {
            Some(TiiMimeType::ApplicationJsonLd)
        }         else if chars_eq_str(v, "application/vnd.apple.installer+xml") {
            Some(TiiMimeType::ApplicationAppleInstallerPackage)
        }         else if chars_eq_str(v, "application/vnd.oasis.opendocument.presentation") {
            Some(TiiMimeType::ApplicationOpenDocumentPresentation)
        }         else if chars_eq_str(v, "application/vnd.oasis.opendocument.spreadsheet") {
            Some(TiiMimeType::ApplicationOpenDocumentSpreadsheet)
        }         else if chars_eq_str(v, "application/vnd.oasis.opendocument.text") {
            Some(TiiMimeType::ApplicationOpenDocumentText)
        }         else if chars_eq_str(v, "application/ogg") {
            Some(TiiMimeType::ApplicationOgg)
        }         else if chars_eq_str(v, "application/x-httpd-php") {
            Some(TiiMimeType::ApplicationPhp)
        }         else if chars_eq_str(v, "application/vnd.ms-powerpoint") {
            Some(TiiMimeType::ApplicationMicrosoftPowerpoint)
        }         else if chars_eq_str(v, "application/vnd.openxmlformats-officedocument.presentationml.presentation") {
            Some(TiiMimeType::ApplicationMicrosoftPowerpointXml)
        }         else if chars_eq_str(v, "application/vnd.rar") {
            Some(TiiMimeType::ApplicationRar)
        }         else if chars_eq_str(v, "application/rtf") {
            Some(TiiMimeType::ApplicationRichText)
        }         else if chars_eq_str(v, "application/x-sh") {
            Some(TiiMimeType::ApplicationBourneShell)
        }         else if chars_eq_str(v, "application/x-tar") {
            Some(TiiMimeType::ApplicationTapeArchive)
        }         else if chars_eq_str(v, "application/vnd.visio") {
            Some(TiiMimeType::ApplicationMicrosoftVisio)
        }         else if chars_eq_str(v, "application/xhtml+xml") {
            Some(TiiMimeType::ApplicationXHtml)
        }         else if chars_eq_str(v, "application/vnd.ms-excel") {
            Some(TiiMimeType::ApplicationMicrosoftExcel)
        }         else if chars_eq_str(v, "application/vnd.openxmlformats-officedocument.spreadsheetml.sheet") {
            Some(TiiMimeType::ApplicationMicrosoftExcelXml)
        }         else if chars_eq_str(v, "application/xml") {
            Some(TiiMimeType::ApplicationXml)
        }         else if chars_eq_str(v, "application/vnd.mozilla.xul+xml") {
            Some(TiiMimeType::ApplicationXul)
        }         else if chars_eq_str(v, "application/dicom") {
            Some(TiiMimeType::ApplicationDicom)
        }         else if chars_eq_str(v, "application/x-7z-compressed") {
            Some(TiiMimeType::Application7Zip)
        }         else if chars_eq_str(v, "application/wasm") {
            Some(TiiMimeType::ApplicationWasm)
        }         else if chars_eq_str(v, "video/x-msvideo") {
            Some(TiiMimeType::VideoAvi)
        }         else if chars_eq_str(v, "video/mpeg") {
            Some(TiiMimeType::VideoMpeg)
        }         else if chars_eq_str(v, "video/mp2t") {
            Some(TiiMimeType::VideoMpegTransportStream)
        }         else if chars_eq_str(v, "video/3gpp") {
            Some(TiiMimeType::Video3gpp)
        }         else if chars_eq_str(v, "video/3gpp2") {
            Some(TiiMimeType::Video3gpp2)
        }         else if chars_eq_str(v, "audio/3gpp") {
            Some(TiiMimeType::Audio3gpp)
        }         else if chars_eq_str(v, "audio/3gpp2") {
            Some(TiiMimeType::Audio3gpp2)
        }         else if chars_eq_str(v, "image/avif") {
            Some(TiiMimeType::ImageAvif)
        }         else if chars_eq_str(v, "image/apng") {
            Some(TiiMimeType::ImageApng)
        }         else if chars_eq_str(v, "image/tiff") {
            Some(TiiMimeType::ImageTiff)
        }         else if chars_eq_str(v, "audio/aac") {
            Some(TiiMimeType::AudioAac)
        }         else if chars_eq_str(v, "audio/midi") {
            Some(TiiMimeType::AudioMidi)
        }         else if chars_eq_str(v, "audio/mpeg") {
            Some(TiiMimeType::AudioMpeg)
        }         else if chars_eq_str(v, "audio/ogg") {
            Some(TiiMimeType::AudioOgg)
        }         else if chars_eq_str(v, "audio/wav") {
            Some(TiiMimeType::AudioWaveform)
        }         else if chars_eq_str(v, "audio/webm") {
            Some(TiiMimeType::AudioWebm)
        }         else if chars_eq_str(v, "text/csv") {
            Some(TiiMimeType::TextCsv)
        }         else if chars_eq_str(v, "text/calendar") {
            Some(TiiMimeType::TextCalendar)
        }         else if chars_eq_str(v, "application/yaml") {
            Some(TiiMimeType::ApplicationYaml)
        }         else if chars_eq_str(v, "text/x-lua") {
            Some(TiiMimeType::TextLua)
        }         else if chars_eq_str(v, "application/x-lua-bytecode") {
            Some(TiiMimeType::ApplicationLuaBytecode)
        }         else if chars_eq_str(v, "application/x-xz") {
            Some(TiiMimeType::ApplicationXz)
        } else {
            Self::parse_other(v)
        }
    }

    /// Parses a mime type outside the well known ones.
    fn parse_other(v: &Vec<char>) -> (r: Option<Self>)
        ensures
            r matches Some(m) ==> is_other_mime_text(v@) && m@ == TiiMimeType::Other(
                mime_group_of(v@).unwrap(),
                v@,
            ),
            r is None ==> !is_other_mime_text(v@),
    {
        let n = v.len();
        if n == 0 || v[0] == '/' || v[n - 1] == '/' {
            return None;
        }
        let mut found: Option<usize> = None;
        let mut i: usize = 0;
        while i < n
            invariant
                n == v@.len(),
                n > 0,
                i <= n,
                found matches Some(k) ==> k < i && v@[k as int] == '/' && forall|j: int|
                    0 <= j < i && j != k ==> v@[j] != '/',
                found is None ==> forall|j: int| 0 <= j < i ==> v@[j] != '/',
                forall|j: int| 0 <= j < i && v@[j] != '/' ==> header_char_ok(#[trigger] v@[j]),
            decreases n - i,
        {
            let c = v[i];
            if c == '/' {
                if let Some(k) = found {
                    proof {
                        lemma_second_slash(v@, k as int, i as int);
                    }
                    return None;
                }
                found = Some(i);
            } else if !check_header_char(c) {
                return None;
            }
            i = i + 1;
        }
        match found {
            None => {
                proof {
                    lemma_index_of(v@, '/', -1);
                }
                None
            },
            Some(k) => {
                proof {
                    lemma_single_slash(v@, k as int);
                }
                match TiiMimeGroup::parse_chars(v) {
                    Some(g) => Some(TiiMimeType::Other(g, string_of(v))),
                    None => {
                        proof {
                            assert(false);
                        }
                        None
                    },
                }
            },
        }
    }

    /// Do two mime types denote the same type?
    pub fn same_as(&self, other: &TiiMimeType) -> (r: bool)
        ensures
            r == (self@ == other@),
    {
        match (self, other) {
            (TiiMimeType::TextCss, TiiMimeType::TextCss) => true,
            (TiiMimeType::TextHtml, TiiMimeType::TextHtml) => true,
            (TiiMimeType::TextJavaScript, TiiMimeType::TextJavaScript) => true,
            (TiiMimeType::TextPlain, TiiMimeType::TextPlain) => true,
            (TiiMimeType::ImageBmp, TiiMimeType::ImageBmp) => true,
            (TiiMimeType::ImageGif, TiiMimeType::ImageGif) => true,
            (TiiMimeType::ImageJpeg, TiiMimeType::ImageJpeg) => true,
            (TiiMimeType::ImagePng, TiiMimeType::ImagePng) => true,
            (TiiMimeType::ImageWebp, TiiMimeType::ImageWebp) => true,
            (TiiMimeType::ImageSvg, TiiMimeType::ImageSvg) => true,
            (TiiMimeType::ImageIcon, TiiMimeType::ImageIcon) => true,
            (TiiMimeType::ApplicationOctetStream, TiiMimeType::ApplicationOctetStream) => true,
            (TiiMimeType::ApplicationJson, TiiMimeType::ApplicationJson) => true,
            (TiiMimeType::ApplicationPdf, TiiMimeType::ApplicationPdf) => true,
            (TiiMimeType::ApplicationZip, TiiMimeType::ApplicationZip) => true,
            (TiiMimeType::VideoMp4, TiiMimeType::VideoMp4) => true,
            (TiiMimeType::VideoOgg, TiiMimeType::VideoOgg) => true,
            (TiiMimeType::VideoWebm, TiiMimeType::VideoWebm) => true,
            (TiiMimeType::FontTtf, TiiMimeType::FontTtf) => true,
            (TiiMimeType::FontOtf, TiiMimeType::FontOtf) => true,
            (TiiMimeType::FontWoff, TiiMimeType::FontWoff) => true,
            (TiiMimeType::FontWoff2, TiiMimeType::FontWoff2) => true,
            (TiiMimeType::ApplicationAbiWord, TiiMimeType::ApplicationAbiWord) => true,
            (TiiMimeType::ApplicationFreeArc, TiiMimeType::ApplicationFreeArc) => true,
            (TiiMimeType::ApplicationAmazonEbook, TiiMimeType::ApplicationAmazonEbook) => true,
            (TiiMimeType::ApplicationBzip, TiiMimeType::ApplicationBzip) => true,
            (TiiMimeType::ApplicationBzip2, TiiMimeType::ApplicationBzip2) => true,
            (TiiMimeType::ApplicationCDAudio, TiiMimeType::ApplicationCDAudio) => true,
            (TiiMimeType::ApplicationCShell, TiiMimeType::ApplicationCShell) => true,
            (TiiMimeType::ApplicationMicrosoftWord, TiiMimeType::ApplicationMicrosoftWord) => true,
            (TiiMimeType::ApplicationMicrosoftWordXml, TiiMimeType::ApplicationMicrosoftWordXml) => true,
            (TiiMimeType::ApplicationMicrosoftFont, TiiMimeType::ApplicationMicrosoftFont) => true,
            (TiiMimeType::ApplicationEpub, TiiMimeType::ApplicationEpub) => true,
            (TiiMimeType::ApplicationGzip, TiiMimeType::ApplicationGzip) => true,
            (TiiMimeType::ApplicationJar, TiiMimeType::ApplicationJar) => true,
            (TiiMimeType::ApplicationJavaClass, TiiMimeType::ApplicationJavaClass) => true,
            (TiiMimeType::ApplicationJsonLd, TiiMimeType::ApplicationJsonLd) => true,
            (TiiMimeType::ApplicationAppleInstallerPackage, TiiMimeType::ApplicationAppleInstallerPackage) => true,
            (TiiMimeType::ApplicationOpenDocumentPresentation, TiiMimeType::ApplicationOpenDocumentPresentation) => true,
            (TiiMimeType::ApplicationOpenDocumentSpreadsheet, TiiMimeType::ApplicationOpenDocumentSpreadsheet) => true,
            (TiiMimeType::ApplicationOpenDocumentText, TiiMimeType::ApplicationOpenDocumentText) => true,
            (TiiMimeType::ApplicationOgg, TiiMimeType::ApplicationOgg) => true,
            (TiiMimeType::ApplicationPhp, TiiMimeType::ApplicationPhp) => true,
            (TiiMimeType::ApplicationMicrosoftPowerpoint, TiiMimeType::ApplicationMicrosoftPowerpoint) => true,
            (TiiMimeType::ApplicationMicrosoftPowerpointXml, TiiMimeType::ApplicationMicrosoftPowerpointXml) => true,
            (TiiMimeType::ApplicationRar, TiiMimeType::ApplicationRar) => true,
            (TiiMimeType::ApplicationRichText, TiiMimeType::ApplicationRichText) => true,
            (TiiMimeType::ApplicationBourneShell, TiiMimeType::ApplicationBourneShell) => true,
            (TiiMimeType::ApplicationTapeArchive, TiiMimeType::ApplicationTapeArchive) => true,
            (TiiMimeType::ApplicationMicrosoftVisio, TiiMimeType::ApplicationMicrosoftVisio) => true,
            (TiiMimeType::ApplicationXHtml, TiiMimeType::ApplicationXHtml) => true,
            (TiiMimeType::ApplicationMicrosoftExcel, TiiMimeType::ApplicationMicrosoftExcel) => true,
            (TiiMimeType::ApplicationMicrosoftExcelXml, TiiMimeType::ApplicationMicrosoftExcelXml) => true,
            (TiiMimeType::ApplicationXml, TiiMimeType::ApplicationXml) => true,
            (TiiMimeType::ApplicationXul, TiiMimeType::ApplicationXul) => true,
            (TiiMimeType::ApplicationDicom, TiiMimeType::ApplicationDicom) => true,
            (TiiMimeType::Application7Zip, TiiMimeType::Application7Zip) => true,
            (TiiMimeType::ApplicationWasm, TiiMimeType::ApplicationWasm) => true,
            (TiiMimeType::VideoAvi, TiiMimeType::VideoAvi) => true,
            (TiiMimeType::VideoMpeg, TiiMimeType::VideoMpeg) => true,
            (TiiMimeType::VideoMpegTransportStream, TiiMimeType::VideoMpegTransportStream) => true,
            (TiiMimeType::Video3gpp, TiiMimeType::Video3gpp) => true,
            (TiiMimeType::Video3gpp2, TiiMimeType::Video3gpp2) => true,
            (TiiMimeType::ImageAvif, TiiMimeType::ImageAvif) => true,
            (TiiMimeType::ImageApng, TiiMimeType::ImageApng) => true,
            (TiiMimeType::ImageTiff, TiiMimeType::ImageTiff) => true,
            (TiiMimeType::AudioAac, TiiMimeType::AudioAac) => true,
            (TiiMimeType::AudioMidi, TiiMimeType::AudioMidi) => true,
            (TiiMimeType::AudioMpeg, TiiMimeType::AudioMpeg) => true,
            (TiiMimeType::AudioOgg, TiiMimeType::AudioOgg) => true,
            (TiiMimeType::AudioWaveform, TiiMimeType::AudioWaveform) => true,
            (TiiMimeType::AudioWebm, TiiMimeType::AudioWebm) => true,
            (TiiMimeType::Audio3gpp, TiiMimeType::Audio3gpp) => true,
            (TiiMimeType::Audio3gpp2, TiiMimeType::Audio3gpp2) => true,
            (TiiMimeType::TextCsv, TiiMimeType::TextCsv) => true,
            (TiiMimeType::TextCalendar, TiiMimeType::TextCalendar) => true,
            (TiiMimeType::ApplicationYaml, TiiMimeType::ApplicationYaml) => true,
            (TiiMimeType::TextLua, TiiMimeType::TextLua) => true,
            (TiiMimeType::ApplicationLuaBytecode, TiiMimeType::ApplicationLuaBytecode) => true,
            (TiiMimeType::ApplicationXz, TiiMimeType::ApplicationXz) => true,
            (TiiMimeType::Other(g1, a), TiiMimeType::Other(g2, b)) => g1.same_as(g2) && str_eq(
                a.as_str(),
                b.as_str(),
            ),
            _ => false,
        }
    }

    /// A copy of this mime type.
    pub fn duplicate(&self) -> (r: Self)
        ensures
            r@ == self@,
    {
        match self {
            TiiMimeType::TextCss => TiiMimeType::TextCss,
            TiiMimeType::TextHtml => TiiMimeType::TextHtml,
            TiiMimeType::TextJavaScript => TiiMimeType::TextJavaScript,
            TiiMimeType::TextPlain => TiiMimeType::TextPlain,
            TiiMimeType::ImageBmp => TiiMimeType::ImageBmp,
            TiiMimeType::ImageGif => TiiMimeType::ImageGif,
            TiiMimeType::ImageJpeg => TiiMimeType::ImageJpeg,
            TiiMimeType::ImagePng => TiiMimeType::ImagePng,
            TiiMimeType::ImageWebp => TiiMimeType::ImageWebp,
            TiiMimeType::ImageSvg => TiiMimeType::ImageSvg,
            TiiMimeType::ImageIcon => TiiMimeType::ImageIcon,
            TiiMimeType::ApplicationOctetStream => TiiMimeType::ApplicationOctetStream,
            TiiMimeType::ApplicationJson => TiiMimeType::ApplicationJson,
            TiiMimeType::ApplicationPdf => TiiMimeType::ApplicationPdf,
            TiiMimeType::ApplicationZip => TiiMimeType::ApplicationZip,
            TiiMimeType::VideoMp4 => TiiMimeType::VideoMp4,
            TiiMimeType::VideoOgg => TiiMimeType::VideoOgg,
            TiiMimeType::VideoWebm => TiiMimeType::VideoWebm,
            TiiMimeType::FontTtf => TiiMimeType::FontTtf,
            TiiMimeType::FontOtf => TiiMimeType::FontOtf,
            TiiMimeType::FontWoff => TiiMimeType::FontWoff,
            TiiMimeType::FontWoff2 => TiiMimeType::FontWoff2,
            TiiMimeType::ApplicationAbiWord => TiiMimeType::ApplicationAbiWord,
            TiiMimeType::ApplicationFreeArc => TiiMimeType::ApplicationFreeArc,
            TiiMimeType::ApplicationAmazonEbook => TiiMimeType::ApplicationAmazonEbook,
            TiiMimeType::ApplicationBzip => TiiMimeType::ApplicationBzip,
            TiiMimeType::ApplicationBzip2 => TiiMimeType::ApplicationBzip2,
            TiiMimeType::ApplicationCDAudio => TiiMimeType::ApplicationCDAudio,
            TiiMimeType::ApplicationCShell => TiiMimeType::ApplicationCShell,
            TiiMimeType::ApplicationMicrosoftWord => TiiMimeType::ApplicationMicrosoftWord,
            TiiMimeType::ApplicationMicrosoftWordXml => TiiMimeType::ApplicationMicrosoftWordXml,
            TiiMimeType::ApplicationMicrosoftFont => TiiMimeType::ApplicationMicrosoftFont,
            TiiMimeType::ApplicationEpub => TiiMimeType::ApplicationEpub,
            TiiMimeType::ApplicationGzip => TiiMimeType::ApplicationGzip,
            TiiMimeType::ApplicationJar => TiiMimeType::ApplicationJar,
            TiiMimeType::ApplicationJavaClass => TiiMimeType::ApplicationJavaClass,
            TiiMimeType::ApplicationJsonLd => TiiMimeType::ApplicationJsonLd,
            TiiMimeType::ApplicationAppleInstallerPackage => TiiMimeType::ApplicationAppleInstallerPackage,
            TiiMimeType::ApplicationOpenDocumentPresentation => TiiMimeType::ApplicationOpenDocumentPresentation,
            TiiMimeType::ApplicationOpenDocumentSpreadsheet => TiiMimeType::ApplicationOpenDocumentSpreadsheet,
            TiiMimeType::ApplicationOpenDocumentText => TiiMimeType::ApplicationOpenDocumentText,
            TiiMimeType::ApplicationOgg => TiiMimeType::ApplicationOgg,
            TiiMimeType::ApplicationPhp => TiiMimeType::ApplicationPhp,
            TiiMimeType::ApplicationMicrosoftPowerpoint => TiiMimeType::ApplicationMicrosoftPowerpoint,
            TiiMimeType::ApplicationMicrosoftPowerpointXml => TiiMimeType::ApplicationMicrosoftPowerpointXml,
            TiiMimeType::ApplicationRar => TiiMimeType::ApplicationRar,
            TiiMimeType::ApplicationRichText => TiiMimeType::ApplicationRichText,
            TiiMimeType::ApplicationBourneShell => TiiMimeType::ApplicationBourneShell,
            TiiMimeType::ApplicationTapeArchive => TiiMimeType::ApplicationTapeArchive,
            TiiMimeType::ApplicationMicrosoftVisio => TiiMimeType::ApplicationMicrosoftVisio,
            TiiMimeType::ApplicationXHtml => TiiMimeType::ApplicationXHtml,
            TiiMimeType::ApplicationMicrosoftExcel => TiiMimeType::ApplicationMicrosoftExcel,
            TiiMimeType::ApplicationMicrosoftExcelXml => TiiMimeType::ApplicationMicrosoftExcelXml,
            TiiMimeType::ApplicationXml => TiiMimeType::ApplicationXml,
            TiiMimeType::ApplicationXul => TiiMimeType::ApplicationXul,
            TiiMimeType::ApplicationDicom => TiiMimeType::ApplicationDicom,
            TiiMimeType::Application7Zip => TiiMimeType::Application7Zip,
            TiiMimeType::ApplicationWasm => TiiMimeType::ApplicationWasm,
            TiiMimeType::VideoAvi => TiiMimeType::VideoAvi,
            TiiMimeType::VideoMpeg => TiiMimeType::VideoMpeg,
            TiiMimeType::VideoMpegTransportStream => TiiMimeType::VideoMpegTransportStream,
            TiiMimeType::Video3gpp => TiiMimeType::Video3gpp,
            TiiMimeType::Video3gpp2 => TiiMimeType::Video3gpp2,
            TiiMimeType::ImageAvif => TiiMimeType::ImageAvif,
            TiiMimeType::ImageApng => TiiMimeType::ImageApng,
            TiiMimeType::ImageTiff => TiiMimeType::ImageTiff,
            TiiMimeType::AudioAac => TiiMimeType::AudioAac,
            TiiMimeType::AudioMidi => TiiMimeType::AudioMidi,
            TiiMimeType::AudioMpeg => TiiMimeType::AudioMpeg,
            TiiMimeType::AudioOgg => TiiMimeType::AudioOgg,
            TiiMimeType::AudioWaveform => TiiMimeType::AudioWaveform,
            TiiMimeType::AudioWebm => TiiMimeType::AudioWebm,
            TiiMimeType::Audio3gpp => TiiMimeType::Audio3gpp,
            TiiMimeType::Audio3gpp2 => TiiMimeType::Audio3gpp2,
            TiiMimeType::TextCsv => TiiMimeType::TextCsv,
            TiiMimeType::TextCalendar => TiiMimeType::TextCalendar,
            TiiMimeType::ApplicationYaml => TiiMimeType::ApplicationYaml,
            TiiMimeType::TextLua => TiiMimeType::TextLua,
            TiiMimeType::ApplicationLuaBytecode => TiiMimeType::ApplicationLuaBytecode,
            TiiMimeType::ApplicationXz => TiiMimeType::ApplicationXz,
            TiiMimeType::Other(g, s) => TiiMimeType::Other(g.duplicate(), copy_string(s)),
        }
    }
}

// ---------------------------------------------------------------- quality values

/// QValue is a fixed point number from 0 to 1 with up to 3 digits after the
/// point, held as an integer from 0 to 1000.
#[derive(Ord, PartialOrd, Eq, PartialEq, Copy, Clone, Debug, Hash)]
pub struct TiiQValue(u16);

impl TiiQValue {
    #[verifier::type_invariant]
    spec fn in_range(self) -> bool {
        self.0 <= 1000
    }
}

impl View for TiiQValue {
    type V = u16;

    closed spec fn view(&self) -> u16 {
        self.0
    }
}

/// The value of a quality value in its header representation (without "q="):
/// "0" and "1", "1.0", "1.00" and "1.000", or "0." followed by one to three
/// decimal digits.
pub open spec fn qvalue_of(s: Seq<char>) -> Option<u16> {
    if !all_ascii(s) {
        None
    } else if s.len() == 1 {
        if s == "1"@ {
            Some(1000)
        } else if s == "0"@ {
            Some(0)
        } else {
            None
        }
    } else if 3 <= s.len() <= 5 {
        if !has_prefix(s, "0."@) {
            if s == "1.0"@ || s == "1.00"@ || s == "1.000"@ {
                Some(1000)
            } else {
                None
            }
        } else if !all_digits(s.skip(2)) {
            None
        } else {
            Some(
                (digits_value(s.skip(2)) * (if s.len() == 3 {
                    100nat
                } else if s.len() == 4 {
                    10nat
                } else {
                    1nat
                })) as u16,
            )
        }
    } else {
        None
    }
}

/// The header representation of a quality value: "1.0" for 1000, otherwise "0."
/// followed by the three decimal digits without trailing zeros (at least one digit).
pub open spec fn qvalue_text(q: u16) -> Seq<char> {
    if q >= 1000 {
        "1.0"@
    } else {
        let d1 = digit_char((q / 100) as nat);
        let d2 = digit_char(((q / 10) % 10) as nat);
        let d3 = digit_char((q % 10) as nat);
        if q % 10 != 0 {
            "0."@ + seq![d1, d2, d3]
        } else if (q / 10) % 10 != 0 {
            "0."@ + seq![d1, d2]
        } else {
            "0."@ + seq![d1]
        }
    }
}

fn all_ascii_chars(v: &Vec<char>) -> (r: bool)
    ensures
        r == all_ascii(v@),
{
    let mut i: usize = 0;
    while i < v.len()
        invariant
            i <= v@.len(),
            forall|j: int| 0 <= j < i ==> crate::text::is_ascii_char(#[trigger] v@[j]),
        decreases v@.len() - i,
    {
        if (v[i] as u32) >= 128 {
            return false;
        }
        i = i + 1;
    }
    true
}

impl TiiQValue {
    /// Parses a quality value in its header representation, without the "q=" prefix.
    /// Returns None if the value is out of bounds or otherwise invalid.
    pub fn parse(qvalue: &str) -> (r: Option<TiiQValue>)
        ensures
            r matches Some(q) ==> qvalue_of(qvalue@) == Some(q@) && q@ <= 1000,
            r is None ==> qvalue_of(qvalue@) is None,
    {
        let v = chars_of(qvalue);
        Self::parse_chars(&v)
    }

    /// Parses a quality value from the characters of `v`.
    pub fn parse_chars(v: &Vec<char>) -> (r: Option<TiiQValue>)
        ensures
            r matches Some(q) ==> qvalue_of(v@) == Some(q@) && q@ <= 1000,
            r is None ==> qvalue_of(v@) is None,
    {
        if !all_ascii_chars(v) {
            return None;
        }
        let n = v.len();
        if n == 1 {
            if chars_eq_str(v, "1") {
                return Some(TiiQValue(1000));
            }
            if chars_eq_str(v, "0") {
                return Some(TiiQValue(0));
            }
            return None;
        }
        if n < 3 || n > 5 {
            return None;
        }
        if !starts_with_str(v, "0.") {
            if chars_eq_str(v, "1.0") || chars_eq_str(v, "1.00") || chars_eq_str(v, "1.000") {
                return Some(TiiQValue(1000));
            }
            return None;
        }
        proof {
            assert(v@.subrange(2, n as int) =~= v@.skip(2));
            assert(v@.skip(2)[0] == v@[2]);
        }
        if v[2] == '+' {
            return None;
        }
        match parse_unsigned_range(v, 2, n, 65535) {
            Some(value) => {
                proof {
                    let d = v@.skip(2);
                    lemma_digits_bound(d);
                    assert(value * 100 <= 900 || n != 3);
                    assert(value * 10 <= 990 || n != 4);
                    assert(value <= 999 || n != 5);
                }
                if n == 3 {
                    Some(TiiQValue((value * 100) as u16))
                } else if n == 4 {
                    Some(TiiQValue((value * 10) as u16))
                } else {
                    Some(TiiQValue(value as u16))
                }
            },
            None => {
                proof {
                    let d = v@.skip(2);
                    if all_digits(d) {
                        lemma_digits_bound(d);
                    }
                }
                None
            },
        }
    }

    /// The header representation of this quality value, without the "q=" prefix.
    pub fn as_str(&self) -> (r: String)
        ensures
            r@ == qvalue_text(self@),
    {
        proof {
            use_type_invariant(self);
        }
        let q = self.0;
        if q >= 1000 {
            let r = crate::text::string_from("1.0");
            return r;
        }
        let mut r = crate::text::string_from("0.");
        let d1 = (((q / 100) as u8) + 48) as char;
        let d2 = ((((q / 10) % 10) as u8) + 48) as char;
        let d3 = (((q % 10) as u8) + 48) as char;
        push_char(&mut r, d1);
        if q % 10 != 0 {
            push_char(&mut r, d2);
            push_char(&mut r, d3);
            assert(r@ =~= "0."@ + seq![d1, d2, d3]);
        } else if (q / 10) % 10 != 0 {
            push_char(&mut r, d2);
            assert(r@ =~= "0."@ + seq![d1, d2]);
        } else {
            assert(r@ =~= "0."@ + seq![d1]);
        }
        r
    }

    /// This quality value as an integer from 0 to 1000; 1000 stands for 1.0.
    pub fn as_u16(&self) -> (r: u16)
        ensures
            r == self@,
            r <= 1000,
    {
        proof {
            use_type_invariant(self);
        }
        self.0
    }

    /// The quality value of the given integer; values over 1000 are clamped to 1000.
    pub fn from_clamped(qvalue: u16) -> (r: TiiQValue)
        ensures
            r@ == (if qvalue > 1000 {
                1000
            } else {
                qvalue
            }),
    {
        if qvalue > 1000 {
            return TiiQValue(1000);
        }
        TiiQValue(qvalue)
    }
}

impl Default for TiiQValue {
    /// q=1.0
    fn default() -> (r: Self)
        ensures
            r@ == 1000,
    {
        TiiQValue(1000)
    }
}

/// Ten to the power of `n`, for `n` up to 3.
pub open spec fn pow10(n: nat) -> nat {
    if n == 0 {
        1
    } else if n == 1 {
        10
    } else if n == 2 {
        100
    } else {
        1000
    }
}

proof fn lemma_digits_bound(d: Seq<char>)
    requires
        d.len() <= 3,
        crate::text::all_digits(d),
    ensures
        crate::text::digits_value(d) < pow10(d.len()),
    decreases d.len(),
{
    if d.len() > 0 {
        let p = d.drop_last();
        assert forall|i: int| 0 <= i < p.len() implies crate::text::is_digit(#[trigger] p[i]) by {
            assert(p[i] == d[i]);
        }
        lemma_digits_bound(p);
        let dv = crate::text::digit_value(d.last());
        assert(crate::text::is_digit(d[d.len() - 1]));
        let pv = crate::text::digits_value(p);
        assert(pv * 10 + dv < pow10(p.len()) * 10) by (nonlinear_arith)
            requires
                pv < pow10(p.len()),
                dv <= 9,
        ;
    }
}

proof fn lemma_digit_char(x: nat)
    requires
        x < 10,
    ensures
        crate::text::is_digit(digit_char(x)),
        crate::text::digit_value(digit_char(x)) == x,
        crate::text::is_ascii_char(digit_char(x)),
        digit_char(x) != '+',
{
}

/// Writing a quality value and reading it back gives the same value.
pub proof fn lemma_qvalue_text_round_trip(q: u16)
    requires
        q <= 1000,
    ensures
        qvalue_of(qvalue_text(q)) == Some(q),
{
    reveal_strlit("1.0");
    reveal_strlit("0.");
    let t = qvalue_text(q);
    if q < 1000 {
        let a = (q / 100) as nat;
        let b = ((q / 10) % 10) as nat;
        let c = (q % 10) as nat;
        lemma_digit_char(a);
        lemma_digit_char(b);
        lemma_digit_char(c);
        let d1 = digit_char(a);
        let d2 = digit_char(b);
        let d3 = digit_char(c);
        let rest = if q % 10 != 0 {
            seq![d1, d2, d3]
        } else if (q / 10) % 10 != 0 {
            seq![d1, d2]
        } else {
            seq![d1]
        };
        assert(t =~= "0."@ + rest);
        assert(t.take(2) =~= "0."@);
        assert(t.skip(2) =~= rest);
        assert forall|i: int| 0 <= i < t.len() implies crate::text::is_ascii_char(#[trigger] t[i]) by {
            if i < 2 {
                assert(t[i] == "0."@[i]);
            } else {
                assert(t[i] == rest[i - 2]);
            }
        }
        assert(all_ascii(t));
        assert(crate::text::all_digits(rest));
        assert(seq![d1].drop_last() =~= Seq::<char>::empty());
        assert(crate::text::digits_value(Seq::<char>::empty()) == 0);
        assert(crate::text::digits_value(seq![d1]) == a);
        assert(seq![d1, d2].drop_last() =~= seq![d1]);
        assert(seq![d1, d2, d3].drop_last() =~= seq![d1, d2]);
        if q % 10 != 0 {
            assert(rest.drop_last() =~= seq![d1, d2]);
            assert(rest.drop_last().drop_last() =~= seq![d1]);
            assert(crate::text::digits_value(seq![d1]) == a);
            assert(crate::text::digits_value(seq![d1, d2]) == a * 10 + b);
            assert(crate::text::digits_value(rest) == (a * 10 + b) * 10 + c);
            assert(t.len() == 5);
            assert((a * 10 + b) * 10 + c == q) by (nonlinear_arith)
                requires
                    a == q / 100,
                    b == (q / 10) % 10,
                    c == q % 10,
                    q < 1000,
            ;
        } else if (q / 10) % 10 != 0 {
            assert(rest.drop_last() =~= seq![d1]);
            assert(crate::text::digits_value(seq![d1]) == a);
            assert(crate::text::digits_value(rest) == a * 10 + b);
            assert(t.len() == 4);
            assert((a * 10 + b) * 10 == q) by (nonlinear_arith)
                requires
                    a == q / 100,
                    b == (q / 10) % 10,
                    q % 10 == 0,
                    q < 1000,
            ;
        } else {
            assert(crate::text::digits_value(rest) == a);
            assert(t.len() == 3);
            assert(a * 100 == q) by (nonlinear_arith)
                requires
                    a == q / 100,
                    (q / 10) % 10 == 0,
                    q % 10 == 0,
                    q < 1000,
            ;
        }
        assert(has_prefix(t, "0."@));
    } else {
        assert forall|i: int| 0 <= i < t.len() implies crate::text::is_ascii_char(#[trigger] t[i]) by {
        }
        assert(t == "1.0"@);
        assert(t.len() == 3);
        assert(t.take(2)[0] == '1');
        assert(!has_prefix(t, "0."@));
    }
}

// ---------------------------------------------------------------- accept mime types

/// Version of a mime type that can contain "*" symbols.
#[derive(Clone, PartialEq, Debug, Eq, Hash)]
pub enum TiiAcceptMimeType<S = String> {
    /// video/* or text/* or ...
    GroupWildcard(TiiMimeGroup<S>),
    /// text/html or application/json or ...
    Specific(TiiMimeType<S>),
    /// */*
    Wildcard,
}

impl View for TiiAcceptMimeType<String> {
    type V = TiiAcceptMimeType<Seq<char>>;

    open spec fn view(&self) -> TiiAcceptMimeType<Seq<char>> {
        match self {
            TiiAcceptMimeType::GroupWildcard(g) => TiiAcceptMimeType::GroupWildcard(g@),
            TiiAcceptMimeType::Specific(m) => TiiAcceptMimeType::Specific(m@),
            TiiAcceptMimeType::Wildcard => TiiAcceptMimeType::Wildcard,
        }
    }
}

/// The accept mime type that a text names: "*/*", a mime type, or a group followed by "/*".
pub open spec fn accept_target_of(m: Seq<char>) -> Option<TiiAcceptMimeType<Seq<char>>> {
    if m == "*/*"@ {
        Some(TiiAcceptMimeType::Wildcard)
    } else {
        match mime_type_of(m) {
            Some(t) => Some(TiiAcceptMimeType::Specific(t)),
            None => match mime_group_of(m) {
                Some(g) => if m.skip(group_part(m).len() as int) == "/*"@ {
                    Some(TiiAcceptMimeType::GroupWildcard(g))
                } else {
                    None
                },
                None => None,
            },
        }
    }
}

/// Does the accept mime type `a` permit the mime type `m`?
pub open spec fn permits_specific_spec(a: TiiAcceptMimeType<Seq<char>>, m: TiiMimeType<Seq<char>>) -> bool {
    match a {
        TiiAcceptMimeType::GroupWildcard(g) => g == mime_group_spec(m),
        TiiAcceptMimeType::Specific(x) => x == m,
        TiiAcceptMimeType::Wildcard => true,
    }
}

/// Does the accept mime type `a` permit every mime type of the group `g`?
pub open spec fn permits_group_spec(a: TiiAcceptMimeType<Seq<char>>, g: TiiMimeGroup<Seq<char>>) -> bool {
    match a {
        TiiAcceptMimeType::GroupWildcard(h) => h == g,
        TiiAcceptMimeType::Specific(_) => false,
        TiiAcceptMimeType::Wildcard => true,
    }
}

/// Does `a` permit every mime type that `b` permits?
pub open spec fn permits_spec(a: TiiAcceptMimeType<Seq<char>>, b: TiiAcceptMimeType<Seq<char>>) -> bool {
    match b {
        TiiAcceptMimeType::GroupWildcard(g) => permits_group_spec(a, g),
        TiiAcceptMimeType::Specific(m) => permits_specific_spec(a, m),
        TiiAcceptMimeType::Wildcard => a is Wildcard,
    }
}

/// Every accept mime type permits itself.
pub proof fn lemma_permits_reflexive(a: TiiAcceptMimeType<Seq<char>>)
    ensures
        permits_spec(a, a),
{
}

/// What `b` permits and `b` itself, `a` permits when it permits `b`.
pub proof fn lemma_permits_transitive(
    a: TiiAcceptMimeType<Seq<char>>,
    b: TiiAcceptMimeType<Seq<char>>,
    c: TiiAcceptMimeType<Seq<char>>,
)
    requires
        permits_spec(a, b),
        permits_spec(b, c),
    ensures
        permits_spec(a, c),
{
}

/// Parses `v[0..end]` as an accept mime type target.
fn accept_target_chars(v: &Vec<char>) -> (r: Option<TiiAcceptMimeType>)
    ensures
        r matches Some(a) ==> accept_target_of(v@) == Some(a@),
        r is None ==> accept_target_of(v@) is None,
{
    if chars_eq_str(v, "*/*") {
        return Some(TiiAcceptMimeType::Wildcard);
    }
    match TiiMimeType::parse_chars(v) {
        Some(m) => Some(TiiAcceptMimeType::Specific(m)),
        None => match TiiMimeGroup::parse_chars(v) {
            Some(g) => {
                let end = match find_char(v, '/', 0) {
                    Some(i) => i,
                    None => v.len(),
                };
                proof {
                    assert(v@.skip(0) =~= v@);
                    assert(group_part(v@).len() == end);
                    assert(v@.subrange(end as int, v@.len() as int) =~= v@.skip(end as int));
                }
                if !range_eq_str(v, end, v.len(), "/*") {
                    return None;
                }
                Some(TiiAcceptMimeType::GroupWildcard(g))
            },
            None => None,
        },
    }
}

impl TiiAcceptMimeType {
    /// Parses an accept mime type; what follows the first ";" is ignored.
    pub fn parse(value: &str) -> (r: Option<TiiAcceptMimeType>)
        ensures
            r matches Some(a) ==> accept_target_of(split_seq(value@, ';')[0]) == Some(a@),
            r is None ==> accept_target_of(split_seq(value@, ';')[0]) is None,
    {
        let v = chars_of(value);
        let end = match find_char(&v, ';', 0) {
            Some(i) => i,
            None => v.len(),
        };
        proof {
            assert(v@.skip(0) =~= v@);
            lemma_index_of_bounds(v@, ';');
            if end < v@.len() {
                assert(v@.take(end as int) =~= v@.subrange(0, end as int));
            } else {
                assert(v@ =~= v@.subrange(0, end as int));
            }
        }
        let head = sub_chars(&v, 0, end);
        accept_target_chars(&head)
    }

    /// Returns true if this accept mime type permits the given mime type.
    pub fn permits_specific(&self, mime_type: &TiiMimeType) -> (r: bool)
        ensures
            r == permits_specific_spec(self@, mime_type@),
    {
        match self {
            TiiAcceptMimeType::GroupWildcard(group) => group.same_as(mime_type.mime_group()),
            TiiAcceptMimeType::Specific(mime) => mime.same_as(mime_type),
            TiiAcceptMimeType::Wildcard => true,
        }
    }

    /// Returns true if this accept mime type permits every mime type of the given group.
    pub fn permits_group(&self, mime_group: &TiiMimeGroup) -> (r: bool)
        ensures
            r == permits_group_spec(self@, mime_group@),
    {
        match self {
            TiiAcceptMimeType::GroupWildcard(group) => group.same_as(mime_group),
            TiiAcceptMimeType::Specific(_) => false,
            TiiAcceptMimeType::Wildcard => true,
        }
    }

    /// Returns true if this accept mime type permits every mime type that the other permits.
    pub fn permits(&self, mime_type: &TiiAcceptMimeType) -> (r: bool)
        ensures
            r == permits_spec(self@, mime_type@),
    {
        match mime_type {
            TiiAcceptMimeType::GroupWildcard(group) => self.permits_group(group),
            TiiAcceptMimeType::Specific(mime) => self.permits_specific(mime),
            TiiAcceptMimeType::Wildcard => matches!(self, TiiAcceptMimeType::Wildcard),
        }
    }

    /// A copy of this accept mime type.
    pub fn duplicate(&self) -> (r: Self)
        ensures
            r@ == self@,
    {
        match self {
            TiiAcceptMimeType::GroupWildcard(g) => TiiAcceptMimeType::GroupWildcard(g.duplicate()),
            TiiAcceptMimeType::Specific(m) => TiiAcceptMimeType::Specific(m.duplicate()),
            TiiAcceptMimeType::Wildcard => TiiAcceptMimeType::Wildcard,
        }
    }
}

/// The text of an accept mime type.
pub open spec fn accept_target_text(a: TiiAcceptMimeType<Seq<char>>) -> Seq<char> {
    match a {
        TiiAcceptMimeType::GroupWildcard(g) => group_text(g) + "/*"@,
        TiiAcceptMimeType::Specific(m) => mime_text(m),
        TiiAcceptMimeType::Wildcard => "*/*"@,
    }
}

/// Appends the text of an accept mime type.
fn push_accept_target(buf: &mut String, a: &TiiAcceptMimeType)
    ensures
        final(buf)@ == old(buf)@ + accept_target_text(a@),
{
    match a {
        TiiAcceptMimeType::GroupWildcard(group) => {
            push_str(buf, group.as_str());
            push_str(buf, "/*");
            assert(final(buf)@ =~= old(buf)@ + accept_target_text(a@));
        },
        TiiAcceptMimeType::Specific(mime) => {
            push_str(buf, mime.as_str());
        },
        TiiAcceptMimeType::Wildcard => {
            push_str(buf, "*/*");
        },
    }
}

/// One part of an Accept header: an accept mime type with its quality value.
#[derive(Clone, PartialEq, Debug, Eq)]
pub struct TiiAcceptQualityMimeType {
    value: TiiAcceptMimeType,
    q: TiiQValue,
}

/// The model of an accept mime type with its quality value.
pub type AcceptItem = (TiiAcceptMimeType<Seq<char>>, u16);

impl View for TiiAcceptQualityMimeType {
    type V = AcceptItem;

    closed spec fn view(&self) -> AcceptItem {
        (self.value@, self.q@)
    }
}

/// The models of a sequence of accept mime types.
pub open spec fn accept_views(v: Seq<TiiAcceptQualityMimeType>) -> Seq<AcceptItem> {
    Seq::new(v.len(), |i: int| v[i]@)
}

/// The accept item that one comma separated part of an Accept header gives.
/// The part is trimmed; a ";" must be followed by "q=" and a quality value.
pub open spec fn accept_piece_of(piece: Seq<char>) -> Option<AcceptItem> {
    let mime = trim_seq(piece);
    let i = index_of(mime, ';');
    if i >= 0 {
        let rawq = mime.skip(i + 1);
        if !has_prefix(rawq, "q="@) {
            None
        } else {
            match qvalue_of(rawq.skip(2)) {
                None => None,
                Some(q) => match accept_target_of(mime.take(i)) {
                    Some(t) => Some((t, q)),
                    None => None,
                },
            }
        }
    } else {
        match accept_target_of(mime) {
            Some(t) => Some((t, 1000u16)),
            None => None,
        }
    }
}

/// The accept items of all parts, in order, if every part gives one.
pub open spec fn accept_pieces_of(pieces: Seq<Seq<char>>) -> Option<Seq<AcceptItem>>
    decreases pieces.len(),
{
    if pieces.len() == 0 {
        Some(seq![])
    } else {
        match accept_pieces_of(pieces.drop_last()) {
            None => None,
            Some(items) => match accept_piece_of(pieces.last()) {
                None => None,
                Some(it) => Some(items.push(it)),
            },
        }
    }
}

/// The items whose quality value is `q`, in order.
pub open spec fn with_quality(items: Seq<AcceptItem>, q: int) -> Seq<AcceptItem>
    decreases items.len(),
{
    if items.len() == 0 {
        seq![]
    } else if items.last().1 == q {
        with_quality(items.drop_last(), q).push(items.last())
    } else {
        with_quality(items.drop_last(), q)
    }
}

/// The items with quality 1000, then those with 999, ..., down to quality `1001 - n`,
/// each group in its original order.
pub open spec fn by_quality(items: Seq<AcceptItem>, n: nat) -> Seq<AcceptItem>
    decreases n,
{
    if n == 0 {
        seq![]
    } else {
        by_quality(items, (n - 1) as nat) + with_quality(items, 1001 - n)
    }
}

/// The accept items of an Accept header value, sorted by descending quality, or None.
pub open spec fn accept_list_of(value: Seq<char>) -> Option<Seq<AcceptItem>> {
    match accept_pieces_of(split_seq(value, ',')) {
        Some(items) => Some(by_quality(items, 1001)),
        None => None,
    }
}

/// The text of one accept item.
pub open spec fn accept_item_text(it: AcceptItem) -> Seq<char> {
    if it.1 != 1000 {
        accept_target_text(it.0) + ";q="@ + qvalue_text(it.1)
    } else {
        accept_target_text(it.0)
    }
}

/// The texts of the items joined by ",", where a "," only follows a non-empty text.
pub open spec fn accept_header_text(items: Seq<AcceptItem>) -> Seq<char>
    decreases items.len(),
{
    if items.len() == 0 {
        seq![]
    } else {
        let b = accept_header_text(items.drop_last());
        if b.len() == 0 {
            accept_item_text(items.last())
        } else {
            b + ","@ + accept_item_text(items.last())
        }
    }
}

proof fn lemma_pieces_none(pieces: Seq<Seq<char>>, k: int)
    requires
        0 <= k <= pieces.len(),
        accept_pieces_of(pieces.take(k)) is None,
    ensures
        accept_pieces_of(pieces) is None,
    decreases pieces.len() - k,
{
    if k < pieces.len() {
        assert(pieces.take(k + 1).drop_last() =~= pieces.take(k));
        lemma_pieces_none(pieces, k + 1);
    } else {
        assert(pieces.take(k) =~= pieces);
    }
}

proof fn lemma_with_quality_all(items: Seq<AcceptItem>, q: int)
    ensures
        forall|j: int| 0 <= j < with_quality(items, q).len() ==> (#[trigger] with_quality(items, q)[j]).1 == q,
    decreases items.len(),
{
    if items.len() > 0 {
        lemma_with_quality_all(items.drop_last(), q);
        let p = with_quality(items.drop_last(), q);
        if items.last().1 == q {
            assert forall|j: int| 0 <= j < p.push(items.last()).len() implies (#[trigger] p.push(
                items.last(),
            )[j]).1 == q by {
                if j < p.len() {
                    assert(p.push(items.last())[j] == p[j]);
                }
            }
        }
    }
}

proof fn lemma_by_quality_above(items: Seq<AcceptItem>, n: nat)
    ensures
        forall|j: int| 0 <= j < by_quality(items, n).len() ==> (#[trigger] by_quality(items, n)[j]).1 > 1000 - n,
    decreases n,
{
    if n > 0 {
        lemma_by_quality_above(items, (n - 1) as nat);
        lemma_with_quality_all(items, 1001 - n);
        let a = by_quality(items, (n - 1) as nat);
        let b = with_quality(items, 1001 - n);
        assert forall|j: int| 0 <= j < (a + b).len() implies (#[trigger] (a + b)[j]).1 > 1000 - n by {
            if j < a.len() {
                assert((a + b)[j] == a[j]);
            } else {
                assert((a + b)[j] == b[j - a.len()]);
            }
        }
    }
}

/// The items that `by_quality` gives are in descending order of quality value.
pub proof fn lemma_by_quality_sorted(items: Seq<AcceptItem>, n: nat)
    ensures
        forall|i: int, j: int|
            0 <= i < j < by_quality(items, n).len() ==> (#[trigger] by_quality(items, n)[i]).1
                >= (#[trigger] by_quality(items, n)[j]).1,
    decreases n,
{
    if n > 0 {
        lemma_by_quality_sorted(items, (n - 1) as nat);
        lemma_by_quality_above(items, (n - 1) as nat);
        lemma_with_quality_all(items, 1001 - n);
        let a = by_quality(items, (n - 1) as nat);
        let b = with_quality(items, 1001 - n);
        assert forall|i: int, j: int| 0 <= i < j < (a + b).len() implies (#[trigger] (a + b)[i]).1
            >= (#[trigger] (a + b)[j]).1 by {
            if j < a.len() {
                assert((a + b)[i] == a[i]);
                assert((a + b)[j] == a[j]);
            } else if i < a.len() {
                assert((a + b)[i] == a[i]);
                assert((a + b)[j] == b[j - a.len()]);
            } else {
                assert((a + b)[i] == b[i - a.len()]);
                assert((a + b)[j] == b[j - a.len()]);
            }
        }
    }
}

impl TiiAcceptQualityMimeType {
    /// Parses an Accept header value from a client http request.
    /// The returned Vec is sorted in descending order of quality value; items
    /// of equal quality keep their order.
    pub fn parse(value: &str) -> (r: Option<Vec<Self>>)
        ensures
            r matches Some(v) ==> accept_list_of(value@) == Some(accept_views(v@)),
            r is None ==> accept_list_of(value@) is None,
            r matches Some(v) ==> forall|i: int, j: int|
                0 <= i < j < v@.len() ==> (#[trigger] v@[i])@.1 >= (#[trigger] v@[j])@.1,
    {
        let v = chars_of(value);
        let pieces = split_chars(&v, ',');
        let ghost ps = views_of(pieces@);
        let mut data: Vec<TiiAcceptQualityMimeType> = Vec::new();
        let mut i: usize = 0;
        while i < pieces.len()
            invariant
                i <= pieces@.len(),
                ps == views_of(pieces@),
                ps == split_seq(value@, ','),
                accept_pieces_of(ps.take(i as int)) == Some(accept_views(data@)),
            decreases pieces@.len() - i,
        {
            let ghost before = data@;
            assert(ps.take(i + 1).drop_last() =~= ps.take(i as int));
            assert(ps.take(i + 1).last() == pieces@[i as int]@);
            match Self::parse_piece(&pieces[i]) {
                None => {
                    proof {
                        assert(accept_piece_of(ps.take(i + 1).last()) is None);
                        assert(accept_pieces_of(ps.take(i + 1)) is None);
                        lemma_pieces_none(ps, i + 1);
                    }
                    return None;
                },
                Some(item) => {
                    data.push(item);
                    assert(accept_views(data@) =~= accept_views(before).push(item@));
                },
            }
            i = i + 1;
        }
        assert(ps.take(pieces@.len() as int) =~= ps);
        let sorted = Self::sort_by_quality(&data);
        proof {
            lemma_by_quality_sorted(accept_views(data@), 1001);
            assert forall|i: int, j: int| 0 <= i < j < sorted@.len() implies (#[trigger] sorted@[i])@.1
                >= (#[trigger] sorted@[j])@.1 by {
                assert(accept_views(sorted@)[i] == sorted@[i]@);
                assert(accept_views(sorted@)[j] == sorted@[j]@);
            }
        }
        Some(sorted)
    }

    /// The item of one comma separated part of an Accept header.
    fn parse_piece(piece: &Vec<char>) -> (r: Option<Self>)
        ensures
            r matches Some(x) ==> accept_piece_of(piece@) == Some(x@),
            r is None ==> accept_piece_of(piece@) is None,
    {
        let mime = trim_chars(piece);
        match find_char(&mime, ';', 0) {
            Some(i) => {
                proof {
                    assert(mime@.skip(0) =~= mime@);
                    assert(mime@.subrange(0, i as int) =~= mime@.take(i as int));
                }
                let rawq = sub_chars(&mime, i + 1, mime.len());
                assert(rawq@ =~= mime@.skip(i + 1));
                if !starts_with_str(&rawq, "q=") {
                    return None;
                }
                proof {
                    reveal_strlit("q=");
                }
                let qtext = sub_chars(&rawq, 2, rawq.len());
                assert(qtext@ =~= rawq@.skip(2));
                let q = match TiiQValue::parse_chars(&qtext) {
                    Some(q) => q,
                    None => {
                        return None;
                    },
                };
                let m = sub_chars(&mime, 0, i);
                match accept_target_chars(&m) {
                    Some(t) => Some(TiiAcceptQualityMimeType { value: t, q }),
                    None => None,
                }
            },
            None => {
                proof {
                    assert(mime@.skip(0) =~= mime@);
                }
                match accept_target_chars(&mime) {
                    Some(t) => Some(TiiAcceptQualityMimeType { value: t, q: TiiQValue(1000) }),
                    None => None,
                }
            },
        }
    }

    /// The items sorted by descending quality value; items of equal quality keep their order.
    fn sort_by_quality(data: &Vec<Self>) -> (r: Vec<Self>)
        ensures
            accept_views(r@) == by_quality(accept_views(data@), 1001),
    {
        let ghost items = accept_views(data@);
        let mut r: Vec<Self> = Vec::new();
        let mut k: u16 = 0;
        while k < 1001
            invariant
                k <= 1001,
                items == accept_views(data@),
                accept_views(r@) == by_quality(items, k as nat),
            decreases 1001 - k,
        {
            let q: u16 = 1000 - k;
            let ghost start = r@;
            let mut i: usize = 0;
            while i < data.len()
                invariant
                    i <= data@.len(),
                    k < 1001,
                    q == 1000 - k,
                    items == accept_views(data@),
                    accept_views(r@) == accept_views(start) + with_quality(items.take(i as int), q as int),
                decreases data@.len() - i,
            {
                assert(items.take(i + 1).drop_last() =~= items.take(i as int));
                assert(items.take(i + 1).last() == data@[i as int]@);
                if data[i].qvalue().as_u16() == q {
                    let ghost before = r@;
                    r.push(data[i].duplicate());
                    assert(accept_views(r@) =~= accept_views(before).push(data@[i as int]@));
                }
                i = i + 1;
            }
            assert(items.take(data@.len() as int) =~= items);
            k = k + 1;
        }
        r
    }

    /// Serializes accept mime types into a header value that `parse` accepts.
    pub fn elements_to_header_value(elements: &Vec<Self>) -> (r: String)
        ensures
            r@ == accept_header_text(accept_views(elements@)),
    {
        let mut buffer = String::new();
        let mut i: usize = 0;
        while i < elements.len()
            invariant
                i <= elements@.len(),
                buffer@ == accept_header_text(accept_views(elements@).take(i as int)),
            decreases elements@.len() - i,
        {
            let ghost before = accept_views(elements@).take(i as int);
            assert(accept_views(elements@).take(i + 1).drop_last() =~= before);
            if buffer.unicode_len() != 0 {
                push_char(&mut buffer, ',');
            }
            elements[i].push_text(&mut buffer);
            proof {
                let b = accept_header_text(before);
                let it = elements@[i as int]@;
                assert(accept_views(elements@).take(i + 1).last() == it);
                if b.len() == 0 {
                    assert(buffer@ =~= accept_item_text(it));
                } else {
                    assert(buffer@ =~= b + ","@ + accept_item_text(it)) by {
                        reveal_strlit(",");
                    }
                }
            }
            i = i + 1;
        }
        assert(accept_views(elements@).take(elements@.len() as int) =~= accept_views(elements@));
        buffer
    }

    /// Appends the text of this item.
    fn push_text(&self, buf: &mut String)
        ensures
            final(buf)@ == old(buf)@ + accept_item_text(self@),
    {
        push_accept_target(buf, &self.value);
        if self.q.as_u16() != 1000 {
            push_str(buf, ";q=");
            let t = self.q.as_str();
            push_str(buf, t.as_str());
            assert(final(buf)@ =~= old(buf)@ + accept_item_text(self@));
        }
    }

    /// The accept mime type without quality value.
    pub fn get_type(&self) -> (r: &TiiAcceptMimeType)
        ensures
            r@ == self@.0,
    {
        &self.value
    }

    /// The quality value.
    pub fn qvalue(&self) -> (r: TiiQValue)
        ensures
            r@ == self@.1,
    {
        self.q
    }

    /// Is this "*/*"?
    pub fn is_wildcard(&self) -> (r: bool)
        ensures
            r == self@.0 is Wildcard,
    {
        matches!(self.value, TiiAcceptMimeType::Wildcard)
    }

    /// Is this a group wildcard such as "video/*"?
    pub fn is_group_wildcard(&self) -> (r: bool)
        ensures
            r == self@.0 is GroupWildcard,
    {
        matches!(self.value, TiiAcceptMimeType::GroupWildcard(_))
    }

    /// Is this a mime type without wildcard such as "video/mp4"?
    pub fn is_specific(&self) -> (r: bool)
        ensures
            r == self@.0 is Specific,
    {
        matches!(self.value, TiiAcceptMimeType::Specific(_))
    }

    /// The mime type; None for either kind of wildcard.
    pub fn mime(&self) -> (r: Option<&TiiMimeType>)
        ensures
            r matches Some(m) ==> self@.0 == TiiAcceptMimeType::Specific(m@),
            r is None ==> !(self@.0 is Specific),
    {
        match &self.value {
            TiiAcceptMimeType::Specific(mime) => Some(mime),
            _ => None,
        }
    }

    /// The mime group; None for "*/*".
    pub fn group(&self) -> (r: Option<&TiiMimeGroup>)
        ensures
            r matches Some(g) ==> (match self@.0 {
                TiiAcceptMimeType::Specific(m) => g@ == mime_group_spec(m),
                TiiAcceptMimeType::GroupWildcard(h) => g@ == h,
                TiiAcceptMimeType::Wildcard => false,
            }),
            r is None ==> self@.0 is Wildcard,
    {
        match &self.value {
            TiiAcceptMimeType::Specific(mime) => Some(mime.mime_group()),
            TiiAcceptMimeType::GroupWildcard(group) => Some(group),
            _ => None,
        }
    }

    /// "*/*" with the given quality value.
    pub fn wildcard(q: TiiQValue) -> (r: TiiAcceptQualityMimeType)
        ensures
            r@ == (TiiAcceptMimeType::<Seq<char>>::Wildcard, q@),
    {
        TiiAcceptQualityMimeType { value: TiiAcceptMimeType::Wildcard, q }
    }

    /// "group/*" with the given quality value.
    pub fn from_group(group: TiiMimeGroup, q: TiiQValue) -> (r: TiiAcceptQualityMimeType)
        ensures
            r@ == (TiiAcceptMimeType::GroupWildcard(group@), q@),
    {
        TiiAcceptQualityMimeType { value: TiiAcceptMimeType::GroupWildcard(group), q }
    }

    /// "group/type" with the given quality value.
    pub fn from_mime(mime: TiiMimeType, q: TiiQValue) -> (r: TiiAcceptQualityMimeType)
        ensures
            r@ == (TiiAcceptMimeType::Specific(mime@), q@),
    {
        TiiAcceptQualityMimeType { value: TiiAcceptMimeType::Specific(mime), q }
    }

    /// A copy of this item.
    pub fn duplicate(&self) -> (r: Self)
        ensures
            r@ == self@,
    {
        TiiAcceptQualityMimeType { value: self.value.duplicate(), q: self.q }
    }
}

impl Default for TiiAcceptQualityMimeType {
    /// "*/*" with quality 1.0.
    fn default() -> (r: Self)
        ensures
            r@ == (TiiAcceptMimeType::<Seq<char>>::Wildcard, 1000u16),
    {
        TiiAcceptQualityMimeType { value: TiiAcceptMimeType::Wildcard, q: TiiQValue(1000) }
    }
}


/// Reading back the text of a well known mime group gives the group again.
pub proof fn lemma_group_text_round_trip(g: TiiMimeGroup<Seq<char>>)
    requires
        !(g is Other),
    ensures
        mime_group_of(group_text(g)) == Some(g),
{
    reveal_strlit("font");
    reveal_strlit("application");
    reveal_strlit("image");
    reveal_strlit("video");
    reveal_strlit("audio");
    reveal_strlit("text");
    let t = group_text(g);
    assert forall|j: int| 0 <= j < t.len() implies t[j] != '/' && header_char_ok(#[trigger] t[j]) by {}
    crate::text::lemma_index_of(t, '/', -1);
    assert(group_part(t) == t);
    assert("font"@[0] == 'f' && "application"@[0] == 'a' && "image"@[0] == 'i' && "video"@[0] == 'v'
        && "audio"@[0] == 'a' && "text"@[0] == 't');
    assert("application"@.len() != "audio"@.len());
}


/// Reading back the text of any other mime group gives it again, where that
/// text is a valid group: no "/", only permitted characters, and none of the
/// well known names.
pub proof fn lemma_other_group_round_trip(g: Seq<char>)
    requires
        !g.contains('/'),
        all_header_chars(g),
        g != "font"@ && g != "application"@ && g != "image"@ && g != "video"@ && g != "audio"@ && g
            != "text"@,
    ensures
        mime_group_of(group_text(TiiMimeGroup::Other(g))) == Some(TiiMimeGroup::Other(g)),
{
    assert forall|j: int| 0 <= j < g.len() implies g[j] != '/' by {
        if g[j] == '/' {
            assert(g.contains('/'));
        }
    }
    crate::text::lemma_index_of(g, '/', -1);
}


/// Reading back the extension of a mime type that has an extension no other
/// well known mime type shares gives the mime type again.
#[verifier::spinoff_prover]
#[verifier::rlimit(100)]
pub proof fn lemma_extension_round_trip(m: TiiMimeType<Seq<char>>)
    requires
        !(m is Video3gpp2 || m is Audio3gpp2 || m is Video3gpp || m is Audio3gpp || m is Other),
    ensures
        mime_of_extension(mime_extension(m)) == m,
{
    reveal_strlit("css");
    reveal_strlit("html");
    reveal_strlit("htm");
    reveal_strlit("js");
    reveal_strlit("mjs");
    reveal_strlit("txt");
    reveal_strlit("bmp");
    reveal_strlit("gif");
    reveal_strlit("jpeg");
    reveal_strlit("jpg");
    reveal_strlit("png");
    reveal_strlit("webp");
    reveal_strlit("svg");
    reveal_strlit("ico");
    reveal_strlit("json");
    reveal_strlit("pdf");
    reveal_strlit("zip");
    reveal_strlit("mp4");
    reveal_strlit("ogv");
    reveal_strlit("webm");
    reveal_strlit("ttf");
    reveal_strlit("otf");
    reveal_strlit("woff");
    reveal_strlit("woff2");
    reveal_strlit("abw");
    reveal_strlit("arc");
    reveal_strlit("azw");
    reveal_strlit("bz");
    reveal_strlit("bz2");
    reveal_strlit("cda");
    reveal_strlit("csh");
    reveal_strlit("doc");
    reveal_strlit("docx");
    reveal_strlit("eot");
    reveal_strlit("epub");
    reveal_strlit("gz");
    reveal_strlit("jar");
    reveal_strlit("class");
    reveal_strlit("bin");
    reveal_strlit("jsonld");
    reveal_strlit("mpkg");
    reveal_strlit("odp");
    reveal_strlit("ods");
    reveal_strlit("odt");
    reveal_strlit("ogx");
    reveal_strlit("php");
    reveal_strlit("ppt");
    reveal_strlit("pptx");
    reveal_strlit("rar");
    reveal_strlit("rtf");
    reveal_strlit("sh");
    reveal_strlit("tar");
    reveal_strlit("vsd");
    reveal_strlit("xhtml");
    reveal_strlit("xls");
    reveal_strlit("xlsx");
    reveal_strlit("xml");
    reveal_strlit("xul");
    reveal_strlit("dcm");
    reveal_strlit("7z");
    reveal_strlit("wasm");
    reveal_strlit("avi");
    reveal_strlit("mpeg");
    reveal_strlit("ts");
    reveal_strlit("3gp");
    reveal_strlit("3g2");
    reveal_strlit("avif");
    reveal_strlit("apng");
    reveal_strlit("tif");
    reveal_strlit("aac");
    reveal_strlit("mid");
    reveal_strlit("mp3");
    reveal_strlit("oga");
    reveal_strlit("wav");
    reveal_strlit("weba");
    reveal_strlit("csv");
    reveal_strlit("cal");
    reveal_strlit("yaml");
    reveal_strlit("yml");
    reveal_strlit("lua");
    reveal_strlit("luac");
    reveal_strlit("xz");
    assert("css"@[0] == 'c' && "css"@[1] == 's' && "css"@[2] == 's');
    assert("html"@[0] == 'h' && "html"@[1] == 't' && "html"@[2] == 'm' && "html"@[3] == 'l');
    assert("htm"@[0] == 'h' && "htm"@[1] == 't' && "htm"@[2] == 'm');
    assert("js"@[0] == 'j' && "js"@[1] == 's');
    assert("mjs"@[0] == 'm' && "mjs"@[1] == 'j' && "mjs"@[2] == 's');
    assert("txt"@[0] == 't' && "txt"@[1] == 'x' && "txt"@[2] == 't');
    assert("bmp"@[0] == 'b' && "bmp"@[1] == 'm' && "bmp"@[2] == 'p');
    assert("gif"@[0] == 'g' && "gif"@[1] == 'i' && "gif"@[2] == 'f');
    assert("jpeg"@[0] == 'j' && "jpeg"@[1] == 'p' && "jpeg"@[2] == 'e' && "jpeg"@[3] == 'g');
    assert("jpg"@[0] == 'j' && "jpg"@[1] == 'p' && "jpg"@[2] == 'g');
    assert("png"@[0] == 'p' && "png"@[1] == 'n' && "png"@[2] == 'g');
    assert("webp"@[0] == 'w' && "webp"@[1] == 'e' && "webp"@[2] == 'b' && "webp"@[3] == 'p');
    assert("svg"@[0] == 's' && "svg"@[1] == 'v' && "svg"@[2] == 'g');
    assert("ico"@[0] == 'i' && "ico"@[1] == 'c' && "ico"@[2] == 'o');
    assert("json"@[0] == 'j' && "json"@[1] == 's' && "json"@[2] == 'o' && "json"@[3] == 'n');
    assert("pdf"@[0] == 'p' && "pdf"@[1] == 'd' && "pdf"@[2] == 'f');
    assert("zip"@[0] == 'z' && "zip"@[1] == 'i' && "zip"@[2] == 'p');
    assert("mp4"@[0] == 'm' && "mp4"@[1] == 'p' && "mp4"@[2] == '4');
    assert("ogv"@[0] == 'o' && "ogv"@[1] == 'g' && "ogv"@[2] == 'v');
    assert("webm"@[0] == 'w' && "webm"@[1] == 'e' && "webm"@[2] == 'b' && "webm"@[3] == 'm');
    assert("ttf"@[0] == 't' && "ttf"@[1] == 't' && "ttf"@[2] == 'f');
    assert("otf"@[0] == 'o' && "otf"@[1] == 't' && "otf"@[2] == 'f');
    assert("woff"@[0] == 'w' && "woff"@[1] == 'o' && "woff"@[2] == 'f' && "woff"@[3] == 'f');
    assert("woff2"@[0] == 'w' && "woff2"@[1] == 'o' && "woff2"@[2] == 'f' && "woff2"@[3] == 'f' && "woff2"@[4] == '2');
    assert("abw"@[0] == 'a' && "abw"@[1] == 'b' && "abw"@[2] == 'w');
    assert("arc"@[0] == 'a' && "arc"@[1] == 'r' && "arc"@[2] == 'c');
    assert("azw"@[0] == 'a' && "azw"@[1] == 'z' && "azw"@[2] == 'w');
    assert("bz"@[0] == 'b' && "bz"@[1] == 'z');
    assert("bz2"@[0] == 'b' && "bz2"@[1] == 'z' && "bz2"@[2] == '2');
    assert("cda"@[0] == 'c' && "cda"@[1] == 'd' && "cda"@[2] == 'a');
    assert("csh"@[0] == 'c' && "csh"@[1] == 's' && "csh"@[2] == 'h');
    assert("doc"@[0] == 'd' && "doc"@[1] == 'o' && "doc"@[2] == 'c');
    assert("docx"@[0] == 'd' && "docx"@[1] == 'o' && "docx"@[2] == 'c' && "docx"@[3] == 'x');
    assert("eot"@[0] == 'e' && "eot"@[1] == 'o' && "eot"@[2] == 't');
    assert("epub"@[0] == 'e' && "epub"@[1] == 'p' && "epub"@[2] == 'u' && "epub"@[3] == 'b');
    assert("gz"@[0] == 'g' && "gz"@[1] == 'z');
    assert("jar"@[0] == 'j' && "jar"@[1] == 'a' && "jar"@[2] == 'r');
    assert("class"@[0] == 'c' && "class"@[1] == 'l' && "class"@[2] == 'a' && "class"@[3] == 's' && "class"@[4] == 's');
    assert("bin"@[0] == 'b' && "bin"@[1] == 'i' && "bin"@[2] == 'n');
    assert("jsonld"@[0] == 'j' && "jsonld"@[1] == 's' && "jsonld"@[2] == 'o' && "jsonld"@[3] == 'n' && "jsonld"@[4] == 'l' && "jsonld"@[5] == 'd');
    assert("mpkg"@[0] == 'm' && "mpkg"@[1] == 'p' && "mpkg"@[2] == 'k' && "mpkg"@[3] == 'g');
    assert("odp"@[0] == 'o' && "odp"@[1] == 'd' && "odp"@[2] == 'p');
    assert("ods"@[0] == 'o' && "ods"@[1] == 'd' && "ods"@[2] == 's');
    assert("odt"@[0] == 'o' && "odt"@[1] == 'd' && "odt"@[2] == 't');
    assert("ogx"@[0] == 'o' && "ogx"@[1] == 'g' && "ogx"@[2] == 'x');
    assert("php"@[0] == 'p' && "php"@[1] == 'h' && "php"@[2] == 'p');
    assert("ppt"@[0] == 'p' && "ppt"@[1] == 'p' && "ppt"@[2] == 't');
    assert("pptx"@[0] == 'p' && "pptx"@[1] == 'p' && "pptx"@[2] == 't' && "pptx"@[3] == 'x');
    assert("rar"@[0] == 'r' && "rar"@[1] == 'a' && "rar"@[2] == 'r');
    assert("rtf"@[0] == 'r' && "rtf"@[1] == 't' && "rtf"@[2] == 'f');
    assert("sh"@[0] == 's' && "sh"@[1] == 'h');
    assert("tar"@[0] == 't' && "tar"@[1] == 'a' && "tar"@[2] == 'r');
    assert("vsd"@[0] == 'v' && "vsd"@[1] == 's' && "vsd"@[2] == 'd');
    assert("xhtml"@[0] == 'x' && "xhtml"@[1] == 'h' && "xhtml"@[2] == 't' && "xhtml"@[3] == 'm' && "xhtml"@[4] == 'l');
    assert("xls"@[0] == 'x' && "xls"@[1] == 'l' && "xls"@[2] == 's');
    assert("xlsx"@[0] == 'x' && "xlsx"@[1] == 'l' && "xlsx"@[2] == 's' && "xlsx"@[3] == 'x');
    assert("xml"@[0] == 'x' && "xml"@[1] == 'm' && "xml"@[2] == 'l');
    assert("xul"@[0] == 'x' && "xul"@[1] == 'u' && "xul"@[2] == 'l');
    assert("dcm"@[0] == 'd' && "dcm"@[1] == 'c' && "dcm"@[2] == 'm');
    assert("7z"@[0] == '7' && "7z"@[1] == 'z');
    assert("wasm"@[0] == 'w' && "wasm"@[1] == 'a' && "wasm"@[2] == 's' && "wasm"@[3] == 'm');
    assert("avi"@[0] == 'a' && "avi"@[1] == 'v' && "avi"@[2] == 'i');
    assert("mpeg"@[0] == 'm' && "mpeg"@[1] == 'p' && "mpeg"@[2] == 'e' && "mpeg"@[3] == 'g');
    assert("ts"@[0] == 't' && "ts"@[1] == 's');
    assert("3gp"@[0] == '3' && "3gp"@[1] == 'g' && "3gp"@[2] == 'p');
    assert("3g2"@[0] == '3' && "3g2"@[1] == 'g' && "3g2"@[2] == '2');
    assert("avif"@[0] == 'a' && "avif"@[1] == 'v' && "avif"@[2] == 'i' && "avif"@[3] == 'f');
    assert("apng"@[0] == 'a' && "apng"@[1] == 'p' && "apng"@[2] == 'n' && "apng"@[3] == 'g');
    assert("tif"@[0] == 't' && "tif"@[1] == 'i' && "tif"@[2] == 'f');
    assert("aac"@[0] == 'a' && "aac"@[1] == 'a' && "aac"@[2] == 'c');
    assert("mid"@[0] == 'm' && "mid"@[1] == 'i' && "mid"@[2] == 'd');
    assert("mp3"@[0] == 'm' && "mp3"@[1] == 'p' && "mp3"@[2] == '3');
    assert("oga"@[0] == 'o' && "oga"@[1] == 'g' && "oga"@[2] == 'a');
    assert("wav"@[0] == 'w' && "wav"@[1] == 'a' && "wav"@[2] == 'v');
    assert("weba"@[0] == 'w' && "weba"@[1] == 'e' && "weba"@[2] == 'b' && "weba"@[3] == 'a');
    assert("csv"@[0] == 'c' && "csv"@[1] == 's' && "csv"@[2] == 'v');
    assert("cal"@[0] == 'c' && "cal"@[1] == 'a' && "cal"@[2] == 'l');
    assert("yaml"@[0] == 'y' && "yaml"@[1] == 'a' && "yaml"@[2] == 'm' && "yaml"@[3] == 'l');
    assert("yml"@[0] == 'y' && "yml"@[1] == 'm' && "yml"@[2] == 'l');
    assert("lua"@[0] == 'l' && "lua"@[1] == 'u' && "lua"@[2] == 'a');
    assert("luac"@[0] == 'l' && "luac"@[1] == 'u' && "luac"@[2] == 'a' && "luac"@[3] == 'c');
    assert("xz"@[0] == 'x' && "xz"@[1] == 'z');
    match m {
        TiiMimeType::FontTtf => assert(lower_seq("ttf"@) =~= "ttf"@),
        TiiMimeType::FontOtf => assert(lower_seq("otf"@) =~= "otf"@),
        TiiMimeType::FontWoff => assert(lower_seq("woff"@) =~= "woff"@),
        TiiMimeType::FontWoff2 => assert(lower_seq("woff2"@) =~= "woff2"@),
        TiiMimeType::ApplicationAbiWord => assert(lower_seq("abw"@) =~= "abw"@),
        TiiMimeType::ApplicationFreeArc => assert(lower_seq("arc"@) =~= "arc"@),
        TiiMimeType::ApplicationAmazonEbook => assert(lower_seq("azw"@) =~= "azw"@),
        TiiMimeType::ApplicationBzip => assert(lower_seq("bz"@) =~= "bz"@),
        TiiMimeType::ApplicationBzip2 => assert(lower_seq("bz2"@) =~= "bz2"@),
        TiiMimeType::ApplicationCDAudio => assert(lower_seq("cda"@) =~= "cda"@),
        TiiMimeType::ApplicationCShell => assert(lower_seq("csh"@) =~= "csh"@),
        TiiMimeType::ApplicationMicrosoftWord => assert(lower_seq("doc"@) =~= "doc"@),
        TiiMimeType::ApplicationMicrosoftWordXml => assert(lower_seq("docx"@) =~= "docx"@),
        TiiMimeType::ApplicationMicrosoftFont => assert(lower_seq("eot"@) =~= "eot"@),
        TiiMimeType::ApplicationEpub => assert(lower_seq("epub"@) =~= "epub"@),
        TiiMimeType::ApplicationGzip => assert(lower_seq("gz"@) =~= "gz"@),
        TiiMimeType::ApplicationJar => assert(lower_seq("jar"@) =~= "jar"@),
        TiiMimeType::ApplicationJavaClass => assert(lower_seq("class"@) =~= "class"@),
        TiiMimeType::ApplicationOctetStream => assert(lower_seq("bin"@) =~= "bin"@),
        TiiMimeType::ApplicationJson => assert(lower_seq("json"@) =~= "json"@),
        TiiMimeType::ApplicationJsonLd => assert(lower_seq("jsonld"@) =~= "jsonld"@),
        TiiMimeType::ApplicationPdf => assert(lower_seq("pdf"@) =~= "pdf"@),
        TiiMimeType::ApplicationZip => assert(lower_seq("zip"@) =~= "zip"@),
        TiiMimeType::ApplicationAppleInstallerPackage => assert(lower_seq("mpkg"@) =~= "mpkg"@),
        TiiMimeType::ApplicationOpenDocumentPresentation => assert(lower_seq("odp"@) =~= "odp"@),
        TiiMimeType::ApplicationOpenDocumentSpreadsheet => assert(lower_seq("ods"@) =~= "ods"@),
        TiiMimeType::ApplicationOpenDocumentText => assert(lower_seq("odt"@) =~= "odt"@),
        TiiMimeType::ApplicationOgg => assert(lower_seq("ogx"@) =~= "ogx"@),
        TiiMimeType::ApplicationPhp => assert(lower_seq("php"@) =~= "php"@),
        TiiMimeType::ApplicationMicrosoftPowerpoint => assert(lower_seq("ppt"@) =~= "ppt"@),
        TiiMimeType::ApplicationMicrosoftPowerpointXml => assert(lower_seq("pptx"@) =~= "pptx"@),
        TiiMimeType::ApplicationRar => assert(lower_seq("rar"@) =~= "rar"@),
        TiiMimeType::ApplicationRichText => assert(lower_seq("rtf"@) =~= "rtf"@),
        TiiMimeType::ApplicationBourneShell => assert(lower_seq("sh"@) =~= "sh"@),
        TiiMimeType::ApplicationTapeArchive => assert(lower_seq("tar"@) =~= "tar"@),
        TiiMimeType::ApplicationMicrosoftVisio => assert(lower_seq("vsd"@) =~= "vsd"@),
        TiiMimeType::ApplicationXHtml => assert(lower_seq("xhtml"@) =~= "xhtml"@),
        TiiMimeType::ApplicationMicrosoftExcel => assert(lower_seq("xls"@) =~= "xls"@),
        TiiMimeType::ApplicationMicrosoftExcelXml => assert(lower_seq("xlsx"@) =~= "xlsx"@),
        TiiMimeType::ApplicationXml => assert(lower_seq("xml"@) =~= "xml"@),
        TiiMimeType::ApplicationXul => assert(lower_seq("xul"@) =~= "xul"@),
        TiiMimeType::ApplicationDicom => assert(lower_seq("dcm"@) =~= "dcm"@),
        TiiMimeType::Application7Zip => assert(lower_seq("7z"@) =~= "7z"@),
        TiiMimeType::ApplicationWasm => assert(lower_seq("wasm"@) =~= "wasm"@),
        TiiMimeType::VideoMp4 => assert(lower_seq("mp4"@) =~= "mp4"@),
        TiiMimeType::VideoOgg => assert(lower_seq("ogv"@) =~= "ogv"@),
        TiiMimeType::VideoWebm => assert(lower_seq("webm"@) =~= "webm"@),
        TiiMimeType::VideoAvi => assert(lower_seq("avi"@) =~= "avi"@),
        TiiMimeType::VideoMpeg => assert(lower_seq("mpeg"@) =~= "mpeg"@),
        TiiMimeType::VideoMpegTransportStream => assert(lower_seq("ts"@) =~= "ts"@),
        TiiMimeType::ImageBmp => assert(lower_seq("bmp"@) =~= "bmp"@),
        TiiMimeType::ImageGif => assert(lower_seq("gif"@) =~= "gif"@),
        TiiMimeType::ImageJpeg => assert(lower_seq("jpg"@) =~= "jpg"@),
        TiiMimeType::ImageAvif => assert(lower_seq("avif"@) =~= "avif"@),
        TiiMimeType::ImagePng => assert(lower_seq("png"@) =~= "png"@),
        TiiMimeType::ImageApng => assert(lower_seq("apng"@) =~= "apng"@),
        TiiMimeType::ImageWebp => assert(lower_seq("webp"@) =~= "webp"@),
        TiiMimeType::ImageSvg => assert(lower_seq("svg"@) =~= "svg"@),
        TiiMimeType::ImageIcon => assert(lower_seq("ico"@) =~= "ico"@),
        TiiMimeType::ImageTiff => assert(lower_seq("tif"@) =~= "tif"@),
        TiiMimeType::AudioAac => assert(lower_seq("aac"@) =~= "aac"@),
        TiiMimeType::AudioMidi => assert(lower_seq("mid"@) =~= "mid"@),
        TiiMimeType::AudioMpeg => assert(lower_seq("mp3"@) =~= "mp3"@),
        TiiMimeType::AudioOgg => assert(lower_seq("oga"@) =~= "oga"@),
        TiiMimeType::AudioWaveform => assert(lower_seq("wav"@) =~= "wav"@),
        TiiMimeType::AudioWebm => assert(lower_seq("weba"@) =~= "weba"@),
        TiiMimeType::TextCss => assert(lower_seq("css"@) =~= "css"@),
        TiiMimeType::TextHtml => assert(lower_seq("html"@) =~= "html"@),
        TiiMimeType::TextJavaScript => assert(lower_seq("js"@) =~= "js"@),
        TiiMimeType::TextPlain => assert(lower_seq("txt"@) =~= "txt"@),
        TiiMimeType::TextCsv => assert(lower_seq("csv"@) =~= "csv"@),
        TiiMimeType::TextCalendar => assert(lower_seq("cal"@) =~= "cal"@),
        TiiMimeType::ApplicationYaml => assert(lower_seq("yaml"@) =~= "yaml"@),
        TiiMimeType::TextLua => assert(lower_seq("lua"@) =~= "lua"@),
        TiiMimeType::ApplicationLuaBytecode => assert(lower_seq("luac"@) =~= "luac"@),
        TiiMimeType::ApplicationXz => assert(lower_seq("xz"@) =~= "xz"@),
        _ => {},
    }
}


/// Reading back the text of a well known mime type gives the mime type again.
#[verifier::spinoff_prover]
#[verifier::rlimit(100)]
pub proof fn lemma_mime_text_round_trip(m: TiiMimeType<Seq<char>>)
    requires
        !(m is Other),
    ensures
        mime_type_of(mime_text(m)) == Some(m),
{
    reveal_strlit("text/css");
    reveal_strlit("text/html");
    reveal_strlit("text/javascript");
    reveal_strlit("text/plain");
    reveal_strlit("image/bmp");
    reveal_strlit("image/gif");
    reveal_strlit("image/jpeg");
    reveal_strlit("image/png");
    reveal_strlit("image/webp");
    reveal_strlit("image/svg+xml");
    reveal_strlit("image/vnd.microsoft.icon");
    reveal_strlit("application/octet-stream");
    reveal_strlit("application/json");
    reveal_strlit("application/pdf");
    reveal_strlit("application/zip");
    reveal_strlit("video/mp4");
    reveal_strlit("video/ogg");
    reveal_strlit("video/webm");
    reveal_strlit("font/ttf");
    reveal_strlit("font/otf");
    reveal_strlit("font/woff");
    reveal_strlit("font/woff2");
    reveal_strlit("application/x-abiword");
    reveal_strlit("application/x-freearc");
    reveal_strlit("application/vnd.amazon.ebook");
    reveal_strlit("application/x-bzip");
    reveal_strlit("application/x-bzip2");
    reveal_strlit("application/x-cdf");
    reveal_strlit("application/x-csh");
    reveal_strlit("application/msword");
    reveal_strlit("application/vnd.openxmlformats-officedocument.wordprocessingml.document");
    reveal_strlit("application/vnd.ms-fontobject");
    reveal_strlit("application/epub+zip");
    reveal_strlit("application/gzip");
    reveal_strlit("application/java-archive");
    reveal_strlit("application/x-java-class");
    reveal_strlit("application/ld+json");
    reveal_strlit("application/vnd.apple.installer+xml");
    reveal_strlit("application/vnd.oasis.opendocument.presentation");
    reveal_strlit("application/vnd.oasis.opendocument.spreadsheet");
    reveal_strlit("application/vnd.oasis.opendocument.text");
    reveal_strlit("application/ogg");
    reveal_strlit("application/x-httpd-php");
    reveal_strlit("application/vnd.ms-powerpoint");
    reveal_strlit("application/vnd.openxmlformats-officedocument.presentationml.presentation");
    reveal_strlit("application/vnd.rar");
    reveal_strlit("application/rtf");
    reveal_strlit("application/x-sh");
    reveal_strlit("application/x-tar");
    reveal_strlit("application/vnd.visio");
    reveal_strlit("application/xhtml+xml");
    reveal_strlit("application/vnd.ms-excel");
    reveal_strlit("application/vnd.openxmlformats-officedocument.spreadsheetml.sheet");
    reveal_strlit("application/xml");
    reveal_strlit("application/vnd.mozilla.xul+xml");
    reveal_strlit("application/dicom");
    reveal_strlit("application/x-7z-compressed");
    reveal_strlit("application/wasm");
    reveal_strlit("video/x-msvideo");
    reveal_strlit("video/mpeg");
    reveal_strlit("video/mp2t");
    reveal_strlit("video/3gpp");
    reveal_strlit("video/3gpp2");
    reveal_strlit("audio/3gpp");
    reveal_strlit("audio/3gpp2");
    reveal_strlit("image/avif");
    reveal_strlit("image/apng");
    reveal_strlit("image/tiff");
    reveal_strlit("audio/aac");
    reveal_strlit("audio/midi");
    reveal_strlit("audio/mpeg");
    reveal_strlit("audio/ogg");
    reveal_strlit("audio/wav");
    reveal_strlit("audio/webm");
    reveal_strlit("text/csv");
    reveal_strlit("text/calendar");
    reveal_strlit("application/yaml");
    reveal_strlit("text/x-lua");
    reveal_strlit("application/x-lua-bytecode");
    reveal_strlit("application/x-xz");
    assert("text/css"@.len() == 8 && "text/css"@[0] == 't' && "text/css"@[1] == 'e' && "text/css"@[2] == 'x' && "text/css"@[3] == 't' && "text/css"@[4] == '/' && "text/css"@[5] == 'c' && "text/css"@[6] == 's' && "text/css"@[7] == 's');
    assert("text/html"@.len() == 9 && "text/html"@[0] == 't' && "text/html"@[1] == 'e' && "text/html"@[2] == 'x' && "text/html"@[3] == 't' && "text/html"@[4] == '/' && "text/html"@[5] == 'h' && "text/html"@[6] == 't' && "text/html"@[7] == 'm' && "text/html"@[8] == 'l');
    assert("text/javascript"@.len() == 15 && "text/javascript"@[0] == 't' && "text/javascript"@[1] == 'e' && "text/javascript"@[2] == 'x' && "text/javascript"@[3] == 't' && "text/javascript"@[4] == '/' && "text/javascript"@[5] == 'j' && "text/javascript"@[6] == 'a' && "text/javascript"@[7] == 'v' && "text/javascript"@[8] == 'a' && "text/javascript"@[9] == 's' && "text/javascript"@[10] == 'c' && "text/javascript"@[11] == 'r' && "text/javascript"@[12] == 'i' && "text/javascript"@[13] == 'p' && "text/javascript"@[14] == 't');
    assert("text/plain"@.len() == 10 && "text/plain"@[0] == 't' && "text/plain"@[1] == 'e' && "text/plain"@[2] == 'x' && "text/plain"@[3] == 't' && "text/plain"@[4] == '/' && "text/plain"@[5] == 'p' && "text/plain"@[6] == 'l' && "text/plain"@[7] == 'a' && "text/plain"@[8] == 'i' && "text/plain"@[9] == 'n');
    assert("image/bmp"@.len() == 9 && "image/bmp"@[0] == 'i' && "image/bmp"@[1] == 'm' && "image/bmp"@[2] == 'a' && "image/bmp"@[3] == 'g' && "image/bmp"@[4] == 'e' && "image/bmp"@[5] == '/' && "image/bmp"@[6] == 'b' && "image/bmp"@[7] == 'm' && "image/bmp"@[8] == 'p');
    assert("image/gif"@.len() == 9 && "image/gif"@[0] == 'i' && "image/gif"@[1] == 'm' && "image/gif"@[2] == 'a' && "image/gif"@[3] == 'g' && "image/gif"@[4] == 'e' && "image/gif"@[5] == '/' && "image/gif"@[6] == 'g' && "image/gif"@[7] == 'i' && "image/gif"@[8] == 'f');
    assert("image/jpeg"@.len() == 10 && "image/jpeg"@[0] == 'i' && "image/jpeg"@[1] == 'm' && "image/jpeg"@[2] == 'a' && "image/jpeg"@[3] == 'g' && "image/jpeg"@[4] == 'e' && "image/jpeg"@[5] == '/' && "image/jpeg"@[6] == 'j' && "image/jpeg"@[7] == 'p' && "image/jpeg"@[8] == 'e' && "image/jpeg"@[9] == 'g');
    assert("image/png"@.len() == 9 && "image/png"@[0] == 'i' && "image/png"@[1] == 'm' && "image/png"@[2] == 'a' && "image/png"@[3] == 'g' && "image/png"@[4] == 'e' && "image/png"@[5] == '/' && "image/png"@[6] == 'p' && "image/png"@[7] == 'n' && "image/png"@[8] == 'g');
    assert("image/webp"@.len() == 10 && "image/webp"@[0] == 'i' && "image/webp"@[1] == 'm' && "image/webp"@[2] == 'a' && "image/webp"@[3] == 'g' && "image/webp"@[4] == 'e' && "image/webp"@[5] == '/' && "image/webp"@[6] == 'w' && "image/webp"@[7] == 'e' && "image/webp"@[8] == 'b' && "image/webp"@[9] == 'p');
    assert("image/svg+xml"@.len() == 13 && "image/svg+xml"@[0] == 'i' && "image/svg+xml"@[1] == 'm' && "image/svg+xml"@[2] == 'a' && "image/svg+xml"@[3] == 'g' && "image/svg+xml"@[4] == 'e' && "image/svg+xml"@[5] == '/' && "image/svg+xml"@[6] == 's' && "image/svg+xml"@[7] == 'v' && "image/svg+xml"@[8] == 'g' && "image/svg+xml"@[9] == '+' && "image/svg+xml"@[10] == 'x' && "image/svg+xml"@[11] == 'm' && "image/svg+xml"@[12] == 'l');
    assert("image/vnd.microsoft.icon"@.len() == 24 && "image/vnd.microsoft.icon"@[0] == 'i' && "image/vnd.microsoft.icon"@[1] == 'm' && "image/vnd.microsoft.icon"@[2] == 'a' && "image/vnd.microsoft.icon"@[3] == 'g' && "image/vnd.microsoft.icon"@[4] == 'e' && "image/vnd.microsoft.icon"@[5] == '/' && "image/vnd.microsoft.icon"@[6] == 'v' && "image/vnd.microsoft.icon"@[7] == 'n' && "image/vnd.microsoft.icon"@[8] == 'd' && "image/vnd.microsoft.icon"@[9] == '.' && "image/vnd.microsoft.icon"@[10] == 'm' && "image/vnd.microsoft.icon"@[11] == 'i' && "image/vnd.microsoft.icon"@[12] == 'c' && "image/vnd.microsoft.icon"@[13] == 'r' && "image/vnd.microsoft.icon"@[14] == 'o' && "image/vnd.microsoft.icon"@[15] == 's' && "image/vnd.microsoft.icon"@[16] == 'o' && "image/vnd.microsoft.icon"@[17] == 'f' && "image/vnd.microsoft.icon"@[18] == 't' && "image/vnd.microsoft.icon"@[19] == '.' && "image/vnd.microsoft.icon"@[20] == 'i' && "image/vnd.microsoft.icon"@[21] == 'c' && "image/vnd.microsoft.icon"@[22] == 'o' && "image/vnd.microsoft.icon"@[23] == 'n');
    assert("application/octet-stream"@.len() == 24 && "application/octet-stream"@[0] == 'a' && "application/octet-stream"@[1] == 'p' && "application/octet-stream"@[2] == 'p' && "application/octet-stream"@[3] == 'l' && "application/octet-stream"@[4] == 'i' && "application/octet-stream"@[5] == 'c' && "application/octet-stream"@[6] == 'a' && "application/octet-stream"@[7] == 't' && "application/octet-stream"@[8] == 'i' && "application/octet-stream"@[9] == 'o' && "application/octet-stream"@[10] == 'n' && "application/octet-stream"@[11] == '/' && "application/octet-stream"@[12] == 'o' && "application/octet-stream"@[13] == 'c' && "application/octet-stream"@[14] == 't' && "application/octet-stream"@[15] == 'e' && "application/octet-stream"@[16] == 't' && "application/octet-stream"@[17] == '-' && "application/octet-stream"@[18] == 's' && "application/octet-stream"@[19] == 't' && "application/octet-stream"@[20] == 'r' && "application/octet-stream"@[21] == 'e' && "application/octet-stream"@[22] == 'a' && "application/octet-stream"@[23] == 'm');
    assert("application/json"@.len() == 16 && "application/json"@[0] == 'a' && "application/json"@[1] == 'p' && "application/json"@[2] == 'p' && "application/json"@[3] == 'l' && "application/json"@[4] == 'i' && "application/json"@[5] == 'c' && "application/json"@[6] == 'a' && "application/json"@[7] == 't' && "application/json"@[8] == 'i' && "application/json"@[9] == 'o' && "application/json"@[10] == 'n' && "application/json"@[11] == '/' && "application/json"@[12] == 'j' && "application/json"@[13] == 's' && "application/json"@[14] == 'o' && "application/json"@[15] == 'n');
    assert("application/pdf"@.len() == 15 && "application/pdf"@[0] == 'a' && "application/pdf"@[1] == 'p' && "application/pdf"@[2] == 'p' && "application/pdf"@[3] == 'l' && "application/pdf"@[4] == 'i' && "application/pdf"@[5] == 'c' && "application/pdf"@[6] == 'a' && "application/pdf"@[7] == 't' && "application/pdf"@[8] == 'i' && "application/pdf"@[9] == 'o' && "application/pdf"@[10] == 'n' && "application/pdf"@[11] == '/' && "application/pdf"@[12] == 'p' && "application/pdf"@[13] == 'd' && "application/pdf"@[14] == 'f');
    assert("application/zip"@.len() == 15 && "application/zip"@[0] == 'a' && "application/zip"@[1] == 'p' && "application/zip"@[2] == 'p' && "application/zip"@[3] == 'l' && "application/zip"@[4] == 'i' && "application/zip"@[5] == 'c' && "application/zip"@[6] == 'a' && "application/zip"@[7] == 't' && "application/zip"@[8] == 'i' && "application/zip"@[9] == 'o' && "application/zip"@[10] == 'n' && "application/zip"@[11] == '/' && "application/zip"@[12] == 'z' && "application/zip"@[13] == 'i' && "application/zip"@[14] == 'p');
    assert("video/mp4"@.len() == 9 && "video/mp4"@[0] == 'v' && "video/mp4"@[1] == 'i' && "video/mp4"@[2] == 'd' && "video/mp4"@[3] == 'e' && "video/mp4"@[4] == 'o' && "video/mp4"@[5] == '/' && "video/mp4"@[6] == 'm' && "video/mp4"@[7] == 'p' && "video/mp4"@[8] == '4');
    assert("video/ogg"@.len() == 9 && "video/ogg"@[0] == 'v' && "video/ogg"@[1] == 'i' && "video/ogg"@[2] == 'd' && "video/ogg"@[3] == 'e' && "video/ogg"@[4] == 'o' && "video/ogg"@[5] == '/' && "video/ogg"@[6] == 'o' && "video/ogg"@[7] == 'g' && "video/ogg"@[8] == 'g');
    assert("video/webm"@.len() == 10 && "video/webm"@[0] == 'v' && "video/webm"@[1] == 'i' && "video/webm"@[2] == 'd' && "video/webm"@[3] == 'e' && "video/webm"@[4] == 'o' && "video/webm"@[5] == '/' && "video/webm"@[6] == 'w' && "video/webm"@[7] == 'e' && "video/webm"@[8] == 'b' && "video/webm"@[9] == 'm');
    assert("font/ttf"@.len() == 8 && "font/ttf"@[0] == 'f' && "font/ttf"@[1] == 'o' && "font/ttf"@[2] == 'n' && "font/ttf"@[3] == 't' && "font/ttf"@[4] == '/' && "font/ttf"@[5] == 't' && "font/ttf"@[6] == 't' && "font/ttf"@[7] == 'f');
    assert("font/otf"@.len() == 8 && "font/otf"@[0] == 'f' && "font/otf"@[1] == 'o' && "font/otf"@[2] == 'n' && "font/otf"@[3] == 't' && "font/otf"@[4] == '/' && "font/otf"@[5] == 'o' && "font/otf"@[6] == 't' && "font/otf"@[7] == 'f');
    assert("font/woff"@.len() == 9 && "font/woff"@[0] == 'f' && "font/woff"@[1] == 'o' && "font/woff"@[2] == 'n' && "font/woff"@[3] == 't' && "font/woff"@[4] == '/' && "font/woff"@[5] == 'w' && "font/woff"@[6] == 'o' && "font/woff"@[7] == 'f' && "font/woff"@[8] == 'f');
    assert("font/woff2"@.len() == 10 && "font/woff2"@[0] == 'f' && "font/woff2"@[1] == 'o' && "font/woff2"@[2] == 'n' && "font/woff2"@[3] == 't' && "font/woff2"@[4] == '/' && "font/woff2"@[5] == 'w' && "font/woff2"@[6] == 'o' && "font/woff2"@[7] == 'f' && "font/woff2"@[8] == 'f' && "font/woff2"@[9] == '2');
    assert("application/x-abiword"@.len() == 21 && "application/x-abiword"@[0] == 'a' && "application/x-abiword"@[1] == 'p' && "application/x-abiword"@[2] == 'p' && "application/x-abiword"@[3] == 'l' && "application/x-abiword"@[4] == 'i' && "application/x-abiword"@[5] == 'c' && "application/x-abiword"@[6] == 'a' && "application/x-abiword"@[7] == 't' && "application/x-abiword"@[8] == 'i' && "application/x-abiword"@[9] == 'o' && "application/x-abiword"@[10] == 'n' && "application/x-abiword"@[11] == '/' && "application/x-abiword"@[12] == 'x' && "application/x-abiword"@[13] == '-' && "application/x-abiword"@[14] == 'a' && "application/x-abiword"@[15] == 'b' && "application/x-abiword"@[16] == 'i' && "application/x-abiword"@[17] == 'w' && "application/x-abiword"@[18] == 'o' && "application/x-abiword"@[19] == 'r' && "application/x-abiword"@[20] == 'd');
    assert("application/x-freearc"@.len() == 21 && "application/x-freearc"@[0] == 'a' && "application/x-freearc"@[1] == 'p' && "application/x-freearc"@[2] == 'p' && "application/x-freearc"@[3] == 'l' && "application/x-freearc"@[4] == 'i' && "application/x-freearc"@[5] == 'c' && "application/x-freearc"@[6] == 'a' && "application/x-freearc"@[7] == 't' && "application/x-freearc"@[8] == 'i' && "application/x-freearc"@[9] == 'o' && "application/x-freearc"@[10] == 'n' && "application/x-freearc"@[11] == '/' && "application/x-freearc"@[12] == 'x' && "application/x-freearc"@[13] == '-' && "application/x-freearc"@[14] == 'f' && "application/x-freearc"@[15] == 'r' && "application/x-freearc"@[16] == 'e' && "application/x-freearc"@[17] == 'e' && "application/x-freearc"@[18] == 'a' && "application/x-freearc"@[19] == 'r' && "application/x-freearc"@[20] == 'c');
    assert("application/vnd.amazon.ebook"@.len() == 28 && "application/vnd.amazon.ebook"@[0] == 'a' && "application/vnd.amazon.ebook"@[1] == 'p' && "application/vnd.amazon.ebook"@[2] == 'p' && "application/vnd.amazon.ebook"@[3] == 'l' && "application/vnd.amazon.ebook"@[4] == 'i' && "application/vnd.amazon.ebook"@[5] == 'c' && "application/vnd.amazon.ebook"@[6] == 'a' && "application/vnd.amazon.ebook"@[7] == 't' && "application/vnd.amazon.ebook"@[8] == 'i' && "application/vnd.amazon.ebook"@[9] == 'o' && "application/vnd.amazon.ebook"@[10] == 'n' && "application/vnd.amazon.ebook"@[11] == '/' && "application/vnd.amazon.ebook"@[12] == 'v' && "application/vnd.amazon.ebook"@[13] == 'n' && "application/vnd.amazon.ebook"@[14] == 'd' && "application/vnd.amazon.ebook"@[15] == '.' && "application/vnd.amazon.ebook"@[16] == 'a' && "application/vnd.amazon.ebook"@[17] == 'm' && "application/vnd.amazon.ebook"@[18] == 'a' && "application/vnd.amazon.ebook"@[19] == 'z' && "application/vnd.amazon.ebook"@[20] == 'o' && "application/vnd.amazon.ebook"@[21] == 'n' && "application/vnd.amazon.ebook"@[22] == '.' && "application/vnd.amazon.ebook"@[23] == 'e' && "application/vnd.amazon.ebook"@[24] == 'b' && "application/vnd.amazon.ebook"@[25] == 'o' && "application/vnd.amazon.ebook"@[26] == 'o' && "application/vnd.amazon.ebook"@[27] == 'k');
    assert("application/x-bzip"@.len() == 18 && "application/x-bzip"@[0] == 'a' && "application/x-bzip"@[1] == 'p' && "application/x-bzip"@[2] == 'p' && "application/x-bzip"@[3] == 'l' && "application/x-bzip"@[4] == 'i' && "application/x-bzip"@[5] == 'c' && "application/x-bzip"@[6] == 'a' && "application/x-bzip"@[7] == 't' && "application/x-bzip"@[8] == 'i' && "application/x-bzip"@[9] == 'o' && "application/x-bzip"@[10] == 'n' && "application/x-bzip"@[11] == '/' && "application/x-bzip"@[12] == 'x' && "application/x-bzip"@[13] == '-' && "application/x-bzip"@[14] == 'b' && "application/x-bzip"@[15] == 'z' && "application/x-bzip"@[16] == 'i' && "application/x-bzip"@[17] == 'p');
    assert("application/x-bzip2"@.len() == 19 && "application/x-bzip2"@[0] == 'a' && "application/x-bzip2"@[1] == 'p' && "application/x-bzip2"@[2] == 'p' && "application/x-bzip2"@[3] == 'l' && "application/x-bzip2"@[4] == 'i' && "application/x-bzip2"@[5] == 'c' && "application/x-bzip2"@[6] == 'a' && "application/x-bzip2"@[7] == 't' && "application/x-bzip2"@[8] == 'i' && "application/x-bzip2"@[9] == 'o' && "application/x-bzip2"@[10] == 'n' && "application/x-bzip2"@[11] == '/' && "application/x-bzip2"@[12] == 'x' && "application/x-bzip2"@[13] == '-' && "application/x-bzip2"@[14] == 'b' && "application/x-bzip2"@[15] == 'z' && "application/x-bzip2"@[16] == 'i' && "application/x-bzip2"@[17] == 'p' && "application/x-bzip2"@[18] == '2');
    assert("application/x-cdf"@.len() == 17 && "application/x-cdf"@[0] == 'a' && "application/x-cdf"@[1] == 'p' && "application/x-cdf"@[2] == 'p' && "application/x-cdf"@[3] == 'l' && "application/x-cdf"@[4] == 'i' && "application/x-cdf"@[5] == 'c' && "application/x-cdf"@[6] == 'a' && "application/x-cdf"@[7] == 't' && "application/x-cdf"@[8] == 'i' && "application/x-cdf"@[9] == 'o' && "application/x-cdf"@[10] == 'n' && "application/x-cdf"@[11] == '/' && "application/x-cdf"@[12] == 'x' && "application/x-cdf"@[13] == '-' && "application/x-cdf"@[14] == 'c' && "application/x-cdf"@[15] == 'd' && "application/x-cdf"@[16] == 'f');
    assert("application/x-csh"@.len() == 17 && "application/x-csh"@[0] == 'a' && "application/x-csh"@[1] == 'p' && "application/x-csh"@[2] == 'p' && "application/x-csh"@[3] == 'l' && "application/x-csh"@[4] == 'i' && "application/x-csh"@[5] == 'c' && "application/x-csh"@[6] == 'a' && "application/x-csh"@[7] == 't' && "application/x-csh"@[8] == 'i' && "application/x-csh"@[9] == 'o' && "application/x-csh"@[10] == 'n' && "application/x-csh"@[11] == '/' && "application/x-csh"@[12] == 'x' && "application/x-csh"@[13] == '-' && "application/x-csh"@[14] == 'c' && "application/x-csh"@[15] == 's' && "application/x-csh"@[16] == 'h');
    assert("application/msword"@.len() == 18 && "application/msword"@[0] == 'a' && "application/msword"@[1] == 'p' && "application/msword"@[2] == 'p' && "application/msword"@[3] == 'l' && "application/msword"@[4] == 'i' && "application/msword"@[5] == 'c' && "application/msword"@[6] == 'a' && "application/msword"@[7] == 't' && "application/msword"@[8] == 'i' && "application/msword"@[9] == 'o' && "application/msword"@[10] == 'n' && "application/msword"@[11] == '/' && "application/msword"@[12] == 'm' && "application/msword"@[13] == 's' && "application/msword"@[14] == 'w' && "application/msword"@[15] == 'o' && "application/msword"@[16] == 'r' && "application/msword"@[17] == 'd');
    assert("application/vnd.openxmlformats-officedocument.wordprocessingml.document"@.len() == 71 && "application/vnd.openxmlformats-officedocument.wordprocessingml.document"@[0] == 'a' && "application/vnd.openxmlformats-officedocument.wordprocessingml.document"@[1] == 'p' && "application/vnd.openxmlformats-officedocument.wordprocessingml.document"@[2] == 'p' && "application/vnd.openxmlformats-officedocument.wordprocessingml.document"@[3] == 'l' && "application/vnd.openxmlformats-officedocument.wordprocessingml.document"@[4] == 'i' && "application/vnd.openxmlformats-officedocument.wordprocessingml.document"@[5] == 'c' && "application/vnd.openxmlformats-officedocument.wordprocessingml.document"@[6] == 'a' && "application/vnd.openxmlformats-officedocument.wordprocessingml.document"@[7] == 't' && "application/vnd.openxmlformats-officedocument.wordprocessingml.document"@[8] == 'i' && "application/vnd.openxmlformats-officedocument.wordprocessingml.document"@[9] == 'o' && "application/vnd.openxmlformats-officedocument.wordprocessingml.document"@[10] == 'n' && "application/vnd.openxmlformats-officedocument.wordprocessingml.document"@[11] == '/' && "application/vnd.openxmlformats-officedocument.wordprocessingml.document"@[12] == 'v' && "application/vnd.openxmlformats-officedocument.wordprocessingml.document"@[13] == 'n' && "application/vnd.openxmlformats-officedocument.wordprocessingml.document"@[14] == 'd' && "application/vnd.openxmlformats-officedocument.wordprocessingml.document"@[15] == '.' && "application/vnd.openxmlformats-officedocument.wordprocessingml.document"@[16] == 'o' && "application/vnd.openxmlformats-officedocument.wordprocessingml.document"@[17] == 'p' && "application/vnd.openxmlformats-officedocument.wordprocessingml.document"@[18] == 'e' && "application/vnd.openxmlformats-officedocument.wordprocessingml.document"@[19] == 'n' && "application/vnd.openxmlformats-officedocument.wordprocessingml.document"@[20] == 'x' && "application/vnd.openxmlformats-officedocument.wordprocessingml.document"@[21] == 'm' && "application/vnd.openxmlformats-officedocument.wordprocessingml.document"@[22] == 'l' && "application/vnd.openxmlformats-officedocument.wordprocessingml.document"@[23] == 'f' && "application/vnd.openxmlformats-officedocument.wordprocessingml.document"@[24] == 'o' && "application/vnd.openxmlformats-officedocument.wordprocessingml.document"@[25] == 'r' && "application/vnd.openxmlformats-officedocument.wordprocessingml.document"@[26] == 'm' && "application/vnd.openxmlformats-officedocument.wordprocessingml.document"@[27] == 'a' && "application/vnd.openxmlformats-officedocument.wordprocessingml.document"@[28] == 't' && "application/vnd.openxmlformats-officedocument.wordprocessingml.document"@[29] == 's' && "application/vnd.openxmlformats-officedocument.wordprocessingml.document"@[30] == '-' && "application/vnd.openxmlformats-officedocument.wordprocessingml.document"@[31] == 'o' && "application/vnd.openxmlformats-officedocument.wordprocessingml.document"@[32] == 'f' && "application/vnd.openxmlformats-officedocument.wordprocessingml.document"@[33] == 'f' && "application/vnd.openxmlformats-officedocument.wordprocessingml.document"@[34] == 'i' && "application/vnd.openxmlformats-officedocument.wordprocessingml.document"@[35] == 'c' && "application/vnd.openxmlformats-officedocument.wordprocessingml.document"@[36] == 'e' && "application/vnd.openxmlformats-officedocument.wordprocessingml.document"@[37] == 'd' && "application/vnd.openxmlformats-officedocument.wordprocessingml.document"@[38] == 'o' && "application/vnd.openxmlformats-officedocument.wordprocessingml.document"@[39] == 'c' && "application/vnd.openxmlformats-officedocument.wordprocessingml.document"@[40] == 'u' && "application/vnd.openxmlformats-officedocument.wordprocessingml.document"@[41] == 'm' && "application/vnd.openxmlformats-officedocument.wordprocessingml.document"@[42] == 'e' && "application/vnd.openxmlformats-officedocument.wordprocessingml.document"@[43] == 'n' && "application/vnd.openxmlformats-officedocument.wordprocessingml.document"@[44] == 't' && "application/vnd.openxmlformats-officedocument.wordprocessingml.document"@[45] == '.' && "application/vnd.openxmlformats-officedocument.wordprocessingml.document"@[46] == 'w' && "application/vnd.openxmlformats-officedocument.wordprocessingml.document"@[47] == 'o' && "application/vnd.openxmlformats-officedocument.wordprocessingml.document"@[48] == 'r' && "application/vnd.openxmlformats-officedocument.wordprocessingml.document"@[49] == 'd' && "application/vnd.openxmlformats-officedocument.wordprocessingml.document"@[50] == 'p' && "application/vnd.openxmlformats-officedocument.wordprocessingml.document"@[51] == 'r' && "application/vnd.openxmlformats-officedocument.wordprocessingml.document"@[52] == 'o' && "application/vnd.openxmlformats-officedocument.wordprocessingml.document"@[53] == 'c' && "application/vnd.openxmlformats-officedocument.wordprocessingml.document"@[54] == 'e' && "application/vnd.openxmlformats-officedocument.wordprocessingml.document"@[55] == 's' && "application/vnd.openxmlformats-officedocument.wordprocessingml.document"@[56] == 's' && "application/vnd.openxmlformats-officedocument.wordprocessingml.document"@[57] == 'i' && "application/vnd.openxmlformats-officedocument.wordprocessingml.document"@[58] == 'n' && "application/vnd.openxmlformats-officedocument.wordprocessingml.document"@[59] == 'g' && "application/vnd.openxmlformats-officedocument.wordprocessingml.document"@[60] == 'm' && "application/vnd.openxmlformats-officedocument.wordprocessingml.document"@[61] == 'l' && "application/vnd.openxmlformats-officedocument.wordprocessingml.document"@[62] == '.' && "application/vnd.openxmlformats-officedocument.wordprocessingml.document"@[63] == 'd' && "application/vnd.openxmlformats-officedocument.wordprocessingml.document"@[64] == 'o' && "application/vnd.openxmlformats-officedocument.wordprocessingml.document"@[65] == 'c' && "application/vnd.openxmlformats-officedocument.wordprocessingml.document"@[66] == 'u' && "application/vnd.openxmlformats-officedocument.wordprocessingml.document"@[67] == 'm' && "application/vnd.openxmlformats-officedocument.wordprocessingml.document"@[68] == 'e' && "application/vnd.openxmlformats-officedocument.wordprocessingml.document"@[69] == 'n' && "application/vnd.openxmlformats-officedocument.wordprocessingml.document"@[70] == 't');
    assert("application/vnd.ms-fontobject"@.len() == 29 && "application/vnd.ms-fontobject"@[0] == 'a' && "application/vnd.ms-fontobject"@[1] == 'p' && "application/vnd.ms-fontobject"@[2] == 'p' && "application/vnd.ms-fontobject"@[3] == 'l' && "application/vnd.ms-fontobject"@[4] == 'i' && "application/vnd.ms-fontobject"@[5] == 'c' && "application/vnd.ms-fontobject"@[6] == 'a' && "application/vnd.ms-fontobject"@[7] == 't' && "application/vnd.ms-fontobject"@[8] == 'i' && "application/vnd.ms-fontobject"@[9] == 'o' && "application/vnd.ms-fontobject"@[10] == 'n' && "application/vnd.ms-fontobject"@[11] == '/' && "application/vnd.ms-fontobject"@[12] == 'v' && "application/vnd.ms-fontobject"@[13] == 'n' && "application/vnd.ms-fontobject"@[14] == 'd' && "application/vnd.ms-fontobject"@[15] == '.' && "application/vnd.ms-fontobject"@[16] == 'm' && "application/vnd.ms-fontobject"@[17] == 's' && "application/vnd.ms-fontobject"@[18] == '-' && "application/vnd.ms-fontobject"@[19] == 'f' && "application/vnd.ms-fontobject"@[20] == 'o' && "application/vnd.ms-fontobject"@[21] == 'n' && "application/vnd.ms-fontobject"@[22] == 't' && "application/vnd.ms-fontobject"@[23] == 'o' && "application/vnd.ms-fontobject"@[24] == 'b' && "application/vnd.ms-fontobject"@[25] == 'j' && "application/vnd.ms-fontobject"@[26] == 'e' && "application/vnd.ms-fontobject"@[27] == 'c' && "application/vnd.ms-fontobject"@[28] == 't');
    assert("application/epub+zip"@.len() == 20 && "application/epub+zip"@[0] == 'a' && "application/epub+zip"@[1] == 'p' && "application/epub+zip"@[2] == 'p' && "application/epub+zip"@[3] == 'l' && "application/epub+zip"@[4] == 'i' && "application/epub+zip"@[5] == 'c' && "application/epub+zip"@[6] == 'a' && "application/epub+zip"@[7] == 't' && "application/epub+zip"@[8] == 'i' && "application/epub+zip"@[9] == 'o' && "application/epub+zip"@[10] == 'n' && "application/epub+zip"@[11] == '/' && "application/epub+zip"@[12] == 'e' && "application/epub+zip"@[13] == 'p' && "application/epub+zip"@[14] == 'u' && "application/epub+zip"@[15] == 'b' && "application/epub+zip"@[16] == '+' && "application/epub+zip"@[17] == 'z' && "application/epub+zip"@[18] == 'i' && "application/epub+zip"@[19] == 'p');
    assert("application/gzip"@.len() == 16 && "application/gzip"@[0] == 'a' && "application/gzip"@[1] == 'p' && "application/gzip"@[2] == 'p' && "application/gzip"@[3] == 'l' && "application/gzip"@[4] == 'i' && "application/gzip"@[5] == 'c' && "application/gzip"@[6] == 'a' && "application/gzip"@[7] == 't' && "application/gzip"@[8] == 'i' && "application/gzip"@[9] == 'o' && "application/gzip"@[10] == 'n' && "application/gzip"@[11] == '/' && "application/gzip"@[12] == 'g' && "application/gzip"@[13] == 'z' && "application/gzip"@[14] == 'i' && "application/gzip"@[15] == 'p');
    assert("application/java-archive"@.len() == 24 && "application/java-archive"@[0] == 'a' && "application/java-archive"@[1] == 'p' && "application/java-archive"@[2] == 'p' && "application/java-archive"@[3] == 'l' && "application/java-archive"@[4] == 'i' && "application/java-archive"@[5] == 'c' && "application/java-archive"@[6] == 'a' && "application/java-archive"@[7] == 't' && "application/java-archive"@[8] == 'i' && "application/java-archive"@[9] == 'o' && "application/java-archive"@[10] == 'n' && "application/java-archive"@[11] == '/' && "application/java-archive"@[12] == 'j' && "application/java-archive"@[13] == 'a' && "application/java-archive"@[14] == 'v' && "application/java-archive"@[15] == 'a' && "application/java-archive"@[16] == '-' && "application/java-archive"@[17] == 'a' && "application/java-archive"@[18] == 'r' && "application/java-archive"@[19] == 'c' && "application/java-archive"@[20] == 'h' && "application/java-archive"@[21] == 'i' && "application/java-archive"@[22] == 'v' && "application/java-archive"@[23] == 'e');
    assert("application/x-java-class"@.len() == 24 && "application/x-java-class"@[0] == 'a' && "application/x-java-class"@[1] == 'p' && "application/x-java-class"@[2] == 'p' && "application/x-java-class"@[3] == 'l' && "application/x-java-class"@[4] == 'i' && "application/x-java-class"@[5] == 'c' && "application/x-java-class"@[6] == 'a' && "application/x-java-class"@[7] == 't' && "application/x-java-class"@[8] == 'i' && "application/x-java-class"@[9] == 'o' && "application/x-java-class"@[10] == 'n' && "application/x-java-class"@[11] == '/' && "application/x-java-class"@[12] == 'x' && "application/x-java-class"@[13] == '-' && "application/x-java-class"@[14] == 'j' && "application/x-java-class"@[15] == 'a' && "application/x-java-class"@[16] == 'v' && "application/x-java-class"@[17] == 'a' && "application/x-java-class"@[18] == '-' && "application/x-java-class"@[19] == 'c' && "application/x-java-class"@[20] == 'l' && "application/x-java-class"@[21] == 'a' && "application/x-java-class"@[22] == 's' && "application/x-java-class"@[23] == 's');
    assert("application/ld+json"@.len() == 19 && "application/ld+json"@[0] == 'a' && "application/ld+json"@[1] == 'p' && "application/ld+json"@[2] == 'p' && "application/ld+json"@[3] == 'l' && "application/ld+json"@[4] == 'i' && "application/ld+json"@[5] == 'c' && "application/ld+json"@[6] == 'a' && "application/ld+json"@[7] == 't' && "application/ld+json"@[8] == 'i' && "application/ld+json"@[9] == 'o' && "application/ld+json"@[10] == 'n' && "application/ld+json"@[11] == '/' && "application/ld+json"@[12] == 'l' && "application/ld+json"@[13] == 'd' && "application/ld+json"@[14] == '+' && "application/ld+json"@[15] == 'j' && "application/ld+json"@[16] == 's' && "application/ld+json"@[17] == 'o' && "application/ld+json"@[18] == 'n');
    assert("application/vnd.apple.installer+xml"@.len() == 35 && "application/vnd.apple.installer+xml"@[0] == 'a' && "application/vnd.apple.installer+xml"@[1] == 'p' && "application/vnd.apple.installer+xml"@[2] == 'p' && "application/vnd.apple.installer+xml"@[3] == 'l' && "application/vnd.apple.installer+xml"@[4] == 'i' && "application/vnd.apple.installer+xml"@[5] == 'c' && "application/vnd.apple.installer+xml"@[6] == 'a' && "application/vnd.apple.installer+xml"@[7] == 't' && "application/vnd.apple.installer+xml"@[8] == 'i' && "application/vnd.apple.installer+xml"@[9] == 'o' && "application/vnd.apple.installer+xml"@[10] == 'n' && "application/vnd.apple.installer+xml"@[11] == '/' && "application/vnd.apple.installer+xml"@[12] == 'v' && "application/vnd.apple.installer+xml"@[13] == 'n' && "application/vnd.apple.installer+xml"@[14] == 'd' && "application/vnd.apple.installer+xml"@[15] == '.' && "application/vnd.apple.installer+xml"@[16] == 'a' && "application/vnd.apple.installer+xml"@[17] == 'p' && "application/vnd.apple.installer+xml"@[18] == 'p' && "application/vnd.apple.installer+xml"@[19] == 'l' && "application/vnd.apple.installer+xml"@[20] == 'e' && "application/vnd.apple.installer+xml"@[21] == '.' && "application/vnd.apple.installer+xml"@[22] == 'i' && "application/vnd.apple.installer+xml"@[23] == 'n' && "application/vnd.apple.installer+xml"@[24] == 's' && "application/vnd.apple.installer+xml"@[25] == 't' && "application/vnd.apple.installer+xml"@[26] == 'a' && "application/vnd.apple.installer+xml"@[27] == 'l' && "application/vnd.apple.installer+xml"@[28] == 'l' && "application/vnd.apple.installer+xml"@[29] == 'e' && "application/vnd.apple.installer+xml"@[30] == 'r' && "application/vnd.apple.installer+xml"@[31] == '+' && "application/vnd.apple.installer+xml"@[32] == 'x' && "application/vnd.apple.installer+xml"@[33] == 'm' && "application/vnd.apple.installer+xml"@[34] == 'l');
    assert("application/vnd.oasis.opendocument.presentation"@.len() == 47 && "application/vnd.oasis.opendocument.presentation"@[0] == 'a' && "application/vnd.oasis.opendocument.presentation"@[1] == 'p' && "application/vnd.oasis.opendocument.presentation"@[2] == 'p' && "application/vnd.oasis.opendocument.presentation"@[3] == 'l' && "application/vnd.oasis.opendocument.presentation"@[4] == 'i' && "application/vnd.oasis.opendocument.presentation"@[5] == 'c' && "application/vnd.oasis.opendocument.presentation"@[6] == 'a' && "application/vnd.oasis.opendocument.presentation"@[7] == 't' && "application/vnd.oasis.opendocument.presentation"@[8] == 'i' && "application/vnd.oasis.opendocument.presentation"@[9] == 'o' && "application/vnd.oasis.opendocument.presentation"@[10] == 'n' && "application/vnd.oasis.opendocument.presentation"@[11] == '/' && "application/vnd.oasis.opendocument.presentation"@[12] == 'v' && "application/vnd.oasis.opendocument.presentation"@[13] == 'n' && "application/vnd.oasis.opendocument.presentation"@[14] == 'd' && "application/vnd.oasis.opendocument.presentation"@[15] == '.' && "application/vnd.oasis.opendocument.presentation"@[16] == 'o' && "application/vnd.oasis.opendocument.presentation"@[17] == 'a' && "application/vnd.oasis.opendocument.presentation"@[18] == 's' && "application/vnd.oasis.opendocument.presentation"@[19] == 'i' && "application/vnd.oasis.opendocument.presentation"@[20] == 's' && "application/vnd.oasis.opendocument.presentation"@[21] == '.' && "application/vnd.oasis.opendocument.presentation"@[22] == 'o' && "application/vnd.oasis.opendocument.presentation"@[23] == 'p' && "application/vnd.oasis.opendocument.presentation"@[24] == 'e' && "application/vnd.oasis.opendocument.presentation"@[25] == 'n' && "application/vnd.oasis.opendocument.presentation"@[26] == 'd' && "application/vnd.oasis.opendocument.presentation"@[27] == 'o' && "application/vnd.oasis.opendocument.presentation"@[28] == 'c' && "application/vnd.oasis.opendocument.presentation"@[29] == 'u' && "application/vnd.oasis.opendocument.presentation"@[30] == 'm' && "application/vnd.oasis.opendocument.presentation"@[31] == 'e' && "application/vnd.oasis.opendocument.presentation"@[32] == 'n' && "application/vnd.oasis.opendocument.presentation"@[33] == 't' && "application/vnd.oasis.opendocument.presentation"@[34] == '.' && "application/vnd.oasis.opendocument.presentation"@[35] == 'p' && "application/vnd.oasis.opendocument.presentation"@[36] == 'r' && "application/vnd.oasis.opendocument.presentation"@[37] == 'e' && "application/vnd.oasis.opendocument.presentation"@[38] == 's' && "application/vnd.oasis.opendocument.presentation"@[39] == 'e' && "application/vnd.oasis.opendocument.presentation"@[40] == 'n' && "application/vnd.oasis.opendocument.presentation"@[41] == 't' && "application/vnd.oasis.opendocument.presentation"@[42] == 'a' && "application/vnd.oasis.opendocument.presentation"@[43] == 't' && "application/vnd.oasis.opendocument.presentation"@[44] == 'i' && "application/vnd.oasis.opendocument.presentation"@[45] == 'o' && "application/vnd.oasis.opendocument.presentation"@[46] == 'n');
    assert("application/vnd.oasis.opendocument.spreadsheet"@.len() == 46 && "application/vnd.oasis.opendocument.spreadsheet"@[0] == 'a' && "application/vnd.oasis.opendocument.spreadsheet"@[1] == 'p' && "application/vnd.oasis.opendocument.spreadsheet"@[2] == 'p' && "application/vnd.oasis.opendocument.spreadsheet"@[3] == 'l' && "application/vnd.oasis.opendocument.spreadsheet"@[4] == 'i' && "application/vnd.oasis.opendocument.spreadsheet"@[5] == 'c' && "application/vnd.oasis.opendocument.spreadsheet"@[6] == 'a' && "application/vnd.oasis.opendocument.spreadsheet"@[7] == 't' && "application/vnd.oasis.opendocument.spreadsheet"@[8] == 'i' && "application/vnd.oasis.opendocument.spreadsheet"@[9] == 'o' && "application/vnd.oasis.opendocument.spreadsheet"@[10] == 'n' && "application/vnd.oasis.opendocument.spreadsheet"@[11] == '/' && "application/vnd.oasis.opendocument.spreadsheet"@[12] == 'v' && "application/vnd.oasis.opendocument.spreadsheet"@[13] == 'n' && "application/vnd.oasis.opendocument.spreadsheet"@[14] == 'd' && "application/vnd.oasis.opendocument.spreadsheet"@[15] == '.' && "application/vnd.oasis.opendocument.spreadsheet"@[16] == 'o' && "application/vnd.oasis.opendocument.spreadsheet"@[17] == 'a' && "application/vnd.oasis.opendocument.spreadsheet"@[18] == 's' && "application/vnd.oasis.opendocument.spreadsheet"@[19] == 'i' && "application/vnd.oasis.opendocument.spreadsheet"@[20] == 's' && "application/vnd.oasis.opendocument.spreadsheet"@[21] == '.' && "application/vnd.oasis.opendocument.spreadsheet"@[22] == 'o' && "application/vnd.oasis.opendocument.spreadsheet"@[23] == 'p' && "application/vnd.oasis.opendocument.spreadsheet"@[24] == 'e' && "application/vnd.oasis.opendocument.spreadsheet"@[25] == 'n' && "application/vnd.oasis.opendocument.spreadsheet"@[26] == 'd' && "application/vnd.oasis.opendocument.spreadsheet"@[27] == 'o' && "application/vnd.oasis.opendocument.spreadsheet"@[28] == 'c' && "application/vnd.oasis.opendocument.spreadsheet"@[29] == 'u' && "application/vnd.oasis.opendocument.spreadsheet"@[30] == 'm' && "application/vnd.oasis.opendocument.spreadsheet"@[31] == 'e' && "application/vnd.oasis.opendocument.spreadsheet"@[32] == 'n' && "application/vnd.oasis.opendocument.spreadsheet"@[33] == 't' && "application/vnd.oasis.opendocument.spreadsheet"@[34] == '.' && "application/vnd.oasis.opendocument.spreadsheet"@[35] == 's' && "application/vnd.oasis.opendocument.spreadsheet"@[36] == 'p' && "application/vnd.oasis.opendocument.spreadsheet"@[37] == 'r' && "application/vnd.oasis.opendocument.spreadsheet"@[38] == 'e' && "application/vnd.oasis.opendocument.spreadsheet"@[39] == 'a' && "application/vnd.oasis.opendocument.spreadsheet"@[40] == 'd' && "application/vnd.oasis.opendocument.spreadsheet"@[41] == 's' && "application/vnd.oasis.opendocument.spreadsheet"@[42] == 'h' && "application/vnd.oasis.opendocument.spreadsheet"@[43] == 'e' && "application/vnd.oasis.opendocument.spreadsheet"@[44] == 'e' && "application/vnd.oasis.opendocument.spreadsheet"@[45] == 't');
    assert("application/vnd.oasis.opendocument.text"@.len() == 39 && "application/vnd.oasis.opendocument.text"@[0] == 'a' && "application/vnd.oasis.opendocument.text"@[1] == 'p' && "application/vnd.oasis.opendocument.text"@[2] == 'p' && "application/vnd.oasis.opendocument.text"@[3] == 'l' && "application/vnd.oasis.opendocument.text"@[4] == 'i' && "application/vnd.oasis.opendocument.text"@[5] == 'c' && "application/vnd.oasis.opendocument.text"@[6] == 'a' && "application/vnd.oasis.opendocument.text"@[7] == 't' && "application/vnd.oasis.opendocument.text"@[8] == 'i' && "application/vnd.oasis.opendocument.text"@[9] == 'o' && "application/vnd.oasis.opendocument.text"@[10] == 'n' && "application/vnd.oasis.opendocument.text"@[11] == '/' && "application/vnd.oasis.opendocument.text"@[12] == 'v' && "application/vnd.oasis.opendocument.text"@[13] == 'n' && "application/vnd.oasis.opendocument.text"@[14] == 'd' && "application/vnd.oasis.opendocument.text"@[15] == '.' && "application/vnd.oasis.opendocument.text"@[16] == 'o' && "application/vnd.oasis.opendocument.text"@[17] == 'a' && "application/vnd.oasis.opendocument.text"@[18] == 's' && "application/vnd.oasis.opendocument.text"@[19] == 'i' && "application/vnd.oasis.opendocument.text"@[20] == 's' && "application/vnd.oasis.opendocument.text"@[21] == '.' && "application/vnd.oasis.opendocument.text"@[22] == 'o' && "application/vnd.oasis.opendocument.text"@[23] == 'p' && "application/vnd.oasis.opendocument.text"@[24] == 'e' && "application/vnd.oasis.opendocument.text"@[25] == 'n' && "application/vnd.oasis.opendocument.text"@[26] == 'd' && "application/vnd.oasis.opendocument.text"@[27] == 'o' && "application/vnd.oasis.opendocument.text"@[28] == 'c' && "application/vnd.oasis.opendocument.text"@[29] == 'u' && "application/vnd.oasis.opendocument.text"@[30] == 'm' && "application/vnd.oasis.opendocument.text"@[31] == 'e' && "application/vnd.oasis.opendocument.text"@[32] == 'n' && "application/vnd.oasis.opendocument.text"@[33] == 't' && "application/vnd.oasis.opendocument.text"@[34] == '.' && "application/vnd.oasis.opendocument.text"@[35] == 't' && "application/vnd.oasis.opendocument.text"@[36] == 'e' && "application/vnd.oasis.opendocument.text"@[37] == 'x' && "application/vnd.oasis.opendocument.text"@[38] == 't');
    assert("application/ogg"@.len() == 15 && "application/ogg"@[0] == 'a' && "application/ogg"@[1] == 'p' && "application/ogg"@[2] == 'p' && "application/ogg"@[3] == 'l' && "application/ogg"@[4] == 'i' && "application/ogg"@[5] == 'c' && "application/ogg"@[6] == 'a' && "application/ogg"@[7] == 't' && "application/ogg"@[8] == 'i' && "application/ogg"@[9] == 'o' && "application/ogg"@[10] == 'n' && "application/ogg"@[11] == '/' && "application/ogg"@[12] == 'o' && "application/ogg"@[13] == 'g' && "application/ogg"@[14] == 'g');
    assert("application/x-httpd-php"@.len() == 23 && "application/x-httpd-php"@[0] == 'a' && "application/x-httpd-php"@[1] == 'p' && "application/x-httpd-php"@[2] == 'p' && "application/x-httpd-php"@[3] == 'l' && "application/x-httpd-php"@[4] == 'i' && "application/x-httpd-php"@[5] == 'c' && "application/x-httpd-php"@[6] == 'a' && "application/x-httpd-php"@[7] == 't' && "application/x-httpd-php"@[8] == 'i' && "application/x-httpd-php"@[9] == 'o' && "application/x-httpd-php"@[10] == 'n' && "application/x-httpd-php"@[11] == '/' && "application/x-httpd-php"@[12] == 'x' && "application/x-httpd-php"@[13] == '-' && "application/x-httpd-php"@[14] == 'h' && "application/x-httpd-php"@[15] == 't' && "application/x-httpd-php"@[16] == 't' && "application/x-httpd-php"@[17] == 'p' && "application/x-httpd-php"@[18] == 'd' && "application/x-httpd-php"@[19] == '-' && "application/x-httpd-php"@[20] == 'p' && "application/x-httpd-php"@[21] == 'h' && "application/x-httpd-php"@[22] == 'p');
    assert("application/vnd.ms-powerpoint"@.len() == 29 && "application/vnd.ms-powerpoint"@[0] == 'a' && "application/vnd.ms-powerpoint"@[1] == 'p' && "application/vnd.ms-powerpoint"@[2] == 'p' && "application/vnd.ms-powerpoint"@[3] == 'l' && "application/vnd.ms-powerpoint"@[4] == 'i' && "application/vnd.ms-powerpoint"@[5] == 'c' && "application/vnd.ms-powerpoint"@[6] == 'a' && "application/vnd.ms-powerpoint"@[7] == 't' && "application/vnd.ms-powerpoint"@[8] == 'i' && "application/vnd.ms-powerpoint"@[9] == 'o' && "application/vnd.ms-powerpoint"@[10] == 'n' && "application/vnd.ms-powerpoint"@[11] == '/' && "application/vnd.ms-powerpoint"@[12] == 'v' && "application/vnd.ms-powerpoint"@[13] == 'n' && "application/vnd.ms-powerpoint"@[14] == 'd' && "application/vnd.ms-powerpoint"@[15] == '.' && "application/vnd.ms-powerpoint"@[16] == 'm' && "application/vnd.ms-powerpoint"@[17] == 's' && "application/vnd.ms-powerpoint"@[18] == '-' && "application/vnd.ms-powerpoint"@[19] == 'p' && "application/vnd.ms-powerpoint"@[20] == 'o' && "application/vnd.ms-powerpoint"@[21] == 'w' && "application/vnd.ms-powerpoint"@[22] == 'e' && "application/vnd.ms-powerpoint"@[23] == 'r' && "application/vnd.ms-powerpoint"@[24] == 'p' && "application/vnd.ms-powerpoint"@[25] == 'o' && "application/vnd.ms-powerpoint"@[26] == 'i' && "application/vnd.ms-powerpoint"@[27] == 'n' && "application/vnd.ms-powerpoint"@[28] == 't');
    assert("application/vnd.openxmlformats-officedocument.presentationml.presentation"@.len() == 73 && "application/vnd.openxmlformats-officedocument.presentationml.presentation"@[0] == 'a' && "application/vnd.openxmlformats-officedocument.presentationml.presentation"@[1] == 'p' && "application/vnd.openxmlformats-officedocument.presentationml.presentation"@[2] == 'p' && "application/vnd.openxmlformats-officedocument.presentationml.presentation"@[3] == 'l' && "application/vnd.openxmlformats-officedocument.presentationml.presentation"@[4] == 'i' && "application/vnd.openxmlformats-officedocument.presentationml.presentation"@[5] == 'c' && "application/vnd.openxmlformats-officedocument.presentationml.presentation"@[6] == 'a' && "application/vnd.openxmlformats-officedocument.presentationml.presentation"@[7] == 't' && "application/vnd.openxmlformats-officedocument.presentationml.presentation"@[8] == 'i' && "application/vnd.openxmlformats-officedocument.presentationml.presentation"@[9] == 'o' && "application/vnd.openxmlformats-officedocument.presentationml.presentation"@[10] == 'n' && "application/vnd.openxmlformats-officedocument.presentationml.presentation"@[11] == '/' && "application/vnd.openxmlformats-officedocument.presentationml.presentation"@[12] == 'v' && "application/vnd.openxmlformats-officedocument.presentationml.presentation"@[13] == 'n' && "application/vnd.openxmlformats-officedocument.presentationml.presentation"@[14] == 'd' && "application/vnd.openxmlformats-officedocument.presentationml.presentation"@[15] == '.' && "application/vnd.openxmlformats-officedocument.presentationml.presentation"@[16] == 'o' && "application/vnd.openxmlformats-officedocument.presentationml.presentation"@[17] == 'p' && "application/vnd.openxmlformats-officedocument.presentationml.presentation"@[18] == 'e' && "application/vnd.openxmlformats-officedocument.presentationml.presentation"@[19] == 'n' && "application/vnd.openxmlformats-officedocument.presentationml.presentation"@[20] == 'x' && "application/vnd.openxmlformats-officedocument.presentationml.presentation"@[21] == 'm' && "application/vnd.openxmlformats-officedocument.presentationml.presentation"@[22] == 'l' && "application/vnd.openxmlformats-officedocument.presentationml.presentation"@[23] == 'f' && "application/vnd.openxmlformats-officedocument.presentationml.presentation"@[24] == 'o' && "application/vnd.openxmlformats-officedocument.presentationml.presentation"@[25] == 'r' && "application/vnd.openxmlformats-officedocument.presentationml.presentation"@[26] == 'm' && "application/vnd.openxmlformats-officedocument.presentationml.presentation"@[27] == 'a' && "application/vnd.openxmlformats-officedocument.presentationml.presentation"@[28] == 't' && "application/vnd.openxmlformats-officedocument.presentationml.presentation"@[29] == 's' && "application/vnd.openxmlformats-officedocument.presentationml.presentation"@[30] == '-' && "application/vnd.openxmlformats-officedocument.presentationml.presentation"@[31] == 'o' && "application/vnd.openxmlformats-officedocument.presentationml.presentation"@[32] == 'f' && "application/vnd.openxmlformats-officedocument.presentationml.presentation"@[33] == 'f' && "application/vnd.openxmlformats-officedocument.presentationml.presentation"@[34] == 'i' && "application/vnd.openxmlformats-officedocument.presentationml.presentation"@[35] == 'c' && "application/vnd.openxmlformats-officedocument.presentationml.presentation"@[36] == 'e' && "application/vnd.openxmlformats-officedocument.presentationml.presentation"@[37] == 'd' && "application/vnd.openxmlformats-officedocument.presentationml.presentation"@[38] == 'o' && "application/vnd.openxmlformats-officedocument.presentationml.presentation"@[39] == 'c' && "application/vnd.openxmlformats-officedocument.presentationml.presentation"@[40] == 'u' && "application/vnd.openxmlformats-officedocument.presentationml.presentation"@[41] == 'm' && "application/vnd.openxmlformats-officedocument.presentationml.presentation"@[42] == 'e' && "application/vnd.openxmlformats-officedocument.presentationml.presentation"@[43] == 'n' && "application/vnd.openxmlformats-officedocument.presentationml.presentation"@[44] == 't' && "application/vnd.openxmlformats-officedocument.presentationml.presentation"@[45] == '.' && "application/vnd.openxmlformats-officedocument.presentationml.presentation"@[46] == 'p' && "application/vnd.openxmlformats-officedocument.presentationml.presentation"@[47] == 'r' && "application/vnd.openxmlformats-officedocument.presentationml.presentation"@[48] == 'e' && "application/vnd.openxmlformats-officedocument.presentationml.presentation"@[49] == 's' && "application/vnd.openxmlformats-officedocument.presentationml.presentation"@[50] == 'e' && "application/vnd.openxmlformats-officedocument.presentationml.presentation"@[51] == 'n' && "application/vnd.openxmlformats-officedocument.presentationml.presentation"@[52] == 't' && "application/vnd.openxmlformats-officedocument.presentationml.presentation"@[53] == 'a' && "application/vnd.openxmlformats-officedocument.presentationml.presentation"@[54] == 't' && "application/vnd.openxmlformats-officedocument.presentationml.presentation"@[55] == 'i' && "application/vnd.openxmlformats-officedocument.presentationml.presentation"@[56] == 'o' && "application/vnd.openxmlformats-officedocument.presentationml.presentation"@[57] == 'n' && "application/vnd.openxmlformats-officedocument.presentationml.presentation"@[58] == 'm' && "application/vnd.openxmlformats-officedocument.presentationml.presentation"@[59] == 'l' && "application/vnd.openxmlformats-officedocument.presentationml.presentation"@[60] == '.' && "application/vnd.openxmlformats-officedocument.presentationml.presentation"@[61] == 'p' && "application/vnd.openxmlformats-officedocument.presentationml.presentation"@[62] == 'r' && "application/vnd.openxmlformats-officedocument.presentationml.presentation"@[63] == 'e' && "application/vnd.openxmlformats-officedocument.presentationml.presentation"@[64] == 's' && "application/vnd.openxmlformats-officedocument.presentationml.presentation"@[65] == 'e' && "application/vnd.openxmlformats-officedocument.presentationml.presentation"@[66] == 'n' && "application/vnd.openxmlformats-officedocument.presentationml.presentation"@[67] == 't' && "application/vnd.openxmlformats-officedocument.presentationml.presentation"@[68] == 'a' && "application/vnd.openxmlformats-officedocument.presentationml.presentation"@[69] == 't' && "application/vnd.openxmlformats-officedocument.presentationml.presentation"@[70] == 'i' && "application/vnd.openxmlformats-officedocument.presentationml.presentation"@[71] == 'o' && "application/vnd.openxmlformats-officedocument.presentationml.presentation"@[72] == 'n');
    assert("application/vnd.rar"@.len() == 19 && "application/vnd.rar"@[0] == 'a' && "application/vnd.rar"@[1] == 'p' && "application/vnd.rar"@[2] == 'p' && "application/vnd.rar"@[3] == 'l' && "application/vnd.rar"@[4] == 'i' && "application/vnd.rar"@[5] == 'c' && "application/vnd.rar"@[6] == 'a' && "application/vnd.rar"@[7] == 't' && "application/vnd.rar"@[8] == 'i' && "application/vnd.rar"@[9] == 'o' && "application/vnd.rar"@[10] == 'n' && "application/vnd.rar"@[11] == '/' && "application/vnd.rar"@[12] == 'v' && "application/vnd.rar"@[13] == 'n' && "application/vnd.rar"@[14] == 'd' && "application/vnd.rar"@[15] == '.' && "application/vnd.rar"@[16] == 'r' && "application/vnd.rar"@[17] == 'a' && "application/vnd.rar"@[18] == 'r');
    assert("application/rtf"@.len() == 15 && "application/rtf"@[0] == 'a' && "application/rtf"@[1] == 'p' && "application/rtf"@[2] == 'p' && "application/rtf"@[3] == 'l' && "application/rtf"@[4] == 'i' && "application/rtf"@[5] == 'c' && "application/rtf"@[6] == 'a' && "application/rtf"@[7] == 't' && "application/rtf"@[8] == 'i' && "application/rtf"@[9] == 'o' && "application/rtf"@[10] == 'n' && "application/rtf"@[11] == '/' && "application/rtf"@[12] == 'r' && "application/rtf"@[13] == 't' && "application/rtf"@[14] == 'f');
    assert("application/x-sh"@.len() == 16 && "application/x-sh"@[0] == 'a' && "application/x-sh"@[1] == 'p' && "application/x-sh"@[2] == 'p' && "application/x-sh"@[3] == 'l' && "application/x-sh"@[4] == 'i' && "application/x-sh"@[5] == 'c' && "application/x-sh"@[6] == 'a' && "application/x-sh"@[7] == 't' && "application/x-sh"@[8] == 'i' && "application/x-sh"@[9] == 'o' && "application/x-sh"@[10] == 'n' && "application/x-sh"@[11] == '/' && "application/x-sh"@[12] == 'x' && "application/x-sh"@[13] == '-' && "application/x-sh"@[14] == 's' && "application/x-sh"@[15] == 'h');
    assert("application/x-tar"@.len() == 17 && "application/x-tar"@[0] == 'a' && "application/x-tar"@[1] == 'p' && "application/x-tar"@[2] == 'p' && "application/x-tar"@[3] == 'l' && "application/x-tar"@[4] == 'i' && "application/x-tar"@[5] == 'c' && "application/x-tar"@[6] == 'a' && "application/x-tar"@[7] == 't' && "application/x-tar"@[8] == 'i' && "application/x-tar"@[9] == 'o' && "application/x-tar"@[10] == 'n' && "application/x-tar"@[11] == '/' && "application/x-tar"@[12] == 'x' && "application/x-tar"@[13] == '-' && "application/x-tar"@[14] == 't' && "application/x-tar"@[15] == 'a' && "application/x-tar"@[16] == 'r');
    assert("application/vnd.visio"@.len() == 21 && "application/vnd.visio"@[0] == 'a' && "application/vnd.visio"@[1] == 'p' && "application/vnd.visio"@[2] == 'p' && "application/vnd.visio"@[3] == 'l' && "application/vnd.visio"@[4] == 'i' && "application/vnd.visio"@[5] == 'c' && "application/vnd.visio"@[6] == 'a' && "application/vnd.visio"@[7] == 't' && "application/vnd.visio"@[8] == 'i' && "application/vnd.visio"@[9] == 'o' && "application/vnd.visio"@[10] == 'n' && "application/vnd.visio"@[11] == '/' && "application/vnd.visio"@[12] == 'v' && "application/vnd.visio"@[13] == 'n' && "application/vnd.visio"@[14] == 'd' && "application/vnd.visio"@[15] == '.' && "application/vnd.visio"@[16] == 'v' && "application/vnd.visio"@[17] == 'i' && "application/vnd.visio"@[18] == 's' && "application/vnd.visio"@[19] == 'i' && "application/vnd.visio"@[20] == 'o');
    assert("application/xhtml+xml"@.len() == 21 && "application/xhtml+xml"@[0] == 'a' && "application/xhtml+xml"@[1] == 'p' && "application/xhtml+xml"@[2] == 'p' && "application/xhtml+xml"@[3] == 'l' && "application/xhtml+xml"@[4] == 'i' && "application/xhtml+xml"@[5] == 'c' && "application/xhtml+xml"@[6] == 'a' && "application/xhtml+xml"@[7] == 't' && "application/xhtml+xml"@[8] == 'i' && "application/xhtml+xml"@[9] == 'o' && "application/xhtml+xml"@[10] == 'n' && "application/xhtml+xml"@[11] == '/' && "application/xhtml+xml"@[12] == 'x' && "application/xhtml+xml"@[13] == 'h' && "application/xhtml+xml"@[14] == 't' && "application/xhtml+xml"@[15] == 'm' && "application/xhtml+xml"@[16] == 'l' && "application/xhtml+xml"@[17] == '+' && "application/xhtml+xml"@[18] == 'x' && "application/xhtml+xml"@[19] == 'm' && "application/xhtml+xml"@[20] == 'l');
    assert("application/vnd.ms-excel"@.len() == 24 && "application/vnd.ms-excel"@[0] == 'a' && "application/vnd.ms-excel"@[1] == 'p' && "application/vnd.ms-excel"@[2] == 'p' && "application/vnd.ms-excel"@[3] == 'l' && "application/vnd.ms-excel"@[4] == 'i' && "application/vnd.ms-excel"@[5] == 'c' && "application/vnd.ms-excel"@[6] == 'a' && "application/vnd.ms-excel"@[7] == 't' && "application/vnd.ms-excel"@[8] == 'i' && "application/vnd.ms-excel"@[9] == 'o' && "application/vnd.ms-excel"@[10] == 'n' && "application/vnd.ms-excel"@[11] == '/' && "application/vnd.ms-excel"@[12] == 'v' && "application/vnd.ms-excel"@[13] == 'n' && "application/vnd.ms-excel"@[14] == 'd' && "application/vnd.ms-excel"@[15] == '.' && "application/vnd.ms-excel"@[16] == 'm' && "application/vnd.ms-excel"@[17] == 's' && "application/vnd.ms-excel"@[18] == '-' && "application/vnd.ms-excel"@[19] == 'e' && "application/vnd.ms-excel"@[20] == 'x' && "application/vnd.ms-excel"@[21] == 'c' && "application/vnd.ms-excel"@[22] == 'e' && "application/vnd.ms-excel"@[23] == 'l');
    assert("application/vnd.openxmlformats-officedocument.spreadsheetml.sheet"@.len() == 65 && "application/vnd.openxmlformats-officedocument.spreadsheetml.sheet"@[0] == 'a' && "application/vnd.openxmlformats-officedocument.spreadsheetml.sheet"@[1] == 'p' && "application/vnd.openxmlformats-officedocument.spreadsheetml.sheet"@[2] == 'p' && "application/vnd.openxmlformats-officedocument.spreadsheetml.sheet"@[3] == 'l' && "application/vnd.openxmlformats-officedocument.spreadsheetml.sheet"@[4] == 'i' && "application/vnd.openxmlformats-officedocument.spreadsheetml.sheet"@[5] == 'c' && "application/vnd.openxmlformats-officedocument.spreadsheetml.sheet"@[6] == 'a' && "application/vnd.openxmlformats-officedocument.spreadsheetml.sheet"@[7] == 't' && "application/vnd.openxmlformats-officedocument.spreadsheetml.sheet"@[8] == 'i' && "application/vnd.openxmlformats-officedocument.spreadsheetml.sheet"@[9] == 'o' && "application/vnd.openxmlformats-officedocument.spreadsheetml.sheet"@[10] == 'n' && "application/vnd.openxmlformats-officedocument.spreadsheetml.sheet"@[11] == '/' && "application/vnd.openxmlformats-officedocument.spreadsheetml.sheet"@[12] == 'v' && "application/vnd.openxmlformats-officedocument.spreadsheetml.sheet"@[13] == 'n' && "application/vnd.openxmlformats-officedocument.spreadsheetml.sheet"@[14] == 'd' && "application/vnd.openxmlformats-officedocument.spreadsheetml.sheet"@[15] == '.' && "application/vnd.openxmlformats-officedocument.spreadsheetml.sheet"@[16] == 'o' && "application/vnd.openxmlformats-officedocument.spreadsheetml.sheet"@[17] == 'p' && "application/vnd.openxmlformats-officedocument.spreadsheetml.sheet"@[18] == 'e' && "application/vnd.openxmlformats-officedocument.spreadsheetml.sheet"@[19] == 'n' && "application/vnd.openxmlformats-officedocument.spreadsheetml.sheet"@[20] == 'x' && "application/vnd.openxmlformats-officedocument.spreadsheetml.sheet"@[21] == 'm' && "application/vnd.openxmlformats-officedocument.spreadsheetml.sheet"@[22] == 'l' && "application/vnd.openxmlformats-officedocument.spreadsheetml.sheet"@[23] == 'f' && "application/vnd.openxmlformats-officedocument.spreadsheetml.sheet"@[24] == 'o' && "application/vnd.openxmlformats-officedocument.spreadsheetml.sheet"@[25] == 'r' && "application/vnd.openxmlformats-officedocument.spreadsheetml.sheet"@[26] == 'm' && "application/vnd.openxmlformats-officedocument.spreadsheetml.sheet"@[27] == 'a' && "application/vnd.openxmlformats-officedocument.spreadsheetml.sheet"@[28] == 't' && "application/vnd.openxmlformats-officedocument.spreadsheetml.sheet"@[29] == 's' && "application/vnd.openxmlformats-officedocument.spreadsheetml.sheet"@[30] == '-' && "application/vnd.openxmlformats-officedocument.spreadsheetml.sheet"@[31] == 'o' && "application/vnd.openxmlformats-officedocument.spreadsheetml.sheet"@[32] == 'f' && "application/vnd.openxmlformats-officedocument.spreadsheetml.sheet"@[33] == 'f' && "application/vnd.openxmlformats-officedocument.spreadsheetml.sheet"@[34] == 'i' && "application/vnd.openxmlformats-officedocument.spreadsheetml.sheet"@[35] == 'c' && "application/vnd.openxmlformats-officedocument.spreadsheetml.sheet"@[36] == 'e' && "application/vnd.openxmlformats-officedocument.spreadsheetml.sheet"@[37] == 'd' && "application/vnd.openxmlformats-officedocument.spreadsheetml.sheet"@[38] == 'o' && "application/vnd.openxmlformats-officedocument.spreadsheetml.sheet"@[39] == 'c' && "application/vnd.openxmlformats-officedocument.spreadsheetml.sheet"@[40] == 'u' && "application/vnd.openxmlformats-officedocument.spreadsheetml.sheet"@[41] == 'm' && "application/vnd.openxmlformats-officedocument.spreadsheetml.sheet"@[42] == 'e' && "application/vnd.openxmlformats-officedocument.spreadsheetml.sheet"@[43] == 'n' && "application/vnd.openxmlformats-officedocument.spreadsheetml.sheet"@[44] == 't' && "application/vnd.openxmlformats-officedocument.spreadsheetml.sheet"@[45] == '.' && "application/vnd.openxmlformats-officedocument.spreadsheetml.sheet"@[46] == 's' && "application/vnd.openxmlformats-officedocument.spreadsheetml.sheet"@[47] == 'p' && "application/vnd.openxmlformats-officedocument.spreadsheetml.sheet"@[48] == 'r' && "application/vnd.openxmlformats-officedocument.spreadsheetml.sheet"@[49] == 'e' && "application/vnd.openxmlformats-officedocument.spreadsheetml.sheet"@[50] == 'a' && "application/vnd.openxmlformats-officedocument.spreadsheetml.sheet"@[51] == 'd' && "application/vnd.openxmlformats-officedocument.spreadsheetml.sheet"@[52] == 's' && "application/vnd.openxmlformats-officedocument.spreadsheetml.sheet"@[53] == 'h' && "application/vnd.openxmlformats-officedocument.spreadsheetml.sheet"@[54] == 'e' && "application/vnd.openxmlformats-officedocument.spreadsheetml.sheet"@[55] == 'e' && "application/vnd.openxmlformats-officedocument.spreadsheetml.sheet"@[56] == 't' && "application/vnd.openxmlformats-officedocument.spreadsheetml.sheet"@[57] == 'm' && "application/vnd.openxmlformats-officedocument.spreadsheetml.sheet"@[58] == 'l' && "application/vnd.openxmlformats-officedocument.spreadsheetml.sheet"@[59] == '.' && "application/vnd.openxmlformats-officedocument.spreadsheetml.sheet"@[60] == 's' && "application/vnd.openxmlformats-officedocument.spreadsheetml.sheet"@[61] == 'h' && "application/vnd.openxmlformats-officedocument.spreadsheetml.sheet"@[62] == 'e' && "application/vnd.openxmlformats-officedocument.spreadsheetml.sheet"@[63] == 'e' && "application/vnd.openxmlformats-officedocument.spreadsheetml.sheet"@[64] == 't');
    assert("application/xml"@.len() == 15 && "application/xml"@[0] == 'a' && "application/xml"@[1] == 'p' && "application/xml"@[2] == 'p' && "application/xml"@[3] == 'l' && "application/xml"@[4] == 'i' && "application/xml"@[5] == 'c' && "application/xml"@[6] == 'a' && "application/xml"@[7] == 't' && "application/xml"@[8] == 'i' && "application/xml"@[9] == 'o' && "application/xml"@[10] == 'n' && "application/xml"@[11] == '/' && "application/xml"@[12] == 'x' && "application/xml"@[13] == 'm' && "application/xml"@[14] == 'l');
    assert("application/vnd.mozilla.xul+xml"@.len() == 31 && "application/vnd.mozilla.xul+xml"@[0] == 'a' && "application/vnd.mozilla.xul+xml"@[1] == 'p' && "application/vnd.mozilla.xul+xml"@[2] == 'p' && "application/vnd.mozilla.xul+xml"@[3] == 'l' && "application/vnd.mozilla.xul+xml"@[4] == 'i' && "application/vnd.mozilla.xul+xml"@[5] == 'c' && "application/vnd.mozilla.xul+xml"@[6] == 'a' && "application/vnd.mozilla.xul+xml"@[7] == 't' && "application/vnd.mozilla.xul+xml"@[8] == 'i' && "application/vnd.mozilla.xul+xml"@[9] == 'o' && "application/vnd.mozilla.xul+xml"@[10] == 'n' && "application/vnd.mozilla.xul+xml"@[11] == '/' && "application/vnd.mozilla.xul+xml"@[12] == 'v' && "application/vnd.mozilla.xul+xml"@[13] == 'n' && "application/vnd.mozilla.xul+xml"@[14] == 'd' && "application/vnd.mozilla.xul+xml"@[15] == '.' && "application/vnd.mozilla.xul+xml"@[16] == 'm' && "application/vnd.mozilla.xul+xml"@[17] == 'o' && "application/vnd.mozilla.xul+xml"@[18] == 'z' && "application/vnd.mozilla.xul+xml"@[19] == 'i' && "application/vnd.mozilla.xul+xml"@[20] == 'l' && "application/vnd.mozilla.xul+xml"@[21] == 'l' && "application/vnd.mozilla.xul+xml"@[22] == 'a' && "application/vnd.mozilla.xul+xml"@[23] == '.' && "application/vnd.mozilla.xul+xml"@[24] == 'x' && "application/vnd.mozilla.xul+xml"@[25] == 'u' && "application/vnd.mozilla.xul+xml"@[26] == 'l' && "application/vnd.mozilla.xul+xml"@[27] == '+' && "application/vnd.mozilla.xul+xml"@[28] == 'x' && "application/vnd.mozilla.xul+xml"@[29] == 'm' && "application/vnd.mozilla.xul+xml"@[30] == 'l');
    assert("application/dicom"@.len() == 17 && "application/dicom"@[0] == 'a' && "application/dicom"@[1] == 'p' && "application/dicom"@[2] == 'p' && "application/dicom"@[3] == 'l' && "application/dicom"@[4] == 'i' && "application/dicom"@[5] == 'c' && "application/dicom"@[6] == 'a' && "application/dicom"@[7] == 't' && "application/dicom"@[8] == 'i' && "application/dicom"@[9] == 'o' && "application/dicom"@[10] == 'n' && "application/dicom"@[11] == '/' && "application/dicom"@[12] == 'd' && "application/dicom"@[13] == 'i' && "application/dicom"@[14] == 'c' && "application/dicom"@[15] == 'o' && "application/dicom"@[16] == 'm');
    assert("application/x-7z-compressed"@.len() == 27 && "application/x-7z-compressed"@[0] == 'a' && "application/x-7z-compressed"@[1] == 'p' && "application/x-7z-compressed"@[2] == 'p' && "application/x-7z-compressed"@[3] == 'l' && "application/x-7z-compressed"@[4] == 'i' && "application/x-7z-compressed"@[5] == 'c' && "application/x-7z-compressed"@[6] == 'a' && "application/x-7z-compressed"@[7] == 't' && "application/x-7z-compressed"@[8] == 'i' && "application/x-7z-compressed"@[9] == 'o' && "application/x-7z-compressed"@[10] == 'n' && "application/x-7z-compressed"@[11] == '/' && "application/x-7z-compressed"@[12] == 'x' && "application/x-7z-compressed"@[13] == '-' && "application/x-7z-compressed"@[14] == '7' && "application/x-7z-compressed"@[15] == 'z' && "application/x-7z-compressed"@[16] == '-' && "application/x-7z-compressed"@[17] == 'c' && "application/x-7z-compressed"@[18] == 'o' && "application/x-7z-compressed"@[19] == 'm' && "application/x-7z-compressed"@[20] == 'p' && "application/x-7z-compressed"@[21] == 'r' && "application/x-7z-compressed"@[22] == 'e' && "application/x-7z-compressed"@[23] == 's' && "application/x-7z-compressed"@[24] == 's' && "application/x-7z-compressed"@[25] == 'e' && "application/x-7z-compressed"@[26] == 'd');
    assert("application/wasm"@.len() == 16 && "application/wasm"@[0] == 'a' && "application/wasm"@[1] == 'p' && "application/wasm"@[2] == 'p' && "application/wasm"@[3] == 'l' && "application/wasm"@[4] == 'i' && "application/wasm"@[5] == 'c' && "application/wasm"@[6] == 'a' && "application/wasm"@[7] == 't' && "application/wasm"@[8] == 'i' && "application/wasm"@[9] == 'o' && "application/wasm"@[10] == 'n' && "application/wasm"@[11] == '/' && "application/wasm"@[12] == 'w' && "application/wasm"@[13] == 'a' && "application/wasm"@[14] == 's' && "application/wasm"@[15] == 'm');
    assert("video/x-msvideo"@.len() == 15 && "video/x-msvideo"@[0] == 'v' && "video/x-msvideo"@[1] == 'i' && "video/x-msvideo"@[2] == 'd' && "video/x-msvideo"@[3] == 'e' && "video/x-msvideo"@[4] == 'o' && "video/x-msvideo"@[5] == '/' && "video/x-msvideo"@[6] == 'x' && "video/x-msvideo"@[7] == '-' && "video/x-msvideo"@[8] == 'm' && "video/x-msvideo"@[9] == 's' && "video/x-msvideo"@[10] == 'v' && "video/x-msvideo"@[11] == 'i' && "video/x-msvideo"@[12] == 'd' && "video/x-msvideo"@[13] == 'e' && "video/x-msvideo"@[14] == 'o');
    assert("video/mpeg"@.len() == 10 && "video/mpeg"@[0] == 'v' && "video/mpeg"@[1] == 'i' && "video/mpeg"@[2] == 'd' && "video/mpeg"@[3] == 'e' && "video/mpeg"@[4] == 'o' && "video/mpeg"@[5] == '/' && "video/mpeg"@[6] == 'm' && "video/mpeg"@[7] == 'p' && "video/mpeg"@[8] == 'e' && "video/mpeg"@[9] == 'g');
    assert("video/mp2t"@.len() == 10 && "video/mp2t"@[0] == 'v' && "video/mp2t"@[1] == 'i' && "video/mp2t"@[2] == 'd' && "video/mp2t"@[3] == 'e' && "video/mp2t"@[4] == 'o' && "video/mp2t"@[5] == '/' && "video/mp2t"@[6] == 'm' && "video/mp2t"@[7] == 'p' && "video/mp2t"@[8] == '2' && "video/mp2t"@[9] == 't');
    assert("video/3gpp"@.len() == 10 && "video/3gpp"@[0] == 'v' && "video/3gpp"@[1] == 'i' && "video/3gpp"@[2] == 'd' && "video/3gpp"@[3] == 'e' && "video/3gpp"@[4] == 'o' && "video/3gpp"@[5] == '/' && "video/3gpp"@[6] == '3' && "video/3gpp"@[7] == 'g' && "video/3gpp"@[8] == 'p' && "video/3gpp"@[9] == 'p');
    assert("video/3gpp2"@.len() == 11 && "video/3gpp2"@[0] == 'v' && "video/3gpp2"@[1] == 'i' && "video/3gpp2"@[2] == 'd' && "video/3gpp2"@[3] == 'e' && "video/3gpp2"@[4] == 'o' && "video/3gpp2"@[5] == '/' && "video/3gpp2"@[6] == '3' && "video/3gpp2"@[7] == 'g' && "video/3gpp2"@[8] == 'p' && "video/3gpp2"@[9] == 'p' && "video/3gpp2"@[10] == '2');
    assert("audio/3gpp"@.len() == 10 && "audio/3gpp"@[0] == 'a' && "audio/3gpp"@[1] == 'u' && "audio/3gpp"@[2] == 'd' && "audio/3gpp"@[3] == 'i' && "audio/3gpp"@[4] == 'o' && "audio/3gpp"@[5] == '/' && "audio/3gpp"@[6] == '3' && "audio/3gpp"@[7] == 'g' && "audio/3gpp"@[8] == 'p' && "audio/3gpp"@[9] == 'p');
    assert("audio/3gpp2"@.len() == 11 && "audio/3gpp2"@[0] == 'a' && "audio/3gpp2"@[1] == 'u' && "audio/3gpp2"@[2] == 'd' && "audio/3gpp2"@[3] == 'i' && "audio/3gpp2"@[4] == 'o' && "audio/3gpp2"@[5] == '/' && "audio/3gpp2"@[6] == '3' && "audio/3gpp2"@[7] == 'g' && "audio/3gpp2"@[8] == 'p' && "audio/3gpp2"@[9] == 'p' && "audio/3gpp2"@[10] == '2');
    assert("image/avif"@.len() == 10 && "image/avif"@[0] == 'i' && "image/avif"@[1] == 'm' && "image/avif"@[2] == 'a' && "image/avif"@[3] == 'g' && "image/avif"@[4] == 'e' && "image/avif"@[5] == '/' && "image/avif"@[6] == 'a' && "image/avif"@[7] == 'v' && "image/avif"@[8] == 'i' && "image/avif"@[9] == 'f');
    assert("image/apng"@.len() == 10 && "image/apng"@[0] == 'i' && "image/apng"@[1] == 'm' && "image/apng"@[2] == 'a' && "image/apng"@[3] == 'g' && "image/apng"@[4] == 'e' && "image/apng"@[5] == '/' && "image/apng"@[6] == 'a' && "image/apng"@[7] == 'p' && "image/apng"@[8] == 'n' && "image/apng"@[9] == 'g');
    assert("image/tiff"@.len() == 10 && "image/tiff"@[0] == 'i' && "image/tiff"@[1] == 'm' && "image/tiff"@[2] == 'a' && "image/tiff"@[3] == 'g' && "image/tiff"@[4] == 'e' && "image/tiff"@[5] == '/' && "image/tiff"@[6] == 't' && "image/tiff"@[7] == 'i' && "image/tiff"@[8] == 'f' && "image/tiff"@[9] == 'f');
    assert("audio/aac"@.len() == 9 && "audio/aac"@[0] == 'a' && "audio/aac"@[1] == 'u' && "audio/aac"@[2] == 'd' && "audio/aac"@[3] == 'i' && "audio/aac"@[4] == 'o' && "audio/aac"@[5] == '/' && "audio/aac"@[6] == 'a' && "audio/aac"@[7] == 'a' && "audio/aac"@[8] == 'c');
    assert("audio/midi"@.len() == 10 && "audio/midi"@[0] == 'a' && "audio/midi"@[1] == 'u' && "audio/midi"@[2] == 'd' && "audio/midi"@[3] == 'i' && "audio/midi"@[4] == 'o' && "audio/midi"@[5] == '/' && "audio/midi"@[6] == 'm' && "audio/midi"@[7] == 'i' && "audio/midi"@[8] == 'd' && "audio/midi"@[9] == 'i');
    assert("audio/mpeg"@.len() == 10 && "audio/mpeg"@[0] == 'a' && "audio/mpeg"@[1] == 'u' && "audio/mpeg"@[2] == 'd' && "audio/mpeg"@[3] == 'i' && "audio/mpeg"@[4] == 'o' && "audio/mpeg"@[5] == '/' && "audio/mpeg"@[6] == 'm' && "audio/mpeg"@[7] == 'p' && "audio/mpeg"@[8] == 'e' && "audio/mpeg"@[9] == 'g');
    assert("audio/ogg"@.len() == 9 && "audio/ogg"@[0] == 'a' && "audio/ogg"@[1] == 'u' && "audio/ogg"@[2] == 'd' && "audio/ogg"@[3] == 'i' && "audio/ogg"@[4] == 'o' && "audio/ogg"@[5] == '/' && "audio/ogg"@[6] == 'o' && "audio/ogg"@[7] == 'g' && "audio/ogg"@[8] == 'g');
    assert("audio/wav"@.len() == 9 && "audio/wav"@[0] == 'a' && "audio/wav"@[1] == 'u' && "audio/wav"@[2] == 'd' && "audio/wav"@[3] == 'i' && "audio/wav"@[4] == 'o' && "audio/wav"@[5] == '/' && "audio/wav"@[6] == 'w' && "audio/wav"@[7] == 'a' && "audio/wav"@[8] == 'v');
    assert("audio/webm"@.len() == 10 && "audio/webm"@[0] == 'a' && "audio/webm"@[1] == 'u' && "audio/webm"@[2] == 'd' && "audio/webm"@[3] == 'i' && "audio/webm"@[4] == 'o' && "audio/webm"@[5] == '/' && "audio/webm"@[6] == 'w' && "audio/webm"@[7] == 'e' && "audio/webm"@[8] == 'b' && "audio/webm"@[9] == 'm');
    assert("text/csv"@.len() == 8 && "text/csv"@[0] == 't' && "text/csv"@[1] == 'e' && "text/csv"@[2] == 'x' && "text/csv"@[3] == 't' && "text/csv"@[4] == '/' && "text/csv"@[5] == 'c' && "text/csv"@[6] == 's' && "text/csv"@[7] == 'v');
    assert("text/calendar"@.len() == 13 && "text/calendar"@[0] == 't' && "text/calendar"@[1] == 'e' && "text/calendar"@[2] == 'x' && "text/calendar"@[3] == 't' && "text/calendar"@[4] == '/' && "text/calendar"@[5] == 'c' && "text/calendar"@[6] == 'a' && "text/calendar"@[7] == 'l' && "text/calendar"@[8] == 'e' && "text/calendar"@[9] == 'n' && "text/calendar"@[10] == 'd' && "text/calendar"@[11] == 'a' && "text/calendar"@[12] == 'r');
    assert("application/yaml"@.len() == 16 && "application/yaml"@[0] == 'a' && "application/yaml"@[1] == 'p' && "application/yaml"@[2] == 'p' && "application/yaml"@[3] == 'l' && "application/yaml"@[4] == 'i' && "application/yaml"@[5] == 'c' && "application/yaml"@[6] == 'a' && "application/yaml"@[7] == 't' && "application/yaml"@[8] == 'i' && "application/yaml"@[9] == 'o' && "application/yaml"@[10] == 'n' && "application/yaml"@[11] == '/' && "application/yaml"@[12] == 'y' && "application/yaml"@[13] == 'a' && "application/yaml"@[14] == 'm' && "application/yaml"@[15] == 'l');
    assert("text/x-lua"@.len() == 10 && "text/x-lua"@[0] == 't' && "text/x-lua"@[1] == 'e' && "text/x-lua"@[2] == 'x' && "text/x-lua"@[3] == 't' && "text/x-lua"@[4] == '/' && "text/x-lua"@[5] == 'x' && "text/x-lua"@[6] == '-' && "text/x-lua"@[7] == 'l' && "text/x-lua"@[8] == 'u' && "text/x-lua"@[9] == 'a');
    assert("application/x-lua-bytecode"@.len() == 26 && "application/x-lua-bytecode"@[0] == 'a' && "application/x-lua-bytecode"@[1] == 'p' && "application/x-lua-bytecode"@[2] == 'p' && "application/x-lua-bytecode"@[3] == 'l' && "application/x-lua-bytecode"@[4] == 'i' && "application/x-lua-bytecode"@[5] == 'c' && "application/x-lua-bytecode"@[6] == 'a' && "application/x-lua-bytecode"@[7] == 't' && "application/x-lua-bytecode"@[8] == 'i' && "application/x-lua-bytecode"@[9] == 'o' && "application/x-lua-bytecode"@[10] == 'n' && "application/x-lua-bytecode"@[11] == '/' && "application/x-lua-bytecode"@[12] == 'x' && "application/x-lua-bytecode"@[13] == '-' && "application/x-lua-bytecode"@[14] == 'l' && "application/x-lua-bytecode"@[15] == 'u' && "application/x-lua-bytecode"@[16] == 'a' && "application/x-lua-bytecode"@[17] == '-' && "application/x-lua-bytecode"@[18] == 'b' && "application/x-lua-bytecode"@[19] == 'y' && "application/x-lua-bytecode"@[20] == 't' && "application/x-lua-bytecode"@[21] == 'e' && "application/x-lua-bytecode"@[22] == 'c' && "application/x-lua-bytecode"@[23] == 'o' && "application/x-lua-bytecode"@[24] == 'd' && "application/x-lua-bytecode"@[25] == 'e');
    assert("application/x-xz"@.len() == 16 && "application/x-xz"@[0] == 'a' && "application/x-xz"@[1] == 'p' && "application/x-xz"@[2] == 'p' && "application/x-xz"@[3] == 'l' && "application/x-xz"@[4] == 'i' && "application/x-xz"@[5] == 'c' && "application/x-xz"@[6] == 'a' && "application/x-xz"@[7] == 't' && "application/x-xz"@[8] == 'i' && "application/x-xz"@[9] == 'o' && "application/x-xz"@[10] == 'n' && "application/x-xz"@[11] == '/' && "application/x-xz"@[12] == 'x' && "application/x-xz"@[13] == '-' && "application/x-xz"@[14] == 'x' && "application/x-xz"@[15] == 'z');
}

// ---------------------------------------------------------------- accept header round trip

/// Can an accept mime type stand as one part of an Accept header and be read back?
/// Its text is not empty, neither starts nor ends with white space, holds no "," and
/// no ";", and reads back as the same accept mime type.
pub open spec fn header_safe_target(t: TiiAcceptMimeType<Seq<char>>) -> bool {
    let s = accept_target_text(t);
    &&& s.len() > 0
    &&& !crate::text::is_white_space(s[0])
    &&& !crate::text::is_white_space(s.last())
    &&& !s.contains(',')
    &&& !s.contains(';')
    &&& accept_target_of(s) == Some(t)
}

/// The texts of the items, one per item.
pub open spec fn accept_item_texts(items: Seq<AcceptItem>) -> Seq<Seq<char>> {
    Seq::new(items.len(), |i: int| accept_item_text(items[i]))
}

proof fn lemma_split_single(s: Seq<char>, c: char)
    requires
        !s.contains(c),
    ensures
        split_seq(s, c) == seq![s],
{
    assert forall|j: int| 0 <= j < s.len() implies s[j] != c by {
        if s[j] == c {
            assert(s.contains(c));
        }
    }
    crate::text::lemma_index_of(s, c, -1);
}

proof fn lemma_split_append(a: Seq<char>, b: Seq<char>, c: char)
    ensures
        split_seq(a + seq![c] + b, c) == split_seq(a, c) + split_seq(b, c),
    decreases a.len(),
{
    let s = a + seq![c] + b;
    lemma_index_of_bounds(a, c);
    let i = index_of(a, c);
    if i < 0 {
        assert(s[a.len() as int] == c);
        assert forall|j: int| 0 <= j < a.len() implies s[j] != c by {
            assert(s[j] == a[j]);
            if a[j] == c {
                assert(a.contains(c));
            }
        }
        crate::text::lemma_index_of(s, c, a.len() as int);
        assert(s.take(a.len() as int) =~= a);
        assert(s.skip(a.len() as int + 1) =~= b);
    } else {
        assert(s[i] == a[i]);
        assert forall|j: int| 0 <= j < i implies s[j] != c by {
            assert(s[j] == a[j]);
        }
        crate::text::lemma_index_of(s, c, i);
        assert(s.take(i) =~= a.take(i));
        assert(s.skip(i + 1) =~= a.skip(i + 1) + seq![c] + b);
        lemma_split_append(a.skip(i + 1), b, c);
        assert(split_seq(a, c) == seq![a.take(i)] + split_seq(a.skip(i + 1), c));
        assert(split_seq(s, c) =~= split_seq(a, c) + split_seq(b, c));
    }
}

proof fn lemma_trim_unchanged(s: Seq<char>)
    requires
        s.len() > 0,
        !crate::text::is_white_space(s[0]),
        !crate::text::is_white_space(s.last()),
    ensures
        trim_seq(s) == s,
{
    assert(crate::text::lead_ws(s) == 0);
    assert(s.skip(0) =~= s);
    assert(crate::text::trail_ws(s) == 0);
    assert(s.take(s.len() as int) =~= s);
}

#[verifier::spinoff_prover]
#[verifier::rlimit(60)]
proof fn lemma_accept_piece_round_trip(it: AcceptItem)
    requires
        header_safe_target(it.0),
        it.1 <= 1000,
    ensures
        accept_piece_of(accept_item_text(it)) == Some(it),
        accept_item_text(it).len() > 0,
        !accept_item_text(it).contains(','),
{
    reveal_strlit(";q=");
    reveal_strlit("q=");
    reveal_strlit("1.0");
    reveal_strlit("0.");
    let t = accept_target_text(it.0);
    let text = accept_item_text(it);
    assert forall|j: int| 0 <= j < t.len() implies t[j] != ';' && t[j] != ',' by {
        if t[j] == ';' {
            assert(t.contains(';'));
        }
        if t[j] == ',' {
            assert(t.contains(','));
        }
    }
    if it.1 == 1000 {
        lemma_trim_unchanged(text);
        crate::text::lemma_index_of(t, ';', -1);
    } else {
        let qt = qvalue_text(it.1);
        assert(text == t + ";q="@ + qt);
        let q = it.1;
        let d1 = digit_char((q / 100) as nat);
        let d2 = digit_char(((q / 10) % 10) as nat);
        let d3 = digit_char((q % 10) as nat);
        lemma_digit_char((q / 100) as nat);
        lemma_digit_char(((q / 10) % 10) as nat);
        lemma_digit_char((q % 10) as nat);
        assert(qt.len() > 0);
        assert(qt.last() == d1 || qt.last() == d2 || qt.last() == d3);
        assert(text.last() == qt.last());
        assert(text[0] == t[0]);
        lemma_trim_unchanged(text);
        assert(text[t.len() as int] == ';');
        assert forall|j: int| 0 <= j < t.len() implies text[j] != ';' by {
            assert(text[j] == t[j]);
        }
        crate::text::lemma_index_of(text, ';', t.len() as int);
        assert(text.skip(t.len() as int + 1) =~= "q="@ + qt);
        assert(("q="@ + qt).take(2) =~= "q="@);
        assert(("q="@ + qt).skip(2) =~= qt);
        assert(text.take(t.len() as int) =~= t);
        lemma_qvalue_text_round_trip(q);
        assert forall|j: int| 0 <= j < text.len() implies text[j] != ',' by {
            if j < t.len() {
                assert(text[j] == t[j]);
            } else if j >= t.len() + 3 {
                assert(text[j] == qt[j - t.len() - 3]);
            }
        }
        assert(!text.contains(','));
    }
}

proof fn lemma_accept_texts_split(items: Seq<AcceptItem>)
    requires
        items.len() > 0,
        forall|i: int| 0 <= i < items.len() ==> header_safe_target(#[trigger] items[i].0) && items[i].1 <= 1000,
    ensures
        split_seq(accept_header_text(items), ',') == accept_item_texts(items),
        accept_header_text(items).len() > 0,
    decreases items.len(),
{
    let last = items.last();
    assert(header_safe_target(items[items.len() - 1].0));
    lemma_accept_piece_round_trip(last);
    let t = accept_item_text(last);
    if items.len() == 1 {
        assert(accept_header_text(items.drop_last()) == Seq::<char>::empty());
        lemma_split_single(t, ',');
        assert(accept_item_texts(items) =~= seq![t]);
    } else {
        let rest = items.drop_last();
        assert forall|i: int| 0 <= i < rest.len() implies header_safe_target(#[trigger] rest[i].0) && rest[i].1
            <= 1000 by {
            assert(rest[i] == items[i]);
        }
        lemma_accept_texts_split(rest);
        let b = accept_header_text(rest);
        assert(accept_header_text(items) == b + ","@ + t);
        reveal_strlit(",");
        assert(","@ =~= seq![',']);
        lemma_split_append(b, t, ',');
        lemma_split_single(t, ',');
        assert(accept_item_texts(items) =~= accept_item_texts(rest) + seq![t]);
    }
}

proof fn lemma_accept_pieces_round_trip(items: Seq<AcceptItem>)
    requires
        forall|i: int| 0 <= i < items.len() ==> header_safe_target(#[trigger] items[i].0) && items[i].1 <= 1000,
    ensures
        accept_pieces_of(accept_item_texts(items)) == Some(items),
    decreases items.len(),
{
    if items.len() > 0 {
        let rest = items.drop_last();
        assert forall|i: int| 0 <= i < rest.len() implies header_safe_target(#[trigger] rest[i].0) && rest[i].1
            <= 1000 by {
            assert(rest[i] == items[i]);
        }
        lemma_accept_pieces_round_trip(rest);
        assert(accept_item_texts(items).drop_last() =~= accept_item_texts(rest));
        assert(header_safe_target(items[items.len() - 1].0));
        lemma_accept_piece_round_trip(items.last());
        assert(rest.push(items.last()) =~= items);
    } else {
        assert(accept_item_texts(items) =~= Seq::<Seq<char>>::empty());
    }
}

/// What `elements_to_header_value` writes, `TiiAcceptQualityMimeType::parse` reads back:
/// the same items, in descending order of quality value. This holds for every list
/// that is not empty and whose accept mime types can stand in an Accept header.
pub proof fn lemma_accept_header_round_trip(items: Seq<AcceptItem>)
    requires
        items.len() > 0,
        forall|i: int| 0 <= i < items.len() ==> header_safe_target(#[trigger] items[i].0) && items[i].1 <= 1000,
    ensures
        accept_list_of(accept_header_text(items)) == Some(by_quality(items, 1001)),
{
    lemma_accept_texts_split(items);
    lemma_accept_pieces_round_trip(items);
}

/// No text that ends in "*" names a mime type.
#[verifier::spinoff_prover]
#[verifier::rlimit(100)]
proof fn lemma_star_is_no_mime_type(s: Seq<char>)
    requires
        s.len() > 0,
        s.last() == '*',
    ensures
        mime_type_of(s) is None,
{
    reveal_strlit("text/css");
    reveal_strlit("text/html");
    reveal_strlit("text/javascript");
    reveal_strlit("text/plain");
    reveal_strlit("image/bmp");
    reveal_strlit("image/gif");
    reveal_strlit("image/jpeg");
    reveal_strlit("image/png");
    reveal_strlit("image/webp");
    reveal_strlit("image/svg+xml");
    reveal_strlit("image/vnd.microsoft.icon");
    reveal_strlit("application/octet-stream");
    reveal_strlit("application/json");
    reveal_strlit("application/pdf");
    reveal_strlit("application/zip");
    reveal_strlit("video/mp4");
    reveal_strlit("video/ogg");
    reveal_strlit("video/webm");
    reveal_strlit("font/ttf");
    reveal_strlit("font/otf");
    reveal_strlit("font/woff");
    reveal_strlit("font/woff2");
    reveal_strlit("application/x-abiword");
    reveal_strlit("application/x-freearc");
    reveal_strlit("application/vnd.amazon.ebook");
    reveal_strlit("application/x-bzip");
    reveal_strlit("application/x-bzip2");
    reveal_strlit("application/x-cdf");
    reveal_strlit("application/x-csh");
    reveal_strlit("application/msword");
    reveal_strlit("application/vnd.openxmlformats-officedocument.wordprocessingml.document");
    reveal_strlit("application/vnd.ms-fontobject");
    reveal_strlit("application/epub+zip");
    reveal_strlit("application/gzip");
    reveal_strlit("application/java-archive");
    reveal_strlit("application/x-java-class");
    reveal_strlit("application/ld+json");
    reveal_strlit("application/vnd.apple.installer+xml");
    reveal_strlit("application/vnd.oasis.opendocument.presentation");
    reveal_strlit("application/vnd.oasis.opendocument.spreadsheet");
    reveal_strlit("application/vnd.oasis.opendocument.text");
    reveal_strlit("application/ogg");
    reveal_strlit("application/x-httpd-php");
    reveal_strlit("application/vnd.ms-powerpoint");
    reveal_strlit("application/vnd.openxmlformats-officedocument.presentationml.presentation");
    reveal_strlit("application/vnd.rar");
    reveal_strlit("application/rtf");
    reveal_strlit("application/x-sh");
    reveal_strlit("application/x-tar");
    reveal_strlit("application/vnd.visio");
    reveal_strlit("application/xhtml+xml");
    reveal_strlit("application/vnd.ms-excel");
    reveal_strlit("application/vnd.openxmlformats-officedocument.spreadsheetml.sheet");
    reveal_strlit("application/xml");
    reveal_strlit("application/vnd.mozilla.xul+xml");
    reveal_strlit("application/dicom");
    reveal_strlit("application/x-7z-compressed");
    reveal_strlit("application/wasm");
    reveal_strlit("video/x-msvideo");
    reveal_strlit("video/mpeg");
    reveal_strlit("video/mp2t");
    reveal_strlit("video/3gpp");
    reveal_strlit("video/3gpp2");
    reveal_strlit("audio/3gpp");
    reveal_strlit("audio/3gpp2");
    reveal_strlit("image/avif");
    reveal_strlit("image/apng");
    reveal_strlit("image/tiff");
    reveal_strlit("audio/aac");
    reveal_strlit("audio/midi");
    reveal_strlit("audio/mpeg");
    reveal_strlit("audio/ogg");
    reveal_strlit("audio/wav");
    reveal_strlit("audio/webm");
    reveal_strlit("text/csv");
    reveal_strlit("text/calendar");
    reveal_strlit("application/yaml");
    reveal_strlit("text/x-lua");
    reveal_strlit("application/x-lua-bytecode");
    reveal_strlit("application/x-xz");
    assert(!header_char_ok('*'));
    assert(!is_other_mime_text(s)) by {
        assert(s[s.len() - 1] != '/' && !header_char_ok(s[s.len() - 1]));
    }
}

/// "*/*" and every well known group wildcard, such as "text/*", can stand in an Accept header.
pub proof fn lemma_wildcards_header_safe(t: TiiAcceptMimeType<Seq<char>>)
    requires
        t is Wildcard || (t matches TiiAcceptMimeType::GroupWildcard(g) && !(g is Other)),
    ensures
        header_safe_target(t),
{
    reveal_strlit("*/*");
    reveal_strlit("/*");
    let s = accept_target_text(t);
    match t {
        TiiAcceptMimeType::Wildcard => {
            assert(s.len() == 3 && s[0] == '*' && s[1] == '/' && s[2] == '*');
            assert(s.last() == '*');
            assert(!s.contains(',')) by {
                assert forall|j: int| 0 <= j < s.len() implies s[j] != ',' by {}
            }
            assert(!s.contains(';')) by {
                assert forall|j: int| 0 <= j < s.len() implies s[j] != ';' by {}
            }
        },
        TiiAcceptMimeType::GroupWildcard(g) => {
            reveal_strlit("font");
            reveal_strlit("application");
            reveal_strlit("image");
            reveal_strlit("video");
            reveal_strlit("audio");
            reveal_strlit("text");
            let gt = group_text(g);
            assert(s == gt + "/*"@);
            assert forall|j: int| 0 <= j < gt.len() implies gt[j] != '/' && gt[j] != ',' && gt[j] != ';'
                && gt[j] != '*' && header_char_ok(#[trigger] gt[j]) by {}
            assert forall|j: int| 0 <= j < s.len() implies s[j] != ',' && s[j] != ';' by {
                if j < gt.len() {
                    assert(s[j] == gt[j]);
                }
            }
            assert(s != "*/*"@) by {
                assert(s[0] == gt[0]);
            }
            // no well known mime type and no other mime type ends in "*"
            assert(s.last() == '*');
            lemma_index_of(s, '/', gt.len() as int);
            assert(s.take(gt.len() as int) =~= gt);
            assert(s.skip(gt.len() as int) =~= "/*"@);
            lemma_star_is_no_mime_type(s);
            assert(!s.contains(',') && !s.contains(';'));
            lemma_group_text_round_trip(g);
            assert(group_part(s) == gt);
        },
        _ => {},
    }
}

// ---------------------------------------------------------------- texts of well known mime types

/// A character that the texts of the well known mime types are made of, besides "/".
spec fn plain_mime_char(c: char) -> bool {
    ('a' <= c && c <= 'z') || ('0' <= c && c <= '9') || c == '.' || c == '-' || c == '+'
}

/// The text of a mime type can stand in a header: not empty, no white space at
/// either end, and no ",", ";" or "*".
spec fn header_safe_text(s: Seq<char>) -> bool {
    &&& s.len() > 0
    &&& !crate::text::is_white_space(s[0])
    &&& !crate::text::is_white_space(s.last())
    &&& !s.contains(',')
    &&& !s.contains(';')
    &&& !s.contains('*')
}

proof fn lemma_plain_mime_text(s: Seq<char>, k: int)
    requires
        0 < k,
        k + 1 < s.len(),
        s[k] == '/',
        forall|j: int| 0 <= j < s.len() && j != k ==> plain_mime_char(#[trigger] s[j]),
    ensures
        header_safe_text(s),
        group_part(s) == s.take(k),
        all_header_chars(s.take(k)),
{
    assert(plain_mime_char(s[0]));
    assert(plain_mime_char(s[s.len() - 1]));
    assert forall|j: int| 0 <= j < k implies s[j] != '/' by {
        assert(plain_mime_char(s[j]));
    }
    lemma_index_of(s, '/', k);
    assert forall|j: int| 0 <= j < s.len() implies s[j] != ',' && s[j] != ';' && s[j] != '*' by {
        if j != k {
            assert(plain_mime_char(s[j]));
        }
    }
    assert forall|j: int| 0 <= j < s.take(k).len() implies header_char_ok(#[trigger] s.take(k)[j]) by {
        assert(plain_mime_char(s[j]));
    }
}


#[verifier::spinoff_prover]
#[verifier::rlimit(100)]
proof fn lemma_font_mime_texts(m: TiiMimeType<Seq<char>>)
    requires
        !(m is Other),
        mime_group_spec(m) is Font,
    ensures
        header_safe_text(mime_text(m)),
        group_part(mime_text(m)) == "font"@,
        all_header_chars("font"@),
{
    reveal_strlit("font");
    let s = mime_text(m);
    match m {
        TiiMimeType::FontTtf => {
            reveal_strlit("font/ttf");
            lemma_plain_mime_text(s, 4);
            assert(s.take(4) =~= "font"@);
        },
        TiiMimeType::FontOtf => {
            reveal_strlit("font/otf");
            lemma_plain_mime_text(s, 4);
            assert(s.take(4) =~= "font"@);
        },
        TiiMimeType::FontWoff => {
            reveal_strlit("font/woff");
            lemma_plain_mime_text(s, 4);
            assert(s.take(4) =~= "font"@);
        },
        TiiMimeType::FontWoff2 => {
            reveal_strlit("font/woff2");
            lemma_plain_mime_text(s, 4);
            assert(s.take(4) =~= "font"@);
        },
        _ => {},
    }
}

#[verifier::spinoff_prover]
#[verifier::rlimit(100)]
proof fn lemma_application_mime_texts(m: TiiMimeType<Seq<char>>)
    requires
        !(m is Other),
        mime_group_spec(m) is Application,
    ensures
        header_safe_text(mime_text(m)),
        group_part(mime_text(m)) == "application"@,
        all_header_chars("application"@),
{
    reveal_strlit("application");
    let s = mime_text(m);
    match m {
        TiiMimeType::ApplicationOctetStream => {
            reveal_strlit("application/octet-stream");
            lemma_plain_mime_text(s, 11);
            assert(s.take(11) =~= "application"@);
        },
        TiiMimeType::ApplicationJson => {
            reveal_strlit("application/json");
            lemma_plain_mime_text(s, 11);
            assert(s.take(11) =~= "application"@);
        },
        TiiMimeType::ApplicationPdf => {
            reveal_strlit("application/pdf");
            lemma_plain_mime_text(s, 11);
            assert(s.take(11) =~= "application"@);
        },
        TiiMimeType::ApplicationZip => {
            reveal_strlit("application/zip");
            lemma_plain_mime_text(s, 11);
            assert(s.take(11) =~= "application"@);
        },
        TiiMimeType::ApplicationAbiWord => {
            reveal_strlit("application/x-abiword");
            lemma_plain_mime_text(s, 11);
            assert(s.take(11) =~= "application"@);
        },
        TiiMimeType::ApplicationFreeArc => {
            reveal_strlit("application/x-freearc");
            lemma_plain_mime_text(s, 11);
            assert(s.take(11) =~= "application"@);
        },
        TiiMimeType::ApplicationAmazonEbook => {
            reveal_strlit("application/vnd.amazon.ebook");
            lemma_plain_mime_text(s, 11);
            assert(s.take(11) =~= "application"@);
        },
        TiiMimeType::ApplicationBzip => {
            reveal_strlit("application/x-bzip");
            lemma_plain_mime_text(s, 11);
            assert(s.take(11) =~= "application"@);
        },
        TiiMimeType::ApplicationBzip2 => {
            reveal_strlit("application/x-bzip2");
            lemma_plain_mime_text(s, 11);
            assert(s.take(11) =~= "application"@);
        },
        TiiMimeType::ApplicationCDAudio => {
            reveal_strlit("application/x-cdf");
            lemma_plain_mime_text(s, 11);
            assert(s.take(11) =~= "application"@);
        },
        TiiMimeType::ApplicationCShell => {
            reveal_strlit("application/x-csh");
            lemma_plain_mime_text(s, 11);
            assert(s.take(11) =~= "application"@);
        },
        TiiMimeType::ApplicationMicrosoftWord => {
            reveal_strlit("application/msword");
            lemma_plain_mime_text(s, 11);
            assert(s.take(11) =~= "application"@);
        },
        TiiMimeType::ApplicationMicrosoftWordXml => {
            reveal_strlit("application/vnd.openxmlformats-officedocument.wordprocessingml.document");
            lemma_plain_mime_text(s, 11);
            assert(s.take(11) =~= "application"@);
        },
        TiiMimeType::ApplicationMicrosoftFont => {
            reveal_strlit("application/vnd.ms-fontobject");
            lemma_plain_mime_text(s, 11);
            assert(s.take(11) =~= "application"@);
        },
        TiiMimeType::ApplicationEpub => {
            reveal_strlit("application/epub+zip");
            lemma_plain_mime_text(s, 11);
            assert(s.take(11) =~= "application"@);
        },
        TiiMimeType::ApplicationGzip => {
            reveal_strlit("application/gzip");
            lemma_plain_mime_text(s, 11);
            assert(s.take(11) =~= "application"@);
        },
        TiiMimeType::ApplicationJar => {
            reveal_strlit("application/java-archive");
            lemma_plain_mime_text(s, 11);
            assert(s.take(11) =~= "application"@);
        },
        TiiMimeType::ApplicationJavaClass => {
            reveal_strlit("application/x-java-class");
            lemma_plain_mime_text(s, 11);
            assert(s.take(11) =~= "application"@);
        },
        TiiMimeType::ApplicationJsonLd => {
            reveal_strlit("application/ld+json");
            lemma_plain_mime_text(s, 11);
            assert(s.take(11) =~= "application"@);
        },
        TiiMimeType::ApplicationAppleInstallerPackage => {
            reveal_strlit("application/vnd.apple.installer+xml");
            lemma_plain_mime_text(s, 11);
            assert(s.take(11) =~= "application"@);
        },
        TiiMimeType::ApplicationOpenDocumentPresentation => {
            reveal_strlit("application/vnd.oasis.opendocument.presentation");
            lemma_plain_mime_text(s, 11);
            assert(s.take(11) =~= "application"@);
        },
        TiiMimeType::ApplicationOpenDocumentSpreadsheet => {
            reveal_strlit("application/vnd.oasis.opendocument.spreadsheet");
            lemma_plain_mime_text(s, 11);
            assert(s.take(11) =~= "application"@);
        },
        TiiMimeType::ApplicationOpenDocumentText => {
            reveal_strlit("application/vnd.oasis.opendocument.text");
            lemma_plain_mime_text(s, 11);
            assert(s.take(11) =~= "application"@);
        },
        TiiMimeType::ApplicationOgg => {
            reveal_strlit("application/ogg");
            lemma_plain_mime_text(s, 11);
            assert(s.take(11) =~= "application"@);
        },
        TiiMimeType::ApplicationPhp => {
            reveal_strlit("application/x-httpd-php");
            lemma_plain_mime_text(s, 11);
            assert(s.take(11) =~= "application"@);
        },
        TiiMimeType::ApplicationMicrosoftPowerpoint => {
            reveal_strlit("application/vnd.ms-powerpoint");
            lemma_plain_mime_text(s, 11);
            assert(s.take(11) =~= "application"@);
        },
        TiiMimeType::ApplicationMicrosoftPowerpointXml => {
            reveal_strlit("application/vnd.openxmlformats-officedocument.presentationml.presentation");
            lemma_plain_mime_text(s, 11);
            assert(s.take(11) =~= "application"@);
        },
        TiiMimeType::ApplicationRar => {
            reveal_strlit("application/vnd.rar");
            lemma_plain_mime_text(s, 11);
            assert(s.take(11) =~= "application"@);
        },
        TiiMimeType::ApplicationRichText => {
            reveal_strlit("application/rtf");
            lemma_plain_mime_text(s, 11);
            assert(s.take(11) =~= "application"@);
        },
        TiiMimeType::ApplicationBourneShell => {
            reveal_strlit("application/x-sh");
            lemma_plain_mime_text(s, 11);
            assert(s.take(11) =~= "application"@);
        },
        TiiMimeType::ApplicationTapeArchive => {
            reveal_strlit("application/x-tar");
            lemma_plain_mime_text(s, 11);
            assert(s.take(11) =~= "application"@);
        },
        TiiMimeType::ApplicationMicrosoftVisio => {
            reveal_strlit("application/vnd.visio");
            lemma_plain_mime_text(s, 11);
            assert(s.take(11) =~= "application"@);
        },
        TiiMimeType::ApplicationXHtml => {
            reveal_strlit("application/xhtml+xml");
            lemma_plain_mime_text(s, 11);
            assert(s.take(11) =~= "application"@);
        },
        TiiMimeType::ApplicationMicrosoftExcel => {
            reveal_strlit("application/vnd.ms-excel");
            lemma_plain_mime_text(s, 11);
            assert(s.take(11) =~= "application"@);
        },
        TiiMimeType::ApplicationMicrosoftExcelXml => {
            reveal_strlit("application/vnd.openxmlformats-officedocument.spreadsheetml.sheet");
            lemma_plain_mime_text(s, 11);
            assert(s.take(11) =~= "application"@);
        },
        TiiMimeType::ApplicationXml => {
            reveal_strlit("application/xml");
            lemma_plain_mime_text(s, 11);
            assert(s.take(11) =~= "application"@);
        },
        TiiMimeType::ApplicationXul => {
            reveal_strlit("application/vnd.mozilla.xul+xml");
            lemma_plain_mime_text(s, 11);
            assert(s.take(11) =~= "application"@);
        },
        TiiMimeType::ApplicationDicom => {
            reveal_strlit("application/dicom");
            lemma_plain_mime_text(s, 11);
            assert(s.take(11) =~= "application"@);
        },
        TiiMimeType::Application7Zip => {
            reveal_strlit("application/x-7z-compressed");
            lemma_plain_mime_text(s, 11);
            assert(s.take(11) =~= "application"@);
        },
        TiiMimeType::ApplicationWasm => {
            reveal_strlit("application/wasm");
            lemma_plain_mime_text(s, 11);
            assert(s.take(11) =~= "application"@);
        },
        TiiMimeType::ApplicationYaml => {
            reveal_strlit("application/yaml");
            lemma_plain_mime_text(s, 11);
            assert(s.take(11) =~= "application"@);
        },
        TiiMimeType::ApplicationLuaBytecode => {
            reveal_strlit("application/x-lua-bytecode");
            lemma_plain_mime_text(s, 11);
            assert(s.take(11) =~= "application"@);
        },
        TiiMimeType::ApplicationXz => {
            reveal_strlit("application/x-xz");
            lemma_plain_mime_text(s, 11);
            assert(s.take(11) =~= "application"@);
        },
        _ => {},
    }
}

#[verifier::spinoff_prover]
#[verifier::rlimit(100)]
proof fn lemma_image_mime_texts(m: TiiMimeType<Seq<char>>)
    requires
        !(m is Other),
        mime_group_spec(m) is Image,
    ensures
        header_safe_text(mime_text(m)),
        group_part(mime_text(m)) == "image"@,
        all_header_chars("image"@),
{
    reveal_strlit("image");
    let s = mime_text(m);
    match m {
        TiiMimeType::ImageBmp => {
            reveal_strlit("image/bmp");
            lemma_plain_mime_text(s, 5);
            assert(s.take(5) =~= "image"@);
        },
        TiiMimeType::ImageGif => {
            reveal_strlit("image/gif");
            lemma_plain_mime_text(s, 5);
            assert(s.take(5) =~= "image"@);
        },
        TiiMimeType::ImageJpeg => {
            reveal_strlit("image/jpeg");
            lemma_plain_mime_text(s, 5);
            assert(s.take(5) =~= "image"@);
        },
        TiiMimeType::ImagePng => {
            reveal_strlit("image/png");
            lemma_plain_mime_text(s, 5);
            assert(s.take(5) =~= "image"@);
        },
        TiiMimeType::ImageWebp => {
            reveal_strlit("image/webp");
            lemma_plain_mime_text(s, 5);
            assert(s.take(5) =~= "image"@);
        },
        TiiMimeType::ImageSvg => {
            reveal_strlit("image/svg+xml");
            lemma_plain_mime_text(s, 5);
            assert(s.take(5) =~= "image"@);
        },
        TiiMimeType::ImageIcon => {
            reveal_strlit("image/vnd.microsoft.icon");
            lemma_plain_mime_text(s, 5);
            assert(s.take(5) =~= "image"@);
        },
        TiiMimeType::ImageAvif => {
            reveal_strlit("image/avif");
            lemma_plain_mime_text(s, 5);
            assert(s.take(5) =~= "image"@);
        },
        TiiMimeType::ImageApng => {
            reveal_strlit("image/apng");
            lemma_plain_mime_text(s, 5);
            assert(s.take(5) =~= "image"@);
        },
        TiiMimeType::ImageTiff => {
            reveal_strlit("image/tiff");
            lemma_plain_mime_text(s, 5);
            assert(s.take(5) =~= "image"@);
        },
        _ => {},
    }
}

#[verifier::spinoff_prover]
#[verifier::rlimit(100)]
proof fn lemma_video_mime_texts(m: TiiMimeType<Seq<char>>)
    requires
        !(m is Other),
        mime_group_spec(m) is Video,
    ensures
        header_safe_text(mime_text(m)),
        group_part(mime_text(m)) == "video"@,
        all_header_chars("video"@),
{
    reveal_strlit("video");
    let s = mime_text(m);
    match m {
        TiiMimeType::VideoMp4 => {
            reveal_strlit("video/mp4");
            lemma_plain_mime_text(s, 5);
            assert(s.take(5) =~= "video"@);
        },
        TiiMimeType::VideoOgg => {
            reveal_strlit("video/ogg");
            lemma_plain_mime_text(s, 5);
            assert(s.take(5) =~= "video"@);
        },
        TiiMimeType::VideoWebm => {
            reveal_strlit("video/webm");
            lemma_plain_mime_text(s, 5);
            assert(s.take(5) =~= "video"@);
        },
        TiiMimeType::VideoAvi => {
            reveal_strlit("video/x-msvideo");
            lemma_plain_mime_text(s, 5);
            assert(s.take(5) =~= "video"@);
        },
        TiiMimeType::VideoMpeg => {
            reveal_strlit("video/mpeg");
            lemma_plain_mime_text(s, 5);
            assert(s.take(5) =~= "video"@);
        },
        TiiMimeType::VideoMpegTransportStream => {
            reveal_strlit("video/mp2t");
            lemma_plain_mime_text(s, 5);
            assert(s.take(5) =~= "video"@);
        },
        TiiMimeType::Video3gpp => {
            reveal_strlit("video/3gpp");
            lemma_plain_mime_text(s, 5);
            assert(s.take(5) =~= "video"@);
        },
        TiiMimeType::Video3gpp2 => {
            reveal_strlit("video/3gpp2");
            lemma_plain_mime_text(s, 5);
            assert(s.take(5) =~= "video"@);
        },
        _ => {},
    }
}

#[verifier::spinoff_prover]
#[verifier::rlimit(100)]
proof fn lemma_audio_mime_texts(m: TiiMimeType<Seq<char>>)
    requires
        !(m is Other),
        mime_group_spec(m) is Audio,
    ensures
        header_safe_text(mime_text(m)),
        group_part(mime_text(m)) == "audio"@,
        all_header_chars("audio"@),
{
    reveal_strlit("audio");
    let s = mime_text(m);
    match m {
        TiiMimeType::AudioAac => {
            reveal_strlit("audio/aac");
            lemma_plain_mime_text(s, 5);
            assert(s.take(5) =~= "audio"@);
        },
        TiiMimeType::AudioMidi => {
            reveal_strlit("audio/midi");
            lemma_plain_mime_text(s, 5);
            assert(s.take(5) =~= "audio"@);
        },
        TiiMimeType::AudioMpeg => {
            reveal_strlit("audio/mpeg");
            lemma_plain_mime_text(s, 5);
            assert(s.take(5) =~= "audio"@);
        },
        TiiMimeType::AudioOgg => {
            reveal_strlit("audio/ogg");
            lemma_plain_mime_text(s, 5);
            assert(s.take(5) =~= "audio"@);
        },
        TiiMimeType::AudioWaveform => {
            reveal_strlit("audio/wav");
            lemma_plain_mime_text(s, 5);
            assert(s.take(5) =~= "audio"@);
        },
        TiiMimeType::AudioWebm => {
            reveal_strlit("audio/webm");
            lemma_plain_mime_text(s, 5);
            assert(s.take(5) =~= "audio"@);
        },
        TiiMimeType::Audio3gpp => {
            reveal_strlit("audio/3gpp");
            lemma_plain_mime_text(s, 5);
            assert(s.take(5) =~= "audio"@);
        },
        TiiMimeType::Audio3gpp2 => {
            reveal_strlit("audio/3gpp2");
            lemma_plain_mime_text(s, 5);
            assert(s.take(5) =~= "audio"@);
        },
        _ => {},
    }
}

#[verifier::spinoff_prover]
#[verifier::rlimit(100)]
proof fn lemma_text_mime_texts(m: TiiMimeType<Seq<char>>)
    requires
        !(m is Other),
        mime_group_spec(m) is Text,
    ensures
        header_safe_text(mime_text(m)),
        group_part(mime_text(m)) == "text"@,
        all_header_chars("text"@),
{
    reveal_strlit("text");
    let s = mime_text(m);
    match m {
        TiiMimeType::TextCss => {
            reveal_strlit("text/css");
            lemma_plain_mime_text(s, 4);
            assert(s.take(4) =~= "text"@);
        },
        TiiMimeType::TextHtml => {
            reveal_strlit("text/html");
            lemma_plain_mime_text(s, 4);
            assert(s.take(4) =~= "text"@);
        },
        TiiMimeType::TextJavaScript => {
            reveal_strlit("text/javascript");
            lemma_plain_mime_text(s, 4);
            assert(s.take(4) =~= "text"@);
        },
        TiiMimeType::TextPlain => {
            reveal_strlit("text/plain");
            lemma_plain_mime_text(s, 4);
            assert(s.take(4) =~= "text"@);
        },
        TiiMimeType::TextCsv => {
            reveal_strlit("text/csv");
            lemma_plain_mime_text(s, 4);
            assert(s.take(4) =~= "text"@);
        },
        TiiMimeType::TextCalendar => {
            reveal_strlit("text/calendar");
            lemma_plain_mime_text(s, 4);
            assert(s.take(4) =~= "text"@);
        },
        TiiMimeType::TextLua => {
            reveal_strlit("text/x-lua");
            lemma_plain_mime_text(s, 4);
            assert(s.take(4) =~= "text"@);
        },
        _ => {},
    }
}

proof fn lemma_well_known_mime_text(m: TiiMimeType<Seq<char>>)
    requires
        !(m is Other),
    ensures
        header_safe_text(mime_text(m)),
        group_part(mime_text(m)) == group_text(mime_group_spec(m)),
        all_header_chars(group_text(mime_group_spec(m))),
        !(mime_group_spec(m) is Other),
{
    match mime_group_spec(m) {
        TiiMimeGroup::Font => lemma_font_mime_texts(m),
        TiiMimeGroup::Application => lemma_application_mime_texts(m),
        TiiMimeGroup::Image => lemma_image_mime_texts(m),
        TiiMimeGroup::Video => lemma_video_mime_texts(m),
        TiiMimeGroup::Audio => lemma_audio_mime_texts(m),
        TiiMimeGroup::Text => lemma_text_mime_texts(m),
        TiiMimeGroup::Other(_) => {},
    }
}

/// The group of a mime type is the group that its text names, for every well
/// known mime type and for every mime type that a text parses to (such as
/// "text/x-lua", whose group is text).
pub proof fn lemma_mime_group_agrees(m: TiiMimeType<Seq<char>>)
    requires
        !(m is Other) || mime_type_of(mime_text(m)) == Some(m),
    ensures
        mime_group_of(mime_text(m)) == Some(mime_group_spec(m)),
{
    match m {
        TiiMimeType::Other(g, t) => {
            assert(mime_text(m) == t);
            assert(is_other_mime_text(t));
            lemma_index_of_bounds(t, '/');
            let i = index_of(t, '/');
            assert(group_part(t) == t.take(i));
            assert forall|j: int| 0 <= j < t.take(i).len() implies header_char_ok(#[trigger] t.take(i)[j]) by {
                assert(t[j] != '/');
            }
        },
        _ => {
            lemma_well_known_mime_text(m);
            lemma_group_text_round_trip(mime_group_spec(m));
            let g = mime_group_spec(m);
            assert(group_part(group_text(g)) == group_text(g));
        },
    }
}

/// Is an accept mime type made of well known parts: "*/*", the wildcard of a
/// well known group, or a well known mime type?
pub open spec fn well_known_target(t: TiiAcceptMimeType<Seq<char>>) -> bool {
    match t {
        TiiAcceptMimeType::Wildcard => true,
        TiiAcceptMimeType::GroupWildcard(g) => !(g is Other),
        TiiAcceptMimeType::Specific(m) => !(m is Other),
    }
}

/// Every accept mime type made of well known parts can stand in an Accept header.
pub proof fn lemma_well_known_target_header_safe(t: TiiAcceptMimeType<Seq<char>>)
    requires
        well_known_target(t),
    ensures
        header_safe_target(t),
{
    match t {
        TiiAcceptMimeType::Specific(m) => {
            reveal_strlit("*/*");
            let s = mime_text(m);
            lemma_well_known_mime_text(m);
            lemma_mime_text_round_trip(m);
            assert(s != "*/*"@) by {
                if s == "*/*"@ {
                    assert(s[0] == '*');
                    assert(s.contains('*'));
                }
            }
            assert(accept_target_text(t) == s);
        },
        _ => lemma_wildcards_header_safe(t),
    }
}

/// What `elements_to_header_value` writes of a list of accept mime types made
/// of well known parts, `TiiAcceptQualityMimeType::parse` reads back: the same
/// items, in descending order of quality value, for every list that is not empty.
pub proof fn lemma_well_known_accept_header_round_trip(items: Seq<AcceptItem>)
    requires
        items.len() > 0,
        forall|i: int| 0 <= i < items.len() ==> well_known_target(#[trigger] items[i].0) && items[i].1 <= 1000,
    ensures
        accept_list_of(accept_header_text(items)) == Some(by_quality(items, 1001)),
{
    assert forall|i: int| 0 <= i < items.len() implies header_safe_target(#[trigger] items[i].0) && items[i].1
        <= 1000 by {
        lemma_well_known_target_header_safe(items[i].0);
    }
    lemma_accept_header_round_trip(items);
}

/// `a` permits `b` exactly when `a` permits every mime type that `b` permits.
pub proof fn lemma_permits_is_inclusion(a: TiiAcceptMimeType<Seq<char>>, b: TiiAcceptMimeType<Seq<char>>)
    ensures
        permits_spec(a, b) <==> (forall|m: TiiMimeType<Seq<char>>|
            #[trigger] permits_specific_spec(b, m) ==> permits_specific_spec(a, m)),
{
    if permits_spec(a, b) {
        assert forall|m: TiiMimeType<Seq<char>>| #[trigger] permits_specific_spec(b, m) implies permits_specific_spec(
            a,
            m,
        ) by {}
    } else {
        // a mime type that b permits and a does not
        match b {
            TiiAcceptMimeType::Specific(y) => {
                assert(permits_specific_spec(b, y) && !permits_specific_spec(a, y));
            },
            TiiAcceptMimeType::GroupWildcard(g) => {
                let m0 = TiiMimeType::Other(g, Seq::<char>::empty());
                let m1 = TiiMimeType::Other(g, seq!['a']);
                assert(m0 != m1) by {
                    assert(seq!['a'].len() == 1);
                }
                if permits_specific_spec(a, m0) {
                    assert(permits_specific_spec(b, m1) && !permits_specific_spec(a, m1));
                } else {
                    assert(permits_specific_spec(b, m0));
                }
            },
            TiiAcceptMimeType::Wildcard => {
                let g = if a == TiiAcceptMimeType::<Seq<char>>::GroupWildcard(TiiMimeGroup::Font) {
                    TiiMimeGroup::<Seq<char>>::Text
                } else {
                    TiiMimeGroup::<Seq<char>>::Font
                };
                let m0 = TiiMimeType::Other(g, Seq::<char>::empty());
                let m1 = TiiMimeType::Other(g, seq!['a']);
                assert(m0 != m1) by {
                    assert(seq!['a'].len() == 1);
                }
                if permits_specific_spec(a, m0) {
                    assert(permits_specific_spec(b, m1) && !permits_specific_spec(a, m1));
                } else {
                    assert(permits_specific_spec(b, m0));
                }
            },
        }
    }
}

// ---------------------------------------------------------------- what parsing an Accept header gives

proof fn lemma_pieces_items(pieces: Seq<Seq<char>>, xs: Seq<AcceptItem>)
    requires
        accept_pieces_of(pieces) == Some(xs),
    ensures
        xs.len() == pieces.len(),
        forall|j: int| 0 <= j < xs.len() ==> accept_piece_of(#[trigger] pieces[j]) == Some(xs[j]),
    decreases pieces.len(),
{
    if pieces.len() > 0 {
        let ys = accept_pieces_of(pieces.drop_last()).unwrap();
        lemma_pieces_items(pieces.drop_last(), ys);
        assert(xs == ys.push(accept_piece_of(pieces.last()).unwrap()));
        assert forall|j: int| 0 <= j < xs.len() implies accept_piece_of(#[trigger] pieces[j]) == Some(xs[j]) by {
            if j < ys.len() {
                assert(pieces[j] == pieces.drop_last()[j]);
            }
        }
    }
}

proof fn lemma_with_quality_members(items: Seq<AcceptItem>, q: int)
    ensures
        forall|j: int| 0 <= j < with_quality(items, q).len() ==> items.contains(#[trigger] with_quality(items, q)[j]),
    decreases items.len(),
{
    if items.len() > 0 {
        let p = items.drop_last();
        lemma_with_quality_members(p, q);
        let w = with_quality(items, q);
        assert forall|j: int| 0 <= j < w.len() implies items.contains(#[trigger] w[j]) by {
            if j < with_quality(p, q).len() {
                assert(w[j] == with_quality(p, q)[j]);
                assert(p.contains(w[j]));
                let k = choose|k: int| 0 <= k < p.len() && p[k] == w[j];
                assert(items[k] == w[j]);
            } else {
                assert(w[j] == items.last());
                assert(items[items.len() - 1] == w[j]);
            }
        }
    }
}

proof fn lemma_by_quality_members(items: Seq<AcceptItem>, n: nat)
    ensures
        forall|j: int| 0 <= j < by_quality(items, n).len() ==> items.contains(#[trigger] by_quality(items, n)[j]),
    decreases n,
{
    if n > 0 {
        lemma_by_quality_members(items, (n - 1) as nat);
        lemma_with_quality_members(items, 1001 - n);
        let a = by_quality(items, (n - 1) as nat);
        let b = with_quality(items, 1001 - n);
        assert forall|j: int| 0 <= j < (a + b).len() implies items.contains(#[trigger] (a + b)[j]) by {
            if j < a.len() {
                assert((a + b)[j] == a[j]);
            } else {
                assert((a + b)[j] == b[j - a.len()]);
            }
        }
    }
}

proof fn lemma_qvalue_at_most_1000(s: Seq<char>)
    requires
        qvalue_of(s) is Some,
    ensures
        qvalue_of(s).unwrap() <= 1000,
{
    if s.len() >= 3 && has_prefix(s, "0."@) && all_digits(s.skip(2)) && s.len() <= 5 {
        let d = s.skip(2);
        lemma_digits_bound(d);
    }
}

/// The accept mime type that a text names is made of well known parts, or its
/// text is the text it was read from.
proof fn lemma_target_text(m: Seq<char>, t: TiiAcceptMimeType<Seq<char>>)
    requires
        accept_target_of(m) == Some(t),
    ensures
        well_known_target(t) || accept_target_text(t) == m,
{
    match t {
        TiiAcceptMimeType::GroupWildcard(g) => {
            if g is Other {
                let gp = group_part(m);
                lemma_index_of_bounds(m, '/');
                assert(m.skip(gp.len() as int) == "/*"@);
                assert(gp + m.skip(gp.len() as int) =~= m);
            }
        },
        _ => {},
    }
}

/// A part of an Accept header that holds no "," and gives an item whose text
/// does not end in white space gives an item that can stand in an Accept header.
proof fn lemma_parsed_piece_header_safe(p: Seq<char>, it: AcceptItem)
    requires
        accept_piece_of(p) == Some(it),
        !p.contains(','),
        !crate::text::is_white_space(accept_target_text(it.0).last()),
    ensures
        header_safe_target(it.0),
        it.1 <= 1000,
{
    reveal_strlit("*/*");
    let mime = trim_seq(p);
    crate::text::lemma_trim_facts(p, ',');
    lemma_index_of_bounds(mime, ';');
    let i = index_of(mime, ';');
    let m = if i >= 0 { mime.take(i) } else { mime };
    assert(accept_target_of(m) == Some(it.0));
    if i >= 0 {
        lemma_qvalue_at_most_1000(mime.skip(i + 1).skip(2));
    }
    lemma_target_text(m, it.0);
    if well_known_target(it.0) {
        lemma_well_known_target_header_safe(it.0);
    } else {
        assert(accept_target_text(it.0) == m);
        assert(m.len() > 0) by {
            reveal_strlit("/*");
            if m.len() == 0 {
                assert(m != "*/*"@);
                assert(is_other_mime_text(m) == false);
                assert(group_part(m) =~= m);
                assert(m.skip(0) =~= m);
            }
        }
        assert(m[0] == mime[0]);
        assert forall|j: int| 0 <= j < m.len() implies m[j] != ',' && m[j] != ';' by {
            assert(m[j] == mime[j]);
            if mime[j] == ',' {
                assert(mime.contains(','));
            }
        }
    }
}

/// What `elements_to_header_value` writes of the items that
/// `TiiAcceptQualityMimeType::parse` gave, `parse` reads back as the same items,
/// for every list that is not empty and where no item's text ends in white
/// space (a text such as "text/html ;q=1" gives the item "text/html ", which
/// reads back as text/html).
pub proof fn lemma_parsed_accept_header_round_trip(value: Seq<char>, items: Seq<AcceptItem>)
    requires
        accept_list_of(value) == Some(items),
        items.len() > 0,
        forall|i: int| 0 <= i < items.len() ==> !crate::text::is_white_space(
            (#[trigger] accept_target_text(items[i].0)).last(),
        ),
    ensures
        accept_list_of(accept_header_text(items)) == Some(by_quality(items, 1001)),
{
    let pieces = split_seq(value, ',');
    let xs = accept_pieces_of(pieces).unwrap();
    assert(items == by_quality(xs, 1001));
    lemma_pieces_items(pieces, xs);
    crate::text::lemma_split_has_no_separator(value, ',');
    lemma_by_quality_members(xs, 1001);
    assert forall|i: int| 0 <= i < items.len() implies header_safe_target(#[trigger] items[i].0) && items[i].1
        <= 1000 by {
        assert(xs.contains(items[i]));
        let k = choose|k: int| 0 <= k < xs.len() && xs[k] == items[i];
        assert(accept_piece_of(pieces[k]) == Some(xs[k]));
        assert(!pieces[k].contains(','));
        assert(!crate::text::is_white_space(accept_target_text(items[i].0).last()));
        lemma_parsed_piece_header_safe(pieces[k], items[i]);
    }
    lemma_accept_header_round_trip(items);
}

} // verus!
