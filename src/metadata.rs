//! Building a track record from the tags and properties of an audio file.
use crate::track::Track;
use lofty::file::{AudioFile, TaggedFileExt};
use lofty::tag::Accessor;
use vstd::prelude::*;
use vstd::string::StringExecFns;

verus! {

/// The tags and properties of an audio file, as plain values.
pub struct TagInfo {
    pub title: Option<String>,
    pub artist: Option<String>,
    pub album: Option<String>,
    /// Length of the audio in whole seconds.
    pub duration_seconds: u64,
    /// The first embedded picture: its bytes and declared MIME type.
    pub picture: Option<(Vec<u8>, Option<String>)>,
}

/// The view of a `TagInfo`.
pub struct TagView {
    pub title: Option<Seq<char>>,
    pub artist: Option<Seq<char>>,
    pub album: Option<Seq<char>>,
    pub duration_seconds: u64,
    pub picture: Option<(Seq<u8>, Option<Seq<char>>)>,
}

pub open spec fn text_view(s: Option<String>) -> Option<Seq<char>> {
    match s {
        Some(t) => Some(t@),
        None => None,
    }
}

impl TagInfo {
    pub open spec fn view(&self) -> TagView {
        TagView {
            title: text_view(self.title),
            artist: text_view(self.artist),
            album: text_view(self.album),
            duration_seconds: self.duration_seconds,
            picture: match self.picture {
                Some((d, m)) => Some((d@, text_view(m))),
                None => None,
            },
        }
    }
}

/// What the tag reader finds in a file's bytes: `None` when they are no
/// container it knows or carry no primary tag.
pub uninterp spec fn tags_of(bytes: Seq<u8>) -> Option<TagView>;

/// Relies on lofty: `Probe::new(..).guess_file_type()` and `read` recognise
/// the container from the bytes and parse it; `TaggedFileExt::primary_tag`,
/// the `Accessor` getters, `Tag::pictures`, `Picture::data`/`mime_type`/
/// `MimeType::as_str` and `FileProperties::duration` read the parsed file.
/// All of it depends on the bytes alone.
#[verifier::external_body]
fn read_tags(bytes: Vec<u8>) -> (r: Option<TagInfo>)
    ensures
        match r {
            Some(t) => tags_of(bytes@) == Some(t.view()),
            None => tags_of(bytes@) is None,
        },
{
    let file = lofty::probe::Probe::new(std::io::Cursor::new(bytes)).guess_file_type().ok()?.read().ok()?;
    let tag = file.primary_tag()?;
    Some(TagInfo {
        title: tag.title().map(|c| c.into_owned()),
        artist: tag.artist().map(|c| c.into_owned()),
        album: tag.album().map(|c| c.into_owned()),
        duration_seconds: file.properties().duration().as_secs(),
        picture: tag.pictures().first().map(|p| (p.data().to_vec(), p.mime_type().map(|m| m.as_str().to_string()))),
    })
}

/// The 64 digits of standard base64, by value.
pub open spec fn base64_digits() -> Seq<char> {
    seq!['A', 'B', 'C', 'D', 'E', 'F', 'G', 'H', 'I', 'J', 'K', 'L', 'M', 'N', 'O', 'P', 'Q', 'R', 'S', 'T', 'U', 'V', 'W', 'X', 'Y', 'Z', 'a', 'b', 'c', 'd', 'e', 'f', 'g', 'h', 'i', 'j', 'k', 'l', 'm', 'n', 'o', 'p', 'q', 'r', 's', 't', 'u', 'v', 'w', 'x', 'y', 'z', '0', '1', '2', '3', '4', '5', '6', '7', '8', '9', '+', '/']
}

/// Standard base64 of a byte sequence: each group of three bytes becomes
/// four digits of six bits each; a final group of one or two bytes is
/// padded with zero bits and `=` up to four characters.
pub open spec fn base64_of(b: Seq<u8>) -> Seq<char>
    decreases b.len(),
{
    let d = base64_digits();
    if b.len() == 0 {
        Seq::empty()
    } else if b.len() == 1 {
        let x = b[0] as int;
        seq![d[x / 4], d[(x % 4) * 16], '=', '=']
    } else if b.len() == 2 {
        let x = b[0] as int;
        let y = b[1] as int;
        seq![d[x / 4], d[(x % 4) * 16 + y / 16], d[(y % 16) * 4], '=']
    } else {
        let x = b[0] as int;
        let y = b[1] as int;
        let z = b[2] as int;
        seq![d[x / 4], d[(x % 4) * 16 + y / 16], d[(y % 16) * 4 + z / 64], d[z % 64]] + base64_of(
            b.subrange(3, b.len() as int),
        )
    }
}

#[verifier::external_body]
fn base64_encode(b: &[u8]) -> (r: String)
    requires
        b@.len() <= usize::MAX / 2,
    ensures
        r@ == base64_of(b@),
{
    base64::Engine::encode(&base64::engine::general_purpose::STANDARD, b)
}

/// The MIME type assumed for a picture that declares none.
pub open spec fn default_mime() -> Seq<char> {
    seq!['i', 'm', 'a', 'g', 'e', '/', 'j', 'p', 'e', 'g']
}

/// The data URI of a picture, given its MIME type (if declared) and its
/// base64 text.
pub open spec fn data_uri_of(mime: Option<Seq<char>>, encoded: Seq<char>) -> Seq<char> {
    seq!['d', 'a', 't', 'a', ':'] + match mime {
        Some(m) => m,
        None => default_mime(),
    } + seq![';', 'b', 'a', 's', 'e', '6', '4', ','] + encoded
}

/// A tag text, or the placeholder given for it.
pub open spec fn or_placeholder_view(v: Option<Seq<char>>, placeholder: Seq<char>) -> Seq<char> {
    match v {
        Some(s) => s,
        None => placeholder,
    }
}

/// A tag value, or the placeholder given for it.
pub open spec fn or_placeholder(v: Option<String>, placeholder: Seq<char>) -> Seq<char> {
    match v {
        Some(s) => s@,
        None => placeholder,
    }
}

fn text_or(v: Option<String>, placeholder: &str) -> (r: String)
    ensures
        r@ == or_placeholder(v, placeholder@),
{
    match v {
        Some(s) => s,
        None => placeholder.to_owned(),
    }
}

/// The data URI that embeds a picture: `data:<mime>;base64,<encoded>`, with
/// `image/jpeg` standing for an undeclared MIME type.
pub fn data_uri(mime: Option<String>, encoded: &str) -> (r: String)
    ensures
        r@ == data_uri_of(
            match mime {
                Some(m) => Some(m@),
                None => None,
            },
            encoded@,
        ),
{
    let mut r = <String as StringExecFns>::from_str("data:");
    let m = text_or(mime, "image/jpeg");
    r.append(m.as_str());
    r.append(";base64,");
    r.append(encoded);
    proof {
        reveal_strlit("data:");
        reveal_strlit("image/jpeg");
        reveal_strlit(";base64,");
    }
    assert(r@ =~= data_uri_of(
        match mime {
            Some(m) => Some(m@),
            None => None,
        },
        encoded@,
    ));
    r
}

/// Builds the track record of the file at `path` from what its tags hold:
/// missing title, artist and album read "Unknown Title", "Unknown Artist"
/// and "Unknown Album".
pub fn assemble_track(
    path: &str,
    title: Option<String>,
    artist: Option<String>,
    album: Option<String>,
    duration_seconds: u64,
    cover_art: Option<String>,
) -> (t: Track)
    ensures
        t.path@ == path@,
        t.title@ == or_placeholder(title, "Unknown Title"@),
        t.artist@ == or_placeholder(artist, "Unknown Artist"@),
        t.album@ == or_placeholder(album, "Unknown Album"@),
        t.duration_seconds == duration_seconds,
        t.cover_art == cover_art,
{
    Track {
        path: path.to_owned(),
        title: text_or(title, "Unknown Title"),
        artist: text_or(artist, "Unknown Artist"),
        album: text_or(album, "Unknown Album"),
        duration_seconds,
        cover_art,
    }
}

/// The cover art made of a file's first picture: its data URI, unless the
/// picture is too large to encode.
pub open spec fn cover_of(picture: Option<(Seq<u8>, Option<Seq<char>>)>) -> Option<Seq<char>> {
    match picture {
        Some((d, m)) => if d.len() <= usize::MAX / 2 {
            Some(data_uri_of(m, base64_of(d)))
        } else {
            None
        },
        None => None,
    }
}

/// Reads the track record of the file at `path` from its bytes. Gives
/// `None` when the bytes are no audio container that the tag reader knows
/// or carry no tag; otherwise the record names `path`, takes title, artist
/// and album from the tag (with placeholders), its length from the
/// container and its cover art from the first embedded picture.
pub fn read_track_metadata(path: &str, contents: Vec<u8>) -> (r: Option<Track>)
    ensures
        r is None <==> tags_of(contents@) is None,
        r is Some ==> ({
            let t = r->0;
            let v = tags_of(contents@)->0;
            &&& t.path@ == path@
            &&& t.title@ == or_placeholder_view(v.title, "Unknown Title"@)
            &&& t.artist@ == or_placeholder_view(v.artist, "Unknown Artist"@)
            &&& t.album@ == or_placeholder_view(v.album, "Unknown Album"@)
            &&& t.duration_seconds == v.duration_seconds
            &&& text_view(t.cover_art) == cover_of(v.picture)
        }),
{
    let info = match read_tags(contents) {
        Some(i) => i,
        None => return None,
    };
    let TagInfo { title, artist, album, duration_seconds, picture } = info;
    let cover_art = match picture {
        Some((data, mime)) => {
            if data.len() <= usize::MAX / 2 {
                let encoded = base64_encode(data.as_slice());
                Some(data_uri(mime, encoded.as_str()))
            } else {
                None
            }
        },
        None => None,
    };
    Some(assemble_track(path, title, artist, album, duration_seconds, cover_art))
}

} // verus!
