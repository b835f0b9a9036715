//! Choosing what a library scan visits: which directories it descends into
//! and which files it reads as tracks.
use vstd::prelude::*;
use vstd::string::StringSliceAdditionalSpecFns;
use vstd::utf8::encode_utf8;

verus! {

/// One entry of a directory listing, as the scan sees it.
pub struct DirEntryInfo {
    /// Full path of the entry.
    pub path: String,
    /// Last component of the path, when it is valid text.
    pub name: Option<String>,
    pub is_dir: bool,
    pub is_file: bool,
    /// Extension of the file name, when there is one and it is valid text.
    pub extension: Option<String>,
}

/// What the scan does with one entry of a listing.
pub enum ScanStep {
    /// Scan this directory, in turn.
    Descend(String),
    /// Read this file as a track.
    Read(String),
}

/// ASCII lower case of one byte; other bytes are kept.
pub open spec fn lower_byte(c: u8) -> u8 {
    if 65 <= c <= 90 {
        (c + 32) as u8
    } else {
        c
    }
}

pub open spec fn lower_bytes(b: Seq<u8>) -> Seq<u8> {
    b.map_values(|c: u8| lower_byte(c))
}

/// The extensions of the audio formats that the scan picks up, in lower case.
pub open spec fn audio_extensions() -> Seq<Seq<u8>> {
    seq![
        seq![109u8, 112u8, 51u8],
        seq![102u8, 108u8, 97u8, 99u8],
        seq![119u8, 97u8, 118u8],
        seq![111u8, 103u8, 103u8],
        seq![109u8, 52u8, 97u8],
    ]
}

/// An extension names an audio format, whatever the case of its letters.
pub open spec fn is_audio_ext(ext: Seq<u8>) -> bool {
    audio_extensions().contains(lower_bytes(ext))
}

/// A name that starts with a dot is hidden.
pub open spec fn is_hidden(name: Seq<u8>) -> bool {
    name.len() > 0 && name[0] == 46u8
}

/// The scan descends into directories that are not hidden.
pub open spec fn descends(e: DirEntryInfo) -> bool {
    e.is_dir && !(e.name is Some && is_hidden(encode_utf8(e.name->0@)))
}

/// The scan reads regular files with an audio extension.
pub open spec fn reads(e: DirEntryInfo) -> bool {
    !e.is_dir && e.is_file && e.extension is Some && is_audio_ext(
        encode_utf8(e.extension->0@),
    )
}

/// What the scan does with one entry, if anything.
pub open spec fn step_of(e: DirEntryInfo) -> Option<ScanStep> {
    if descends(e) {
        Some(ScanStep::Descend(e.path))
    } else if reads(e) {
        Some(ScanStep::Read(e.path))
    } else {
        None
    }
}

/// What the scan does with the entries of a listing, in listing order.
pub open spec fn steps_of(s: Seq<DirEntryInfo>) -> Seq<ScanStep>
    decreases s.len(),
{
    if s.len() == 0 {
        Seq::empty()
    } else {
        match step_of(s.last()) {
            Some(step) => steps_of(s.drop_last()).push(step),
            None => steps_of(s.drop_last()),
        }
    }
}

fn lower_copy(b: &[u8]) -> (r: Vec<u8>)
    ensures
        r@ == lower_bytes(b@),
{
    let mut r: Vec<u8> = Vec::new();
    let mut i: usize = 0;
    while i < b.len()
        invariant
            i <= b@.len(),
            r@ == lower_bytes(b@.subrange(0, i as int)),
        decreases b@.len() - i,
    {
        let c = b[i];
        let l = if 65 <= c && c <= 90 {
            c + 32
        } else {
            c
        };
        r.push(l);
        assert(b@.subrange(0, i + 1) == b@.subrange(0, i as int).push(c));
        i = i + 1;
    }
    assert(b@.subrange(0, b@.len() as int) == b@);
    r
}

fn same_bytes(a: &Vec<u8>, b: &Vec<u8>) -> (r: bool)
    ensures
        r == (a@ == b@),
{
    if a.len() != b.len() {
        return false;
    }
    let mut i: usize = 0;
    while i < a.len()
        invariant
            i <= a@.len(),
            a@.len() == b@.len(),
            forall|j: int| 0 <= j < i ==> a@[j] == b@[j],
        decreases a@.len() - i,
    {
        if a[i] != b[i] {
            return false;
        }
        i = i + 1;
    }
    assert(a@ =~= b@);
    true
}

/// Whether `ext` is the extension of an audio format: mp3, flac, wav, ogg or
/// m4a, in any case.
pub fn is_audio_extension(ext: &str) -> (r: bool)
    ensures
        r == is_audio_ext(ext.spec_bytes()),
{
    let folded = lower_copy(ext.as_bytes());
    let known: Vec<Vec<u8>> = vec![
        vec![109u8, 112u8, 51u8],
        vec![102u8, 108u8, 97u8, 99u8],
        vec![119u8, 97u8, 118u8],
        vec![111u8, 103u8, 103u8],
        vec![109u8, 52u8, 97u8],
    ];
    assert(known@.map_values(|v: Vec<u8>| v@) == audio_extensions());
    let mut i: usize = 0;
    while i < known.len()
        invariant
            i <= known@.len(),
            known@.map_values(|v: Vec<u8>| v@) == audio_extensions(),
            folded@ == lower_bytes(ext.spec_bytes()),
            forall|j: int| 0 <= j < i ==> audio_extensions()[j] != folded@,
        decreases known@.len() - i,
    {
        if same_bytes(&known[i], &folded) {
            assert(audio_extensions()[i as int] == folded@);
            return true;
        }
        i = i + 1;
    }
    false
}

/// Whether a file or directory name is hidden: it starts with a dot.
pub fn is_hidden_name(name: &str) -> (r: bool)
    ensures
        r == is_hidden(name.spec_bytes()),
{
    let b = name.as_bytes();
    b.len() > 0 && b[0] == 46u8
}

/// Goes through the entries of one directory listing in order: directories
/// that are not hidden are scanned in turn, regular files with an audio
/// extension are read, everything else is passed over.
pub fn plan_directory(entries: &Vec<DirEntryInfo>) -> (plan: Vec<ScanStep>)
    ensures
        plan@ == steps_of(entries@),
{
    let mut steps: Vec<ScanStep> = Vec::new();
    let mut i: usize = 0;
    while i < entries.len()
        invariant
            i <= entries@.len(),
            steps@ == steps_of(entries@.subrange(0, i as int)),
        decreases entries@.len() - i,
    {
        let e = &entries[i];
        assert(entries@.subrange(0, i + 1).drop_last() == entries@.subrange(0, i as int));
        if e.is_dir {
            let hidden = match &e.name {
                Some(n) => is_hidden_name(n.as_str()),
                None => false,
            };
            if !hidden {
                steps.push(ScanStep::Descend(e.path.clone()));
            }
        } else if e.is_file {
            let audio = match &e.extension {
                Some(x) => is_audio_extension(x.as_str()),
                None => false,
            };
            if audio {
                steps.push(ScanStep::Read(e.path.clone()));
            }
        }
        i = i + 1;
    }
    assert(entries@.subrange(0, entries@.len() as int) == entries@);
    steps
}

} // verus!
