use vstd::prelude::*;

verus! {

/// Metadata record of a playable file. The path identifies the file and is
/// the key by which two tracks count as the same.
pub struct Track {
    pub path: String,
    pub title: String,
    pub artist: String,
    pub album: String,
    pub duration_seconds: u64,
    pub cover_art: Option<String>,
}

impl Track {
    /// Two tracks name the same file.
    pub open spec fn same_file(&self, other: &Track) -> bool {
        self.path@ == other.path@
    }

    /// Whether `other` names the same file as this track.
    pub fn same_path(&self, other: &Track) -> (r: bool)
        ensures
            r == self.same_file(other),
    {
        self.path == other.path
    }
}

impl Clone for Track {
    fn clone(&self) -> (r: Self)
        ensures
            r == *self,
    {
        let cover_art = match &self.cover_art {
            Some(c) => Some(c.clone()),
            None => None,
        };
        Track {
            path: self.path.clone(),
            title: self.title.clone(),
            artist: self.artist.clone(),
            album: self.album.clone(),
            duration_seconds: self.duration_seconds,
            cover_art,
        }
    }
}

} // verus!
