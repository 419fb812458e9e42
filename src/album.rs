use vstd::prelude::*;

verus! {

/// What an album is to a proof: its title and its artist as characters.
pub struct AlbumModel {
    pub title: Seq<char>,
    pub artist: Seq<char>,
}

/// The line that stands for one album: `title (artist)`.
pub open spec fn line_of(a: AlbumModel) -> Seq<char> {
    a.title + seq![' ', '('] + a.artist + seq![')']
}

/// The upper-case form of a string, as `str::to_uppercase` gives it.
pub uninterp spec fn upper_of(s: Seq<char>) -> Seq<char>;

/// Relies on `str::to_uppercase`: the result depends on the characters alone,
/// and an empty string stays empty.
#[verifier::external_body]
fn uppercase(s: &str) -> (r: String)
    ensures
        r@ == upper_of(s@),
        s@.len() == 0 ==> r@.len() == 0,
{
    s.to_uppercase()
}

/// An immutable pair of a title and an artist.
pub struct Album {
    pub title: String,
    pub artist: String,
}

impl View for Album {
    type V = AlbumModel;

    open spec fn view(&self) -> AlbumModel {
        AlbumModel { title: self.title@, artist: self.artist@ }
    }
}

impl Album {
    /// Makes an album from its title and its artist.
    pub fn new(title: &str, artist: &str) -> (r: Album)
        ensures
            r@.title == title@,
            r@.artist == artist@,
    {
        Album { title: String::from_str(title), artist: String::from_str(artist) }
    }

    /// A copy of this album that shares nothing with it.
    pub fn duplicate(&self) -> (r: Album)
        ensures
            r@ == self@,
    {
        Album { title: self.title.clone(), artist: self.artist.clone() }
    }

    /// Renders the album as `title (artist)`.
    pub fn render(&self) -> (r: String)
        ensures
            r@ == line_of(self@),
    {
        let mut r = self.title.clone();
        r.append(" (");
        r.append(self.artist.as_str());
        r.append(")");
        proof {
            reveal_strlit(" (");
            reveal_strlit(")");
        }
        r
    }

    /// The title in upper case.
    pub fn upper_title(&self) -> (r: String)
        ensures
            r@ == upper_of(self@.title),
    {
        uppercase(self.title.as_str())
    }
}

} // verus!
