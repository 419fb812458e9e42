use vstd::prelude::*;
use crate::album::Album;
use crate::collection::{Albums, AlbumsRef};
use crate::listing::models;

verus! {

/// Someone with a name and albums, who hands the albums out in one of three
/// ways: by giving them up, by lending them, or by copying them.
pub struct User {
    pub name: String,
    pub albums: Vec<Album>,
}

impl User {
    /// The name, as characters.
    pub open spec fn name_view(&self) -> Seq<char> {
        self.name@
    }

    /// The albums that this user holds.
    pub open spec fn albums_view(&self) -> Seq<Album> {
        self.albums@
    }

    /// Makes a user who owns `albums`.
    pub fn new(name: &str, albums: Vec<Album>) -> (r: User)
        ensures
            r.name_view() == name@,
            r.albums_view() == albums@,
    {
        User { name: String::from_str(name), albums }
    }

    /// The name.
    pub fn name(&self) -> (r: &str)
        ensures
            r@ == self.name_view(),
    {
        self.name.as_str()
    }

    /// The heading above this user's albums: `name's albums:`.
    pub fn heading(&self) -> (r: String)
        ensures
            r@ == self.name_view() + seq!['\'', 's', ' ', 'a', 'l', 'b', 'u', 'm', 's', ':'],
    {
        let mut r = self.name.clone();
        r.append("'s albums:");
        proof {
            reveal_strlit("'s albums:");
        }
        r
    }

    /// Gives the albums up: the user is consumed and the caller owns them.
    pub fn into_album(self) -> (r: Albums)
        ensures
            r@ == self.albums_view(),
    {
        Albums(self.albums)
    }

    /// An independent copy of the albums; the user keeps its own.
    pub fn get_albums(&self) -> (r: Albums)
        ensures
            models(r@) == models(self.albums_view()),
    {
        Albums::cloned_from(self.albums.as_slice())
    }

    /// Lends the albums for as long as the user lives.
    pub fn borrow_albums(&self) -> (r: AlbumsRef<'_>)
        ensures
            r@ == self.albums_view(),
    {
        AlbumsRef(&self.albums)
    }
}

} // verus!
