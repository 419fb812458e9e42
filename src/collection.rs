use vstd::prelude::*;
use crate::album::Album;
use crate::listing::{models, render_albums, render_model};

verus! {

/// A named collection that owns its albums and forwards read access to them:
/// its length, its items and its emptiness are those of the sequence inside.
pub struct Albums(pub Vec<Album>);

impl View for Albums {
    type V = Seq<Album>;

    open spec fn view(&self) -> Seq<Album> {
        self.0@
    }
}

impl Albums {
    /// Takes the sequence over; the caller gives it up.
    pub fn new(albums: Vec<Album>) -> (r: Albums)
        ensures
            r@ == albums@,
    {
        Albums(albums)
    }

    /// An independent copy of a sequence of albums: it holds the same titles
    /// and artists in the same order, and shares nothing with the source.
    pub fn cloned_from(source: &[Album]) -> (r: Albums)
        ensures
            models(r@) == models(source@),
    {
        let mut v: Vec<Album> = Vec::new();
        let mut i: usize = 0;
        while i < source.len()
            invariant
                i <= source@.len(),
                v@.len() == i,
                forall|j: int| 0 <= j < i ==> #[trigger] v@[j]@ == source@[j]@,
            decreases source@.len() - i,
        {
            v.push(source[i].duplicate());
            i = i + 1;
        }
        proof {
            assert(models(v@) =~= models(source@));
        }
        Albums(v)
    }

    /// The number of albums.
    pub fn len(&self) -> (r: usize)
        ensures
            r == self@.len(),
    {
        self.0.len()
    }

    /// Whether there are no albums.
    pub fn is_empty(&self) -> (r: bool)
        ensures
            r == (self@.len() == 0),
    {
        self.0.len() == 0
    }

    /// The album at position `i`.
    pub fn get(&self, i: usize) -> (r: &Album)
        requires
            i < self@.len(),
        ensures
            *r == self@[i as int],
    {
        &self.0[i]
    }

    /// The albums as a slice.
    pub fn as_slice(&self) -> (r: &[Album])
        ensures
            r@ == self@,
    {
        self.0.as_slice()
    }

    /// Gives the sequence back, ending the wrapper.
    pub fn into_inner(self) -> (r: Vec<Album>)
        ensures
            r@ == self@,
    {
        self.0
    }

    /// Renders the albums, one `title (artist)` line each, in order.
    pub fn render(&self) -> (r: String)
        ensures
            r@ == render_model(models(self@)),
    {
        render_albums(self.0.as_slice())
    }
}

/// Reading a borrowed collection twice gives the same text both times.
pub proof fn render_is_repeatable(c: AlbumsRef<'_>, first: Seq<char>, second: Seq<char>)
    requires
        first == render_model(models(c@)),
        second == render_model(models(c@)),
    ensures
        first == second,
{
}

/// A copy renders as its source did when it was copied. The copy owns its
/// albums, so what is later done to the source, or its end, does not reach it.
pub proof fn copy_renders_as_source(copy: Albums, source: Seq<Album>)
    requires
        models(copy@) == models(source),
    ensures
        render_model(models(copy@)) == render_model(models(source)),
{
}

/// A named collection that reads albums held by someone else; it cannot
/// outlive them.
pub struct AlbumsRef<'a>(pub &'a Vec<Album>);

impl<'a> View for AlbumsRef<'a> {
    type V = Seq<Album>;

    open spec fn view(&self) -> Seq<Album> {
        self.0@
    }
}

impl<'a> AlbumsRef<'a> {
    /// Reads the albums of `albums` without taking them.
    pub fn new(albums: &'a Vec<Album>) -> (r: AlbumsRef<'a>)
        ensures
            r@ == albums@,
    {
        AlbumsRef(albums)
    }

    /// The number of albums.
    pub fn len(&self) -> (r: usize)
        ensures
            r == self@.len(),
    {
        self.0.len()
    }

    /// Whether there are no albums.
    pub fn is_empty(&self) -> (r: bool)
        ensures
            r == (self@.len() == 0),
    {
        self.0.len() == 0
    }

    /// The album at position `i`.
    pub fn get(&self, i: usize) -> (r: &'a Album)
        requires
            i < self@.len(),
        ensures
            *r == self@[i as int],
    {
        &self.0[i]
    }

    /// Renders the albums, one `title (artist)` line each, in order.
    pub fn render(&self) -> (r: String)
        ensures
            r@ == render_model(models(self@)),
    {
        render_albums(self.0.as_slice())
    }
}

} // verus!
