use vstd::prelude::*;
use crate::album::{Album, AlbumModel, line_of, upper_of};

verus! {

/// The text of a sequence of lines, each one followed by a line terminator.
pub open spec fn lines_of(lines: Seq<Seq<char>>) -> Seq<char>
    decreases lines.len(),
{
    if lines.len() == 0 {
        Seq::empty()
    } else {
        lines_of(lines.drop_last()) + lines.last() + seq!['\n']
    }
}

/// The models of a sequence of albums.
pub open spec fn models(albums: Seq<Album>) -> Seq<AlbumModel> {
    albums.map_values(|a: Album| a@)
}

/// The rendering of a sequence of albums: one `title (artist)` line each, in order.
pub open spec fn render_model(albums: Seq<AlbumModel>) -> Seq<char> {
    lines_of(albums.map_values(|a: AlbumModel| line_of(a)))
}

/// The text of two runs of lines, one after the other, is the text of the
/// first followed by the text of the second.
pub proof fn lines_of_concat(a: Seq<Seq<char>>, b: Seq<Seq<char>>)
    ensures
        lines_of(a + b) == lines_of(a) + lines_of(b),
    decreases b.len(),
{
    if b.len() == 0 {
        assert(a + b =~= a);
        assert(lines_of(a) + lines_of(b) =~= lines_of(a));
    } else {
        lines_of_concat(a, b.drop_last());
        assert((a + b).drop_last() =~= a + b.drop_last());
        assert((a + b).last() == b.last());
        assert(lines_of(a + b) =~= lines_of(a) + lines_of(b));
    }
}

/// Rendering goes album by album: a sequence renders as the empty string when
/// it is empty, a single album as its line and a line terminator, and two
/// sequences one after the other as the rendering of the first followed by
/// that of the second.
pub proof fn render_model_by_album(a: Seq<AlbumModel>, b: Seq<AlbumModel>, x: AlbumModel)
    ensures
        render_model(Seq::empty()) == Seq::<char>::empty(),
        render_model(seq![x]) == line_of(x) + seq!['\n'],
        render_model(a + b) == render_model(a) + render_model(b),
{
    let f = |m: AlbumModel| line_of(m);
    assert(Seq::<AlbumModel>::empty().map_values(f) =~= Seq::<Seq<char>>::empty());
    let one = seq![x].map_values(f);
    assert(one.drop_last() =~= Seq::<Seq<char>>::empty());
    assert(lines_of(one.drop_last()) == Seq::<char>::empty());
    assert(one.last() == line_of(x));
    assert(render_model(seq![x]) =~= line_of(x) + seq!['\n']);
    assert((a + b).map_values(f) =~= a.map_values(f) + b.map_values(f));
    lines_of_concat(a.map_values(f), b.map_values(f));
}

/// Writes each string on a line of its own, in order.
pub fn join_lines(lines: &[String]) -> (r: String)
    ensures
        r@ == lines_of(lines@.map_values(|s: String| s@)),
{
    let mut r = String::new();
    let mut i: usize = 0;
    while i < lines.len()
        invariant
            i <= lines@.len(),
            r@ == lines_of(lines@.subrange(0, i as int).map_values(|s: String| s@)),
        decreases lines@.len() - i,
    {
        let ghost before = lines@.subrange(0, i as int).map_values(|s: String| s@);
        r.append(lines[i].as_str());
        r.append("\n");
        proof {
            reveal_strlit("\n");
            let after = lines@.subrange(0, i + 1).map_values(|s: String| s@);
            assert(after.drop_last() =~= before);
        }
        i = i + 1;
    }
    proof {
        assert(lines@.subrange(0, i as int) =~= lines@);
    }
    r
}

/// Renders a sequence of albums: one `title (artist)` line each, in order.
/// An empty sequence renders as the empty string.
pub fn render_albums(albums: &[Album]) -> (r: String)
    ensures
        r@ == render_model(models(albums@)),
{
    let mut r = String::new();
    let mut i: usize = 0;
    while i < albums.len()
        invariant
            i <= albums@.len(),
            r@ == render_model(models(albums@.subrange(0, i as int))),
        decreases albums@.len() - i,
    {
        let line = albums[i].render();
        r.append(line.as_str());
        r.append("\n");
        proof {
            reveal_strlit("\n");
            let before = models(albums@.subrange(0, i as int)).map_values(|a: AlbumModel| line_of(a));
            let after = models(albums@.subrange(0, i + 1)).map_values(|a: AlbumModel| line_of(a));
            assert(after.drop_last() =~= before);
        }
        i = i + 1;
    }
    proof {
        assert(albums@.subrange(0, i as int) =~= albums@);
    }
    r
}

/// The titles of a sequence of albums in upper case, in order.
pub fn upper_titles(albums: &[Album]) -> (r: Vec<String>)
    ensures
        r@.len() == albums@.len(),
        forall|i: int| 0 <= i < albums@.len() ==> #[trigger] r@[i]@ == upper_of(albums@[i]@.title),
{
    let mut r: Vec<String> = Vec::new();
    let mut i: usize = 0;
    while i < albums.len()
        invariant
            i <= albums@.len(),
            r@.len() == i,
            forall|j: int| 0 <= j < i ==> #[trigger] r@[j]@ == upper_of(albums@[j]@.title),
        decreases albums@.len() - i,
    {
        r.push(albums[i].upper_title());
        i = i + 1;
    }
    r
}

} // verus!
