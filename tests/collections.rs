use album_collection::album::Album;
use album_collection::collection::{Albums, AlbumsRef};
use album_collection::listing::{join_lines, render_albums, upper_titles};
use album_collection::user::User;

fn two_albums() -> Vec<Album> {
    vec![
        Album::new("Sgt. Pepper's Lonely Hearts Club Band", "The Beatles"),
        Album::new("Dark Side of the Moon", "Pink Floyd"),
    ]
}

const TWO_LINES: &str =
    "Sgt. Pepper's Lonely Hearts Club Band (The Beatles)\nDark Side of the Moon (Pink Floyd)\n";

#[test]
fn one_album_renders_title_and_artist() {
    let a = Album::new("Sgt. Pepper's Lonely Hearts Club Band", "The Beatles");
    assert_eq!(a.render(), "Sgt. Pepper's Lonely Hearts Club Band (The Beatles)");
}

#[test]
fn album_with_empty_fields() {
    assert_eq!(Album::new("", "").render(), " ()");
}

#[test]
fn duplicate_keeps_fields() {
    let a = Album::new("Abbey Road", "The Beatles");
    let b = a.duplicate();
    assert_eq!(b.title, "Abbey Road");
    assert_eq!(b.artist, "The Beatles");
}

#[test]
fn plain_sequence_renders_one_line_each() {
    assert_eq!(render_albums(&two_albums()), TWO_LINES);
}

#[test]
fn empty_sequence_renders_empty() {
    assert_eq!(render_albums(&[]), "");
    assert_eq!(Albums::new(Vec::new()).render(), "");
    let none: Vec<Album> = Vec::new();
    assert_eq!(AlbumsRef::new(&none).render(), "");
}

#[test]
fn duplicates_render_twice() {
    let v = vec![Album::new("X", "Y"), Album::new("X", "Y")];
    assert_eq!(render_albums(&v), "X (Y)\nX (Y)\n");
}

#[test]
fn owner_scenario_heading_and_listing() {
    let daniel = User::new("Daniel", two_albums());
    assert_eq!(daniel.name(), "Daniel");
    assert_eq!(daniel.heading(), "Daniel's albums:");
    assert_eq!(daniel.borrow_albums().render(), TWO_LINES);
    assert_eq!(daniel.get_albums().render(), TWO_LINES);
    assert_eq!(daniel.into_album().render(), TWO_LINES);
}

#[test]
fn upper_case_titles_in_order() {
    let titles = upper_titles(&two_albums());
    assert_eq!(
        titles,
        vec![
            "SGT. PEPPER'S LONELY HEARTS CLUB BAND".to_string(),
            "DARK SIDE OF THE MOON".to_string(),
        ]
    );
    assert_eq!(
        join_lines(&titles),
        "SGT. PEPPER'S LONELY HEARTS CLUB BAND\nDARK SIDE OF THE MOON\n"
    );
}

#[test]
fn upper_title_of_one_album() {
    let a = Album::new("abc", "x");
    assert_eq!(a.upper_title(), "ABC");
    assert_eq!(Album::new("", "x").upper_title(), "");
}

#[test]
fn join_lines_empty_and_some() {
    assert_eq!(join_lines(&[]), "");
    assert_eq!(join_lines(&["a".to_string(), "".to_string()]), "a\n\n");
}

#[test]
fn borrowed_render_is_repeatable() {
    let daniel = User::new("Daniel", two_albums());
    let lent = daniel.borrow_albums();
    let first = lent.render();
    let second = lent.render();
    assert_eq!(first, second);
    assert_eq!(first, TWO_LINES);
}

#[test]
fn cloned_render_is_repeatable() {
    let daniel = User::new("Daniel", two_albums());
    let copy = daniel.get_albums();
    assert_eq!(copy.render(), copy.render());
}

#[test]
fn clone_unaffected_by_later_changes_to_source() {
    let mut source = two_albums();
    let copy = Albums::cloned_from(&source);
    source[0].title.push_str(" (Remastered)");
    source.push(Album::new("Revolver", "The Beatles"));
    assert_eq!(copy.render(), TWO_LINES);
    drop(source);
    assert_eq!(copy.render(), TWO_LINES);
}

#[test]
fn clone_outlives_owner() {
    let copy = {
        let daniel = User::new("Daniel", two_albums());
        daniel.get_albums()
    };
    assert_eq!(copy.len(), 2);
    assert_eq!(copy.render(), TWO_LINES);
}

#[test]
fn giving_up_transfers_every_album() {
    let daniel = User::new("Daniel", two_albums());
    let owned = daniel.into_album();
    let inner = owned.into_inner();
    assert_eq!(inner.len(), 2);
    assert_eq!(inner[1].title, "Dark Side of the Moon");
}

#[test]
fn wrapper_reads_as_inner_sequence() {
    let inner = two_albums();
    let n = inner.len();
    let wrapper = Albums::new(two_albums());
    assert_eq!(wrapper.len(), n);
    assert!(!wrapper.is_empty());
    for i in 0..n {
        assert_eq!(wrapper.get(i).title, inner[i].title);
        assert_eq!(wrapper.get(i).artist, inner[i].artist);
        assert_eq!(wrapper.as_slice()[i].title, inner[i].title);
    }
    assert!(Albums::new(Vec::new()).is_empty());
}

#[test]
fn borrowed_reads_as_inner_sequence() {
    let inner = two_albums();
    let lent = AlbumsRef::new(&inner);
    assert_eq!(lent.len(), 2);
    assert!(!lent.is_empty());
    assert_eq!(lent.get(0).artist, "The Beatles");
}
