use platformer::level::GridCoords;
use platformer::word::{
    build_word_list, str_contains, str_starts_with, WordTile, WordTileEventKind, WordTileStatus,
};

fn words(list: &[&str]) -> Vec<String> {
    list.iter().map(|w| w.to_string()).collect()
}

#[test]
fn substring_search() {
    assert!(str_contains("platform", "form"));
    assert!(str_contains("platform", "plat"));
    assert!(str_contains("platform", "tfo"));
    assert!(str_contains("platform", ""));
    assert!(!str_contains("platform", "forms"));
    assert!(!str_contains("", "a"));
    assert!(str_contains("aaa", "aa"));
    assert!(!str_contains("abab", "aba_"));
}

#[test]
fn word_list_keeps_short_clean_words() {
    let source = words(&["ox", "cat", "tree", "house", "wasp", "extra"]);
    let blacklist = words(&["a", "t"]);
    // "ox" is too short; "cat", "tree", "wasp", "extra" contain banned
    // letters; "house" is long, which makes the split possible.
    let list = build_word_list(&source, &blacklist).expect("a longer word exists");
    assert_eq!(list.ground_words, Vec::<String>::new());

    let blacklist2 = words(&["q"]);
    let list2 = build_word_list(&source, &blacklist2).expect("a longer word exists");
    // Short words first (by length), longer-than-four words dropped.
    assert_eq!(list2.ground_words, words(&["cat", "tree", "wasp"]));
}

#[test]
fn word_list_requires_a_long_word() {
    // Without any word of more than four characters the source is not
    // considered a usable list.
    let source = words(&["cat", "tree", "wasp"]);
    let blacklist = words(&[]);
    assert!(build_word_list(&source, &blacklist).is_none());
}

#[test]
fn tile_advance_walks_words() {
    let mut tile = WordTile::new(words(&["cat", "go"]), 5);
    assert_eq!(tile.current_word(), "cat");
    assert_eq!(tile.remaining(), "cat");
    assert_eq!(tile.status(), WordTileStatus::Pristine);

    let coords = GridCoords::new(2, 3);
    assert_eq!(tile.advance(1, coords), WordTileEventKind::WordStarted);
    assert_eq!(tile.remaining(), "at");
    assert_eq!(tile.status(), WordTileStatus::Damaged);

    assert_eq!(tile.advance(1, coords), WordTileEventKind::WordAdvanced);
    assert_eq!(tile.advance(1, coords), WordTileEventKind::WordFinished(1));
    assert_eq!(tile.current_word(), "go");
    assert_eq!(tile.remaining(), "go");

    assert_eq!(
        tile.advance(2, coords),
        WordTileEventKind::TileFinished {
            word_count: 2,
            coords
        }
    );
    assert_eq!(tile.status(), WordTileStatus::Finished);
    assert_eq!(tile.remaining(), "");
}

#[test]
fn prefix_test() {
    assert!(str_starts_with("platform", "plat"));
    assert!(str_starts_with("platform", ""));
    assert!(str_starts_with("platform", "platform"));
    assert!(!str_starts_with("platform", "lat"));
    assert!(!str_starts_with("plat", "platform"));
}

#[test]
fn typing_advances_only_on_matching_prefix() {
    let mut tile = WordTile::new(words(&["cat", "go"]), 5);
    let coords = GridCoords::new(1, 1);
    // A wrong burst leaves the tile untouched.
    assert_eq!(tile.try_type("x", coords), None);
    assert_eq!(tile.remaining(), "cat");
    // A matching burst advances by its length.
    assert_eq!(tile.try_type("ca", coords), Some(WordTileEventKind::WordStarted));
    assert_eq!(tile.remaining(), "t");
    // Matching the rest finishes the word.
    assert_eq!(tile.try_type("t", coords), Some(WordTileEventKind::WordFinished(1)));
    assert_eq!(tile.current_word(), "go");
}

#[test]
fn tile_advance_overshoot_finishes_word() {
    // Typing a burst longer than the remainder still finishes the word.
    let mut tile = WordTile::new(words(&["ab", "cdef"]), 1);
    let coords = GridCoords::new(0, 0);
    assert_eq!(tile.advance(5, coords), WordTileEventKind::WordFinished(1));
    assert_eq!(tile.current_word(), "cdef");
}
