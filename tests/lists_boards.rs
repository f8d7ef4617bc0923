use trello::pattern::LabelPattern;
use trello::{Attachment, Board, Card, Label, List, TrelloObject};

fn fruit_list() -> List {
    List::new(
        "123",
        "TODO",
        Some(vec![
            Card::new("1", "Orange", "", Some(vec![Label::new("", "fruit", "")]), ""),
            Card::new("2", "Green", "", None, ""),
        ]),
    )
}

#[test]
fn list_filter_without_match_is_empty() {
    assert_eq!(fruit_list().filter("idontexist"), List::new("123", "TODO", Some(vec![])));
}

#[test]
fn list_filter_keeps_matching_cards() {
    assert_eq!(
        fruit_list().filter("fruit"),
        List::new(
            "123",
            "TODO",
            Some(vec![Card::new("1", "Orange", "", Some(vec![Label::new("", "fruit", "")]), "")]),
        )
    );
}

#[test]
fn list_filter_ignores_case_and_matches_patterns() {
    let kept = fruit_list().filter("^FR.i");
    assert_eq!(kept.cards.unwrap().len(), 1);
}

#[test]
fn list_filter_without_cards_stays_without() {
    let l = List::new("1", "Empty", None);
    assert_eq!(l.filter("x"), l);
}

#[test]
fn list_try_filter_rejects_invalid_pattern() {
    assert_eq!(fruit_list().try_filter("("), None);
    assert!(LabelPattern::new("(").is_err());
    assert_eq!(fruit_list().try_filter("fruit"), Some(fruit_list().filter("fruit")));
}

#[test]
fn pattern_matches_case_insensitively() {
    let p = LabelPattern::new("urgent").unwrap();
    assert!(p.is_match("Very URGENT"));
    assert!(!p.is_match("later"));
}

#[test]
fn board_filter_applies_to_each_list() {
    let board = Board::new("b", "Board", Some(vec![fruit_list(), List::new("9", "Other", None)]), "u");
    let filtered = board.filter("FRUIT");
    let lists = filtered.lists.unwrap();
    assert_eq!(lists.len(), 2);
    assert_eq!(lists[0], fruit_list().filter("fruit"));
    assert_eq!(lists[1], List::new("9", "Other", None));
    assert_eq!(board.try_filter("["), None);
    assert_eq!(Board::new("b", "B", None, "").filter("x"), Board::new("b", "B", None, ""));
}

#[test]
fn list_render_with_lines() {
    let list = List::new(
        "1",
        "TODO",
        Some(vec![
            Card::new("1", "Orange", "has text", Some(vec![Label::new("", "fruit", "red")]), ""),
            Card::new("2", "Green", "", None, ""),
            Card::new("3", "Lime", "", Some(vec![Label::new("", "a", ""), Label::new("", "b", "")]), ""),
        ]),
    );
    assert_eq!(
        list.render_with("TITLE", "[...]"),
        "TITLE\n* Orange [...] fruit\n* Green\n* Lime a b"
    );
}

#[test]
fn list_render_without_cards_is_title() {
    assert_eq!(List::new("1", "TODO", None).render_with("T", "m"), "T");
}

#[test]
fn list_render_contains_names() {
    let r = fruit_list().render();
    assert!(r.contains("TODO"));
    assert!(r.contains("* Orange fruit"));
    assert!(r.contains("* Green"));
}

#[test]
fn board_render_with_lists() {
    let board = Board::new(
        "b",
        "Board",
        Some(vec![
            List::new("1", "A", Some(vec![Card::new("1", "c", "", None, "")])),
            List::new("2", "B", None),
        ]),
        "",
    );
    let titles = vec![String::from("A\n-"), String::from("B\n-")];
    assert_eq!(board.render_with("BOARD", &titles, "m"), "BOARD\n\nA\n-\n* c\n\nB\n-");
}

#[test]
fn board_render_contains_names() {
    let board = Board::new("b", "Board", Some(vec![List::new("1", "A", None)]), "");
    let r = board.render();
    assert!(r.contains("Board"));
    assert!(r.contains("A"));
}

#[test]
fn attachment_render_and_metadata() {
    let a = Attachment::new("1", "file.txt", "http://host/file.txt");
    assert_eq!(a.render(), "file.txt\n--------\nhttp://host/file.txt");
    assert_eq!(Attachment::get_type(), "Attachment");
    assert_eq!(a.get_name(), "file.txt");
    assert_eq!(Attachment::get_fields(), &["id", "name", "url"]);
}

#[test]
fn object_metadata_of_other_kinds() {
    assert_eq!(List::get_type(), "List");
    assert_eq!(Board::get_type(), "Board");
    assert_eq!(Label::get_type(), "Label");
    assert_eq!(Board::get_fields(), &["id", "name", "closed", "url"]);
    assert_eq!(List::get_fields(), &["id", "name", "closed"]);
    assert_eq!(Label::get_fields(), &["id", "name", "color"]);
    assert_eq!(Label::new("1", "bug", "red").render(), "bug");
}

#[test]
fn text_helpers() {
    assert_eq!(trello::text::header("abc", "-"), "abc\n---");
    assert_eq!(trello::text::header("", "="), "\n");
    assert_eq!(trello::text::title("ab", "="), "==\nab\n==");
    assert_eq!(trello::text::split_lines_of("a\n\nb\n"), vec!["a", "", "b", ""]);
    assert_eq!(trello::text::repeat_str("ab", 3), "ababab");
    assert_eq!(trello::object::field_list::<Card>(), "id,name,desc,labels,closed,url");
}
