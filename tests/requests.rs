use trello::request::{Method, Request};
use trello::{Attachment, Board, Card, List};

fn pairs(v: &[(&str, &str)]) -> Vec<(String, String)> {
    v.iter().map(|(k, x)| (k.to_string(), x.to_string())).collect()
}

#[test]
fn card_requests() {
    let card = Card::new("c1", "Name", "Desc", None, "");
    let r = Card::create_request("l1", &card);
    assert_eq!(r.method, Method::Post);
    assert_eq!(r.path, "/1/cards/");
    assert_eq!(r.form, pairs(&[("name", "Name"), ("desc", "Desc"), ("idList", "l1")]));

    let r = Card::update_request(&card);
    assert_eq!(r.method, Method::Put);
    assert_eq!(r.path, "/1/cards/c1/");
    assert_eq!(r.form, pairs(&[("name", "Name"), ("desc", "Desc"), ("closed", "false")]));

    let r = Card::open_request("c1");
    assert_eq!(r.path, "/1/cards/c1");
    assert_eq!(r.form, pairs(&[("closed", "false")]));

    let r = Card::remove_label_request("c1", "x");
    assert_eq!(r, Request::new(Method::Delete, String::from("/1/cards/c1/idLabels/x")));

    let r = Card::apply_label_request("c1", "x");
    assert_eq!(r.path, "/1/cards/c1/idLabels");
    assert_eq!(r.form, pairs(&[("value", "x")]));

    let r = Card::apply_attachment_request("c1", "/tmp/f");
    assert_eq!(r.path, "/1/cards/c1/attachments");
    assert_eq!(r.file, Some(String::from("/tmp/f")));
}

#[test]
fn list_requests() {
    let r = List::create_request("b1", "Todo");
    assert_eq!(r.path, "/1/lists/");
    assert_eq!(r.form, pairs(&[("name", "Todo"), ("idBoard", "b1")]));
    let mut list = List::new("l1", "Todo", None);
    list.closed = true;
    let r = List::update_request(&list);
    assert_eq!(r.path, "/1/lists/l1/");
    assert_eq!(r.form, pairs(&[("name", "Todo"), ("closed", "true")]));
    assert_eq!(List::open_request("l1").path, "/1/lists/l1");
    let r = List::get_all_cards_request("l1");
    assert_eq!(r.method, Method::Get);
    assert_eq!(r.path, "/1/lists/l1/cards/");
    assert_eq!(r.query, pairs(&[("fields", "id,name,desc,labels,closed,url")]));
}

#[test]
fn board_requests() {
    assert_eq!(Board::create_request("B").form, pairs(&[("name", "B")]));
    assert_eq!(Board::open_request("b1").path, "/1/boards/b1");
    let r = Board::update_request(&Board::new("b1", "B", None, ""));
    assert_eq!(r.path, "/1/boards/b1/");
    assert_eq!(r.form, pairs(&[("name", "B"), ("closed", "false")]));
    let r = Board::get_all_request();
    assert_eq!(r.path, "/1/members/me/boards/");
    assert_eq!(r.query, pairs(&[("filter", "open"), ("fields", "id,name,closed,url")]));
    assert_eq!(Board::get_request("b1").query, pairs(&[("fields", "id,name,closed,url")]));
    let r = Board::get_all_labels_request("b1");
    assert_eq!(r.path, "/1/boards/b1/labels");
    assert_eq!(r.query, pairs(&[("fields", "id,name,color")]));
    let r = Board::get_all_lists_request("b1", true);
    assert_eq!(r.path, "/1/boards/b1/lists");
    assert_eq!(r.query, pairs(&[("fields", "id,name,closed"), ("cards", "open")]));
    assert_eq!(Board::get_all_lists_request("b1", false).query, pairs(&[("fields", "id,name,closed")]));
}

#[test]
fn attachment_requests() {
    let r = Attachment::get_all_request("c1");
    assert_eq!(r.path, "/1/cards/c1/attachments");
    assert_eq!(r.query, pairs(&[("fields", "id,name,url")]));
}
