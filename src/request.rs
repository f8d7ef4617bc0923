//! The requests that the service's REST interface expects for each operation,
//! described as plain values: a method, a path, query parameters and form
//! fields. Sending them is up to the caller.
use vstd::prelude::*;
use crate::attachment::Attachment;
use crate::board::Board;
use crate::card::Card;
use crate::label::Label;
use crate::list::List;
use crate::object::field_list;
use crate::text::join_by;

verus! {

#[derive(Debug, PartialEq, Eq, Clone, Copy)]
pub enum Method {
    Get,
    Post,
    Put,
    Delete,
}

/// A request to the service. `file` names a local file to upload with the
/// form, under the form field `file`.
#[derive(Debug, PartialEq, Eq)]
pub struct Request {
    pub method: Method,
    pub path: String,
    pub query: Vec<(String, String)>,
    pub form: Vec<(String, String)>,
    pub file: Option<String>,
}

/// The text of each key and value, in order.
pub open spec fn pair_views(v: Seq<(String, String)>) -> Seq<(Seq<char>, Seq<char>)> {
    v.map_values(|p: (String, String)| (p.0@, p.1@))
}

/// The text `bool::to_string` gives.
pub open spec fn bool_text(b: bool) -> Seq<char> {
    if b {
        seq!['t', 'r', 'u', 'e']
    } else {
        seq!['f', 'a', 'l', 's', 'e']
    }
}

fn bool_to_string(b: bool) -> (r: String)
    ensures
        r@ == bool_text(b),
{
    proof {
        reveal_strlit("true");
        reveal_strlit("false");
    }
    if b {
        "true".to_owned()
    } else {
        "false".to_owned()
    }
}

/// `a`, then `id`, then `b`.
fn path_around(a: &str, id: &str, b: &str) -> (r: String)
    ensures
        r@ == a@ + id@ + b@,
{
    let mut r = a.to_owned();
    r.append(id);
    r.append(b);
    r
}

/// `a`, then `id`.
fn path_after(a: &str, id: &str) -> (r: String)
    ensures
        r@ == a@ + id@,
{
    let mut r = a.to_owned();
    r.append(id);
    r
}

fn pair(k: &str, v: &str) -> (r: (String, String))
    ensures
        r.0@ == k@,
        r.1@ == v@,
{
    (k.to_owned(), v.to_owned())
}

impl Request {
    /// A request with no parameters and no file.
    pub fn new(method: Method, path: String) -> (r: Request)
        ensures
            r.method == method,
            r.path == path,
            r.query@.len() == 0,
            r.form@.len() == 0,
            r.file is None,
    {
        Request { method, path, query: Vec::new(), form: Vec::new(), file: None }
    }
}

impl Attachment {
    /// Fetches the attachments of a card.
    pub fn get_all_request(card_id: &str) -> (r: Request)
        ensures
            r.method == Method::Get,
            r.path@ == "/1/cards/"@ + card_id@ + "/attachments"@,
            pair_views(r.query@) == seq![("fields"@, "id,name,url"@)],
            r.form@.len() == 0,
            r.file is None,
    {
        let mut r = Request::new(Method::Get, path_around("/1/cards/", card_id, "/attachments"));
        let fields = field_list::<Attachment>();
        r.query.push(pair("fields", fields.as_str()));
        proof {
            reveal_strlit("id,name,url");
            reveal_with_fuel(join_by, 4);
            assert(fields@ =~= "id,name,url"@);
            assert(pair_views(r.query@) =~= seq![("fields"@, "id,name,url"@)]);
        }
        r
    }
}

impl Card {
    /// Creates `card` at the end of the list `list_id`.
    pub fn create_request(list_id: &str, card: &Card) -> (r: Request)
        ensures
            r.method == Method::Post,
            r.path@ == "/1/cards/"@,
            r.query@.len() == 0,
            pair_views(r.form@) == seq![
                ("name"@, card.name@),
                ("desc"@, card.desc@),
                ("idList"@, list_id@),
            ],
            r.file is None,
    {
        let mut r = Request::new(Method::Post, "/1/cards/".to_owned());
        r.form.push(pair("name", card.name.as_str()));
        r.form.push(pair("desc", card.desc.as_str()));
        r.form.push(pair("idList", list_id));
        assert(pair_views(r.form@) =~= seq![
            ("name"@, card.name@),
            ("desc"@, card.desc@),
            ("idList"@, list_id@),
        ]);
        r
    }

    /// Reopens the archived card `card_id`.
    pub fn open_request(card_id: &str) -> (r: Request)
        ensures
            r.method == Method::Put,
            r.path@ == "/1/cards/"@ + card_id@,
            r.query@.len() == 0,
            pair_views(r.form@) == seq![("closed"@, "false"@)],
            r.file is None,
    {
        let mut r = Request::new(Method::Put, path_after("/1/cards/", card_id));
        r.form.push(pair("closed", "false"));
        assert(pair_views(r.form@) =~= seq![("closed"@, "false"@)]);
        r
    }

    /// Stores the name, description and archived state of `card`.
    pub fn update_request(card: &Card) -> (r: Request)
        ensures
            r.method == Method::Put,
            r.path@ == "/1/cards/"@ + card.id@ + "/"@,
            r.query@.len() == 0,
            pair_views(r.form@) == seq![
                ("name"@, card.name@),
                ("desc"@, card.desc@),
                ("closed"@, bool_text(card.closed)),
            ],
            r.file is None,
    {
        let mut r = Request::new(Method::Put, path_around("/1/cards/", card.id.as_str(), "/"));
        r.form.push(pair("name", card.name.as_str()));
        r.form.push(pair("desc", card.desc.as_str()));
        let closed = bool_to_string(card.closed);
        r.form.push(pair("closed", closed.as_str()));
        assert(pair_views(r.form@) =~= seq![
            ("name"@, card.name@),
            ("desc"@, card.desc@),
            ("closed"@, bool_text(card.closed)),
        ]);
        r
    }

    /// Uploads the local file `file` as an attachment of the card `card_id`.
    pub fn apply_attachment_request(card_id: &str, file: &str) -> (r: Request)
        ensures
            r.method == Method::Post,
            r.path@ == "/1/cards/"@ + card_id@ + "/attachments"@,
            r.query@.len() == 0,
            r.form@.len() == 0,
            r.file matches Some(f) && f@ == file@,
    {
        let mut r = Request::new(Method::Post, path_around("/1/cards/", card_id, "/attachments"));
        r.file = Some(file.to_owned());
        r
    }

    /// Takes the label `label_id` off the card `card_id`.
    pub fn remove_label_request(card_id: &str, label_id: &str) -> (r: Request)
        ensures
            r.method == Method::Delete,
            r.path@ == "/1/cards/"@ + card_id@ + "/idLabels/"@ + label_id@,
            r.query@.len() == 0,
            r.form@.len() == 0,
            r.file is None,
    {
        let mut path = path_around("/1/cards/", card_id, "/idLabels/");
        path.append(label_id);
        Request::new(Method::Delete, path)
    }

    /// Puts the label `label_id` on the card `card_id`.
    pub fn apply_label_request(card_id: &str, label_id: &str) -> (r: Request)
        ensures
            r.method == Method::Post,
            r.path@ == "/1/cards/"@ + card_id@ + "/idLabels"@,
            r.query@.len() == 0,
            pair_views(r.form@) == seq![("value"@, label_id@)],
            r.file is None,
    {
        let mut r = Request::new(Method::Post, path_around("/1/cards/", card_id, "/idLabels"));
        r.form.push(pair("value", label_id));
        assert(pair_views(r.form@) =~= seq![("value"@, label_id@)]);
        r
    }
}

impl List {
    /// Creates a list named `name` on the board `board_id`.
    pub fn create_request(board_id: &str, name: &str) -> (r: Request)
        ensures
            r.method == Method::Post,
            r.path@ == "/1/lists/"@,
            r.query@.len() == 0,
            pair_views(r.form@) == seq![("name"@, name@), ("idBoard"@, board_id@)],
            r.file is None,
    {
        let mut r = Request::new(Method::Post, "/1/lists/".to_owned());
        r.form.push(pair("name", name));
        r.form.push(pair("idBoard", board_id));
        assert(pair_views(r.form@) =~= seq![("name"@, name@), ("idBoard"@, board_id@)]);
        r
    }

    /// Reopens the archived list `list_id`.
    pub fn open_request(list_id: &str) -> (r: Request)
        ensures
            r.method == Method::Put,
            r.path@ == "/1/lists/"@ + list_id@,
            r.query@.len() == 0,
            pair_views(r.form@) == seq![("closed"@, "false"@)],
            r.file is None,
    {
        let mut r = Request::new(Method::Put, path_after("/1/lists/", list_id));
        r.form.push(pair("closed", "false"));
        assert(pair_views(r.form@) =~= seq![("closed"@, "false"@)]);
        r
    }

    /// Stores the name and archived state of `list`.
    pub fn update_request(list: &List) -> (r: Request)
        ensures
            r.method == Method::Put,
            r.path@ == "/1/lists/"@ + list.id@ + "/"@,
            r.query@.len() == 0,
            pair_views(r.form@) == seq![("name"@, list.name@), ("closed"@, bool_text(list.closed))],
            r.file is None,
    {
        let mut r = Request::new(Method::Put, path_around("/1/lists/", list.id.as_str(), "/"));
        r.form.push(pair("name", list.name.as_str()));
        let closed = bool_to_string(list.closed);
        r.form.push(pair("closed", closed.as_str()));
        assert(pair_views(r.form@) =~= seq![
            ("name"@, list.name@),
            ("closed"@, bool_text(list.closed)),
        ]);
        r
    }

    /// Fetches the cards of the list `list_id`.
    pub fn get_all_cards_request(list_id: &str) -> (r: Request)
        ensures
            r.method == Method::Get,
            r.path@ == "/1/lists/"@ + list_id@ + "/cards/"@,
            pair_views(r.query@) == seq![("fields"@, "id,name,desc,labels,closed,url"@)],
            r.form@.len() == 0,
            r.file is None,
    {
        let mut r = Request::new(Method::Get, path_around("/1/lists/", list_id, "/cards/"));
        let fields = field_list::<Card>();
        r.query.push(pair("fields", fields.as_str()));
        proof {
            reveal_strlit("id,name,desc,labels,closed,url");
            reveal_with_fuel(join_by, 7);
            assert(fields@ =~= "id,name,desc,labels,closed,url"@);
            assert(pair_views(r.query@) =~= seq![("fields"@, "id,name,desc,labels,closed,url"@)]);
        }
        r
    }
}

impl Board {
    /// Creates a board named `name`.
    pub fn create_request(name: &str) -> (r: Request)
        ensures
            r.method == Method::Post,
            r.path@ == "/1/boards/"@,
            r.query@.len() == 0,
            pair_views(r.form@) == seq![("name"@, name@)],
            r.file is None,
    {
        let mut r = Request::new(Method::Post, "/1/boards/".to_owned());
        r.form.push(pair("name", name));
        assert(pair_views(r.form@) =~= seq![("name"@, name@)]);
        r
    }

    /// Reopens the archived board `board_id`.
    pub fn open_request(board_id: &str) -> (r: Request)
        ensures
            r.method == Method::Put,
            r.path@ == "/1/boards/"@ + board_id@,
            r.query@.len() == 0,
            pair_views(r.form@) == seq![("closed"@, "false"@)],
            r.file is None,
    {
        let mut r = Request::new(Method::Put, path_after("/1/boards/", board_id));
        r.form.push(pair("closed", "false"));
        assert(pair_views(r.form@) =~= seq![("closed"@, "false"@)]);
        r
    }

    /// Stores the name and archived state of `board`.
    pub fn update_request(board: &Board) -> (r: Request)
        ensures
            r.method == Method::Put,
            r.path@ == "/1/boards/"@ + board.id@ + "/"@,
            r.query@.len() == 0,
            pair_views(r.form@) == seq![("name"@, board.name@), ("closed"@, bool_text(board.closed))],
            r.file is None,
    {
        let mut r = Request::new(Method::Put, path_around("/1/boards/", board.id.as_str(), "/"));
        r.form.push(pair("name", board.name.as_str()));
        let closed = bool_to_string(board.closed);
        r.form.push(pair("closed", closed.as_str()));
        assert(pair_views(r.form@) =~= seq![
            ("name"@, board.name@),
            ("closed"@, bool_text(board.closed)),
        ]);
        r
    }

    /// Fetches the open boards of the signed-in member.
    pub fn get_all_request() -> (r: Request)
        ensures
            r.method == Method::Get,
            r.path@ == "/1/members/me/boards/"@,
            pair_views(r.query@) == seq![("filter"@, "open"@), ("fields"@, "id,name,closed,url"@)],
            r.form@.len() == 0,
            r.file is None,
    {
        let mut r = Request::new(Method::Get, "/1/members/me/boards/".to_owned());
        r.query.push(pair("filter", "open"));
        let fields = field_list::<Board>();
        r.query.push(pair("fields", fields.as_str()));
        proof {
            reveal_strlit("id,name,closed,url");
            reveal_with_fuel(join_by, 5);
            assert(fields@ =~= "id,name,closed,url"@);
            assert(pair_views(r.query@) =~= seq![
                ("filter"@, "open"@),
                ("fields"@, "id,name,closed,url"@),
            ]);
        }
        r
    }

    /// Fetches the board `board_id`.
    pub fn get_request(board_id: &str) -> (r: Request)
        ensures
            r.method == Method::Get,
            r.path@ == "/1/boards/"@ + board_id@,
            pair_views(r.query@) == seq![("fields"@, "id,name,closed,url"@)],
            r.form@.len() == 0,
            r.file is None,
    {
        let mut r = Request::new(Method::Get, path_after("/1/boards/", board_id));
        let fields = field_list::<Board>();
        r.query.push(pair("fields", fields.as_str()));
        proof {
            reveal_strlit("id,name,closed,url");
            reveal_with_fuel(join_by, 5);
            assert(fields@ =~= "id,name,closed,url"@);
            assert(pair_views(r.query@) =~= seq![("fields"@, "id,name,closed,url"@)]);
        }
        r
    }

    /// Fetches the labels defined on the board `board_id`.
    pub fn get_all_labels_request(board_id: &str) -> (r: Request)
        ensures
            r.method == Method::Get,
            r.path@ == "/1/boards/"@ + board_id@ + "/labels"@,
            pair_views(r.query@) == seq![("fields"@, "id,name,color"@)],
            r.form@.len() == 0,
            r.file is None,
    {
        let mut r = Request::new(Method::Get, path_around("/1/boards/", board_id, "/labels"));
        let fields = field_list::<Label>();
        r.query.push(pair("fields", fields.as_str()));
        proof {
            reveal_strlit("id,name,color");
            reveal_with_fuel(join_by, 4);
            assert(fields@ =~= "id,name,color"@);
            assert(pair_views(r.query@) =~= seq![("fields"@, "id,name,color"@)]);
        }
        r
    }

    /// Fetches the lists of the board `board_id`, each with its open cards
    /// when `cards` is set.
    pub fn get_all_lists_request(board_id: &str, cards: bool) -> (r: Request)
        ensures
            r.method == Method::Get,
            r.path@ == "/1/boards/"@ + board_id@ + "/lists"@,
            pair_views(r.query@) == if cards {
                seq![("fields"@, "id,name,closed"@), ("cards"@, "open"@)]
            } else {
                seq![("fields"@, "id,name,closed"@)]
            },
            r.form@.len() == 0,
            r.file is None,
    {
        let mut r = Request::new(Method::Get, path_around("/1/boards/", board_id, "/lists"));
        let fields = field_list::<List>();
        r.query.push(pair("fields", fields.as_str()));
        if cards {
            r.query.push(pair("cards", "open"));
        }
        proof {
            reveal_strlit("id,name,closed");
            reveal_with_fuel(join_by, 4);
            assert(fields@ =~= "id,name,closed"@);
            if cards {
                assert(pair_views(r.query@) =~= seq![("fields"@, "id,name,closed"@), ("cards"@, "open"@)]);
            } else {
                assert(pair_views(r.query@) =~= seq![("fields"@, "id,name,closed"@)]);
            }
        }
        r
    }
}

} // verus!
