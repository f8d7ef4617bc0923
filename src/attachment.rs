//! Files attached to cards.
use vstd::prelude::*;
use crate::object::{str_views, TrelloObject};
use crate::text::{header, header_text};

verus! {

#[derive(Debug, PartialEq, Eq, Clone)]
pub struct Attachment {
    pub id: String,
    pub name: String,
    pub url: String,
}

impl Attachment {
    pub fn new(id: &str, name: &str, url: &str) -> (r: Attachment)
        ensures
            r.id@ == id@,
            r.name@ == name@,
            r.url@ == url@,
    {
        Attachment { id: id.to_owned(), name: name.to_owned(), url: url.to_owned() }
    }
}

impl TrelloObject for Attachment {
    open spec fn kind_name() -> Seq<char> {
        seq!['A', 't', 't', 'a', 'c', 'h', 'm', 'e', 'n', 't']
    }

    open spec fn object_name(&self) -> Seq<char> {
        self.name@
    }

    open spec fn field_names() -> Seq<Seq<char>> {
        seq![seq!['i', 'd'], seq!['n', 'a', 'm', 'e'], seq!['u', 'r', 'l']]
    }

    /// The name underlined with `-`, then the address of the file.
    open spec fn renders_as(&self, out: Seq<char>) -> bool {
        out == header_text(self.name@, seq!['-']) + seq!['\n'] + self.url@
    }

    fn get_type() -> (r: String) {
        proof {
            reveal_strlit("Attachment");
        }
        "Attachment".to_owned()
    }

    fn get_name(&self) -> (r: &str) {
        self.name.as_str()
    }

    fn get_fields() -> (r: &'static [&'static str]) {
        proof {
            reveal_strlit("id");
            reveal_strlit("name");
            reveal_strlit("url");
        }
        let r: &'static [&'static str] = &["id", "name", "url"];
        assert(r@[0]@ =~= seq!['i', 'd']);
        assert(r@[1]@ =~= seq!['n', 'a', 'm', 'e']);
        assert(r@[2]@ =~= seq!['u', 'r', 'l']);
        assert(str_views(r@) =~= Self::field_names());
        r
    }

    fn render(&self) -> (r: String) {
        proof {
            reveal_strlit("-");
            reveal_strlit("\n");
            assert("-"@ =~= seq!['-']);
            assert("\n"@ =~= seq!['\n']);
        }
        let mut r = header(self.name.as_str(), "-");
        r.append("\n");
        r.append(self.url.as_str());
        assert(r@ =~= header_text(self.name@, seq!['-']) + seq!['\n'] + self.url@);
        r
    }
}

} // verus!
