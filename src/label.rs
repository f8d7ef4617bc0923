//! Labels attached to cards.
use vstd::prelude::*;
use crate::object::{str_views, TrelloObject};

verus! {

#[derive(Debug, PartialEq, Eq, Clone)]
pub struct Label {
    pub id: String,
    pub name: String,
    pub color: String,
}

impl Label {
    pub fn new(id: &str, name: &str, color: &str) -> (r: Label)
        ensures
            r.id@ == id@,
            r.name@ == name@,
            r.color@ == color@,
    {
        Label { id: id.to_owned(), name: name.to_owned(), color: color.to_owned() }
    }

    /// A copy of the label with the same field values.
    pub fn duplicate(&self) -> (r: Label)
        ensures
            r == *self,
    {
        Label { id: self.id.clone(), name: self.name.clone(), color: self.color.clone() }
    }
}

impl TrelloObject for Label {
    open spec fn kind_name() -> Seq<char> {
        seq!['L', 'a', 'b', 'e', 'l']
    }

    open spec fn object_name(&self) -> Seq<char> {
        self.name@
    }

    open spec fn field_names() -> Seq<Seq<char>> {
        seq![seq!['i', 'd'], seq!['n', 'a', 'm', 'e'], seq!['c', 'o', 'l', 'o', 'r']]
    }

    /// A label is rendered as its name.
    open spec fn renders_as(&self, out: Seq<char>) -> bool {
        out == self.name@
    }

    fn get_type() -> (r: String) {
        proof {
            reveal_strlit("Label");
        }
        "Label".to_owned()
    }

    fn get_name(&self) -> (r: &str) {
        self.name.as_str()
    }

    fn get_fields() -> (r: &'static [&'static str]) {
        proof {
            reveal_strlit("id");
            reveal_strlit("name");
            reveal_strlit("color");
        }
        let r: &'static [&'static str] = &["id", "name", "color"];
        assert(r@[0]@ =~= seq!['i', 'd']);
        assert(r@[1]@ =~= seq!['n', 'a', 'm', 'e']);
        assert(r@[2]@ =~= seq!['c', 'o', 'l', 'o', 'r']);
        assert(str_views(r@) =~= Self::field_names());
        r
    }

    fn render(&self) -> (r: String) {
        self.name.clone()
    }
}

} // verus!
