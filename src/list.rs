//! Lists of cards: filtering their cards by label and rendering them as an
//! overview.
use vstd::prelude::*;
use crate::card::{card_labels, same_cards, Card};
use crate::object::{str_views, TrelloObject};
use crate::pattern::{pattern_compiles, pattern_matches, LabelPattern};
use crate::text::{
    header, join_by, join_lines, join_range, trim_end, trimmed_end, views,
};

verus! {

/// Relies on colored's `bold`: the text styled bold for a terminal. Whether
/// styling is applied depends on the environment, so nothing is stated of it.
#[verifier::external_body]
pub(crate) fn bold(s: &str) -> (r: String) {
    colored::Colorize::bold(s).to_string()
}

/// Relies on colored's `dimmed`: the text styled dim for a terminal. Whether
/// styling is applied depends on the environment, so nothing is stated of it.
#[verifier::external_body]
pub(crate) fn dimmed(s: &str) -> (r: String) {
    colored::Colorize::dimmed(s).to_string()
}

#[derive(Debug, PartialEq, Eq, Clone)]
pub struct List {
    pub id: String,
    pub name: String,
    pub closed: bool,
    pub cards: Option<Vec<Card>>,
}

/// The cards of a list; a list without a card list has none.
pub open spec fn list_cards(l: List) -> Seq<Card> {
    match l.cards {
        Some(v) => v@,
        None => seq![],
    }
}

/// Whether some label of the card has a name that `pattern` matches.
pub open spec fn card_matches(c: Card, pattern: Seq<char>) -> bool {
    exists|i: int|
        0 <= i < card_labels(c).len() && pattern_matches(pattern, #[trigger] card_labels(c)[i].name@)
}

/// The cards, in order, that have a label that `pattern` matches.
pub open spec fn matching_cards(cards: Seq<Card>, pattern: Seq<char>) -> Seq<Card> {
    cards.filter(|c: Card| card_matches(c, pattern))
}

/// Whether `r` is `l` with only the cards that `pattern` matches kept.
pub open spec fn list_filtered(l: List, r: List, pattern: Seq<char>) -> bool {
    &&& r.id == l.id
    &&& r.name == l.name
    &&& r.closed == l.closed
    &&& r.cards is Some == l.cards is Some
    &&& same_cards(list_cards(r), matching_cards(list_cards(l), pattern))
}

/// The tags shown after a card's name in a list overview: `marker` if the
/// card has a description, then the name of each label.
pub open spec fn card_tags(c: Card, marker: Seq<char>) -> Seq<Seq<char>> {
    let labels = card_labels(c).map_values(|l: crate::label::Label| l.name@);
    if c.desc@.len() > 0 {
        seq![marker] + labels
    } else {
        labels
    }
}

/// A card's line in a list overview: a bullet, its name and its tags, with
/// trailing whitespace removed.
pub open spec fn card_line(c: Card, marker: Seq<char>) -> Seq<char> {
    trimmed_end(seq!['*', ' '] + c.name@ + seq![' '] + join_by(card_tags(c, marker), seq![' ']))
}

/// A list overview: `title`, then one line for each card.
pub open spec fn list_text(l: List, title: Seq<char>, marker: Seq<char>) -> Seq<char> {
    join_lines(seq![title] + list_cards(l).map_values(|c: Card| card_line(c, marker)))
}

/// Whether the card has a label whose name the pattern matches.
fn has_matching_label(c: &Card, p: &LabelPattern) -> (r: bool)
    ensures
        r == card_matches(*c, p.source()),
{
    match &c.labels {
        Some(labels) => {
            let mut i: usize = 0;
            while i < labels.len()
                invariant
                    c.labels == Some(*labels),
                    i <= labels.len(),
                    forall|j: int| 0 <= j < i ==> !pattern_matches(p.source(), #[trigger] labels@[j].name@),
                decreases labels.len() - i,
            {
                if p.is_match(labels[i].name.as_str()) {
                    assert(card_labels(*c)[i as int] == labels@[i as int]);
                    return true;
                }
                i = i + 1;
            }
            false
        },
        None => false,
    }
}

/// The line for `c` in a list overview, with `marker` as the tag of a card
/// that has a description.
fn card_line_of(c: &Card, marker: &str) -> (r: String)
    ensures
        r@ == card_line(*c, marker@),
{
    let mut tags: Vec<String> = Vec::new();
    if c.desc.as_str().unicode_len() > 0 {
        tags.push(marker.to_owned());
    }
    let ghost lead = views(tags@);
    let ghost names = card_labels(*c).map_values(|l: crate::label::Label| l.name@);
    if let Some(labels) = &c.labels {
        let mut i: usize = 0;
        assert(names == labels@.map_values(|l: crate::label::Label| l.name@));
        while i < labels.len()
            invariant
                c.labels == Some(*labels),
                i <= labels.len(),
                names == labels@.map_values(|l: crate::label::Label| l.name@),
                views(tags@) == lead + names.take(i as int),
            decreases labels.len() - i,
        {
            let ghost before = views(tags@);
            let name = labels[i].render();
            tags.push(name);
            proof {
                assert(card_labels(*c) == labels@);
                assert(names[i as int] == labels@[i as int].name@);
                assert(views(tags@) =~= before.push(name@));
                assert(views(tags@) =~= lead + names.take(i + 1));
            }
            i = i + 1;
        }
        proof {
            assert(names.take(i as int) =~= names);
        }
    } else {
        assert(names =~= Seq::<Seq<char>>::empty());
        assert(views(tags@) =~= lead + names);
    }
    proof {
        assert(views(tags@) =~= card_tags(*c, marker@));
        reveal_strlit("* ");
        reveal_strlit(" ");
        assert(" "@ =~= seq![' ']);
        assert(views(tags@).subrange(0, tags@.len() as int) =~= views(tags@));
    }
    let mut s = "* ".to_owned();
    s.append(c.name.as_str());
    s.append(" ");
    s.append(join_range(&tags, 0, tags.len(), " ").as_str());
    assert(s@ =~= seq!['*', ' '] + c.name@ + seq![' '] + join_by(card_tags(*c, marker@), seq![' ']));
    trim_end(s.as_str())
}

impl List {
    /// The overview of the list under the given title: `title`, then for each
    /// card a bullet line with its name, `marker` if it has a description, and
    /// the names of its labels.
    pub fn render_with(&self, title: &str, marker: &str) -> (r: String)
        ensures
            r@ == list_text(*self, title@, marker@),
    {
        let mut lines: Vec<String> = Vec::new();
        lines.push(title.to_owned());
        let ghost all = list_cards(*self).map_values(|c: Card| card_line(c, marker@));
        proof {
            assert(views(lines@) =~= seq![title@] + all.take(0));
        }
        if let Some(cs) = &self.cards {
            let mut i: usize = 0;
            assert(all == cs@.map_values(|c: Card| card_line(c, marker@)));
            while i < cs.len()
                invariant
                    self.cards == Some(*cs),
                    i <= cs.len(),
                    all == cs@.map_values(|c: Card| card_line(c, marker@)),
                    views(lines@) == seq![title@] + all.take(i as int),
                decreases cs.len() - i,
            {
                let ghost before = views(lines@);
                let line = card_line_of(&cs[i], marker);
                lines.push(line);
                proof {
                    assert(list_cards(*self) == cs@);
                    assert(all[i as int] == card_line(cs@[i as int], marker@));
                    assert(views(lines@) =~= before.push(line@));
                    assert(views(lines@) =~= seq![title@] + all.take(i + 1));
                }
                i = i + 1;
            }
            proof {
                assert(all.take(i as int) =~= all);
            }
        } else {
            assert(all.take(0) =~= all);
        }
        proof {
            reveal_strlit("\n");
            assert("\n"@ =~= seq!['\n']);
            assert(views(lines@).subrange(0, lines@.len() as int) =~= views(lines@));
        }
        join_range(&lines, 0, lines.len(), "\n")
    }

    pub fn new(id: &str, name: &str, cards: Option<Vec<Card>>) -> (r: List)
        ensures
            r.id@ == id@,
            r.name@ == name@,
            r.cards == cards,
            !r.closed,
    {
        List { id: id.to_owned(), name: name.to_owned(), cards, closed: false }
    }

    /// A copy of the list that keeps only the cards with a label whose name
    /// `pattern` matches, in their order. A list without a card list stays
    /// without one.
    pub fn filter_by(&self, pattern: &LabelPattern) -> (r: List)
        ensures
            list_filtered(*self, r, pattern.source()),
    {
        let cards = match &self.cards {
            Some(cs) => {
                let mut out: Vec<Card> = Vec::new();
                let mut i: usize = 0;
                while i < cs.len()
                    invariant
                        self.cards == Some(*cs),
                        i <= cs.len(),
                        same_cards(out@, matching_cards(cs@.take(i as int), pattern.source())),
                    decreases cs.len() - i,
                {
                    let keep = has_matching_label(&cs[i], pattern);
                    let ghost before = out@;
                    if keep {
                        out.push(cs[i].duplicate());
                    }
                    proof {
                        reveal(Seq::filter);
                        let s = cs@.take(i + 1);
                        assert(s.drop_last() =~= cs@.take(i as int));
                        assert(s.last() == cs@[i as int]);
                    }
                    i = i + 1;
                }
                proof {
                    assert(cs@.take(i as int) =~= cs@);
                }
                Some(out)
            },
            None => None,
        };
        List { id: self.id.clone(), name: self.name.clone(), closed: self.closed, cards }
    }

    /// A copy of the list that keeps only the cards with a label whose name
    /// the case-insensitive regular expression `label_filter` matches.
    pub fn filter(&self, label_filter: &str) -> (r: List)
        requires
            pattern_compiles(label_filter@),
        ensures
            list_filtered(*self, r, label_filter@),
    {
        let p = LabelPattern::new(label_filter).unwrap();
        self.filter_by(&p)
    }

    /// Like `filter`, but returns `None` instead when `label_filter` is not a
    /// valid regular expression.
    pub fn try_filter(&self, label_filter: &str) -> (r: Option<List>)
        ensures
            r is Some == pattern_compiles(label_filter@),
            r matches Some(l) ==> list_filtered(*self, l, label_filter@),
    {
        match LabelPattern::new(label_filter) {
            Ok(_) => Some(self.filter(label_filter)),
            Err(_) => None,
        }
    }
}

impl TrelloObject for List {
    open spec fn kind_name() -> Seq<char> {
        seq!['L', 'i', 's', 't']
    }

    open spec fn object_name(&self) -> Seq<char> {
        self.name@
    }

    open spec fn field_names() -> Seq<Seq<char>> {
        seq![seq!['i', 'd'], seq!['n', 'a', 'm', 'e'], seq!['c', 'l', 'o', 's', 'e', 'd']]
    }

    /// The overview under some styling of the list's name underlined with
    /// `-`, with some styling of `[...]` as the description marker.
    open spec fn renders_as(&self, out: Seq<char>) -> bool {
        exists|title: Seq<char>, marker: Seq<char>| out == #[trigger] list_text(*self, title, marker)
    }

    fn get_type() -> (r: String) {
        proof {
            reveal_strlit("List");
        }
        "List".to_owned()
    }

    fn get_name(&self) -> (r: &str) {
        self.name.as_str()
    }

    fn get_fields() -> (r: &'static [&'static str]) {
        proof {
            reveal_strlit("id");
            reveal_strlit("name");
            reveal_strlit("closed");
        }
        let r: &'static [&'static str] = &["id", "name", "closed"];
        assert(r@[0]@ =~= seq!['i', 'd']);
        assert(r@[1]@ =~= seq!['n', 'a', 'm', 'e']);
        assert(r@[2]@ =~= seq!['c', 'l', 'o', 's', 'e', 'd']);
        assert(str_views(r@) =~= Self::field_names());
        r
    }

    fn render(&self) -> (r: String) {
        let title = bold(header(self.name.as_str(), "-").as_str());
        let marker = dimmed("[...]");
        let r = self.render_with(title.as_str(), marker.as_str());
        assert(r@ == list_text(*self, title@, marker@));
        r
    }
}

} // verus!
