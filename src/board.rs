//! Boards: the top of the hierarchy, holding lists of cards.
use vstd::prelude::*;
use crate::list::{bold, list_filtered, list_text, List};
use crate::object::{str_views, TrelloObject};
use crate::pattern::{pattern_compiles, LabelPattern};
use crate::text::{join_lines, join_range, title, views};

verus! {

#[derive(Debug, PartialEq, Eq, Clone)]
pub struct Board {
    pub id: String,
    pub name: String,
    pub closed: bool,
    pub url: String,
    pub lists: Option<Vec<List>>,
}

/// The lists of a board; a board without a list of lists has none.
pub open spec fn board_lists(b: Board) -> Seq<List> {
    match b.lists {
        Some(v) => v@,
        None => seq![],
    }
}

/// Each part preceded by an empty line.
pub open spec fn spaced(parts: Seq<Seq<char>>) -> Seq<Seq<char>>
    decreases parts.len(),
{
    if parts.len() == 0 {
        seq![]
    } else {
        spaced(parts.drop_last()) + seq![Seq::<char>::empty(), parts.last()]
    }
}

/// The overviews of `lists`, the `i`th under `list_titles[i]`.
pub open spec fn list_overviews(
    lists: Seq<List>,
    list_titles: Seq<Seq<char>>,
    marker: Seq<char>,
) -> Seq<Seq<char>> {
    Seq::new(lists.len(), |i: int| list_text(lists[i], list_titles[i], marker))
}

/// A board overview: `title`, then each list's overview after an empty line.
pub open spec fn board_text(
    b: Board,
    title: Seq<char>,
    list_titles: Seq<Seq<char>>,
    marker: Seq<char>,
) -> Seq<char> {
    join_lines(seq![title] + spaced(list_overviews(board_lists(b), list_titles, marker)))
}

/// Whether `r` is `b` with each list's cards kept only where `pattern`
/// matches a label.
pub open spec fn board_filtered(b: Board, r: Board, pattern: Seq<char>) -> bool {
    &&& r.id == b.id
    &&& r.name == b.name
    &&& r.closed == b.closed
    &&& r.url == b.url
    &&& r.lists is Some == b.lists is Some
    &&& board_lists(r).len() == board_lists(b).len()
    &&& forall|i: int|
        0 <= i < board_lists(b).len() ==> list_filtered(
            #[trigger] board_lists(b)[i],
            board_lists(r)[i],
            pattern,
        )
}

impl Board {
    pub fn new(id: &str, name: &str, lists: Option<Vec<List>>, url: &str) -> (r: Board)
        ensures
            r.id@ == id@,
            r.name@ == name@,
            r.url@ == url@,
            r.lists == lists,
            !r.closed,
    {
        Board {
            id: id.to_owned(),
            name: name.to_owned(),
            url: url.to_owned(),
            lists,
            closed: false,
        }
    }

    /// A copy of the board in which each list keeps only the cards with a
    /// label whose name `pattern` matches.
    pub fn filter_by(&self, pattern: &LabelPattern) -> (r: Board)
        ensures
            board_filtered(*self, r, pattern.source()),
    {
        let lists = match &self.lists {
            Some(ls) => {
                let mut out: Vec<List> = Vec::new();
                let mut i: usize = 0;
                while i < ls.len()
                    invariant
                        self.lists == Some(*ls),
                        i <= ls.len(),
                        out.len() == i,
                        forall|j: int| 0 <= j < i ==> list_filtered(ls@[j], #[trigger] out@[j], pattern.source()),
                    decreases ls.len() - i,
                {
                    out.push(ls[i].filter_by(pattern));
                    i = i + 1;
                }
                Some(out)
            },
            None => None,
        };
        Board {
            id: self.id.clone(),
            name: self.name.clone(),
            closed: self.closed,
            url: self.url.clone(),
            lists,
        }
    }

    /// A copy of the board in which each list keeps only the cards with a
    /// label whose name the case-insensitive regular expression `filter_name`
    /// matches.
    pub fn filter(&self, filter_name: &str) -> (r: Board)
        requires
            pattern_compiles(filter_name@),
        ensures
            board_filtered(*self, r, filter_name@),
    {
        let p = LabelPattern::new(filter_name).unwrap();
        self.filter_by(&p)
    }

    /// Like `filter`, but returns `None` instead when `filter_name` is not a
    /// valid regular expression.
    pub fn try_filter(&self, filter_name: &str) -> (r: Option<Board>)
        ensures
            r is Some == pattern_compiles(filter_name@),
            r matches Some(b) ==> board_filtered(*self, b, filter_name@),
    {
        match LabelPattern::new(filter_name) {
            Ok(_) => Some(self.filter(filter_name)),
            Err(_) => None,
        }
    }

    /// The overview of the board under `title`: the `i`th list under
    /// `list_titles[i]`, with `marker` on cards that have a description.
    pub fn render_with(&self, title: &str, list_titles: &Vec<String>, marker: &str) -> (r: String)
        requires
            list_titles.len() == board_lists(*self).len(),
        ensures
            r@ == board_text(*self, title@, views(list_titles@), marker@),
    {
        let mut lines: Vec<String> = Vec::new();
        lines.push(title.to_owned());
        let ghost all = list_overviews(board_lists(*self), views(list_titles@), marker@);
        proof {
            assert(views(lines@) =~= seq![title@] + spaced(all.take(0)));
        }
        if let Some(ls) = &self.lists {
            let mut i: usize = 0;
            while i < ls.len()
                invariant
                    self.lists == Some(*ls),
                    list_titles.len() == ls.len(),
                    i <= ls.len(),
                    all == list_overviews(ls@, views(list_titles@), marker@),
                    views(lines@) == seq![title@] + spaced(all.take(i as int)),
                decreases ls.len() - i,
            {
                let ghost before = views(lines@);
                lines.push(String::new());
                let overview = ls[i].render_with(list_titles[i].as_str(), marker);
                lines.push(overview);
                proof {
                    assert(all.take(i + 1).drop_last() =~= all.take(i as int));
                    assert(views(lines@) =~= before + seq![Seq::<char>::empty(), overview@]);
                    assert(views(lines@) =~= seq![title@] + spaced(all.take(i + 1)));
                }
                i = i + 1;
            }
            proof {
                assert(all.take(i as int) =~= all);
            }
        } else {
            assert(all.take(0) =~= all);
        }
        proof {
            reveal_strlit("\n");
            assert("\n"@ =~= seq!['\n']);
            assert(views(lines@).subrange(0, lines@.len() as int) =~= views(lines@));
        }
        join_range(&lines, 0, lines.len(), "\n")
    }
}

impl TrelloObject for Board {
    open spec fn kind_name() -> Seq<char> {
        seq!['B', 'o', 'a', 'r', 'd']
    }

    open spec fn object_name(&self) -> Seq<char> {
        self.name@
    }

    open spec fn field_names() -> Seq<Seq<char>> {
        seq![
            seq!['i', 'd'],
            seq!['n', 'a', 'm', 'e'],
            seq!['c', 'l', 'o', 's', 'e', 'd'],
            seq!['u', 'r', 'l'],
        ]
    }

    /// The overview under some styling of the board's name between rules of
    /// `=`, with each list under some styling of its name underlined with
    /// `-`, and some styling of `[...]` as the description marker.
    open spec fn renders_as(&self, out: Seq<char>) -> bool {
        exists|title: Seq<char>, list_titles: Seq<Seq<char>>, marker: Seq<char>|
            list_titles.len() == board_lists(*self).len() && out == #[trigger] board_text(
                *self,
                title,
                list_titles,
                marker,
            )
    }

    fn get_type() -> (r: String) {
        proof {
            reveal_strlit("Board");
        }
        "Board".to_owned()
    }

    fn get_name(&self) -> (r: &str) {
        self.name.as_str()
    }

    fn get_fields() -> (r: &'static [&'static str]) {
        proof {
            reveal_strlit("id");
            reveal_strlit("name");
            reveal_strlit("closed");
            reveal_strlit("url");
        }
        let r: &'static [&'static str] = &["id", "name", "closed", "url"];
        assert(r@[0]@ =~= seq!['i', 'd']);
        assert(r@[1]@ =~= seq!['n', 'a', 'm', 'e']);
        assert(r@[2]@ =~= seq!['c', 'l', 'o', 's', 'e', 'd']);
        assert(r@[3]@ =~= seq!['u', 'r', 'l']);
        assert(str_views(r@) =~= Self::field_names());
        r
    }

    fn render(&self) -> (r: String) {
        let heading = bold(title(self.name.as_str(), "=").as_str());
        let mut list_titles: Vec<String> = Vec::new();
        if let Some(ls) = &self.lists {
            let mut i: usize = 0;
            while i < ls.len()
                invariant
                    i <= ls.len(),
                    list_titles.len() == i,
                decreases ls.len() - i,
            {
                list_titles.push(bold(crate::text::header(ls[i].name.as_str(), "-").as_str()));
                i = i + 1;
            }
        }
        let marker = crate::list::dimmed("[...]");
        let r = self.render_with(heading.as_str(), &list_titles, marker.as_str());
        assert(r@ == board_text(*self, heading@, views(list_titles@), marker@));
        r
    }
}

} // verus!
