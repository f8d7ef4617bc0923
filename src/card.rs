//! Cards, and the plain-text form in which a card's name and description are
//! edited: the name, a line made only of `=` characters, then the description.
use vstd::prelude::*;
use crate::error::TrelloError;
use crate::label::Label;
use crate::object::{str_views, TrelloObject};
use crate::text::{
    header, header_text, join_lines, join_range, lemma_join_split, lemma_repeat_chars,
    lemma_split_lines_concat, lemma_split_lines_shape,
    lemma_split_lines_single, repeat, split_lines, split_lines_of, views,
};

verus! {

#[derive(Debug, PartialEq, Eq, Clone)]
pub struct Card {
    pub id: String,
    pub name: String,
    pub desc: String,
    pub closed: bool,
    pub url: String,
    pub labels: Option<Vec<Label>>,
}

/// The name and description read back from a card's text form.
#[derive(Debug, PartialEq, Eq)]
pub struct CardContents {
    pub name: String,
    pub desc: String,
}

/// A line that consists only of `=` characters; the empty line is one too.
pub open spec fn is_delimiter_line(line: Seq<char>) -> bool {
    forall|i: int| 0 <= i < line.len() ==> line[i] == '='
}

/// The index of the first delimiter line at or after `k`, if any.
pub open spec fn first_delimiter(lines: Seq<Seq<char>>, k: int) -> Option<int>
    decreases lines.len() - k,
{
    if k < 0 || k >= lines.len() {
        None
    } else if is_delimiter_line(lines[k]) {
        Some(k)
    } else {
        first_delimiter(lines, k + 1)
    }
}

/// The name and description held in a card's text form. The first line
/// always belongs to the name; the first delimiter line after it ends the
/// name, and every line after the delimiter is the description. Without a
/// delimiter line there is no result.
pub open spec fn parse_card_text(buffer: Seq<char>) -> Option<(Seq<char>, Seq<char>)> {
    let lines = split_lines(buffer);
    match first_delimiter(lines, 1) {
        Some(k) => Some((join_lines(lines.take(k)), join_lines(lines.skip(k + 1)))),
        None => None,
    }
}

/// The text form of a card: its name underlined with `=`, then its description.
pub open spec fn card_text(name: Seq<char>, desc: Seq<char>) -> Seq<char> {
    header_text(name, seq!['=']) + seq!['\n'] + desc
}

/// Whether no line of `name` could be taken for a delimiter line.
pub open spec fn name_has_no_delimiter(name: Seq<char>) -> bool {
    forall|i: int|
        0 <= i < split_lines(name).len() ==> !is_delimiter_line(#[trigger] split_lines(name)[i])
}

/// Whether `line` consists only of `=` characters.
pub fn is_delimiter(line: &str) -> (r: bool)
    ensures
        r == is_delimiter_line(line@),
{
    let n = line.unicode_len();
    let mut i: usize = 0;
    while i < n
        invariant
            n == line@.len(),
            i <= n,
            forall|j: int| 0 <= j < i ==> line@[j] == '=',
        decreases n - i,
    {
        if line.get_char(i) != '=' {
            return false;
        }
        i = i + 1;
    }
    true
}

pub proof fn lemma_first_delimiter_at(lines: Seq<Seq<char>>, j: int, k: int)
    requires
        0 <= j <= k < lines.len(),
        is_delimiter_line(lines[k]),
        forall|i: int| j <= i < k ==> !is_delimiter_line(#[trigger] lines[i]),
    ensures
        first_delimiter(lines, j) == Some(k),
    decreases k - j,
{
    if j < k {
        lemma_first_delimiter_at(lines, j + 1, k);
    }
}

/// Reading back the text form of a card gives its name and description,
/// provided no line of the name could be taken for the delimiter line.
pub proof fn lemma_card_text_round_trip(name: Seq<char>, desc: Seq<char>)
    requires
        name_has_no_delimiter(name),
    ensures
        parse_card_text(card_text(name, desc)) == Some((name, desc)),
{
    let rule = repeat(seq!['='], split_lines(name).last().len());
    let text = card_text(name, desc);
    assert(text =~= name + seq!['\n'] + (rule + seq!['\n'] + desc));
    lemma_repeat_chars('=', split_lines(name).last().len());
    assert(forall|i: int| 0 <= i < rule.len() ==> rule[i] != '\n');
    lemma_split_lines_concat(name, rule + seq!['\n'] + desc);
    lemma_split_lines_concat(rule, desc);
    lemma_split_lines_single(rule);
    lemma_split_lines_shape(name);
    lemma_split_lines_shape(desc);
    let a = split_lines(name);
    let b = split_lines(desc);
    let lines = split_lines(text);
    assert(lines =~= a + seq![rule] + b);
    let k = a.len() as int;
    assert(lines[k] == rule);
    assert(forall|i: int| 1 <= i < k ==> lines[i] == a[i]);
    lemma_first_delimiter_at(lines, 1, k);
    assert(lines.take(k) =~= a);
    assert(lines.skip(k + 1) =~= b);
    lemma_join_split(name);
    lemma_join_split(desc);
}

/// Reading the same text twice gives the same result, and rendering the same
/// name and description twice gives the same text.
pub proof fn lemma_card_text_deterministic(
    buffer1: Seq<char>,
    buffer2: Seq<char>,
    name1: Seq<char>,
    desc1: Seq<char>,
    name2: Seq<char>,
    desc2: Seq<char>,
)
    requires
        buffer1 == buffer2,
        name1 == name2,
        desc1 == desc2,
    ensures
        parse_card_text(buffer1) == parse_card_text(buffer2),
        card_text(name1, desc1) == card_text(name2, desc2),
{
}

/// The labels of a card; a card without a label list has none.
pub open spec fn card_labels(c: Card) -> Seq<Label> {
    match c.labels {
        Some(v) => v@,
        None => seq![],
    }
}

/// Whether two cards hold the same values.
pub open spec fn same_card(a: Card, b: Card) -> bool {
    &&& a.id == b.id
    &&& a.name == b.name
    &&& a.desc == b.desc
    &&& a.closed == b.closed
    &&& a.url == b.url
    &&& a.labels is Some == b.labels is Some
    &&& card_labels(a) == card_labels(b)
}

/// Whether two sequences of cards hold the same values, in the same order.
pub open spec fn same_cards(a: Seq<Card>, b: Seq<Card>) -> bool {
    &&& a.len() == b.len()
    &&& forall|i: int| 0 <= i < a.len() ==> same_card(#[trigger] a[i], b[i])
}

/// A copy of `labels` with the same values.
pub fn duplicate_labels(labels: &Vec<Label>) -> (r: Vec<Label>)
    ensures
        r@ == labels@,
{
    let mut r: Vec<Label> = Vec::new();
    let mut i: usize = 0;
    while i < labels.len()
        invariant
            i <= labels.len(),
            r@ == labels@.take(i as int),
        decreases labels.len() - i,
    {
        r.push(labels[i].duplicate());
        proof {
            assert(r@ =~= labels@.take(i + 1));
        }
        i = i + 1;
    }
    proof {
        assert(labels@.take(i as int) =~= labels@);
    }
    r
}

impl Card {
    /// A copy of the card with the same values.
    pub fn duplicate(&self) -> (r: Card)
        ensures
            same_card(r, *self),
    {
        let labels = match &self.labels {
            Some(v) => Some(duplicate_labels(v)),
            None => None,
        };
        Card {
            id: self.id.clone(),
            name: self.name.clone(),
            desc: self.desc.clone(),
            closed: self.closed,
            url: self.url.clone(),
            labels,
        }
    }

    pub fn new(id: &str, name: &str, desc: &str, labels: Option<Vec<Label>>, url: &str) -> (r: Card)
        ensures
            r.id@ == id@,
            r.name@ == name@,
            r.desc@ == desc@,
            r.url@ == url@,
            r.labels == labels,
            !r.closed,
    {
        Card {
            id: id.to_owned(),
            name: name.to_owned(),
            desc: desc.to_owned(),
            url: url.to_owned(),
            labels: labels,
            closed: false,
        }
    }

    /// Reads the text form of a card back into its name and description.
    /// The first line is always part of the name, which runs up to the first
    /// later line made only of `=` characters (of any length, the empty line
    /// included); all lines after that line form the description. Text is kept
    /// as it is: nothing is trimmed, and a carriage return stays part of its
    /// line.
    pub fn parse(buffer: &str) -> (r: Result<CardContents, TrelloError>)
        ensures
            match parse_card_text(buffer@) {
                Some((name, desc)) => r matches Ok(c) && c.name@ == name && c.desc@ == desc,
                None => r matches Err(TrelloError::CardParse(_)),
            },
    {
        let lines = split_lines_of(buffer);
        let ghost all = split_lines(buffer@);
        proof {
            lemma_split_lines_shape(buffer@);
            reveal_strlit("\n");
            assert("\n"@ =~= seq!['\n']);
        }
        let mut k: usize = 1;
        while k < lines.len() && !is_delimiter(lines[k].as_str())
            invariant
                1 <= k <= lines.len(),
                views(lines@) == all,
                first_delimiter(all, 1) == first_delimiter(all, k as int),
            decreases lines.len() - k,
        {
            k = k + 1;
        }
        if k == lines.len() {
            return Err(TrelloError::CardParse("Unable to find name delimiter '===='".to_owned()));
        }
        proof {
            assert(is_delimiter_line(all[k as int]));
            assert(first_delimiter(all, k as int) == Some(k as int));
        }
        let name = join_range(&lines, 0, k, "\n");
        let desc = join_range(&lines, k + 1, lines.len(), "\n");
        proof {
            assert(views(lines@).subrange(0, k as int) =~= all.take(k as int));
            assert(views(lines@).subrange(k + 1, lines.len() as int) =~= all.skip(k + 1));
        }
        Ok(CardContents { name, desc })
    }
}

impl TrelloObject for Card {
    open spec fn kind_name() -> Seq<char> {
        seq!['C', 'a', 'r', 'd']
    }

    open spec fn object_name(&self) -> Seq<char> {
        self.name@
    }

    open spec fn field_names() -> Seq<Seq<char>> {
        seq![
            seq!['i', 'd'],
            seq!['n', 'a', 'm', 'e'],
            seq!['d', 'e', 's', 'c'],
            seq!['l', 'a', 'b', 'e', 'l', 's'],
            seq!['c', 'l', 'o', 's', 'e', 'd'],
            seq!['u', 'r', 'l'],
        ]
    }

    open spec fn renders_as(&self, out: Seq<char>) -> bool {
        out == card_text(self.name@, self.desc@)
    }

    fn get_type() -> (r: String) {
        proof {
            reveal_strlit("Card");
        }
        "Card".to_owned()
    }

    fn get_name(&self) -> (r: &str) {
        self.name.as_str()
    }

    fn get_fields() -> (r: &'static [&'static str]) {
        proof {
            reveal_strlit("id");
            reveal_strlit("name");
            reveal_strlit("desc");
            reveal_strlit("labels");
            reveal_strlit("closed");
            reveal_strlit("url");
        }
        let r: &'static [&'static str] = &["id", "name", "desc", "labels", "closed", "url"];
        assert(r@[0]@ =~= seq!['i', 'd']);
        assert(r@[1]@ =~= seq!['n', 'a', 'm', 'e']);
        assert(r@[2]@ =~= seq!['d', 'e', 's', 'c']);
        assert(r@[3]@ =~= seq!['l', 'a', 'b', 'e', 'l', 's']);
        assert(r@[4]@ =~= seq!['c', 'l', 'o', 's', 'e', 'd']);
        assert(r@[5]@ =~= seq!['u', 'r', 'l']);
        assert(str_views(r@) =~= Self::field_names());
        r
    }

    /// The name underlined with `=` characters, then the description.
    fn render(&self) -> (r: String) {
        proof {
            reveal_strlit("=");
            reveal_strlit("\n");
            assert("="@ =~= seq!['=']);
            assert("\n"@ =~= seq!['\n']);
        }
        let mut r = header(self.name.as_str(), "=");
        r.append("\n");
        r.append(self.desc.as_str());
        assert(r@ =~= card_text(self.name@, self.desc@));
        r
    }
}

} // verus!
