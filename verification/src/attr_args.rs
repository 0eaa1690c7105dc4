//! The argument list of a configuration annotation, before any key is given a
//! meaning: a comma-separated list of entries, each a bare key, `key = value`
//! or `key(tokens)`.
//!
//! A value runs up to the next comma that stands outside every group and
//! outside every pair of angle brackets, so that `key = Map<K, V>` is one
//! entry.

use crate::error::{yields, ConfigError, ConfigFault};
use crate::token::{copy_range, is_punct, text_eq, Delimiter, Spacing, Token, TokenView};
use vstd::prelude::*;

verus! {

/// What an entry carries beside its key.
#[derive(Debug, PartialEq, Eq)]
pub enum EntryValue {
    /// `key`
    Flag,
    /// `key = value`, with the tokens of the value.
    Assigned(Vec<Token>),
    /// `key(tokens)`, with the tokens between the parentheses.
    Block(Vec<Token>),
}

/// One entry of an argument list.
#[derive(Debug, PartialEq, Eq)]
pub struct Entry {
    pub key: String,
    pub value: EntryValue,
    /// The index of the key among the tokens of the list.
    pub at: usize,
}

/// The mathematical value of an [`EntryValue`].
pub enum EntryValueView {
    Flag,
    Assigned(Seq<TokenView>),
    Block(Seq<TokenView>),
}

/// The mathematical value of an [`Entry`].
pub struct EntryView {
    pub key: Seq<char>,
    pub value: EntryValueView,
    pub at: usize,
}

impl DeepView for EntryValue {
    type V = EntryValueView;

    open spec fn deep_view(&self) -> EntryValueView {
        match self {
            EntryValue::Flag => EntryValueView::Flag,
            EntryValue::Assigned(ts) => EntryValueView::Assigned(ts.deep_view()),
            EntryValue::Block(ts) => EntryValueView::Block(ts.deep_view()),
        }
    }
}

impl View for EntryValue {
    type V = EntryValueView;

    open spec fn view(&self) -> EntryValueView {
        self.deep_view()
    }
}

impl DeepView for Entry {
    type V = EntryView;

    open spec fn deep_view(&self) -> EntryView {
        EntryView { key: self.key@, value: self.value@, at: self.at }
    }
}

impl View for Entry {
    type V = EntryView;

    open spec fn view(&self) -> EntryView {
        self.deep_view()
    }
}

/// The index of the closing bracket of the group whose inside starts at `i`,
/// when `depth` further groups are open at `i`. Brackets are counted, not
/// told apart by kind. `None` when the group is never closed.
pub open spec fn group_close(ts: Seq<TokenView>, i: int, depth: nat) -> Option<int>
    decreases ts.len() - i,
{
    if i < 0 || i >= ts.len() {
        None
    } else {
        match ts[i] {
            TokenView::Open(_) => group_close(ts, i + 1, depth + 1),
            TokenView::Close(_) => if depth == 0 {
                Some(i)
            } else {
                group_close(ts, i + 1, (depth - 1) as nat)
            },
            _ => group_close(ts, i + 1, depth),
        }
    }
}

/// Whether the `>` at `i` is the head of an arrow `->`.
pub open spec fn is_arrow_head(ts: Seq<TokenView>, i: int) -> bool {
    0 < i < ts.len() && ts[i - 1] == TokenView::Punct('-', Spacing::Joint)
}

/// The index at which the value that is being read at `i` ends: that of the
/// first comma outside every group and every pair of angle brackets, or the
/// length of `ts`. `groups` and `angles` count the groups and the angle
/// brackets that are open at `i`. `None` when a group is closed that the value
/// did not open, or one is left open.
pub open spec fn value_end(ts: Seq<TokenView>, i: int, groups: nat, angles: nat) -> Option<int>
    decreases ts.len() - i,
{
    if i < 0 {
        None
    } else if i >= ts.len() {
        if groups == 0 {
            Some(ts.len() as int)
        } else {
            None
        }
    } else {
        match ts[i] {
            TokenView::Open(_) => value_end(ts, i + 1, groups + 1, angles),
            TokenView::Close(_) => if groups == 0 {
                None
            } else {
                value_end(ts, i + 1, (groups - 1) as nat, angles)
            },
            TokenView::Punct(c, _) => if groups > 0 {
                value_end(ts, i + 1, groups, angles)
            } else if c == ',' && angles == 0 {
                Some(i)
            } else if c == '<' {
                value_end(ts, i + 1, groups, angles + 1)
            } else if c == '>' && angles > 0 && !is_arrow_head(ts, i) {
                value_end(ts, i + 1, groups, (angles - 1) as nat)
            } else {
                value_end(ts, i + 1, groups, angles)
            },
            _ => value_end(ts, i + 1, groups, angles),
        }
    }
}

/// The entry that starts at `i`, with the index just behind it. `None` when no
/// entry starts there: the token is no word, a value is empty or ill-nested,
/// or the word is followed by something other than `,`, `=` or a parenthesized
/// group.
pub open spec fn entry_at(ts: Seq<TokenView>, i: int) -> Option<(EntryView, int)> {
    if i < 0 || i >= ts.len() {
        None
    } else {
        match ts[i] {
            TokenView::Ident(key) => {
                if i + 1 >= ts.len() || is_punct(ts[i + 1], ',') {
                    Some((EntryView { key, value: EntryValueView::Flag, at: i as usize }, i + 1))
                } else if is_punct(ts[i + 1], '=') {
                    match value_end(ts, i + 2, 0, 0) {
                        Some(end) => if i + 2 < end <= ts.len() {
                            Some(
                                (
                                    EntryView {
                                        key,
                                        value: EntryValueView::Assigned(ts.subrange(i + 2, end)),
                                        at: i as usize,
                                    },
                                    end,
                                ),
                            )
                        } else {
                            None
                        },
                        None => None,
                    }
                } else if ts[i + 1] == TokenView::Open(Delimiter::Parenthesis) {
                    match group_close(ts, i + 2, 0) {
                        Some(close) => if i + 2 <= close < ts.len() && ts[close]
                            == TokenView::Close(Delimiter::Parenthesis) {
                            Some(
                                (
                                    EntryView {
                                        key,
                                        value: EntryValueView::Block(ts.subrange(i + 2, close)),
                                        at: i as usize,
                                    },
                                    close + 1,
                                ),
                            )
                        } else {
                            None
                        },
                        None => None,
                    }
                } else {
                    None
                }
            },
            _ => None,
        }
    }
}

/// The entries of the list `entry (',' entry)* ','?` that starts at `i`, in
/// source order. `None` when the tokens from `i` on are no such list.
pub open spec fn entries_from(ts: Seq<TokenView>, i: int) -> Option<Seq<EntryView>>
    decreases ts.len() - i,
{
    if i < 0 {
        None
    } else if i >= ts.len() {
        Some(Seq::empty())
    } else {
        match entry_at(ts, i) {
            None => None,
            Some((entry, next)) => if next >= ts.len() {
                Some(seq![entry])
            } else if next > i && is_punct(ts[next], ',') {
                match entries_from(ts, next + 1) {
                    Some(rest) => Some(seq![entry] + rest),
                    None => None,
                }
            } else {
                None
            },
        }
    }
}

/// The entries of a whole argument list.
pub open spec fn entries_of(ts: Seq<TokenView>) -> Option<Seq<EntryView>> {
    entries_from(ts, 0)
}

/// The index of the token at which the tokens from `i` on stop being a list
/// of entries: that at which an entry should start and none does, or that
/// behind an entry which is no comma. `None` when they are a list.
pub open spec fn break_from(ts: Seq<TokenView>, i: int) -> Option<usize>
    decreases ts.len() - i,
{
    if i < 0 || i >= ts.len() {
        None
    } else {
        match entry_at(ts, i) {
            None => Some(i as usize),
            Some((_, next)) => if next >= ts.len() {
                None
            } else if next > i && is_punct(ts[next], ',') {
                break_from(ts, next + 1)
            } else {
                Some(next as usize)
            },
        }
    }
}

/// The index of the token at which a whole argument list stops being a list
/// of entries.
pub open spec fn list_break(ts: Seq<TokenView>) -> Option<usize> {
    break_from(ts, 0)
}

/// What comes of reading an argument list: its entries, or `MalformedConfig`
/// at the token at which it stops being a list of entries.
pub open spec fn entries_outcome(ts: Seq<TokenView>) -> Result<Seq<EntryView>, ConfigFault> {
    match entries_of(ts) {
        Some(entries) => Ok(entries),
        None => Err(ConfigFault { error: ConfigError::MalformedConfig, at: list_break(ts) }),
    }
}

/// Tokens that are no list of entries stop being one at a token, and tokens
/// that are one stop nowhere: a break is named exactly where there are no
/// entries, and it is the index of a token from `i` on.
pub proof fn lemma_break_from(ts: Seq<TokenView>, i: int)
    requires
        0 <= i,
        ts.len() <= usize::MAX,
    ensures
        entries_from(ts, i) is None <==> break_from(ts, i) is Some,
        break_from(ts, i) is Some ==> i <= break_from(ts, i)->Some_0 < ts.len(),
    decreases ts.len() - i,
{
    if i < ts.len() {
        match entry_at(ts, i) {
            None => {},
            Some((_, next)) => {
                if next < ts.len() && next > i && is_punct(ts[next], ',') {
                    lemma_break_from(ts, next + 1);
                }
            },
        }
    }
}

/// Finds the closing bracket of the group whose inside starts at `start`.
pub fn find_group_close(tokens: &Vec<Token>, start: usize) -> (res: Option<usize>)
    ensures
        match res {
            Some(close) => group_close(tokens.deep_view(), start as int, 0) == Some(close as int),
            None => group_close(tokens.deep_view(), start as int, 0) is None,
        },
{
    let mut i: usize = start;
    let mut depth: usize = 0;
    while i < tokens.len()
        invariant
            start <= i,
            i <= tokens.len() ==> depth <= i - start,
            group_close(tokens.deep_view(), start as int, 0) == group_close(
                tokens.deep_view(),
                i as int,
                depth as nat,
            ),
        decreases tokens.len() - i,
    {
        match &tokens[i] {
            Token::Open(_) => {
                depth += 1;
            },
            Token::Close(_) => {
                if depth == 0 {
                    return Some(i);
                }
                depth -= 1;
            },
            _ => {},
        }
        i += 1;
    }
    None
}

/// Finds where the value that starts at `start` ends.
pub fn find_value_end(tokens: &Vec<Token>, start: usize) -> (res: Option<usize>)
    ensures
        match res {
            Some(end) => value_end(tokens.deep_view(), start as int, 0, 0) == Some(end as int),
            None => value_end(tokens.deep_view(), start as int, 0, 0) is None,
        },
{
    let mut i: usize = start;
    let mut groups: usize = 0;
    let mut angles: usize = 0;
    while i < tokens.len()
        invariant
            start <= i,
            i <= tokens.len() ==> groups + angles <= i - start,
            value_end(tokens.deep_view(), start as int, 0, 0) == value_end(
                tokens.deep_view(),
                i as int,
                groups as nat,
                angles as nat,
            ),
        decreases tokens.len() - i,
    {
        match &tokens[i] {
            Token::Open(_) => {
                groups += 1;
            },
            Token::Close(_) => {
                if groups == 0 {
                    return None;
                }
                groups -= 1;
            },
            Token::Punct(c, _) => {
                if groups == 0 {
                    if *c == ',' && angles == 0 {
                        return Some(i);
                    } else if *c == '<' {
                        angles += 1;
                    } else if *c == '>' && angles > 0 {
                        let arrow = i > 0 && match &tokens[i - 1] {
                            Token::Punct(p, Spacing::Joint) => *p == '-',
                            _ => false,
                        };
                        if !arrow {
                            angles -= 1;
                        }
                    }
                }
            },
            _ => {},
        }
        i += 1;
    }
    if groups == 0 {
        Some(tokens.len())
    } else {
        None
    }
}

/// Reads the entry that starts at `i`.
pub fn read_entry(tokens: &Vec<Token>, i: usize) -> (res: Option<(Entry, usize)>)
    ensures
        match res {
            Some((entry, next)) => {
                &&& entry_at(tokens.deep_view(), i as int) == Some((entry@, next as int))
                &&& i < next <= tokens.len()
            },
            None => entry_at(tokens.deep_view(), i as int) is None,
        },
{
    if i >= tokens.len() {
        return None;
    }
    let ghost ts = tokens.deep_view();
    match &tokens[i] {
        Token::Ident(word) => {
            let key = word.clone();
            if i + 1 >= tokens.len() || tokens[i + 1].is_punct(',') {
                Some((Entry { key, value: EntryValue::Flag, at: i }, i + 1))
            } else if tokens[i + 1].is_punct('=') {
                match find_value_end(tokens, i + 2) {
                    Some(end) => {
                        if i + 2 < end && end <= tokens.len() {
                            let value = EntryValue::Assigned(copy_range(tokens, i + 2, end));
                            Some((Entry { key, value, at: i }, end))
                        } else {
                            None
                        }
                    },
                    None => None,
                }
            } else if tokens[i + 1].is_open(Delimiter::Parenthesis) {
                match find_group_close(tokens, i + 2) {
                    Some(close) => {
                        if i + 2 <= close && close < tokens.len() && tokens[close].is_close(
                            Delimiter::Parenthesis,
                        ) {
                            let value = EntryValue::Block(copy_range(tokens, i + 2, close));
                            Some((Entry { key, value, at: i }, close + 1))
                        } else {
                            None
                        }
                    },
                    None => None,
                }
            } else {
                None
            }
        },
        _ => None,
    }
}

/// Reads an argument list: `entry (',' entry)* ','?`, where an entry is
/// `key`, `key = value` or `key(tokens)`. The entries come out in source
/// order. Fails with `MalformedConfig` when the tokens are no such list, and
/// names the token at which they stop being one.
pub fn parse_entries(tokens: &Vec<Token>) -> (res: Result<Vec<Entry>, ConfigFault>)
    ensures
        yields(res, entries_outcome(tokens.deep_view())),
{
    let ghost ts = tokens.deep_view();
    let mut entries: Vec<Entry> = Vec::new();
    let mut i: usize = 0;
    while i < tokens.len()
        invariant
            i <= tokens.len(),
            ts == tokens.deep_view(),
            entries_of(ts) == match entries_from(ts, i as int) {
                Some(rest) => Some(entries.deep_view() + rest),
                None => None,
            },
            list_break(ts) == break_from(ts, i as int),
        decreases tokens.len() - i,
    {
        let ghost done = entries.deep_view();
        match read_entry(tokens, i) {
            None => {
                return Err(ConfigFault { error: ConfigError::MalformedConfig, at: Some(i) });
            },
            Some((entry, next)) => {
                let ghost e = entry@;
                entries.push(entry);
                assert(entries.deep_view() =~= done.push(e));
                if next < tokens.len() {
                    if !tokens[next].is_punct(',') {
                        return Err(
                            ConfigFault { error: ConfigError::MalformedConfig, at: Some(next) },
                        );
                    }
                    proof {
                        match entries_from(ts, next + 1) {
                            Some(rest) => {
                                assert(done + (seq![e] + rest) =~= done.push(e) + rest);
                            },
                            None => {},
                        }
                    }
                    i = next + 1;
                } else {
                    assert(done + seq![e] =~= done.push(e) + Seq::<EntryView>::empty());
                    i = next;
                }
            },
        }
    }
    assert(entries.deep_view() + Seq::<EntryView>::empty() =~= entries.deep_view());
    Ok(entries)
}

/// The index of the first entry from `i` on whose key is `key`.
pub open spec fn first_index_from(es: Seq<EntryView>, key: Seq<char>, i: int) -> Option<int>
    decreases es.len() - i,
{
    if i < 0 || i >= es.len() {
        None
    } else if es[i].key == key {
        Some(i)
    } else {
        first_index_from(es, key, i + 1)
    }
}

/// The index of the first entry whose key is `key`.
pub open spec fn first_index(es: Seq<EntryView>, key: Seq<char>) -> Option<int> {
    first_index_from(es, key, 0)
}

/// The value of the first entry whose key is `key`.
pub open spec fn lookup(es: Seq<EntryView>, key: Seq<char>) -> Option<EntryValueView> {
    match first_index(es, key) {
        Some(i) => Some(es[i].value),
        None => None,
    }
}

/// `first_index_from` finds an entry with the key, and none stands between
/// `i` and it; it finds none only where there is none.
pub proof fn lemma_first_index_from(es: Seq<EntryView>, key: Seq<char>, i: int)
    requires
        0 <= i,
    ensures
        match first_index_from(es, key, i) {
            Some(p) => {
                &&& i <= p < es.len()
                &&& es[p].key == key
                &&& forall|j: int| i <= j < p ==> es[j].key != key
            },
            None => forall|j: int| i <= j < es.len() ==> es[j].key != key,
        },
    decreases es.len() - i,
{
    if i < es.len() && es[i].key != key {
        lemma_first_index_from(es, key, i + 1);
    }
}

/// Looks an entry up by its key: the index of the first entry with that key.
pub fn find_entry(entries: &Vec<Entry>, key: &str) -> (res: Option<usize>)
    ensures
        match res {
            Some(i) => first_index(entries.deep_view(), key@) == Some(i as int) && i
                < entries.len(),
            None => first_index(entries.deep_view(), key@) is None,
        },
{
    let ghost es = entries.deep_view();
    let mut i: usize = 0;
    while i < entries.len()
        invariant
            i <= entries.len(),
            es == entries.deep_view(),
            first_index(es, key@) == first_index_from(es, key@, i as int),
        decreases entries.len() - i,
    {
        if text_eq(&entries[i].key, key) {
            return Some(i);
        }
        i += 1;
    }
    None
}

} // verus!
