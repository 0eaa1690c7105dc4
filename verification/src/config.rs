//! The meaning of configuration entries: which keys each scope knows, what
//! shape the value of each key has, and which fault an argument list has, if
//! any.
//!
//! The entries of a list are judged in source order, and the first fault
//! found is the list's fault. An entry with a key that the scope does not know
//! is an `UnknownConfigKey`; one that repeats the key of an earlier entry is a
//! `DuplicateConfigKey`; one whose value has not the shape of its key, or
//! which the host language does not take for the identifier, the visibility,
//! the type or the run of annotations that its key asks for, is a
//! `MalformedConfig`.
//!
//! What the host language says is not known here. Its verdicts enter as a
//! list of truth values, one for each entry, and every statement in this
//! module holds for every such list.

use crate::attr_args::{
    find_entry, find_group_close, first_index, group_close, lookup, Entry, EntryValue,
    EntryValueView, EntryView,
};
use crate::error::{ConfigError, ConfigFault};
use crate::schema::Attribute;
use crate::attr_args::entries_of;
use crate::syntax::{
    parses_as_annotation_block, parses_as_identifier, parses_as_type, parses_as_visibility,
};
use crate::token::{
    clone_tokens, copy_range, is_punct, is_word, render, text_eq, Delimiter, Token, TokenView,
};
use vstd::prelude::*;

verus! {

/// Where a configuration stands.
#[derive(Clone, Copy, Debug, PartialEq, Eq, Structural)]
pub enum Scope {
    /// On the enum: `variants_data_struct(...)`.
    TopLevel,
    /// On a variant: `variants_data_struct_field(...)`.
    Variant,
}

/// The shape of the value of a key.
#[derive(Clone, Copy, Debug, PartialEq, Eq, Structural)]
pub enum ValueKind {
    /// `key = name`: one identifier.
    Ident,
    /// `key = pub(crate)`: a visibility.
    Visibility,
    /// `key = Vec<u8>`: a type.
    Type,
    /// `key = true` or `key = false`.
    Bool,
    /// `key(#[a] #[b])`: a run of annotations.
    Annotations,
}

/// The keys of each scope, with the shape of their values. `None` for a key
/// that the scope does not know.
pub open spec fn kind_of(scope: Scope, key: Seq<char>) -> Option<ValueKind> {
    match scope {
        Scope::TopLevel => {
            if key == "vis"@ {
                Some(ValueKind::Visibility)
            } else if key == "name"@ {
                Some(ValueKind::Ident)
            } else if key == "attrs"@ {
                Some(ValueKind::Annotations)
            } else if key == "variants_tys_attrs"@ {
                Some(ValueKind::Annotations)
            } else {
                None
            }
        },
        Scope::Variant => {
            if key == "field_attrs"@ {
                Some(ValueKind::Annotations)
            } else if key == "field_vis"@ {
                Some(ValueKind::Visibility)
            } else if key == "field_name"@ {
                Some(ValueKind::Ident)
            } else if key == "field_ty_override"@ {
                Some(ValueKind::Type)
            } else if key == "gen_variant_ty"@ {
                Some(ValueKind::Bool)
            } else if key == "variant_ty_attrs"@ {
                Some(ValueKind::Annotations)
            } else if key == "variant_ty_vis"@ {
                Some(ValueKind::Visibility)
            } else if key == "variant_ty_name"@ {
                Some(ValueKind::Ident)
            } else {
                None
            }
        },
    }
}

/// Looks a key up in the table of its scope.
pub fn key_kind(scope: Scope, key: &String) -> (res: Option<ValueKind>)
    ensures
        res == kind_of(scope, key@),
{
    match scope {
        Scope::TopLevel => {
            if text_eq(key, "vis") {
                Some(ValueKind::Visibility)
            } else if text_eq(key, "name") {
                Some(ValueKind::Ident)
            } else if text_eq(key, "attrs") {
                Some(ValueKind::Annotations)
            } else if text_eq(key, "variants_tys_attrs") {
                Some(ValueKind::Annotations)
            } else {
                None
            }
        },
        Scope::Variant => {
            if text_eq(key, "field_attrs") {
                Some(ValueKind::Annotations)
            } else if text_eq(key, "field_vis") {
                Some(ValueKind::Visibility)
            } else if text_eq(key, "field_name") {
                Some(ValueKind::Ident)
            } else if text_eq(key, "field_ty_override") {
                Some(ValueKind::Type)
            } else if text_eq(key, "gen_variant_ty") {
                Some(ValueKind::Bool)
            } else if text_eq(key, "variant_ty_attrs") {
                Some(ValueKind::Annotations)
            } else if text_eq(key, "variant_ty_vis") {
                Some(ValueKind::Visibility)
            } else if text_eq(key, "variant_ty_name") {
                Some(ValueKind::Ident)
            } else {
                None
            }
        },
    }
}

/// The annotations of the run `(# [ tokens ])*` that starts at `i`, each as
/// the tokens between its brackets. `None` when the tokens from `i` on are no
/// such run.
pub open spec fn annotations_from(ts: Seq<TokenView>, i: int) -> Option<Seq<Seq<TokenView>>>
    decreases ts.len() - i,
{
    if i < 0 {
        None
    } else if i >= ts.len() {
        Some(Seq::empty())
    } else if is_punct(ts[i], '#') && i + 1 < ts.len() && ts[i + 1] == TokenView::Open(
        Delimiter::Bracket,
    ) {
        match group_close(ts, i + 2, 0) {
            Some(close) => if i + 2 <= close < ts.len() && ts[close] == TokenView::Close(
                Delimiter::Bracket,
            ) {
                match annotations_from(ts, close + 1) {
                    Some(rest) => Some(seq![ts.subrange(i + 2, close)] + rest),
                    None => None,
                }
            } else {
                None
            },
            None => None,
        }
    } else {
        None
    }
}

/// The identifier that a value is: `key = word`.
pub open spec fn ident_of(value: EntryValueView) -> Option<Seq<char>> {
    match value {
        EntryValueView::Assigned(ts) => if ts.len() == 1 {
            match ts[0] {
                TokenView::Ident(word) => Some(word),
                _ => None,
            }
        } else {
            None
        },
        _ => None,
    }
}

/// The truth value that a value is: `key = true` or `key = false`.
pub open spec fn bool_of(value: EntryValueView) -> Option<bool> {
    match value {
        EntryValueView::Assigned(ts) => if ts.len() == 1 {
            if is_word(ts[0], "true"@) {
                Some(true)
            } else if is_word(ts[0], "false"@) {
                Some(false)
            } else {
                None
            }
        } else {
            None
        },
        _ => None,
    }
}

/// The tokens of an assigned value: `key = tokens`.
pub open spec fn tokens_of(value: EntryValueView) -> Option<Seq<TokenView>> {
    match value {
        EntryValueView::Assigned(ts) => Some(ts),
        _ => None,
    }
}

/// The annotations that a value holds: `key(#[a] #[b])`.
pub open spec fn annotations_of(value: EntryValueView) -> Option<Seq<Seq<TokenView>>> {
    match value {
        EntryValueView::Block(ts) => annotations_from(ts, 0),
        _ => None,
    }
}

/// Whether a value has the shape that its key asks for, as far as the tokens
/// show it.
pub open spec fn well_shaped(kind: ValueKind, value: EntryValueView) -> bool {
    match kind {
        ValueKind::Ident => ident_of(value) is Some,
        ValueKind::Visibility => tokens_of(value) is Some,
        ValueKind::Type => tokens_of(value) is Some,
        ValueKind::Bool => bool_of(value) is Some,
        ValueKind::Annotations => annotations_of(value) is Some,
    }
}

/// Whether the host language is asked about a value: about an identifier, a
/// visibility, a type and a run of annotations, each where the value has the
/// form of one.
pub open spec fn host_is_asked(kind: ValueKind, value: EntryValueView) -> bool {
    match kind {
        ValueKind::Ident => ident_of(value) is Some,
        ValueKind::Visibility => value is Assigned,
        ValueKind::Type => value is Assigned,
        ValueKind::Bool => false,
        ValueKind::Annotations => value is Block,
    }
}

/// Whether the host language is asked about an entry: about its value, where
/// the scope knows its key.
pub open spec fn entry_is_judged(scope: Scope, entry: EntryView) -> bool {
    match kind_of(scope, entry.key) {
        Some(kind) => host_is_asked(kind, entry.value),
        None => false,
    }
}

/// Whether `verdicts` can be the host language's verdicts on the entries: one
/// for each entry, and an entry about which the host language is not asked
/// is accepted.
pub open spec fn verdicts_fit(scope: Scope, es: Seq<EntryView>, verdicts: Seq<bool>) -> bool {
    &&& verdicts.len() == es.len()
    &&& forall|i: int|
        0 <= i < es.len() && !entry_is_judged(scope, #[trigger] es[i]) ==> verdicts[i]
}

/// Whether `verdicts` can be the host language's verdicts on an argument
/// list. Of tokens that are no list of entries nothing is asked.
pub open spec fn list_verdicts_fit(scope: Scope, ts: Seq<TokenView>, verdicts: Seq<bool>) -> bool {
    match entries_of(ts) {
        Some(es) => verdicts_fit(scope, es, verdicts),
        None => true,
    }
}

/// The name of the configuration annotation of each scope.
pub open spec fn config_name(scope: Scope) -> Seq<char> {
    match scope {
        Scope::TopLevel => "variants_data_struct"@,
        Scope::Variant => "variants_data_struct_field"@,
    }
}

/// Whether `verdicts` can be the host language's verdicts on the
/// configuration that stands among the annotations `attrs`. Where there is no
/// configuration annotation, or it has no argument list, nothing is asked.
pub open spec fn attrs_verdicts_fit(
    scope: Scope,
    attrs: Seq<Seq<TokenView>>,
    verdicts: Seq<bool>,
) -> bool {
    match config_index_from(attrs, config_name(scope), 0) {
        Some(i) => match config_args(attrs[i]) {
            Some(args) => list_verdicts_fit(scope, args, verdicts),
            None => true,
        },
        None => true,
    }
}

/// The verdicts that accept every entry of the configuration that stands
/// among the annotations `attrs`.
pub open spec fn accepting_verdicts(scope: Scope, attrs: Seq<Seq<TokenView>>) -> Seq<bool> {
    match config_index_from(attrs, config_name(scope), 0) {
        Some(i) => match config_args(attrs[i]) {
            Some(args) => match entries_of(args) {
                Some(es) => Seq::new(es.len(), |k: int| true),
                None => Seq::empty(),
            },
            None => Seq::empty(),
        },
        None => Seq::empty(),
    }
}

/// The verdicts that accept every entry can be the host language's.
pub proof fn lemma_accepting_verdicts_fit(scope: Scope, attrs: Seq<Seq<TokenView>>)
    ensures
        attrs_verdicts_fit(scope, attrs, accepting_verdicts(scope, attrs)),
{
}

/// The verdict on the entry at `i`. An entry on which none is given counts as
/// accepted.
pub open spec fn verdict_at(verdicts: Seq<bool>, i: int) -> bool {
    0 <= i < verdicts.len() ==> verdicts[i]
}

/// The fault of the entry at `i`, given the host language's verdict on each
/// entry.
pub open spec fn entry_fault(scope: Scope, es: Seq<EntryView>, verdicts: Seq<bool>, i: int)
    -> Option<ConfigError> {
    match kind_of(scope, es[i].key) {
        None => Some(ConfigError::UnknownConfigKey),
        Some(kind) => if first_index(es, es[i].key) != Some(i) {
            Some(ConfigError::DuplicateConfigKey)
        } else if !(well_shaped(kind, es[i].value) && verdict_at(verdicts, i)) {
            Some(ConfigError::MalformedConfig)
        } else {
            None
        },
    }
}

/// The fault of the first faulty entry from `i` on, at the key of that entry.
pub open spec fn first_fault_from(scope: Scope, es: Seq<EntryView>, verdicts: Seq<bool>, i: int)
    -> Option<ConfigFault>
    decreases es.len() - i,
{
    if i < 0 || i >= es.len() {
        None
    } else {
        match entry_fault(scope, es, verdicts, i) {
            Some(fault) => Some(ConfigFault { error: fault, at: Some(es[i].at) }),
            None => first_fault_from(scope, es, verdicts, i + 1),
        }
    }
}

/// The fault of a list of entries: that of its first faulty entry, at the key
/// of that entry.
pub open spec fn first_fault(scope: Scope, es: Seq<EntryView>, verdicts: Seq<bool>) -> Option<
    ConfigFault,
> {
    first_fault_from(scope, es, verdicts, 0)
}

/// Splits a run of annotations `#[a] #[b]` into its annotations.
pub fn split_annotations(tokens: &Vec<Token>) -> (res: Option<Vec<Attribute>>)
    ensures
        res.deep_view() == annotations_from(tokens.deep_view(), 0),
{
    let ghost ts = tokens.deep_view();
    let mut attrs: Vec<Attribute> = Vec::new();
    let mut i: usize = 0;
    while i < tokens.len()
        invariant
            i <= tokens.len(),
            ts == tokens.deep_view(),
            annotations_from(ts, 0) == match annotations_from(ts, i as int) {
                Some(rest) => Some(attrs.deep_view() + rest),
                None => None,
            },
        decreases tokens.len() - i,
    {
        if !(tokens[i].is_punct('#') && i + 1 < tokens.len() && tokens[i + 1].is_open(
            Delimiter::Bracket,
        )) {
            return None;
        }
        match find_group_close(tokens, i + 2) {
            None => {
                return None;
            },
            Some(close) => {
                if !(i + 2 <= close && close < tokens.len() && tokens[close].is_close(
                    Delimiter::Bracket,
                )) {
                    return None;
                }
                let ghost done = attrs.deep_view();
                let attr = Attribute { tokens: copy_range(tokens, i + 2, close) };
                let ghost a = attr.deep_view();
                attrs.push(attr);
                proof {
                    assert(attrs.deep_view() =~= done.push(a));
                    match annotations_from(ts, close + 1) {
                        Some(rest) => {
                            assert(done + (seq![a] + rest) =~= done.push(a) + rest);
                        },
                        None => {},
                    }
                }
                i = close + 1;
            },
        }
    }
    assert(attrs.deep_view() + Seq::<Seq<TokenView>>::empty() =~= attrs.deep_view());
    Some(attrs)
}

/// The identifier of `key = word`.
pub fn value_ident(value: &EntryValue) -> (res: Option<String>)
    ensures
        res.deep_view() == ident_of(value@),
{
    match value {
        EntryValue::Assigned(ts) => {
            if ts.len() == 1 {
                match &ts[0] {
                    Token::Ident(word) => Some(word.clone()),
                    _ => None,
                }
            } else {
                None
            }
        },
        _ => None,
    }
}

/// The truth value of `key = true` or `key = false`.
pub fn value_bool(value: &EntryValue) -> (res: Option<bool>)
    ensures
        res == bool_of(value@),
{
    match value {
        EntryValue::Assigned(ts) => {
            if ts.len() == 1 {
                if ts[0].is_word("true") {
                    Some(true)
                } else if ts[0].is_word("false") {
                    Some(false)
                } else {
                    None
                }
            } else {
                None
            }
        },
        _ => None,
    }
}

/// The tokens of `key = tokens`.
pub fn value_tokens(value: &EntryValue) -> (res: Option<Vec<Token>>)
    ensures
        res.deep_view() == tokens_of(value@),
{
    match value {
        EntryValue::Assigned(ts) => Some(clone_tokens(ts)),
        _ => None,
    }
}

/// The annotations of `key(#[a] #[b])`.
pub fn value_annotations(value: &EntryValue) -> (res: Option<Vec<Attribute>>)
    ensures
        res.deep_view() == annotations_of(value@),
{
    match value {
        EntryValue::Block(ts) => split_annotations(ts),
        _ => None,
    }
}

/// Whether a value has the shape that its key asks for.
pub fn is_well_shaped(kind: ValueKind, value: &EntryValue) -> (res: bool)
    ensures
        res == well_shaped(kind, value@),
{
    match kind {
        ValueKind::Ident => value_ident(value).is_some(),
        ValueKind::Visibility => value_tokens(value).is_some(),
        ValueKind::Type => value_tokens(value).is_some(),
        ValueKind::Bool => value_bool(value).is_some(),
        ValueKind::Annotations => value_annotations(value).is_some(),
    }
}

/// Asks the host language whether it takes a value for what its key asks for:
/// an identifier by its text, a visibility, a type and a run of annotations by
/// the source text of their tokens. A value about which the host language is
/// not asked is accepted.
pub fn check_value(kind: ValueKind, value: &EntryValue) -> (ok: bool)
    ensures
        !host_is_asked(kind, value@) ==> ok,
{
    match kind {
        ValueKind::Ident => match value_ident(value) {
            Some(word) => parses_as_identifier(word.as_str()),
            None => true,
        },
        ValueKind::Visibility => match value {
            EntryValue::Assigned(ts) => {
                let text = render(ts);
                parses_as_visibility(text.as_str())
            },
            _ => true,
        },
        ValueKind::Type => match value {
            EntryValue::Assigned(ts) => {
                let text = render(ts);
                parses_as_type(text.as_str())
            },
            _ => true,
        },
        ValueKind::Bool => true,
        ValueKind::Annotations => match value {
            EntryValue::Block(ts) => {
                let text = render(ts);
                parses_as_annotation_block(text.as_str())
            },
            _ => true,
        },
    }
}

/// Asks the host language for its verdict on each entry of a list. There is
/// one verdict for each entry, and an entry about which the host language is
/// not asked is accepted.
pub fn check_entries(scope: Scope, entries: &Vec<Entry>) -> (verdicts: Vec<bool>)
    ensures
        verdicts_fit(scope, entries.deep_view(), verdicts@),
{
    let mut verdicts: Vec<bool> = Vec::new();
    let mut i: usize = 0;
    while i < entries.len()
        invariant
            i <= entries.len(),
            verdicts@.len() == i,
            forall|j: int|
                0 <= j < i && !entry_is_judged(scope, #[trigger] entries.deep_view()[j])
                    ==> verdicts@[j],
        decreases entries.len() - i,
    {
        let verdict = match key_kind(scope, &entries[i].key) {
            Some(kind) => check_value(kind, &entries[i].value),
            None => true,
        };
        verdicts.push(verdict);
        i += 1;
    }
    verdicts
}

/// Finds the fault of a list of entries, given the host language's verdict on
/// each: the fault of the first faulty entry, at the key of that entry, or
/// none.
pub fn validate(scope: Scope, entries: &Vec<Entry>, verdicts: &Vec<bool>) -> (res: Result<
    (),
    ConfigFault,
>)
    ensures
        match first_fault(scope, entries.deep_view(), verdicts@) {
            Some(fault) => res == Err::<(), ConfigFault>(fault),
            None => res is Ok,
        },
{
    let ghost es = entries.deep_view();
    let mut i: usize = 0;
    while i < entries.len()
        invariant
            i <= entries.len(),
            es == entries.deep_view(),
            first_fault(scope, es, verdicts@) == first_fault_from(scope, es, verdicts@, i as int),
        decreases entries.len() - i,
    {
        match key_kind(scope, &entries[i].key) {
            None => {
                return Err(
                    ConfigFault { error: ConfigError::UnknownConfigKey, at: Some(entries[i].at) },
                );
            },
            Some(kind) => {
                let first = find_entry(entries, entries[i].key.as_str());
                let repeated = match first {
                    Some(f) => f != i,
                    None => true,
                };
                if repeated {
                    return Err(
                        ConfigFault {
                            error: ConfigError::DuplicateConfigKey,
                            at: Some(entries[i].at),
                        },
                    );
                }
                let accepted = i >= verdicts.len() || verdicts[i];
                if !(is_well_shaped(kind, &entries[i].value) && accepted) {
                    return Err(
                        ConfigFault { error: ConfigError::MalformedConfig, at: Some(entries[i].at) },
                    );
                }
            },
        }
        i += 1;
    }
    Ok(())
}

/// The identifier that a list gives for `key`, if it gives one.
pub open spec fn ident_for(es: Seq<EntryView>, key: Seq<char>) -> Option<Seq<char>> {
    match lookup(es, key) {
        Some(value) => ident_of(value),
        None => None,
    }
}

/// The truth value that a list gives for `key`, if it gives one.
pub open spec fn bool_for(es: Seq<EntryView>, key: Seq<char>) -> Option<bool> {
    match lookup(es, key) {
        Some(value) => bool_of(value),
        None => None,
    }
}

/// The tokens that a list assigns to `key`, if it assigns any.
pub open spec fn tokens_for(es: Seq<EntryView>, key: Seq<char>) -> Option<Seq<TokenView>> {
    match lookup(es, key) {
        Some(value) => tokens_of(value),
        None => None,
    }
}

/// The annotations that a list gives for `key`; none where it gives none.
pub open spec fn annotations_for(es: Seq<EntryView>, key: Seq<char>) -> Seq<Seq<TokenView>> {
    match lookup(es, key) {
        Some(value) => match annotations_of(value) {
            Some(attrs) => attrs,
            None => Seq::empty(),
        },
        None => Seq::empty(),
    }
}

/// The identifier that the entries give for `key`.
pub fn entry_ident(entries: &Vec<Entry>, key: &str) -> (res: Option<String>)
    ensures
        res.deep_view() == ident_for(entries.deep_view(), key@),
{
    match find_entry(entries, key) {
        Some(i) => value_ident(&entries[i].value),
        None => None,
    }
}

/// The truth value that the entries give for `key`.
pub fn entry_bool(entries: &Vec<Entry>, key: &str) -> (res: Option<bool>)
    ensures
        res == bool_for(entries.deep_view(), key@),
{
    match find_entry(entries, key) {
        Some(i) => value_bool(&entries[i].value),
        None => None,
    }
}

/// The tokens that the entries assign to `key`.
pub fn entry_tokens(entries: &Vec<Entry>, key: &str) -> (res: Option<Vec<Token>>)
    ensures
        res.deep_view() == tokens_for(entries.deep_view(), key@),
{
    match find_entry(entries, key) {
        Some(i) => value_tokens(&entries[i].value),
        None => None,
    }
}

/// The annotations that the entries give for `key`.
pub fn entry_annotations(entries: &Vec<Entry>, key: &str) -> (res: Vec<Attribute>)
    ensures
        res.deep_view() == annotations_for(entries.deep_view(), key@),
{
    let found = match find_entry(entries, key) {
        Some(i) => value_annotations(&entries[i].value),
        None => None,
    };
    match found {
        Some(attrs) => attrs,
        None => {
            let attrs: Vec<Attribute> = Vec::new();
            assert(attrs.deep_view() =~= Seq::<Seq<TokenView>>::empty());
            attrs
        },
    }
}

/// Whether an annotation is the configuration annotation `name`: its path is
/// the single word `name`.
pub open spec fn names_config(attr: Seq<TokenView>, name: Seq<char>) -> bool {
    &&& attr.len() >= 1
    &&& is_word(attr[0], name)
    &&& !(attr.len() >= 2 && is_punct(attr[1], ':'))
}

/// The index of the first annotation from `i` on that is the configuration
/// annotation `name`.
pub open spec fn config_index_from(attrs: Seq<Seq<TokenView>>, name: Seq<char>, i: int) -> Option<
    int,
>
    decreases attrs.len() - i,
{
    if i < 0 || i >= attrs.len() {
        None
    } else if names_config(attrs[i], name) {
        Some(i)
    } else {
        config_index_from(attrs, name, i + 1)
    }
}

/// The argument list of a configuration annotation `name(args)`: the tokens
/// inside the one group that follows the name and ends the annotation. `None`
/// for `name` alone, `name = value` and anything else.
pub open spec fn config_args(attr: Seq<TokenView>) -> Option<Seq<TokenView>> {
    if attr.len() >= 3 && group_close(attr, 2, 0) == Some(attr.len() - 1) {
        match attr[1] {
            TokenView::Open(d) => if attr[attr.len() - 1] == TokenView::Close(d) {
                Some(attr.subrange(2, attr.len() - 1))
            } else {
                None
            },
            _ => None,
        }
    } else {
        None
    }
}

/// Finds the first annotation that is the configuration annotation `name`.
pub fn find_config(attrs: &Vec<Attribute>, name: &str) -> (res: Option<usize>)
    ensures
        match res {
            Some(i) => config_index_from(attrs.deep_view(), name@, 0) == Some(i as int) && i
                < attrs.len(),
            None => config_index_from(attrs.deep_view(), name@, 0) is None,
        },
{
    let ghost views = attrs.deep_view();
    let mut i: usize = 0;
    while i < attrs.len()
        invariant
            i <= attrs.len(),
            views == attrs.deep_view(),
            config_index_from(views, name@, 0) == config_index_from(views, name@, i as int),
        decreases attrs.len() - i,
    {
        let tokens = &attrs[i].tokens;
        assert(views[i as int] == tokens.deep_view());
        if tokens.len() >= 1 && tokens[0].is_word(name) && !(tokens.len() >= 2
            && tokens[1].is_punct(':')) {
            return Some(i);
        }
        i += 1;
    }
    None
}

/// Takes the argument list out of a configuration annotation.
pub fn annotation_args(attr: &Attribute) -> (res: Option<Vec<Token>>)
    ensures
        res.deep_view() == config_args(attr@),
{
    let tokens = &attr.tokens;
    let n = tokens.len();
    if n < 3 {
        return None;
    }
    match find_group_close(tokens, 2) {
        Some(close) => {
            if close != n - 1 {
                return None;
            }
            match &tokens[1] {
                Token::Open(d) => {
                    if tokens[n - 1].is_close(*d) {
                        Some(copy_range(tokens, 2, n - 1))
                    } else {
                        None
                    }
                },
                _ => None,
            }
        },
        None => None,
    }
}

} // verus!
