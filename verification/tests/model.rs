use std::str::FromStr;

use variants_data_struct::attr_args::{
    find_entry, find_group_close, find_value_end, parse_entries, read_entry, Entry, EntryValue,
};
use variants_data_struct::config::{
    annotation_args, check_entries, check_value, find_config, is_well_shaped, key_kind,
    split_annotations, validate, value_annotations, value_bool, value_ident, value_tokens, Scope,
    ValueKind,
};
use variants_data_struct::error::{ConfigError, ConfigFault, Fault, Site};
use variants_data_struct::schema::{
    clone_attrs, Attribute, Field, Fields, ItemStruct, Type, Variant, Visibility,
};
use variants_data_struct::token::{
    clone_tokens, copy_range, render, text_eq, Delimiter, Spacing, Token,
};
use variants_data_struct::variants_data_struct_attr_meta::VariantsDataStructAttrMeta;
use variants_data_struct::variants_data_struct_defs::{
    variants_data_struct_defs, variants_data_struct_field,
};
use variants_data_struct::variants_data_struct_field_attr_meta::VariantsDataStructFieldAttrMeta;
use variants_data_struct::variants_data_struct_field_meta::{
    VariantTy, VariantsDataStructFieldMeta,
};
use variants_data_struct::variants_data_struct_meta::VariantsDataStructMeta;

fn lex_into(stream: proc_macro2::TokenStream, out: &mut Vec<Token>) {
    for tree in stream {
        match tree {
            proc_macro2::TokenTree::Ident(ident) => out.push(Token::Ident(ident.to_string())),
            proc_macro2::TokenTree::Punct(punct) => {
                let spacing = match punct.spacing() {
                    proc_macro2::Spacing::Alone => Spacing::Alone,
                    proc_macro2::Spacing::Joint => Spacing::Joint,
                };
                out.push(Token::Punct(punct.as_char(), spacing));
            }
            proc_macro2::TokenTree::Literal(literal) => out.push(Token::Literal(literal.to_string())),
            proc_macro2::TokenTree::Group(group) => {
                let delimiter = match group.delimiter() {
                    proc_macro2::Delimiter::Parenthesis => Some(Delimiter::Parenthesis),
                    proc_macro2::Delimiter::Brace => Some(Delimiter::Brace),
                    proc_macro2::Delimiter::Bracket => Some(Delimiter::Bracket),
                    proc_macro2::Delimiter::None => None,
                };
                if let Some(d) = delimiter {
                    out.push(Token::Open(d));
                }
                lex_into(group.stream(), out);
                if let Some(d) = delimiter {
                    out.push(Token::Close(d));
                }
            }
        }
    }
}

fn lex(src: &str) -> Vec<Token> {
    let mut out = Vec::new();
    lex_into(proc_macro2::TokenStream::from_str(src).unwrap(), &mut out);
    out
}

fn word(text: &str) -> Token {
    Token::Ident(text.to_string())
}

fn alone(c: char) -> Token {
    Token::Punct(c, Spacing::Alone)
}

fn flag(key: &str, at: usize) -> Entry {
    Entry { key: key.to_string(), value: EntryValue::Flag, at }
}

fn assigned(key: &str, value: Vec<Token>, at: usize) -> Entry {
    Entry { key: key.to_string(), value: EntryValue::Assigned(value), at }
}

fn block(key: &str, value: Vec<Token>, at: usize) -> Entry {
    Entry { key: key.to_string(), value: EntryValue::Block(value), at }
}

fn config_fault(error: ConfigError, at: usize) -> ConfigFault {
    ConfigFault { error, at: Some(at) }
}

fn visibility(src: &str) -> Visibility {
    Visibility { tokens: lex(src) }
}

fn annotation(src: &str) -> Attribute {
    Attribute { tokens: lex(src) }
}

#[test]
fn render_writes_each_token_and_its_gap() {
    assert_eq!(render(&vec![]), "");
    assert_eq!(render(&lex("pub(crate)")), "pub ( crate ) ");
    assert_eq!(render(&lex("a::b<'c, [u8; 2]>")), "a :: b <'c , [ u8 ; 2 ] > ");
    assert_eq!(render(&lex("{ \"x\" }")), "{ \"x\" } ");
    assert_eq!(
        render(&vec![Token::Punct('-', Spacing::Joint), alone('>'), word("T")]),
        "-> T "
    );
}

#[test]
fn rendered_text_lexes_back_to_the_same_tokens() {
    for src in ["pub(in crate::a)", "Vec<Map<K, &'a [u8; 4]>>", "#[doc = \"hi\"] #[x(y)]", "fn(A) -> B"] {
        let tokens = lex(src);
        assert_eq!(lex(&render(&tokens)), tokens, "{src}");
    }
}

#[test]
fn token_predicates_tell_tokens_apart() {
    assert!(Token::Punct(',', Spacing::Joint).is_punct(','));
    assert!(!alone(';').is_punct(','));
    assert!(!word(",").is_punct(','));
    assert!(word("name").is_word("name"));
    assert!(!word("name").is_word("names"));
    assert!(!Token::Literal("name".to_string()).is_word("name"));
    assert!(Token::Open(Delimiter::Brace).is_open(Delimiter::Brace));
    assert!(!Token::Open(Delimiter::Brace).is_open(Delimiter::Bracket));
    assert!(!Token::Close(Delimiter::Brace).is_open(Delimiter::Brace));
    assert!(Token::Close(Delimiter::Parenthesis).is_close(Delimiter::Parenthesis));
    assert!(!Token::Open(Delimiter::Parenthesis).is_close(Delimiter::Parenthesis));
    assert_eq!(Delimiter::Parenthesis.open_char(), '(');
    assert_eq!(Delimiter::Brace.open_char(), '{');
    assert_eq!(Delimiter::Bracket.open_char(), '[');
    assert_eq!(Delimiter::Parenthesis.close_char(), ')');
    assert_eq!(Delimiter::Brace.close_char(), '}');
    assert_eq!(Delimiter::Bracket.close_char(), ']');
    assert!(text_eq(&"abc".to_string(), "abc"));
    assert!(!text_eq(&"abc".to_string(), "abd"));
    assert!(!text_eq(&"abc".to_string(), ""));
}

#[test]
fn tokens_are_copied_exactly() {
    let tokens = lex("a = (b, 'c', 1u8) -> d");
    assert_eq!(clone_tokens(&tokens), tokens);
    assert_eq!(tokens[3].clone(), tokens[3]);
    assert_eq!(copy_range(&tokens, 0, tokens.len()), tokens);
    assert_eq!(copy_range(&tokens, 2, 2), vec![]);
    assert_eq!(copy_range(&tokens, 3, 6), vec![word("b"), alone(','), Token::Literal("'c'".to_string())]);
    let attrs = vec![annotation("derive(Debug)"), annotation("doc = \"x\"")];
    assert_eq!(clone_attrs(&attrs), attrs);
    let field = Field {
        attrs: attrs.clone(),
        vis: visibility("pub"),
        ident: Some("f".to_string()),
        ty: lex("Vec<u8>"),
    };
    assert_eq!(field.clone(), field);
    let fields = Fields::Named(vec![field.clone()]);
    assert_eq!(fields.clone(), fields);
    assert_eq!(fields.len(), 1);
    assert_eq!(Fields::Unnamed(vec![field.clone(), field]).len(), 2);
    assert_eq!(Fields::Unit.len(), 0);
    assert_eq!(Fields::Unit.clone(), Fields::Unit);
}

#[test]
fn group_close_counts_nested_brackets() {
    let tokens = lex("a(b(c)[d]) e");
    assert_eq!(find_group_close(&tokens, 2), Some(9));
    assert_eq!(find_group_close(&tokens, 4), Some(5));
    assert_eq!(find_group_close(&tokens, 10), None);
    assert_eq!(find_group_close(&tokens, 99), None);
    let open = vec![word("a"), Token::Open(Delimiter::Parenthesis), word("b")];
    assert_eq!(find_group_close(&open, 2), None);
}

#[test]
fn value_ends_at_the_first_free_comma() {
    assert_eq!(find_value_end(&lex("a, b"), 0), Some(1));
    assert_eq!(find_value_end(&lex("a b"), 0), Some(2));
    assert_eq!(find_value_end(&lex("(a, b), c"), 0), Some(5));
    assert_eq!(find_value_end(&lex("Map<K, V>, c"), 0), Some(6));
    assert_eq!(find_value_end(&lex("Map<K, Vec<V>>, c"), 0), Some(9));
    assert_eq!(find_value_end(&lex("F<fn(A, B) -> C, D>, e"), 0), Some(14));
    assert_eq!(find_value_end(&lex("a > b, c"), 0), Some(3));
    assert_eq!(find_value_end(&lex("[u8; { 1 < 2 }], c"), 0), Some(9));
    assert_eq!(find_value_end(&lex("a < b, c"), 0), Some(5));
    assert_eq!(find_value_end(&lex(""), 0), Some(0));
    assert_eq!(find_value_end(&lex("a"), 7), Some(1));
    let closes = vec![word("a"), Token::Close(Delimiter::Parenthesis), alone(',')];
    assert_eq!(find_value_end(&closes, 0), None);
    let opens = vec![Token::Open(Delimiter::Parenthesis), word("a"), alone(',')];
    assert_eq!(find_value_end(&opens, 0), None);
}

#[test]
fn entries_are_read_in_source_order() {
    assert_eq!(parse_entries(&lex("")), Ok(vec![]));
    assert_eq!(parse_entries(&lex("a")), Ok(vec![flag("a", 0)]));
    assert_eq!(parse_entries(&lex("a,")), Ok(vec![flag("a", 0)]));
    assert_eq!(
        parse_entries(&lex("b = pub(crate), a, c(#[x] y), d = T<A, B>")),
        Ok(vec![
            assigned("b", lex("pub(crate)"), 0),
            flag("a", 7),
            block("c", lex("#[x] y"), 9),
            assigned("d", lex("T<A, B>"), 18),
        ])
    );
    assert_eq!(
        parse_entries(&lex("a = 1, a = 2")),
        Ok(vec![assigned("a", lex("1"), 0), assigned("a", lex("2"), 4)])
    );
    assert_eq!(parse_entries(&lex("c()")), Ok(vec![block("c", vec![], 0)]));
    assert_eq!(
        parse_entries(&lex("c(x), b = y z,")),
        Ok(vec![block("c", lex("x"), 0), assigned("b", lex("y z"), 5)])
    );
    assert_eq!(
        parse_entries(&lex("a = b c(d) e = ")),
        Ok(vec![assigned("a", lex("b c(d) e = "), 0)])
    );
}

#[test]
fn lists_that_are_no_entry_lists_are_malformed() {
    for src in [
        ",", "a,,b", "1", "= a", "a b", "a = ", "a = , b", "a(b) c", "a[b]", "a{b}", "a = b,, ",
        "(a)", "a == b, = c", "a, b c",
    ] {
        assert_eq!(
            parse_entries(&lex(src)).map_err(|fault| fault.error),
            Err(ConfigError::MalformedConfig),
            "{src}"
        );
    }
    let unbalanced = vec![word("a"), Token::Open(Delimiter::Parenthesis), word("b")];
    assert_eq!(
        parse_entries(&unbalanced),
        Err(config_fault(ConfigError::MalformedConfig, 0))
    );
    let mismatched = vec![
        word("a"),
        Token::Open(Delimiter::Parenthesis),
        word("b"),
        Token::Close(Delimiter::Bracket),
    ];
    assert_eq!(
        parse_entries(&mismatched),
        Err(config_fault(ConfigError::MalformedConfig, 0))
    );
    let stray = vec![word("a"), alone('='), word("b"), Token::Close(Delimiter::Parenthesis)];
    assert_eq!(parse_entries(&stray), Err(config_fault(ConfigError::MalformedConfig, 0)));
}

#[test]
fn malformed_list_names_the_token_at_which_it_breaks() {
    for (src, at) in [
        (",", 0),
        ("1", 0),
        ("a b", 0),
        ("a = ", 0),
        ("a,,b", 2),
        ("a(b) c", 4),
        ("a, b c", 2),
        ("a = x, b = y, = z", 8),
        ("a, b(c) d, e", 6),
    ] {
        assert_eq!(
            parse_entries(&lex(src)),
            Err(config_fault(ConfigError::MalformedConfig, at)),
            "{src}"
        );
    }
}

#[test]
fn one_entry_is_read_with_the_index_behind_it() {
    let tokens = lex("a, b = c d, e(f)");
    assert_eq!(read_entry(&tokens, 0), Some((flag("a", 0), 1)));
    assert_eq!(read_entry(&tokens, 1), None);
    assert_eq!(read_entry(&tokens, 2), Some((assigned("b", lex("c d"), 2), 6)));
    assert_eq!(read_entry(&tokens, 7), Some((block("e", lex("f"), 7), 11)));
    assert_eq!(read_entry(&tokens, 11), None);
    assert_eq!(read_entry(&tokens, 10), None);
}

#[test]
fn lookup_finds_the_first_entry_with_the_key() {
    let entries =
        vec![flag("a", 0), assigned("b", lex("1"), 2), assigned("a", lex("2"), 6), flag("c", 10)];
    assert_eq!(find_entry(&entries, "a"), Some(0));
    assert_eq!(find_entry(&entries, "b"), Some(1));
    assert_eq!(find_entry(&entries, "c"), Some(3));
    assert_eq!(find_entry(&entries, "d"), None);
    assert_eq!(find_entry(&vec![], "a"), None);
}

#[test]
fn each_scope_knows_its_keys() {
    let top = [
        ("vis", ValueKind::Visibility),
        ("name", ValueKind::Ident),
        ("attrs", ValueKind::Annotations),
        ("variants_tys_attrs", ValueKind::Annotations),
    ];
    let per_variant = [
        ("field_attrs", ValueKind::Annotations),
        ("field_vis", ValueKind::Visibility),
        ("field_name", ValueKind::Ident),
        ("field_ty_override", ValueKind::Type),
        ("gen_variant_ty", ValueKind::Bool),
        ("variant_ty_attrs", ValueKind::Annotations),
        ("variant_ty_vis", ValueKind::Visibility),
        ("variant_ty_name", ValueKind::Ident),
    ];
    for (key, kind) in top {
        assert_eq!(key_kind(Scope::TopLevel, &key.to_string()), Some(kind));
        assert_eq!(key_kind(Scope::Variant, &key.to_string()), None);
    }
    for (key, kind) in per_variant {
        assert_eq!(key_kind(Scope::Variant, &key.to_string()), Some(kind));
        assert_eq!(key_kind(Scope::TopLevel, &key.to_string()), None);
    }
    assert_eq!(key_kind(Scope::TopLevel, &"bogus".to_string()), None);
    assert_eq!(key_kind(Scope::Variant, &"".to_string()), None);
}

#[test]
fn annotations_are_split_at_their_brackets() {
    assert_eq!(split_annotations(&lex("")), Some(vec![]));
    assert_eq!(
        split_annotations(&lex("#[derive(Debug, Clone)] #[doc = \"[x]\"] #[a[b]]")),
        Some(vec![annotation("derive(Debug, Clone)"), annotation("doc = \"[x]\""), annotation("a[b]")])
    );
    assert_eq!(split_annotations(&lex("#[]")), Some(vec![annotation("")]));
    for src in ["derive(Debug)", "#", "# derive", "#(a)", "#![a]", "#[a] b", "#[a],"] {
        assert_eq!(split_annotations(&lex(src)), None, "{src}");
    }
    let open = vec![alone('#'), Token::Open(Delimiter::Bracket), word("a")];
    assert_eq!(split_annotations(&open), None);
}

#[test]
fn values_are_read_by_their_shape() {
    let ident = EntryValue::Assigned(lex("name"));
    let truth = EntryValue::Assigned(lex("true"));
    let falsehood = EntryValue::Assigned(lex("false"));
    let ty = EntryValue::Assigned(lex("Vec<u8>"));
    let attrs = EntryValue::Block(lex("#[a] #[b]"));
    let bad_block = EntryValue::Block(lex("a"));

    assert_eq!(value_ident(&ident), Some("name".to_string()));
    assert_eq!(value_ident(&ty), None);
    assert_eq!(value_ident(&EntryValue::Assigned(lex("1"))), None);
    assert_eq!(value_ident(&EntryValue::Flag), None);
    assert_eq!(value_ident(&EntryValue::Block(lex("name"))), None);

    assert_eq!(value_bool(&truth), Some(true));
    assert_eq!(value_bool(&falsehood), Some(false));
    assert_eq!(value_bool(&ident), None);
    assert_eq!(value_bool(&EntryValue::Assigned(lex("true false"))), None);
    assert_eq!(value_bool(&EntryValue::Flag), None);

    assert_eq!(value_tokens(&ty), Some(lex("Vec<u8>")));
    assert_eq!(value_tokens(&attrs), None);
    assert_eq!(value_tokens(&EntryValue::Flag), None);

    assert_eq!(value_annotations(&attrs), Some(vec![annotation("a"), annotation("b")]));
    assert_eq!(value_annotations(&bad_block), None);
    assert_eq!(value_annotations(&ty), None);
    assert_eq!(value_annotations(&EntryValue::Flag), None);

    assert!(is_well_shaped(ValueKind::Ident, &ident));
    assert!(!is_well_shaped(ValueKind::Ident, &ty));
    assert!(is_well_shaped(ValueKind::Bool, &truth));
    assert!(!is_well_shaped(ValueKind::Bool, &ident));
    assert!(is_well_shaped(ValueKind::Type, &ty));
    assert!(!is_well_shaped(ValueKind::Type, &attrs));
    assert!(is_well_shaped(ValueKind::Visibility, &ident));
    assert!(!is_well_shaped(ValueKind::Visibility, &EntryValue::Flag));
    assert!(is_well_shaped(ValueKind::Annotations, &attrs));
    assert!(!is_well_shaped(ValueKind::Annotations, &bad_block));
}

#[test]
fn host_language_judges_values() {
    assert!(check_value(ValueKind::Ident, &EntryValue::Assigned(lex("name"))));
    assert!(check_value(ValueKind::Ident, &EntryValue::Assigned(lex("r#type"))));
    assert!(!check_value(ValueKind::Ident, &EntryValue::Assigned(lex("type"))));
    assert!(!check_value(ValueKind::Ident, &EntryValue::Assigned(lex("_"))));
    assert!(check_value(ValueKind::Ident, &EntryValue::Assigned(lex("a b"))));
    assert!(check_value(ValueKind::Ident, &EntryValue::Flag));

    for src in ["pub", "pub(crate)", "pub(self)", "pub(super)", "pub(in crate::a::b)"] {
        assert!(check_value(ValueKind::Visibility, &EntryValue::Assigned(lex(src))), "{src}");
    }
    for src in ["pub(foo)", "private", "pub pub", "pub(crate::a)", "pub(in)"] {
        assert!(!check_value(ValueKind::Visibility, &EntryValue::Assigned(lex(src))), "{src}");
    }
    assert!(check_value(ValueKind::Visibility, &EntryValue::Block(lex("nothing asked"))));

    for src in ["u8", "()", "(A, B)", "Vec<Map<K, V>>", "&'a mut [u8; 4]", "fn(A) -> B", "dyn A + Send"] {
        assert!(check_value(ValueKind::Type, &EntryValue::Assigned(lex(src))), "{src}");
    }
    for src in ["1", "Vec<", "A B", "+", "let"] {
        assert!(!check_value(ValueKind::Type, &EntryValue::Assigned(lex(src))), "{src}");
    }

    assert!(check_value(ValueKind::Bool, &EntryValue::Assigned(lex("maybe"))));

    for src in ["", "#[a]", "#[derive(Debug, Clone)] #[doc = \"x\"]", "#[a::b(c)]"] {
        assert!(check_value(ValueKind::Annotations, &EntryValue::Block(lex(src))), "{src}");
    }
    for src in ["#[1]", "#[a b]", "a", "#![a]", "#[a = ]"] {
        assert!(!check_value(ValueKind::Annotations, &EntryValue::Block(lex(src))), "{src}");
    }
    assert!(check_value(ValueKind::Annotations, &EntryValue::Assigned(lex("#[1]"))));
}

#[test]
fn verdicts_are_given_entry_by_entry() {
    let entries = parse_entries(&lex("name = fn, vis = pub, bogus = 1 +, attrs(#[1]), name = ok")).unwrap();
    assert_eq!(check_entries(Scope::TopLevel, &entries), vec![false, true, true, false, true]);
    let entries = parse_entries(&lex("field_ty_override = 1, gen_variant_ty = 7, name = fn")).unwrap();
    assert_eq!(check_entries(Scope::Variant, &entries), vec![false, true, true]);
    assert_eq!(check_entries(Scope::Variant, &vec![]), Vec::<bool>::new());
}

#[test]
fn first_faulty_entry_decides() {
    let entries = parse_entries(&lex("name = A, vis = pub")).unwrap();
    assert_eq!(validate(Scope::TopLevel, &entries, &vec![true, true]), Ok(()));
    assert_eq!(validate(Scope::TopLevel, &entries, &vec![]), Ok(()));
    assert_eq!(
        validate(Scope::TopLevel, &entries, &vec![true, false]),
        Err(config_fault(ConfigError::MalformedConfig, 4))
    );
    assert_eq!(
        validate(Scope::TopLevel, &entries, &vec![false, false]),
        Err(config_fault(ConfigError::MalformedConfig, 0))
    );
    assert_eq!(
        validate(Scope::Variant, &entries, &vec![true, true]),
        Err(config_fault(ConfigError::UnknownConfigKey, 0))
    );

    let entries = parse_entries(&lex("name = 1, bogus, name = A")).unwrap();
    assert_eq!(
        validate(Scope::TopLevel, &entries, &vec![true, true, true]),
        Err(config_fault(ConfigError::MalformedConfig, 0))
    );
    let entries = parse_entries(&lex("name = A, name = 1, bogus")).unwrap();
    assert_eq!(
        validate(Scope::TopLevel, &entries, &vec![true, true, true]),
        Err(config_fault(ConfigError::DuplicateConfigKey, 4))
    );
    let entries = parse_entries(&lex("bogus, name = A, name = 1")).unwrap();
    assert_eq!(
        validate(Scope::TopLevel, &entries, &vec![true, true, true]),
        Err(config_fault(ConfigError::UnknownConfigKey, 0))
    );
    let entries = parse_entries(&lex("vis = pub, attrs(#[a]), oops = 1")).unwrap();
    assert_eq!(
        validate(Scope::TopLevel, &entries, &vec![true, true, true]),
        Err(config_fault(ConfigError::UnknownConfigKey, 12))
    );
    assert_eq!(validate(Scope::TopLevel, &vec![], &vec![]), Ok(()));
}

#[test]
fn configuration_annotation_is_found_by_its_name() {
    let attrs = vec![
        annotation("derive(Debug)"),
        annotation("variants_data_struct::x(a)"),
        annotation("variants_data_struct_field(a)"),
        annotation("variants_data_struct(b)"),
        annotation("variants_data_struct(c)"),
    ];
    assert_eq!(find_config(&attrs, "variants_data_struct"), Some(3));
    assert_eq!(find_config(&attrs, "variants_data_struct_field"), Some(2));
    assert_eq!(find_config(&attrs, "derive"), Some(0));
    assert_eq!(find_config(&attrs, "other"), None);
    assert_eq!(find_config(&vec![annotation("")], "other"), None);
    assert_eq!(find_config(&vec![annotation("other")], "other"), Some(0));
    assert_eq!(find_config(&vec![annotation("other = 1")], "other"), Some(0));
}

#[test]
fn argument_list_is_what_stands_in_the_one_group() {
    assert_eq!(annotation_args(&annotation("x(a, b(c))")), Some(lex("a, b(c)")));
    assert_eq!(annotation_args(&annotation("x[a]")), Some(lex("a")));
    assert_eq!(annotation_args(&annotation("x{a}")), Some(lex("a")));
    assert_eq!(annotation_args(&annotation("x()")), Some(vec![]));
    for src in ["x", "x = 1", "x(a) b", "x(a)(b)", "", "x y(a)"] {
        assert_eq!(annotation_args(&annotation(src)), None, "{src}");
    }
    let mismatched = Attribute {
        tokens: vec![
            word("x"),
            Token::Open(Delimiter::Parenthesis),
            word("a"),
            Token::Close(Delimiter::Bracket),
        ],
    };
    assert_eq!(annotation_args(&mismatched), None);
}

#[test]
fn top_level_configuration_is_read() {
    assert_eq!(
        VariantsDataStructAttrMeta::default(),
        VariantsDataStructAttrMeta { attrs: vec![], vis: None, name: None, variants_tys_attrs: vec![] }
    );
    assert_eq!(VariantsDataStructAttrMeta::parse(&vec![]), Ok(VariantsDataStructAttrMeta::default()));
    assert_eq!(
        VariantsDataStructAttrMeta::parse(&lex(
            "variants_tys_attrs(#[b]), name = N, vis = pub(super), attrs(#[a] #[c]),"
        )),
        Ok(VariantsDataStructAttrMeta {
            attrs: vec![annotation("a"), annotation("c")],
            vis: Some(visibility("pub(super)")),
            name: Some("N".to_string()),
            variants_tys_attrs: vec![annotation("b")],
        })
    );
    assert_eq!(VariantsDataStructAttrMeta::from_attrs(vec![annotation("derive(X)")]), Ok(None));
    assert_eq!(
        VariantsDataStructAttrMeta::from_attrs(vec![
            annotation("derive(X)"),
            annotation("variants_data_struct(name = N)")
        ]),
        Ok(Some(VariantsDataStructAttrMeta {
            attrs: vec![],
            vis: None,
            name: Some("N".to_string()),
            variants_tys_attrs: vec![],
        }))
    );
    assert_eq!(
        VariantsDataStructAttrMeta::from_attrs(vec![annotation("variants_data_struct")]),
        Err(ConfigFault { error: ConfigError::MalformedConfig, at: None })
    );
    assert_eq!(
        VariantsDataStructAttrMeta::from_attrs(vec![annotation("variants_data_struct(field_name = x)")]),
        Err(config_fault(ConfigError::UnknownConfigKey, 0))
    );
    assert_eq!(
        VariantsDataStructAttrMeta::from_attrs(vec![annotation("variants_data_struct(name = N, 7)")]),
        Err(config_fault(ConfigError::MalformedConfig, 4))
    );
    assert_eq!(
        VariantsDataStructAttrMeta::parse(&lex("vis = pub, name = struct")),
        Err(config_fault(ConfigError::MalformedConfig, 4))
    );
}

#[test]
fn top_level_entries_get_their_meaning_under_given_verdicts() {
    let entries = parse_entries(&lex("name = N, vis = anything")).unwrap();
    assert_eq!(
        VariantsDataStructAttrMeta::from_entries(&entries, &vec![true, true]),
        Ok(VariantsDataStructAttrMeta {
            attrs: vec![],
            vis: Some(visibility("anything")),
            name: Some("N".to_string()),
            variants_tys_attrs: vec![],
        })
    );
    assert_eq!(
        VariantsDataStructAttrMeta::from_entries(&entries, &vec![false, true]),
        Err(config_fault(ConfigError::MalformedConfig, 0))
    );
    assert_eq!(
        VariantsDataStructAttrMeta::from_entries(&entries, &vec![true, false]),
        Err(config_fault(ConfigError::MalformedConfig, 4))
    );
}

#[test]
fn variant_configuration_is_read() {
    assert_eq!(
        VariantsDataStructFieldAttrMeta::default(),
        VariantsDataStructFieldAttrMeta {
            field_attrs: vec![],
            field_vis: None,
            field_name: None,
            field_ty_override: None,
            gen_variant_ty: None,
            variant_ty_attrs: vec![],
            variant_ty_vis: None,
            variant_ty_name: None,
        }
    );
    assert_eq!(
        VariantsDataStructFieldAttrMeta::parse(&lex(
            "variant_ty_name = P, variant_ty_vis = pub, variant_ty_attrs(#[p]), \
             gen_variant_ty = true, field_name = f, field_vis = pub(crate), \
             field_attrs(#[f]), field_ty_override = Box<P>"
        )),
        Ok(VariantsDataStructFieldAttrMeta {
            field_attrs: vec![annotation("f")],
            field_vis: Some(visibility("pub(crate)")),
            field_name: Some("f".to_string()),
            field_ty_override: Some(lex("Box<P>")),
            gen_variant_ty: Some(true),
            variant_ty_attrs: vec![annotation("p")],
            variant_ty_vis: Some(visibility("pub")),
            variant_ty_name: Some("P".to_string()),
        })
    );
    assert_eq!(
        VariantsDataStructFieldAttrMeta::parse(&lex("gen_variant_ty = false")),
        Ok(VariantsDataStructFieldAttrMeta {
            gen_variant_ty: Some(false),
            ..VariantsDataStructFieldAttrMeta::default()
        })
    );
    assert_eq!(VariantsDataStructFieldAttrMeta::from_attrs(&vec![]), Ok(None));
    assert_eq!(
        VariantsDataStructFieldAttrMeta::from_attrs(&vec![annotation("variants_data_struct(name = N)")]),
        Ok(None)
    );
    assert_eq!(
        VariantsDataStructFieldAttrMeta::from_attrs(&vec![annotation(
            "variants_data_struct_field(field_name = a, field_name = b)"
        )]),
        Err(config_fault(ConfigError::DuplicateConfigKey, 4))
    );
    let entries = parse_entries(&lex("field_ty_override = not a type")).unwrap();
    assert_eq!(
        VariantsDataStructFieldAttrMeta::from_entries(&entries, &vec![true]),
        Ok(VariantsDataStructFieldAttrMeta {
            field_ty_override: Some(lex("not a type")),
            ..VariantsDataStructFieldAttrMeta::default()
        })
    );
    assert_eq!(
        VariantsDataStructFieldAttrMeta::from_entries(&entries, &vec![false]),
        Err(config_fault(ConfigError::MalformedConfig, 0))
    );
}

#[test]
fn struct_defaults_are_filled_in() {
    let resolved = VariantsDataStructMeta::resolve(
        VariantsDataStructAttrMeta::default(),
        &"MyEnum".to_string(),
        &visibility("pub(crate)"),
    );
    assert_eq!(
        resolved,
        VariantsDataStructMeta {
            attrs: vec![],
            vis: visibility("pub(crate)"),
            name: "MyEnumVariantsData".to_string(),
            variants_tys_attrs: vec![],
        }
    );
    let resolved = VariantsDataStructMeta::resolve(
        VariantsDataStructAttrMeta {
            attrs: vec![annotation("a")],
            vis: Some(visibility("")),
            name: Some("Given".to_string()),
            variants_tys_attrs: vec![annotation("b")],
        },
        &"MyEnum".to_string(),
        &visibility("pub"),
    );
    assert_eq!(
        resolved,
        VariantsDataStructMeta {
            attrs: vec![annotation("a")],
            vis: visibility(""),
            name: "Given".to_string(),
            variants_tys_attrs: vec![annotation("b")],
        }
    );
}

#[test]
fn variant_defaults_are_filled_in_under_a_given_field_name() {
    let variant = Variant {
        attrs: vec![],
        ident: "Pair".to_string(),
        fields: Fields::Unnamed(vec![Field {
            attrs: vec![],
            vis: visibility(""),
            ident: None,
            ty: lex("u8"),
        }]),
    };
    let resolved = VariantsDataStructFieldMeta::resolve_named(
        VariantsDataStructFieldAttrMeta::default(),
        &vec![annotation("inherited")],
        visibility("pub"),
        &variant,
        "given_name".to_string(),
    );
    assert_eq!(
        resolved,
        Ok(VariantsDataStructFieldMeta {
            field_attrs: vec![],
            field_vis: visibility("pub"),
            field_name: "given_name".to_string(),
            field_ty: Type::Path("PairPayloadType".to_string()),
            variant_ty: Some(VariantTy {
                attrs: vec![annotation("inherited")],
                vis: visibility("pub"),
                name: "PairPayloadType".to_string(),
            }),
        })
    );
    let resolved = VariantsDataStructFieldMeta::resolve(
        VariantsDataStructFieldAttrMeta {
            field_attrs: vec![annotation("f")],
            gen_variant_ty: Some(false),
            ..VariantsDataStructFieldAttrMeta::default()
        },
        &vec![annotation("inherited")],
        visibility("pub"),
        &variant,
    );
    assert_eq!(
        resolved,
        Ok(VariantsDataStructFieldMeta {
            field_attrs: vec![annotation("f")],
            field_vis: visibility("pub"),
            field_name: "pair".to_string(),
            field_ty: Type::Tuple(vec![lex("u8")]),
            variant_ty: None,
        })
    );
}

#[test]
fn payload_type_takes_the_fields_under_its_own_visibility() {
    let ty = VariantTy { attrs: vec![annotation("a")], vis: visibility("pub(crate)"), name: "P".to_string() };
    let fields = Fields::Named(vec![
        Field { attrs: vec![annotation("doc = \"x\"")], vis: visibility("pub"), ident: Some("x".to_string()), ty: lex("u8") },
        Field { attrs: vec![], vis: visibility(""), ident: Some("y".to_string()), ty: lex("Vec<u8>") },
    ]);
    assert_eq!(
        ty.to_struct_def(fields),
        ItemStruct {
            attrs: vec![annotation("a")],
            vis: visibility("pub(crate)"),
            ident: "P".to_string(),
            fields: Fields::Named(vec![
                Field {
                    attrs: vec![annotation("doc = \"x\"")],
                    vis: visibility("pub(crate)"),
                    ident: Some("x".to_string()),
                    ty: lex("u8"),
                },
                Field {
                    attrs: vec![],
                    vis: visibility("pub(crate)"),
                    ident: Some("y".to_string()),
                    ty: lex("Vec<u8>"),
                },
            ]),
        }
    );
    let ty = VariantTy { attrs: vec![], vis: visibility(""), name: "Q".to_string() };
    assert_eq!(
        ty.to_struct_def(Fields::Unit),
        ItemStruct { attrs: vec![], vis: visibility(""), ident: "Q".to_string(), fields: Fields::Unit }
    );
}

#[test]
fn data_struct_field_is_made_of_its_parts() {
    let field = variants_data_struct_field(
        vec![annotation("a")],
        visibility("pub"),
        "f".to_string(),
        Type::Verbatim(lex("u8")),
    );
    assert_eq!(field.attrs, vec![annotation("a")]);
    assert_eq!(field.vis, visibility("pub"));
    assert_eq!(field.ident, "f");
    assert_eq!(field.ty, Type::Verbatim(lex("u8")));
}

#[test]
fn assembly_of_no_variants_is_an_empty_struct() {
    let defs = variants_data_struct_defs(
        vec![annotation("a")],
        vec![annotation("b")],
        visibility("pub"),
        "Empty".to_string(),
        variants_data_struct::schema::Generics { params: lex("T"), where_clause: vec![] },
        vec![],
    )
    .unwrap();
    assert_eq!(defs.derived_struct.ident, "Empty");
    assert_eq!(defs.derived_struct.attrs, vec![annotation("a")]);
    assert_eq!(defs.derived_struct.generics.params, lex("T"));
    assert!(defs.derived_struct.fields.is_empty());
    assert!(defs.variant_type_structs.is_empty());
}

#[test]
fn each_fault_has_its_message() {
    assert_eq!(ConfigError::UnknownConfigKey.message(), "unexpected key in the configuration");
    assert_eq!(
        ConfigError::DuplicateConfigKey.message(),
        "a key is given twice in the configuration"
    );
    assert_eq!(
        ConfigError::MalformedConfig.message(),
        "the configuration is not a list of `key`, `key = value` or `key(...)` entries with values of the right shape"
    );
    assert_eq!(
        ConfigError::AmbiguousFieldType.message(),
        "field_ty_override is required for named fields if gen_variant_ty is false"
    );
    assert_eq!(
        ConfigError::UnsupportedInputShape.message(),
        "VariantsDataStruct can only be derived for enums"
    );
}

#[test]
fn assembly_names_the_faulty_variant() {
    let variants = vec![
        Variant { attrs: vec![], ident: "A".to_string(), fields: Fields::Unit },
        Variant {
            attrs: vec![annotation("variants_data_struct_field(field_name = a, field_name = b)")],
            ident: "B".to_string(),
            fields: Fields::Unit,
        },
        Variant {
            attrs: vec![annotation("variants_data_struct_field")],
            ident: "C".to_string(),
            fields: Fields::Unit,
        },
    ];
    let res = variants_data_struct_defs(
        vec![],
        vec![],
        visibility("pub"),
        "S".to_string(),
        variants_data_struct::schema::Generics { params: vec![], where_clause: vec![] },
        variants,
    );
    assert_eq!(
        res,
        Err(Fault { error: ConfigError::DuplicateConfigKey, site: Site::Variant(1), at: Some(4) })
    );
}
