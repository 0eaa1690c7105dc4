//! The configuration written on the enum, as written: every knob optional.

use crate::attr_args::{entries_outcome, parse_entries, Entry, EntryView};
use crate::config::{
    annotation_args, annotations_for, check_entries, config_args, config_index_from,
    entry_annotations, entry_ident, entry_tokens, find_config, first_fault, attrs_verdicts_fit, config_name, list_verdicts_fit,
    ident_for, tokens_for, validate, Scope,
};
use crate::error::{yields, ConfigError, ConfigFault};
use crate::schema::{Attribute, Visibility};
use crate::token::{Token, TokenView};
use vstd::prelude::*;

verus! {

/// What `variants_data_struct(...)` on the enum says.
#[derive(Debug, PartialEq, Eq)]
pub struct VariantsDataStructAttrMeta {
    /// The annotations to put on the variants data struct.
    pub attrs: Vec<Attribute>,
    /// The visibility of the variants data struct, where it is not that of
    /// the enum.
    pub vis: Option<Visibility>,
    /// The name of the variants data struct, where it is not
    /// `<EnumName>VariantsData`.
    pub name: Option<String>,
    /// The annotations to put on every payload type.
    pub variants_tys_attrs: Vec<Attribute>,
}

/// The mathematical value of a [`VariantsDataStructAttrMeta`].
pub struct VariantsDataStructAttrMetaView {
    pub attrs: Seq<Seq<TokenView>>,
    pub vis: Option<Seq<TokenView>>,
    pub name: Option<Seq<char>>,
    pub variants_tys_attrs: Seq<Seq<TokenView>>,
}

impl DeepView for VariantsDataStructAttrMeta {
    type V = VariantsDataStructAttrMetaView;

    open spec fn deep_view(&self) -> VariantsDataStructAttrMetaView {
        VariantsDataStructAttrMetaView {
            attrs: self.attrs.deep_view(),
            vis: self.vis.deep_view(),
            name: self.name.deep_view(),
            variants_tys_attrs: self.variants_tys_attrs.deep_view(),
        }
    }
}

impl View for VariantsDataStructAttrMeta {
    type V = VariantsDataStructAttrMetaView;

    open spec fn view(&self) -> VariantsDataStructAttrMetaView {
        self.deep_view()
    }
}

/// The configuration that says nothing.
pub open spec fn empty_attr_meta() -> VariantsDataStructAttrMetaView {
    VariantsDataStructAttrMetaView {
        attrs: Seq::empty(),
        vis: None,
        name: None,
        variants_tys_attrs: Seq::empty(),
    }
}

/// What a list of entries says: for each key the value of its first entry.
pub open spec fn attr_meta_of(es: Seq<EntryView>) -> VariantsDataStructAttrMetaView {
    VariantsDataStructAttrMetaView {
        attrs: annotations_for(es, "attrs"@),
        vis: tokens_for(es, "vis"@),
        name: ident_for(es, "name"@),
        variants_tys_attrs: annotations_for(es, "variants_tys_attrs"@),
    }
}

/// What comes of a list of entries, given the host language's verdict on
/// each: the list's fault, or what the list says.
pub open spec fn attr_meta_outcome(es: Seq<EntryView>, verdicts: Seq<bool>) -> Result<
    VariantsDataStructAttrMetaView,
    ConfigFault,
> {
    match first_fault(Scope::TopLevel, es, verdicts) {
        Some(fault) => Err(fault),
        None => Ok(attr_meta_of(es)),
    }
}

/// What comes of an argument list, given the host language's verdict on each
/// of its entries: `MalformedConfig` where it is no list of entries, at the
/// token at which it stops being one, else what comes of its entries.
pub open spec fn attr_meta_parse(ts: Seq<TokenView>, verdicts: Seq<bool>) -> Result<
    VariantsDataStructAttrMetaView,
    ConfigFault,
> {
    match entries_outcome(ts) {
        Err(fault) => Err(fault),
        Ok(es) => attr_meta_outcome(es, verdicts),
    }
}

/// What comes of a list of annotations, given the host language's verdict on
/// each entry of the configuration among them: nothing where none of them is
/// the configuration annotation; else `MalformedConfig` where the first such
/// annotation has no argument list, else what comes of its argument list.
pub open spec fn attr_meta_from_attrs(attrs: Seq<Seq<TokenView>>, verdicts: Seq<bool>) -> Result<
    Option<VariantsDataStructAttrMetaView>,
    ConfigFault,
> {
    match config_index_from(attrs, config_name(Scope::TopLevel), 0) {
        None => Ok(None),
        Some(i) => match config_args(attrs[i]) {
            None => Err(ConfigFault { error: ConfigError::MalformedConfig, at: None }),
            Some(args) => match attr_meta_parse(args, verdicts) {
                Ok(meta) => Ok(Some(meta)),
                Err(fault) => Err(fault),
            },
        },
    }
}

impl Default for VariantsDataStructAttrMeta {
    fn default() -> (res: Self)
        ensures
            res@ == empty_attr_meta(),
    {
        let res = VariantsDataStructAttrMeta {
            attrs: Vec::new(),
            vis: None,
            name: None,
            variants_tys_attrs: Vec::new(),
        };
        assert(res.attrs.deep_view() =~= Seq::<Seq<TokenView>>::empty());
        assert(res.variants_tys_attrs.deep_view() =~= Seq::<Seq<TokenView>>::empty());
        res
    }
}

impl VariantsDataStructAttrMeta {
    /// Reads the configuration of an enum from its annotations. The first
    /// annotation named `variants_data_struct` counts; without one the
    /// result is `None`. The host language is asked about the values of the
    /// entries, and the result is what comes of the annotations under its
    /// verdicts, whatever they are.
    pub fn from_attrs(attrs: Vec<Attribute>) -> (res: Result<Option<Self>, ConfigFault>)
        ensures
            exists|verdicts: Seq<bool>|
                #[trigger] attrs_verdicts_fit(Scope::TopLevel, attrs.deep_view(), verdicts)
                    && yields(res, attr_meta_from_attrs(attrs.deep_view(), verdicts)),
    {
        let ghost none = Seq::<bool>::empty();
        match find_config(&attrs, "variants_data_struct") {
            None => {
                assert(attrs_verdicts_fit(Scope::TopLevel, attrs.deep_view(), none));
                Ok(None)
            },
            Some(i) => match annotation_args(&attrs[i]) {
                None => {
                    assert(attrs_verdicts_fit(Scope::TopLevel, attrs.deep_view(), none));
                    Err(ConfigFault { error: ConfigError::MalformedConfig, at: None })
                },
                Some(args) => {
                    let parsed = Self::parse(&args);
                    let ghost verdicts = choose|verdicts: Seq<bool>|
                        #[trigger] list_verdicts_fit(Scope::TopLevel, args.deep_view(), verdicts)
                            && yields(parsed, attr_meta_parse(args.deep_view(), verdicts));
                    assert(attrs_verdicts_fit(Scope::TopLevel, attrs.deep_view(), verdicts));
                    match parsed {
                        Ok(meta) => Ok(Some(meta)),
                        Err(fault) => Err(fault),
                    }
                },
            },
        }
    }

    /// Reads the configuration from the argument list of its annotation. The
    /// host language is asked about the values of the entries, and the result
    /// is what comes of the list under its verdicts, whatever they are.
    pub fn parse(input: &Vec<Token>) -> (res: Result<Self, ConfigFault>)
        ensures
            exists|verdicts: Seq<bool>|
                #[trigger] list_verdicts_fit(Scope::TopLevel, input.deep_view(), verdicts)
                    && yields(res, attr_meta_parse(input.deep_view(), verdicts)),
    {
        match parse_entries(input) {
            Err(fault) => {
                assert(list_verdicts_fit(
                    Scope::TopLevel,
                    input.deep_view(),
                    Seq::<bool>::empty(),
                ));
                Err(fault)
            },
            Ok(entries) => {
                let verdicts = check_entries(Scope::TopLevel, &entries);
                let res = Self::from_entries(&entries, &verdicts);
                assert(list_verdicts_fit(Scope::TopLevel, input.deep_view(), verdicts@));
                res
            },
        }
    }

    /// Gives the entries of an argument list their meaning, given the host
    /// language's verdict on each entry's value. Fails with the fault of the
    /// first faulty entry, at the key of that entry.
    pub fn from_entries(entries: &Vec<Entry>, verdicts: &Vec<bool>) -> (res: Result<
        Self,
        ConfigFault,
    >)
        ensures
            yields(res, attr_meta_outcome(entries.deep_view(), verdicts@)),
    {
        match validate(Scope::TopLevel, entries, verdicts) {
            Err(fault) => Err(fault),
            Ok(()) => {
                let vis = match entry_tokens(entries, "vis") {
                    Some(tokens) => Some(Visibility { tokens }),
                    None => None,
                };
                Ok(
                    VariantsDataStructAttrMeta {
                        attrs: entry_annotations(entries, "attrs"),
                        vis,
                        name: entry_ident(entries, "name"),
                        variants_tys_attrs: entry_annotations(entries, "variants_tys_attrs"),
                    },
                )
            },
        }
    }
}

} // verus!
