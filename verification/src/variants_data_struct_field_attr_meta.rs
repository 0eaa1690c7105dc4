//! The configuration written on one variant, as written: every knob optional.

use crate::attr_args::{entries_outcome, parse_entries, Entry, EntryView};
use crate::config::{
    annotation_args, annotations_for, bool_for, check_entries, config_args, config_index_from,
    entry_annotations, entry_bool, entry_ident, entry_tokens, find_config, first_fault,
    attrs_verdicts_fit, config_name, list_verdicts_fit, ident_for, tokens_for, validate, Scope,
};
use crate::error::{yields, ConfigError, ConfigFault};
use crate::schema::{Attribute, Visibility};
use crate::token::{Token, TokenView};
use vstd::prelude::*;

verus! {

/// What `variants_data_struct_field(...)` on a variant says.
#[derive(Debug, PartialEq, Eq)]
pub struct VariantsDataStructFieldAttrMeta {
    /// The annotations to put on the variant's field.
    pub field_attrs: Vec<Attribute>,
    /// The visibility of the field, where it is not that of the variants data
    /// struct.
    pub field_vis: Option<Visibility>,
    /// The name of the field, where it is not the variant's name in snake
    /// case.
    pub field_name: Option<String>,
    /// The type of the field, where it is given outright.
    pub field_ty_override: Option<Vec<Token>>,
    /// Whether the variant gets a payload type, where this is said outright.
    pub gen_variant_ty: Option<bool>,
    /// The annotations to put on the variant's payload type, behind those that
    /// every payload type gets.
    pub variant_ty_attrs: Vec<Attribute>,
    /// The visibility of the payload type, where it is not that of the
    /// variants data struct.
    pub variant_ty_vis: Option<Visibility>,
    /// The name of the payload type, where it is not
    /// `<VariantName>PayloadType`.
    pub variant_ty_name: Option<String>,
}

/// The mathematical value of a [`VariantsDataStructFieldAttrMeta`].
pub struct VariantsDataStructFieldAttrMetaView {
    pub field_attrs: Seq<Seq<TokenView>>,
    pub field_vis: Option<Seq<TokenView>>,
    pub field_name: Option<Seq<char>>,
    pub field_ty_override: Option<Seq<TokenView>>,
    pub gen_variant_ty: Option<bool>,
    pub variant_ty_attrs: Seq<Seq<TokenView>>,
    pub variant_ty_vis: Option<Seq<TokenView>>,
    pub variant_ty_name: Option<Seq<char>>,
}

impl DeepView for VariantsDataStructFieldAttrMeta {
    type V = VariantsDataStructFieldAttrMetaView;

    open spec fn deep_view(&self) -> VariantsDataStructFieldAttrMetaView {
        VariantsDataStructFieldAttrMetaView {
            field_attrs: self.field_attrs.deep_view(),
            field_vis: self.field_vis.deep_view(),
            field_name: self.field_name.deep_view(),
            field_ty_override: self.field_ty_override.deep_view(),
            gen_variant_ty: self.gen_variant_ty,
            variant_ty_attrs: self.variant_ty_attrs.deep_view(),
            variant_ty_vis: self.variant_ty_vis.deep_view(),
            variant_ty_name: self.variant_ty_name.deep_view(),
        }
    }
}

impl View for VariantsDataStructFieldAttrMeta {
    type V = VariantsDataStructFieldAttrMetaView;

    open spec fn view(&self) -> VariantsDataStructFieldAttrMetaView {
        self.deep_view()
    }
}

/// The configuration that says nothing.
pub open spec fn empty_field_attr_meta() -> VariantsDataStructFieldAttrMetaView {
    VariantsDataStructFieldAttrMetaView {
        field_attrs: Seq::empty(),
        field_vis: None,
        field_name: None,
        field_ty_override: None,
        gen_variant_ty: None,
        variant_ty_attrs: Seq::empty(),
        variant_ty_vis: None,
        variant_ty_name: None,
    }
}

/// What a list of entries says: for each key the value of its first entry.
pub open spec fn field_attr_meta_of(es: Seq<EntryView>) -> VariantsDataStructFieldAttrMetaView {
    VariantsDataStructFieldAttrMetaView {
        field_attrs: annotations_for(es, "field_attrs"@),
        field_vis: tokens_for(es, "field_vis"@),
        field_name: ident_for(es, "field_name"@),
        field_ty_override: tokens_for(es, "field_ty_override"@),
        gen_variant_ty: bool_for(es, "gen_variant_ty"@),
        variant_ty_attrs: annotations_for(es, "variant_ty_attrs"@),
        variant_ty_vis: tokens_for(es, "variant_ty_vis"@),
        variant_ty_name: ident_for(es, "variant_ty_name"@),
    }
}

/// What comes of a list of entries, given the host language's verdict on
/// each: the list's fault, or what the list says.
pub open spec fn field_attr_meta_outcome(es: Seq<EntryView>, verdicts: Seq<bool>) -> Result<
    VariantsDataStructFieldAttrMetaView,
    ConfigFault,
> {
    match first_fault(Scope::Variant, es, verdicts) {
        Some(fault) => Err(fault),
        None => Ok(field_attr_meta_of(es)),
    }
}

/// What comes of an argument list, given the host language's verdict on each
/// of its entries: `MalformedConfig` where it is no list of entries, at the
/// token at which it stops being one, else what comes of its entries.
pub open spec fn field_attr_meta_parse(ts: Seq<TokenView>, verdicts: Seq<bool>) -> Result<
    VariantsDataStructFieldAttrMetaView,
    ConfigFault,
> {
    match entries_outcome(ts) {
        Err(fault) => Err(fault),
        Ok(es) => field_attr_meta_outcome(es, verdicts),
    }
}

/// What comes of a list of annotations, given the host language's verdict on
/// each entry of the configuration among them: nothing where none of them is
/// the configuration annotation; else `MalformedConfig` where the first such
/// annotation has no argument list, else what comes of its argument list.
pub open spec fn field_attr_meta_from_attrs(attrs: Seq<Seq<TokenView>>, verdicts: Seq<bool>) -> Result<
    Option<VariantsDataStructFieldAttrMetaView>,
    ConfigFault,
> {
    match config_index_from(attrs, config_name(Scope::Variant), 0) {
        None => Ok(None),
        Some(i) => match config_args(attrs[i]) {
            None => Err(ConfigFault { error: ConfigError::MalformedConfig, at: None }),
            Some(args) => match field_attr_meta_parse(args, verdicts) {
                Ok(meta) => Ok(Some(meta)),
                Err(fault) => Err(fault),
            },
        },
    }
}

impl Default for VariantsDataStructFieldAttrMeta {
    fn default() -> (res: Self)
        ensures
            res@ == empty_field_attr_meta(),
    {
        let res = VariantsDataStructFieldAttrMeta {
            field_attrs: Vec::new(),
            field_vis: None,
            field_name: None,
            field_ty_override: None,
            gen_variant_ty: None,
            variant_ty_attrs: Vec::new(),
            variant_ty_vis: None,
            variant_ty_name: None,
        };
        assert(res.field_attrs.deep_view() =~= Seq::<Seq<TokenView>>::empty());
        assert(res.variant_ty_attrs.deep_view() =~= Seq::<Seq<TokenView>>::empty());
        res
    }
}

impl VariantsDataStructFieldAttrMeta {
    /// Reads the configuration of a variant from its annotations. The first
    /// annotation named `variants_data_struct_field` counts; without one the
    /// result is `None`. The host language is asked about the values of the
    /// entries, and the result is what comes of the annotations under its
    /// verdicts, whatever they are.
    pub fn from_attrs(attrs: &Vec<Attribute>) -> (res: Result<Option<Self>, ConfigFault>)
        ensures
            exists|verdicts: Seq<bool>|
                #[trigger] attrs_verdicts_fit(Scope::Variant, attrs.deep_view(), verdicts)
                    && yields(res, field_attr_meta_from_attrs(attrs.deep_view(), verdicts)),
    {
        let ghost none = Seq::<bool>::empty();
        match find_config(attrs, "variants_data_struct_field") {
            None => {
                assert(attrs_verdicts_fit(Scope::Variant, attrs.deep_view(), none));
                Ok(None)
            },
            Some(i) => match annotation_args(&attrs[i]) {
                None => {
                    assert(attrs_verdicts_fit(Scope::Variant, attrs.deep_view(), none));
                    Err(ConfigFault { error: ConfigError::MalformedConfig, at: None })
                },
                Some(args) => {
                    let parsed = Self::parse(&args);
                    let ghost verdicts = choose|verdicts: Seq<bool>|
                        #[trigger] list_verdicts_fit(Scope::Variant, args.deep_view(), verdicts)
                            && yields(parsed, field_attr_meta_parse(args.deep_view(), verdicts));
                    assert(attrs_verdicts_fit(Scope::Variant, attrs.deep_view(), verdicts));
                    match parsed {
                        Ok(meta) => Ok(Some(meta)),
                        Err(fault) => Err(fault),
                    }
                },
            },
        }
    }

    /// Reads the configuration from the argument list of its annotation. The
    /// host language is asked about the values of the entries, and the result
    /// is what comes of the list under its verdicts, whatever they are.
    pub fn parse(input: &Vec<Token>) -> (res: Result<Self, ConfigFault>)
        ensures
            exists|verdicts: Seq<bool>|
                #[trigger] list_verdicts_fit(Scope::Variant, input.deep_view(), verdicts)
                    && yields(res, field_attr_meta_parse(input.deep_view(), verdicts)),
    {
        match parse_entries(input) {
            Err(fault) => {
                assert(list_verdicts_fit(
                    Scope::Variant,
                    input.deep_view(),
                    Seq::<bool>::empty(),
                ));
                Err(fault)
            },
            Ok(entries) => {
                let verdicts = check_entries(Scope::Variant, &entries);
                let res = Self::from_entries(&entries, &verdicts);
                assert(list_verdicts_fit(Scope::Variant, input.deep_view(), verdicts@));
                res
            },
        }
    }

    /// Gives the entries of an argument list their meaning, given the host
    /// language's verdict on each entry's value. Fails with the fault of the
    /// first faulty entry, at the key of that entry.
    pub fn from_entries(entries: &Vec<Entry>, verdicts: &Vec<bool>) -> (res: Result<
        Self,
        ConfigFault,
    >)
        ensures
            yields(res, field_attr_meta_outcome(entries.deep_view(), verdicts@)),
    {
        match validate(Scope::Variant, entries, verdicts) {
            Err(fault) => Err(fault),
            Ok(()) => {
                let field_vis = match entry_tokens(entries, "field_vis") {
                    Some(tokens) => Some(Visibility { tokens }),
                    None => None,
                };
                let variant_ty_vis = match entry_tokens(entries, "variant_ty_vis") {
                    Some(tokens) => Some(Visibility { tokens }),
                    None => None,
                };
                Ok(
                    VariantsDataStructFieldAttrMeta {
                        field_attrs: entry_annotations(entries, "field_attrs"),
                        field_vis,
                        field_name: entry_ident(entries, "field_name"),
                        field_ty_override: entry_tokens(entries, "field_ty_override"),
                        gen_variant_ty: entry_bool(entries, "gen_variant_ty"),
                        variant_ty_attrs: entry_annotations(entries, "variant_ty_attrs"),
                        variant_ty_vis,
                        variant_ty_name: entry_ident(entries, "variant_ty_name"),
                    },
                )
            },
        }
    }
}

} // verus!
