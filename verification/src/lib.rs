//! Synthesis of a "variants data" record type from the definition of an enum.
//!
//! Given an enum (its name, visibility, generics and variants, each variant
//! either empty, positional or named) and the configuration written in its
//! annotations, the library produces the description of a record type with one
//! field per variant and, for the variants that carry data, the description of
//! a payload type that wraps the variant's fields.

pub mod attr_args;
pub mod config;
pub mod error;
pub mod laws;
pub mod schema;
pub mod syntax;
pub mod token;
pub mod variants_data_struct_attr_meta;
pub mod variants_data_struct_defs;
pub mod variants_data_struct_field_attr_meta;
pub mod variants_data_struct_field_meta;
pub mod variants_data_struct_meta;

use crate::config::{
    accepting_verdicts, attrs_verdicts_fit, lemma_accepting_verdicts_fit, Scope,
};
use crate::error::{fault_in, yields, ConfigError, Fault, Site};
use crate::schema::{Data, DataView, DeriveInput, DeriveInputView};
use crate::variants_data_struct_attr_meta::{
    attr_meta_from_attrs, empty_attr_meta, VariantsDataStructAttrMeta,
};
use crate::variants_data_struct_defs::{
    defs_of, variants_data_struct_defs, variants_verdicts_fit, VariantsDataStructDefs,
    VariantsDataStructDefsView,
};
use crate::variants_data_struct_meta::{struct_meta_of, VariantsDataStructMeta};
use vstd::prelude::*;

verus! {

/// What comes of a type definition, given the host language's verdicts on the
/// entries of the enum's configuration and on those of each variant's:
/// `UnsupportedInputShape` for anything but an enum; else the fault of the
/// enum's configuration; else what comes of the variants under the resolved
/// configuration of the enum. Each fault comes with its place.
pub open spec fn derive_outcome(
    input: DeriveInputView,
    config_verdicts: Seq<bool>,
    variant_verdicts: Seq<Seq<bool>>,
) -> Result<VariantsDataStructDefsView, Fault> {
    match input.data {
        DataView::Enum(variants) => match attr_meta_from_attrs(input.attrs, config_verdicts) {
            Err(fault) => Err(fault_in(Site::Config, fault)),
            Ok(found) => {
                let attr_meta = match found {
                    Some(attr_meta) => attr_meta,
                    None => empty_attr_meta(),
                };
                let meta = struct_meta_of(attr_meta, input.ident, input.vis);
                defs_of(
                    meta.attrs,
                    meta.variants_tys_attrs,
                    meta.vis,
                    meta.name,
                    input.generics,
                    variants,
                    variant_verdicts,
                )
            },
        },
        _ => Err(Fault { error: ConfigError::UnsupportedInputShape, site: Site::Input, at: None }),
    }
}

/// Whether the verdicts can be the host language's on a type definition:
/// those on the enum's configuration, and for each variant those on its own.
pub open spec fn derive_verdicts_fit(
    input: DeriveInputView,
    config_verdicts: Seq<bool>,
    variant_verdicts: Seq<Seq<bool>>,
) -> bool {
    &&& attrs_verdicts_fit(Scope::TopLevel, input.attrs, config_verdicts)
    &&& match input.data {
        DataView::Enum(variants) => variants_verdicts_fit(variants, variant_verdicts),
        _ => true,
    }
}

/// Verdicts that accept every entry of every variant's configuration.
pub open spec fn accepting_variant_verdicts(input: DeriveInputView) -> Seq<Seq<bool>> {
    match input.data {
        DataView::Enum(variants) => Seq::new(
            variants.len(),
            |i: int| accepting_verdicts(Scope::Variant, variants[i].attrs),
        ),
        _ => Seq::empty(),
    }
}

/// The verdicts that accept every entry of every variant's configuration can
/// be the host language's.
proof fn lemma_accepting_variant_verdicts_fit(input: DeriveInputView, config_verdicts: Seq<bool>)
    requires
        attrs_verdicts_fit(Scope::TopLevel, input.attrs, config_verdicts),
    ensures
        derive_verdicts_fit(input, config_verdicts, accepting_variant_verdicts(input)),
{
    match input.data {
        DataView::Enum(variants) => {
            assert forall|i: int| 0 <= i < variants.len() implies attrs_verdicts_fit(
                Scope::Variant,
                (#[trigger] variants[i]).attrs,
                accepting_variant_verdicts(input)[i],
            ) by {
                lemma_accepting_verdicts_fit(Scope::Variant, variants[i].attrs);
            }
        },
        _ => {},
    }
}

/// Derives the variants data struct of an enum: a struct with one field per
/// variant, in the order of the variants, and a payload type for each variant
/// that carries data.
///
/// For
///
/// ```text
/// pub enum MyEnum {
///     UnitEnum,
///     TupleEnum(i32, String),
///     StructEnum { id: u32, name: String },
/// }
/// ```
///
/// the result describes
///
/// ```text
/// pub struct MyEnumVariantsData {
///     pub unit_enum: (),
///     pub tuple_enum: TupleEnumPayloadType,
///     pub struct_enum: StructEnumPayloadType,
/// }
///
/// pub struct TupleEnumPayloadType(pub i32, pub String);
///
/// pub struct StructEnumPayloadType {
///     pub id: u32,
///     pub name: String,
/// }
/// ```
///
/// `variants_data_struct(...)` on the enum sets the struct's `name`, its
/// `vis`, its `attrs(...)` and the `variants_tys_attrs(...)` that every
/// payload type gets. `variants_data_struct_field(...)` on a variant sets the
/// field's `field_name`, `field_vis`, `field_attrs(...)` and
/// `field_ty_override`, says with `gen_variant_ty` whether the variant gets a
/// payload type, and sets the payload type's `variant_ty_name`,
/// `variant_ty_vis` and `variant_ty_attrs(...)`.
///
/// A fault comes with its place: the type definition, the enum's
/// configuration, or the first faulty variant, and within a configuration the
/// token at which the fault lies.
///
/// The host language is asked whether it takes the identifiers,
/// visibilities, types and annotations that the configurations give. The
/// result is what comes of the input under its verdicts, whatever they are.
pub fn derive_variants_data_struct(input: DeriveInput) -> (res: Result<
    VariantsDataStructDefs,
    Fault,
>)
    ensures
        exists|config_verdicts: Seq<bool>, variant_verdicts: Seq<Seq<bool>>|
            #[trigger] derive_verdicts_fit(input@, config_verdicts, variant_verdicts) && yields(
                res,
                derive_outcome(input@, config_verdicts, variant_verdicts),
            ),
{
    let ghost given = input@;
    let DeriveInput { attrs, vis, ident, generics, data } = input;
    let variants = match data {
        Data::Enum(variants) => variants,
        _ => {
            proof {
                let accepting = accepting_verdicts(Scope::TopLevel, given.attrs);
                lemma_accepting_verdicts_fit(Scope::TopLevel, given.attrs);
                lemma_accepting_variant_verdicts_fit(given, accepting);
            }
            return Err(
                Fault { error: ConfigError::UnsupportedInputShape, site: Site::Input, at: None },
            );
        },
    };

    let found = VariantsDataStructAttrMeta::from_attrs(attrs);
    let ghost config_verdicts = choose|verdicts: Seq<bool>|
        #[trigger] attrs_verdicts_fit(Scope::TopLevel, given.attrs, verdicts) && yields(
            found,
            attr_meta_from_attrs(given.attrs, verdicts),
        );
    let attr_meta = match found {
        Err(fault) => {
            proof {
                lemma_accepting_variant_verdicts_fit(given, config_verdicts);
            }
            return Err(fault.in_site(Site::Config));
        },
        Ok(Some(attr_meta)) => attr_meta,
        Ok(None) => VariantsDataStructAttrMeta::default(),
    };

    let VariantsDataStructMeta {
        attrs: variants_data_struct_attrs,
        vis: variants_data_struct_vis,
        name: variants_data_struct_name,
        variants_tys_attrs,
    } = VariantsDataStructMeta::resolve(attr_meta, &ident, &vis);

    let res = variants_data_struct_defs(
        variants_data_struct_attrs,
        variants_tys_attrs,
        variants_data_struct_vis,
        variants_data_struct_name,
        generics,
        variants,
    );
    proof {
        let meta = struct_meta_of(
            match attr_meta_from_attrs(given.attrs, config_verdicts)->Ok_0 {
                Some(attr_meta) => attr_meta,
                None => empty_attr_meta(),
            },
            given.ident,
            given.vis,
        );
        let variant_verdicts = choose|verdicts: Seq<Seq<bool>>|
            #[trigger] variants_verdicts_fit(given.data->Enum_0, verdicts) && yields(
                res,
                defs_of(
                    meta.attrs,
                    meta.variants_tys_attrs,
                    meta.vis,
                    meta.name,
                    given.generics,
                    given.data->Enum_0,
                    verdicts,
                ),
            );
        assert(derive_verdicts_fit(given, config_verdicts, variant_verdicts));
    }
    res
}

} // verus!
