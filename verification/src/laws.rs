//! What holds of every enum and every configuration, whatever the host
//! language says of the values in the configurations.

use crate::attr_args::{entries_of, EntryView};
use crate::config::{
    config_args, config_index_from, config_name, entry_fault, entry_is_judged, first_fault,
    first_fault_from, kind_of, verdicts_fit, Scope,
};
use crate::derive_outcome;
use crate::error::{fault_in, ConfigError, ConfigFault, Fault, Site};
use crate::schema::{
    field_count, DeriveInputView, FieldView, FieldsView, GenericsView, ItemStructView, TypeView,
    VariantView,
};
use crate::syntax::snake_case;
use crate::token::TokenView;
use crate::variants_data_struct_attr_meta::{attr_meta_from_attrs, empty_attr_meta};
use crate::variants_data_struct_defs::{
    defs_of, first_variant_fault_from, lemma_no_variant_fault, payloads_of, variant_data_of,
    variant_datas, VariantDataView, VariantsDataStructDefsView,
};
use crate::variants_data_struct_field_attr_meta::{
    empty_field_attr_meta, field_attr_meta_of, VariantsDataStructFieldAttrMetaView,
};
use crate::variants_data_struct_field_meta::{
    default_payload_name, field_meta_of, unit_type, VariantsDataStructFieldMetaView,
};
use crate::variants_data_struct_meta::struct_meta_of;
use vstd::prelude::*;

verus! {

/// What is written on a variant: what the entries of its configuration say,
/// and nothing where the variant has no configuration or its configuration
/// is no list of entries.
pub open spec fn written_on(variant: VariantView) -> VariantsDataStructFieldAttrMetaView {
    match config_index_from(variant.attrs, config_name(Scope::Variant), 0) {
        Some(i) => match config_args(variant.attrs[i]) {
            Some(args) => match entries_of(args) {
                Some(es) => field_attr_meta_of(es),
                None => empty_field_attr_meta(),
            },
            None => empty_field_attr_meta(),
        },
        None => empty_field_attr_meta(),
    }
}

/// Whether two shapes are of the same kind and have, field by field, the same
/// names, types and annotations. Visibilities are left out.
pub open spec fn same_fields_but_vis(a: FieldsView, b: FieldsView) -> bool {
    match (a, b) {
        (FieldsView::Named(x), FieldsView::Named(y)) => same_list_but_vis(x, y),
        (FieldsView::Unnamed(x), FieldsView::Unnamed(y)) => same_list_but_vis(x, y),
        (FieldsView::Unit, FieldsView::Unit) => true,
        _ => false,
    }
}

/// Whether two lists of fields have the same length and, field by field, the
/// same names, types and annotations.
pub open spec fn same_list_but_vis(x: Seq<FieldView>, y: Seq<FieldView>) -> bool {
    &&& x.len() == y.len()
    &&& forall|i: int|
        0 <= i < x.len() ==> {
            &&& (#[trigger] x[i]).ident == y[i].ident
            &&& x[i].ty == y[i].ty
            &&& x[i].attrs == y[i].attrs
        }
}

/// Whether every field of a shape has the visibility `vis`.
pub open spec fn all_fields_have_vis(fields: FieldsView, vis: Seq<TokenView>) -> bool {
    match fields {
        FieldsView::Named(fs) => forall|i: int| 0 <= i < fs.len() ==> (#[trigger] fs[i]).vis == vis,
        FieldsView::Unnamed(fs) => forall|i: int|
            0 <= i < fs.len() ==> (#[trigger] fs[i]).vis == vis,
        FieldsView::Unit => true,
    }
}

/// A variant without fields and without brackets gets no payload type, and
/// its field has the unit type, or the type that the configuration gives
/// outright, whatever else the configuration says, as long as it does not ask
/// for a payload type with `gen_variant_ty = true`.
pub proof fn lemma_empty_variant_gets_unit(
    attr_meta: VariantsDataStructFieldAttrMetaView,
    variants_tys_attrs: Seq<Seq<TokenView>>,
    variants_data_struct_vis: Seq<TokenView>,
    variant: VariantView,
    default_field_name: Seq<char>,
)
    requires
        variant.fields is Unit,
        attr_meta.gen_variant_ty != Some(true),
    ensures
        field_meta_of(
            attr_meta,
            variants_tys_attrs,
            variants_data_struct_vis,
            variant,
            default_field_name,
        ) is Ok,
        field_meta_of(
            attr_meta,
            variants_tys_attrs,
            variants_data_struct_vis,
            variant,
            default_field_name,
        )->Ok_0.variant_ty is None,
        field_meta_of(
            attr_meta,
            variants_tys_attrs,
            variants_data_struct_vis,
            variant,
            default_field_name,
        )->Ok_0.field_ty == match attr_meta.field_ty_override {
            Some(ty) => TypeView::Verbatim(ty),
            None => unit_type(),
        },
{
}

/// A field type that the configuration gives outright is the field's type,
/// whatever the variant's shape and whatever else is written.
pub proof fn lemma_override_wins(
    attr_meta: VariantsDataStructFieldAttrMetaView,
    variants_tys_attrs: Seq<Seq<TokenView>>,
    variants_data_struct_vis: Seq<TokenView>,
    variant: VariantView,
    default_field_name: Seq<char>,
)
    requires
        attr_meta.field_ty_override is Some,
    ensures
        field_meta_of(
            attr_meta,
            variants_tys_attrs,
            variants_data_struct_vis,
            variant,
            default_field_name,
        ) is Ok,
        field_meta_of(
            attr_meta,
            variants_tys_attrs,
            variants_data_struct_vis,
            variant,
            default_field_name,
        )->Ok_0.field_ty == TypeView::Verbatim(attr_meta.field_ty_override->Some_0),
        field_meta_of(
            attr_meta,
            variants_tys_attrs,
            variants_data_struct_vis,
            variant,
            default_field_name,
        )->Ok_0.variant_ty is Some <==> attr_meta.gen_variant_ty == Some(true),
{
}

/// A variant with at least one field and no configuration of its own gets a
/// payload type: it has the variant's fields, in order, with their names,
/// types and annotations, and the variant's field has the payload type as its
/// type.
pub proof fn lemma_unconfigured_variant_gets_payload(
    variants_tys_attrs: Seq<Seq<TokenView>>,
    variants_data_struct_vis: Seq<TokenView>,
    variant: VariantView,
    verdicts: Seq<bool>,
)
    requires
        field_count(variant.fields) >= 1,
        config_index_from(variant.attrs, config_name(Scope::Variant), 0) is None,
    ensures
        variant_data_of(variants_tys_attrs, variants_data_struct_vis, variant, verdicts) is Ok,
        variant_data_of(variants_tys_attrs, variants_data_struct_vis, variant, verdicts)->Ok_0.variant_ty_def is Some,
        ({
            let data = variant_data_of(variants_tys_attrs, variants_data_struct_vis, variant, verdicts)->Ok_0;
            let def = data.variant_ty_def->Some_0;
            &&& same_fields_but_vis(def.fields, variant.fields)
            &&& data.field.ty == TypeView::Path(def.ident)
            &&& def.ident == default_payload_name(variant.ident)
            &&& data.field.ident == snake_case(variant.ident)
        }),
{
}

/// The field of a variant is named as the configuration says, and by the
/// snake-case form of the variant's name where it says nothing.
pub proof fn lemma_field_name(
    variants_tys_attrs: Seq<Seq<TokenView>>,
    variants_data_struct_vis: Seq<TokenView>,
    variant: VariantView,
    verdicts: Seq<bool>,
)
    requires
        variant_data_of(variants_tys_attrs, variants_data_struct_vis, variant, verdicts) is Ok,
    ensures
        variant_data_of(variants_tys_attrs, variants_data_struct_vis, variant, verdicts)->Ok_0.field.ident == match written_on(variant).field_name {
            Some(name) => name,
            None => snake_case(variant.ident),
        },
{
}

/// The payload type of a variant is named as the configuration says, and
/// `<VariantName>PayloadType` where it says nothing.
pub proof fn lemma_payload_name(
    variants_tys_attrs: Seq<Seq<TokenView>>,
    variants_data_struct_vis: Seq<TokenView>,
    variant: VariantView,
    verdicts: Seq<bool>,
)
    requires
        variant_data_of(variants_tys_attrs, variants_data_struct_vis, variant, verdicts) is Ok,
        variant_data_of(variants_tys_attrs, variants_data_struct_vis, variant, verdicts)->Ok_0.variant_ty_def is Some,
    ensures
        variant_data_of(variants_tys_attrs, variants_data_struct_vis, variant, verdicts)->Ok_0.variant_ty_def->Some_0.ident == match written_on(variant).variant_ty_name {
            Some(name) => name,
            None => default_payload_name(variant.ident),
        },
{
}

/// A payload type carries the annotations that every payload type gets,
/// followed by those that the variant's configuration gives it; without any
/// of its own it carries the former alone.
pub proof fn lemma_payload_attrs(
    variants_tys_attrs: Seq<Seq<TokenView>>,
    variants_data_struct_vis: Seq<TokenView>,
    variant: VariantView,
    verdicts: Seq<bool>,
)
    requires
        variant_data_of(variants_tys_attrs, variants_data_struct_vis, variant, verdicts) is Ok,
        variant_data_of(variants_tys_attrs, variants_data_struct_vis, variant, verdicts)->Ok_0.variant_ty_def is Some,
    ensures
        variant_data_of(variants_tys_attrs, variants_data_struct_vis, variant, verdicts)->Ok_0.variant_ty_def->Some_0.attrs == variants_tys_attrs + written_on(
            variant,
        ).variant_ty_attrs,
        written_on(variant).variant_ty_attrs.len() == 0
            ==> variant_data_of(variants_tys_attrs, variants_data_struct_vis, variant, verdicts)->Ok_0.variant_ty_def->Some_0.attrs == variants_tys_attrs,
{
    assert(written_on(variant).variant_ty_attrs.len() == 0 ==> variants_tys_attrs + written_on(
        variant,
    ).variant_ty_attrs =~= variants_tys_attrs);
}

/// The field of a variant and its payload type have the visibility of the
/// variants data struct, each unless the variant's configuration gives it
/// another; the fields of the payload type have the payload type's
/// visibility. What one variant's configuration says reaches no other
/// variant: the outcome of a variant depends on that variant alone.
pub proof fn lemma_variant_visibility(
    variants_tys_attrs: Seq<Seq<TokenView>>,
    variants_data_struct_vis: Seq<TokenView>,
    variant: VariantView,
    verdicts: Seq<bool>,
)
    requires
        variant_data_of(variants_tys_attrs, variants_data_struct_vis, variant, verdicts) is Ok,
    ensures
        ({
            let data = variant_data_of(variants_tys_attrs, variants_data_struct_vis, variant, verdicts)->Ok_0;
            &&& data.field.vis == match written_on(variant).field_vis {
                Some(vis) => vis,
                None => variants_data_struct_vis,
            }
            &&& data.variant_ty_def is Some ==> {
                let def = data.variant_ty_def->Some_0;
                &&& def.vis == match written_on(variant).variant_ty_vis {
                    Some(vis) => vis,
                    None => variants_data_struct_vis,
                }
                &&& all_fields_have_vis(def.fields, def.vis)
            }
        }),
{
}

/// Whether the variants data struct has one field per variant, the field at
/// `i` being that of the variant at `i`.
pub open spec fn ordered_fields(datas: Seq<VariantDataView>, defs: VariantsDataStructDefsView) -> bool {
    &&& defs.derived_struct.fields.len() == datas.len()
    &&& forall|i: int|
        0 <= i < datas.len() ==> (#[trigger] defs.derived_struct.fields[i]) == datas[i].field
}

/// Whether the payload type `def`, which stands at `k` among the payload
/// types, is that of the variant at `i`: the variants before `i` have `k`
/// payload types between them.
pub open spec fn payload_origin(
    datas: Seq<VariantDataView>,
    k: int,
    def: ItemStructView,
    i: int,
) -> bool {
    &&& 0 <= i < datas.len()
    &&& payloads_of(datas.take(i)).len() == k
    &&& datas[i].variant_ty_def == Some(def)
}

/// Whether the payload type `def`, which stands at `k` among the payload
/// types, is that of some variant.
pub open spec fn has_origin(datas: Seq<VariantDataView>, k: int, def: ItemStructView) -> bool {
    exists|i: int| payload_origin(datas, k, def, i)
}

/// Whether every payload type is that of a variant, the one at `k` being that
/// of the variant before which `k` payload types were made.
pub open spec fn ordered_payloads(
    datas: Seq<VariantDataView>,
    defs: VariantsDataStructDefsView,
) -> bool {
    forall|k: int|
        0 <= k < defs.variant_type_structs.len() ==> has_origin(
            datas,
            k,
            #[trigger] defs.variant_type_structs[k],
        )
}

/// The payload type at `k` is that of one of the variants.
proof fn lemma_payload_origin(datas: Seq<VariantDataView>, k: int)
    requires
        0 <= k < payloads_of(datas).len(),
    ensures
        has_origin(datas, k, payloads_of(datas)[k]),
    decreases datas.len(),
{
    let before = datas.drop_last();
    let last = datas.len() - 1;
    if k < payloads_of(before).len() {
        lemma_payload_origin(before, k);
        let i = choose|i: int| payload_origin(before, k, payloads_of(before)[k], i);
        assert(datas.take(i) =~= before.take(i));
        assert(payload_origin(datas, k, payloads_of(datas)[k], i));
    } else {
        assert(datas.take(last) =~= before);
        assert(payload_origin(datas, k, payloads_of(datas)[k], last));
    }
}

/// The variants data struct has one field per variant, in the order of the
/// variants: the field at `i` is the field of the variant at `i`. Every
/// payload type is that of a variant, and a payload type of an earlier
/// variant stands before that of a later one.
pub proof fn lemma_order(
    attrs: Seq<Seq<TokenView>>,
    variants_tys_attrs: Seq<Seq<TokenView>>,
    variants_data_struct_vis: Seq<TokenView>,
    struct_name: Seq<char>,
    enum_generics: GenericsView,
    variants: Seq<VariantView>,
    verdicts: Seq<Seq<bool>>,
)
    requires
        defs_of(
            attrs,
            variants_tys_attrs,
            variants_data_struct_vis,
            struct_name,
            enum_generics,
            variants,
            verdicts,
        ) is Ok,
    ensures
        variant_datas(variants_tys_attrs, variants_data_struct_vis, variants, verdicts).len()
            == variants.len(),
        forall|i: int|
            0 <= i < variants.len() ==> variant_data_of(
                variants_tys_attrs,
                variants_data_struct_vis,
                #[trigger] variants[i],
                verdicts[i],
            ) == Ok::<VariantDataView, ConfigFault>(
                variant_datas(variants_tys_attrs, variants_data_struct_vis, variants, verdicts)[i],
            ),
        ordered_fields(
            variant_datas(variants_tys_attrs, variants_data_struct_vis, variants, verdicts),
            defs_of(
                attrs,
                variants_tys_attrs,
                variants_data_struct_vis,
                struct_name,
                enum_generics,
                variants,
                verdicts,
            )->Ok_0,
        ),
        ordered_payloads(
            variant_datas(variants_tys_attrs, variants_data_struct_vis, variants, verdicts),
            defs_of(
                attrs,
                variants_tys_attrs,
                variants_data_struct_vis,
                struct_name,
                enum_generics,
                variants,
                verdicts,
            )->Ok_0,
        ),
{
    let datas = variant_datas(variants_tys_attrs, variants_data_struct_vis, variants, verdicts);
    let defs = defs_of(
        attrs,
        variants_tys_attrs,
        variants_data_struct_vis,
        struct_name,
        enum_generics,
        variants,
        verdicts,
    )->Ok_0;
    lemma_no_variant_fault(variants_tys_attrs, variants_data_struct_vis, variants, verdicts, 0);
    assert forall|k: int| 0 <= k < defs.variant_type_structs.len() implies has_origin(
        datas,
        k,
        #[trigger] defs.variant_type_structs[k],
    ) by {
        lemma_payload_origin(datas, k);
    }
}

/// The visibility that the enum's configuration gives is that of the variants
/// data struct, and with it that of every field and every payload type whose
/// variant says nothing else; without one the enum's own visibility takes its
/// place. The name of the struct is the one given, or
/// `<EnumName>VariantsData`.
pub proof fn lemma_struct_visibility_and_name(
    input: DeriveInputView,
    config_verdicts: Seq<bool>,
    variant_verdicts: Seq<Seq<bool>>,
)
    requires
        derive_outcome(input, config_verdicts, variant_verdicts) is Ok,
    ensures
        input.data is Enum,
        attr_meta_from_attrs(input.attrs, config_verdicts) is Ok,
        ({
            let attr_meta = match attr_meta_from_attrs(input.attrs, config_verdicts)->Ok_0 {
                Some(attr_meta) => attr_meta,
                None => empty_attr_meta(),
            };
            let meta = struct_meta_of(attr_meta, input.ident, input.vis);
            let defs = derive_outcome(input, config_verdicts, variant_verdicts)->Ok_0;
            let variants = input.data->Enum_0;
            let datas = variant_datas(
                attr_meta.variants_tys_attrs,
                meta.vis,
                variants,
                variant_verdicts,
            );
            &&& meta.vis == match attr_meta.vis {
                Some(vis) => vis,
                None => input.vis,
            }
            &&& defs.derived_struct.vis == meta.vis
            &&& defs.derived_struct.ident == meta.name
            &&& defs.derived_struct.attrs == attr_meta.attrs
            &&& defs.derived_struct.generics == input.generics
            &&& defs.derived_struct.fields.len() == variants.len()
            &&& ordered_fields(datas, defs)
            &&& ordered_payloads(datas, defs)
            &&& forall|i: int|
                0 <= i < variants.len() && written_on(#[trigger] variants[i]).field_vis is None
                    ==> defs.derived_struct.fields[i].vis == meta.vis
            &&& forall|k: int, i: int|
                0 <= k < defs.variant_type_structs.len() && #[trigger] payload_origin(
                    datas,
                    k,
                    defs.variant_type_structs[k],
                    i,
                ) && written_on(variants[i]).variant_ty_vis is None
                    ==> defs.variant_type_structs[k].vis == meta.vis && all_fields_have_vis(
                    defs.variant_type_structs[k].fields,
                    meta.vis,
                )
        }),
{
    let attr_meta = match attr_meta_from_attrs(input.attrs, config_verdicts)->Ok_0 {
        Some(attr_meta) => attr_meta,
        None => empty_attr_meta(),
    };
    let meta = struct_meta_of(attr_meta, input.ident, input.vis);
    let variants = input.data->Enum_0;
    let defs = derive_outcome(input, config_verdicts, variant_verdicts)->Ok_0;
    let datas = variant_datas(attr_meta.variants_tys_attrs, meta.vis, variants, variant_verdicts);
    lemma_order(
        meta.attrs,
        meta.variants_tys_attrs,
        meta.vis,
        meta.name,
        input.generics,
        variants,
        variant_verdicts,
    );
    assert forall|i: int|
        0 <= i < variants.len() && written_on(#[trigger] variants[i]).field_vis is None implies
        defs.derived_struct.fields[i].vis == meta.vis by {
        lemma_variant_visibility(
            attr_meta.variants_tys_attrs,
            meta.vis,
            variants[i],
            variant_verdicts[i],
        );
    }
    assert forall|k: int, i: int|
        0 <= k < defs.variant_type_structs.len() && #[trigger] payload_origin(
            datas,
            k,
            defs.variant_type_structs[k],
            i,
        ) && written_on(variants[i]).variant_ty_vis is None implies defs.variant_type_structs[k].vis
        == meta.vis && all_fields_have_vis(defs.variant_type_structs[k].fields, meta.vis) by {
        assert(variant_data_of(
            attr_meta.variants_tys_attrs,
            meta.vis,
            variants[i],
            variant_verdicts[i],
        ) is Ok);
        lemma_variant_visibility(
            attr_meta.variants_tys_attrs,
            meta.vis,
            variants[i],
            variant_verdicts[i],
        );
    }
}

/// Named fields without a payload type and without a given type are a fault:
/// a variant with at least one named field whose configuration says
/// `gen_variant_ty = false` and gives no `field_ty_override` comes to
/// `AmbiguousFieldType`.
pub proof fn lemma_named_fields_need_a_type(
    attr_meta: VariantsDataStructFieldAttrMetaView,
    variants_tys_attrs: Seq<Seq<TokenView>>,
    variants_data_struct_vis: Seq<TokenView>,
    variant: VariantView,
    default_field_name: Seq<char>,
)
    requires
        variant.fields is Named,
        field_count(variant.fields) >= 1,
        attr_meta.gen_variant_ty == Some(false),
        attr_meta.field_ty_override is None,
    ensures
        field_meta_of(
            attr_meta,
            variants_tys_attrs,
            variants_data_struct_vis,
            variant,
            default_field_name,
        ) == Err::<VariantsDataStructFieldMetaView, ConfigError>(ConfigError::AmbiguousFieldType),
{
}

/// Where the entries before `i` have no fault, the fault of the entry at `i`
/// is the list's fault, and lies at the key of that entry.
pub proof fn lemma_first_fault(
    scope: Scope,
    es: Seq<EntryView>,
    verdicts: Seq<bool>,
    i: int,
)
    requires
        0 <= i < es.len(),
        forall|j: int| 0 <= j < i ==> entry_fault(scope, es, verdicts, j) is None,
        entry_fault(scope, es, verdicts, i) is Some,
    ensures
        first_fault(scope, es, verdicts) == Some(
            ConfigFault { error: entry_fault(scope, es, verdicts, i)->Some_0, at: Some(es[i].at) },
        ),
{
    lemma_first_fault_from(scope, es, verdicts, 0, i);
}

proof fn lemma_first_fault_from(
    scope: Scope,
    es: Seq<EntryView>,
    verdicts: Seq<bool>,
    from: int,
    i: int,
)
    requires
        0 <= from <= i < es.len(),
        forall|j: int| from <= j < i ==> entry_fault(scope, es, verdicts, j) is None,
        entry_fault(scope, es, verdicts, i) is Some,
    ensures
        first_fault_from(scope, es, verdicts, from) == Some(
            ConfigFault { error: entry_fault(scope, es, verdicts, i)->Some_0, at: Some(es[i].at) },
        ),
    decreases i - from,
{
    if from < i {
        lemma_first_fault_from(scope, es, verdicts, from + 1, i);
    }
}

/// The fault of a list rests on the host language's verdicts only where the
/// host language is asked: two lists of verdicts that can be its verdicts, and
/// are the same on every entry about which it is asked, give the same fault.
/// So the outcome of a list on which nothing is asked is fixed.
pub proof fn lemma_fault_rests_on_what_is_asked(
    scope: Scope,
    es: Seq<EntryView>,
    one: Seq<bool>,
    other: Seq<bool>,
)
    requires
        verdicts_fit(scope, es, one),
        verdicts_fit(scope, es, other),
        forall|i: int|
            0 <= i < es.len() && entry_is_judged(scope, #[trigger] es[i]) ==> one[i] == other[i],
    ensures
        first_fault(scope, es, one) == first_fault(scope, es, other),
{
    assert(one =~= other) by {
        assert forall|i: int| 0 <= i < es.len() implies one[i] == other[i] by {
            if !entry_is_judged(scope, es[i]) {
                assert(one[i] && other[i]);
            }
        }
    }
}

/// An entry with a key that its scope does not know makes the list an
/// `UnknownConfigKey` at that key, unless an entry before it has a fault.
pub proof fn lemma_unknown_key_is_rejected(
    scope: Scope,
    es: Seq<EntryView>,
    verdicts: Seq<bool>,
    i: int,
)
    requires
        0 <= i < es.len(),
        kind_of(scope, es[i].key) is None,
        forall|j: int| 0 <= j < i ==> entry_fault(scope, es, verdicts, j) is None,
    ensures
        first_fault(scope, es, verdicts) == Some(
            ConfigFault { error: ConfigError::UnknownConfigKey, at: Some(es[i].at) },
        ),
{
    lemma_first_fault(scope, es, verdicts, i);
}

/// A fault in the enum's configuration is the fault of the whole run, and a
/// type that is no enum is a fault before any configuration is read. Each
/// comes with its place.
pub proof fn lemma_faults_end_the_run(
    input: DeriveInputView,
    config_verdicts: Seq<bool>,
    variant_verdicts: Seq<Seq<bool>>,
)
    ensures
        !(input.data is Enum) ==> derive_outcome(input, config_verdicts, variant_verdicts) == Err::<
            VariantsDataStructDefsView,
            Fault,
        >(Fault { error: ConfigError::UnsupportedInputShape, site: Site::Input, at: None }),
        input.data is Enum && attr_meta_from_attrs(input.attrs, config_verdicts) is Err
            ==> derive_outcome(input, config_verdicts, variant_verdicts) == Err::<
            VariantsDataStructDefsView,
            Fault,
        >(fault_in(Site::Config, attr_meta_from_attrs(input.attrs, config_verdicts)->Err_0)),
{
}

/// A fault that lies in a variant is that of the first faulty variant: under
/// a sound configuration of the enum, the variants before the named one have
/// no fault, and the named one has the fault.
pub proof fn lemma_fault_names_first_faulty_variant(
    attrs: Seq<Seq<TokenView>>,
    variants_tys_attrs: Seq<Seq<TokenView>>,
    variants_data_struct_vis: Seq<TokenView>,
    struct_name: Seq<char>,
    enum_generics: GenericsView,
    variants: Seq<VariantView>,
    verdicts: Seq<Seq<bool>>,
)
    requires
        variants.len() <= usize::MAX,
        defs_of(
            attrs,
            variants_tys_attrs,
            variants_data_struct_vis,
            struct_name,
            enum_generics,
            variants,
            verdicts,
        ) is Err,
    ensures
        ({
            let fault = defs_of(
                attrs,
                variants_tys_attrs,
                variants_data_struct_vis,
                struct_name,
                enum_generics,
                variants,
                verdicts,
            )->Err_0;
            &&& fault.site is Variant
            &&& fault.site->Variant_0 < variants.len()
            &&& variant_data_of(
                variants_tys_attrs,
                variants_data_struct_vis,
                variants[fault.site->Variant_0 as int],
                verdicts[fault.site->Variant_0 as int],
            ) == Err::<VariantDataView, ConfigFault>(
                ConfigFault { error: fault.error, at: fault.at },
            )
            &&& forall|j: int|
                0 <= j < fault.site->Variant_0 ==> variant_data_of(
                    variants_tys_attrs,
                    variants_data_struct_vis,
                    #[trigger] variants[j],
                    verdicts[j],
                ) is Ok
        }),
{
    lemma_first_fault_site(variants_tys_attrs, variants_data_struct_vis, variants, verdicts, 0);
}

proof fn lemma_first_fault_site(
    variants_tys_attrs: Seq<Seq<TokenView>>,
    variants_data_struct_vis: Seq<TokenView>,
    variants: Seq<VariantView>,
    verdicts: Seq<Seq<bool>>,
    from: int,
)
    requires
        0 <= from,
        variants.len() <= usize::MAX,
        first_variant_fault_from(
            variants_tys_attrs,
            variants_data_struct_vis,
            variants,
            verdicts,
            from,
        ) is Some,
    ensures
        ({
            let fault = first_variant_fault_from(
                variants_tys_attrs,
                variants_data_struct_vis,
                variants,
                verdicts,
                from,
            )->Some_0;
            &&& fault.site is Variant
            &&& from <= fault.site->Variant_0 < variants.len()
            &&& variant_data_of(
                variants_tys_attrs,
                variants_data_struct_vis,
                variants[fault.site->Variant_0 as int],
                verdicts[fault.site->Variant_0 as int],
            ) == Err::<VariantDataView, ConfigFault>(
                ConfigFault { error: fault.error, at: fault.at },
            )
            &&& forall|j: int|
                from <= j < fault.site->Variant_0 ==> variant_data_of(
                    variants_tys_attrs,
                    variants_data_struct_vis,
                    #[trigger] variants[j],
                    verdicts[j],
                ) is Ok
        }),
    decreases variants.len() - from,
{
    if variant_data_of(
        variants_tys_attrs,
        variants_data_struct_vis,
        variants[from],
        verdicts[from],
    ) is Ok {
        lemma_first_fault_site(
            variants_tys_attrs,
            variants_data_struct_vis,
            variants,
            verdicts,
            from + 1,
        );
    }
}

} // verus!
