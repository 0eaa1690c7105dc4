//! The assembly: one field per variant, in the order of the variants, and
//! the payload types of the variants that get one, in the same order.

use crate::config::{accepting_verdicts, attrs_verdicts_fit, lemma_accepting_verdicts_fit, Scope};
use crate::error::{fault_in, yields, ConfigFault, Fault, Site};
use crate::schema::{
    Attribute, DataField, DataFieldView, DataStruct, DataStructView, Generics, GenericsView,
    ItemStruct, ItemStructView, Type, Variant, VariantView, Visibility,
};
use crate::syntax::snake_case;
use crate::token::TokenView;
use crate::variants_data_struct_field_attr_meta::{
    empty_field_attr_meta, field_attr_meta_from_attrs, VariantsDataStructFieldAttrMeta,
};
use crate::variants_data_struct_field_meta::{
    field_meta_of, struct_def_of, VariantsDataStructFieldMeta,
};
use vstd::prelude::*;

verus! {

/// What is produced: the variants data struct and the payload types.
#[derive(Debug, PartialEq, Eq)]
pub struct VariantsDataStructDefs {
    pub derived_struct: DataStruct,
    pub variant_type_structs: Vec<ItemStruct>,
}

/// The mathematical value of a [`VariantsDataStructDefs`].
pub struct VariantsDataStructDefsView {
    pub derived_struct: DataStructView,
    pub variant_type_structs: Seq<ItemStructView>,
}

impl DeepView for VariantsDataStructDefs {
    type V = VariantsDataStructDefsView;

    open spec fn deep_view(&self) -> VariantsDataStructDefsView {
        VariantsDataStructDefsView {
            derived_struct: self.derived_struct@,
            variant_type_structs: self.variant_type_structs.deep_view(),
        }
    }
}

impl View for VariantsDataStructDefs {
    type V = VariantsDataStructDefsView;

    open spec fn view(&self) -> VariantsDataStructDefsView {
        self.deep_view()
    }
}

/// What one variant contributes: its field, and its payload type if it gets
/// one.
pub struct VariantDataView {
    pub field: DataFieldView,
    pub variant_ty_def: Option<ItemStructView>,
}

/// What comes of one variant, given the host language's verdicts on the
/// entries of its configuration: the fault of its configuration, or the field
/// and the payload type that its resolved configuration describes.
pub open spec fn variant_data_of(
    variants_tys_attrs: Seq<Seq<TokenView>>,
    variants_data_struct_vis: Seq<TokenView>,
    variant: VariantView,
    verdicts: Seq<bool>,
) -> Result<VariantDataView, ConfigFault> {
    match field_attr_meta_from_attrs(variant.attrs, verdicts) {
        Err(fault) => Err(fault),
        Ok(found) => {
            let attr_meta = match found {
                Some(attr_meta) => attr_meta,
                None => empty_field_attr_meta(),
            };
            match field_meta_of(
                attr_meta,
                variants_tys_attrs,
                variants_data_struct_vis,
                variant,
                snake_case(variant.ident),
            ) {
                Err(error) => Err(ConfigFault { error, at: None }),
                Ok(meta) => Ok(
                    VariantDataView {
                        field: DataFieldView {
                            attrs: meta.field_attrs,
                            vis: meta.field_vis,
                            ident: meta.field_name,
                            ty: meta.field_ty,
                        },
                        variant_ty_def: match meta.variant_ty {
                            Some(variant_ty) => Some(struct_def_of(variant_ty, variant.fields)),
                            None => None,
                        },
                    },
                ),
            }
        },
    }
}

/// Whether `verdicts` can be the host language's verdicts on the
/// configurations of the variants: one list for each variant, which can be
/// the verdicts on that variant's configuration.
pub open spec fn variants_verdicts_fit(variants: Seq<VariantView>, verdicts: Seq<Seq<bool>>) -> bool {
    &&& verdicts.len() == variants.len()
    &&& forall|i: int|
        0 <= i < variants.len() ==> attrs_verdicts_fit(
            Scope::Variant,
            (#[trigger] variants[i]).attrs,
            verdicts[i],
        )
}

/// A fault of the variant at `i`, with its place.
pub open spec fn fault_at(fault: ConfigFault, i: int) -> Fault {
    fault_in(Site::Variant(i as usize), fault)
}

/// The fault of the first variant from `i` on that has one, with its place.
pub open spec fn first_variant_fault_from(
    variants_tys_attrs: Seq<Seq<TokenView>>,
    variants_data_struct_vis: Seq<TokenView>,
    variants: Seq<VariantView>,
    verdicts: Seq<Seq<bool>>,
    i: int,
) -> Option<Fault>
    decreases variants.len() - i,
{
    if i < 0 || i >= variants.len() {
        None
    } else {
        match variant_data_of(
            variants_tys_attrs,
            variants_data_struct_vis,
            variants[i],
            verdicts[i],
        ) {
            Err(fault) => Some(fault_at(fault, i)),
            Ok(_) => first_variant_fault_from(
                variants_tys_attrs,
                variants_data_struct_vis,
                variants,
                verdicts,
                i + 1,
            ),
        }
    }
}

/// What the variants contribute, each at its index.
pub open spec fn variant_datas(
    variants_tys_attrs: Seq<Seq<TokenView>>,
    variants_data_struct_vis: Seq<TokenView>,
    variants: Seq<VariantView>,
    verdicts: Seq<Seq<bool>>,
) -> Seq<VariantDataView> {
    Seq::new(
        variants.len(),
        |i: int|
            variant_data_of(
                variants_tys_attrs,
                variants_data_struct_vis,
                variants[i],
                verdicts[i],
            )->Ok_0,
    )
}

/// The fields that the variants contribute, in the order of the variants.
pub open spec fn fields_of(datas: Seq<VariantDataView>) -> Seq<DataFieldView> {
    Seq::new(datas.len(), |i: int| datas[i].field)
}

/// The payload types that the variants contribute, in the order of the
/// variants.
pub open spec fn payloads_of(datas: Seq<VariantDataView>) -> Seq<ItemStructView>
    decreases datas.len(),
{
    if datas.len() == 0 {
        Seq::empty()
    } else {
        let before = payloads_of(datas.drop_last());
        match datas.last().variant_ty_def {
            Some(def) => before.push(def),
            None => before,
        }
    }
}

/// What is produced for an enum with the given resolved configuration,
/// generics and variants, given the host language's verdicts on the
/// configurations of the variants: the fault of the first faulty variant,
/// with the variant's index as its place; else the variants data struct with the field of each variant, in the order
/// of the variants, and the payload types, in the same order.
pub open spec fn defs_of(
    attrs: Seq<Seq<TokenView>>,
    variants_tys_attrs: Seq<Seq<TokenView>>,
    variants_data_struct_vis: Seq<TokenView>,
    struct_name: Seq<char>,
    enum_generics: GenericsView,
    variants: Seq<VariantView>,
    verdicts: Seq<Seq<bool>>,
) -> Result<VariantsDataStructDefsView, Fault> {
    let datas = variant_datas(variants_tys_attrs, variants_data_struct_vis, variants, verdicts);
    match first_variant_fault_from(
        variants_tys_attrs,
        variants_data_struct_vis,
        variants,
        verdicts,
        0,
    ) {
        Some(fault) => Err(fault),
        None => Ok(
            VariantsDataStructDefsView {
                derived_struct: DataStructView {
                    attrs,
                    vis: variants_data_struct_vis,
                    ident: struct_name,
                    generics: enum_generics,
                    fields: fields_of(datas),
                },
                variant_type_structs: payloads_of(datas),
            },
        ),
    }
}

/// Where the variants from `from` up to `i` have no fault, the fault of the
/// variant at `i` is the first from `from` on.
pub proof fn lemma_first_variant_fault(
    variants_tys_attrs: Seq<Seq<TokenView>>,
    variants_data_struct_vis: Seq<TokenView>,
    variants: Seq<VariantView>,
    verdicts: Seq<Seq<bool>>,
    from: int,
    i: int,
)
    requires
        0 <= from <= i < variants.len(),
        forall|j: int|
            from <= j < i ==> variant_data_of(
                variants_tys_attrs,
                variants_data_struct_vis,
                #[trigger] variants[j],
                verdicts[j],
            ) is Ok,
        variant_data_of(
            variants_tys_attrs,
            variants_data_struct_vis,
            variants[i],
            verdicts[i],
        ) is Err,
    ensures
        first_variant_fault_from(
            variants_tys_attrs,
            variants_data_struct_vis,
            variants,
            verdicts,
            from,
        ) == Some(
            fault_at(
                variant_data_of(
                    variants_tys_attrs,
                    variants_data_struct_vis,
                    variants[i],
                    verdicts[i],
                )->Err_0,
                i,
            ),
        ),
    decreases i - from,
{
    if from < i {
        assert(variant_data_of(
            variants_tys_attrs,
            variants_data_struct_vis,
            variants[from],
            verdicts[from],
        ) is Ok);
        lemma_first_variant_fault(
            variants_tys_attrs,
            variants_data_struct_vis,
            variants,
            verdicts,
            from + 1,
            i,
        );
    }
}

/// No fault is found from `from` on exactly where no variant from `from` on
/// has one.
pub proof fn lemma_no_variant_fault(
    variants_tys_attrs: Seq<Seq<TokenView>>,
    variants_data_struct_vis: Seq<TokenView>,
    variants: Seq<VariantView>,
    verdicts: Seq<Seq<bool>>,
    from: int,
)
    requires
        0 <= from,
    ensures
        first_variant_fault_from(
            variants_tys_attrs,
            variants_data_struct_vis,
            variants,
            verdicts,
            from,
        ) is None <==> forall|j: int|
            from <= j < variants.len() ==> variant_data_of(
                variants_tys_attrs,
                variants_data_struct_vis,
                #[trigger] variants[j],
                verdicts[j],
            ) is Ok,
    decreases variants.len() - from,
{
    if from < variants.len() {
        lemma_no_variant_fault(
            variants_tys_attrs,
            variants_data_struct_vis,
            variants,
            verdicts,
            from + 1,
        );
        if variant_data_of(
            variants_tys_attrs,
            variants_data_struct_vis,
            variants[from],
            verdicts[from],
        ) is Ok {
            assert forall|j: int| from <= j < variants.len() && (forall|k: int|
                from + 1 <= k < variants.len() ==> variant_data_of(
                    variants_tys_attrs,
                    variants_data_struct_vis,
                    #[trigger] variants[k],
                    verdicts[k],
                ) is Ok) implies variant_data_of(
                variants_tys_attrs,
                variants_data_struct_vis,
                #[trigger] variants[j],
                verdicts[j],
            ) is Ok by {}
        }
    }
}

/// The verdicts on the variants before `i`, the verdicts `at` on the variant
/// at `i`, and verdicts that accept every entry of the variants behind it.
pub open spec fn verdicts_up_to(
    variants: Seq<VariantView>,
    before: Seq<Seq<bool>>,
    i: int,
    at: Seq<bool>,
) -> Seq<Seq<bool>> {
    Seq::new(
        variants.len(),
        |j: int|
            if j < i {
                before[j]
            } else if j == i {
                at
            } else {
                accepting_verdicts(Scope::Variant, variants[j].attrs)
            },
    )
}

/// A fault of the variant at `i`, behind variants without fault, is the fault
/// of the whole under verdicts that can be the host language's.
proof fn lemma_fault_at(
    variants_tys_attrs: Seq<Seq<TokenView>>,
    variants_data_struct_vis: Seq<TokenView>,
    variants: Seq<VariantView>,
    before: Seq<Seq<bool>>,
    i: int,
    at: Seq<bool>,
)
    requires
        0 <= i < variants.len(),
        before.len() == i,
        forall|j: int|
            0 <= j < i ==> attrs_verdicts_fit(
                Scope::Variant,
                (#[trigger] variants[j]).attrs,
                before[j],
            ) && variant_data_of(
                variants_tys_attrs,
                variants_data_struct_vis,
                variants[j],
                before[j],
            ) is Ok,
        attrs_verdicts_fit(Scope::Variant, variants[i].attrs, at),
        variant_data_of(variants_tys_attrs, variants_data_struct_vis, variants[i], at) is Err,
    ensures
        variants_verdicts_fit(variants, verdicts_up_to(variants, before, i, at)),
        first_variant_fault_from(
            variants_tys_attrs,
            variants_data_struct_vis,
            variants,
            verdicts_up_to(variants, before, i, at),
            0,
        ) == Some(
            fault_at(
                variant_data_of(
                    variants_tys_attrs,
                    variants_data_struct_vis,
                    variants[i],
                    at,
                )->Err_0,
                i,
            ),
        ),
{
    let w = verdicts_up_to(variants, before, i, at);
    assert forall|j: int| 0 <= j < variants.len() implies attrs_verdicts_fit(
        Scope::Variant,
        (#[trigger] variants[j]).attrs,
        w[j],
    ) by {
        if j > i {
            lemma_accepting_verdicts_fit(Scope::Variant, variants[j].attrs);
        }
    }
    lemma_first_variant_fault(variants_tys_attrs, variants_data_struct_vis, variants, w, 0, i);
}

/// Makes a field of the variants data struct.
pub fn variants_data_struct_field(
    attrs: Vec<Attribute>,
    vis: Visibility,
    ident: String,
    ty: Type,
) -> (res: DataField)
    ensures
        res@ == (DataFieldView { attrs: attrs.deep_view(), vis: vis@, ident: ident@, ty: ty@ }),
{
    DataField { attrs, vis, ident, ty }
}

/// Makes the variants data struct and the payload types of an enum, from its
/// resolved configuration, its generics and its variants. Each variant's own
/// configuration is read from the variant's annotations, and the host
/// language is asked about the values in it: the result is what comes of the
/// variants under its verdicts, whatever they are. The first faulty variant
/// ends the run, and the fault names it.
pub fn variants_data_struct_defs(
    attrs: Vec<Attribute>,
    variants_tys_attrs: Vec<Attribute>,
    variants_data_struct_vis: Visibility,
    struct_name: String,
    enum_generics: Generics,
    variants: Vec<Variant>,
) -> (res: Result<VariantsDataStructDefs, Fault>)
    ensures
        exists|verdicts: Seq<Seq<bool>>|
            #[trigger] variants_verdicts_fit(variants.deep_view(), verdicts) && yields(
                res,
                defs_of(
                    attrs.deep_view(),
                    variants_tys_attrs.deep_view(),
                    variants_data_struct_vis@,
                    struct_name@,
                    enum_generics@,
                    variants.deep_view(),
                    verdicts,
                ),
            ),
{
    let ghost tys = variants_tys_attrs.deep_view();
    let ghost vis = variants_data_struct_vis@;
    let ghost vs = variants.deep_view();
    let ghost mut verdicts: Seq<Seq<bool>> = Seq::empty();
    let ghost mut datas: Seq<VariantDataView> = Seq::empty();
    let mut variant_ty_defs: Vec<ItemStruct> = Vec::new();
    let mut struct_fields: Vec<DataField> = Vec::new();
    assert(variant_ty_defs.deep_view() =~= payloads_of(datas));

    let mut i: usize = 0;
    while i < variants.len()
        invariant
            i <= variants.len(),
            tys == variants_tys_attrs.deep_view(),
            vis == variants_data_struct_vis@,
            vs == variants.deep_view(),
            verdicts.len() == i,
            datas.len() == i,
            forall|j: int|
                0 <= j < i ==> attrs_verdicts_fit(
                    Scope::Variant,
                    (#[trigger] vs[j]).attrs,
                    verdicts[j],
                ) && variant_data_of(tys, vis, vs[j], verdicts[j]) == Ok::<
                    VariantDataView,
                    ConfigFault,
                >(datas[j]),
            struct_fields.len() == i,
            forall|j: int|
                0 <= j < i ==> (#[trigger] struct_fields@[j]).deep_view() == datas[j].field,
            variant_ty_defs.deep_view() == payloads_of(datas),
        decreases variants.len() - i,
    {
        let variant = &variants[i];
        assert(vs[i as int] == variant@);

        let parsed = VariantsDataStructFieldAttrMeta::from_attrs(&variant.attrs);
        let ghost at = choose|at: Seq<bool>|
            #[trigger] attrs_verdicts_fit(Scope::Variant, variant.attrs.deep_view(), at) && yields(
                parsed,
                field_attr_meta_from_attrs(variant.attrs.deep_view(), at),
            );
        let attr_meta = match parsed {
            Err(fault) => {
                proof {
                    lemma_fault_at(tys, vis, vs, verdicts, i as int, at);
                }
                return Err(fault.in_site(Site::Variant(i)));
            },
            Ok(Some(attr_meta)) => attr_meta,
            Ok(None) => VariantsDataStructFieldAttrMeta::default(),
        };

        let meta = match VariantsDataStructFieldMeta::resolve(
            attr_meta,
            &variants_tys_attrs,
            variants_data_struct_vis.clone(),
            variant,
        ) {
            Err(fault) => {
                proof {
                    lemma_fault_at(tys, vis, vs, verdicts, i as int, at);
                }
                return Err(Fault { error: fault, site: Site::Variant(i), at: None });
            },
            Ok(meta) => meta,
        };
        let VariantsDataStructFieldMeta { field_attrs, field_vis, field_name, field_ty, variant_ty } =
            meta;

        let ghost data = variant_data_of(tys, vis, vs[i as int], at)->Ok_0;
        let ghost defs_before = variant_ty_defs.deep_view();
        match variant_ty {
            Some(variant_ty) => {
                let def = variant_ty.to_struct_def(variant.fields.clone());
                let ghost d = def@;
                variant_ty_defs.push(def);
                assert(variant_ty_defs.deep_view() =~= defs_before.push(d));
            },
            None => {},
        }

        let field = variants_data_struct_field(field_attrs, field_vis, field_name, field_ty);
        struct_fields.push(field);
        proof {
            assert(datas.push(data).drop_last() =~= datas);
            datas = datas.push(data);
            verdicts = verdicts.push(at);
        }
        i += 1;
    }

    proof {
        assert forall|j: int| 0 <= j < vs.len() implies variant_data_of(
            tys,
            vis,
            #[trigger] vs[j],
            verdicts[j],
        ) is Ok by {}
        lemma_no_variant_fault(tys, vis, vs, verdicts, 0);
        assert(first_variant_fault_from(tys, vis, vs, verdicts, 0) is None);
        assert(datas =~= variant_datas(tys, vis, vs, verdicts));
        assert(struct_fields.deep_view() =~= fields_of(datas));
        assert(variants_verdicts_fit(vs, verdicts));
    }
    let derived_struct = DataStruct {
        attrs,
        vis: variants_data_struct_vis,
        ident: struct_name,
        generics: enum_generics,
        fields: struct_fields,
    };

    Ok(VariantsDataStructDefs { derived_struct, variant_type_structs: variant_ty_defs })
}

} // verus!
