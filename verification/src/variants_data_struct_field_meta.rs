//! The configuration of one variant, with every default filled in: the field
//! that the variant gets in the variants data struct, and its payload type.

use crate::error::{yields, ConfigError};
use crate::schema::{
    clone_attrs, field_count, Attribute, Field, FieldView, Fields, FieldsView, ItemStruct,
    ItemStructView, Type, TypeView, Variant, VariantView, Visibility,
};
use crate::syntax::{snake_case, to_snake_case};
use crate::token::{clone_tokens, Token, TokenView};
use crate::variants_data_struct_field_attr_meta::{
    VariantsDataStructFieldAttrMeta, VariantsDataStructFieldAttrMetaView,
};
use vstd::prelude::*;

verus! {

/// What the payload type of a variant is to be.
#[derive(Debug, PartialEq, Eq)]
pub struct VariantTy {
    pub attrs: Vec<Attribute>,
    pub vis: Visibility,
    pub name: String,
}

/// The mathematical value of a [`VariantTy`].
pub struct VariantTyView {
    pub attrs: Seq<Seq<TokenView>>,
    pub vis: Seq<TokenView>,
    pub name: Seq<char>,
}

impl DeepView for VariantTy {
    type V = VariantTyView;

    open spec fn deep_view(&self) -> VariantTyView {
        VariantTyView { attrs: self.attrs.deep_view(), vis: self.vis@, name: self.name@ }
    }
}

impl View for VariantTy {
    type V = VariantTyView;

    open spec fn view(&self) -> VariantTyView {
        self.deep_view()
    }
}

/// What the field of a variant is to be, and its payload type if it gets one.
#[derive(Debug, PartialEq, Eq)]
pub struct VariantsDataStructFieldMeta {
    pub field_attrs: Vec<Attribute>,
    pub field_vis: Visibility,
    pub field_name: String,
    pub field_ty: Type,
    pub variant_ty: Option<VariantTy>,
}

/// The mathematical value of a [`VariantsDataStructFieldMeta`].
pub struct VariantsDataStructFieldMetaView {
    pub field_attrs: Seq<Seq<TokenView>>,
    pub field_vis: Seq<TokenView>,
    pub field_name: Seq<char>,
    pub field_ty: TypeView,
    pub variant_ty: Option<VariantTyView>,
}

impl DeepView for VariantsDataStructFieldMeta {
    type V = VariantsDataStructFieldMetaView;

    open spec fn deep_view(&self) -> VariantsDataStructFieldMetaView {
        VariantsDataStructFieldMetaView {
            field_attrs: self.field_attrs.deep_view(),
            field_vis: self.field_vis@,
            field_name: self.field_name@,
            field_ty: self.field_ty@,
            variant_ty: self.variant_ty.deep_view(),
        }
    }
}

impl View for VariantsDataStructFieldMeta {
    type V = VariantsDataStructFieldMetaView;

    open spec fn view(&self) -> VariantsDataStructFieldMetaView {
        self.deep_view()
    }
}

/// A field with its visibility replaced.
pub open spec fn field_with_vis(field: FieldView, vis: Seq<TokenView>) -> FieldView {
    FieldView { attrs: field.attrs, vis, ident: field.ident, ty: field.ty }
}

/// Fields with the visibility of each replaced; order, names, types and
/// annotations stay.
pub open spec fn fields_with_vis(fields: FieldsView, vis: Seq<TokenView>) -> FieldsView {
    match fields {
        FieldsView::Named(fs) => FieldsView::Named(
            Seq::new(fs.len(), |i: int| field_with_vis(fs[i], vis)),
        ),
        FieldsView::Unnamed(fs) => FieldsView::Unnamed(
            Seq::new(fs.len(), |i: int| field_with_vis(fs[i], vis)),
        ),
        FieldsView::Unit => FieldsView::Unit,
    }
}

/// The payload type that wraps `fields`: it has the shape of the variant, and
/// each of its fields has the payload type's own visibility.
pub open spec fn struct_def_of(ty: VariantTyView, fields: FieldsView) -> ItemStructView {
    ItemStructView {
        attrs: ty.attrs,
        vis: ty.vis,
        ident: ty.name,
        fields: fields_with_vis(fields, ty.vis),
    }
}

/// The name of the payload type of the variant `ident`, where the
/// configuration gives none: `<VariantName>PayloadType`.
pub open spec fn default_payload_name(ident: Seq<char>) -> Seq<char> {
    ident + "PayloadType"@
}

/// Whether the variant gets a payload type. What is written decides; else a
/// variant with a given field type gets none, and any other gets one exactly
/// if it has a field.
pub open spec fn generates_payload(
    attr_meta: VariantsDataStructFieldAttrMetaView,
    fields: FieldsView,
) -> bool {
    match attr_meta.gen_variant_ty {
        Some(wanted) => wanted,
        None => attr_meta.field_ty_override is None && field_count(fields) > 0,
    }
}

/// The payload type of the variant, before it is given its fields. Its
/// annotations are those that every payload type gets, followed by the
/// variant's own.
pub open spec fn variant_ty_of(
    attr_meta: VariantsDataStructFieldAttrMetaView,
    variants_tys_attrs: Seq<Seq<TokenView>>,
    variants_data_struct_vis: Seq<TokenView>,
    variant: VariantView,
) -> Option<VariantTyView> {
    if generates_payload(attr_meta, variant.fields) {
        Some(
            VariantTyView {
                attrs: variants_tys_attrs + attr_meta.variant_ty_attrs,
                vis: match attr_meta.variant_ty_vis {
                    Some(vis) => vis,
                    None => variants_data_struct_vis,
                },
                name: match attr_meta.variant_ty_name {
                    Some(name) => name,
                    None => default_payload_name(variant.ident),
                },
            },
        )
    } else {
        None
    }
}

/// The types of the fields, in order.
pub open spec fn field_types(fs: Seq<FieldView>) -> Seq<Seq<TokenView>> {
    Seq::new(fs.len(), |i: int| fs[i].ty)
}

/// The unit type.
pub open spec fn unit_type() -> TypeView {
    TypeView::Tuple(Seq::empty())
}

/// The type of the variant's field: the given type where one is given; else
/// the payload type where the variant gets one; else the unit type for a
/// variant without fields and the tuple of the field types for positional
/// fields. Named fields without payload type and without a given type have
/// no type: `AmbiguousFieldType`.
pub open spec fn field_ty_of(
    attr_meta: VariantsDataStructFieldAttrMetaView,
    variant_ty: Option<VariantTyView>,
    fields: FieldsView,
) -> Result<TypeView, ConfigError> {
    match attr_meta.field_ty_override {
        Some(ty) => Ok(TypeView::Verbatim(ty)),
        None => match variant_ty {
            Some(ty) => Ok(TypeView::Path(ty.name)),
            None => match fields {
                FieldsView::Unit => Ok(unit_type()),
                FieldsView::Unnamed(fs) => Ok(TypeView::Tuple(field_types(fs))),
                FieldsView::Named(fs) => if fs.len() == 0 {
                    Ok(unit_type())
                } else {
                    Err(ConfigError::AmbiguousFieldType)
                },
            },
        },
    }
}

/// The resolved configuration of a variant, given the field name that the
/// variant's name stands for. What is written wins; the field's visibility
/// falls back to that of the variants data struct, its name to
/// `default_field_name`.
pub open spec fn field_meta_of(
    attr_meta: VariantsDataStructFieldAttrMetaView,
    variants_tys_attrs: Seq<Seq<TokenView>>,
    variants_data_struct_vis: Seq<TokenView>,
    variant: VariantView,
    default_field_name: Seq<char>,
) -> Result<VariantsDataStructFieldMetaView, ConfigError> {
    let variant_ty = variant_ty_of(
        attr_meta,
        variants_tys_attrs,
        variants_data_struct_vis,
        variant,
    );
    match field_ty_of(attr_meta, variant_ty, variant.fields) {
        Err(fault) => Err(fault),
        Ok(field_ty) => Ok(
            VariantsDataStructFieldMetaView {
                field_attrs: attr_meta.field_attrs,
                field_vis: match attr_meta.field_vis {
                    Some(vis) => vis,
                    None => variants_data_struct_vis,
                },
                field_name: match attr_meta.field_name {
                    Some(name) => name,
                    None => default_field_name,
                },
                field_ty,
                variant_ty,
            },
        ),
    }
}

/// Sets the visibility of every field of the list.
fn set_visibility(fields: &mut Vec<Field>, vis: &Visibility)
    ensures
        final(fields).deep_view() == Seq::new(
            old(fields).deep_view().len(),
            |i: int| field_with_vis(old(fields).deep_view()[i], vis@),
        ),
{
    let ghost before = fields@;
    let mut i: usize = 0;
    while i < fields.len()
        invariant
            i <= fields.len(),
            fields.len() == before.len(),
            forall|j: int|
                0 <= j < i ==> (#[trigger] fields@[j]).deep_view() == field_with_vis(
                    before[j].deep_view(),
                    vis@,
                ),
            forall|j: int| i <= j < fields.len() ==> #[trigger] fields@[j] == before[j],
        decreases fields.len() - i,
    {
        fields[i].vis = vis.clone();
        i += 1;
    }
    assert(fields.deep_view() =~= Seq::new(
        old(fields).deep_view().len(),
        |i: int| field_with_vis(old(fields).deep_view()[i], vis@),
    ));
}

impl VariantTy {
    /// Makes the payload type that wraps `fields`. The fields keep their
    /// order, names, types and annotations; the visibility of each becomes
    /// that of the payload type.
    pub fn to_struct_def(self, fields: Fields) -> (res: ItemStruct)
        ensures
            res@ == struct_def_of(self@, fields@),
    {
        let VariantTy { attrs, vis, name } = self;
        let mut fields = fields;
        match &mut fields {
            Fields::Unit => (),
            Fields::Named(named_fields) => {
                set_visibility(named_fields, &vis);
            },
            Fields::Unnamed(unnamed_fields) => {
                set_visibility(unnamed_fields, &vis);
            },
        }
        ItemStruct { attrs, vis, ident: name, fields }
    }
}

/// Copies the types of the fields, in order.
fn collect_types(fields: &Vec<Field>) -> (res: Vec<Vec<Token>>)
    ensures
        res.deep_view() == field_types(fields.deep_view()),
{
    let mut res: Vec<Vec<Token>> = Vec::new();
    let mut i: usize = 0;
    while i < fields.len()
        invariant
            i <= fields.len(),
            res.len() == i,
            forall|j: int|
                0 <= j < i ==> (#[trigger] res@[j]).deep_view() == fields@[j].ty.deep_view(),
        decreases fields.len() - i,
    {
        res.push(clone_tokens(&fields[i].ty));
        i += 1;
    }
    assert(res.deep_view() =~= field_types(fields.deep_view()));
    res
}

/// The unit type.
fn unit() -> (res: Type)
    ensures
        res@ == unit_type(),
{
    let elems: Vec<Vec<Token>> = Vec::new();
    assert(elems.deep_view() =~= Seq::<Seq<TokenView>>::empty());
    Type::Tuple(elems)
}

impl VariantsDataStructFieldMeta {
    /// Fills in the defaults of a variant's configuration. The field's name,
    /// where none is written, is the variant's name in snake case.
    pub fn resolve(
        attr_meta: VariantsDataStructFieldAttrMeta,
        variants_tys_attrs: &Vec<Attribute>,
        variants_data_struct_vis: Visibility,
        variant: &Variant,
    ) -> (res: Result<VariantsDataStructFieldMeta, ConfigError>)
        ensures
            yields(
                res,
                field_meta_of(
                    attr_meta@,
                    variants_tys_attrs.deep_view(),
                    variants_data_struct_vis@,
                    variant@,
                    snake_case(variant.ident@),
                ),
            ),
    {
        let default_field_name = to_snake_case(variant.ident.as_str());
        Self::resolve_named(
            attr_meta,
            variants_tys_attrs,
            variants_data_struct_vis,
            variant,
            default_field_name,
        )
    }

    /// Fills in the defaults of a variant's configuration, given the field
    /// name that the variant's name stands for.
    pub fn resolve_named(
        attr_meta: VariantsDataStructFieldAttrMeta,
        variants_tys_attrs: &Vec<Attribute>,
        variants_data_struct_vis: Visibility,
        variant: &Variant,
        default_field_name: String,
    ) -> (res: Result<VariantsDataStructFieldMeta, ConfigError>)
        ensures
            yields(
                res,
                field_meta_of(
                    attr_meta@,
                    variants_tys_attrs.deep_view(),
                    variants_data_struct_vis@,
                    variant@,
                    default_field_name@,
                ),
            ),
    {
        let VariantsDataStructFieldAttrMeta {
            field_attrs,
            field_vis,
            field_name,
            field_ty_override,
            gen_variant_ty,
            variant_ty_attrs,
            variant_ty_vis,
            variant_ty_name,
        } = attr_meta;

        let field_vis = match field_vis {
            Some(vis) => vis,
            None => variants_data_struct_vis.clone(),
        };

        let field_name = match field_name {
            Some(name) => name,
            None => default_field_name,
        };

        let gen_variant_ty = match gen_variant_ty {
            Some(val) => val,
            None => field_ty_override.is_none() && variant.fields.len() > 0,
        };

        let variant_ty = if !gen_variant_ty {
            None
        } else {
            let mut attrs = clone_attrs(variants_tys_attrs);
            let mut own_attrs = variant_ty_attrs;
            attrs.append(&mut own_attrs);
            assert(attrs.deep_view() =~= variants_tys_attrs.deep_view()
                + attr_meta.variant_ty_attrs.deep_view());

            let variant_ty_vis = match variant_ty_vis {
                Some(vis) => vis,
                None => variants_data_struct_vis,
            };

            let variant_ty_name = match variant_ty_name {
                Some(name) => name,
                None => {
                    let mut name = variant.ident.clone();
                    name.append("PayloadType");
                    name
                },
            };

            Some(VariantTy { attrs, vis: variant_ty_vis, name: variant_ty_name })
        };

        let field_ty = match field_ty_override {
            Some(ty) => Type::Verbatim(ty),
            None => match &variant_ty {
                Some(variant_ty) => Type::Path(variant_ty.name.clone()),
                None => match &variant.fields {
                    Fields::Unit => unit(),
                    Fields::Named(named_fields) => {
                        if named_fields.len() > 0 {
                            return Err(ConfigError::AmbiguousFieldType);
                        }
                        unit()
                    },
                    Fields::Unnamed(unnamed_fields) => Type::Tuple(collect_types(unnamed_fields)),
                },
            },
        };

        Ok(VariantsDataStructFieldMeta { field_attrs, field_vis, field_name, field_ty, variant_ty })
    }
}

} // verus!
