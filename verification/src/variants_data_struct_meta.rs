//! The configuration of the variants data struct, with every default filled
//! in.

use crate::schema::{Attribute, Visibility};
use crate::token::TokenView;
use crate::variants_data_struct_attr_meta::{
    VariantsDataStructAttrMeta, VariantsDataStructAttrMetaView,
};
use vstd::prelude::*;

verus! {

/// What the variants data struct is to be.
#[derive(Debug, PartialEq, Eq)]
pub struct VariantsDataStructMeta {
    /// The annotations of the variants data struct.
    pub attrs: Vec<Attribute>,
    /// The visibility of the variants data struct.
    pub vis: Visibility,
    /// The name of the variants data struct.
    pub name: String,
    /// The annotations that every payload type gets.
    pub variants_tys_attrs: Vec<Attribute>,
}

/// The mathematical value of a [`VariantsDataStructMeta`].
pub struct VariantsDataStructMetaView {
    pub attrs: Seq<Seq<TokenView>>,
    pub vis: Seq<TokenView>,
    pub name: Seq<char>,
    pub variants_tys_attrs: Seq<Seq<TokenView>>,
}

impl DeepView for VariantsDataStructMeta {
    type V = VariantsDataStructMetaView;

    open spec fn deep_view(&self) -> VariantsDataStructMetaView {
        VariantsDataStructMetaView {
            attrs: self.attrs.deep_view(),
            vis: self.vis@,
            name: self.name@,
            variants_tys_attrs: self.variants_tys_attrs.deep_view(),
        }
    }
}

impl View for VariantsDataStructMeta {
    type V = VariantsDataStructMetaView;

    open spec fn view(&self) -> VariantsDataStructMetaView {
        self.deep_view()
    }
}

/// The name of the variants data struct of the enum `enum_ident`, where the
/// configuration gives none: `<EnumName>VariantsData`.
pub open spec fn default_struct_name(enum_ident: Seq<char>) -> Seq<char> {
    enum_ident + "VariantsData"@
}

/// The resolved configuration: what is written wins; the visibility falls
/// back to that of the enum, the name to `<EnumName>VariantsData`.
pub open spec fn struct_meta_of(
    attr_meta: VariantsDataStructAttrMetaView,
    enum_ident: Seq<char>,
    enum_vis: Seq<TokenView>,
) -> VariantsDataStructMetaView {
    VariantsDataStructMetaView {
        attrs: attr_meta.attrs,
        vis: match attr_meta.vis {
            Some(vis) => vis,
            None => enum_vis,
        },
        name: match attr_meta.name {
            Some(name) => name,
            None => default_struct_name(enum_ident),
        },
        variants_tys_attrs: attr_meta.variants_tys_attrs,
    }
}

impl VariantsDataStructMeta {
    /// Fills in the defaults of the enum's configuration.
    pub fn resolve(
        attr_meta: VariantsDataStructAttrMeta,
        enum_ident: &String,
        enum_vis: &Visibility,
    ) -> (res: VariantsDataStructMeta)
        ensures
            res@ == struct_meta_of(attr_meta@, enum_ident@, enum_vis@),
    {
        let VariantsDataStructAttrMeta { attrs, vis, name, variants_tys_attrs } = attr_meta;

        let vis = match vis {
            Some(vis) => vis,
            None => enum_vis.clone(),
        };

        let name = match name {
            Some(name) => name,
            None => {
                let mut name = enum_ident.clone();
                name.append("VariantsData");
                name
            },
        };

        VariantsDataStructMeta { attrs, vis, name, variants_tys_attrs }
    }
}

} // verus!
