//! The data model: the enum that is read and the type descriptions that are
//! produced. Types, visibilities and annotations are held as the tokens they
//! were written with; nothing here looks inside them.

use crate::token::{clone_tokens, Token, TokenView};
use vstd::prelude::*;

verus! {

/// A visibility, as its tokens: `pub`, `pub ( crate )`, or none at all for a
/// private item.
#[derive(Debug, PartialEq, Eq)]
pub struct Visibility {
    pub tokens: Vec<Token>,
}

/// An annotation, as the tokens between `#[` and `]`.
#[derive(Debug, PartialEq, Eq)]
pub struct Attribute {
    pub tokens: Vec<Token>,
}

/// The generics of a type: the tokens between `<` and `>` behind its name, and
/// the tokens of its `where` clause.
#[derive(Debug, PartialEq, Eq)]
pub struct Generics {
    pub params: Vec<Token>,
    pub where_clause: Vec<Token>,
}

/// A field of a variant or of a payload type.
#[derive(Debug, PartialEq, Eq)]
pub struct Field {
    pub attrs: Vec<Attribute>,
    pub vis: Visibility,
    /// The field's name; `None` for a positional field.
    pub ident: Option<String>,
    /// The field's type, as written.
    pub ty: Vec<Token>,
}

/// The shape of a variant or of a payload type.
#[derive(Debug, PartialEq, Eq)]
pub enum Fields {
    /// `{ a: A, b: B }`
    Named(Vec<Field>),
    /// `(A, B)`
    Unnamed(Vec<Field>),
    /// No fields and no brackets.
    Unit,
}

/// One variant of the enum.
#[derive(Debug, PartialEq, Eq)]
pub struct Variant {
    pub attrs: Vec<Attribute>,
    pub ident: String,
    pub fields: Fields,
}

/// What kind of type the derive stands on.
#[derive(Debug, PartialEq, Eq)]
pub enum Data {
    Enum(Vec<Variant>),
    Struct,
    Union,
}

/// The type definition that is read.
#[derive(Debug, PartialEq, Eq)]
pub struct DeriveInput {
    pub attrs: Vec<Attribute>,
    pub vis: Visibility,
    pub ident: String,
    pub generics: Generics,
    pub data: Data,
}

/// The type of a field of the variants data struct.
#[derive(Debug, PartialEq, Eq)]
pub enum Type {
    /// The type named by one identifier: a payload type.
    Path(String),
    /// The tuple of the given types, in order; the unit type when there are
    /// none.
    Tuple(Vec<Vec<Token>>),
    /// A type as the configuration wrote it.
    Verbatim(Vec<Token>),
}

/// A payload type: a struct that wraps the fields of one variant. It has no
/// generics.
#[derive(Debug, PartialEq, Eq)]
pub struct ItemStruct {
    pub attrs: Vec<Attribute>,
    pub vis: Visibility,
    pub ident: String,
    pub fields: Fields,
}

/// A field of the variants data struct.
#[derive(Debug, PartialEq, Eq)]
pub struct DataField {
    pub attrs: Vec<Attribute>,
    pub vis: Visibility,
    pub ident: String,
    pub ty: Type,
}

/// The variants data struct: one named field per variant of the enum.
#[derive(Debug, PartialEq, Eq)]
pub struct DataStruct {
    pub attrs: Vec<Attribute>,
    pub vis: Visibility,
    pub ident: String,
    pub generics: Generics,
    pub fields: Vec<DataField>,
}

/// The mathematical value of a [`Generics`].
pub struct GenericsView {
    pub params: Seq<TokenView>,
    pub where_clause: Seq<TokenView>,
}

/// The mathematical value of a [`Field`].
pub struct FieldView {
    pub attrs: Seq<Seq<TokenView>>,
    pub vis: Seq<TokenView>,
    pub ident: Option<Seq<char>>,
    pub ty: Seq<TokenView>,
}

/// The mathematical value of a [`Fields`].
pub enum FieldsView {
    Named(Seq<FieldView>),
    Unnamed(Seq<FieldView>),
    Unit,
}

/// The mathematical value of a [`Variant`].
pub struct VariantView {
    pub attrs: Seq<Seq<TokenView>>,
    pub ident: Seq<char>,
    pub fields: FieldsView,
}

/// The mathematical value of a [`Data`].
pub enum DataView {
    Enum(Seq<VariantView>),
    Struct,
    Union,
}

/// The mathematical value of a [`DeriveInput`].
pub struct DeriveInputView {
    pub attrs: Seq<Seq<TokenView>>,
    pub vis: Seq<TokenView>,
    pub ident: Seq<char>,
    pub generics: GenericsView,
    pub data: DataView,
}

/// The mathematical value of a [`Type`].
pub enum TypeView {
    Path(Seq<char>),
    Tuple(Seq<Seq<TokenView>>),
    Verbatim(Seq<TokenView>),
}

/// The mathematical value of an [`ItemStruct`].
pub struct ItemStructView {
    pub attrs: Seq<Seq<TokenView>>,
    pub vis: Seq<TokenView>,
    pub ident: Seq<char>,
    pub fields: FieldsView,
}

/// The mathematical value of a [`DataField`].
pub struct DataFieldView {
    pub attrs: Seq<Seq<TokenView>>,
    pub vis: Seq<TokenView>,
    pub ident: Seq<char>,
    pub ty: TypeView,
}

/// The mathematical value of a [`DataStruct`].
pub struct DataStructView {
    pub attrs: Seq<Seq<TokenView>>,
    pub vis: Seq<TokenView>,
    pub ident: Seq<char>,
    pub generics: GenericsView,
    pub fields: Seq<DataFieldView>,
}

impl DeepView for Visibility {
    type V = Seq<TokenView>;

    open spec fn deep_view(&self) -> Seq<TokenView> {
        self.tokens.deep_view()
    }
}

impl View for Visibility {
    type V = Seq<TokenView>;

    open spec fn view(&self) -> Seq<TokenView> {
        self.deep_view()
    }
}

impl DeepView for Attribute {
    type V = Seq<TokenView>;

    open spec fn deep_view(&self) -> Seq<TokenView> {
        self.tokens.deep_view()
    }
}

impl View for Attribute {
    type V = Seq<TokenView>;

    open spec fn view(&self) -> Seq<TokenView> {
        self.deep_view()
    }
}

impl DeepView for Generics {
    type V = GenericsView;

    open spec fn deep_view(&self) -> GenericsView {
        GenericsView {
            params: self.params.deep_view(),
            where_clause: self.where_clause.deep_view(),
        }
    }
}

impl View for Generics {
    type V = GenericsView;

    open spec fn view(&self) -> GenericsView {
        self.deep_view()
    }
}

impl DeepView for Field {
    type V = FieldView;

    open spec fn deep_view(&self) -> FieldView {
        FieldView {
            attrs: self.attrs.deep_view(),
            vis: self.vis@,
            ident: self.ident.deep_view(),
            ty: self.ty.deep_view(),
        }
    }
}

impl View for Field {
    type V = FieldView;

    open spec fn view(&self) -> FieldView {
        self.deep_view()
    }
}

impl DeepView for Fields {
    type V = FieldsView;

    open spec fn deep_view(&self) -> FieldsView {
        match self {
            Fields::Named(fields) => FieldsView::Named(fields.deep_view()),
            Fields::Unnamed(fields) => FieldsView::Unnamed(fields.deep_view()),
            Fields::Unit => FieldsView::Unit,
        }
    }
}

impl View for Fields {
    type V = FieldsView;

    open spec fn view(&self) -> FieldsView {
        self.deep_view()
    }
}

impl DeepView for Variant {
    type V = VariantView;

    open spec fn deep_view(&self) -> VariantView {
        VariantView {
            attrs: self.attrs.deep_view(),
            ident: self.ident@,
            fields: self.fields@,
        }
    }
}

impl View for Variant {
    type V = VariantView;

    open spec fn view(&self) -> VariantView {
        self.deep_view()
    }
}

impl DeepView for Data {
    type V = DataView;

    open spec fn deep_view(&self) -> DataView {
        match self {
            Data::Enum(variants) => DataView::Enum(variants.deep_view()),
            Data::Struct => DataView::Struct,
            Data::Union => DataView::Union,
        }
    }
}

impl View for Data {
    type V = DataView;

    open spec fn view(&self) -> DataView {
        self.deep_view()
    }
}

impl DeepView for DeriveInput {
    type V = DeriveInputView;

    open spec fn deep_view(&self) -> DeriveInputView {
        DeriveInputView {
            attrs: self.attrs.deep_view(),
            vis: self.vis@,
            ident: self.ident@,
            generics: self.generics@,
            data: self.data@,
        }
    }
}

impl View for DeriveInput {
    type V = DeriveInputView;

    open spec fn view(&self) -> DeriveInputView {
        self.deep_view()
    }
}

impl DeepView for Type {
    type V = TypeView;

    open spec fn deep_view(&self) -> TypeView {
        match self {
            Type::Path(name) => TypeView::Path(name@),
            Type::Tuple(elems) => TypeView::Tuple(elems.deep_view()),
            Type::Verbatim(tokens) => TypeView::Verbatim(tokens.deep_view()),
        }
    }
}

impl View for Type {
    type V = TypeView;

    open spec fn view(&self) -> TypeView {
        self.deep_view()
    }
}

impl DeepView for ItemStruct {
    type V = ItemStructView;

    open spec fn deep_view(&self) -> ItemStructView {
        ItemStructView {
            attrs: self.attrs.deep_view(),
            vis: self.vis@,
            ident: self.ident@,
            fields: self.fields@,
        }
    }
}

impl View for ItemStruct {
    type V = ItemStructView;

    open spec fn view(&self) -> ItemStructView {
        self.deep_view()
    }
}

impl DeepView for DataField {
    type V = DataFieldView;

    open spec fn deep_view(&self) -> DataFieldView {
        DataFieldView { attrs: self.attrs.deep_view(), vis: self.vis@, ident: self.ident@, ty: self.ty@ }
    }
}

impl View for DataField {
    type V = DataFieldView;

    open spec fn view(&self) -> DataFieldView {
        self.deep_view()
    }
}

impl DeepView for DataStruct {
    type V = DataStructView;

    open spec fn deep_view(&self) -> DataStructView {
        DataStructView {
            attrs: self.attrs.deep_view(),
            vis: self.vis@,
            ident: self.ident@,
            generics: self.generics@,
            fields: self.fields.deep_view(),
        }
    }
}

impl View for DataStruct {
    type V = DataStructView;

    open spec fn view(&self) -> DataStructView {
        self.deep_view()
    }
}

impl Clone for Visibility {
    fn clone(&self) -> (res: Self)
        ensures
            res.deep_view() == self.deep_view(),
    {
        Visibility { tokens: clone_tokens(&self.tokens) }
    }
}

impl Clone for Attribute {
    fn clone(&self) -> (res: Self)
        ensures
            res.deep_view() == self.deep_view(),
    {
        Attribute { tokens: clone_tokens(&self.tokens) }
    }
}

impl Clone for Field {
    fn clone(&self) -> (res: Self)
        ensures
            res.deep_view() == self.deep_view(),
    {
        Field {
            attrs: clone_attrs(&self.attrs),
            vis: self.vis.clone(),
            ident: match &self.ident {
                Some(name) => Some(name.clone()),
                None => None,
            },
            ty: clone_tokens(&self.ty),
        }
    }
}

impl Clone for Fields {
    fn clone(&self) -> (res: Self)
        ensures
            res.deep_view() == self.deep_view(),
    {
        match self {
            Fields::Named(fields) => {
                let res = fields.clone();
                assert(res.deep_view() =~= fields.deep_view());
                Fields::Named(res)
            },
            Fields::Unnamed(fields) => {
                let res = fields.clone();
                assert(res.deep_view() =~= fields.deep_view());
                Fields::Unnamed(res)
            },
            Fields::Unit => Fields::Unit,
        }
    }
}

/// Copies a list of annotations.
pub fn clone_attrs(attrs: &Vec<Attribute>) -> (res: Vec<Attribute>)
    ensures
        res.deep_view() == attrs.deep_view(),
{
    let res = attrs.clone();
    assert(res.deep_view() =~= attrs.deep_view());
    res
}

/// The number of fields of a shape.
pub open spec fn field_count(fields: FieldsView) -> nat {
    match fields {
        FieldsView::Named(fs) => fs.len(),
        FieldsView::Unnamed(fs) => fs.len(),
        FieldsView::Unit => 0,
    }
}

impl Fields {
    /// The number of fields.
    pub fn len(&self) -> (n: usize)
        ensures
            n == field_count(self@),
    {
        match self {
            Fields::Named(fs) => fs.len(),
            Fields::Unnamed(fs) => fs.len(),
            Fields::Unit => 0,
        }
    }
}

} // verus!
