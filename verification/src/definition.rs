//! The declaration of a record type as plain values: its name, its generic
//! parameters, its fields in order, and the attributes attached to the type
//! and to each field.

use vstd::prelude::*;

verus! {

/// One item of an attribute's list: a bare flag (`skip`) or a key with a
/// string value (`column = "full_name"`).
#[derive(Debug, Clone, PartialEq, Eq)]
pub struct Annotation {
    pub name: String,
    pub value: Option<String>,
}

pub struct AnnotationView {
    pub name: Seq<char>,
    pub value: Option<Seq<char>>,
}

impl View for Annotation {
    type V = AnnotationView;

    open spec fn view(&self) -> AnnotationView {
        AnnotationView {
            name: self.name@,
            value: match self.value {
                Some(v) => Some(v@),
                None => None,
            },
        }
    }
}

/// An attribute as written on a type or a field: the path that names it and
/// the items between its parentheses.
#[derive(Debug, Clone, PartialEq, Eq)]
pub struct Attribute {
    pub path: String,
    pub items: Vec<Annotation>,
}

pub struct AttributeView {
    pub path: Seq<char>,
    pub items: Seq<AnnotationView>,
}

/// The views of a sequence of annotations, in order.
pub open spec fn annotation_views(items: Seq<Annotation>) -> Seq<AnnotationView> {
    Seq::new(items.len(), |i: int| items[i]@)
}

impl View for Attribute {
    type V = AttributeView;

    open spec fn view(&self) -> AttributeView {
        AttributeView { path: self.path@, items: annotation_views(self.items@) }
    }
}

/// The views of a sequence of attributes, in order.
pub open spec fn attribute_views(attrs: Seq<Attribute>) -> Seq<AttributeView> {
    Seq::new(attrs.len(), |i: int| attrs[i]@)
}

/// A named field of a record type with the attributes written on it.
#[derive(Debug, Clone, PartialEq, Eq)]
pub struct FieldDefinition {
    pub ident: String,
    pub attrs: Vec<Attribute>,
}

pub struct FieldDefinitionView {
    pub ident: Seq<char>,
    pub attrs: Seq<AttributeView>,
}

impl View for FieldDefinition {
    type V = FieldDefinitionView;

    open spec fn view(&self) -> FieldDefinitionView {
        FieldDefinitionView { ident: self.ident@, attrs: attribute_views(self.attrs@) }
    }
}

/// The views of a sequence of fields, in order.
pub open spec fn field_views(fields: Seq<FieldDefinition>) -> Seq<FieldDefinitionView> {
    Seq::new(fields.len(), |i: int| fields[i]@)
}

/// What a generic record type asks of a type parameter.
#[derive(Debug, Clone, Copy, PartialEq, Eq, Structural)]
pub enum Capability {
    /// A value of the type can be handed to the storage engine.
    Encodable,
    /// A value of the type can be read from a column of the storage engine.
    Decodable,
    /// The type has a default value.
    HasDefault,
}

/// A generic parameter of a record type. Only type parameters carry
/// capability bounds.
#[derive(Debug, Clone, PartialEq, Eq)]
pub enum GenericParam {
    Type { name: String, bounds: Vec<Capability> },
    Lifetime { name: String },
    Const { name: String },
}

pub enum GenericParamView {
    Type { name: Seq<char>, bounds: Seq<Capability> },
    Lifetime { name: Seq<char> },
    Const { name: Seq<char> },
}

impl View for GenericParam {
    type V = GenericParamView;

    open spec fn view(&self) -> GenericParamView {
        match self {
            GenericParam::Type { name, bounds } => GenericParamView::Type {
                name: name@,
                bounds: bounds@,
            },
            GenericParam::Lifetime { name } => GenericParamView::Lifetime { name: name@ },
            GenericParam::Const { name } => GenericParamView::Const { name: name@ },
        }
    }
}

/// The views of a sequence of generic parameters, in order.
pub open spec fn generic_views(generics: Seq<GenericParam>) -> Seq<GenericParamView> {
    Seq::new(generics.len(), |i: int| generics[i]@)
}

/// The generic parameters with `bounds` added to those of every type
/// parameter. Lifetime and constant parameters are left as they are.
pub open spec fn bounded(generics: Seq<GenericParamView>, bounds: Seq<Capability>) -> Seq<
    GenericParamView,
> {
    Seq::new(
        generics.len(),
        |i: int|
            match generics[i] {
                GenericParamView::Type { name, bounds: own } => GenericParamView::Type {
                    name,
                    bounds: own + bounds,
                },
                other => other,
            },
    )
}

/// Copies the generic parameters of a type and adds `bounds` to those of
/// every type parameter.
pub fn add_trait_bounds(generics: &Vec<GenericParam>, bounds: &Vec<Capability>) -> (r: Vec<
    GenericParam,
>)
    ensures
        generic_views(r@) == bounded(generic_views(generics@), bounds@),
{
    let mut r: Vec<GenericParam> = Vec::new();
    let mut i: usize = 0;
    while i < generics.len()
        invariant
            i <= generics.len(),
            r@.len() == i,
            forall|k: int|
                0 <= k < i ==> (#[trigger] r@[k])@ == bounded(generic_views(generics@), bounds@)[k],
        decreases generics.len() - i,
    {
        let param = match &generics[i] {
            GenericParam::Type { name, bounds: own } => {
                let mut all: Vec<Capability> = Vec::new();
                let mut k: usize = 0;
                while k < own.len()
                    invariant
                        k <= own.len(),
                        all@ == own@.take(k as int),
                    decreases own.len() - k,
                {
                    all.push(own[k]);
                    assert(own@.take(k as int).push(own@[k as int]) =~= own@.take(k + 1));
                    k += 1;
                }
                assert(own@.take(own.len() as int) =~= own@);
                let mut k: usize = 0;
                while k < bounds.len()
                    invariant
                        k <= bounds.len(),
                        all@ == own@ + bounds@.take(k as int),
                    decreases bounds.len() - k,
                {
                    all.push(bounds[k]);
                    assert((own@ + bounds@.take(k as int)).push(bounds@[k as int]) =~= own@
                        + bounds@.take(k + 1));
                    k += 1;
                }
                assert(bounds@.take(bounds.len() as int) =~= bounds@);
                GenericParam::Type { name: name.clone(), bounds: all }
            },
            GenericParam::Lifetime { name } => GenericParam::Lifetime { name: name.clone() },
            GenericParam::Const { name } => GenericParam::Const { name: name.clone() },
        };
        assert(param@ == bounded(generic_views(generics@), bounds@)[i as int]);
        r.push(param);
        i += 1;
    }
    assert(generic_views(r@) =~= bounded(generic_views(generics@), bounds@));
    r
}

/// A record type as declared: a struct with named fields.
#[derive(Debug, Clone, PartialEq, Eq)]
pub struct TypeDefinition {
    pub ident: String,
    pub attrs: Vec<Attribute>,
    pub generics: Vec<GenericParam>,
    pub fields: Vec<FieldDefinition>,
}

pub struct TypeDefinitionView {
    pub ident: Seq<char>,
    pub attrs: Seq<AttributeView>,
    pub generics: Seq<GenericParamView>,
    pub fields: Seq<FieldDefinitionView>,
}

impl View for TypeDefinition {
    type V = TypeDefinitionView;

    open spec fn view(&self) -> TypeDefinitionView {
        TypeDefinitionView {
            ident: self.ident@,
            attrs: attribute_views(self.attrs@),
            generics: generic_views(self.generics@),
            fields: field_views(self.fields@),
        }
    }
}

} // verus!
