//! The plain-value model of the derive input: the declared structure, its
//! fields, the raw attached metadata, and the error taxonomy of the
//! generator.
//!
//! Every piece of text is carried as a byte vector; the mathematical model of
//! each type replaces byte vectors by byte sequences.

use vstd::prelude::*;

verus! {

// ---------------------------------------------------------------------------
// Raw metadata
// ---------------------------------------------------------------------------

/// One item of the recognized annotation group attached to the structure or
/// to a field.
#[derive(Debug)]
pub enum MetaItem {
    /// A bare flag word, such as `default` or `_internal`.
    Word(Vec<u8>),
    /// A key with a string-literal value, such as `name = "widget"`; the
    /// second component is the literal's contents.
    NameStr(Vec<u8>, Vec<u8>),
    /// A key with a literal of any other kind; the second component is the
    /// literal's source text.
    NameOther(Vec<u8>, Vec<u8>),
}

/// The mathematical model of a [`MetaItem`].
pub enum MetaItemV {
    Word(Seq<u8>),
    NameStr(Seq<u8>, Seq<u8>),
    NameOther(Seq<u8>, Seq<u8>),
}

impl View for MetaItem {
    type V = MetaItemV;

    open spec fn view(&self) -> MetaItemV {
        match self {
            MetaItem::Word(w) => MetaItemV::Word(w@),
            MetaItem::NameStr(k, v) => MetaItemV::NameStr(k@, v@),
            MetaItem::NameOther(k, v) => MetaItemV::NameOther(k@, v@),
        }
    }
}

/// The models of a sequence of annotation items.
pub open spec fn items_view(items: Seq<MetaItem>) -> Seq<MetaItemV> {
    items.map_values(|m: MetaItem| m@)
}

/// One raw attribute attached to the structure or to a field.
pub enum RawAttr {
    /// One documentation-comment line.
    Doc(Vec<u8>),
    /// The recognized annotation group, already split into its items.
    Graphql(Vec<MetaItem>),
    /// Any other attached attribute; not read by the generator.
    Other,
}

/// The mathematical model of a [`RawAttr`].
pub enum RawAttrV {
    Doc(Seq<u8>),
    Graphql(Seq<MetaItemV>),
    Other,
}

impl View for RawAttr {
    type V = RawAttrV;

    open spec fn view(&self) -> RawAttrV {
        match self {
            RawAttr::Doc(line) => RawAttrV::Doc(line@),
            RawAttr::Graphql(items) => RawAttrV::Graphql(items_view(items@)),
            RawAttr::Other => RawAttrV::Other,
        }
    }
}

/// The models of a sequence of raw attributes.
pub open spec fn attrs_view(attrs: Seq<RawAttr>) -> Seq<RawAttrV> {
    attrs.map_values(|a: RawAttr| a@)
}

// ---------------------------------------------------------------------------
// The declared structure
// ---------------------------------------------------------------------------

/// One declared field of the structure.
pub struct FieldInput {
    /// The declared field identifier.
    pub ident: Vec<u8>,
    /// The declared field type, as source text.
    pub ty: Vec<u8>,
    /// The raw attributes attached to the field.
    pub attrs: Vec<RawAttr>,
}

/// The mathematical model of a [`FieldInput`].
pub struct FieldInputV {
    pub ident: Seq<u8>,
    pub ty: Seq<u8>,
    pub attrs: Seq<RawAttrV>,
}

impl View for FieldInput {
    type V = FieldInputV;

    open spec fn view(&self) -> FieldInputV {
        FieldInputV { ident: self.ident@, ty: self.ty@, attrs: attrs_view(self.attrs@) }
    }
}

/// The models of a sequence of declared fields.
pub open spec fn fields_view(fields: Seq<FieldInput>) -> Seq<FieldInputV> {
    fields.map_values(|f: FieldInput| f@)
}

/// The shape of the declared type's body.
pub enum DataShape {
    /// A regular struct with named fields, the only supported shape.
    Named(Vec<FieldInput>),
    /// A tuple-style or unit struct.
    OtherStruct,
    /// Not a struct at all.
    NotStruct,
}

/// The mathematical model of a [`DataShape`].
pub enum DataShapeV {
    Named(Seq<FieldInputV>),
    OtherStruct,
    NotStruct,
}

impl View for DataShape {
    type V = DataShapeV;

    open spec fn view(&self) -> DataShapeV {
        match self {
            DataShape::Named(fields) => DataShapeV::Named(fields_view(fields@)),
            DataShape::OtherStruct => DataShapeV::OtherStruct,
            DataShape::NotStruct => DataShapeV::NotStruct,
        }
    }
}

/// The declared structure handed to the generator: identifier, generic
/// parameters as source text (empty when there are none), attached
/// attributes, and the shape of the body.
pub struct StructInput {
    pub ident: Vec<u8>,
    pub generics: Vec<u8>,
    pub attrs: Vec<RawAttr>,
    pub data: DataShape,
}

/// The mathematical model of a [`StructInput`].
pub struct StructInputV {
    pub ident: Seq<u8>,
    pub generics: Seq<u8>,
    pub attrs: Seq<RawAttrV>,
    pub data: DataShapeV,
}

impl View for StructInput {
    type V = StructInputV;

    open spec fn view(&self) -> StructInputV {
        StructInputV {
            ident: self.ident@,
            generics: self.generics@,
            attrs: attrs_view(self.attrs@),
            data: self.data@,
        }
    }
}

// ---------------------------------------------------------------------------
// Errors
// ---------------------------------------------------------------------------

/// The generator's error taxonomy. Every error aborts the whole invocation:
/// no partial output is ever produced.
#[derive(Debug)]
pub enum GenError {
    /// The derive target is not a struct.
    NotAStruct,
    /// The derive target is a struct without named fields.
    NotNamedFields,
    /// An annotation item matches no recognized key or flag; carries the
    /// offending item.
    UnknownAttribute(MetaItem),
    /// A name override fails the identifier grammar; carries the override.
    InvalidName(Vec<u8>),
    /// A recognized key carries a literal of the wrong kind; carries the
    /// offending item.
    ExpectedStringValue(MetaItem),
    /// A default expression string does not parse as an expression.
    MalformedDefaultExpr,
}

/// The mathematical model of a [`GenError`].
pub enum GenErrorV {
    NotAStruct,
    NotNamedFields,
    UnknownAttribute(MetaItemV),
    InvalidName(Seq<u8>),
    ExpectedStringValue(MetaItemV),
    MalformedDefaultExpr,
}

impl View for GenError {
    type V = GenErrorV;

    open spec fn view(&self) -> GenErrorV {
        match self {
            GenError::NotAStruct => GenErrorV::NotAStruct,
            GenError::NotNamedFields => GenErrorV::NotNamedFields,
            GenError::UnknownAttribute(item) => GenErrorV::UnknownAttribute(item@),
            GenError::InvalidName(name) => GenErrorV::InvalidName(name@),
            GenError::ExpectedStringValue(item) => GenErrorV::ExpectedStringValue(item@),
            GenError::MalformedDefaultExpr => GenErrorV::MalformedDefaultExpr,
        }
    }
}

/// The model of a generator result: views on both sides.
pub open spec fn result_view<T: View, E: View>(r: Result<T, E>) -> Result<T::V, E::V> {
    match r {
        Ok(t) => Ok(t@),
        Err(e) => Err(e@),
    }
}

/// The model of an optional byte vector.
pub open spec fn opt_view(o: Option<Vec<u8>>) -> Option<Seq<u8>> {
    match o {
        Some(v) => Some(v@),
        None => None,
    }
}

} // verus!
