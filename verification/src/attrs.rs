//! The attribute parser and the structure- and field-level attribute
//! resolvers.
//!
//! A raw attribute list is scanned once, left to right. Documentation
//! comments seed the description; the recognized annotation group may then
//! override the name and description and set the flags. Any item of the
//! group that matches no recognized key or flag is a fatal error.

use vstd::prelude::*;

use crate::model::{
    GenError, GenErrorV, MetaItem, MetaItemV, RawAttr, RawAttrV, StructInput, FieldInput,
    attrs_view, items_view, opt_view, result_view,
};
use crate::text::{
    bytes_eq, clone_bytes, is_valid_name, is_valid_name_spec, key_default, key_default_vec,
    key_description, key_description_vec, key_name, key_name_vec, word_internal,
    word_internal_vec,
};

verus! {

// ---------------------------------------------------------------------------
// Documentation comments
// ---------------------------------------------------------------------------

/// Whether the attribute list holds at least one documentation-comment line.
pub open spec fn has_doc(attrs: Seq<RawAttrV>) -> bool
    decreases attrs.len(),
{
    if attrs.len() == 0 {
        false
    } else {
        attrs[0] is Doc || has_doc(attrs.drop_first())
    }
}

/// The concatenation of all documentation-comment lines, separated by a
/// newline; `sep` says whether a line was already taken.
pub open spec fn doc_concat(attrs: Seq<RawAttrV>, sep: bool) -> Seq<u8>
    decreases attrs.len(),
{
    if attrs.len() == 0 {
        Seq::empty()
    } else {
        match attrs[0] {
            RawAttrV::Doc(line) => (if sep {
                seq!['\n' as u8]
            } else {
                Seq::empty()
            }) + line + doc_concat(attrs.drop_first(), true),
            _ => doc_concat(attrs.drop_first(), sep),
        }
    }
}

/// The description drawn from documentation comments: the joined lines, or
/// nothing when no documentation comment is attached.
pub open spec fn doc_comment_spec(attrs: Seq<RawAttrV>) -> Option<Seq<u8>> {
    if has_doc(attrs) {
        Some(doc_concat(attrs, false))
    } else {
        None
    }
}

/// Joins all documentation-comment lines attached to an item into one
/// description, separated by newlines; absent when there are none.
pub fn get_doc_comment(attrs: &Vec<RawAttr>) -> (r: Option<Vec<u8>>)
    ensures
        opt_view(r) == doc_comment_spec(attrs_view(attrs@)),
{
    let ghost av = attrs_view(attrs@);
    let mut out: Vec<u8> = Vec::new();
    let mut any: bool = false;
    let mut i: usize = 0;
    proof {
        assert(av.skip(0) =~= av);
        assert(Seq::<u8>::empty() + doc_concat(av, false) =~= doc_concat(av, false));
    }
    while i < attrs.len()
        invariant
            0 <= i <= attrs@.len(),
            av == attrs_view(attrs@),
            av.len() == attrs@.len(),
            doc_concat(av, false) == out@ + doc_concat(av.skip(i as int), any),
            has_doc(av) == (any || has_doc(av.skip(i as int))),
        decreases attrs@.len() - i,
    {
        proof {
            assert(av[i as int] == attrs@[i as int]@);
            assert(av.skip(i as int)[0] == av[i as int]);
            assert(av.skip(i as int).drop_first() =~= av.skip(i as int + 1));
        }
        let ghost pre = out@;
        let ghost pre_any = any;
        match &attrs[i] {
            RawAttr::Doc(line) => {
                if any {
                    out.push('\n' as u8);
                }
                crate::text::append_bytes(&mut out, line);
                any = true;
                proof {
                    if pre_any {
                        assert(out@ =~= pre + (seq!['\n' as u8] + line@));
                        assert(out@ + doc_concat(av.skip(i as int + 1), true) =~= pre + ((seq![
                            '\n' as u8,
                        ] + line@) + doc_concat(av.skip(i as int + 1), true)));
                    } else {
                        assert(out@ =~= pre + (Seq::<u8>::empty() + line@));
                        assert(out@ + doc_concat(av.skip(i as int + 1), true) =~= pre + ((Seq::<
                            u8,
                        >::empty() + line@) + doc_concat(av.skip(i as int + 1), true)));
                    }
                }
            },
            _ => {},
        }
        i = i + 1;
    }
    proof {
        assert(av.skip(av.len() as int) =~= Seq::<RawAttrV>::empty());
        assert(out@ + Seq::<u8>::empty() =~= out@);
    }
    if any {
        Some(out)
    } else {
        None
    }
}

// ---------------------------------------------------------------------------
// The annotation group
// ---------------------------------------------------------------------------

/// The items of the first recognized annotation group in the attribute list,
/// or nothing when no group is attached.
pub open spec fn graphql_items_spec(attrs: Seq<RawAttrV>) -> Option<Seq<MetaItemV>>
    decreases attrs.len(),
{
    if attrs.len() == 0 {
        None
    } else {
        match attrs[0] {
            RawAttrV::Graphql(items) => Some(items),
            _ => graphql_items_spec(attrs.drop_first()),
        }
    }
}

/// Locates the single recognized annotation group among the raw attributes;
/// absent when none is present.
pub fn get_graphql_attr(attrs: &Vec<RawAttr>) -> (r: Option<&Vec<MetaItem>>)
    ensures
        match r {
            Some(items) => graphql_items_spec(attrs_view(attrs@)) == Some(items_view(items@)),
            None => graphql_items_spec(attrs_view(attrs@)) is None,
        },
{
    let ghost av = attrs_view(attrs@);
    let mut i: usize = 0;
    proof {
        assert(av.skip(0) =~= av);
    }
    while i < attrs.len()
        invariant
            0 <= i <= attrs@.len(),
            av == attrs_view(attrs@),
            av.len() == attrs@.len(),
            graphql_items_spec(av) == graphql_items_spec(av.skip(i as int)),
        decreases attrs@.len() - i,
    {
        proof {
            assert(av[i as int] == attrs@[i as int]@);
            assert(av.skip(i as int)[0] == av[i as int]);
            assert(av.skip(i as int).drop_first() =~= av.skip(i as int + 1));
        }
        match &attrs[i] {
            RawAttr::Graphql(items) => {
                return Some(items);
            },
            _ => {},
        }
        i = i + 1;
    }
    proof {
        assert(av.skip(av.len() as int) =~= Seq::<RawAttrV>::empty());
    }
    None
}

// ---------------------------------------------------------------------------
// Keyed item values
// ---------------------------------------------------------------------------

/// The expected value kind of a recognized key.
pub enum AttributeValidation {
    /// Any literal is accepted; its source text is taken.
    Any,
    /// Only a string literal is accepted.
    Str,
}

/// A typed attribute value drawn from one annotation item.
pub enum AttributeValue {
    /// The contents of the matched value, as bytes.
    Str(Vec<u8>),
}

/// The mathematical model of an [`AttributeValue`].
pub enum AttributeValueV {
    Str(Seq<u8>),
}

impl View for AttributeValue {
    type V = AttributeValueV;

    open spec fn view(&self) -> AttributeValueV {
        match self {
            AttributeValue::Str(v) => AttributeValueV::Str(v@),
        }
    }
}

/// The model of a keyed-item lookup result.
pub open spec fn keyed_view(r: Result<Option<AttributeValue>, GenError>) -> Result<
    Option<AttributeValueV>,
    GenErrorV,
> {
    match r {
        Ok(Some(v)) => Ok(Some(v@)),
        Ok(None) => Ok(None),
        Err(e) => Err(e@),
    }
}

/// What matching one item against an expected key and value kind yields: the
/// value when the key matches and the literal kind agrees, nothing when the
/// key does not match, and a fatal error when the key matches but the
/// literal kind disagrees with the expected kind. A bare flag word never
/// matches a keyed lookup.
pub open spec fn keyed_item_value_spec(
    item: MetaItemV,
    key: Seq<u8>,
    validation: AttributeValidation,
) -> Result<Option<AttributeValueV>, GenErrorV> {
    match item {
        MetaItemV::Word(_) => Ok(None),
        MetaItemV::NameStr(k, v) => if k == key {
            Ok(Some(AttributeValueV::Str(v)))
        } else {
            Ok(None)
        },
        MetaItemV::NameOther(k, v) => if k == key {
            match validation {
                AttributeValidation::Any => Ok(Some(AttributeValueV::Str(v))),
                AttributeValidation::Str => Err(GenErrorV::ExpectedStringValue(item)),
            }
        } else {
            Ok(None)
        },
    }
}

/// A fresh copy of one annotation item.
pub fn clone_meta_item(item: &MetaItem) -> (r: MetaItem)
    ensures
        r@ == item@,
{
    match item {
        MetaItem::Word(w) => MetaItem::Word(clone_bytes(w)),
        MetaItem::NameStr(k, v) => MetaItem::NameStr(clone_bytes(k), clone_bytes(v)),
        MetaItem::NameOther(k, v) => MetaItem::NameOther(clone_bytes(k), clone_bytes(v)),
    }
}

/// Matches one annotation item against an expected key and value kind.
pub fn keyed_item_value(item: &MetaItem, key: &Vec<u8>, validation: AttributeValidation) -> (r:
    Result<Option<AttributeValue>, GenError>)
    ensures
        keyed_view(r) == keyed_item_value_spec(item@, key@, validation),
{
    match item {
        MetaItem::Word(_) => Ok(None),
        MetaItem::NameStr(k, v) => {
            if bytes_eq(k, key) {
                Ok(Some(AttributeValue::Str(clone_bytes(v))))
            } else {
                Ok(None)
            }
        },
        MetaItem::NameOther(k, v) => {
            if bytes_eq(k, key) {
                match validation {
                    AttributeValidation::Any => Ok(Some(AttributeValue::Str(clone_bytes(v)))),
                    AttributeValidation::Str => Err(
                        GenError::ExpectedStringValue(clone_meta_item(item)),
                    ),
                }
            } else {
                Ok(None)
            }
        },
    }
}

// ---------------------------------------------------------------------------
// Structure-level attributes
// ---------------------------------------------------------------------------

/// The resolved structure-level attributes: an optional name override, an
/// optional description, and the internal-visibility flag.
pub struct ObjAttrs {
    pub name: Option<Vec<u8>>,
    pub description: Option<Vec<u8>>,
    pub internal: bool,
}

/// The mathematical model of [`ObjAttrs`].
pub struct ObjAttrsV {
    pub name: Option<Seq<u8>>,
    pub description: Option<Seq<u8>>,
    pub internal: bool,
}

impl View for ObjAttrs {
    type V = ObjAttrsV;

    open spec fn view(&self) -> ObjAttrsV {
        ObjAttrsV {
            name: opt_view(self.name),
            description: opt_view(self.description),
            internal: self.internal,
        }
    }
}

/// What one annotation item does to the structure-level attributes: a valid
/// `name` override is stored and an invalid one is a fatal error, a
/// `description` value overwrites the description, the bare `_internal` flag
/// is set, and anything else is a fatal unknown-attribute error.
pub open spec fn step_struct(acc: ObjAttrsV, item: MetaItemV) -> Result<ObjAttrsV, GenErrorV> {
    match keyed_item_value_spec(item, key_name(), AttributeValidation::Str) {
        Err(e) => Err(e),
        Ok(Some(AttributeValueV::Str(v))) => if is_valid_name_spec(v) {
            Ok(ObjAttrsV { name: Some(v), description: acc.description, internal: acc.internal })
        } else {
            Err(GenErrorV::InvalidName(v))
        },
        Ok(None) => match keyed_item_value_spec(item, key_description(), AttributeValidation::Str) {
            Err(e) => Err(e),
            Ok(Some(AttributeValueV::Str(v))) => Ok(
                ObjAttrsV { name: acc.name, description: Some(v), internal: acc.internal },
            ),
            Ok(None) => match item {
                MetaItemV::Word(w) => if w == word_internal() {
                    Ok(ObjAttrsV { name: acc.name, description: acc.description, internal: true })
                } else {
                    Err(GenErrorV::UnknownAttribute(item))
                },
                _ => Err(GenErrorV::UnknownAttribute(item)),
            },
        },
    }
}

/// The left-to-right scan of the annotation items over the structure-level
/// attributes, stopping at the first fatal error.
pub open spec fn scan_struct_items(acc: ObjAttrsV, items: Seq<MetaItemV>) -> Result<
    ObjAttrsV,
    GenErrorV,
>
    decreases items.len(),
{
    if items.len() == 0 {
        Ok(acc)
    } else {
        match step_struct(acc, items[0]) {
            Ok(a) => scan_struct_items(a, items.drop_first()),
            Err(e) => Err(e),
        }
    }
}

/// The structure-level attributes before the annotation group is scanned:
/// the description is seeded from documentation comments.
pub open spec fn seed_struct_attrs(attrs: Seq<RawAttrV>) -> ObjAttrsV {
    ObjAttrsV { name: None, description: doc_comment_spec(attrs), internal: false }
}

/// The resolved structure-level attributes of an attribute list: the seed
/// when no annotation group is attached, else the scan of the group's items.
pub open spec fn resolve_struct_attrs_spec(attrs: Seq<RawAttrV>) -> Result<ObjAttrsV, GenErrorV> {
    match graphql_items_spec(attrs) {
        Some(items) => scan_struct_items(seed_struct_attrs(attrs), items),
        None => Ok(seed_struct_attrs(attrs)),
    }
}

fn step_struct_attrs(acc: ObjAttrs, item: &MetaItem) -> (r: Result<ObjAttrs, GenError>)
    ensures
        result_view(r) == step_struct(acc@, item@),
{
    let key = key_name_vec();
    match keyed_item_value(item, &key, AttributeValidation::Str) {
        Err(e) => {
            return Err(e);
        },
        Ok(Some(AttributeValue::Str(val))) => {
            if is_valid_name(&val) {
                let mut a = acc;
                a.name = Some(val);
                return Ok(a);
            } else {
                return Err(GenError::InvalidName(val));
            }
        },
        Ok(None) => {},
    }
    let key = key_description_vec();
    match keyed_item_value(item, &key, AttributeValidation::Str) {
        Err(e) => {
            return Err(e);
        },
        Ok(Some(AttributeValue::Str(val))) => {
            let mut a = acc;
            a.description = Some(val);
            return Ok(a);
        },
        Ok(None) => {},
    }
    match item {
        MetaItem::Word(w) => {
            let iw = word_internal_vec();
            if bytes_eq(w, &iw) {
                let mut a = acc;
                a.internal = true;
                return Ok(a);
            }
        },
        _ => {},
    }
    Err(GenError::UnknownAttribute(clone_meta_item(item)))
}

impl ObjAttrs {
    /// Resolves the structure-level attributes of the declaration:
    /// documentation comments seed the description, then the annotation
    /// group's items are scanned in order, any unrecognized item being a
    /// fatal error.
    pub fn from_input(input: &StructInput) -> (r: Result<ObjAttrs, GenError>)
        ensures
            result_view(r) == resolve_struct_attrs_spec(attrs_view(input.attrs@)),
    {
        let ghost av = attrs_view(input.attrs@);
        let description = get_doc_comment(&input.attrs);
        let mut res = ObjAttrs { name: None, description, internal: false };
        let ghost seed = res@;
        proof {
            assert(seed == seed_struct_attrs(av));
        }
        let items_opt = get_graphql_attr(&input.attrs);
        let items = match items_opt {
            None => {
                return Ok(res);
            },
            Some(items) => items,
        };
        let ghost iv = items_view(items@);
        let mut i: usize = 0;
        proof {
            assert(iv.skip(0) =~= iv);
        }
        while i < items.len()
            invariant
                0 <= i <= items@.len(),
                av == attrs_view(input.attrs@),
                iv == items_view(items@),
                iv.len() == items@.len(),
                graphql_items_spec(av) == Some(iv),
                seed == seed_struct_attrs(av),
                scan_struct_items(seed, iv) == scan_struct_items(res@, iv.skip(i as int)),
            decreases items@.len() - i,
        {
            proof {
                assert(iv[i as int] == items@[i as int]@);
                assert(iv.skip(i as int)[0] == iv[i as int]);
                assert(iv.skip(i as int).drop_first() =~= iv.skip(i as int + 1));
            }
            let ghost pre = res@;
            res = match step_struct_attrs(res, &items[i]) {
                Ok(a) => a,
                Err(e) => {
                    proof {
                        assert(step_struct(pre, iv.skip(i as int)[0]) == Err::<ObjAttrsV,
                            GenErrorV,
                        >(e@));
                        assert(scan_struct_items(pre, iv.skip(i as int)) == Err::<ObjAttrsV,
                            GenErrorV,
                        >(e@));
                    }
                    return Err(e);
                },
            };
            i = i + 1;
        }
        proof {
            assert(iv.skip(iv.len() as int) =~= Seq::<MetaItemV>::empty());
        }
        Ok(res)
    }
}

// ---------------------------------------------------------------------------
// Field-level attributes
// ---------------------------------------------------------------------------

/// The resolved field-level attributes: an optional name override, an
/// optional description, the bare default flag, and an optional default
/// expression string.
pub struct ObjFieldAttrs {
    pub name: Option<Vec<u8>>,
    pub description: Option<Vec<u8>>,
    pub default: bool,
    pub default_expr: Option<Vec<u8>>,
}

/// The mathematical model of [`ObjFieldAttrs`].
pub struct ObjFieldAttrsV {
    pub name: Option<Seq<u8>>,
    pub description: Option<Seq<u8>>,
    pub default: bool,
    pub default_expr: Option<Seq<u8>>,
}

impl View for ObjFieldAttrs {
    type V = ObjFieldAttrsV;

    open spec fn view(&self) -> ObjFieldAttrsV {
        ObjFieldAttrsV {
            name: opt_view(self.name),
            description: opt_view(self.description),
            default: self.default,
            default_expr: opt_view(self.default_expr),
        }
    }
}

/// What one annotation item does to the field-level attributes: as at the
/// structure level, except that `default` with a value of any literal kind
/// stores a default expression string and the bare `default` flag sets the
/// default-trait policy.
pub open spec fn step_field(acc: ObjFieldAttrsV, item: MetaItemV) -> Result<
    ObjFieldAttrsV,
    GenErrorV,
> {
    match keyed_item_value_spec(item, key_name(), AttributeValidation::Str) {
        Err(e) => Err(e),
        Ok(Some(AttributeValueV::Str(v))) => if is_valid_name_spec(v) {
            Ok(
                ObjFieldAttrsV {
                    name: Some(v),
                    description: acc.description,
                    default: acc.default,
                    default_expr: acc.default_expr,
                },
            )
        } else {
            Err(GenErrorV::InvalidName(v))
        },
        Ok(None) => match keyed_item_value_spec(item, key_description(), AttributeValidation::Str) {
            Err(e) => Err(e),
            Ok(Some(AttributeValueV::Str(v))) => Ok(
                ObjFieldAttrsV {
                    name: acc.name,
                    description: Some(v),
                    default: acc.default,
                    default_expr: acc.default_expr,
                },
            ),
            Ok(None) => match keyed_item_value_spec(item, key_default(), AttributeValidation::Any) {
                Err(e) => Err(e),
                Ok(Some(AttributeValueV::Str(v))) => Ok(
                    ObjFieldAttrsV {
                        name: acc.name,
                        description: acc.description,
                        default: acc.default,
                        default_expr: Some(v),
                    },
                ),
                Ok(None) => match item {
                    MetaItemV::Word(w) => if w == key_default() {
                        Ok(
                            ObjFieldAttrsV {
                                name: acc.name,
                                description: acc.description,
                                default: true,
                                default_expr: acc.default_expr,
                            },
                        )
                    } else {
                        Err(GenErrorV::UnknownAttribute(item))
                    },
                    _ => Err(GenErrorV::UnknownAttribute(item)),
                },
            },
        },
    }
}

/// The left-to-right scan of the annotation items over the field-level
/// attributes, stopping at the first fatal error.
pub open spec fn scan_field_items(acc: ObjFieldAttrsV, items: Seq<MetaItemV>) -> Result<
    ObjFieldAttrsV,
    GenErrorV,
>
    decreases items.len(),
{
    if items.len() == 0 {
        Ok(acc)
    } else {
        match step_field(acc, items[0]) {
            Ok(a) => scan_field_items(a, items.drop_first()),
            Err(e) => Err(e),
        }
    }
}

/// The field-level attributes before the annotation group is scanned.
pub open spec fn seed_field_attrs(attrs: Seq<RawAttrV>) -> ObjFieldAttrsV {
    ObjFieldAttrsV {
        name: None,
        description: doc_comment_spec(attrs),
        default: false,
        default_expr: None,
    }
}

/// The resolved field-level attributes of a field's attribute list.
pub open spec fn resolve_field_attrs_spec(attrs: Seq<RawAttrV>) -> Result<
    ObjFieldAttrsV,
    GenErrorV,
> {
    match graphql_items_spec(attrs) {
        Some(items) => scan_field_items(seed_field_attrs(attrs), items),
        None => Ok(seed_field_attrs(attrs)),
    }
}

fn step_field_attrs(acc: ObjFieldAttrs, item: &MetaItem) -> (r: Result<ObjFieldAttrs, GenError>)
    ensures
        result_view(r) == step_field(acc@, item@),
{
    let key = key_name_vec();
    match keyed_item_value(item, &key, AttributeValidation::Str) {
        Err(e) => {
            return Err(e);
        },
        Ok(Some(AttributeValue::Str(val))) => {
            if is_valid_name(&val) {
                let mut a = acc;
                a.name = Some(val);
                return Ok(a);
            } else {
                return Err(GenError::InvalidName(val));
            }
        },
        Ok(None) => {},
    }
    let key = key_description_vec();
    match keyed_item_value(item, &key, AttributeValidation::Str) {
        Err(e) => {
            return Err(e);
        },
        Ok(Some(AttributeValue::Str(val))) => {
            let mut a = acc;
            a.description = Some(val);
            return Ok(a);
        },
        Ok(None) => {},
    }
    let key = key_default_vec();
    match keyed_item_value(item, &key, AttributeValidation::Any) {
        Err(e) => {
            return Err(e);
        },
        Ok(Some(AttributeValue::Str(val))) => {
            let mut a = acc;
            a.default_expr = Some(val);
            return Ok(a);
        },
        Ok(None) => {},
    }
    match item {
        MetaItem::Word(w) => {
            let dw = key_default_vec();
            if bytes_eq(w, &dw) {
                let mut a = acc;
                a.default = true;
                return Ok(a);
            }
        },
        _ => {},
    }
    Err(GenError::UnknownAttribute(clone_meta_item(item)))
}

impl ObjFieldAttrs {
    /// Resolves the field-level attributes of one declared field, with the
    /// same seeding and scanning as at the structure level.
    pub fn from_input(variant: &FieldInput) -> (r: Result<ObjFieldAttrs, GenError>)
        ensures
            result_view(r) == resolve_field_attrs_spec(attrs_view(variant.attrs@)),
    {
        let ghost av = attrs_view(variant.attrs@);
        let description = get_doc_comment(&variant.attrs);
        let mut res = ObjFieldAttrs { name: None, description, default: false, default_expr: None };
        let ghost seed = res@;
        proof {
            assert(seed == seed_field_attrs(av));
        }
        let items_opt = get_graphql_attr(&variant.attrs);
        let items = match items_opt {
            None => {
                return Ok(res);
            },
            Some(items) => items,
        };
        let ghost iv = items_view(items@);
        let mut i: usize = 0;
        proof {
            assert(iv.skip(0) =~= iv);
        }
        while i < items.len()
            invariant
                0 <= i <= items@.len(),
                av == attrs_view(variant.attrs@),
                iv == items_view(items@),
                iv.len() == items@.len(),
                graphql_items_spec(av) == Some(iv),
                seed == seed_field_attrs(av),
                scan_field_items(seed, iv) == scan_field_items(res@, iv.skip(i as int)),
            decreases items@.len() - i,
        {
            proof {
                assert(iv[i as int] == items@[i as int]@);
                assert(iv.skip(i as int)[0] == iv[i as int]);
                assert(iv.skip(i as int).drop_first() =~= iv.skip(i as int + 1));
            }
            let ghost pre = res@;
            res = match step_field_attrs(res, &items[i]) {
                Ok(a) => a,
                Err(e) => {
                    proof {
                        assert(step_field(pre, iv.skip(i as int)[0]) == Err::<ObjFieldAttrsV,
                            GenErrorV,
                        >(e@));
                        assert(scan_field_items(pre, iv.skip(i as int)) == Err::<ObjFieldAttrsV,
                            GenErrorV,
                        >(e@));
                    }
                    return Err(e);
                },
            };
            i = i + 1;
        }
        proof {
            assert(iv.skip(iv.len() as int) =~= Seq::<MetaItemV>::empty());
        }
        Ok(res)
    }
}

} // verus!
