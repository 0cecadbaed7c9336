use juniper_codegen::attrs::{AttributeValidation, AttributeValue, ObjAttrs, ObjFieldAttrs,
    get_doc_comment, get_graphql_attr, keyed_item_value};
use juniper_codegen::emit::{CrateRef, DefaultPolicy, ImplBlock, impl_input_object};
use juniper_codegen::eval::{Entry, FieldSource, Val, from_input_object, to_input_object};
use juniper_codegen::model::{DataShape, FieldInput, GenError, MetaItem, RawAttr, StructInput};
use juniper_codegen::{is_valid_name, to_camel_case};

fn b(s: &str) -> Vec<u8> {
    s.as_bytes().to_vec()
}

fn field(ident: &str, ty: &str, attrs: Vec<RawAttr>) -> FieldInput {
    FieldInput { ident: b(ident), ty: b(ty), attrs }
}

fn plain_struct(ident: &str, attrs: Vec<RawAttr>, fields: Vec<FieldInput>) -> StructInput {
    StructInput { ident: b(ident), generics: b(""), attrs, data: DataShape::Named(fields) }
}

// ---------------------------------------------------------------------------
// Naming utilities
// ---------------------------------------------------------------------------

#[test]
fn camel_case_snake_identifier() {
    assert_eq!(to_camel_case(&b("first_name")), b("firstName"));
    assert_eq!(to_camel_case(&b("a_b_c")), b("aBC"));
}

#[test]
fn camel_case_single_segment_kept() {
    assert_eq!(to_camel_case(&b("simple")), b("simple"));
}

#[test]
fn camel_case_edge_shapes() {
    assert_eq!(to_camel_case(&b("_foo")), b("Foo"));
    assert_eq!(to_camel_case(&b("a__b")), b("aB"));
    assert_eq!(to_camel_case(&b("trailing_")), b("trailing"));
    assert_eq!(to_camel_case(&b("")), b(""));
}

#[test]
fn valid_name_accepts_identifiers() {
    assert!(is_valid_name(&b("_ok")));
    assert!(is_valid_name(&b("a1")));
    assert!(is_valid_name(&b("CamelName")));
}

#[test]
fn valid_name_rejects_bad_shapes() {
    assert!(!is_valid_name(&b("1bad")));
    assert!(!is_valid_name(&b("has space")));
    assert!(!is_valid_name(&b("")));
    assert!(!is_valid_name(&b("dash-ed")));
}

// ---------------------------------------------------------------------------
// Documentation comments and the annotation group
// ---------------------------------------------------------------------------

#[test]
fn doc_comment_joins_lines() {
    let attrs = vec![RawAttr::Doc(b("line one")), RawAttr::Other, RawAttr::Doc(b("line two"))];
    assert_eq!(get_doc_comment(&attrs), Some(b("line one\nline two")));
}

#[test]
fn doc_comment_absent_without_lines() {
    let attrs = vec![RawAttr::Other];
    assert_eq!(get_doc_comment(&attrs), None);
}

#[test]
fn graphql_attr_located() {
    let attrs = vec![RawAttr::Other, RawAttr::Graphql(vec![MetaItem::Word(b("default"))])];
    let items = get_graphql_attr(&attrs).expect("group present");
    assert_eq!(items.len(), 1);
    assert!(get_graphql_attr(&vec![RawAttr::Other]).is_none());
}

#[test]
fn keyed_item_matches_key_and_kind() {
    let item = MetaItem::NameStr(b("name"), b("widget"));
    match keyed_item_value(&item, &b("name"), AttributeValidation::Str) {
        Ok(Some(AttributeValue::Str(v))) => assert_eq!(v, b("widget")),
        _ => panic!("expected a string value"),
    }
    match keyed_item_value(&item, &b("description"), AttributeValidation::Str) {
        Ok(None) => {}
        _ => panic!("expected no match for another key"),
    }
    let other = MetaItem::NameOther(b("name"), b("5"));
    assert!(matches!(
        keyed_item_value(&other, &b("name"), AttributeValidation::Str),
        Err(GenError::ExpectedStringValue(_))
    ));
    match keyed_item_value(&other, &b("name"), AttributeValidation::Any) {
        Ok(Some(AttributeValue::Str(v))) => assert_eq!(v, b("5")),
        _ => panic!("any kind takes the literal's source text"),
    }
}

// ---------------------------------------------------------------------------
// Structure-level resolution
// ---------------------------------------------------------------------------

#[test]
fn struct_attrs_name_override_stored() {
    let input = plain_struct(
        "Widget",
        vec![RawAttr::Graphql(vec![MetaItem::NameStr(b("name"), b("Gadget"))])],
        vec![],
    );
    let attrs = ObjAttrs::from_input(&input).expect("resolution succeeds");
    assert_eq!(attrs.name, Some(b("Gadget")));
    assert_eq!(attrs.description, None);
    assert!(!attrs.internal);
}

#[test]
fn struct_attrs_invalid_name_rejected() {
    let input = plain_struct(
        "Widget",
        vec![RawAttr::Graphql(vec![MetaItem::NameStr(b("name"), b("1bad"))])],
        vec![],
    );
    match ObjAttrs::from_input(&input) {
        Err(GenError::InvalidName(v)) => assert_eq!(v, b("1bad")),
        _ => panic!("an invalid override must fail fatally"),
    }
}

#[test]
fn struct_attrs_description_attribute_wins_over_doc() {
    let input = plain_struct(
        "Widget",
        vec![
            RawAttr::Doc(b("from the doc comment")),
            RawAttr::Graphql(vec![MetaItem::NameStr(b("description"), b("explicit text"))]),
        ],
        vec![],
    );
    let attrs = ObjAttrs::from_input(&input).expect("resolution succeeds");
    assert_eq!(attrs.description, Some(b("explicit text")));
}

#[test]
fn struct_attrs_doc_comment_seeds_description() {
    let input = plain_struct("Widget", vec![RawAttr::Doc(b("docs only"))], vec![]);
    let attrs = ObjAttrs::from_input(&input).expect("resolution succeeds");
    assert_eq!(attrs.description, Some(b("docs only")));
}

#[test]
fn struct_attrs_internal_flag_set() {
    let input = plain_struct(
        "Widget",
        vec![RawAttr::Graphql(vec![MetaItem::Word(b("_internal"))])],
        vec![],
    );
    let attrs = ObjAttrs::from_input(&input).expect("resolution succeeds");
    assert!(attrs.internal);
}

#[test]
fn struct_attrs_unknown_key_rejected() {
    let input = plain_struct(
        "Widget",
        vec![RawAttr::Graphql(vec![MetaItem::NameStr(b("unknown"), b("x"))])],
        vec![],
    );
    assert!(matches!(ObjAttrs::from_input(&input), Err(GenError::UnknownAttribute(_))));
}

#[test]
fn struct_attrs_default_flag_is_unknown_at_struct_level() {
    let input = plain_struct(
        "Widget",
        vec![RawAttr::Graphql(vec![MetaItem::Word(b("default"))])],
        vec![],
    );
    assert!(matches!(ObjAttrs::from_input(&input), Err(GenError::UnknownAttribute(_))));
}

// ---------------------------------------------------------------------------
// Field-level resolution
// ---------------------------------------------------------------------------

#[test]
fn field_attrs_default_flag_set() {
    let f = field("count", "i32", vec![RawAttr::Graphql(vec![MetaItem::Word(b("default"))])]);
    let attrs = ObjFieldAttrs::from_input(&f).expect("resolution succeeds");
    assert!(attrs.default);
    assert_eq!(attrs.default_expr, None);
}

#[test]
fn field_attrs_default_expression_stored() {
    let f = field(
        "count",
        "i32",
        vec![RawAttr::Graphql(vec![MetaItem::NameStr(b("default"), b("5+5"))])],
    );
    let attrs = ObjFieldAttrs::from_input(&f).expect("resolution succeeds");
    assert!(!attrs.default);
    assert_eq!(attrs.default_expr, Some(b("5+5")));
}

#[test]
fn field_attrs_unknown_key_rejected() {
    let f = field(
        "count",
        "i32",
        vec![RawAttr::Graphql(vec![MetaItem::NameStr(b("unknown"), b("x"))])],
    );
    match ObjFieldAttrs::from_input(&f) {
        Err(GenError::UnknownAttribute(MetaItem::NameStr(k, _))) => assert_eq!(k, b("unknown")),
        _ => panic!("an unknown key must fail fatally"),
    }
}

#[test]
fn field_attrs_internal_flag_is_unknown_at_field_level() {
    let f = field("count", "i32", vec![RawAttr::Graphql(vec![MetaItem::Word(b("_internal"))])]);
    assert!(matches!(ObjFieldAttrs::from_input(&f), Err(GenError::UnknownAttribute(_))));
}

// ---------------------------------------------------------------------------
// Whole-block emission
// ---------------------------------------------------------------------------

fn two_field_block() -> ImplBlock {
    let input = plain_struct(
        "Point",
        vec![],
        vec![field("first_name", "String", vec![]), field("y_pos", "i32", vec![])],
    );
    impl_input_object(&input).expect("generation succeeds")
}

#[test]
fn block_has_one_fragment_of_each_kind_per_field_in_order() {
    let block = two_field_block();
    assert_eq!(block.meta_fields.len(), 2);
    assert_eq!(block.from_inputs.len(), 2);
    assert_eq!(block.to_inputs.len(), 2);
    for i in 0..2 {
        assert_eq!(block.meta_fields[i].exposed_name, block.from_inputs[i].exposed_name);
        assert_eq!(block.meta_fields[i].exposed_name, block.to_inputs[i].exposed_name);
    }
    assert_eq!(block.meta_fields[0].exposed_name, b("firstName"));
    assert_eq!(block.meta_fields[1].exposed_name, b("yPos"));
    assert_eq!(block.from_inputs[0].field_ident, b("first_name"));
    assert_eq!(block.to_inputs[1].field_ident, b("y_pos"));
    assert_eq!(block.meta_fields[1].ty, b("i32"));
}

#[test]
fn block_top_level_names() {
    let block = two_field_block();
    assert_eq!(block.name, b("Point"));
    assert_eq!(block.struct_ident, b("Point"));
    assert_eq!(block.dummy_const, b("_IMPL_GRAPHQLINPUTOBJECT_FOR_Point"));
    assert!(matches!(block.crate_ref, CrateRef::External));
    assert_eq!(block.description, None);
}

#[test]
fn block_name_override_used_verbatim() {
    let input = plain_struct(
        "Point",
        vec![RawAttr::Graphql(vec![MetaItem::NameStr(b("name"), b("_Where"))])],
        vec![field(
            "x",
            "i32",
            vec![RawAttr::Graphql(vec![MetaItem::NameStr(b("name"), b("abscissa"))])],
        )],
    );
    let block = impl_input_object(&input).expect("generation succeeds");
    assert_eq!(block.name, b("_Where"));
    assert_eq!(block.meta_fields[0].exposed_name, b("abscissa"));
}

#[test]
fn block_invalid_field_override_fails() {
    let input = plain_struct(
        "Point",
        vec![],
        vec![field(
            "x",
            "i32",
            vec![RawAttr::Graphql(vec![MetaItem::NameStr(b("name"), b("has space"))])],
        )],
    );
    match impl_input_object(&input) {
        Err(GenError::InvalidName(v)) => assert_eq!(v, b("has space")),
        _ => panic!("an invalid override must fail fatally"),
    }
}

#[test]
fn block_shape_errors() {
    let tuple_like = StructInput {
        ident: b("Pair"),
        generics: b(""),
        attrs: vec![],
        data: DataShape::OtherStruct,
    };
    assert!(matches!(impl_input_object(&tuple_like), Err(GenError::NotNamedFields)));
    let enum_like = StructInput {
        ident: b("Choice"),
        generics: b(""),
        attrs: vec![],
        data: DataShape::NotStruct,
    };
    assert!(matches!(impl_input_object(&enum_like), Err(GenError::NotAStruct)));
}

#[test]
fn block_internal_flag_selects_internal_path() {
    let input = plain_struct(
        "Point",
        vec![RawAttr::Graphql(vec![MetaItem::Word(b("_internal"))])],
        vec![field("x", "i32", vec![])],
    );
    let block = impl_input_object(&input).expect("generation succeeds");
    assert!(matches!(block.crate_ref, CrateRef::Internal));
}

#[test]
fn block_description_precedence() {
    let input = plain_struct(
        "Point",
        vec![
            RawAttr::Doc(b("doc text")),
            RawAttr::Graphql(vec![MetaItem::NameStr(b("description"), b("attr text"))]),
        ],
        vec![field("x", "i32", vec![])],
    );
    let block = impl_input_object(&input).expect("generation succeeds");
    assert_eq!(block.description, Some(b("attr text")));
}

#[test]
fn block_default_flag_policy() {
    let input = plain_struct(
        "Point",
        vec![],
        vec![field("x", "i32", vec![RawAttr::Graphql(vec![MetaItem::Word(b("default"))])])],
    );
    let block = impl_input_object(&input).expect("generation succeeds");
    assert!(matches!(block.meta_fields[0].default, DefaultPolicy::DefaultTrait));
    assert!(matches!(block.from_inputs[0].default, DefaultPolicy::DefaultTrait));
}

#[test]
fn block_default_expression_validated_and_kept() {
    let input = plain_struct(
        "Point",
        vec![],
        vec![field(
            "x",
            "i32",
            vec![RawAttr::Graphql(vec![MetaItem::NameStr(b("default"), b("5+5"))])],
        )],
    );
    let block = impl_input_object(&input).expect("generation succeeds");
    match &block.from_inputs[0].default {
        DefaultPolicy::Expression(tokens) => {
            let text = String::from_utf8(tokens.clone()).unwrap();
            assert_eq!(text.replace(' ', ""), "5+5");
        }
        _ => panic!("expected an expression policy"),
    }
}

#[test]
fn block_malformed_default_expression_fails() {
    let input = plain_struct(
        "Point",
        vec![],
        vec![field(
            "x",
            "i32",
            vec![RawAttr::Graphql(vec![MetaItem::NameStr(b("default"), b("5 +"))])],
        )],
    );
    assert!(matches!(impl_input_object(&input), Err(GenError::MalformedDefaultExpr)));
}

#[test]
fn block_overlong_default_expression_fails() {
    let long_expr = "1+1".repeat(500);
    let input = plain_struct(
        "Point",
        vec![],
        vec![field(
            "x",
            "i32",
            vec![RawAttr::Graphql(vec![MetaItem::NameStr(b("default"), b(&long_expr))])],
        )],
    );
    assert!(matches!(impl_input_object(&input), Err(GenError::MalformedDefaultExpr)));
}

#[test]
fn block_default_flag_wins_over_expression() {
    let input = plain_struct(
        "Point",
        vec![],
        vec![field(
            "x",
            "i32",
            vec![RawAttr::Graphql(vec![
                MetaItem::NameStr(b("default"), b("5+5")),
                MetaItem::Word(b("default")),
            ])],
        )],
    );
    let block = impl_input_object(&input).expect("generation succeeds");
    assert!(matches!(block.from_inputs[0].default, DefaultPolicy::DefaultTrait));
}

#[test]
fn block_unknown_field_attr_stops_generation() {
    let input = plain_struct(
        "Point",
        vec![],
        vec![
            field("x", "i32", vec![]),
            field(
                "y",
                "i32",
                vec![RawAttr::Graphql(vec![MetaItem::NameStr(b("unknown"), b("x"))])],
            ),
        ],
    );
    assert!(matches!(impl_input_object(&input), Err(GenError::UnknownAttribute(_))));
}

// ---------------------------------------------------------------------------
// Fragment semantics
// ---------------------------------------------------------------------------

#[test]
fn round_trip_preserves_values() {
    let block = two_field_block();
    let values = vec![Val::Opaque(b("alice")), Val::Opaque(b("42"))];
    let entries = to_input_object(&block, &values);
    assert_eq!(entries.len(), 2);
    assert_eq!(entries[0].name, b("firstName"));
    assert_eq!(entries[1].name, b("yPos"));
    let back = from_input_object(&block, &entries);
    assert_eq!(back.len(), 2);
    match &back[0] {
        FieldSource::Converted(Val::Opaque(p)) => assert_eq!(p, &b("alice")),
        _ => panic!("the first field must convert its own value"),
    }
    match &back[1] {
        FieldSource::Converted(Val::Opaque(p)) => assert_eq!(p, &b("42")),
        _ => panic!("the second field must convert its own value"),
    }
}

fn defaulted_block(items: Vec<MetaItem>) -> ImplBlock {
    let input = plain_struct(
        "Config",
        vec![],
        vec![field("retries", "i32", vec![RawAttr::Graphql(items)])],
    );
    impl_input_object(&input).expect("generation succeeds")
}

#[test]
fn default_substituted_for_missing_key() {
    let block = defaulted_block(vec![MetaItem::Word(b("default"))]);
    let entries: Vec<Entry> = vec![];
    let back = from_input_object(&block, &entries);
    assert!(matches!(back[0], FieldSource::Defaulted(DefaultPolicy::DefaultTrait)));
}

#[test]
fn default_substituted_for_explicit_null() {
    let block = defaulted_block(vec![MetaItem::Word(b("default"))]);
    let entries = vec![Entry { name: b("retries"), value: Val::Null }];
    let back = from_input_object(&block, &entries);
    assert!(matches!(back[0], FieldSource::Defaulted(DefaultPolicy::DefaultTrait)));
}

#[test]
fn default_expression_substituted_when_missing() {
    let block = defaulted_block(vec![MetaItem::NameStr(b("default"), b("5+5"))]);
    let entries: Vec<Entry> = vec![];
    let back = from_input_object(&block, &entries);
    match &back[0] {
        FieldSource::Defaulted(DefaultPolicy::Expression(tokens)) => {
            assert_eq!(String::from_utf8(tokens.clone()).unwrap().replace(' ', ""), "5+5");
        }
        _ => panic!("the expression policy must be substituted"),
    }
}

#[test]
fn missing_key_without_default_converts_null() {
    let block = two_field_block();
    let entries = vec![Entry { name: b("firstName"), value: Val::Opaque(b("alice")) }];
    let back = from_input_object(&block, &entries);
    assert!(matches!(&back[0], FieldSource::Converted(Val::Opaque(_))));
    assert!(matches!(&back[1], FieldSource::Converted(Val::Null)));
}

#[test]
fn present_value_never_defaulted() {
    let block = defaulted_block(vec![MetaItem::Word(b("default"))]);
    let entries = vec![Entry { name: b("retries"), value: Val::Opaque(b("7")) }];
    let back = from_input_object(&block, &entries);
    match &back[0] {
        FieldSource::Converted(Val::Opaque(p)) => assert_eq!(p, &b("7")),
        _ => panic!("a present non-null value must be converted, not defaulted"),
    }
}
