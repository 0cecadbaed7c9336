//! The laws of the generator, proved once and for all inputs: fragment
//! counts and order, default naming, override handling, round-tripping,
//! default substitution, unknown-attribute rejection, description
//! precedence, and the internal-mode path selection.

use vstd::prelude::*;

use crate::attrs::{
    ObjAttrsV, ObjFieldAttrsV, doc_comment_spec, graphql_items_spec, resolve_field_attrs_spec,
    resolve_struct_attrs_spec, scan_field_items, scan_struct_items, seed_field_attrs,
    seed_struct_attrs, step_field, step_struct,
};
use crate::emit::{
    CrateRef, ImplBlockV, consults_validator, field_plan_with, from_frags_of_plans,
    impl_input_object_spec, meta_frags_of_plans, plan_fields_with, to_frags_of_plans,
};
use crate::emit::FromInputFragmentV;
use crate::eval::{
    EntryV, FieldSourceV, ValV, distinct_names, from_input_field_spec, from_input_results_spec,
    lookup_spec, to_input_entries_spec,
};
use crate::model::{DataShapeV, FieldInputV, MetaItemV, RawAttrV, StructInputV};
use crate::text::{is_valid_name_spec, key_default, key_description, key_name, to_camel_case_spec,
    word_internal};

verus! {

// ---------------------------------------------------------------------------
// Per-field plans, indexed
// ---------------------------------------------------------------------------

/// When planning succeeds, there is exactly one plan per declared field, in
/// declaration order, each drawn from its own field and validator outcome.
pub proof fn lemma_plan_fields_index(fields: Seq<FieldInputV>, outcomes: Seq<Option<Seq<u8>>>)
    requires
        outcomes.len() == fields.len(),
        plan_fields_with(fields, outcomes) is Ok,
    ensures
        plan_fields_with(fields, outcomes)->Ok_0.len() == fields.len(),
        forall|i: int|
            0 <= i < fields.len() ==> field_plan_with(#[trigger] fields[i], outcomes[i]) is Ok
                && plan_fields_with(fields, outcomes)->Ok_0[i] == field_plan_with(
                fields[i],
                outcomes[i],
            )->Ok_0,
    decreases fields.len(),
{
    if fields.len() == 0 {
    } else {
        lemma_plan_fields_index(fields.drop_first(), outcomes.drop_first());
        assert forall|i: int| 0 <= i < fields.len() implies field_plan_with(
            #[trigger] fields[i],
            outcomes[i],
        ) is Ok && plan_fields_with(fields, outcomes)->Ok_0[i] == field_plan_with(
            fields[i],
            outcomes[i],
        )->Ok_0 by {
            if i > 0 {
                assert(fields.drop_first()[i - 1] == fields[i]);
                assert(outcomes.drop_first()[i - 1] == outcomes[i]);
            }
        }
    }
}

/// Where no field's resolved attributes reach the outside validator, the
/// per-field plans do not depend on its outcomes at all.
pub proof fn lemma_plans_without_validator(
    fields: Seq<FieldInputV>,
    o1: Seq<Option<Seq<u8>>>,
    o2: Seq<Option<Seq<u8>>>,
)
    requires
        forall|i: int| 0 <= i < fields.len() ==> !consults_validator(#[trigger] fields[i]),
    ensures
        plan_fields_with(fields, o1) == plan_fields_with(fields, o2),
    decreases fields.len(),
{
    if fields.len() == 0 {
    } else {
        assert(!consults_validator(fields[0]));
        assert(field_plan_with(fields[0], o1[0]) == field_plan_with(fields[0], o2[0]));
        assert forall|i: int|
            0 <= i < fields.drop_first().len() implies !consults_validator(
            #[trigger] fields.drop_first()[i],
        ) by {
            assert(fields.drop_first()[i] == fields[i + 1]);
        }
        lemma_plans_without_validator(fields.drop_first(), o1.drop_first(), o2.drop_first());
    }
}

/// Where no field's resolved attributes reach the outside validator, the
/// whole generation is one value, whatever the validator would have said.
pub proof fn lemma_generation_deterministic_without_expressions(
    input: StructInputV,
    fields: Seq<FieldInputV>,
    o1: Seq<Option<Seq<u8>>>,
    o2: Seq<Option<Seq<u8>>>,
)
    requires
        input.data == DataShapeV::Named(fields),
        forall|i: int| 0 <= i < fields.len() ==> !consults_validator(#[trigger] fields[i]),
    ensures
        impl_input_object_spec(input, o1) == impl_input_object_spec(input, o2),
{
    lemma_plans_without_validator(fields, o1, o2);
}

// ---------------------------------------------------------------------------
// Fragment counts and order
// ---------------------------------------------------------------------------

/// A structure with N named fields is emitted with exactly N
/// metadata-registration fragments, N deserialization fragments and N
/// serialization fragments; the fragments at position i all carry the
/// exposed name of the i-th declared field.
pub proof fn lemma_fragment_counts(
    input: StructInputV,
    fields: Seq<FieldInputV>,
    block: ImplBlockV,
    outcomes: Seq<Option<Seq<u8>>>,
)
    requires
        input.data == DataShapeV::Named(fields),
        outcomes.len() == fields.len(),
        impl_input_object_spec(input, outcomes) == Ok::<ImplBlockV, crate::model::GenErrorV>(
            block,
        ),
    ensures
        block.meta_fields.len() == fields.len(),
        block.from_inputs.len() == fields.len(),
        block.to_inputs.len() == fields.len(),
        forall|i: int|
            0 <= i < fields.len() ==> {
                let plan = field_plan_with(#[trigger] fields[i], outcomes[i])->Ok_0;
                &&& block.meta_fields[i].exposed_name == plan.exposed_name
                &&& block.from_inputs[i].exposed_name == plan.exposed_name
                &&& block.to_inputs[i].exposed_name == plan.exposed_name
                &&& block.from_inputs[i].field_ident == fields[i].ident
                &&& block.to_inputs[i].field_ident == fields[i].ident
            },
{
    let plans = plan_fields_with(fields, outcomes)->Ok_0;
    lemma_plan_fields_index(fields, outcomes);
    assert(block.meta_fields == meta_frags_of_plans(plans));
    assert(block.from_inputs == from_frags_of_plans(plans));
    assert(block.to_inputs == to_frags_of_plans(plans));
}

// ---------------------------------------------------------------------------
// Effective names
// ---------------------------------------------------------------------------

/// A field without an explicit name override is exposed under the
/// camel-case form of its declared identifier.
pub proof fn lemma_default_camel_name(f: FieldInputV, outcome: Option<Seq<u8>>)
    requires
        field_plan_with(f, outcome) is Ok,
        resolve_field_attrs_spec(f.attrs)->Ok_0.name is None,
    ensures
        field_plan_with(f, outcome)->Ok_0.exposed_name == to_camel_case_spec(f.ident),
{
}

/// A field with an explicit name override is exposed under the override,
/// verbatim.
pub proof fn lemma_override_used(f: FieldInputV, n: Seq<u8>, outcome: Option<Seq<u8>>)
    requires
        field_plan_with(f, outcome) is Ok,
        resolve_field_attrs_spec(f.attrs)->Ok_0.name == Some(n),
    ensures
        field_plan_with(f, outcome)->Ok_0.exposed_name == n,
{
}

/// Every name override that a successful field resolution stores passed the
/// identifier grammar.
pub proof fn lemma_scan_field_name_valid(acc: ObjFieldAttrsV, items: Seq<MetaItemV>)
    requires
        scan_field_items(acc, items) is Ok,
        acc.name matches Some(n) ==> is_valid_name_spec(n),
    ensures
        scan_field_items(acc, items)->Ok_0.name matches Some(n) ==> is_valid_name_spec(n),
    decreases items.len(),
{
    if items.len() == 0 {
    } else {
        let acc2 = step_field(acc, items[0])->Ok_0;
        assert(acc2.name matches Some(n) ==> is_valid_name_spec(n));
        lemma_scan_field_name_valid(acc2, items.drop_first());
    }
}

/// Every name override that a successful field-attribute resolution stores
/// passed the identifier grammar; so a used override is always a valid
/// identifier.
pub proof fn lemma_resolved_name_valid(attrs: Seq<RawAttrV>)
    requires
        resolve_field_attrs_spec(attrs) is Ok,
    ensures
        resolve_field_attrs_spec(attrs)->Ok_0.name matches Some(n) ==> is_valid_name_spec(n),
{
    match graphql_items_spec(attrs) {
        Some(items) => {
            lemma_scan_field_name_valid(seed_field_attrs(attrs), items);
        },
        None => {},
    }
}

/// An explicit name override that fails the identifier grammar makes the
/// whole field scan fail fatally.
pub proof fn lemma_invalid_override_rejected(
    acc: ObjFieldAttrsV,
    items: Seq<MetaItemV>,
    i: int,
    v: Seq<u8>,
)
    requires
        0 <= i < items.len(),
        items[i] == MetaItemV::NameStr(key_name(), v),
        !is_valid_name_spec(v),
    ensures
        scan_field_items(acc, items) is Err,
    decreases i,
{
    match step_field(acc, items[0]) {
        Err(_) => {},
        Ok(acc2) => {
            if i == 0 {
                assert(false);
            } else {
                assert(items.drop_first()[i - 1] == items[i]);
                lemma_invalid_override_rejected(acc2, items.drop_first(), i - 1, v);
            }
        },
    }
}

/// Every name override that a successful structure scan stores passed the
/// identifier grammar.
pub proof fn lemma_scan_struct_name_valid(acc: ObjAttrsV, items: Seq<MetaItemV>)
    requires
        scan_struct_items(acc, items) is Ok,
        acc.name matches Some(n) ==> is_valid_name_spec(n),
    ensures
        scan_struct_items(acc, items)->Ok_0.name matches Some(n) ==> is_valid_name_spec(n),
    decreases items.len(),
{
    if items.len() == 0 {
    } else {
        let acc2 = step_struct(acc, items[0])->Ok_0;
        assert(acc2.name matches Some(n) ==> is_valid_name_spec(n));
        lemma_scan_struct_name_valid(acc2, items.drop_first());
    }
}

/// An explicit structure-level name override that fails the identifier
/// grammar makes the whole scan fail fatally.
pub proof fn lemma_invalid_struct_override_rejected(
    acc: ObjAttrsV,
    items: Seq<MetaItemV>,
    i: int,
    v: Seq<u8>,
)
    requires
        0 <= i < items.len(),
        items[i] == MetaItemV::NameStr(key_name(), v),
        !is_valid_name_spec(v),
    ensures
        scan_struct_items(acc, items) is Err,
    decreases i,
{
    match step_struct(acc, items[0]) {
        Err(_) => {},
        Ok(acc2) => {
            if i == 0 {
                assert(false);
            } else {
                assert(items.drop_first()[i - 1] == items[i]);
                lemma_invalid_struct_override_rejected(acc2, items.drop_first(), i - 1, v);
            }
        },
    }
}

// ---------------------------------------------------------------------------
// Unknown-attribute rejection
// ---------------------------------------------------------------------------

/// The keys and flags that the field-level resolver recognizes.
pub open spec fn recognized_field_item(item: MetaItemV) -> bool {
    match item {
        MetaItemV::Word(w) => w == key_default(),
        MetaItemV::NameStr(k, _) => k == key_name() || k == key_description() || k
            == key_default(),
        MetaItemV::NameOther(k, _) => k == key_name() || k == key_description() || k
            == key_default(),
    }
}

/// The keys and flags that the structure-level resolver recognizes.
pub open spec fn recognized_struct_item(item: MetaItemV) -> bool {
    match item {
        MetaItemV::Word(w) => w == word_internal(),
        MetaItemV::NameStr(k, _) => k == key_name() || k == key_description(),
        MetaItemV::NameOther(k, _) => k == key_name() || k == key_description(),
    }
}

/// A field annotation group holding an item that matches no recognized key
/// or flag makes the whole scan fail fatally; no partial result is produced.
pub proof fn lemma_unknown_field_attr_rejected(acc: ObjFieldAttrsV, items: Seq<MetaItemV>, i: int)
    requires
        0 <= i < items.len(),
        !recognized_field_item(items[i]),
    ensures
        scan_field_items(acc, items) is Err,
    decreases i,
{
    match step_field(acc, items[0]) {
        Err(_) => {},
        Ok(acc2) => {
            if i == 0 {
                assert(false);
            } else {
                assert(items.drop_first()[i - 1] == items[i]);
                lemma_unknown_field_attr_rejected(acc2, items.drop_first(), i - 1);
            }
        },
    }
}

/// A structure annotation group holding an item that matches no recognized
/// key or flag makes the whole scan fail fatally.
pub proof fn lemma_unknown_struct_attr_rejected(acc: ObjAttrsV, items: Seq<MetaItemV>, i: int)
    requires
        0 <= i < items.len(),
        !recognized_struct_item(items[i]),
    ensures
        scan_struct_items(acc, items) is Err,
    decreases i,
{
    match step_struct(acc, items[0]) {
        Err(_) => {},
        Ok(acc2) => {
            if i == 0 {
                assert(false);
            } else {
                assert(items.drop_first()[i - 1] == items[i]);
                lemma_unknown_struct_attr_rejected(acc2, items.drop_first(), i - 1);
            }
        },
    }
}

// ---------------------------------------------------------------------------
// Description precedence
// ---------------------------------------------------------------------------

/// An annotation item that sets the description.
pub open spec fn is_description_item(item: MetaItemV) -> bool {
    item matches MetaItemV::NameStr(k, _) && k == key_description()
}

/// A successful structure scan over items none of which sets the
/// description keeps the seeded description.
pub proof fn lemma_description_kept(acc: ObjAttrsV, items: Seq<MetaItemV>)
    requires
        scan_struct_items(acc, items) is Ok,
        forall|j: int| 0 <= j < items.len() ==> !is_description_item(#[trigger] items[j]),
    ensures
        scan_struct_items(acc, items)->Ok_0.description == acc.description,
    decreases items.len(),
{
    if items.len() == 0 {
    } else {
        let acc2 = step_struct(acc, items[0])->Ok_0;
        assert(acc2.description == acc.description);
        assert forall|j: int|
            0 <= j < items.drop_first().len() implies !is_description_item(
            #[trigger] items.drop_first()[j],
        ) by {
            assert(items.drop_first()[j] == items[j + 1]);
        }
        lemma_description_kept(acc2, items.drop_first());
    }
}

/// After a successful structure scan whose last description item carries
/// `d`, the resolved description is `d`.
pub proof fn lemma_description_wins(acc: ObjAttrsV, items: Seq<MetaItemV>, i: int, d: Seq<u8>)
    requires
        scan_struct_items(acc, items) is Ok,
        0 <= i < items.len(),
        items[i] == MetaItemV::NameStr(key_description(), d),
        forall|j: int| i < j < items.len() ==> !is_description_item(#[trigger] items[j]),
    ensures
        scan_struct_items(acc, items)->Ok_0.description == Some(d),
    decreases i,
{
    let acc2 = step_struct(acc, items[0])->Ok_0;
    assert forall|j: int|
        i - 1 < j < items.drop_first().len() implies !is_description_item(
        #[trigger] items.drop_first()[j],
    ) by {
        assert(items.drop_first()[j] == items[j + 1]);
    }
    if i == 0 {
        assert(acc2.description == Some(d));
        lemma_description_kept(acc2, items.drop_first());
    } else {
        assert(items.drop_first()[i - 1] == items[i]);
        lemma_description_wins(acc2, items.drop_first(), i - 1, d);
    }
}

/// Description precedence: when resolution succeeds and the annotation
/// group's last description item carries `d`, the resolved description is
/// `d`, whatever the documentation comment said.
pub proof fn lemma_description_precedence(
    attrs: Seq<RawAttrV>,
    items: Seq<MetaItemV>,
    i: int,
    d: Seq<u8>,
)
    requires
        graphql_items_spec(attrs) == Some(items),
        resolve_struct_attrs_spec(attrs) is Ok,
        0 <= i < items.len(),
        items[i] == MetaItemV::NameStr(key_description(), d),
        forall|j: int| i < j < items.len() ==> !is_description_item(#[trigger] items[j]),
    ensures
        resolve_struct_attrs_spec(attrs)->Ok_0.description == Some(d),
{
    lemma_description_wins(seed_struct_attrs(attrs), items, i, d);
}

// ---------------------------------------------------------------------------
// Internal mode
// ---------------------------------------------------------------------------

/// The bare internal-visibility flag item.
pub open spec fn is_internal_item(item: MetaItemV) -> bool {
    item == MetaItemV::Word(word_internal())
}

/// Whether the structure's annotation group carries the bare
/// internal-visibility flag.
pub open spec fn has_internal_flag(attrs: Seq<RawAttrV>) -> bool {
    match graphql_items_spec(attrs) {
        Some(items) => exists|i: int|
            0 <= i < items.len() && is_internal_item(#[trigger] items[i]),
        None => false,
    }
}

/// A successful structure scan resolves the internal flag true exactly when
/// the seed had it or some item is the bare internal-visibility flag.
pub proof fn lemma_scan_internal(acc: ObjAttrsV, items: Seq<MetaItemV>)
    requires
        scan_struct_items(acc, items) is Ok,
    ensures
        scan_struct_items(acc, items)->Ok_0.internal == (acc.internal || exists|i: int|
            0 <= i < items.len() && is_internal_item(#[trigger] items[i])),
    decreases items.len(),
{
    if items.len() == 0 {
    } else {
        let acc2 = step_struct(acc, items[0])->Ok_0;
        assert(acc2.internal == (acc.internal || is_internal_item(items[0])));
        lemma_scan_internal(acc2, items.drop_first());
        let found_rest = exists|i: int|
            0 <= i < items.drop_first().len() && is_internal_item(
                #[trigger] items.drop_first()[i],
            );
        let found_all = exists|i: int| 0 <= i < items.len() && is_internal_item(
            #[trigger] items[i],
        );
        if found_rest {
            let i = choose|i: int|
                0 <= i < items.drop_first().len() && is_internal_item(items.drop_first()[i]);
            assert(items.drop_first()[i] == items[i + 1]);
            assert(found_all);
        }
        if is_internal_item(items[0]) {
            assert(found_all);
        }
        if found_all && !is_internal_item(items[0]) {
            let i = choose|i: int| 0 <= i < items.len() && is_internal_item(items[i]);
            assert(items.drop_first()[i - 1] == items[i]);
            assert(found_rest);
        }
    }
}

/// Internal mode: the emitted block references the internal,
/// self-referential symbol path exactly when the structure carries the bare
/// internal-visibility flag, and the external dependency path otherwise; no
/// other part of the block depends on the flag.
pub proof fn lemma_internal_mode(
    input: StructInputV,
    block: ImplBlockV,
    outcomes: Seq<Option<Seq<u8>>>,
)
    requires
        impl_input_object_spec(input, outcomes) == Ok::<ImplBlockV, crate::model::GenErrorV>(
            block,
        ),
    ensures
        block.crate_ref == (if has_internal_flag(input.attrs) {
            CrateRef::Internal
        } else {
            CrateRef::External
        }),
{
    match graphql_items_spec(input.attrs) {
        Some(items) => {
            lemma_scan_internal(seed_struct_attrs(input.attrs), items);
        },
        None => {},
    }
}

/// A structure scan resolves the same name and description from two seeds
/// that differ only in the internal flag, and succeeds from one exactly when
/// it succeeds from the other.
pub proof fn lemma_scan_seed_internal_insensitive(
    acc1: ObjAttrsV,
    acc2: ObjAttrsV,
    items: Seq<MetaItemV>,
)
    requires
        acc1.name == acc2.name,
        acc1.description == acc2.description,
    ensures
        (scan_struct_items(acc1, items) is Ok) <==> (scan_struct_items(acc2, items) is Ok),
        scan_struct_items(acc1, items) is Ok ==> scan_struct_items(acc1, items)->Ok_0.name
            == scan_struct_items(acc2, items)->Ok_0.name && scan_struct_items(
            acc1,
            items,
        )->Ok_0.description == scan_struct_items(acc2, items)->Ok_0.description,
    decreases items.len(),
{
    if items.len() == 0 {
    } else {
        match (step_struct(acc1, items[0]), step_struct(acc2, items[0])) {
            (Ok(b1), Ok(b2)) => {
                assert(b1.name == b2.name && b1.description == b2.description);
                lemma_scan_seed_internal_insensitive(b1, b2, items.drop_first());
            },
            (Err(_), Err(_)) => {},
            (Ok(_), Err(_)) => {
                assert(false);
            },
            (Err(_), Ok(_)) => {
                assert(false);
            },
        }
    }
}

/// Removing one bare internal-visibility flag item from a successfully
/// scanned annotation group leaves a scan that still succeeds and resolves
/// the same name and description.
pub proof fn lemma_scan_remove_internal_flag(acc: ObjAttrsV, items: Seq<MetaItemV>, i: int)
    requires
        0 <= i < items.len(),
        is_internal_item(items[i]),
        scan_struct_items(acc, items) is Ok,
    ensures
        scan_struct_items(acc, items.remove(i)) is Ok,
        scan_struct_items(acc, items.remove(i))->Ok_0.name == scan_struct_items(
            acc,
            items,
        )->Ok_0.name,
        scan_struct_items(acc, items.remove(i))->Ok_0.description == scan_struct_items(
            acc,
            items,
        )->Ok_0.description,
    decreases items.len(),
{
    if i == 0 {
        assert(items.remove(0) =~= items.drop_first());
        let acc2 = step_struct(acc, items[0])->Ok_0;
        assert(acc2.name == acc.name && acc2.description == acc.description);
        lemma_scan_seed_internal_insensitive(acc, acc2, items.drop_first());
    } else {
        let acc2 = step_struct(acc, items[0])->Ok_0;
        assert(items.remove(i)[0] == items[0]);
        assert(items.remove(i).drop_first() =~= items.drop_first().remove(i - 1));
        assert(items.drop_first()[i - 1] == items[i]);
        lemma_scan_remove_internal_flag(acc2, items.drop_first(), i - 1);
    }
}

/// Internal mode, second half: for two declarations alike in everything but
/// one bare internal-visibility flag item in the annotation group, the
/// emitted blocks agree on every part — the schema-object name, the
/// description, all three fragment sequences, and the scoping binding;
/// only the referenced symbol path may differ.
pub proof fn lemma_internal_mode_no_other_effect(
    input1: StructInputV,
    input2: StructInputV,
    items1: Seq<MetaItemV>,
    i: int,
    block1: ImplBlockV,
    outcomes: Seq<Option<Seq<u8>>>,
)
    requires
        impl_input_object_spec(input1, outcomes) == Ok::<ImplBlockV, crate::model::GenErrorV>(
            block1,
        ),
        input2.ident == input1.ident,
        input2.generics == input1.generics,
        input2.data == input1.data,
        graphql_items_spec(input1.attrs) == Some(items1),
        0 <= i < items1.len(),
        is_internal_item(items1[i]),
        graphql_items_spec(input2.attrs) == Some(items1.remove(i)),
        doc_comment_spec(input2.attrs) == doc_comment_spec(input1.attrs),
    ensures
        impl_input_object_spec(input2, outcomes) is Ok,
        impl_input_object_spec(input2, outcomes)->Ok_0 == (ImplBlockV {
            crate_ref: impl_input_object_spec(input2, outcomes)->Ok_0.crate_ref,
            ..block1
        }),
{
    let sa1 = resolve_struct_attrs_spec(input1.attrs)->Ok_0;
    assert(seed_struct_attrs(input2.attrs).name == seed_struct_attrs(input1.attrs).name);
    assert(seed_struct_attrs(input2.attrs).description == seed_struct_attrs(
        input1.attrs,
    ).description);
    lemma_scan_remove_internal_flag(seed_struct_attrs(input1.attrs), items1, i);
    lemma_scan_seed_internal_insensitive(
        seed_struct_attrs(input1.attrs),
        seed_struct_attrs(input2.attrs),
        items1.remove(i),
    );
}

// ---------------------------------------------------------------------------
// Round trip and default substitution
// ---------------------------------------------------------------------------

/// A lookup in a well-formed object finds each entry's own value.
pub proof fn lemma_lookup_distinct(entries: Seq<EntryV>, i: int)
    requires
        0 <= i < entries.len(),
        distinct_names(entries),
    ensures
        lookup_spec(entries, entries[i].name) == Some(entries[i].value),
    decreases i,
{
    if i == 0 {
    } else {
        assert(entries[0].name != entries[i].name);
        assert forall|j: int, k: int|
            0 <= j < k < entries.drop_first().len() implies (
        #[trigger] entries.drop_first()[j].name) != (#[trigger] entries.drop_first()[k].name) by {
            assert(entries.drop_first()[j] == entries[j + 1]);
            assert(entries.drop_first()[k] == entries[k + 1]);
        }
        assert(entries.drop_first()[i - 1] == entries[i]);
        lemma_lookup_distinct(entries.drop_first(), i - 1);
    }
}

/// Round trip: when the emitted serialization fragments write a structure's
/// field values and the emitted deserialization fragments read them back,
/// and the exposed names are pairwise distinct, every field whose policy is
/// no-default — and every field whose serialized value is non-null — hands
/// exactly its own serialized value to the host's conversion; no default
/// substitution occurs.
pub proof fn lemma_round_trip(
    input: StructInputV,
    fields: Seq<FieldInputV>,
    block: ImplBlockV,
    vals: Seq<ValV>,
    i: int,
    outcomes: Seq<Option<Seq<u8>>>,
)
    requires
        input.data == DataShapeV::Named(fields),
        impl_input_object_spec(input, outcomes) == Ok::<ImplBlockV, crate::model::GenErrorV>(
            block,
        ),
        vals.len() == block.to_inputs.len(),
        0 <= i < block.from_inputs.len(),
        block.from_inputs[i].default is NoDefault || vals[i] is Opaque,
        forall|j: int, k: int|
            0 <= j < k < block.to_inputs.len() ==> (#[trigger] block.to_inputs[j].exposed_name)
                != (#[trigger] block.to_inputs[k].exposed_name),
    ensures
        from_input_results_spec(
            block.from_inputs,
            to_input_entries_spec(block.to_inputs, vals),
        )[i] == FieldSourceV::Converted(vals[i]),
{
    let plans = plan_fields_with(fields, outcomes)->Ok_0;
    assert(block.from_inputs == from_frags_of_plans(plans));
    assert(block.to_inputs == to_frags_of_plans(plans));
    let entries = to_input_entries_spec(block.to_inputs, vals);
    assert(entries.len() == block.to_inputs.len());
    assert forall|j: int, k: int|
        0 <= j < k < entries.len() implies (#[trigger] entries[j].name) != (
    #[trigger] entries[k].name) by {
        assert(entries[j].name == block.to_inputs[j].exposed_name);
        assert(entries[k].name == block.to_inputs[k].exposed_name);
    }
    assert(distinct_names(entries));
    lemma_lookup_distinct(entries, i);
    assert(block.from_inputs[i].exposed_name == plans[i].exposed_name);
    assert(block.to_inputs[i].exposed_name == plans[i].exposed_name);
    assert(entries[i].name == block.from_inputs[i].exposed_name);
    assert(lookup_spec(entries, block.from_inputs[i].exposed_name) == Some(vals[i]));
    assert(from_input_results_spec(block.from_inputs, entries)[i] == from_input_field_spec(
        block.from_inputs[i],
        entries,
    ));
}

/// Default substitution: a deserialization fragment whose key is missing
/// from the incoming object, or explicitly null there, substitutes its
/// default policy whenever one is set.
pub proof fn lemma_default_substitution(
    frags: Seq<FromInputFragmentV>,
    entries: Seq<EntryV>,
    i: int,
)
    requires
        0 <= i < frags.len(),
        !(frags[i].default is NoDefault),
        lookup_spec(entries, frags[i].exposed_name) is None || lookup_spec(
            entries,
            frags[i].exposed_name,
        ) == Some(ValV::Null),
    ensures
        from_input_results_spec(frags, entries)[i] == FieldSourceV::Defaulted(frags[i].default),
{
    assert(from_input_results_spec(frags, entries)[i] == from_input_field_spec(
        frags[i],
        entries,
    ));
}

} // verus!
