//! The runtime semantics of the emitted fragments, over a plain model of the
//! host framework's tagged input values.
//!
//! The generator only emits code; this module states what that code does
//! with an object-shaped input value: which entry each deserialization
//! fragment selects, when a default policy is substituted, and which
//! name/value pairs the serialization fragments produce. The host's own
//! conversion of a selected value is left opaque.

use vstd::prelude::*;

use crate::emit::{
    DefaultPolicy, DefaultPolicyV, FromInputFragment, FromInputFragmentV, ImplBlock,
    ToInputFragmentV, clone_default,
};
use crate::text::{bytes_eq, clone_bytes};

verus! {

// ---------------------------------------------------------------------------
// Input values
// ---------------------------------------------------------------------------

/// A host input value as the generator's model sees it: the null
/// representation, or an opaque non-null tagged value.
pub enum Val {
    Null,
    Opaque(Vec<u8>),
}

/// The mathematical model of a [`Val`].
pub enum ValV {
    Null,
    Opaque(Seq<u8>),
}

impl View for Val {
    type V = ValV;

    open spec fn view(&self) -> ValV {
        match self {
            Val::Null => ValV::Null,
            Val::Opaque(p) => ValV::Opaque(p@),
        }
    }
}

/// A fresh copy of an input value.
pub fn clone_val(v: &Val) -> (r: Val)
    ensures
        r@ == v@,
{
    match v {
        Val::Null => Val::Null,
        Val::Opaque(p) => Val::Opaque(clone_bytes(p)),
    }
}

/// The models of a sequence of input values.
pub open spec fn vals_view(vals: Seq<Val>) -> Seq<ValV> {
    vals.map_values(|v: Val| v@)
}

/// One name/value entry of an object-shaped input value.
pub struct Entry {
    pub name: Vec<u8>,
    pub value: Val,
}

/// The mathematical model of an [`Entry`].
pub struct EntryV {
    pub name: Seq<u8>,
    pub value: ValV,
}

impl View for Entry {
    type V = EntryV;

    open spec fn view(&self) -> EntryV {
        EntryV { name: self.name@, value: self.value@ }
    }
}

/// The models of a sequence of entries.
pub open spec fn entries_view(entries: Seq<Entry>) -> Seq<EntryV> {
    entries.map_values(|e: Entry| e@)
}

// ---------------------------------------------------------------------------
// Field lookup
// ---------------------------------------------------------------------------

/// Well-formedness of an object-shaped input value: each exposed name
/// occurs at most once. The code the generator emits reads its fields from
/// a keyed map, which holds each name once, so the model demands the same
/// of its entry list; on a list with a repeated name the first-match lookup
/// below would otherwise disagree with a map built by collecting the
/// entries, where a later duplicate overwrites an earlier one.
pub open spec fn distinct_names(entries: Seq<EntryV>) -> bool {
    forall|j: int, k: int|
        0 <= j < k < entries.len() ==> (#[trigger] entries[j].name) != (#[trigger] entries[k].name)
}

/// The value of the entry carrying the name, or nothing. Meaningful for
/// well-formed objects, where at most one entry matches.
pub open spec fn lookup_spec(entries: Seq<EntryV>, name: Seq<u8>) -> Option<ValV>
    decreases entries.len(),
{
    if entries.len() == 0 {
        None
    } else if entries[0].name == name {
        Some(entries[0].value)
    } else {
        lookup_spec(entries.drop_first(), name)
    }
}

/// Looks a field up by exposed name in a well-formed object-shaped input
/// value.
pub fn lookup<'a>(entries: &'a Vec<Entry>, name: &Vec<u8>) -> (r: Option<&'a Val>)
    requires
        distinct_names(entries_view(entries@)),
    ensures
        match r {
            Some(v) => lookup_spec(entries_view(entries@), name@) == Some(v@),
            None => lookup_spec(entries_view(entries@), name@) is None,
        },
{
    let ghost ev = entries_view(entries@);
    let mut i: usize = 0;
    proof {
        assert(ev.skip(0) =~= ev);
    }
    while i < entries.len()
        invariant
            0 <= i <= entries@.len(),
            ev == entries_view(entries@),
            ev.len() == entries@.len(),
            lookup_spec(ev, name@) == lookup_spec(ev.skip(i as int), name@),
        decreases entries@.len() - i,
    {
        proof {
            assert(ev[i as int] == entries@[i as int]@);
            assert(ev.skip(i as int)[0] == ev[i as int]);
            assert(ev.skip(i as int).drop_first() =~= ev.skip(i as int + 1));
        }
        if bytes_eq(&entries[i].name, name) {
            return Some(&entries[i].value);
        }
        i = i + 1;
    }
    proof {
        assert(ev.skip(ev.len() as int) =~= Seq::<EntryV>::empty());
    }
    None
}

// ---------------------------------------------------------------------------
// Deserialization semantics
// ---------------------------------------------------------------------------

/// What one deserialization fragment decides for its field: substitute the
/// default policy, or hand a value (possibly the null representation) to the
/// host's conversion capability.
pub enum FieldSource {
    Defaulted(DefaultPolicy),
    Converted(Val),
}

/// The mathematical model of a [`FieldSource`].
pub enum FieldSourceV {
    Defaulted(DefaultPolicyV),
    Converted(ValV),
}

impl View for FieldSource {
    type V = FieldSourceV;

    open spec fn view(&self) -> FieldSourceV {
        match self {
            FieldSource::Defaulted(d) => FieldSourceV::Defaulted(d@),
            FieldSource::Converted(v) => FieldSourceV::Converted(v@),
        }
    }
}

/// The models of a sequence of field sources.
pub open spec fn sources_view(sources: Seq<FieldSource>) -> Seq<FieldSourceV> {
    sources.map_values(|s: FieldSource| s@)
}

/// What one deserialization fragment does: a present non-null value is
/// converted; a missing key or an explicit null is substituted by the
/// default policy when one is set; otherwise the found value, or the null
/// representation for a missing key, is converted.
pub open spec fn from_input_field_spec(frag: FromInputFragmentV, entries: Seq<EntryV>) -> FieldSourceV {
    match lookup_spec(entries, frag.exposed_name) {
        Some(ValV::Null) => if frag.default is NoDefault {
            FieldSourceV::Converted(ValV::Null)
        } else {
            FieldSourceV::Defaulted(frag.default)
        },
        Some(v) => FieldSourceV::Converted(v),
        None => if frag.default is NoDefault {
            FieldSourceV::Converted(ValV::Null)
        } else {
            FieldSourceV::Defaulted(frag.default)
        },
    }
}

/// What all deserialization fragments decide, in field order.
pub open spec fn from_input_results_spec(
    frags: Seq<FromInputFragmentV>,
    entries: Seq<EntryV>,
) -> Seq<FieldSourceV> {
    frags.map_values(|f: FromInputFragmentV| from_input_field_spec(f, entries))
}

fn from_input_field(frag: &FromInputFragment, entries: &Vec<Entry>) -> (r: FieldSource)
    requires
        distinct_names(entries_view(entries@)),
    ensures
        r@ == from_input_field_spec(frag@, entries_view(entries@)),
{
    match lookup(entries, &frag.exposed_name) {
        Some(v) => {
            let defaulted = match (v, &frag.default) {
                (Val::Null, DefaultPolicy::NoDefault) => false,
                (Val::Null, _) => true,
                _ => false,
            };
            if defaulted {
                FieldSource::Defaulted(clone_default(&frag.default))
            } else {
                FieldSource::Converted(clone_val(v))
            }
        },
        None => {
            match &frag.default {
                DefaultPolicy::NoDefault => FieldSource::Converted(Val::Null),
                _ => FieldSource::Defaulted(clone_default(&frag.default)),
            }
        },
    }
}

/// Evaluates the emitted deserialization fragments of a block against a
/// well-formed object-shaped input value: one field source per fragment, in
/// field order.
pub fn from_input_object(block: &ImplBlock, entries: &Vec<Entry>) -> (r: Vec<FieldSource>)
    requires
        distinct_names(entries_view(entries@)),
    ensures
        sources_view(r@) == from_input_results_spec(
            crate::emit::from_frags_view(block.from_inputs@),
            entries_view(entries@),
        ),
{
    let ghost fw = crate::emit::from_frags_view(block.from_inputs@);
    let ghost ev = entries_view(entries@);
    let mut out: Vec<FieldSource> = Vec::new();
    let mut i: usize = 0;
    while i < block.from_inputs.len()
        invariant
            0 <= i <= block.from_inputs@.len(),
            fw == crate::emit::from_frags_view(block.from_inputs@),
            ev == entries_view(entries@),
            distinct_names(ev),
            fw.len() == block.from_inputs@.len(),
            out@.len() == i,
            forall|j: int| 0 <= j < i ==> (#[trigger] out@[j])@ == from_input_field_spec(
                fw[j],
                ev,
            ),
        decreases block.from_inputs@.len() - i,
    {
        proof {
            assert(fw[i as int] == block.from_inputs@[i as int]@);
        }
        let s = from_input_field(&block.from_inputs[i], entries);
        out.push(s);
        i = i + 1;
    }
    proof {
        assert forall|j: int| 0 <= j < fw.len() implies sources_view(out@)[j]
            == from_input_results_spec(fw, ev)[j] by {
            assert(sources_view(out@)[j] == out@[j]@);
            assert(from_input_results_spec(fw, ev)[j] == from_input_field_spec(fw[j], ev));
        }
        assert(sources_view(out@) =~= from_input_results_spec(fw, ev));
    }
    out
}

// ---------------------------------------------------------------------------
// Serialization semantics
// ---------------------------------------------------------------------------

/// The entries that the serialization fragments produce: every field is
/// paired with its exposed name, in field order; defaults never suppress
/// serialization.
pub open spec fn to_input_entries_spec(
    frags: Seq<ToInputFragmentV>,
    vals: Seq<ValV>,
) -> Seq<EntryV> {
    Seq::new(frags.len(), |i: int| EntryV { name: frags[i].exposed_name, value: vals[i] })
}

/// Evaluates the emitted serialization fragments of a block: pairs each
/// field's serialized value with its exposed name, in field order.
pub fn to_input_object(block: &ImplBlock, values: &Vec<Val>) -> (r: Vec<Entry>)
    requires
        values@.len() == block.to_inputs@.len(),
    ensures
        entries_view(r@) == to_input_entries_spec(
            crate::emit::to_frags_view(block.to_inputs@),
            vals_view(values@),
        ),
{
    let ghost tw = crate::emit::to_frags_view(block.to_inputs@);
    let ghost vw = vals_view(values@);
    let mut out: Vec<Entry> = Vec::new();
    let mut i: usize = 0;
    while i < block.to_inputs.len()
        invariant
            0 <= i <= block.to_inputs@.len(),
            tw == crate::emit::to_frags_view(block.to_inputs@),
            vw == vals_view(values@),
            tw.len() == block.to_inputs@.len(),
            vw.len() == tw.len(),
            out@.len() == i,
            entries_view(out@) == to_input_entries_spec(tw, vw).take(i as int),
        decreases block.to_inputs@.len() - i,
    {
        let e = Entry {
            name: clone_bytes(&block.to_inputs[i].exposed_name),
            value: clone_val(&values[i]),
        };
        out.push(e);
        proof {
            assert(tw[i as int] == block.to_inputs@[i as int]@);
            assert(vw[i as int] == values@[i as int]@);
            assert(entries_view(out@) =~= to_input_entries_spec(tw, vw).take(i as int + 1));
        }
        i = i + 1;
    }
    proof {
        assert(to_input_entries_spec(tw, vw).take(tw.len() as int) =~= to_input_entries_spec(
            tw,
            vw,
        ));
    }
    out
}

} // verus!
