//! The schema emission engine: walks the declared fields, resolves the
//! per-field model, and produces the implementation-block model with one
//! metadata-registration fragment, one deserialization fragment and one
//! serialization fragment per field, in declaration order.

use vstd::prelude::*;

use crate::attrs::{ObjAttrs, ObjFieldAttrs, ObjFieldAttrsV, resolve_field_attrs_spec,
    resolve_struct_attrs_spec};
use crate::model::{
    DataShape, FieldInputV, GenError, GenErrorV, StructInput, fields_view, opt_view, result_view,
};
use crate::text::{append_bytes, clone_bytes, to_camel_case, to_camel_case_spec};

verus! {

// ---------------------------------------------------------------------------
// Default policies
// ---------------------------------------------------------------------------

/// The rule governing what value a field takes when it is absent or null in
/// incoming data.
pub enum DefaultPolicy {
    /// No default: a present value is converted, a missing key is converted
    /// from the null representation.
    NoDefault,
    /// The bare `default` flag: the type's default value is substituted.
    DefaultTrait,
    /// A `default = "..."` expression; carries the validated token text.
    Expression(Vec<u8>),
}

/// The mathematical model of a [`DefaultPolicy`].
pub enum DefaultPolicyV {
    NoDefault,
    DefaultTrait,
    Expression(Seq<u8>),
}

impl View for DefaultPolicy {
    type V = DefaultPolicyV;

    open spec fn view(&self) -> DefaultPolicyV {
        match self {
            DefaultPolicy::NoDefault => DefaultPolicyV::NoDefault,
            DefaultPolicy::DefaultTrait => DefaultPolicyV::DefaultTrait,
            DefaultPolicy::Expression(t) => DefaultPolicyV::Expression(t@),
        }
    }
}

/// A fresh copy of a default policy.
pub fn clone_default(d: &DefaultPolicy) -> (r: DefaultPolicy)
    ensures
        r@ == d@,
{
    match d {
        DefaultPolicy::NoDefault => DefaultPolicy::NoDefault,
        DefaultPolicy::DefaultTrait => DefaultPolicy::DefaultTrait,
        DefaultPolicy::Expression(t) => DefaultPolicy::Expression(clone_bytes(t)),
    }
}

// ---------------------------------------------------------------------------
// Default expression validation
// ---------------------------------------------------------------------------

/// The longest default-expression string handed to the outside parser.
/// The parser recurses on the input, so the bound keeps the call within the
/// machine's stack; a longer expression is rejected as malformed without
/// being parsed.
pub const EXPR_SRC_LIMIT: usize = 1024;

/// Relies on `syn::parse_str::<syn::Expr>` to decide whether the bytes hold
/// a syntactically valid Rust expression, and on `quote::ToTokens` for the
/// token text of the parsed tree. Both route through the host compiler's
/// own lexer and printer inside a macro expansion and through a fallback
/// outside one, and the two may disagree in spacing and in what they
/// accept; nothing is therefore assumed of the outcome, and the emission
/// contract is stated relative to whatever the call returned. The length
/// bound keeps the parser's recursion within the stack.
#[verifier::external_body]
fn parse_default_expr(s: &Vec<u8>) -> (r: Option<Vec<u8>>)
    requires
        s@.len() <= EXPR_SRC_LIMIT,
{
    let text = match std::str::from_utf8(s.as_slice()) {
        Ok(t) => t,
        Err(_) => return None,
    };
    match syn::parse_str::<syn::Expr>(text) {
        Ok(e) => Some(quote::ToTokens::to_token_stream(&e).to_string().into_bytes()),
        Err(_) => None,
    }
}

/// The default policy of a field's resolved attributes, relative to the
/// validator's outcome for its expression string: the bare flag wins over
/// an expression; an expression over the length bound, or one the validator
/// rejected, is a fatal error; a validated expression's token text is
/// carried through unchanged; and otherwise there is no default.
pub open spec fn default_policy_with(fa: ObjFieldAttrsV, outcome: Option<Seq<u8>>) -> Result<
    DefaultPolicyV,
    GenErrorV,
> {
    if fa.default {
        Ok(DefaultPolicyV::DefaultTrait)
    } else {
        match fa.default_expr {
            Some(src) => if src.len() > EXPR_SRC_LIMIT as nat {
                Err(GenErrorV::MalformedDefaultExpr)
            } else {
                match outcome {
                    Some(t) => Ok(DefaultPolicyV::Expression(t)),
                    None => Err(GenErrorV::MalformedDefaultExpr),
                }
            },
            None => Ok(DefaultPolicyV::NoDefault),
        }
    }
}

/// Whether a field's resolution reaches the outside validator at all: only
/// then can the validator's outcome influence generation.
pub open spec fn consults_validator(f: FieldInputV) -> bool {
    match resolve_field_attrs_spec(f.attrs) {
        Ok(fa) => !fa.default && match fa.default_expr {
            Some(src) => src.len() <= EXPR_SRC_LIMIT as nat,
            None => false,
        },
        Err(_) => false,
    }
}

// ---------------------------------------------------------------------------
// Per-field plans
// ---------------------------------------------------------------------------

/// The resolved per-field model: declared identifier and type, effective
/// exposed name, effective description, and default policy.
pub struct FieldPlanV {
    pub ident: Seq<u8>,
    pub ty: Seq<u8>,
    pub exposed_name: Seq<u8>,
    pub description: Option<Seq<u8>>,
    pub default: DefaultPolicyV,
}

/// The effective exposed name: the explicit override when present, else the
/// camel-case form of the declared identifier.
pub open spec fn effective_name(name_override: Option<Seq<u8>>, ident: Seq<u8>) -> Seq<u8> {
    match name_override {
        Some(n) => n,
        None => to_camel_case_spec(ident),
    }
}

/// The per-field model of one declared field, relative to the validator's
/// outcome for its default expression; or the first fatal error of its
/// attribute resolution or default validation.
pub open spec fn field_plan_with(f: FieldInputV, outcome: Option<Seq<u8>>) -> Result<
    FieldPlanV,
    GenErrorV,
> {
    match resolve_field_attrs_spec(f.attrs) {
        Err(e) => Err(e),
        Ok(fa) => match default_policy_with(fa, outcome) {
            Err(e) => Err(e),
            Ok(dp) => Ok(
                FieldPlanV {
                    ident: f.ident,
                    ty: f.ty,
                    exposed_name: effective_name(fa.name, f.ident),
                    description: fa.description,
                    default: dp,
                },
            ),
        },
    }
}

/// The per-field models of all declared fields in declaration order,
/// relative to one validator outcome per field; or the first fatal error.
pub open spec fn plan_fields_with(
    fields: Seq<FieldInputV>,
    outcomes: Seq<Option<Seq<u8>>>,
) -> Result<Seq<FieldPlanV>, GenErrorV>
    decreases fields.len(),
{
    if fields.len() == 0 {
        Ok(Seq::empty())
    } else {
        match field_plan_with(fields[0], outcomes[0]) {
            Err(e) => Err(e),
            Ok(p) => match plan_fields_with(fields.drop_first(), outcomes.drop_first()) {
                Err(e) => Err(e),
                Ok(rest) => Ok(seq![p] + rest),
            },
        }
    }
}

// ---------------------------------------------------------------------------
// Fragments
// ---------------------------------------------------------------------------

/// One metadata-registration fragment: registers an input argument of the
/// declared type under the exposed name, with its default and description.
pub struct MetaFieldFragment {
    pub exposed_name: Vec<u8>,
    pub ty: Vec<u8>,
    pub description: Option<Vec<u8>>,
    pub default: DefaultPolicy,
}

/// The mathematical model of a [`MetaFieldFragment`].
pub struct MetaFieldFragmentV {
    pub exposed_name: Seq<u8>,
    pub ty: Seq<u8>,
    pub description: Option<Seq<u8>>,
    pub default: DefaultPolicyV,
}

impl View for MetaFieldFragment {
    type V = MetaFieldFragmentV;

    open spec fn view(&self) -> MetaFieldFragmentV {
        MetaFieldFragmentV {
            exposed_name: self.exposed_name@,
            ty: self.ty@,
            description: opt_view(self.description),
            default: self.default@,
        }
    }
}

/// One deserialization fragment: looks the exposed name up in the incoming
/// object and fills the declared field, substituting the default policy when
/// the key is absent or null.
pub struct FromInputFragment {
    pub field_ident: Vec<u8>,
    pub exposed_name: Vec<u8>,
    pub default: DefaultPolicy,
}

/// The mathematical model of a [`FromInputFragment`].
pub struct FromInputFragmentV {
    pub field_ident: Seq<u8>,
    pub exposed_name: Seq<u8>,
    pub default: DefaultPolicyV,
}

impl View for FromInputFragment {
    type V = FromInputFragmentV;

    open spec fn view(&self) -> FromInputFragmentV {
        FromInputFragmentV {
            field_ident: self.field_ident@,
            exposed_name: self.exposed_name@,
            default: self.default@,
        }
    }
}

/// One serialization fragment: always pairs the exposed name with the
/// serialized declared field; defaults never suppress serialization.
pub struct ToInputFragment {
    pub field_ident: Vec<u8>,
    pub exposed_name: Vec<u8>,
}

/// The mathematical model of a [`ToInputFragment`].
pub struct ToInputFragmentV {
    pub field_ident: Seq<u8>,
    pub exposed_name: Seq<u8>,
}

impl View for ToInputFragment {
    type V = ToInputFragmentV;

    open spec fn view(&self) -> ToInputFragmentV {
        ToInputFragmentV { field_ident: self.field_ident@, exposed_name: self.exposed_name@ }
    }
}

/// The metadata-registration fragment of a per-field plan.
pub open spec fn meta_fragment_of(p: FieldPlanV) -> MetaFieldFragmentV {
    MetaFieldFragmentV {
        exposed_name: p.exposed_name,
        ty: p.ty,
        description: p.description,
        default: p.default,
    }
}

/// The deserialization fragment of a per-field plan.
pub open spec fn from_fragment_of(p: FieldPlanV) -> FromInputFragmentV {
    FromInputFragmentV { field_ident: p.ident, exposed_name: p.exposed_name, default: p.default }
}

/// The serialization fragment of a per-field plan.
pub open spec fn to_fragment_of(p: FieldPlanV) -> ToInputFragmentV {
    ToInputFragmentV { field_ident: p.ident, exposed_name: p.exposed_name }
}

/// The metadata fragments of a sequence of per-field plans.
pub open spec fn meta_frags_of_plans(plans: Seq<FieldPlanV>) -> Seq<MetaFieldFragmentV> {
    plans.map_values(|p: FieldPlanV| meta_fragment_of(p))
}

/// The deserialization fragments of a sequence of per-field plans.
pub open spec fn from_frags_of_plans(plans: Seq<FieldPlanV>) -> Seq<FromInputFragmentV> {
    plans.map_values(|p: FieldPlanV| from_fragment_of(p))
}

/// The serialization fragments of a sequence of per-field plans.
pub open spec fn to_frags_of_plans(plans: Seq<FieldPlanV>) -> Seq<ToInputFragmentV> {
    plans.map_values(|p: FieldPlanV| to_fragment_of(p))
}

proof fn lemma_frag_seqs_push(
    mv: Seq<MetaFieldFragment>,
    mx: MetaFieldFragment,
    fv: Seq<FromInputFragment>,
    fx: FromInputFragment,
    tv: Seq<ToInputFragment>,
    tx: ToInputFragment,
    plans: Seq<FieldPlanV>,
    p: FieldPlanV,
)
    ensures
        meta_frags_view(mv.push(mx)) == meta_frags_view(mv).push(mx@),
        from_frags_view(fv.push(fx)) == from_frags_view(fv).push(fx@),
        to_frags_view(tv.push(tx)) == to_frags_view(tv).push(tx@),
        meta_frags_of_plans(plans.push(p)) == meta_frags_of_plans(plans).push(meta_fragment_of(p)),
        from_frags_of_plans(plans.push(p)) == from_frags_of_plans(plans).push(from_fragment_of(p)),
        to_frags_of_plans(plans.push(p)) == to_frags_of_plans(plans).push(to_fragment_of(p)),
{
    assert(meta_frags_view(mv.push(mx)) =~= meta_frags_view(mv).push(mx@));
    assert(from_frags_view(fv.push(fx)) =~= from_frags_view(fv).push(fx@));
    assert(to_frags_view(tv.push(tx)) =~= to_frags_view(tv).push(tx@));
    assert(meta_frags_of_plans(plans.push(p)) =~= meta_frags_of_plans(plans).push(
        meta_fragment_of(p),
    ));
    assert(from_frags_of_plans(plans.push(p)) =~= from_frags_of_plans(plans).push(
        from_fragment_of(p),
    ));
    assert(to_frags_of_plans(plans.push(p)) =~= to_frags_of_plans(plans).push(to_fragment_of(p)));
}

/// The models of a sequence of metadata fragments.
pub open spec fn meta_frags_view(v: Seq<MetaFieldFragment>) -> Seq<MetaFieldFragmentV> {
    v.map_values(|f: MetaFieldFragment| f@)
}

/// The models of a sequence of deserialization fragments.
pub open spec fn from_frags_view(v: Seq<FromInputFragment>) -> Seq<FromInputFragmentV> {
    v.map_values(|f: FromInputFragment| f@)
}

/// The models of a sequence of serialization fragments.
pub open spec fn to_frags_view(v: Seq<ToInputFragment>) -> Seq<ToInputFragmentV> {
    v.map_values(|f: ToInputFragment| f@)
}

// ---------------------------------------------------------------------------
// The implementation block
// ---------------------------------------------------------------------------

/// The module path that the generated code references for shared framework
/// symbols: the self-referential path when the structure carries the
/// internal-visibility flag, else the external dependency path. A
/// namespacing decision with no effect on schema semantics.
pub enum CrateRef {
    Internal,
    External,
}

impl View for CrateRef {
    type V = CrateRef;

    open spec fn view(&self) -> CrateRef {
        *self
    }
}

/// The emitted implementation block: the three capability implementations
/// over the same exposed-name set in declaration order, the effective
/// schema-object name and description, the symbol-path selection, and the
/// uniquely named scoping binding.
pub struct ImplBlock {
    pub struct_ident: Vec<u8>,
    pub generics: Vec<u8>,
    pub name: Vec<u8>,
    pub description: Option<Vec<u8>>,
    pub crate_ref: CrateRef,
    pub meta_fields: Vec<MetaFieldFragment>,
    pub from_inputs: Vec<FromInputFragment>,
    pub to_inputs: Vec<ToInputFragment>,
    pub dummy_const: Vec<u8>,
}

/// The mathematical model of an [`ImplBlock`].
pub struct ImplBlockV {
    pub struct_ident: Seq<u8>,
    pub generics: Seq<u8>,
    pub name: Seq<u8>,
    pub description: Option<Seq<u8>>,
    pub crate_ref: CrateRef,
    pub meta_fields: Seq<MetaFieldFragmentV>,
    pub from_inputs: Seq<FromInputFragmentV>,
    pub to_inputs: Seq<ToInputFragmentV>,
    pub dummy_const: Seq<u8>,
}

impl View for ImplBlock {
    type V = ImplBlockV;

    open spec fn view(&self) -> ImplBlockV {
        ImplBlockV {
            struct_ident: self.struct_ident@,
            generics: self.generics@,
            name: self.name@,
            description: opt_view(self.description),
            crate_ref: self.crate_ref,
            meta_fields: meta_frags_view(self.meta_fields@),
            from_inputs: from_frags_view(self.from_inputs@),
            to_inputs: to_frags_view(self.to_inputs@),
            dummy_const: self.dummy_const@,
        }
    }
}

/// The prefix of the uniquely named scoping binding.
pub open spec fn dummy_const_prefix() -> Seq<u8> {
    seq![
        '_' as u8,
        'I' as u8,
        'M' as u8,
        'P' as u8,
        'L' as u8,
        '_' as u8,
        'G' as u8,
        'R' as u8,
        'A' as u8,
        'P' as u8,
        'H' as u8,
        'Q' as u8,
        'L' as u8,
        'I' as u8,
        'N' as u8,
        'P' as u8,
        'U' as u8,
        'T' as u8,
        'O' as u8,
        'B' as u8,
        'J' as u8,
        'E' as u8,
        'C' as u8,
        'T' as u8,
        '_' as u8,
        'F' as u8,
        'O' as u8,
        'R' as u8,
        '_' as u8,
    ]
}

/// The name of the scoping binding, derived deterministically from the
/// structure's identifier.
pub open spec fn dummy_const_spec(ident: Seq<u8>) -> Seq<u8> {
    dummy_const_prefix() + ident
}

fn dummy_const_vec(ident: &Vec<u8>) -> (r: Vec<u8>)
    ensures
        r@ == dummy_const_spec(ident@),
{
    let mut d: Vec<u8> = Vec::new();
    d.push('_' as u8);
    d.push('I' as u8);
    d.push('M' as u8);
    d.push('P' as u8);
    d.push('L' as u8);
    d.push('_' as u8);
    d.push('G' as u8);
    d.push('R' as u8);
    d.push('A' as u8);
    d.push('P' as u8);
    d.push('H' as u8);
    d.push('Q' as u8);
    d.push('L' as u8);
    d.push('I' as u8);
    d.push('N' as u8);
    d.push('P' as u8);
    d.push('U' as u8);
    d.push('T' as u8);
    d.push('O' as u8);
    d.push('B' as u8);
    d.push('J' as u8);
    d.push('E' as u8);
    d.push('C' as u8);
    d.push('T' as u8);
    d.push('_' as u8);
    d.push('F' as u8);
    d.push('O' as u8);
    d.push('R' as u8);
    d.push('_' as u8);
    proof {
        assert(d@ =~= dummy_const_prefix());
    }
    append_bytes(&mut d, ident);
    d
}

proof fn lemma_plan_with_error(
    fields: Seq<FieldInputV>,
    outcomes: Seq<Option<Seq<u8>>>,
    i: int,
    e: GenErrorV,
)
    requires
        0 <= i < fields.len(),
        i < outcomes.len(),
        plan_fields_with(fields.take(i), outcomes.take(i)) is Ok,
        field_plan_with(fields[i], outcomes[i]) == Err::<FieldPlanV, GenErrorV>(e),
    ensures
        plan_fields_with(fields, outcomes) == Err::<Seq<FieldPlanV>, GenErrorV>(e),
    decreases i,
{
    if i == 0 {
    } else {
        assert(fields.take(i)[0] == fields[0]);
        assert(outcomes.take(i)[0] == outcomes[0]);
        assert(fields.take(i).drop_first() =~= fields.drop_first().take(i - 1));
        assert(outcomes.take(i).drop_first() =~= outcomes.drop_first().take(i - 1));
        assert(fields.drop_first()[i - 1] == fields[i]);
        assert(outcomes.drop_first()[i - 1] == outcomes[i]);
        lemma_plan_with_error(fields.drop_first(), outcomes.drop_first(), i - 1, e);
    }
}

proof fn lemma_plan_with_extend(
    fields: Seq<FieldInputV>,
    outcomes: Seq<Option<Seq<u8>>>,
    i: int,
    p: FieldPlanV,
    ps: Seq<FieldPlanV>,
)
    requires
        0 <= i < fields.len(),
        i < outcomes.len(),
        plan_fields_with(fields.take(i), outcomes.take(i)) == Ok::<Seq<FieldPlanV>, GenErrorV>(
            ps,
        ),
        field_plan_with(fields[i], outcomes[i]) == Ok::<FieldPlanV, GenErrorV>(p),
    ensures
        plan_fields_with(fields.take(i + 1), outcomes.take(i + 1)) == Ok::<
            Seq<FieldPlanV>,
            GenErrorV,
        >(ps.push(p)),
    decreases i,
{
    if i == 0 {
        assert(fields.take(0) =~= Seq::<FieldInputV>::empty());
        assert(ps == Seq::<FieldPlanV>::empty());
        assert(fields.take(1)[0] == fields[0]);
        assert(outcomes.take(1)[0] == outcomes[0]);
        assert(fields.take(1).drop_first() =~= Seq::<FieldInputV>::empty());
        assert(plan_fields_with(fields.take(1).drop_first(), outcomes.take(1).drop_first())
            == Ok::<Seq<FieldPlanV>, GenErrorV>(Seq::empty()));
        assert(seq![p] + Seq::<FieldPlanV>::empty() =~= ps.push(p));
        assert(plan_fields_with(fields.take(1), outcomes.take(1)) == Ok::<
            Seq<FieldPlanV>,
            GenErrorV,
        >(seq![p] + Seq::<FieldPlanV>::empty()));
    } else {
        assert(fields.take(i)[0] == fields[0]);
        assert(outcomes.take(i)[0] == outcomes[0]);
        assert(fields.take(i).drop_first() =~= fields.drop_first().take(i - 1));
        assert(outcomes.take(i).drop_first() =~= outcomes.drop_first().take(i - 1));
        assert(fields.take(i + 1)[0] == fields[0]);
        assert(outcomes.take(i + 1)[0] == outcomes[0]);
        assert(fields.take(i + 1).drop_first() =~= fields.drop_first().take(i));
        assert(outcomes.take(i + 1).drop_first() =~= outcomes.drop_first().take(i));
        assert(fields.drop_first()[i - 1] == fields[i]);
        assert(outcomes.drop_first()[i - 1] == outcomes[i]);
        let p0 = field_plan_with(fields[0], outcomes[0])->Ok_0;
        let rest = plan_fields_with(
            fields.drop_first().take(i - 1),
            outcomes.drop_first().take(i - 1),
        )->Ok_0;
        assert(ps == seq![p0] + rest);
        lemma_plan_with_extend(fields.drop_first(), outcomes.drop_first(), i - 1, p, rest);
        assert(seq![p0] + rest.push(p) =~= (seq![p0] + rest).push(p));
    }
}

/// The number of declared fields under a body shape: one validator outcome
/// stands per field.
pub open spec fn data_field_count(d: crate::model::DataShapeV) -> nat {
    match d {
        crate::model::DataShapeV::Named(fields) => fields.len(),
        _ => 0,
    }
}

/// The whole generation, relative to one validator outcome per field: the
/// shape check, the structure-level resolution, the per-field plans, and
/// the assembled implementation block; or the first fatal error, with no
/// partial output. Everything but the token text inside an `Expression`
/// policy, and which expressions the validator rejects, is independent of
/// the outcomes.
pub open spec fn impl_input_object_spec(
    input: crate::model::StructInputV,
    outcomes: Seq<Option<Seq<u8>>>,
) -> Result<ImplBlockV, GenErrorV> {
    match input.data {
        crate::model::DataShapeV::NotStruct => Err(GenErrorV::NotAStruct),
        crate::model::DataShapeV::OtherStruct => Err(GenErrorV::NotNamedFields),
        crate::model::DataShapeV::Named(fields) => match resolve_struct_attrs_spec(input.attrs) {
            Err(e) => Err(e),
            Ok(sa) => match plan_fields_with(fields, outcomes) {
                Err(e) => Err(e),
                Ok(plans) => Ok(
                    ImplBlockV {
                        struct_ident: input.ident,
                        generics: input.generics,
                        name: match sa.name {
                            Some(n) => n,
                            None => input.ident,
                        },
                        description: sa.description,
                        crate_ref: if sa.internal {
                            CrateRef::Internal
                        } else {
                            CrateRef::External
                        },
                        meta_fields: meta_frags_of_plans(plans),
                        from_inputs: from_frags_of_plans(plans),
                        to_inputs: to_frags_of_plans(plans),
                        dummy_const: dummy_const_spec(input.ident),
                    },
                ),
            },
        },
    }
}

/// Generates the implementation-block model for one annotated structure
/// declaration, or fails fatally on the first shape, attribute, identifier
/// or default-expression error. The contract is relational in the outside
/// validator: the result equals the specification under some sequence of
/// per-field validator outcomes — everything else about it is pinned.
pub fn impl_input_object(ast: &StructInput) -> (r: Result<ImplBlock, GenError>)
    ensures
        exists|outcomes: Seq<Option<Seq<u8>>>|
            outcomes.len() == data_field_count(ast@.data) && result_view(r)
                == #[trigger] impl_input_object_spec(ast@, outcomes),
{
    let fields = match &ast.data {
        DataShape::Named(fields) => fields,
        DataShape::OtherStruct => {
            proof {
                assert(impl_input_object_spec(ast@, Seq::empty()) == Err::<ImplBlockV, GenErrorV>(
                    GenErrorV::NotNamedFields,
                ));
            }
            return Err(GenError::NotNamedFields);
        },
        DataShape::NotStruct => {
            proof {
                assert(impl_input_object_spec(ast@, Seq::empty()) == Err::<ImplBlockV, GenErrorV>(
                    GenErrorV::NotAStruct,
                ));
            }
            return Err(GenError::NotAStruct);
        },
    };
    let ghost fv = fields_view(fields@);
    let ghost all_none: Seq<Option<Seq<u8>>> = Seq::new(fv.len(), |j: int| None);

    let attrs = match ObjAttrs::from_input(ast) {
        Ok(a) => a,
        Err(e) => {
            proof {
                assert(impl_input_object_spec(ast@, all_none) == Err::<ImplBlockV, GenErrorV>(
                    e@,
                ));
            }
            return Err(e);
        },
    };
    let ghost sa = attrs@;
    let name = match attrs.name {
        Some(n) => n,
        None => clone_bytes(&ast.ident),
    };

    let mut meta_fields: Vec<MetaFieldFragment> = Vec::new();
    let mut from_inputs: Vec<FromInputFragment> = Vec::new();
    let mut to_inputs: Vec<ToInputFragment> = Vec::new();
    let ghost mut plans: Seq<FieldPlanV> = Seq::empty();
    let ghost mut outs: Seq<Option<Seq<u8>>> = Seq::new(fv.len(), |j: int| None);

    let mut i: usize = 0;
    proof {
        assert(fv.take(0) =~= Seq::<FieldInputV>::empty());
        assert(outs.take(0) =~= Seq::<Option<Seq<u8>>>::empty());
    }
    while i < fields.len()
        invariant
            0 <= i <= fields@.len(),
            fv == fields_view(fields@),
            fv.len() == fields@.len(),
            ast@.data == crate::model::DataShapeV::Named(fv),
            resolve_struct_attrs_spec(ast@.attrs) == Ok::<crate::attrs::ObjAttrsV, GenErrorV>(sa),
            plans.len() == i,
            outs.len() == fv.len(),
            forall|j: int| i <= j < fv.len() ==> (#[trigger] outs[j]) is None,
            plan_fields_with(fv.take(i as int), outs.take(i as int)) == Ok::<
                Seq<FieldPlanV>,
                GenErrorV,
            >(plans),
            meta_frags_view(meta_fields@) == meta_frags_of_plans(plans),
            from_frags_view(from_inputs@) == from_frags_of_plans(plans),
            to_frags_view(to_inputs@) == to_frags_of_plans(plans),
        decreases fields@.len() - i,
    {
        proof {
            assert(fv[i as int] == fields@[i as int]@);
        }
        let field = &fields[i];

        let field_attrs = match ObjFieldAttrs::from_input(field) {
            Ok(a) => a,
            Err(e) => {
                proof {
                    assert(outs[i as int] is None);
                    assert(field_plan_with(fv[i as int], outs[i as int]) == Err::<
                        FieldPlanV,
                        GenErrorV,
                    >(e@));
                    lemma_plan_with_error(fv, outs, i as int, e@);
                    assert(impl_input_object_spec(ast@, outs) == Err::<ImplBlockV, GenErrorV>(
                        e@,
                    ));
                }
                return Err(e);
            },
        };
        let ghost fa = field_attrs@;

        let exposed = match field_attrs.name {
            Some(n) => n,
            None => to_camel_case(&field.ident),
        };

        let ghost mut out_i: Option<Seq<u8>> = None;
        let default = if field_attrs.default {
            DefaultPolicy::DefaultTrait
        } else {
            match &field_attrs.default_expr {
                Some(src) => {
                    if src.len() > EXPR_SRC_LIMIT {
                        proof {
                            assert(outs[i as int] is None);
                            assert(field_plan_with(fv[i as int], outs[i as int]) == Err::<
                                FieldPlanV,
                                GenErrorV,
                            >(GenErrorV::MalformedDefaultExpr));
                            lemma_plan_with_error(
                                fv,
                                outs,
                                i as int,
                                GenErrorV::MalformedDefaultExpr,
                            );
                            assert(impl_input_object_spec(ast@, outs) == Err::<
                                ImplBlockV,
                                GenErrorV,
                            >(GenErrorV::MalformedDefaultExpr));
                        }
                        return Err(GenError::MalformedDefaultExpr);
                    }
                    match parse_default_expr(src) {
                        Some(t) => {
                            proof {
                                out_i = Some(t@);
                            }
                            DefaultPolicy::Expression(t)
                        },
                        None => {
                            proof {
                                assert(outs[i as int] is None);
                                assert(field_plan_with(fv[i as int], outs[i as int]) == Err::<
                                    FieldPlanV,
                                    GenErrorV,
                                >(GenErrorV::MalformedDefaultExpr));
                                lemma_plan_with_error(
                                    fv,
                                    outs,
                                    i as int,
                                    GenErrorV::MalformedDefaultExpr,
                                );
                                assert(impl_input_object_spec(ast@, outs) == Err::<
                                    ImplBlockV,
                                    GenErrorV,
                                >(GenErrorV::MalformedDefaultExpr));
                            }
                            return Err(GenError::MalformedDefaultExpr);
                        },
                    }
                },
                None => DefaultPolicy::NoDefault,
            }
        };

        let ghost plan_i = FieldPlanV {
            ident: fv[i as int].ident,
            ty: fv[i as int].ty,
            exposed_name: exposed@,
            description: fa.description,
            default: default@,
        };
        proof {
            assert(field_plan_with(fv[i as int], out_i) == Ok::<FieldPlanV, GenErrorV>(plan_i));
        }

        meta_fields.push(
            MetaFieldFragment {
                exposed_name: clone_bytes(&exposed),
                ty: clone_bytes(&field.ty),
                description: field_attrs.description,
                default: clone_default(&default),
            },
        );
        from_inputs.push(
            FromInputFragment {
                field_ident: clone_bytes(&field.ident),
                exposed_name: clone_bytes(&exposed),
                default,
            },
        );
        to_inputs.push(
            ToInputFragment { field_ident: clone_bytes(&field.ident), exposed_name: exposed },
        );

        let ghost plans_pre = plans;
        let ghost outs_pre = outs;
        proof {
            plans = plans.push(plan_i);
            outs = outs.update(i as int, out_i);
            assert(outs.take(i as int) =~= outs_pre.take(i as int));
            assert(outs[i as int] == out_i);
            assert forall|j: int| i as int + 1 <= j < fv.len() implies (#[trigger] outs[j])
                is None by {
                assert(outs[j] == outs_pre[j]);
            }
            lemma_frag_seqs_push(
                meta_fields@.drop_last(),
                meta_fields@.last(),
                from_inputs@.drop_last(),
                from_inputs@.last(),
                to_inputs@.drop_last(),
                to_inputs@.last(),
                plans_pre,
                plan_i,
            );
            assert(meta_fields@.drop_last().push(meta_fields@.last()) =~= meta_fields@);
            assert(from_inputs@.drop_last().push(from_inputs@.last()) =~= from_inputs@);
            assert(to_inputs@.drop_last().push(to_inputs@.last()) =~= to_inputs@);
            lemma_plan_with_extend(fv, outs, i as int, plan_i, plans_pre);
        }
        i = i + 1;
    }
    proof {
        assert(fv.take(fv.len() as int) =~= fv);
        assert(outs.take(outs.len() as int) =~= outs);
    }

    let dummy_const = dummy_const_vec(&ast.ident);
    let block = ImplBlock {
        struct_ident: clone_bytes(&ast.ident),
        generics: clone_bytes(&ast.generics),
        name,
        description: attrs.description,
        crate_ref: if attrs.internal {
            CrateRef::Internal
        } else {
            CrateRef::External
        },
        meta_fields,
        from_inputs,
        to_inputs,
        dummy_const,
    };
    proof {
        assert(impl_input_object_spec(ast@, outs) == Ok::<ImplBlockV, GenErrorV>(block@));
    }
    Ok(block)
}

} // verus!
