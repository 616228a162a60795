//! Generation of the reset method: from a type declaration, which fields a
//! reset must reach and in what order, and what to tell the type's author.
use vstd::prelude::*;

use crate::classify::FieldOptions;
use crate::render::{impl_text, render_impl};
use crate::shape::{Declaration, FieldShape, ShapeData, VariantShape};

verus! {

/// How a stat field is reached from its struct or variant, in the model.
pub enum FieldKey {
    Name(Seq<char>),
    Position(int),
}

/// How a stat field is reached from its struct or variant: by name, or by
/// position for a positional field.
#[derive(Clone, Debug, PartialEq)]
pub enum FieldRef {
    Named(String),
    Index(usize),
}

impl View for FieldRef {
    type V = FieldKey;

    open spec fn view(&self) -> FieldKey {
        match self {
            FieldRef::Named(name) => FieldKey::Name(name@),
            FieldRef::Index(i) => FieldKey::Position(*i as int),
        }
    }
}

/// The model of a sequence of field references.
pub open spec fn refs_view(refs: Seq<FieldRef>) -> Seq<FieldKey> {
    refs.map_values(|r: FieldRef| r@)
}

/// How the field at position `i` is reached.
pub open spec fn field_key(field: FieldShape, i: int) -> FieldKey {
    match field.ident {
        Some(name) => FieldKey::Name(name@),
        None => FieldKey::Position(i),
    }
}

/// The stat fields among `fields`, in declaration order.
pub open spec fn stat_keys(fields: Seq<FieldShape>) -> Seq<FieldKey>
    decreases fields.len(),
{
    if fields.len() == 0 {
        seq![]
    } else {
        let i = fields.len() - 1;
        let before = stat_keys(fields.drop_last());
        if fields[i].is_stat_field() {
            before.push(field_key(fields[i], i))
        } else {
            before
        }
    }
}

/// One arm of the dispatch that resets an enum, in the model.
pub struct ArmView {
    pub variant: Seq<char>,
    pub keys: Seq<FieldKey>,
}

/// One arm of the dispatch that resets an enum: the variant and the stat
/// fields that its pattern binds.
#[derive(Clone, Debug, PartialEq)]
pub struct VariantPlan {
    pub ident: String,
    pub fields: Vec<FieldRef>,
}

impl View for VariantPlan {
    type V = ArmView;

    open spec fn view(&self) -> ArmView {
        ArmView { variant: self.ident@, keys: refs_view(self.fields@) }
    }
}

/// The model of a sequence of arms.
pub open spec fn arms_view(arms: Seq<VariantPlan>) -> Seq<ArmView> {
    arms.map_values(|a: VariantPlan| a@)
}

/// The arms of an enum's dispatch: one for each variant with at least one
/// stat field, in declaration order. The other variants fall through to a
/// fallback arm that does nothing.
pub open spec fn variant_arms(variants: Seq<VariantShape>) -> Seq<ArmView>
    decreases variants.len(),
{
    if variants.len() == 0 {
        seq![]
    } else {
        let v = variants.last();
        let before = variant_arms(variants.drop_last());
        let keys = stat_keys(v.fields@);
        if keys.len() > 0 {
            before.push(ArmView { variant: v.ident@, keys })
        } else {
            before
        }
    }
}

/// What the reset method does, in the model.
pub enum PlanView {
    Fields(Seq<FieldKey>),
    Arms(Seq<ArmView>),
}

/// What the reset method does: reset the listed fields of a struct, or
/// dispatch on an enum's variant.
#[derive(Clone, Debug, PartialEq)]
pub enum ResetPlan {
    Fields(Vec<FieldRef>),
    Arms(Vec<VariantPlan>),
}

impl View for ResetPlan {
    type V = PlanView;

    open spec fn view(&self) -> PlanView {
        match self {
            ResetPlan::Fields(refs) => PlanView::Fields(refs_view(refs@)),
            ResetPlan::Arms(arms) => PlanView::Arms(arms_view(arms@)),
        }
    }
}

/// Holds when the plan resets nothing.
pub open spec fn plan_is_empty(plan: PlanView) -> bool {
    match plan {
        PlanView::Fields(keys) => keys.len() == 0,
        PlanView::Arms(arms) => arms.len() == 0,
    }
}

/// The plan for a struct or enum body.
pub open spec fn plan_of(data: ShapeData) -> PlanView
    recommends
        !(data is Union),
{
    match data {
        ShapeData::Struct(fields) => PlanView::Fields(stat_keys(fields@)),
        ShapeData::Enum(variants) => PlanView::Arms(variant_arms(variants@)),
        ShapeData::Union => PlanView::Fields(seq![]),
    }
}

/// A warning for the author of the type; none of them stops generation.
#[derive(Clone, Copy, Debug, PartialEq, Eq)]
pub enum Diagnostic {
    /// The field is marked both for inclusion and for exclusion; it is left
    /// out of the reset.
    ConflictingAttributes { variant: Option<usize>, field: usize },
    /// The field is marked for inclusion although its type already names a
    /// stat; the mark changes nothing.
    RedundantInclude { variant: Option<usize>, field: usize },
    /// No field is a stat, so the reset does nothing; a mark for inclusion
    /// may be missing.
    NoStatFields,
}

/// Why a reset method cannot be generated.
#[derive(Clone, Copy, Debug, PartialEq, Eq)]
pub enum GenerateError {
    /// Unions are refused: which of their fields is live cannot be known.
    Union,
}

/// The warnings for the field at position `i` of a struct, or of the
/// variant at position `variant` of an enum.
pub open spec fn field_diagnostics(field: FieldShape, variant: Option<usize>, i: int) -> Seq<
    Diagnostic,
> {
    let conflict = if field.has_conflict() {
        seq![Diagnostic::ConflictingAttributes { variant, field: i as usize }]
    } else {
        seq![]
    };
    let redundant = if field.has_redundant_include() {
        seq![Diagnostic::RedundantInclude { variant, field: i as usize }]
    } else {
        seq![]
    };
    conflict + redundant
}

/// The warnings for a list of fields, in declaration order.
pub open spec fn fields_diagnostics(fields: Seq<FieldShape>, variant: Option<usize>) -> Seq<
    Diagnostic,
>
    decreases fields.len(),
{
    if fields.len() == 0 {
        seq![]
    } else {
        fields_diagnostics(fields.drop_last(), variant) + field_diagnostics(
            fields.last(),
            variant,
            fields.len() - 1,
        )
    }
}

/// The warnings for the fields of all variants, in declaration order.
pub open spec fn variants_diagnostics(variants: Seq<VariantShape>) -> Seq<Diagnostic>
    decreases variants.len(),
{
    if variants.len() == 0 {
        seq![]
    } else {
        variants_diagnostics(variants.drop_last()) + fields_diagnostics(
            variants.last().fields@,
            Some((variants.len() - 1) as usize),
        )
    }
}

/// All warnings for a struct or enum body: those of its fields, then one
/// for a body without stat fields.
pub open spec fn diagnostics_of(data: ShapeData) -> Seq<Diagnostic> {
    let fields_part = match data {
        ShapeData::Struct(fields) => fields_diagnostics(fields@, None),
        ShapeData::Enum(variants) => variants_diagnostics(variants@),
        ShapeData::Union => seq![],
    };
    if plan_is_empty(plan_of(data)) {
        fields_part.push(Diagnostic::NoStatFields)
    } else {
        fields_part
    }
}

/// The outcome of generation: the plan, the warnings, and the code of the
/// `StatContainer` impl that carries out the plan.
#[derive(Clone, Debug, PartialEq)]
pub struct Generated {
    pub plan: ResetPlan,
    pub diagnostics: Vec<Diagnostic>,
    pub code: String,
}

/// How the field at position `index` is reached, if it is a stat field.
pub fn reset_struct_field(field: &FieldShape, index: usize) -> (r: Option<FieldRef>)
    ensures
        field.is_stat_field() ==> r is Some && r->0@ == field_key(*field, index as int),
        !field.is_stat_field() ==> r is None,
{
    let options = FieldOptions::from_field(field);
    if options.is_stat() {
        match options.ident {
            Some(name) => Some(FieldRef::Named(name)),
            None => Some(FieldRef::Index(index)),
        }
    } else {
        None
    }
}

/// The stat fields of a struct or variant, in declaration order.
pub fn reset_struct(fields: &Vec<FieldShape>) -> (r: Vec<FieldRef>)
    ensures
        refs_view(r@) == stat_keys(fields@),
{
    let mut out: Vec<FieldRef> = Vec::new();
    let mut i: usize = 0;
    while i < fields.len()
        invariant
            i <= fields@.len(),
            refs_view(out@) == stat_keys(fields@.take(i as int)),
        decreases fields@.len() - i,
    {
        proof {
            assert(fields@.take(i + 1).drop_last() =~= fields@.take(i as int));
        }
        let found = reset_struct_field(&fields[i], i);
        let ghost before = out@;
        match found {
            Some(r) => {
                out.push(r);
                proof {
                    assert(refs_view(out@) =~= refs_view(before).push(r@));
                }
            },
            None => {},
        }
        i = i + 1;
    }
    proof {
        assert(fields@.take(fields@.len() as int) =~= fields@);
    }
    out
}

/// The dispatch arm for a variant, if it has at least one stat field.
pub fn reset_variant(variant: &VariantShape) -> (r: Option<VariantPlan>)
    ensures
        stat_keys(variant.fields@).len() > 0 ==> r is Some && r->0@ == (ArmView {
            variant: variant.ident@,
            keys: stat_keys(variant.fields@),
        }),
        stat_keys(variant.fields@).len() == 0 ==> r is None,
{
    let fields = reset_struct(&variant.fields);
    if fields.len() == 0 {
        None
    } else {
        Some(VariantPlan { ident: variant.ident.clone(), fields })
    }
}

/// The arms of the dispatch that resets an enum.
pub fn reset_enum(variants: &Vec<VariantShape>) -> (r: Vec<VariantPlan>)
    ensures
        arms_view(r@) == variant_arms(variants@),
{
    let mut out: Vec<VariantPlan> = Vec::new();
    let mut i: usize = 0;
    while i < variants.len()
        invariant
            i <= variants@.len(),
            arms_view(out@) == variant_arms(variants@.take(i as int)),
        decreases variants@.len() - i,
    {
        proof {
            assert(variants@.take(i + 1).drop_last() =~= variants@.take(i as int));
        }
        let arm = reset_variant(&variants[i]);
        let ghost before = out@;
        match arm {
            Some(a) => {
                out.push(a);
                proof {
                    assert(arms_view(out@) =~= arms_view(before).push(a@));
                }
            },
            None => {},
        }
        i = i + 1;
    }
    proof {
        assert(variants@.take(variants@.len() as int) =~= variants@);
    }
    out
}

/// Appends the warnings for the fields of a struct, or of the variant at
/// position `variant`.
fn push_fields_diagnostics(
    out: &mut Vec<Diagnostic>,
    fields: &Vec<FieldShape>,
    variant: Option<usize>,
)
    ensures
        final(out)@ == old(out)@ + fields_diagnostics(fields@, variant),
{
    let ghost start = old(out)@;
    let mut i: usize = 0;
    while i < fields.len()
        invariant
            i <= fields@.len(),
            out@ == start + fields_diagnostics(fields@.take(i as int), variant),
        decreases fields@.len() - i,
    {
        proof {
            assert(fields@.take(i + 1).drop_last() =~= fields@.take(i as int));
        }
        let ghost before = out@;
        let options = FieldOptions::from_field(&fields[i]);
        if options.is_conflicting() {
            out.push(Diagnostic::ConflictingAttributes { variant, field: i });
        }
        if options.is_redundant() {
            out.push(Diagnostic::RedundantInclude { variant, field: i });
        }
        proof {
            assert(out@ =~= before + field_diagnostics(fields@[i as int], variant, i as int));
        }
        i = i + 1;
    }
    proof {
        assert(fields@.take(fields@.len() as int) =~= fields@);
    }
}

/// The warnings for the fields of all variants of an enum.
fn push_variants_diagnostics(out: &mut Vec<Diagnostic>, variants: &Vec<VariantShape>)
    ensures
        final(out)@ == old(out)@ + variants_diagnostics(variants@),
{
    let ghost start = old(out)@;
    let mut i: usize = 0;
    while i < variants.len()
        invariant
            i <= variants@.len(),
            out@ == start + variants_diagnostics(variants@.take(i as int)),
        decreases variants@.len() - i,
    {
        proof {
            assert(variants@.take(i + 1).drop_last() =~= variants@.take(i as int));
        }
        push_fields_diagnostics(out, &variants[i].fields, Some(i));
        i = i + 1;
    }
    proof {
        assert(variants@.take(variants@.len() as int) =~= variants@);
    }
}

/// Generates the `StatContainer` impl of a declaration: a struct resets
/// its stat fields in declaration order; an enum dispatches once on its
/// variant and resets the stat fields that the variant holds. A body without
/// stat fields gives an empty reset and a warning. Unions are refused.
pub fn stat_container_derive(decl: &Declaration) -> (r: Result<Generated, GenerateError>)
    ensures
        decl.data is Union <==> r is Err,
        r is Err ==> r == Err::<Generated, GenerateError>(GenerateError::Union),
        r is Ok ==> r->Ok_0.plan@ == plan_of(decl.data),
        r is Ok ==> r->Ok_0.diagnostics@ == diagnostics_of(decl.data),
        r is Ok ==> r->Ok_0.code@ == impl_text(decl.ident@, plan_of(decl.data)),
{
    let mut diagnostics: Vec<Diagnostic> = Vec::new();
    let plan = match &decl.data {
        ShapeData::Struct(fields) => {
            push_fields_diagnostics(&mut diagnostics, fields, None);
            ResetPlan::Fields(reset_struct(fields))
        },
        ShapeData::Enum(variants) => {
            push_variants_diagnostics(&mut diagnostics, variants);
            ResetPlan::Arms(reset_enum(variants))
        },
        ShapeData::Union => {
            return Err(GenerateError::Union);
        },
    };
    let empty = match &plan {
        ResetPlan::Fields(refs) => refs.len() == 0,
        ResetPlan::Arms(arms) => arms.len() == 0,
    };
    if empty {
        diagnostics.push(Diagnostic::NoStatFields);
    }
    let code = render_impl(decl.ident.as_str(), &plan);
    Ok(Generated { plan, diagnostics, code })
}

/// Holds when no two fields of the list are reached the same way, as in any
/// declaration that compiles.
pub open spec fn distinct_keys(fields: Seq<FieldShape>) -> bool {
    forall|a: int, b: int|
        0 <= a < fields.len() && 0 <= b < fields.len() && a != b ==> field_key(fields[a], a)
            != field_key(fields[b], b)
}

/// A reset reaches a field exactly when that field is a stat field: its
/// type names a stat or it is marked `stat`, and it is not marked
/// `stat_ignore`.
pub proof fn lemma_reset_reaches_exactly_stat_fields(fields: Seq<FieldShape>, i: int)
    requires
        0 <= i < fields.len(),
        distinct_keys(fields),
    ensures
        stat_keys(fields).contains(field_key(fields[i], i)) <==> fields[i].is_stat_field(),
    decreases fields.len(),
{
    let last = fields.len() - 1;
    let before = fields.drop_last();
    let key = field_key(fields[i], i);
    let ks = stat_keys(fields);
    let kb = stat_keys(before);
    if i < last {
        assert(before[i] == fields[i]);
        assert forall|a: int, b: int|
            0 <= a < before.len() && 0 <= b < before.len() && a != b implies field_key(
            before[a],
            a,
        ) != field_key(before[b], b) by {
            assert(before[a] == fields[a] && before[b] == fields[b]);
        }
        lemma_reset_reaches_exactly_stat_fields(before, i);
        assert(field_key(fields[last], last) != key);
        if fields[last].is_stat_field() {
            assert(ks == kb.push(field_key(fields[last], last)));
            if kb.contains(key) {
                let k = choose|k: int| 0 <= k < kb.len() && kb[k] == key;
                assert(ks[k] == key);
            }
            if ks.contains(key) {
                let k = choose|k: int| 0 <= k < ks.len() && ks[k] == key;
                assert(k < kb.len());
                assert(kb[k] == key);
            }
        }
    } else {
        if fields[i].is_stat_field() {
            assert(ks == kb.push(key));
            assert(ks[kb.len() as int] == key);
        } else {
            assert forall|j: int| 0 <= j < before.len() implies field_key(before[j], j)
                != key by {
                assert(before[j] == fields[j]);
            }
            lemma_key_absent(before, key, i);
        }
    }
}

/// Resets follow declaration order: of two stat fields, the one declared
/// first is reset first.
pub proof fn lemma_reset_follows_declaration_order(fields: Seq<FieldShape>, i: int, j: int)
    requires
        0 <= i < j < fields.len(),
        fields[i].is_stat_field(),
        fields[j].is_stat_field(),
        distinct_keys(fields),
    ensures
        exists|a: int, b: int|
            0 <= a < b < stat_keys(fields).len() && stat_keys(fields)[a] == field_key(fields[i], i)
                && stat_keys(fields)[b] == field_key(fields[j], j),
    decreases fields.len(),
{
    let last = fields.len() - 1;
    let before = fields.drop_last();
    let ks = stat_keys(fields);
    let kb = stat_keys(before);
    assert(before[i] == fields[i]);
    assert forall|x: int, y: int|
        0 <= x < before.len() && 0 <= y < before.len() && x != y implies field_key(before[x], x)
        != field_key(before[y], y) by {
        assert(before[x] == fields[x] && before[y] == fields[y]);
    }
    if j == last {
        lemma_reset_reaches_exactly_stat_fields(before, i);
        let a = choose|a: int| 0 <= a < kb.len() && kb[a] == field_key(fields[i], i);
        assert(ks == kb.push(field_key(fields[last], last)));
        assert(ks[a] == field_key(fields[i], i));
        assert(ks[kb.len() as int] == field_key(fields[j], j));
    } else {
        assert(before[j] == fields[j]);
        lemma_reset_follows_declaration_order(before, i, j);
        let (a, b) = choose|a: int, b: int|
            0 <= a < b < kb.len() && kb[a] == field_key(fields[i], i) && kb[b] == field_key(
                fields[j],
                j,
            );
        if fields[last].is_stat_field() {
            assert(ks == kb.push(field_key(fields[last], last)));
        }
        assert(ks[a] == kb[a] && ks[b] == kb[b]);
    }
}

/// A key that no field of the list has is not reached.
proof fn lemma_key_absent(fields: Seq<FieldShape>, key: FieldKey, n: int)
    requires
        fields.len() <= n,
        forall|j: int| 0 <= j < fields.len() ==> field_key(fields[j], j) != key,
    ensures
        !stat_keys(fields).contains(key),
    decreases fields.len(),
{
    if fields.len() > 0 {
        let before = fields.drop_last();
        assert forall|j: int| 0 <= j < before.len() implies field_key(before[j], j) != key by {
            assert(before[j] == fields[j]);
        }
        lemma_key_absent(before, key, n);
        if fields.last().is_stat_field() {
            assert(stat_keys(fields) == stat_keys(before).push(
                field_key(fields[fields.len() - 1], fields.len() - 1),
            ));
            assert forall|j: int| 0 <= j < stat_keys(fields).len() implies stat_keys(fields)[j]
                != key by {
                if j < stat_keys(before).len() {
                    assert(stat_keys(fields)[j] == stat_keys(before)[j]);
                }
            }
        }
    }
}

/// A struct with a named field whose type names a stat and a named field of
/// any other type, neither marked, resets the stat field and nothing else.
pub proof fn lemma_struct_propagation(stat: FieldShape, other: FieldShape)
    requires
        stat.ident is Some,
        other.ident is Some,
        stat.type_is_stat(),
        stat.attrs@.len() == 0,
        !other.type_is_stat(),
        other.attrs@.len() == 0,
    ensures
        stat_keys(seq![stat, other]) == seq![FieldKey::Name(stat.ident->0@)],
        forall|v: Vec<FieldShape>|
            v@ == seq![stat, other] ==> #[trigger] plan_of(ShapeData::Struct(v))
                == PlanView::Fields(seq![FieldKey::Name(stat.ident->0@)]),
{
    let fields = seq![stat, other];
    assert(!stat.explicit_exclude());
    assert(!other.explicit_include());
    assert(fields.drop_last() =~= seq![stat]);
    assert(seq![stat].drop_last() =~= Seq::<FieldShape>::empty());
    assert(stat_keys(Seq::<FieldShape>::empty()) == Seq::<FieldKey>::empty());
    assert(stat_keys(seq![stat]) =~= seq![FieldKey::Name(stat.ident->0@)]);
    assert(stat_keys(fields) =~= seq![FieldKey::Name(stat.ident->0@)]);
}

/// A tuple struct with a positional field whose type names a stat and a
/// positional field of any other type, neither marked, resets the first
/// field and nothing else.
pub proof fn lemma_tuple_struct_propagation(stat: FieldShape, other: FieldShape)
    requires
        stat.ident is None,
        other.ident is None,
        stat.type_is_stat(),
        stat.attrs@.len() == 0,
        !other.type_is_stat(),
        other.attrs@.len() == 0,
    ensures
        stat_keys(seq![stat, other]) == seq![FieldKey::Position(0)],
{
    let fields = seq![stat, other];
    assert(!stat.explicit_exclude());
    assert(!other.explicit_include());
    assert(fields.drop_last() =~= seq![stat]);
    assert(seq![stat].drop_last() =~= Seq::<FieldShape>::empty());
    assert(stat_keys(Seq::<FieldShape>::empty()) == Seq::<FieldKey>::empty());
    assert(stat_keys(seq![stat]) =~= seq![FieldKey::Position(0)]);
    assert(stat_keys(fields) =~= seq![FieldKey::Position(0)]);
}

/// An enum with a variant of named fields, a variant of positional fields
/// (each holding one stat field followed by one other field, none marked)
/// and a unit variant dispatches to one arm per variant with fields; each arm
/// resets the stat field alone, and the unit variant falls through to the
/// arm that does nothing.
pub proof fn lemma_enum_propagation(
    named: VariantShape,
    unnamed: VariantShape,
    unit: VariantShape,
)
    requires
        named.fields@.len() == 2,
        named.fields@[0].ident is Some,
        named.fields@[1].ident is Some,
        named.fields@[0].type_is_stat(),
        named.fields@[0].attrs@.len() == 0,
        !named.fields@[1].type_is_stat(),
        named.fields@[1].attrs@.len() == 0,
        unnamed.fields@.len() == 2,
        unnamed.fields@[0].ident is None,
        unnamed.fields@[1].ident is None,
        unnamed.fields@[0].type_is_stat(),
        unnamed.fields@[0].attrs@.len() == 0,
        !unnamed.fields@[1].type_is_stat(),
        unnamed.fields@[1].attrs@.len() == 0,
        unit.fields@.len() == 0,
    ensures
        variant_arms(seq![named, unnamed, unit]) == seq![
            ArmView {
                variant: named.ident@,
                keys: seq![FieldKey::Name(named.fields@[0].ident->0@)],
            },
            ArmView { variant: unnamed.ident@, keys: seq![FieldKey::Position(0)] },
        ],
{
    assert(named.fields@ =~= seq![named.fields@[0], named.fields@[1]]);
    assert(unnamed.fields@ =~= seq![unnamed.fields@[0], unnamed.fields@[1]]);
    lemma_struct_propagation(named.fields@[0], named.fields@[1]);
    lemma_tuple_struct_propagation(unnamed.fields@[0], unnamed.fields@[1]);
    let vs = seq![named, unnamed, unit];
    assert(vs.drop_last() =~= seq![named, unnamed]);
    assert(seq![named, unnamed].drop_last() =~= seq![named]);
    assert(seq![named].drop_last() =~= Seq::<VariantShape>::empty());
    assert(variant_arms(Seq::<VariantShape>::empty()) == Seq::<ArmView>::empty());
    assert(stat_keys(unit.fields@) =~= Seq::<FieldKey>::empty());
    let a1 = ArmView {
        variant: named.ident@,
        keys: seq![FieldKey::Name(named.fields@[0].ident->0@)],
    };
    let a2 = ArmView { variant: unnamed.ident@, keys: seq![FieldKey::Position(0)] };
    assert(variant_arms(seq![named]) =~= seq![a1]);
    assert(variant_arms(seq![named, unnamed]) =~= seq![a1, a2]);
    assert(variant_arms(vs) =~= seq![
        ArmView {
            variant: named.ident@,
            keys: seq![FieldKey::Name(named.fields@[0].ident->0@)],
        },
        ArmView { variant: unnamed.ident@, keys: seq![FieldKey::Position(0)] },
    ]);
}

/// A field marked `stat` and not `stat_ignore` is a stat field whatever its
/// type; a field marked `stat_ignore` is never one, even when its type names
/// a stat.
pub proof fn lemma_explicit_marks(field: FieldShape)
    ensures
        field.explicit_include() && !field.explicit_exclude() ==> field.is_stat_field(),
        field.explicit_exclude() ==> !field.is_stat_field(),
{
}

/// A field marked both `stat` and `stat_ignore` is left out of the reset,
/// and generation reports the conflict at that field.
pub proof fn lemma_conflict_resolution(
    fields: Seq<FieldShape>,
    variant: Option<usize>,
    i: int,
)
    requires
        0 <= i < fields.len(),
        fields[i].explicit_include(),
        fields[i].explicit_exclude(),
    ensures
        !fields[i].is_stat_field(),
        fields_diagnostics(fields, variant).contains(
            Diagnostic::ConflictingAttributes { variant, field: i as usize },
        ),
    decreases fields.len(),
{
    let d = Diagnostic::ConflictingAttributes { variant, field: i as usize };
    let before = fields.drop_last();
    if i < fields.len() - 1 {
        assert(before[i] == fields[i]);
        lemma_conflict_resolution(before, variant, i);
        let k = choose|k: int| 0 <= k < fields_diagnostics(before, variant).len()
            && fields_diagnostics(before, variant)[k] == d;
        assert(fields_diagnostics(fields, variant)[k] == d);
    } else {
        let own = field_diagnostics(fields[i], variant, i);
        assert(own[0] == d);
        assert(fields_diagnostics(fields, variant)[fields_diagnostics(before, variant).len() as int]
            == d);
    }
}

} // verus!
