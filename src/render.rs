//! Writing a reset plan out as the source text of a `StatContainer` impl.
use vstd::prelude::*;

use crate::derive::{arms_view, refs_view, ArmView, FieldKey, FieldRef, PlanView, ResetPlan, VariantPlan};
use crate::text::{decimal, push_decimal};

verus! {

/// How a struct's field is written after `self.`: its name or its position.
pub open spec fn key_text(key: FieldKey) -> Seq<char> {
    match key {
        FieldKey::Name(name) => name,
        FieldKey::Position(i) => decimal(i as nat),
    }
}

/// The variable that a variant's pattern binds a field to.
pub open spec fn binding_text(key: FieldKey) -> Seq<char> {
    match key {
        FieldKey::Name(name) => name,
        FieldKey::Position(i) => "f"@ + decimal(i as nat),
    }
}

/// The part of a variant's pattern that binds a field.
pub open spec fn pattern_text(key: FieldKey) -> Seq<char> {
    match key {
        FieldKey::Name(name) => name,
        FieldKey::Position(i) => decimal(i as nat) + ": f"@ + decimal(i as nat),
    }
}

/// `self.<field>.reset_modifiers();` for each field, in order.
pub open spec fn field_resets(keys: Seq<FieldKey>) -> Seq<char>
    decreases keys.len(),
{
    if keys.len() == 0 {
        seq![]
    } else {
        field_resets(keys.drop_last()) + "self."@ + key_text(keys.last())
            + ".reset_modifiers(); "@
    }
}

/// The bindings of a variant's pattern, each followed by a comma.
pub open spec fn patterns_text(keys: Seq<FieldKey>) -> Seq<char>
    decreases keys.len(),
{
    if keys.len() == 0 {
        seq![]
    } else {
        patterns_text(keys.drop_last()) + pattern_text(keys.last()) + ", "@
    }
}

/// `<binding>.reset_modifiers();` for each bound field, in order.
pub open spec fn binding_resets(keys: Seq<FieldKey>) -> Seq<char>
    decreases keys.len(),
{
    if keys.len() == 0 {
        seq![]
    } else {
        binding_resets(keys.drop_last()) + binding_text(keys.last()) + ".reset_modifiers(); "@
    }
}

/// One arm of an enum's dispatch.
pub open spec fn arm_text(arm: ArmView) -> Seq<char> {
    "Self::"@ + arm.variant + " { "@ + patterns_text(arm.keys) + ".. } => { "@ + binding_resets(
        arm.keys,
    ) + "} "@
}

/// The arms of an enum's dispatch, in order.
pub open spec fn arms_text(arms: Seq<ArmView>) -> Seq<char>
    decreases arms.len(),
{
    if arms.len() == 0 {
        seq![]
    } else {
        arms_text(arms.drop_last()) + arm_text(arms.last())
    }
}

/// The body of the reset method.
pub open spec fn body_text(plan: PlanView) -> Seq<char> {
    match plan {
        PlanView::Fields(keys) => field_resets(keys),
        PlanView::Arms(arms) => if arms.len() == 0 {
            seq![]
        } else {
            "match self { "@ + arms_text(arms) + "_ => {} } "@
        },
    }
}

/// The whole impl for the type called `name`.
pub open spec fn impl_text(name: Seq<char>, plan: PlanView) -> Seq<char> {
    "impl StatContainer for "@ + name + " { fn reset_modifiers(&mut self) { "@ + body_text(plan)
        + "} }"@
}

fn push_key(out: &mut String, r: &FieldRef)
    ensures
        final(out)@ == old(out)@ + key_text(r@),
{
    match r {
        FieldRef::Named(name) => out.append(name.as_str()),
        FieldRef::Index(i) => push_decimal(out, *i),
    }
}

fn push_binding(out: &mut String, r: &FieldRef)
    ensures
        final(out)@ == old(out)@ + binding_text(r@),
{
    match r {
        FieldRef::Named(name) => out.append(name.as_str()),
        FieldRef::Index(i) => {
            out.append("f");
            push_decimal(out, *i);
            proof {
                assert(final(out)@ =~= old(out)@ + binding_text(r@));
            }
        },
    }
}

fn push_pattern(out: &mut String, r: &FieldRef)
    ensures
        final(out)@ == old(out)@ + pattern_text(r@),
{
    match r {
        FieldRef::Named(name) => out.append(name.as_str()),
        FieldRef::Index(i) => {
            push_decimal(out, *i);
            out.append(": f");
            push_decimal(out, *i);
            proof {
                assert(final(out)@ =~= old(out)@ + pattern_text(r@));
            }
        },
    }
}

fn push_field_resets(out: &mut String, refs: &Vec<FieldRef>)
    ensures
        final(out)@ == old(out)@ + field_resets(refs_view(refs@)),
{
    let ghost start = old(out)@;
    let ghost keys = refs_view(refs@);
    let mut i: usize = 0;
    while i < refs.len()
        invariant
            i <= refs@.len(),
            keys == refs_view(refs@),
            out@ == start + field_resets(keys.take(i as int)),
        decreases refs@.len() - i,
    {
        proof {
            assert(keys.take(i + 1).drop_last() =~= keys.take(i as int));
        }
        out.append("self.");
        push_key(out, &refs[i]);
        out.append(".reset_modifiers(); ");
        proof {
            assert(out@ =~= start + field_resets(keys.take(i + 1)));
        }
        i = i + 1;
    }
    proof {
        assert(keys.take(refs@.len() as int) =~= keys);
    }
}

fn push_patterns(out: &mut String, refs: &Vec<FieldRef>)
    ensures
        final(out)@ == old(out)@ + patterns_text(refs_view(refs@)),
{
    let ghost start = old(out)@;
    let ghost keys = refs_view(refs@);
    let mut i: usize = 0;
    while i < refs.len()
        invariant
            i <= refs@.len(),
            keys == refs_view(refs@),
            out@ == start + patterns_text(keys.take(i as int)),
        decreases refs@.len() - i,
    {
        proof {
            assert(keys.take(i + 1).drop_last() =~= keys.take(i as int));
        }
        push_pattern(out, &refs[i]);
        out.append(", ");
        proof {
            assert(out@ =~= start + patterns_text(keys.take(i + 1)));
        }
        i = i + 1;
    }
    proof {
        assert(keys.take(refs@.len() as int) =~= keys);
    }
}

fn push_binding_resets(out: &mut String, refs: &Vec<FieldRef>)
    ensures
        final(out)@ == old(out)@ + binding_resets(refs_view(refs@)),
{
    let ghost start = old(out)@;
    let ghost keys = refs_view(refs@);
    let mut i: usize = 0;
    while i < refs.len()
        invariant
            i <= refs@.len(),
            keys == refs_view(refs@),
            out@ == start + binding_resets(keys.take(i as int)),
        decreases refs@.len() - i,
    {
        proof {
            assert(keys.take(i + 1).drop_last() =~= keys.take(i as int));
        }
        push_binding(out, &refs[i]);
        out.append(".reset_modifiers(); ");
        proof {
            assert(out@ =~= start + binding_resets(keys.take(i + 1)));
        }
        i = i + 1;
    }
    proof {
        assert(keys.take(refs@.len() as int) =~= keys);
    }
}

fn push_arm(out: &mut String, arm: &VariantPlan)
    ensures
        final(out)@ == old(out)@ + arm_text(arm@),
{
    out.append("Self::");
    out.append(arm.ident.as_str());
    out.append(" { ");
    push_patterns(out, &arm.fields);
    out.append(".. } => { ");
    push_binding_resets(out, &arm.fields);
    out.append("} ");
    proof {
        assert(final(out)@ =~= old(out)@ + arm_text(arm@));
    }
}

fn push_arms(out: &mut String, arms: &Vec<VariantPlan>)
    ensures
        final(out)@ == old(out)@ + arms_text(arms_view(arms@)),
{
    let ghost start = old(out)@;
    let ghost views = arms_view(arms@);
    let mut i: usize = 0;
    while i < arms.len()
        invariant
            i <= arms@.len(),
            views == arms_view(arms@),
            out@ == start + arms_text(views.take(i as int)),
        decreases arms@.len() - i,
    {
        proof {
            assert(views.take(i + 1).drop_last() =~= views.take(i as int));
        }
        push_arm(out, &arms[i]);
        proof {
            assert(out@ =~= start + arms_text(views.take(i + 1)));
        }
        i = i + 1;
    }
    proof {
        assert(views.take(arms@.len() as int) =~= views);
    }
}

/// The body of the reset method that carries out `plan`.
pub fn render_body(plan: &ResetPlan) -> (r: String)
    ensures
        r@ == body_text(plan@),
{
    let mut out = String::new();
    match plan {
        ResetPlan::Fields(refs) => {
            push_field_resets(&mut out, refs);
        },
        ResetPlan::Arms(arms) => {
            if arms.len() > 0 {
                out.append("match self { ");
                push_arms(&mut out, arms);
                out.append("_ => {} } ");
            }
        },
    }
    proof {
        assert(out@ =~= body_text(plan@));
    }
    out
}

/// The source text of the `StatContainer` impl that carries out `plan` for
/// the type called `name`.
pub fn render_impl(name: &str, plan: &ResetPlan) -> (r: String)
    ensures
        r@ == impl_text(name@, plan@),
{
    let mut out = String::new();
    out.append("impl StatContainer for ");
    out.append(name);
    out.append(" { fn reset_modifiers(&mut self) { ");
    let body = render_body(plan);
    out.append(body.as_str());
    out.append("} }");
    proof {
        assert(out@ =~= impl_text(name@, plan@));
    }
    out
}

} // verus!
