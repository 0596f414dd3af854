//! Records built and merged field by field under their policies.
//!
//! A record is held as the values of its fields in schema order, next to the
//! policies of those fields. What the synthesized impls do for a struct, the
//! functions here do for such a record.

use crate::field::lemma_cloned_as_exact;
use crate::field::option_cloned_as;
use crate::field::option_merged;
use crate::field::ConfigField;
use crate::field::InheritAble;
use crate::policy::FieldConfig;
use vstd::prelude::*;

verus! {

/// Whether `out` may be what `V::default()` returns.
pub open spec fn intrinsic_default<V: Default>(out: V) -> bool {
    call_ensures(V::default, (), out)
}

/// Whether `out` may be what `me.inherit(&parent)` returns.
pub open spec fn inherited<V: InheritAble>(me: V, parent: V, out: V) -> bool {
    call_ensures(V::inherit, (&me, &parent), out)
}

/// Whether `out` may be what a field starts as under `policy`: a clone of
/// the override where there is one, the intrinsic default otherwise.
pub open spec fn field_default<V: Default + Clone>(policy: FieldConfig<V>, out: V) -> bool {
    match policy.default {
        Some(value) => cloned::<V>(value, out),
        None => intrinsic_default::<V>(out),
    }
}

/// Whether `out` may be what a field resolves to under `policy`: a clone of
/// its own value where the policy takes it out of merging, its own merge
/// over the parent's value otherwise.
pub open spec fn field_inherited<E, V: InheritAble>(
    policy: FieldConfig<E>,
    me: V,
    parent: V,
    out: V,
) -> bool {
    if policy.skip_inherit {
        cloned::<V>(me, out)
    } else {
        inherited::<V>(me, parent, out)
    }
}

/// Whether `out` may be the record that `policies` start from.
pub open spec fn record_default<V: Default + Clone>(
    policies: Seq<FieldConfig<V>>,
    out: Seq<V>,
) -> bool {
    &&& out.len() == policies.len()
    &&& forall|i: int| 0 <= i < out.len() ==> field_default(policies[i], #[trigger] out[i])
}

/// Whether `out` may be what the record `me` resolves to over `parent`.
pub open spec fn record_inherited<E, V: InheritAble>(
    policies: Seq<FieldConfig<E>>,
    me: Seq<V>,
    parent: Seq<V>,
    out: Seq<V>,
) -> bool {
    &&& out.len() == policies.len()
    &&& forall|i: int|
        0 <= i < out.len() ==> field_inherited(policies[i], me[i], parent[i], #[trigger] out[i])
}

/// Builds the record that `policies` start from, one value per field in
/// schema order.
pub fn default_record<V: Default + Clone>(policies: &Vec<FieldConfig<V>>) -> (r: Vec<V>)
    ensures
        record_default(policies@, r@),
{
    let mut out: Vec<V> = Vec::new();
    let mut i: usize = 0;
    while i < policies.len()
        invariant
            i <= policies.len(),
            out@.len() == i,
            forall|k: int| 0 <= k < i ==> field_default(policies@[k], #[trigger] out@[k]),
        decreases policies.len() - i,
    {
        let value = match &policies[i].default {
            Some(value) => value.clone(),
            None => V::default(),
        };
        out.push(value);
        i += 1;
    }
    out
}

/// Resolves the record `me` over `other`, field by field.
///
/// Both records hold one value for each policy, in schema order.
pub fn inherit_record<E, V: InheritAble>(
    policies: &Vec<FieldConfig<E>>,
    me: &Vec<V>,
    other: &Vec<V>,
) -> (r: Vec<V>)
    requires
        me.len() == policies.len(),
        other.len() == policies.len(),
    ensures
        record_inherited(policies@, me@, other@, r@),
{
    let mut out: Vec<V> = Vec::new();
    let mut i: usize = 0;
    while i < policies.len()
        invariant
            i <= policies.len(),
            me.len() == policies.len(),
            other.len() == policies.len(),
            out@.len() == i,
            forall|k: int|
                0 <= k < i ==> field_inherited(policies@[k], me@[k], other@[k], #[trigger] out@[k]),
        decreases policies.len() - i,
    {
        let value = if policies[i].skip_inherit {
            me[i].clone()
        } else {
            me[i].inherit(&other[i])
        };
        out.push(value);
        i += 1;
    }
    out
}

/// What a record of tri-state fields resolves to over `parent`.
pub open spec fn tristate_merged<E, T>(
    policies: Seq<FieldConfig<E>>,
    me: Seq<ConfigField<T>>,
    parent: Seq<ConfigField<T>>,
) -> Seq<ConfigField<T>> {
    Seq::new(
        policies.len(),
        |i: int|
            if policies[i].skip_inherit {
                me[i]
            } else {
                me[i].merged(parent[i])
            },
    )
}

/// What a record of optional fields resolves to over `parent`.
pub open spec fn optional_merged<E, T>(
    policies: Seq<FieldConfig<E>>,
    me: Seq<Option<T>>,
    parent: Seq<Option<T>>,
) -> Seq<Option<T>> {
    Seq::new(
        policies.len(),
        |i: int|
            if policies[i].skip_inherit {
                me[i]
            } else {
                option_merged(me[i], parent[i])
            },
    )
}

/// Resolving a record of tri-state fields gives, field by field, a clone of
/// what `tristate_merged` says.
pub proof fn lemma_tristate_record<E, T: Clone>(
    policies: Seq<FieldConfig<E>>,
    me: Seq<ConfigField<T>>,
    parent: Seq<ConfigField<T>>,
    out: Seq<ConfigField<T>>,
)
    requires
        record_inherited(policies, me, parent, out),
    ensures
        out.len() == policies.len(),
        forall|i: int|
            0 <= i < out.len() ==> tristate_merged(policies, me, parent)[i].cloned_as(
                #[trigger] out[i],
            ),
{
    assert forall|i: int| 0 <= i < out.len() implies tristate_merged(
        policies,
        me,
        parent,
    )[i].cloned_as(#[trigger] out[i]) by {}
}

/// Resolving a record of optional fields gives, field by field, a clone of
/// what `optional_merged` says.
pub proof fn lemma_optional_record<E, T: Clone>(
    policies: Seq<FieldConfig<E>>,
    me: Seq<Option<T>>,
    parent: Seq<Option<T>>,
    out: Seq<Option<T>>,
)
    requires
        record_inherited(policies, me, parent, out),
    ensures
        out.len() == policies.len(),
        forall|i: int|
            0 <= i < out.len() ==> option_cloned_as(
                optional_merged(policies, me, parent)[i],
                #[trigger] out[i],
            ),
{
    assert forall|i: int| 0 <= i < out.len() implies option_cloned_as(
        optional_merged(policies, me, parent)[i],
        #[trigger] out[i],
    ) by {}
}

/// Merging a record of tri-state fields over itself changes nothing.
pub proof fn lemma_tristate_idempotent<E, T>(
    policies: Seq<FieldConfig<E>>,
    record: Seq<ConfigField<T>>,
)
    requires
        record.len() == policies.len(),
    ensures
        tristate_merged(policies, record, record) == record,
{
}

/// Merging a record of optional fields over itself changes nothing.
pub proof fn lemma_optional_idempotent<E, T>(
    policies: Seq<FieldConfig<E>>,
    record: Seq<Option<T>>,
)
    requires
        record.len() == policies.len(),
    ensures
        optional_merged(policies, record, record) == record,
{
}

/// Where cloning a payload gives back an equal payload, resolving a record
/// of tri-state fields gives exactly what `tristate_merged` says.
pub proof fn lemma_tristate_record_exact<E, T: Clone>(
    policies: Seq<FieldConfig<E>>,
    me: Seq<ConfigField<T>>,
    parent: Seq<ConfigField<T>>,
    out: Seq<ConfigField<T>>,
)
    requires
        record_inherited(policies, me, parent, out),
        forall|a: T, b: T| cloned::<T>(a, b) ==> a == b,
    ensures
        out == tristate_merged(policies, me, parent),
{
    lemma_tristate_record(policies, me, parent, out);
    let merged = tristate_merged(policies, me, parent);
    assert forall|i: int| 0 <= i < out.len() implies out[i] == merged[i] by {
        lemma_cloned_as_exact(merged[i], out[i]);
    }
}

/// Merging a record of tri-state fields over itself gives, field by field, a
/// clone of the record; where cloning a payload gives back an equal payload,
/// it gives the record.
pub proof fn lemma_tristate_record_idempotent<E, T: Clone>(
    policies: Seq<FieldConfig<E>>,
    record: Seq<ConfigField<T>>,
    out: Seq<ConfigField<T>>,
)
    requires
        record.len() == policies.len(),
        record_inherited(policies, record, record, out),
    ensures
        out.len() == record.len(),
        forall|i: int| 0 <= i < record.len() ==> record[i].cloned_as(#[trigger] out[i]),
        (forall|a: T, b: T| cloned::<T>(a, b) ==> a == b) ==> out == record,
{
    lemma_tristate_record(policies, record, record, out);
    lemma_tristate_idempotent(policies, record);
    if forall|a: T, b: T| cloned::<T>(a, b) ==> a == b {
        lemma_tristate_record_exact(policies, record, record, out);
    }
}

/// Merging a record of optional fields over itself gives, field by field, a
/// clone of the record.
pub proof fn lemma_optional_record_idempotent<E, T: Clone>(
    policies: Seq<FieldConfig<E>>,
    record: Seq<Option<T>>,
    out: Seq<Option<T>>,
)
    requires
        record.len() == policies.len(),
        record_inherited(policies, record, record, out),
    ensures
        out.len() == record.len(),
        forall|i: int| 0 <= i < record.len() ==> option_cloned_as(record[i], #[trigger] out[i]),
{
    lemma_optional_record(policies, record, record, out);
    lemma_optional_idempotent(policies, record);
}

/// A field whose policy has an override starts as a clone of the override,
/// not as the intrinsic default of its type.
pub proof fn lemma_default_honors_override<V: Default + Clone>(
    policies: Seq<FieldConfig<V>>,
    out: Seq<V>,
    i: int,
)
    requires
        record_default(policies, out),
        0 <= i < policies.len(),
        policies[i].default is Some,
    ensures
        cloned::<V>(policies[i].default->Some_0, out[i]),
{
}

/// Merging any record over itself gives back a clone of each field that is
/// out of merging, and of each field whose own merge over itself gives back
/// a clone of it.
pub proof fn lemma_record_idempotent<E, V: InheritAble>(
    policies: Seq<FieldConfig<E>>,
    record: Seq<V>,
    out: Seq<V>,
    i: int,
)
    requires
        record_inherited(policies, record, record, out),
        0 <= i < policies.len(),
        policies[i].skip_inherit || forall|o: V|
            inherited(record[i], record[i], o) ==> cloned::<V>(record[i], o),
    ensures
        cloned::<V>(record[i], out[i]),
{
}

/// A field that is out of merging resolves to a clone of its own value,
/// whatever the parent record holds.
pub proof fn lemma_skipped_field_ignores_parent<E, V: InheritAble>(
    policies: Seq<FieldConfig<E>>,
    me: Seq<V>,
    parent1: Seq<V>,
    parent2: Seq<V>,
    out1: Seq<V>,
    out2: Seq<V>,
    i: int,
)
    requires
        record_inherited(policies, me, parent1, out1),
        record_inherited(policies, me, parent2, out2),
        0 <= i < policies.len(),
        policies[i].skip_inherit,
    ensures
        cloned::<V>(me[i], out1[i]),
        cloned::<V>(me[i], out2[i]),
{
}

/// In a record of tri-state fields, a field that is out of merging resolves
/// to its own value whatever the parent holds, and two parents that differ
/// only in such fields give the same record.
pub proof fn lemma_tristate_skip_isolation<E, T>(
    policies: Seq<FieldConfig<E>>,
    me: Seq<ConfigField<T>>,
    parent1: Seq<ConfigField<T>>,
    parent2: Seq<ConfigField<T>>,
)
    requires
        me.len() == policies.len(),
        parent1.len() == policies.len(),
        parent2.len() == policies.len(),
    ensures
        forall|i: int|
            0 <= i < policies.len() && policies[i].skip_inherit ==> {
                &&& #[trigger] tristate_merged(policies, me, parent1)[i] == me[i]
                &&& tristate_merged(policies, me, parent2)[i] == me[i]
            },
        (forall|i: int|
            0 <= i < policies.len() && !policies[i].skip_inherit ==> parent1[i] == parent2[i])
            ==> tristate_merged(policies, me, parent1) == tristate_merged(policies, me, parent2),
{
}

} // verus!
