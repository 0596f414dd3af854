//! Tri-state field values and the merge rule every mergeable type obeys.

use vstd::prelude::*;
use vstd::std_specs::cmp::PartialEqSpec;
use vstd::std_specs::cmp::PartialEqSpecImpl;

verus! {

/// A configuration value in one layer of an override chain.
#[derive(Debug)]
pub enum ConfigField<T> {
    /// No opinion: the value comes from the parent layer.
    Inherit,
    /// Explicitly cleared: the parent layer is not consulted.
    Unset,
    /// A concrete value.
    Value(T),
}

impl<T> ConfigField<T> {
    /// What a field resolves to when it is merged over `parent`: the parent
    /// where the field has no opinion, the field itself otherwise.
    pub open spec fn merged(self, parent: Self) -> Self {
        match self {
            ConfigField::Inherit => parent,
            _ => self,
        }
    }

    /// The concrete value, if this field holds one.
    pub fn get(&self) -> (r: Option<&T>)
        ensures
            match *self {
                ConfigField::Value(t) => r == Some(&t),
                _ => r is None,
            },
    {
        match self {
            ConfigField::Value(t) => Some(t),
            _ => None,
        }
    }
}

impl<T: Clone> ConfigField<T> {
    /// Whether `copy` may be what cloning `self` gives: the same variant,
    /// holding a clone of the payload.
    pub open spec fn cloned_as(self, copy: Self) -> bool {
        match (self, copy) {
            (ConfigField::Inherit, ConfigField::Inherit) => true,
            (ConfigField::Unset, ConfigField::Unset) => true,
            (ConfigField::Value(a), ConfigField::Value(b)) => cloned::<T>(a, b),
            _ => false,
        }
    }
}

impl<T> Default for ConfigField<T> {
    /// An omitted field defers to its parent.
    fn default() -> (r: Self)
        ensures
            r is Inherit,
    {
        ConfigField::Inherit
    }
}

impl<T: Clone> Clone for ConfigField<T> {
    fn clone(&self) -> (r: Self)
        ensures
            self.cloned_as(r),
    {
        match self {
            ConfigField::Inherit => ConfigField::Inherit,
            ConfigField::Unset => ConfigField::Unset,
            ConfigField::Value(t) => ConfigField::Value(t.clone()),
        }
    }
}

impl<T: PartialEq> PartialEq for ConfigField<T> {
    fn eq(&self, other: &Self) -> (r: bool) {
        match (self, other) {
            (ConfigField::Inherit, ConfigField::Inherit) => true,
            (ConfigField::Unset, ConfigField::Unset) => true,
            (ConfigField::Value(a), ConfigField::Value(b)) => a == b,
            _ => false,
        }
    }
}

/// Two fields are equal when they are the same variant and, where they hold a
/// value, the values are equal.
impl<T: PartialEq> PartialEqSpecImpl for ConfigField<T> {
    open spec fn obeys_eq_spec() -> bool {
        T::obeys_eq_spec()
    }

    open spec fn eq_spec(&self, other: &Self) -> bool {
        match (*self, *other) {
            (ConfigField::Inherit, ConfigField::Inherit) => true,
            (ConfigField::Unset, ConfigField::Unset) => true,
            (ConfigField::Value(a), ConfigField::Value(b)) => a.eq_spec(&b),
            _ => false,
        }
    }
}

impl<T: Eq> Eq for ConfigField<T> {

}

/// What an optional value resolves to when it is merged over `parent`: the
/// parent where it is absent, itself otherwise.
pub open spec fn option_merged<T>(me: Option<T>, parent: Option<T>) -> Option<T> {
    match me {
        None => parent,
        Some(_) => me,
    }
}

/// Whether `copy` may be what cloning `me` gives.
pub open spec fn option_cloned_as<T: Clone>(me: Option<T>, copy: Option<T>) -> bool {
    match (me, copy) {
        (None, None) => true,
        (Some(a), Some(b)) => cloned::<T>(a, b),
        _ => false,
    }
}

/// A value that can be resolved against the same value in a parent layer.
///
/// `self` is the higher-priority layer. A type that does not say otherwise
/// keeps its own value and ignores the parent.
pub trait InheritAble: Clone {
    fn inherit(&self, _other: &Self) -> (r: Self)
        default_ensures
            cloned::<Self>(*self, r),
    {
        self.clone()
    }
}

impl<T: Clone> InheritAble for ConfigField<T> {
    /// `Inherit` gives a clone of the parent; `Unset` and `Value` give a
    /// clone of the field itself.
    fn inherit(&self, other: &Self) -> (r: Self)
        ensures
            self.merged(*other).cloned_as(r),
    {
        match self {
            ConfigField::Inherit => other,
            _ => self,
        }.clone()
    }
}

impl<T: Clone> InheritAble for Option<T> {
    /// `None` gives a clone of the parent; `Some` gives a clone of the value
    /// itself.
    fn inherit(&self, other: &Self) -> (r: Self)
        ensures
            option_cloned_as(option_merged(*self, *other), r),
    {
        match self {
            None => other,
            _ => self,
        }.clone()
    }
}

/// A field that holds a value keeps it, whatever the parent holds.
pub proof fn lemma_value_wins<T>(v: T, parent: ConfigField<T>)
    ensures
        ConfigField::Value(v).merged(parent) == ConfigField::Value(v),
{
}

/// An optional value that is present stays, whatever the parent holds.
pub proof fn lemma_some_wins<T>(v: T, parent: Option<T>)
    ensures
        option_merged(Some(v), parent) == Some(v),
{
}

/// A cleared field stays cleared, whatever the parent holds.
pub proof fn lemma_unset_stays<T>(parent: ConfigField<T>)
    ensures
        ConfigField::<T>::Unset.merged(parent) == ConfigField::<T>::Unset,
{
}

/// A field with no opinion resolves to its parent.
pub proof fn lemma_inherit_defers<T>(parent: ConfigField<T>)
    ensures
        ConfigField::<T>::Inherit.merged(parent) == parent,
{
}

/// An absent optional value resolves to its parent.
pub proof fn lemma_none_defers<T>(parent: Option<T>)
    ensures
        option_merged(None, parent) == parent,
{
}

/// Merging a field over itself changes nothing.
pub proof fn lemma_merged_idempotent<T>(field: ConfigField<T>)
    ensures
        field.merged(field) == field,
{
}

/// Merging an optional value over itself changes nothing.
pub proof fn lemma_option_merged_idempotent<T>(value: Option<T>)
    ensures
        option_merged(value, value) == value,
{
}

/// Resolving a chain of layers one parent at a time gives what resolving
/// against the already resolved parents gives: a cleared or concrete field
/// in the first layer survives, and a field with no opinion takes whatever
/// the rest of the chain resolves to.
pub proof fn lemma_merged_chain<T>(leaf: ConfigField<T>, mid: ConfigField<T>, root: ConfigField<T>)
    ensures
        leaf.merged(mid).merged(root) == leaf.merged(mid.merged(root)),
        leaf !is Inherit ==> leaf.merged(mid).merged(root) == leaf,
{
}

/// The chain rule for optional values.
pub proof fn lemma_option_merged_chain<T>(leaf: Option<T>, mid: Option<T>, root: Option<T>)
    ensures
        option_merged(option_merged(leaf, mid), root) == option_merged(
            leaf,
            option_merged(mid, root),
        ),
        leaf is Some ==> option_merged(option_merged(leaf, mid), root) == leaf,
{
}

/// Where cloning a payload gives back an equal payload, a clone of a field
/// is the field.
pub proof fn lemma_cloned_as_exact<T: Clone>(field: ConfigField<T>, copy: ConfigField<T>)
    requires
        field.cloned_as(copy),
        forall|a: T, b: T| cloned::<T>(a, b) ==> a == b,
    ensures
        copy == field,
{
}

} // verus!
