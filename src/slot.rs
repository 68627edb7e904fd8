//! Change-tracked text slots, kept in `dirty2::Dirty`.
use dirty2::Dirty;
use vstd::prelude::*;

verus! {

#[verifier::external_type_specification]
#[verifier::external_body]
#[verifier::reject_recursive_types(T)]
pub struct ExDirty<T>(Dirty<T>);

/// The text held by a change-tracked slot.
pub uninterp spec fn slot_value(d: Dirty<String>) -> Seq<char>;

/// Whether a change-tracked slot was written since it was made clean.
pub uninterp spec fn slot_changed(d: Dirty<String>) -> bool;

/// Relies on `Dirty::new_clean`: the slot holds `v` and its flag is clear.
#[verifier::external_body]
pub(crate) fn clean_slot(v: String) -> (r: Dirty<String>)
    ensures
        slot_value(r) == v@,
        !slot_changed(r),
{
    Dirty::new_clean(v)
}

/// Relies on `Dirty::dirty`: reports the flag.
#[verifier::external_body]
pub(crate) fn slot_is_changed(d: &Dirty<String>) -> (r: bool)
    ensures
        r == slot_changed(*d),
{
    d.dirty()
}

/// Relies on `Dirty::read`: a reference to the held value, flag untouched.
#[verifier::external_body]
pub(crate) fn slot_read(d: &Dirty<String>) -> (r: &String)
    ensures
        r@ == slot_value(*d),
{
    d.read()
}

/// Relies on `Dirty::write`: it sets the flag and hands out the value, which is
/// then overwritten.
#[verifier::external_body]
pub(crate) fn slot_write(d: &mut Dirty<String>, v: String)
    ensures
        slot_value(*final(d)) == v@,
        slot_changed(*final(d)),
{
    *d.write() = v;
}

/// Relies on `Dirty::unwrap`: the held value.
#[verifier::external_body]
pub(crate) fn slot_into_value(d: Dirty<String>) -> (r: String)
    ensures
        r@ == slot_value(d),
{
    d.unwrap()
}

} // verus!
