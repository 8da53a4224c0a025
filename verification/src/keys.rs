//! evdev's key type, as the mapping logic sees it: a kernel key code.

use vstd::prelude::*;

verus! {

/// evdev's `Key`.
#[verifier::external_type_specification]
#[verifier::external_body]
pub struct ExKey(evdev::Key);

/// The kernel code an evdev `Key` stands for.
pub uninterp spec fn key_code(k: evdev::Key) -> u16;

/// evdev's `Key::code`. Claims only that the code is a function of the key:
/// the same key always gives the same code.
#[verifier::external_body]
pub fn code(k: evdev::Key) -> (r: u16)
    ensures
        r == key_code(k),
{
    k.code()
}

} // verus!

verus! {

/// evdev's `AttributeSetRef`, a bit set of supported codes.
#[verifier::external_type_specification]
#[verifier::external_body]
#[verifier::reject_recursive_types(T)]
pub struct ExAttributeSetRef<T>(evdev::AttributeSetRef<T>);

/// evdev's `AbsoluteAxisType`.
#[verifier::external_type_specification]
#[verifier::external_body]
pub struct ExAbsoluteAxisType(evdev::AbsoluteAxisType);

/// The codes a key set holds, as its iterator lists them.
pub uninterp spec fn key_set_codes(s: &evdev::AttributeSetRef<evdev::Key>) -> Seq<u16>;

/// evdev's `AttributeSetRef::iter` over a key set, each key taken by its
/// code. Claims only that the codes listed are a function of the set.
#[verifier::external_body]
pub fn codes_in(s: &evdev::AttributeSetRef<evdev::Key>) -> (r: Vec<u16>)
    ensures
        r@ == key_set_codes(s),
{
    s.iter().map(|k| k.0).collect()
}

/// The codes an absolute-axis set holds, as its iterator lists them.
pub uninterp spec fn axis_set_codes(s: &evdev::AttributeSetRef<evdev::AbsoluteAxisType>) -> Seq<u16>;

/// evdev's `AttributeSetRef::iter` over an axis set, each axis taken by its
/// code. Claims only that the codes listed are a function of the set.
#[verifier::external_body]
pub fn axes_in(s: &evdev::AttributeSetRef<evdev::AbsoluteAxisType>) -> (r: Vec<u16>)
    ensures
        r@ == axis_set_codes(s),
{
    s.iter().map(|a| a.0).collect()
}

} // verus!
