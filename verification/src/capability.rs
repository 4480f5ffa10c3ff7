//! Capability sets reported by an input device.
//!
//! A device reports which keys, buttons and relative axes it supports as bit
//! sets indexed by event code. The sets stay in the input crate's own type;
//! this module states what is assumed about them and answers the questions the
//! device selector asks.

use evdev::{AttributeSetRef, Key, RelativeAxisType};
use vstd::prelude::*;

verus! {

/// Code of the primary (left) pointer button.
pub const BTN_LEFT: u16 = 0x110;

/// Code of the secondary (right) pointer button.
pub const BTN_RIGHT: u16 = 0x111;

/// Code of the middle pointer button.
pub const BTN_MIDDLE: u16 = 0x112;

/// Code of the horizontal relative axis.
pub const REL_X: u16 = 0x00;

/// Code of the vertical relative axis.
pub const REL_Y: u16 = 0x01;

/// The input crate's bit set of capabilities, `AttributeSetRef`, taken as it
/// is: nothing is assumed about its layout.
#[verifier::external_type_specification]
#[verifier::external_body]
#[verifier::reject_recursive_types(T)]
pub struct ExAttributeSetRef<T>(AttributeSetRef<T>);

/// The input crate's key and button code, `Key`, which indexes a key set.
#[verifier::external_type_specification]
#[verifier::external_body]
pub struct ExKey(Key);

/// The input crate's relative-axis code, `RelativeAxisType`, which indexes an
/// axis set.
#[verifier::external_type_specification]
#[verifier::external_body]
pub struct ExRelativeAxisType(RelativeAxisType);

/// The codes of the keys and buttons whose bit is set in a key set.
pub uninterp spec fn key_codes(keys: &AttributeSetRef<Key>) -> Set<u16>;

/// The codes of the relative axes whose bit is set in an axis set.
pub uninterp spec fn axis_codes(axes: &AttributeSetRef<RelativeAxisType>) -> Set<u16>;

/// Calls `AttributeSetRef::contains` with the key of the given code. Assumed:
/// the answer is whether that code's bit is set, and a code beyond the end of
/// the set counts as not set.
#[verifier::external_body]
fn keys_contain(keys: &AttributeSetRef<Key>, code: u16) -> (b: bool)
    ensures
        b == key_codes(keys).contains(code),
{
    keys.contains(Key::new(code))
}

/// Calls `AttributeSetRef::contains` with the relative axis of the given code.
/// Assumed: the answer is whether that code's bit is set, and a code beyond
/// the end of the set counts as not set.
#[verifier::external_body]
fn axes_contain(axes: &AttributeSetRef<RelativeAxisType>, code: u16) -> (b: bool)
    ensures
        b == axis_codes(axes).contains(code),
{
    axes.contains(RelativeAxisType(code))
}

/// A device that reports no key set supports no key.
pub open spec fn supports_key(keys: Option<&AttributeSetRef<Key>>, code: u16) -> bool {
    match keys {
        Some(set) => key_codes(set).contains(code),
        None => false,
    }
}

/// A device that reports no relative-axis set supports no relative axis.
pub open spec fn supports_axis(axes: Option<&AttributeSetRef<RelativeAxisType>>, code: u16) -> bool {
    match axes {
        Some(set) => axis_codes(set).contains(code),
        None => false,
    }
}

/// Whether the device supports the key or button with the given code.
pub fn has_key(keys: Option<&AttributeSetRef<Key>>, code: u16) -> (b: bool)
    ensures
        b == supports_key(keys, code),
{
    match keys {
        Some(set) => keys_contain(set, code),
        None => false,
    }
}

/// Whether the device supports the relative axis with the given code.
pub fn has_axis(axes: Option<&AttributeSetRef<RelativeAxisType>>, code: u16) -> (b: bool)
    ensures
        b == supports_axis(axes, code),
{
    match axes {
        Some(set) => axes_contain(set, code),
        None => false,
    }
}

} // verus!
