//! The kinds of file system notification that can mean that the control
//! endpoint is gone.
//!
//! Masks travel as the plain `u32` that the kernel delivers. The flags
//! themselves are taken from the `inotify` crate.

use inotify::EventMask;
use inotify::WatchMask;
use vstd::prelude::*;

verus! {

/// Metadata of the watched object changed; its link count is part of that.
pub const IN_ATTRIB: u32 = 0x0000_0004;

/// The watched object itself was deleted.
pub const IN_DELETE_SELF: u32 = 0x0000_0400;

/// Whether `mask` holds every bit of `flag`.
pub open spec fn has_flag(mask: u32, flag: u32) -> bool {
    mask & flag == flag
}

/// Whether an event with this mask may report that the endpoint was removed.
pub open spec fn removal_kind(mask: u32) -> bool {
    has_flag(mask, IN_ATTRIB) || has_flag(mask, IN_DELETE_SELF)
}

/// The mask under which the watcher registers the endpoint.
pub open spec fn removal_watch() -> u32 {
    IN_ATTRIB | IN_DELETE_SELF
}

/// Calls `inotify::EventMask::contains` with `EventMask::ATTRIB`, on the
/// event mask made from `mask` by `EventMask::from_bits_truncate`.
///
/// Not proved: that the answer is whether bit `IN_ATTRIB` is set in `mask`.
#[verifier::external_body]
fn event_has_attrib(mask: u32) -> (found: bool)
    ensures
        found == has_flag(mask, IN_ATTRIB),
{
    EventMask::from_bits_truncate(mask).contains(EventMask::ATTRIB)
}

/// Calls `inotify::EventMask::contains` with `EventMask::DELETE_SELF`, on
/// the event mask made from `mask` by `EventMask::from_bits_truncate`.
///
/// Not proved: that the answer is whether bit `IN_DELETE_SELF` is set in
/// `mask`.
#[verifier::external_body]
fn event_has_delete_self(mask: u32) -> (found: bool)
    ensures
        found == has_flag(mask, IN_DELETE_SELF),
{
    EventMask::from_bits_truncate(mask).contains(EventMask::DELETE_SELF)
}

/// Reads `inotify::WatchMask::ATTRIB` through `WatchMask::bits`.
///
/// Not proved: that the flag is `IN_ATTRIB`.
#[verifier::external_body]
fn watch_attrib() -> (bits: u32)
    ensures
        bits == IN_ATTRIB,
{
    WatchMask::ATTRIB.bits()
}

/// Reads `inotify::WatchMask::DELETE_SELF` through `WatchMask::bits`.
///
/// Not proved: that the flag is `IN_DELETE_SELF`.
#[verifier::external_body]
fn watch_delete_self() -> (bits: u32)
    ensures
        bits == IN_DELETE_SELF,
{
    WatchMask::DELETE_SELF.bits()
}

/// Tells whether an event with this mask is an attribute change or the
/// deletion of the watched object. All other kinds are ignored by the watcher.
pub fn is_removal_kind(mask: u32) -> (relevant: bool)
    ensures
        relevant == removal_kind(mask),
{
    event_has_attrib(mask) || event_has_delete_self(mask)
}

/// Returns the mask to register the endpoint with: attribute changes and
/// deletion of the endpoint itself, nothing else.
pub fn watch_mask() -> (bits: u32)
    ensures
        bits == removal_watch(),
        bits == 0x0000_0404u32,
{
    let attrib: u32 = watch_attrib();
    let delete_self: u32 = watch_delete_self();
    assert(0x0000_0004u32 | 0x0000_0400u32 == 0x0000_0404u32) by (bit_vector);
    attrib | delete_self
}

/// The watcher reacts to exactly the kinds it registers for: an event is of a
/// removal kind if and only if its mask shares a bit with the watch mask.
pub proof fn watch_covers_removal_kinds(mask: u32)
    ensures
        removal_kind(mask) <==> mask & removal_watch() != 0,
{
    assert((mask & 0x0000_0004u32 == 0x0000_0004u32 || mask & 0x0000_0400u32 == 0x0000_0400u32)
        <==> mask & (0x0000_0004u32 | 0x0000_0400u32) != 0) by (bit_vector);
}

} // verus!
