//! Types of outside crates that the library carries through unchanged.
use vstd::prelude::*;

verus! {

/// Value an image is cleared to (`gfx_hal::command::ClearValue`).
#[verifier::external_type_specification]
#[verifier::external_body]
pub struct ExClearValue(gfx_hal::command::ClearValue);

/// Identifier of a queue family (`gfx_hal::queue::QueueFamilyId`).
#[verifier::external_type_specification]
#[verifier::external_body]
pub struct ExQueueFamilyId(gfx_hal::queue::QueueFamilyId);

/// Error a node description reports when it cannot build its node (`failure::Error`).
#[verifier::external_type_specification]
#[verifier::external_body]
pub struct ExFailure(failure::Error);

} // verus!
