use vstd::prelude::*;

verus! {

/// Bits of a 128-bit UUID (read big-endian) that hold its version and variant.
pub const UUID_VERSION_VARIANT_MASK: u128 = 0x0000_0000_0000_F000_C000_0000_0000_0000;

/// Version 4 and the RFC 4122 variant, in the bits of `UUID_VERSION_VARIANT_MASK`.
pub const UUID_V4_BITS: u128 = 0x0000_0000_0000_4000_8000_0000_0000_0000;

/// A fresh random identifier.
///
/// Relies on `uuid::Uuid::new_v4` for a random version-4 UUID, and on
/// `Uuid::as_u128` for its 128 bits read big-endian. Nothing but the version
/// and variant bits can be promised of a random value.
#[verifier::external_body]
pub fn new_uuid() -> (r: u128)
    ensures
        r & UUID_VERSION_VARIANT_MASK == UUID_V4_BITS,
{
    uuid::Uuid::new_v4().as_u128()
}

/// Identifies an uploaded RGBA8 sRGB image.
#[derive(Debug, Clone, Copy, PartialEq, Eq, Hash, Structural)]
pub struct ImageID(pub u128);

/// Identifies a registered 2D shape.
#[derive(Debug, Clone, Copy, PartialEq, Eq, Hash, Structural)]
pub struct ShapeID(pub u128);

} // verus!
