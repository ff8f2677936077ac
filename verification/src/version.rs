use vstd::prelude::*;

verus! {

/// The packed form of an API version: ten bits of major version, ten bits
/// of minor version and twelve bits of patch level, from the most
/// significant bit down. Bits of an argument that do not fit its field
/// spill into the fields above it, and those above the word are lost.
pub open spec fn packed_version(major: u32, minor: u32, patch: u32) -> u32 {
    (major << 22) | (minor << 12) | patch
}

pub fn VK_MAKE_VERSION(major: u32, minor: u32, patch: u32) -> (version: u32)
    ensures
        version == packed_version(major, minor, patch),
{
    (major << 22) | (minor << 12) | patch
}

/// Where each part fits its field, the parts can be read back from the
/// packed version, and packing keeps the order of versions: it is the sum of
/// the parts, each scaled to its field.
pub proof fn lemma_packed_version_fields(major: u32, minor: u32, patch: u32)
    by (bit_vector)
    requires
        major < 0x400,
        minor < 0x400,
        patch < 0x1000,
    ensures
        packed_version(major, minor, patch) >> 22 == major,
        (packed_version(major, minor, patch) >> 12) & 0x3ff == minor,
        packed_version(major, minor, patch) & 0xfff == patch,
        packed_version(major, minor, patch) == major * 0x40_0000 + minor * 0x1000 + patch,
{
}

} // verus!
