//! Addon identity: version, behaviour flags and update provider.
//!
//! These values make up the record the host reads when it loads the addon.

use vstd::prelude::*;

verus! {

/// Version of the addon, as the host displays it.
#[derive(Debug, Clone, Copy, PartialEq, Eq, Structural)]
pub struct AddonVersion {
    pub major: i16,
    pub minor: i16,
    pub build: i16,
    pub revision: i16,
}

/// Behaviour flags of the addon.
///
/// The host receives them as one 32-bit value; see
/// [`bits`](AddonFlags::bits) and [`from_bits`](AddonFlags::from_bits).
#[derive(Debug, Clone, Copy, PartialEq, Eq, Structural)]
pub struct AddonFlags {
    /// Hooking functions or doing anything else that is volatile and game
    /// build dependent.
    pub is_volatile: bool,
    /// Prevents unloading at runtime. Will require a restart if updated.
    pub disable_hotloading: bool,
}

/// The wire value of a flag set in the host's binary interface: bit 0 for
/// volatile, bit 1 for disabled hotloading.
pub open spec fn spec_addon_flags_bits(flags: AddonFlags) -> u32 {
    (if flags.is_volatile {
        1int
    } else {
        0int
    } + if flags.disable_hotloading {
        2int
    } else {
        0int
    }) as u32
}

impl AddonFlags {
    /// The empty flag set.
    pub fn empty() -> (r: Self)
        ensures
            r == (AddonFlags { is_volatile: false, disable_hotloading: false }),
    {
        Self { is_volatile: false, disable_hotloading: false }
    }

    /// Returns the wire value the host expects for this flag set.
    pub fn bits(&self) -> (r: u32)
        ensures
            r == spec_addon_flags_bits(*self),
    {
        let volatile_bit: u32 = if self.is_volatile {
            1
        } else {
            0
        };
        let hotloading_bit: u32 = if self.disable_hotloading {
            2
        } else {
            0
        };
        volatile_bit + hotloading_bit
    }

    /// Decodes a wire value. Bits beyond the two defined ones are ignored.
    pub fn from_bits(bits: u32) -> (r: Self)
        ensures
            r.is_volatile == (bits & 1 == 1),
            r.disable_hotloading == (bits & 2 == 2),
    {
        Self { is_volatile: bits & 1 == 1, disable_hotloading: bits & 2 == 2 }
    }
}

/// Encoding a flag set and decoding the result gives the flag set back.
pub proof fn lemma_addon_flags_roundtrip(flags: AddonFlags)
    ensures
        spec_addon_flags_bits(flags) & 1 == 1 <==> flags.is_volatile,
        spec_addon_flags_bits(flags) & 2 == 2 <==> flags.disable_hotloading,
{
    let bits = spec_addon_flags_bits(flags);
    assert(bits == 0 || bits == 1 || bits == 2 || bits == 3);
    assert(0u32 & 1 == 0 && 1u32 & 1 == 1 && 2u32 & 1 == 0 && 3u32 & 1 == 1) by (bit_vector);
    assert(0u32 & 2 == 0 && 1u32 & 2 == 0 && 2u32 & 2 == 2 && 3u32 & 2 == 2) by (bit_vector);
}

/// What platform hosts the addon's updates.
#[derive(Debug, Clone, Copy, PartialEq, Eq, Structural)]
pub enum UpdateProvider {
    /// Does not support auto updating.
    Unsupported,
    /// The host project's own registry, via its API.
    Raidcore,
    /// GitHub releases.
    GitHub,
    /// Direct file link.
    Direct,
}

/// The wire value of an update provider in the host's binary interface.
pub open spec fn spec_update_provider_code(provider: UpdateProvider) -> u32 {
    match provider {
        UpdateProvider::Unsupported => 0,
        UpdateProvider::Raidcore => 1,
        UpdateProvider::GitHub => 2,
        UpdateProvider::Direct => 3,
    }
}

impl UpdateProvider {
    /// Returns the wire value the host expects for this provider.
    pub fn code(&self) -> (r: u32)
        ensures
            r == spec_update_provider_code(*self),
    {
        match self {
            UpdateProvider::Unsupported => 0,
            UpdateProvider::Raidcore => 1,
            UpdateProvider::GitHub => 2,
            UpdateProvider::Direct => 3,
        }
    }
}

} // verus!
