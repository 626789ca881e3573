//! Reading what the device reports about itself.

use vstd::prelude::*;

verus! {

/// Value of the context profile mask that stands for the core profile.
pub const CORE_PROFILE_BIT: i32 = 1;

/// Value of the context profile mask that stands for the compatibility
/// profile.
pub const COMPATIBILITY_PROFILE_BIT: i32 = 2;

/// Type tag that the device gives to the debug messages that report an error.
pub const DEBUG_TYPE_ERROR: u32 = 0x824c;

/// The profile of a graphics context.
#[derive(Debug, Clone, Copy, PartialEq, Eq)]
pub enum Profile {
    Core,
    Compatibility,
    Unknown,
}

impl Profile {
    /// The profile that a context profile mask stands for: a mask of exactly
    /// one of the two known bits names that profile, any other is unknown.
    pub open spec fn of_mask(mask: i32) -> Profile {
        if mask == CORE_PROFILE_BIT {
            Profile::Core
        } else if mask == COMPATIBILITY_PROFILE_BIT {
            Profile::Compatibility
        } else {
            Profile::Unknown
        }
    }

    /// The profile that a context profile mask stands for.
    pub fn from_mask(mask: i32) -> (profile: Profile)
        ensures
            profile == Self::of_mask(mask),
    {
        if mask == CORE_PROFILE_BIT {
            Profile::Core
        } else if mask == COMPATIBILITY_PROFILE_BIT {
            Profile::Compatibility
        } else {
            Profile::Unknown
        }
    }

    /// The profile's name in the start-up report.
    pub open spec fn spec_name(self) -> Seq<char> {
        match self {
            Profile::Core => "core"@,
            Profile::Compatibility => "compatibility"@,
            Profile::Unknown => "unknown"@,
        }
    }

    /// The profile's name in the start-up report.
    pub fn name(self) -> (name: &'static str)
        ensures
            name@ == self.spec_name(),
    {
        match self {
            Profile::Core => "core",
            Profile::Compatibility => "compatibility",
            Profile::Unknown => "unknown",
        }
    }
}

/// Whether a debug message of type `message_type` reports an error. Messages
/// of every other type are diagnostics.
pub fn is_error_message(message_type: u32) -> (error: bool)
    ensures
        error == (message_type == DEBUG_TYPE_ERROR),
{
    message_type == DEBUG_TYPE_ERROR
}

} // verus!
