//! The target platform, chosen once by the caller and passed down explicitly.

use vstd::prelude::*;

verus! {

/// The family of operating system the staged binary is meant to run on.
///
/// It decides whether executables carry an `.exe` suffix and whether
/// permission bits are applied after staging.
#[derive(Clone, Copy, Debug, PartialEq, Eq, Structural)]
pub enum Platform {
    /// Executability is a permission bit; names carry no suffix.
    Posix,
    /// Executability follows from the `.exe` suffix; no permission bits.
    Windows,
}

impl Platform {
    /// Whether executables are recognised by an `.exe` suffix.
    pub open spec fn spec_uses_exe_suffix(self) -> bool {
        self == Platform::Windows
    }

    /// Whether executables are recognised by an `.exe` suffix.
    #[verifier::when_used_as_spec(spec_uses_exe_suffix)]
    pub fn uses_exe_suffix(self) -> (b: bool)
        ensures
            b == self.spec_uses_exe_suffix(),
    {
        match self {
            Platform::Posix => false,
            Platform::Windows => true,
        }
    }

    /// Whether staging ends by setting permission bits on the binary.
    pub open spec fn spec_sets_permissions(self) -> bool {
        self == Platform::Posix
    }

    /// Whether staging ends by setting permission bits on the binary.
    #[verifier::when_used_as_spec(spec_sets_permissions)]
    pub fn sets_permissions(self) -> (b: bool)
        ensures
            b == self.spec_sets_permissions(),
    {
        match self {
            Platform::Posix => true,
            Platform::Windows => false,
        }
    }
}

} // verus!
