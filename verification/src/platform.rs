//! The coarse operating-system family a provider reports.

use vstd::prelude::*;

verus! {

/// The underlying platform for a system.
///
/// The set is closed except for [`Platform::Unknown`], which carries the
/// free-form name of a family outside the table so that no query fails
/// merely because the value is exotic.
#[derive(Clone, Debug, PartialEq, Eq)]
pub enum Platform {
    Unknown(String),
    Linux,
    Bsd,
    Windows,
    Mac,
    Illumos,
    Ios,
    Android,
    Nintendo3ds,
    PlayStation,
    Fuchsia,
    Redox,
}

impl Platform {
    /// The human-readable label of the platform.  An [`Platform::Unknown`]
    /// value renders its payload behind an `"Unknown: "` marker.
    pub open spec fn display_spec(self) -> Seq<char> {
        match self {
            Platform::Unknown(s) => "Unknown: "@ + s@,
            Platform::Linux => "Linux"@,
            Platform::Bsd => "BSD"@,
            Platform::Windows => "Windows"@,
            Platform::Mac => "macOS"@,
            Platform::Illumos => "illumos"@,
            Platform::Ios => "iOS"@,
            Platform::Android => "Android"@,
            Platform::Nintendo3ds => "Nintendo 3DS"@,
            Platform::PlayStation => "PlayStation"@,
            Platform::Fuchsia => "Fuchsia"@,
            Platform::Redox => "Redox"@,
        }
    }

    /// An owned copy of this platform value.
    pub fn duplicate(&self) -> (r: Platform)
        ensures
            r == *self,
    {
        match self {
            Platform::Unknown(s) => Platform::Unknown(s.clone()),
            Platform::Linux => Platform::Linux,
            Platform::Bsd => Platform::Bsd,
            Platform::Windows => Platform::Windows,
            Platform::Mac => Platform::Mac,
            Platform::Illumos => Platform::Illumos,
            Platform::Ios => Platform::Ios,
            Platform::Android => Platform::Android,
            Platform::Nintendo3ds => Platform::Nintendo3ds,
            Platform::PlayStation => Platform::PlayStation,
            Platform::Fuchsia => Platform::Fuchsia,
            Platform::Redox => Platform::Redox,
        }
    }

    /// Render the platform as its human-readable label.
    pub fn display(&self) -> (r: String)
        ensures
            r@ == self.display_spec(),
    {
        match self {
            Platform::Unknown(s) => {
                let mut out = String::from_str("Unknown: ");
                out.append(s.as_str());
                out
            },
            Platform::Linux => String::from_str("Linux"),
            Platform::Bsd => String::from_str("BSD"),
            Platform::Windows => String::from_str("Windows"),
            Platform::Mac => String::from_str("macOS"),
            Platform::Illumos => String::from_str("illumos"),
            Platform::Ios => String::from_str("iOS"),
            Platform::Android => String::from_str("Android"),
            Platform::Nintendo3ds => String::from_str("Nintendo 3DS"),
            Platform::PlayStation => String::from_str("PlayStation"),
            Platform::Fuchsia => String::from_str("Fuchsia"),
            Platform::Redox => String::from_str("Redox"),
        }
    }
}

} // verus!
