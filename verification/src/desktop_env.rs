//! The desktop environment a provider reports.

use vstd::prelude::*;

verus! {

/// The desktop shell or session identity of the device.
///
/// The set is closed except for [`DesktopEnv::Unknown`], which carries the
/// free-form session name when it matches no known environment, so that an
/// exotic session never makes a query fail.
#[derive(Clone, Debug, PartialEq, Eq)]
pub enum DesktopEnv {
    Gnome,
    Windows,
    Lxde,
    Openbox,
    I3,
    Ubuntu,
    Kde,
    Aqua,
    Wasm,
    Orbital,
    Unknown(String),
}

impl DesktopEnv {
    /// The lower-case label of each desktop environment.  An
    /// [`DesktopEnv::Unknown`] value renders its payload behind an
    /// `"Unknown: "` marker.
    pub open spec fn display_spec(self) -> Seq<char> {
        match self {
            DesktopEnv::Gnome => "gnome"@,
            DesktopEnv::Windows => "windows"@,
            DesktopEnv::Lxde => "lxde"@,
            DesktopEnv::Openbox => "openbox"@,
            DesktopEnv::I3 => "i3"@,
            DesktopEnv::Ubuntu => "ubuntu"@,
            DesktopEnv::Kde => "kde"@,
            DesktopEnv::Aqua => "aqua"@,
            DesktopEnv::Wasm => "wasm"@,
            DesktopEnv::Orbital => "orbital"@,
            DesktopEnv::Unknown(s) => "Unknown: "@ + s@,
        }
    }

    /// An owned copy of this desktop-environment value.
    pub fn duplicate(&self) -> (r: DesktopEnv)
        ensures
            r == *self,
    {
        match self {
            DesktopEnv::Gnome => DesktopEnv::Gnome,
            DesktopEnv::Windows => DesktopEnv::Windows,
            DesktopEnv::Lxde => DesktopEnv::Lxde,
            DesktopEnv::Openbox => DesktopEnv::Openbox,
            DesktopEnv::I3 => DesktopEnv::I3,
            DesktopEnv::Ubuntu => DesktopEnv::Ubuntu,
            DesktopEnv::Kde => DesktopEnv::Kde,
            DesktopEnv::Aqua => DesktopEnv::Aqua,
            DesktopEnv::Wasm => DesktopEnv::Wasm,
            DesktopEnv::Orbital => DesktopEnv::Orbital,
            DesktopEnv::Unknown(s) => DesktopEnv::Unknown(s.clone()),
        }
    }

    /// Render the desktop environment as its lower-case label.
    pub fn display(&self) -> (r: String)
        ensures
            r@ == self.display_spec(),
    {
        match self {
            DesktopEnv::Gnome => String::from_str("gnome"),
            DesktopEnv::Windows => String::from_str("windows"),
            DesktopEnv::Lxde => String::from_str("lxde"),
            DesktopEnv::Openbox => String::from_str("openbox"),
            DesktopEnv::I3 => String::from_str("i3"),
            DesktopEnv::Ubuntu => String::from_str("ubuntu"),
            DesktopEnv::Kde => String::from_str("kde"),
            DesktopEnv::Aqua => String::from_str("aqua"),
            DesktopEnv::Wasm => String::from_str("wasm"),
            DesktopEnv::Orbital => String::from_str("orbital"),
            DesktopEnv::Unknown(s) => {
                let mut out = String::from_str("Unknown: ");
                out.append(s.as_str());
                out
            },
        }
    }
}

} // verus!
