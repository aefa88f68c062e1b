//! The CPU instruction-set family a provider reports.

use vstd::prelude::*;

use crate::error::Error;

verus! {

/// The pointer width that goes with an architecture.
#[derive(Clone, Copy, Debug, PartialEq, Eq, Structural)]
pub enum Width {
    Bits32,
    Bits64,
}

/// The CPU architecture of the device.
///
/// The set is closed except for [`Arch::Unknown`], which carries the
/// free-form name of an architecture outside the table.
#[derive(Clone, Debug, PartialEq, Eq)]
pub enum Arch {
    ArmV5,
    ArmV6,
    ArmV7,
    Arm64,
    I386,
    I586,
    I686,
    X64,
    Mips,
    MipsEl,
    Mips64,
    Mips64El,
    PowerPc,
    PowerPc64,
    PowerPc64Le,
    Riscv32,
    Riscv64,
    S390x,
    Sparc,
    Sparc64,
    Wasm32,
    Wasm64,
    Unknown(String),
}

impl Arch {
    /// The width of each architecture in the canonical table; an
    /// [`Arch::Unknown`] value has no width.
    pub open spec fn width_spec(self) -> Result<Width, Error> {
        match self {
            Arch::ArmV5 => Ok(Width::Bits32),
            Arch::ArmV6 => Ok(Width::Bits32),
            Arch::ArmV7 => Ok(Width::Bits32),
            Arch::Arm64 => Ok(Width::Bits64),
            Arch::I386 => Ok(Width::Bits32),
            Arch::I586 => Ok(Width::Bits32),
            Arch::I686 => Ok(Width::Bits32),
            Arch::X64 => Ok(Width::Bits64),
            Arch::Mips => Ok(Width::Bits32),
            Arch::MipsEl => Ok(Width::Bits32),
            Arch::Mips64 => Ok(Width::Bits64),
            Arch::Mips64El => Ok(Width::Bits64),
            Arch::PowerPc => Ok(Width::Bits32),
            Arch::PowerPc64 => Ok(Width::Bits64),
            Arch::PowerPc64Le => Ok(Width::Bits64),
            Arch::Riscv32 => Ok(Width::Bits32),
            Arch::Riscv64 => Ok(Width::Bits64),
            Arch::S390x => Ok(Width::Bits64),
            Arch::Sparc => Ok(Width::Bits32),
            Arch::Sparc64 => Ok(Width::Bits64),
            Arch::Wasm32 => Ok(Width::Bits32),
            Arch::Wasm64 => Ok(Width::Bits64),
            Arch::Unknown(_) => Err(Error::UnknownArch),
        }
    }

    /// The pointer width of this architecture.  Succeeds for every
    /// architecture in the canonical table and fails with
    /// [`Error::UnknownArch`] exactly for [`Arch::Unknown`] values.
    pub fn width(&self) -> (r: Result<Width, Error>)
        ensures
            r == self.width_spec(),
            r is Err <==> self is Unknown,
    {
        match self {
            Arch::ArmV5 => Ok(Width::Bits32),
            Arch::ArmV6 => Ok(Width::Bits32),
            Arch::ArmV7 => Ok(Width::Bits32),
            Arch::Arm64 => Ok(Width::Bits64),
            Arch::I386 => Ok(Width::Bits32),
            Arch::I586 => Ok(Width::Bits32),
            Arch::I686 => Ok(Width::Bits32),
            Arch::X64 => Ok(Width::Bits64),
            Arch::Mips => Ok(Width::Bits32),
            Arch::MipsEl => Ok(Width::Bits32),
            Arch::Mips64 => Ok(Width::Bits64),
            Arch::Mips64El => Ok(Width::Bits64),
            Arch::PowerPc => Ok(Width::Bits32),
            Arch::PowerPc64 => Ok(Width::Bits64),
            Arch::PowerPc64Le => Ok(Width::Bits64),
            Arch::Riscv32 => Ok(Width::Bits32),
            Arch::Riscv64 => Ok(Width::Bits64),
            Arch::S390x => Ok(Width::Bits64),
            Arch::Sparc => Ok(Width::Bits32),
            Arch::Sparc64 => Ok(Width::Bits64),
            Arch::Wasm32 => Ok(Width::Bits32),
            Arch::Wasm64 => Ok(Width::Bits64),
            Arch::Unknown(_) => Err(Error::UnknownArch),
        }
    }

    /// An owned copy of this architecture value.
    pub fn duplicate(&self) -> (r: Arch)
        ensures
            r == *self,
    {
        match self {
            Arch::ArmV5 => Arch::ArmV5,
            Arch::ArmV6 => Arch::ArmV6,
            Arch::ArmV7 => Arch::ArmV7,
            Arch::Arm64 => Arch::Arm64,
            Arch::I386 => Arch::I386,
            Arch::I586 => Arch::I586,
            Arch::I686 => Arch::I686,
            Arch::X64 => Arch::X64,
            Arch::Mips => Arch::Mips,
            Arch::MipsEl => Arch::MipsEl,
            Arch::Mips64 => Arch::Mips64,
            Arch::Mips64El => Arch::Mips64El,
            Arch::PowerPc => Arch::PowerPc,
            Arch::PowerPc64 => Arch::PowerPc64,
            Arch::PowerPc64Le => Arch::PowerPc64Le,
            Arch::Riscv32 => Arch::Riscv32,
            Arch::Riscv64 => Arch::Riscv64,
            Arch::S390x => Arch::S390x,
            Arch::Sparc => Arch::Sparc,
            Arch::Sparc64 => Arch::Sparc64,
            Arch::Wasm32 => Arch::Wasm32,
            Arch::Wasm64 => Arch::Wasm64,
            Arch::Unknown(s) => Arch::Unknown(s.clone()),
        }
    }

    /// The lower-case label of each architecture.  An [`Arch::Unknown`]
    /// value renders its payload behind an `"Unknown: "` marker.
    pub open spec fn display_spec(self) -> Seq<char> {
        match self {
            Arch::ArmV5 => "armv5"@,
            Arch::ArmV6 => "armv6"@,
            Arch::ArmV7 => "armv7"@,
            Arch::Arm64 => "arm64"@,
            Arch::I386 => "i386"@,
            Arch::I586 => "i586"@,
            Arch::I686 => "i686"@,
            Arch::X64 => "x86_64"@,
            Arch::Mips => "mips"@,
            Arch::MipsEl => "mipsel"@,
            Arch::Mips64 => "mips64"@,
            Arch::Mips64El => "mips64el"@,
            Arch::PowerPc => "powerpc"@,
            Arch::PowerPc64 => "powerpc64"@,
            Arch::PowerPc64Le => "powerpc64le"@,
            Arch::Riscv32 => "riscv32"@,
            Arch::Riscv64 => "riscv64"@,
            Arch::S390x => "s390x"@,
            Arch::Sparc => "sparc"@,
            Arch::Sparc64 => "sparc64"@,
            Arch::Wasm32 => "wasm32"@,
            Arch::Wasm64 => "wasm64"@,
            Arch::Unknown(s) => "Unknown: "@ + s@,
        }
    }

    /// Render the architecture as its lower-case label.
    pub fn display(&self) -> (r: String)
        ensures
            r@ == self.display_spec(),
    {
        match self {
            Arch::ArmV5 => String::from_str("armv5"),
            Arch::ArmV6 => String::from_str("armv6"),
            Arch::ArmV7 => String::from_str("armv7"),
            Arch::Arm64 => String::from_str("arm64"),
            Arch::I386 => String::from_str("i386"),
            Arch::I586 => String::from_str("i586"),
            Arch::I686 => String::from_str("i686"),
            Arch::X64 => String::from_str("x86_64"),
            Arch::Mips => String::from_str("mips"),
            Arch::MipsEl => String::from_str("mipsel"),
            Arch::Mips64 => String::from_str("mips64"),
            Arch::Mips64El => String::from_str("mips64el"),
            Arch::PowerPc => String::from_str("powerpc"),
            Arch::PowerPc64 => String::from_str("powerpc64"),
            Arch::PowerPc64Le => String::from_str("powerpc64le"),
            Arch::Riscv32 => String::from_str("riscv32"),
            Arch::Riscv64 => String::from_str("riscv64"),
            Arch::S390x => String::from_str("s390x"),
            Arch::Sparc => String::from_str("sparc"),
            Arch::Sparc64 => String::from_str("sparc64"),
            Arch::Wasm32 => String::from_str("wasm32"),
            Arch::Wasm64 => String::from_str("wasm64"),
            Arch::Unknown(s) => {
                let mut out = String::from_str("Unknown: ");
                out.append(s.as_str());
                out
            },
        }
    }
}

} // verus!
