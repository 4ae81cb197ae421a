use crate::text::{decimal_of, int_to_string};
use vstd::prelude::*;
use vstd::string::StringExecFns;

verus! {

/// The functions the host provides to programs, reached by negative ids
/// in `-111..=-101`; `Unknown` keeps any other id.
#[derive(Clone, Copy, Debug, PartialEq, Eq, Structural)]
pub enum NativeFunction {
    IPrint,
    SPrint,
    IRead,
    SRead,
    NL,
    Random,
    Timer,
    StopTimer,
    Alloc,
    Free,
    I2S,
    Unknown(i32),
}

/// The native function with the given id.
pub open spec fn native_of(id: i32) -> NativeFunction {
    if id == -101 { NativeFunction::IPrint }
    else if id == -102 { NativeFunction::SPrint }
    else if id == -103 { NativeFunction::IRead }
    else if id == -104 { NativeFunction::SRead }
    else if id == -105 { NativeFunction::NL }
    else if id == -106 { NativeFunction::Random }
    else if id == -107 { NativeFunction::Timer }
    else if id == -108 { NativeFunction::StopTimer }
    else if id == -109 { NativeFunction::Alloc }
    else if id == -110 { NativeFunction::Free }
    else if id == -111 { NativeFunction::I2S }
    else { NativeFunction::Unknown(id) }
}

impl NativeFunction {
    /// The id of this native function.
    pub open spec fn spec_id(self) -> i32 {
        match self {
            NativeFunction::IPrint => -101i32,
            NativeFunction::SPrint => -102i32,
            NativeFunction::IRead => -103i32,
            NativeFunction::SRead => -104i32,
            NativeFunction::NL => -105i32,
            NativeFunction::Random => -106i32,
            NativeFunction::Timer => -107i32,
            NativeFunction::StopTimer => -108i32,
            NativeFunction::Alloc => -109i32,
            NativeFunction::Free => -110i32,
            NativeFunction::I2S => -111i32,
            NativeFunction::Unknown(n) => n,
        }
    }

    /// The name of this native function.
    pub open spec fn spec_name(self) -> Seq<char> {
        match self {
            NativeFunction::IPrint => "iprint"@,
            NativeFunction::SPrint => "sprint"@,
            NativeFunction::IRead => "iread"@,
            NativeFunction::SRead => "sread"@,
            NativeFunction::NL => "nl"@,
            NativeFunction::Random => "random"@,
            NativeFunction::Timer => "timer"@,
            NativeFunction::StopTimer => "stoptimer"@,
            NativeFunction::Alloc => "alloc"@,
            NativeFunction::Free => "free"@,
            NativeFunction::I2S => "i2s"@,
            NativeFunction::Unknown(n) => "Unknown("@ + decimal_of(n as int) + ")"@,
        }
    }

    /// How many stack cells this native function pops.
    pub open spec fn spec_args(self) -> u32 {
        match self {
            NativeFunction::IPrint => 1,
            NativeFunction::SPrint => 1,
            NativeFunction::IRead => 1,
            NativeFunction::SRead => 2,
            NativeFunction::NL => 0,
            NativeFunction::Random => 1,
            NativeFunction::Timer => 2,
            NativeFunction::StopTimer => 2,
            NativeFunction::Alloc => 1,
            NativeFunction::Free => 1,
            NativeFunction::I2S => 2,
            NativeFunction::Unknown(_) => 0,
        }
    }

    /// The native function with the given id (`Unknown` outside `-111..=-101`).
    pub fn get_native(id: i32) -> (r: NativeFunction)
        ensures
            r == native_of(id),
            r.spec_id() == id,
    {
        match id {
            -101 => NativeFunction::IPrint,
            -102 => NativeFunction::SPrint,
            -103 => NativeFunction::IRead,
            -104 => NativeFunction::SRead,
            -105 => NativeFunction::NL,
            -106 => NativeFunction::Random,
            -107 => NativeFunction::Timer,
            -108 => NativeFunction::StopTimer,
            -109 => NativeFunction::Alloc,
            -110 => NativeFunction::Free,
            -111 => NativeFunction::I2S,
            _ => NativeFunction::Unknown(id),
        }
    }

    /// The id of this native function.
    pub fn id(&self) -> (r: i32)
        ensures
            r == self.spec_id(),
    {
        match self {
            NativeFunction::IPrint => -101,
            NativeFunction::SPrint => -102,
            NativeFunction::IRead => -103,
            NativeFunction::SRead => -104,
            NativeFunction::NL => -105,
            NativeFunction::Random => -106,
            NativeFunction::Timer => -107,
            NativeFunction::StopTimer => -108,
            NativeFunction::Alloc => -109,
            NativeFunction::Free => -110,
            NativeFunction::I2S => -111,
            NativeFunction::Unknown(n) => *n,
        }
    }

    /// How many stack cells this native function pops.
    pub fn args(&self) -> (r: u32)
        ensures
            r == self.spec_args(),
    {
        match self {
            NativeFunction::IPrint => 1,
            NativeFunction::SPrint => 1,
            NativeFunction::IRead => 1,
            NativeFunction::SRead => 2,
            NativeFunction::NL => 0,
            NativeFunction::Random => 1,
            NativeFunction::Timer => 2,
            NativeFunction::StopTimer => 2,
            NativeFunction::Alloc => 1,
            NativeFunction::Free => 1,
            NativeFunction::I2S => 2,
            NativeFunction::Unknown(_) => 0,
        }
    }

    /// The name of this native function.
    pub fn name(&self) -> (r: String)
        ensures
            r@ == self.spec_name(),
    {
        match self {
            NativeFunction::IPrint => "iprint".to_owned(),
            NativeFunction::SPrint => "sprint".to_owned(),
            NativeFunction::IRead => "iread".to_owned(),
            NativeFunction::SRead => "sread".to_owned(),
            NativeFunction::NL => "nl".to_owned(),
            NativeFunction::Random => "random".to_owned(),
            NativeFunction::Timer => "timer".to_owned(),
            NativeFunction::StopTimer => "stoptimer".to_owned(),
            NativeFunction::Alloc => "alloc".to_owned(),
            NativeFunction::Free => "free".to_owned(),
            NativeFunction::I2S => "i2s".to_owned(),
            NativeFunction::Unknown(n) => {
                let mut s = "Unknown(".to_owned();
                let digits = int_to_string(*n);
                s.append(digits.as_str());
                s.append(")");
                s
            },
        }
    }
}

} // verus!
