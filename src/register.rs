use vstd::prelude::*;

verus! {

/// The registers of the MD22 that this driver reads or writes.
#[derive(Clone, Copy, Debug, PartialEq, Eq, Structural)]
pub enum Register {
    /// MD22 Mode Register
    Mode,
    /// MD22 Speed Register
    Speed,
    /// MD22 Turn Register
    Turn,
    /// MD22 Acceleration Register
    Acceleration,
    /// MD22 Software Revision Register
    SoftwareRevision,
}

impl Register {
    /// The register's address on the device, as fixed by the datasheet.
    pub open spec fn spec_addr(self) -> u8 {
        match self {
            Register::Mode => 0x00,
            Register::Speed => 0x01,
            Register::Turn => 0x02,
            Register::Acceleration => 0x03,
            Register::SoftwareRevision => 0x07,
        }
    }

    /// Only the software revision register cannot be written.
    pub open spec fn spec_is_read_only(self) -> bool {
        self == Register::SoftwareRevision
    }

    /// Get the register address.
    #[verifier::when_used_as_spec(spec_addr)]
    pub fn addr(self) -> (r: u8)
        ensures
            r == self.spec_addr(),
    {
        match self {
            Register::Mode => 0x00,
            Register::Speed => 0x01,
            Register::Turn => 0x02,
            Register::Acceleration => 0x03,
            Register::SoftwareRevision => 0x07,
        }
    }

    /// Whether the register can only be read.
    #[verifier::when_used_as_spec(spec_is_read_only)]
    pub fn is_read_only(self) -> (r: bool)
        ensures
            r == self.spec_is_read_only(),
    {
        match self {
            Register::SoftwareRevision => true,
            _ => false,
        }
    }
}

} // verus!
