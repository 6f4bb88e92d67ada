//! Platform-agnostic driver for the MD22 dual motor controller, which is
//! reached over a 7-bit addressed I2C bus.
//!
//! The driver does not own a bus. Each operation yields the
//! [`Transaction`] that the bus must carry, and the outcome reported by the
//! bus is handed back to the driver, which decides what follows.
use vstd::prelude::*;

mod driver;
mod register;

pub use crate::driver::{
    lemma_startup_order, register_read, register_write, startup_writes, BusOp, Md22, Startup, Transaction, STARTUP_WRITES,
};
pub use crate::register::Register;

verus! {

/// Device I2C bus address switch states
#[derive(Clone, Copy, Debug, PartialEq, Eq, Structural)]
pub enum I2CAddressSwitchState {
    /// Switch 1 - On, Switch 2 - On, Switch 3 - On, Switch 4 - On
    OnOnOnOn,
    /// Switch 1 - Off, Switch 2 - On, Switch 3 - On, Switch 4 - On
    OffOnOnOn,
    /// Switch 1 - On, Switch 2 - Off, Switch 3 - On, Switch 4 - On
    OnOffOnOn,
    /// Switch 1 - Off, Switch 2 - Off, Switch 3 - On, Switch 4 - On
    OffOffOnOn,
    /// Switch 1 - On, Switch 2 - On, Switch 3 - Off, Switch 4 - On
    OnOnOffOn,
    /// Switch 1 - Off, Switch 2 - On, Switch 3 - Off, Switch 4 - On
    OffOnOffOn,
    /// Switch 1 - On, Switch 2 - Off, Switch 3 - Off, Switch 4 - On
    OnOffOffOn,
    /// Switch 1 - Off, Switch 2 - Off, Switch 3 - Off, Switch 4 - On
    OffOffOffOn,
}

impl I2CAddressSwitchState {
    /// The bus address that the switch positions select.
    pub open spec fn spec_bits(self) -> u8 {
        match self {
            I2CAddressSwitchState::OnOnOnOn => 0xB0,
            I2CAddressSwitchState::OffOnOnOn => 0xB2,
            I2CAddressSwitchState::OnOffOnOn => 0xB4,
            I2CAddressSwitchState::OffOffOnOn => 0xB6,
            I2CAddressSwitchState::OnOnOffOn => 0xB8,
            I2CAddressSwitchState::OffOnOffOn => 0xBA,
            I2CAddressSwitchState::OnOffOffOn => 0xBC,
            I2CAddressSwitchState::OffOffOffOn => 0xBE,
        }
    }

    /// Get the bus address that the switch positions select.
    #[verifier::when_used_as_spec(spec_bits)]
    pub fn bits(self) -> (r: u8)
        ensures
            r == self.spec_bits(),
    {
        match self {
            I2CAddressSwitchState::OnOnOnOn => 0xB0,
            I2CAddressSwitchState::OffOnOnOn => 0xB2,
            I2CAddressSwitchState::OnOffOnOn => 0xB4,
            I2CAddressSwitchState::OffOffOnOn => 0xB6,
            I2CAddressSwitchState::OnOnOffOn => 0xB8,
            I2CAddressSwitchState::OffOnOffOn => 0xBA,
            I2CAddressSwitchState::OnOffOffOn => 0xBC,
            I2CAddressSwitchState::OffOffOffOn => 0xBE,
        }
    }
}

/// Distinct switch positions select distinct bus addresses, and every
/// address selected is one of the eight even addresses from 0xB0 to 0xBE.
pub proof fn lemma_switch_addresses(a: I2CAddressSwitchState, b: I2CAddressSwitchState)
    ensures
        a.spec_bits() == b.spec_bits() <==> a == b,
        0xB0 <= a.spec_bits() <= 0xBE,
        a.spec_bits() % 2 == 0,
{
}

/// I2C operating mode
#[derive(Clone, Copy, Debug, PartialEq, Eq, Structural)]
pub enum OperatingMode {
    /// (Default) The meaning of the speed registers is literal speeds in the range of:
    /// - 0 (full reverse)
    /// - 128 (stop)
    /// - 255 (full forward)
    Mode0,
    /// The speed registers are interpreted as signed values:
    /// - -128 (full reverse)
    /// - 0 (stop)
    /// - 127 (full forward)
    Mode1,
}

impl OperatingMode {
    /// The value written to the mode register to select this mode.
    pub open spec fn spec_bits(self) -> u8 {
        match self {
            OperatingMode::Mode0 => 0,
            OperatingMode::Mode1 => 1,
        }
    }

    /// Whether the mode steers through the turn register; neither of the
    /// two modes does.
    pub open spec fn spec_is_turn_mode(self) -> bool {
        match self {
            OperatingMode::Mode0 | OperatingMode::Mode1 => false,
        }
    }

    /// Get raw representation of operating mode.
    #[verifier::when_used_as_spec(spec_bits)]
    pub fn bits(self) -> (r: u8)
        ensures
            r == self.spec_bits(),
    {
        match self {
            OperatingMode::Mode0 => 0,
            OperatingMode::Mode1 => 1,
        }
    }

    /// Whether the mode steers through the turn register.
    pub fn is_turn_mode(&self) -> (r: bool)
        ensures
            r == self.spec_is_turn_mode(),
            !r,
    {
        match self {
            OperatingMode::Mode0 | OperatingMode::Mode1 => false,
        }
    }
}

} // verus!
