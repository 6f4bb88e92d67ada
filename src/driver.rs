use vstd::prelude::*;

use crate::register::Register;
use crate::{I2CAddressSwitchState, OperatingMode};

verus! {

/// One transaction that the driver asks the bus to carry.
#[derive(Debug, PartialEq, Eq)]
pub enum Transaction {
    /// Send `bytes` to the device at `address`.
    Write { address: u8, bytes: Vec<u8> },
    /// Send `bytes` to the device at `address`, then read `read_len` bytes
    /// back without releasing the bus.
    WriteRead { address: u8, bytes: Vec<u8>, read_len: usize },
}

/// The mathematical value of a [`Transaction`].
pub enum BusOp {
    /// A write of `bytes` to the device at `address`.
    Write { address: u8, bytes: Seq<u8> },
    /// A write of `bytes` followed by a read of `read_len` bytes.
    WriteRead { address: u8, bytes: Seq<u8>, read_len: nat },
}

impl View for Transaction {
    type V = BusOp;

    open spec fn view(&self) -> BusOp {
        match self {
            Transaction::Write { address, bytes } => BusOp::Write { address: *address, bytes: bytes@ },
            Transaction::WriteRead { address, bytes, read_len } => BusOp::WriteRead {
                address: *address,
                bytes: bytes@,
                read_len: *read_len as nat,
            },
        }
    }
}

/// A two-byte write that stores `value` in register `reg` of the device at
/// `address`.
pub open spec fn register_write(address: u8, reg: Register, value: u8) -> BusOp {
    BusOp::Write { address, bytes: seq![reg.spec_addr(), value] }
}

/// A write of the register's address followed by a read of one byte.
pub open spec fn register_read(address: u8, reg: Register) -> BusOp {
    BusOp::WriteRead { address, bytes: seq![reg.spec_addr()], read_len: 1 }
}

/// The writes that bring a freshly powered device into a known state:
/// the mode first, then acceleration, speed and turn set to zero.
pub open spec fn startup_writes(mode: OperatingMode, address: u8) -> Seq<BusOp> {
    seq![
        register_write(address, Register::Mode, mode.spec_bits()),
        register_write(address, Register::Acceleration, 0),
        register_write(address, Register::Speed, 0),
        register_write(address, Register::Turn, 0),
    ]
}

/// Starting a driver in mode `mode` makes exactly four two-byte writes to
/// the device, in this order: the mode register set to the mode, then the
/// acceleration, speed and turn registers set to zero.
pub proof fn lemma_startup_order(mode: OperatingMode, switches: I2CAddressSwitchState)
    ensures
        startup_writes(mode, switches.spec_bits()).len() == 4,
        startup_writes(mode, switches.spec_bits())[0] == (BusOp::Write {
            address: switches.spec_bits(),
            bytes: seq![0x00u8, mode.spec_bits()],
        }),
        startup_writes(mode, switches.spec_bits())[1] == (BusOp::Write {
            address: switches.spec_bits(),
            bytes: seq![0x03u8, 0u8],
        }),
        startup_writes(mode, switches.spec_bits())[2] == (BusOp::Write {
            address: switches.spec_bits(),
            bytes: seq![0x01u8, 0u8],
        }),
        startup_writes(mode, switches.spec_bits())[3] == (BusOp::Write {
            address: switches.spec_bits(),
            bytes: seq![0x02u8, 0u8],
        }),
{
}

/// The number of writes in the startup sequence.
pub const STARTUP_WRITES: usize = 4;

fn write_register(address: u8, reg: Register, value: u8) -> (t: Transaction)
    ensures
        t@ == register_write(address, reg, value),
{
    let bytes = vec![reg.addr(), value];
    assert(bytes@ =~= seq![reg.spec_addr(), value]);
    Transaction::Write { address, bytes }
}

/// MD22 Driver
///
/// Only a completed [`Startup`] yields one, so every driver talks to a
/// device that has been through the startup writes.
pub struct Md22 {
    mode: OperatingMode,
    address: u8,
}

impl Md22 {
    /// The operating mode last written successfully.
    pub closed spec fn spec_mode(&self) -> OperatingMode {
        self.mode
    }

    /// The bus address of the device.
    pub closed spec fn spec_address(&self) -> u8 {
        self.address
    }

    /// Create a new MD22 driver for the device at the given switch
    /// positions. The result is the startup sequence, which sets the mode
    /// and defaults the acceleration, speed and turn registers to 0; the
    /// driver is available once all of its writes have succeeded.
    pub fn new(mode: OperatingMode, address: I2CAddressSwitchState) -> (s: Startup)
        ensures
            s.spec_mode() == mode,
            s.spec_address() == address.spec_bits(),
            s.spec_acknowledged() == 0,
            s.wf(),
    {
        Startup { mode, address: address.bits(), acknowledged: 0 }
    }

    /// The operating mode last written successfully.
    #[verifier::when_used_as_spec(spec_mode)]
    pub fn mode(&self) -> (r: OperatingMode)
        ensures
            r == self.spec_mode(),
    {
        self.mode
    }

    /// The bus address of the device.
    #[verifier::when_used_as_spec(spec_address)]
    pub fn address(&self) -> (r: u8)
        ensures
            r == self.spec_address(),
    {
        self.address
    }

    /// Set the operating mode: the write that selects `mode`. Hand its
    /// outcome to [`Md22::mode_written`].
    pub fn set_mode(&self, mode: OperatingMode) -> (t: Transaction)
        ensures
            t@ == register_write(self.spec_address(), Register::Mode, mode.spec_bits()),
    {
        write_register(self.address, Register::Mode, mode.bits())
    }

    /// Records the outcome of the write made by [`Md22::set_mode`]: the
    /// remembered mode changes only when the write succeeded.
    pub fn mode_written<E>(&mut self, mode: OperatingMode, outcome: Result<(), E>) -> (r: Result<(), E>)
        ensures
            r == outcome,
            final(self).spec_address() == old(self).spec_address(),
            final(self).spec_mode() == (if outcome is Ok { mode } else { old(self).spec_mode() }),
    {
        if outcome.is_ok() {
            self.mode = mode;
        }
        outcome
    }

    /// Set the motor speed register to the specified value.
    pub fn set_speed(&self, speed: u8) -> (t: Transaction)
        ensures
            t@ == register_write(self.spec_address(), Register::Speed, speed),
    {
        write_register(self.address, Register::Speed, speed)
    }

    /// Set the motor turn register to the specified value.
    pub fn set_turn(&self, turn: u8) -> (t: Transaction)
        ensures
            t@ == register_write(self.spec_address(), Register::Turn, turn),
    {
        write_register(self.address, Register::Turn, turn)
    }

    /// Set the motor acceleration register to the specified value.
    /// The acceleration time is given by this value * 64us * n_steps.
    pub fn set_acceleration(&self, acceleration: u8) -> (t: Transaction)
        ensures
            t@ == register_write(self.spec_address(), Register::Acceleration, acceleration),
    {
        write_register(self.address, Register::Acceleration, acceleration)
    }

    /// Read the software revision: one write-then-read transaction whose
    /// outcome goes to [`Md22::software_revision`].
    pub fn get_software_revision(&self) -> (t: Transaction)
        ensures
            t@ == register_read(self.spec_address(), Register::SoftwareRevision),
    {
        let bytes = vec![Register::SoftwareRevision.addr()];
        assert(bytes@ =~= seq![Register::SoftwareRevision.spec_addr()]);
        Transaction::WriteRead { address: self.address, bytes, read_len: 1 }
    }

    /// The revision from the outcome of [`Md22::get_software_revision`]'s
    /// transaction and the byte it read back.
    pub fn software_revision<E>(outcome: Result<(), E>, read: &[u8]) -> (r: Result<u8, E>)
        requires
            outcome is Ok ==> read@.len() == 1,
        ensures
            outcome is Ok ==> r == Ok::<u8, E>(read@[0]),
            outcome is Err ==> r == Err::<u8, E>(outcome->Err_0),
    {
        match outcome {
            Ok(()) => Ok(read[0]),
            Err(e) => Err(e),
        }
    }
}

/// A driver whose startup writes are under way.
pub struct Startup {
    mode: OperatingMode,
    address: u8,
    acknowledged: usize,
}

impl Startup {
    /// The mode that the driver is being started in.
    pub closed spec fn spec_mode(&self) -> OperatingMode {
        self.mode
    }

    /// The bus address of the device.
    pub closed spec fn spec_address(&self) -> u8 {
        self.address
    }

    /// How many of the startup writes have succeeded.
    pub closed spec fn spec_acknowledged(&self) -> nat {
        self.acknowledged as nat
    }

    /// The startup writes that have succeeded so far, in order.
    pub open spec fn done(&self) -> Seq<BusOp> {
        startup_writes(self.spec_mode(), self.spec_address()).take(self.spec_acknowledged() as int)
    }

    /// Every state that the startup passes through has at most four
    /// writes acknowledged.
    pub closed spec fn wf(&self) -> bool {
        self.acknowledged <= STARTUP_WRITES
    }

    /// The write that the bus must carry next, or `None` once every
    /// startup write has succeeded.
    pub fn pending(&self) -> (r: Option<Transaction>)
        requires
            self.wf(),
        ensures
            self.spec_acknowledged() < 4 ==> r is Some && r->Some_0@ == startup_writes(
                self.spec_mode(),
                self.spec_address(),
            )[self.spec_acknowledged() as int],
            self.spec_acknowledged() >= 4 ==> r is None,
    {
        if self.acknowledged == 0 {
            Some(write_register(self.address, Register::Mode, self.mode.bits()))
        } else if self.acknowledged == 1 {
            Some(write_register(self.address, Register::Acceleration, 0))
        } else if self.acknowledged == 2 {
            Some(write_register(self.address, Register::Speed, 0))
        } else if self.acknowledged == 3 {
            Some(write_register(self.address, Register::Turn, 0))
        } else {
            None
        }
    }

    /// Records the outcome of the pending write. A failure ends the startup
    /// with the bus error; the remaining writes are not made.
    pub fn acknowledge<E>(self, outcome: Result<(), E>) -> (r: Result<Startup, E>)
        requires
            self.wf(),
            self.spec_acknowledged() < 4,
        ensures
            outcome is Err ==> r == Err::<Startup, E>(outcome->Err_0),
            outcome is Ok ==> r is Ok && r->Ok_0.wf() && r->Ok_0.spec_mode() == self.spec_mode()
                && r->Ok_0.spec_address() == self.spec_address()
                && r->Ok_0.spec_acknowledged() == self.spec_acknowledged() + 1,
    {
        match outcome {
            Ok(()) => Ok(Startup {
                mode: self.mode,
                address: self.address,
                acknowledged: self.acknowledged + 1,
            }),
            Err(e) => Err(e),
        }
    }

    /// The driver, once every startup write has succeeded.
    pub fn finish(self) -> (r: Option<Md22>)
        ensures
            r is Some <==> self.spec_acknowledged() == 4,
            r is Some ==> self.done() == startup_writes(self.spec_mode(), self.spec_address()),
            r is Some ==> r->Some_0.spec_mode() == self.spec_mode()
                && r->Some_0.spec_address() == self.spec_address(),
    {
        if self.acknowledged == STARTUP_WRITES {
            assert(self.done() =~= startup_writes(self.mode, self.address));
            Some(Md22 { mode: self.mode, address: self.address })
        } else {
            None
        }
    }
}

} // verus!
