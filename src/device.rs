//! The device handle: every operation of the chip, as transactions on a bus and control lines.
use vstd::prelude::*;

use crate::protocol::{
    aai_chunks_run, aai_program_run, address_bytes, byte_program_run, chain, command_run,
    configure_run, configures, erase_full_run, erase_sector_run, exchanged, extends, idle_run,
    lemma_extends_trans, prepare_run, read_bytes, read_run, status_run, transaction_run,
    wait_run, write_status_run, Line, Run, Step, CMD_AAI_PROGRAM, CMD_BYTE_PROGRAM,
    CMD_ERASE_FULL, CMD_ERASE_SECTOR, CMD_READ, CMD_READ_STATUS, CMD_WRITE_DISABLE,
    CMD_WRITE_ENABLE, CMD_WRITE_STATUS, MAX_ADDRESS, MAX_POLLS,
};
pub use crate::status::Status;

verus! {

/// A synchronous serial bus that exchanges a byte buffer in place.
pub trait Bus {
    type Error;

    /// Sends `words` and overwrites them with the bytes received meanwhile.
    fn transfer<const N: usize>(&mut self, words: &mut [u8; N]) -> Result<(), Self::Error>;
}

/// A digital output line.
pub trait Pin {
    type Error;

    /// Drives the line low.
    fn set_low(&mut self) -> Result<(), Self::Error>;

    /// Drives the line high.
    fn set_high(&mut self) -> Result<(), Self::Error>;
}

/// Error when communicating with the device
#[derive(Debug, PartialEq, Eq)]
pub enum CommandError<B: Bus, P: Pin> {
    /// Bus transfer error
    TransferError(B::Error),
    /// Error while setting the state of the EN line
    EnablePinError(P::Error),
    /// Error while setting the state of the HOLD line
    HoldPinError(P::Error),
    /// Error while setting the state of the WP line
    WriteProtectionPinError(P::Error),
    /// Chip is still busy executing another operation: found busy before a write or erase, or
    /// busy through a whole busy-wait
    Busy,
    /// The given memory address is out of range
    InvalidAddress,
    /// The given buffer size is too small for the called operation
    BufferTooSmall,
    /// The called operation requires an even buffer size
    BufferUneven,
}

/// General flash memory interface
pub trait Memory {
    type Error;

    /// Switches to blocking mode
    fn set_blocking(&mut self);

    /// Switches to non-blocking mode
    fn set_non_blocking(&mut self);

    /// Reads and returns the status register
    fn read_status(&mut self) -> Result<Status, Self::Error>;

    /// Enables write operations
    fn write_enable(&mut self) -> Result<(), Self::Error>;

    /// Disables write operations
    fn write_disable(&mut self) -> Result<(), Self::Error>;

    /// Writes the given status to the status register
    fn write_status(&mut self, status: Status) -> Result<(), Self::Error>;

    /// Erases the full chip
    fn erase_full(&mut self) -> Result<(), Self::Error>;

    /// Erases the sector that holds the given address
    fn erase_sector(&mut self, address: u32) -> Result<(), Self::Error>;

    /// Programs the given byte at the given address
    fn byte_program(&mut self, address: u32, data: u8) -> Result<(), Self::Error>;

    /// Auto-address-increment programming, for writing larger amounts of data
    fn aai_program(&mut self, address: u32, buffer: &[u8]) -> Result<(), Self::Error>;

    /// Reads `L` bytes starting at the given address
    fn read<const L: usize>(&mut self, address: u32) -> Result<[u8; L], Self::Error>;
}

/// SST25-series flash memory chip
pub struct Flash<B: Bus, P: Pin> {
    /// Serial bus
    bus: B,
    /// EN line
    pin_enable: P,
    /// WP line
    pin_write_protection: P,
    /// HOLD line
    pin_hold: P,
    /// Have the static line levels been set?
    configured: bool,
    /// Do operations wait for the chip's longer-lasting internal cycles?
    blocking: bool,
    /// Every call made on the bus and the lines, in order
    log: Ghost<Seq<Step<B, P>>>,
}

impl<B: Bus, P: Pin> Flash<B, P> {
    /// Every call made on the bus and the lines since the handle was created, in order.
    pub closed spec fn log(&self) -> Seq<Step<B, P>> {
        self.log@
    }

    /// The serial bus that the handle owns.
    pub closed spec fn bus(&self) -> B {
        self.bus
    }

    /// The line wired to the chip's EN input.
    pub closed spec fn pin_enable(&self) -> P {
        self.pin_enable
    }

    /// The line wired to the chip's WP input.
    pub closed spec fn pin_write_protection(&self) -> P {
        self.pin_write_protection
    }

    /// The line wired to the chip's HOLD input.
    pub closed spec fn pin_hold(&self) -> P {
        self.pin_hold
    }

    /// Have the static line levels been set?
    pub closed spec fn is_configured(&self) -> bool {
        self.configured
    }

    /// Do write and erase operations wait until the chip is idle?
    pub closed spec fn is_blocking(&self) -> bool {
        self.blocking
    }

    /// `after` is `before` once an operation ran whose steps, read from the end of `before`'s
    /// log, give `run`: they end where `after`'s log ends, with the result `r`. The setup is done
    /// where it was done before or those steps did it; the mode is kept.
    pub open spec fn advanced<T>(
        before: &Self,
        after: &Self,
        run: Run<T, B, P>,
        r: Result<T, CommandError<B, P>>,
    ) -> bool {
        &&& extends(after.log(), before.log())
        &&& run == Some((r, after.log().len() as int))
        &&& after.is_configured() == (before.is_configured() || configures(
            after.log(),
            before.log().len() as int,
        ))
        &&& after.is_blocking() == before.is_blocking()
    }

    /// A handle over `bus` and the EN, WP and HOLD lines, in blocking mode, with the static
    /// line levels not set yet: the first operation sets them.
    pub fn new(bus: B, pin_enable: P, pin_write_protection: P, pin_hold: P) -> (r: Self)
        ensures
            r.bus() == bus,
            r.pin_enable() == pin_enable,
            r.pin_write_protection() == pin_write_protection,
            r.pin_hold() == pin_hold,
            r.log() == Seq::<Step<B, P>>::empty(),
            !r.is_configured(),
            r.is_blocking(),
    {
        Flash {
            bus,
            pin_enable,
            pin_write_protection,
            pin_hold,
            configured: false,
            blocking: true,
            log: Ghost(Seq::empty()),
        }
    }

    /// Drives `line` to `high` and records the call.
    fn drive(&mut self, line: Line, high: bool) -> (r: Result<(), P::Error>)
        ensures
            final(self).log() == old(self).log().push(Step::Drive { line, high, outcome: r }),
            final(self).bus() == old(self).bus(),
            !(line is Enable) ==> final(self).pin_enable() == old(self).pin_enable(),
            !(line is WriteProtect) ==> final(self).pin_write_protection() == old(
                self,
            ).pin_write_protection(),
            !(line is Hold) ==> final(self).pin_hold() == old(self).pin_hold(),
            final(self).is_configured() == old(self).is_configured(),
            final(self).is_blocking() == old(self).is_blocking(),
    {
        let r = match line {
            Line::Enable => if high {
                self.pin_enable.set_high()
            } else {
                self.pin_enable.set_low()
            },
            Line::WriteProtect => if high {
                self.pin_write_protection.set_high()
            } else {
                self.pin_write_protection.set_low()
            },
            Line::Hold => if high {
                self.pin_hold.set_high()
            } else {
                self.pin_hold.set_low()
            },
        };
        self.log = Ghost(self.log@.push(Step::Drive { line, high, outcome: r }));
        r
    }

    /// Exchanges `words` on the bus and records the call.
    fn exchange<const N: usize>(&mut self, words: &mut [u8; N]) -> (r: Result<(), B::Error>)
        ensures
            final(self).log() == old(self).log().push(
                Step::Exchange { sent: old(words)@, reply: exchanged(r, final(words)@) },
            ),
            final(words)@.len() == N,
            final(self).pin_enable() == old(self).pin_enable(),
            final(self).pin_write_protection() == old(self).pin_write_protection(),
            final(self).pin_hold() == old(self).pin_hold(),
            final(self).is_configured() == old(self).is_configured(),
            final(self).is_blocking() == old(self).is_blocking(),
    {
        let ghost sent = words@;
        let r = self.bus.transfer(words);
        self.log = Ghost(
            self.log@.push(Step::Exchange { sent, reply: exchanged(r, words@) }),
        );
        r
    }

    /// Sets the static line levels once.
    fn configure(&mut self) -> (r: Result<(), CommandError<B, P>>)
        ensures
            extends(final(self).log(), old(self).log()),
            forall|t: Seq<Step<B, P>>|
                extends(t, final(self).log()) ==> #[trigger] configure_run(
                    t,
                    old(self).log().len() as int,
                    old(self).is_configured(),
                ) == Some((r, final(self).log().len() as int)),
            final(self).is_configured() == (old(self).is_configured() || r is Ok),
            final(self).is_blocking() == old(self).is_blocking(),
    {
        if self.configured {
            return Ok(());
        }
        match self.drive(Line::Hold, true) {
            Ok(()) => {},
            Err(e) => return Err(CommandError::HoldPinError(e)),
        }
        match self.drive(Line::WriteProtect, false) {
            Ok(()) => {},
            Err(e) => return Err(CommandError::WriteProtectionPinError(e)),
        }
        self.configured = true;
        Ok(())
    }

    /// Exchanges `words` within one transaction: the setup where it is not done yet, the enable
    /// line low, the exchange, and the enable line high again even where the exchange failed.
    fn transfer<const N: usize>(&mut self, words: &mut [u8; N]) -> (r: Result<(), CommandError<B, P>>)
        ensures
            extends(final(self).log(), old(self).log()),
            forall|t: Seq<Step<B, P>>|
                extends(t, final(self).log()) ==> #[trigger] transaction_run(
                    t,
                    old(self).log().len() as int,
                    old(self).is_configured(),
                    old(words)@,
                ) == Some((exchanged(r, final(words)@), final(self).log().len() as int)),
            final(words)@.len() == N,
            final(self).is_configured() == (old(self).is_configured() || configures(
                final(self).log(),
                old(self).log().len() as int,
            )),
            r is Ok ==> final(self).is_configured(),
            final(self).is_blocking() == old(self).is_blocking(),
    {
        self.configure()?;
        match self.drive(Line::Enable, false) {
            Ok(()) => {},
            Err(e) => return Err(CommandError::EnablePinError(e)),
        }
        let result = self.exchange(words);
        match self.drive(Line::Enable, true) {
            Ok(()) => {},
            Err(e) => return Err(CommandError::EnablePinError(e)),
        }
        match result {
            Ok(()) => Ok(()),
            Err(e) => Err(CommandError::TransferError(e)),
        }
    }

    /// Reads the status register in one transaction.
    fn status(&mut self) -> (r: Result<Status, CommandError<B, P>>)
        ensures
            extends(final(self).log(), old(self).log()),
            forall|t: Seq<Step<B, P>>|
                extends(t, final(self).log()) ==> #[trigger] status_run(
                    t,
                    old(self).log().len() as int,
                    old(self).is_configured(),
                ) == Some((r, final(self).log().len() as int)),
            final(self).is_configured() == (old(self).is_configured() || configures(
                final(self).log(),
                old(self).log().len() as int,
            )),
            r is Ok ==> final(self).is_configured(),
            final(self).is_blocking() == old(self).is_blocking(),
    {
        let mut frame = [CMD_READ_STATUS, 0x0];
        proof {
            assert(frame@ =~= seq![CMD_READ_STATUS, 0u8]);
        }
        self.transfer(&mut frame)?;
        Ok(Status::from_register(frame[1]))
    }

    /// Sends the one-byte command `opcode` in one transaction.
    fn command(&mut self, opcode: u8) -> (r: Result<(), CommandError<B, P>>)
        ensures
            extends(final(self).log(), old(self).log()),
            forall|t: Seq<Step<B, P>>|
                extends(t, final(self).log()) ==> #[trigger] command_run(
                    t,
                    old(self).log().len() as int,
                    old(self).is_configured(),
                    opcode,
                ) == Some((r, final(self).log().len() as int)),
            final(self).is_configured() == (old(self).is_configured() || configures(
                final(self).log(),
                old(self).log().len() as int,
            )),
            r is Ok ==> final(self).is_configured(),
            final(self).is_blocking() == old(self).is_blocking(),
    {
        let ghost i = self.log@.len() as int;
        let ghost configured = self.configured;
        let mut frame = [opcode];
        proof {
            assert(frame@ =~= seq![opcode]);
        }
        let r = match self.transfer(&mut frame) {
            Ok(()) => Ok(()),
            Err(e) => Err(e),
        };
        assert forall|t: Seq<Step<B, P>>| extends(t, self.log@) implies #[trigger] command_run(
            t,
            i,
            configured,
            opcode,
        ) == Some((r, self.log@.len() as int)) by {
            assert(transaction_run(t, i, configured, seq![opcode]) == Some(
                (exchanged(r, frame@), self.log@.len() as int),
            ));
        }
        r
    }

    /// Returns `Busy` where a status read finds the chip busy.
    fn assert_not_busy(&mut self) -> (r: Result<(), CommandError<B, P>>)
        ensures
            extends(final(self).log(), old(self).log()),
            forall|t: Seq<Step<B, P>>|
                extends(t, final(self).log()) ==> #[trigger] idle_run(
                    t,
                    old(self).log().len() as int,
                    old(self).is_configured(),
                ) == Some((r, final(self).log().len() as int)),
            final(self).is_configured() == (old(self).is_configured() || configures(
                final(self).log(),
                old(self).log().len() as int,
            )),
            r is Ok ==> final(self).is_configured(),
            final(self).is_blocking() == old(self).is_blocking(),
    {
        if self.status()?.busy {
            return Err(CommandError::Busy);
        }
        Ok(())
    }

    /// Sets the write-enable latch, then checks that the chip is idle.
    fn prepare(&mut self) -> (r: Result<(), CommandError<B, P>>)
        ensures
            extends(final(self).log(), old(self).log()),
            forall|t: Seq<Step<B, P>>|
                extends(t, final(self).log()) ==> #[trigger] prepare_run(
                    t,
                    old(self).log().len() as int,
                    old(self).is_configured(),
                ) == Some((r, final(self).log().len() as int)),
            final(self).is_configured() == (old(self).is_configured() || configures(
                final(self).log(),
                old(self).log().len() as int,
            )),
            final(self).is_blocking() == old(self).is_blocking(),
    {
        self.command(CMD_WRITE_ENABLE)?;
        self.assert_not_busy()
    }

    /// Returns `InvalidAddress` where `address` is out of range.
    fn assert_valid_address(&self, address: u32) -> (r: Result<(), CommandError<B, P>>)
        ensures
            r == (if address > MAX_ADDRESS {
                Err(CommandError::<B, P>::InvalidAddress)
            } else {
                Ok(())
            }),
    {
        if address > MAX_ADDRESS {
            return Err(CommandError::InvalidAddress);
        }
        Ok(())
    }

    /// Polls the status register until the chip is idle, where the handle blocks or `force`
    /// holds; returns at once otherwise.
    fn wait(&mut self, force: bool) -> (r: Result<(), CommandError<B, P>>)
        ensures
            extends(final(self).log(), old(self).log()),
            forall|t: Seq<Step<B, P>>|
                extends(t, final(self).log()) ==> #[trigger] wait_run(
                    t,
                    old(self).log().len() as int,
                    old(self).is_configured(),
                    old(self).is_blocking(),
                    force,
                    MAX_POLLS as nat,
                ) == Some((r, final(self).log().len() as int)),
            !(old(self).is_blocking() || force) ==> *final(self) == *old(self),
            final(self).is_configured() == (old(self).is_configured() || configures(
                final(self).log(),
                old(self).log().len() as int,
            )),
            final(self).is_blocking() == old(self).is_blocking(),
    {
        if !(self.blocking || force) {
            return Ok(());
        }
        let ghost log0 = self.log@;
        let ghost blocking0 = self.blocking;
        let ghost configured0 = self.configured;
        let mut polls: u64 = MAX_POLLS;
        loop
            invariant
                log0 == old(self).log(),
                blocking0 == old(self).is_blocking(),
                configured0 == old(self).is_configured(),
                self.configured == (configured0 || configures(self.log@, log0.len() as int)),
                !self.configured ==> self.log@.len() == log0.len(),
                self.blocking == blocking0,
                blocking0 || force,
                extends(self.log@, log0),
                forall|t: Seq<Step<B, P>>|
                    extends(t, self.log@) ==> #[trigger] wait_run(
                        t,
                        log0.len() as int,
                        configured0,
                        blocking0,
                        force,
                        MAX_POLLS as nat,
                    ) == wait_run(
                        t,
                        self.log@.len() as int,
                        self.configured,
                        blocking0,
                        force,
                        polls as nat,
                    ),
            decreases polls,
        {
            if polls == 0 {
                return Err(CommandError::Busy);
            }
            let ghost before = self.log@;
            let status = self.status();
            proof {
                lemma_extends_trans(self.log@, before, log0);
            }
            let status = status?;
            if !status.busy {
                return Ok(());
            }
            polls = polls - 1;
        }
    }
}

impl<B: Bus, P: Pin> Memory for Flash<B, P> {
    type Error = CommandError<B, P>;

    /// Switches to blocking mode
    fn set_blocking(&mut self)
        ensures
            final(self).log() == old(self).log(),
            final(self).is_configured() == old(self).is_configured(),
            final(self).is_blocking(),
    {
        self.blocking = true;
    }

    /// Switches to non-blocking mode
    fn set_non_blocking(&mut self)
        ensures
            final(self).log() == old(self).log(),
            final(self).is_configured() == old(self).is_configured(),
            !final(self).is_blocking(),
    {
        self.blocking = false;
    }

    /// Reads and returns the status register
    fn read_status(&mut self) -> (r: Result<Status, CommandError<B, P>>)
        ensures
            Self::advanced(
                old(self),
                final(self),
                status_run(final(self).log(), old(self).log().len() as int, old(self).is_configured()),
                r,
            ),
    {
        self.status()
    }

    /// Enables write operations
    fn write_enable(&mut self) -> (r: Result<(), CommandError<B, P>>)
        ensures
            Self::advanced(
                old(self),
                final(self),
                command_run(
                    final(self).log(),
                    old(self).log().len() as int,
                    old(self).is_configured(),
                    CMD_WRITE_ENABLE,
                ),
                r,
            ),
    {
        self.command(CMD_WRITE_ENABLE)
    }

    /// Disables write operations
    fn write_disable(&mut self) -> (r: Result<(), CommandError<B, P>>)
        ensures
            Self::advanced(
                old(self),
                final(self),
                command_run(
                    final(self).log(),
                    old(self).log().len() as int,
                    old(self).is_configured(),
                    CMD_WRITE_DISABLE,
                ),
                r,
            ),
    {
        self.command(CMD_WRITE_DISABLE)
    }

    /// Writes the given status to the status register
    fn write_status(&mut self, status: Status) -> (r: Result<(), CommandError<B, P>>)
        ensures
            Self::advanced(
                old(self),
                final(self),
                write_status_run(
                    final(self).log(),
                    old(self).log().len() as int,
                    old(self).is_configured(),
                    status,
                ),
                r,
            ),
    {
        self.command(CMD_WRITE_ENABLE)?;
        let mut dummy = [0x0u8];
        proof {
            assert(dummy@ =~= seq![0u8]);
        }
        match self.exchange(&mut dummy) {
            Ok(()) => {},
            Err(e) => return Err(CommandError::TransferError(e)),
        }
        let mut frame = [CMD_WRITE_STATUS, status.to_registers()];
        proof {
            assert(frame@ =~= seq![CMD_WRITE_STATUS, status.encoded()]);
        }
        self.transfer(&mut frame)?;
        Ok(())
    }

    /// Erases the full chip, then waits until the chip is idle, whatever the mode
    fn erase_full(&mut self) -> (r: Result<(), CommandError<B, P>>)
        ensures
            Self::advanced(
                old(self),
                final(self),
                erase_full_run(
                    final(self).log(),
                    old(self).log().len() as int,
                    old(self).is_configured(),
                    old(self).is_blocking(),
                ),
                r,
            ),
    {
        self.prepare()?;
        let mut frame = [CMD_ERASE_FULL];
        proof {
            assert(frame@ =~= seq![CMD_ERASE_FULL]);
        }
        self.transfer(&mut frame)?;
        self.wait(true)
    }

    /// Erases the sector that holds the given address; in blocking mode, then waits until the
    /// chip is idle
    fn erase_sector(&mut self, address: u32) -> (r: Result<(), CommandError<B, P>>)
        ensures
            Self::advanced(
                old(self),
                final(self),
                erase_sector_run(
                    final(self).log(),
                    old(self).log().len() as int,
                    old(self).is_configured(),
                    old(self).is_blocking(),
                    address,
                ),
                r,
            ),
    {
        self.assert_valid_address(address)?;
        self.prepare()?;
        let mut frame = [CMD_ERASE_SECTOR, 0x0, 0x0, 0x0];
        address_command(address, &mut frame);
        proof {
            assert(frame@ =~= seq![CMD_ERASE_SECTOR] + address_bytes(address));
        }
        self.transfer(&mut frame)?;
        self.wait(false)
    }

    /// Programs the given byte at the given address; in blocking mode, then waits until the chip
    /// is idle
    fn byte_program(&mut self, address: u32, data: u8) -> (r: Result<(), CommandError<B, P>>)
        ensures
            Self::advanced(
                old(self),
                final(self),
                byte_program_run(
                    final(self).log(),
                    old(self).log().len() as int,
                    old(self).is_configured(),
                    old(self).is_blocking(),
                    address,
                    data,
                ),
                r,
            ),
    {
        self.assert_valid_address(address)?;
        self.prepare()?;
        let mut frame = [CMD_BYTE_PROGRAM, 0x0, 0x0, 0x0, data];
        address_command(address, &mut frame);
        proof {
            assert(frame@ =~= seq![CMD_BYTE_PROGRAM] + address_bytes(address) + seq![data]);
        }
        self.transfer(&mut frame)?;
        self.wait(false)
    }

    /// Auto-address-increment programming of `buffer` from `address` on, two bytes at a time,
    /// waiting after each two until the chip is idle, whatever the mode. The buffer needs at
    /// least two bytes and an even number of them
    fn aai_program(&mut self, address: u32, buffer: &[u8]) -> (r: Result<(), CommandError<B, P>>)
        ensures
            Self::advanced(
                old(self),
                final(self),
                aai_program_run(
                    final(self).log(),
                    old(self).log().len() as int,
                    old(self).is_configured(),
                    old(self).is_blocking(),
                    address,
                    buffer@,
                ),
                r,
            ),
    {
        self.assert_valid_address(address)?;
        if buffer.len() < 2 {
            return Err(CommandError::BufferTooSmall);
        }
        let len = buffer.len();
        if len & 1 == 1 {
            assert(len % 2 == 1) by (bit_vector)
                requires
                    len & 1 == 1,
            ;
            return Err(CommandError::BufferUneven);
        }
        assert(len % 2 == 0) by (bit_vector)
            requires
                len & 1 != 1,
        ;
        self.prepare()?;
        let mut frame = [CMD_AAI_PROGRAM, 0x0, 0x0, 0x0, buffer[0], buffer[1]];
        address_command(address, &mut frame);
        proof {
            assert(frame@ =~= seq![CMD_AAI_PROGRAM] + address_bytes(address) + buffer@.take(2));
        }
        self.transfer(&mut frame)?;
        self.wait(true)?;
        let ghost i = old(self).log().len() as int;
        let ghost configured = old(self).is_configured();
        let ghost blocking = self.blocking;
        let ghost log0 = old(self).log();
        proof {
            assert forall|t: Seq<Step<B, P>>| extends(t, self.log@) implies #[trigger] aai_program_run(
                t,
                i,
                configured,
                blocking,
                address,
                buffer@,
            ) == chain(
                aai_chunks_run(t, self.log@.len() as int, blocking, buffer@, 2),
                |_u: (), m: int| command_run(t, m, true, CMD_WRITE_DISABLE),
            ) by {}
        }
        let mut k: usize = 2;
        while buffer.len() - k >= 2
            invariant
                2 <= k <= buffer.len(),
                i == old(self).log().len(),
                log0 == old(self).log(),
                configured == old(self).is_configured(),
                blocking == old(self).is_blocking(),
                self.configured,
                configured || configures(self.log@, i),
                self.blocking == blocking,
                extends(self.log@, log0),
                forall|t: Seq<Step<B, P>>|
                    extends(t, self.log@) ==> #[trigger] aai_program_run(
                        t,
                        i,
                        configured,
                        blocking,
                        address,
                        buffer@,
                    ) == chain(
                        aai_chunks_run(t, self.log@.len() as int, blocking, buffer@, k as int),
                        |_u: (), m: int| command_run(t, m, true, CMD_WRITE_DISABLE),
                    ),
            decreases buffer.len() - k,
        {
            let mut chunk = [CMD_AAI_PROGRAM, buffer[k], buffer[k + 1]];
            proof {
                assert(chunk@ =~= seq![CMD_AAI_PROGRAM, buffer@[k as int], buffer@[k + 1]]);
            }
            let ghost before = self.log@;
            let sent = self.transfer(&mut chunk);
            proof {
                lemma_extends_trans(self.log@, before, log0);
            }
            sent?;
            let ghost middle = self.log@;
            let waited = self.wait(true);
            proof {
                lemma_extends_trans(self.log@, middle, log0);
                assert forall|t: Seq<Step<B, P>>| extends(t, self.log@) implies extends(t, middle)
                    && extends(t, before) by {
                    lemma_extends_trans(t, self.log@, middle);
                    lemma_extends_trans(t, middle, before);
                }
            }
            waited?;
            k = k + 2;
        }
        self.command(CMD_WRITE_DISABLE)
    }

    /// Reads `L` bytes from `address` on
    fn read<const L: usize>(&mut self, address: u32) -> (r: Result<[u8; L], CommandError<B, P>>)
        ensures
            Self::advanced(
                old(self),
                final(self),
                read_run(
                    final(self).log(),
                    old(self).log().len() as int,
                    old(self).is_configured(),
                    address,
                    L as nat,
                ),
                read_bytes(r),
            ),
    {
        self.assert_valid_address(address)?;
        self.configure()?;
        let mut frame = [CMD_READ, 0x0, 0x0, 0x0];
        address_command(address, &mut frame);
        proof {
            assert(frame@ =~= seq![CMD_READ] + address_bytes(address));
        }
        match self.drive(Line::Enable, false) {
            Ok(()) => {},
            Err(e) => return Err(CommandError::EnablePinError(e)),
        }
        match self.exchange(&mut frame) {
            Ok(()) => {},
            Err(error) => {
                match self.drive(Line::Enable, true) {
                    Ok(()) => {},
                    Err(e) => return Err(CommandError::EnablePinError(e)),
                }
                return Err(CommandError::TransferError(error));
            },
        }
        let mut buffer = [0x0u8; L];
        proof {
            assert(buffer@ =~= Seq::new(L as nat, |_n: int| 0u8));
        }
        match self.exchange(&mut buffer) {
            Ok(()) => {},
            Err(error) => {
                match self.drive(Line::Enable, true) {
                    Ok(()) => {},
                    Err(e) => return Err(CommandError::EnablePinError(e)),
                }
                return Err(CommandError::TransferError(error));
            },
        }
        match self.drive(Line::Enable, true) {
            Ok(()) => {},
            Err(e) => return Err(CommandError::EnablePinError(e)),
        }
        Ok(buffer)
    }
}

/// Places the three address bytes, most significant first, after the opcode of `frame`.
fn address_command<const N: usize>(address: u32, frame: &mut [u8; N])
    requires
        N >= 4,
    ensures
        final(frame)@ == old(frame)@.update(1, (address >> 16u32) as u8).update(
            2,
            (address >> 8u32) as u8,
        ).update(3, address as u8),
{
    frame[1] = (address >> 16u32) as u8;
    frame[2] = (address >> 8u32) as u8;
    frame[3] = address as u8;
}

} // verus!
