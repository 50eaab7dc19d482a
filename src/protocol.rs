//! What the driver does on its bus and lines, as a ghost log of steps, and the protocol of each
//! operation, stated as a reading of that log.
use vstd::prelude::*;

use crate::device::{Bus, CommandError, Pin};
use crate::status::Status;

verus! {

/// Opcode: read the status register.
pub const CMD_READ_STATUS: u8 = 0b0000_0101;

/// Opcode: set the write-enable latch.
pub const CMD_WRITE_ENABLE: u8 = 0b0000_0110;

/// Opcode: clear the write-enable latch.
pub const CMD_WRITE_DISABLE: u8 = 0b0000_0100;

/// Opcode: write the status register.
pub const CMD_WRITE_STATUS: u8 = 0b0000_0001;

/// Opcode: program one byte.
pub const CMD_BYTE_PROGRAM: u8 = 0b0000_0010;

/// Opcode: auto-address-increment programming, two bytes at a time.
pub const CMD_AAI_PROGRAM: u8 = 0b1010_1101;

/// Opcode: erase the whole chip.
pub const CMD_ERASE_FULL: u8 = 0b0110_0000;

/// Opcode: erase the sector holding an address.
pub const CMD_ERASE_SECTOR: u8 = 0b0010_0000;

/// Opcode: read memory.
pub const CMD_READ: u8 = 0b0000_0011;

/// The largest address that an operation accepts.
pub const MAX_ADDRESS: u32 = 16777216;

/// The number of status reads after which a busy-wait gives up and reports the chip busy. Every
/// loop of this library terminates, so the wait is bounded; at any bus speed the bound lies
/// centuries away.
pub const MAX_POLLS: u64 = 0xFFFF_FFFF_FFFF_FFFF;

/// One of the chip's three control lines.
pub enum Line {
    Enable,
    WriteProtect,
    Hold,
}

/// One call that the driver made on its bus or on one of its lines, with what the call returned.
pub enum Step<B: Bus, P: Pin> {
    /// `line` was driven high (`high`) or low, and the line returned `outcome`.
    Drive { line: Line, high: bool, outcome: Result<(), P::Error> },
    /// `sent` went out on the bus, which returned the bytes received meanwhile, or its error.
    Exchange { sent: Seq<u8>, reply: Result<Seq<u8>, B::Error> },
}

/// What a reading of a log gives: `None` where the log does not follow the protocol; otherwise
/// the operation's result and the index just past its last step.
pub type Run<T, B, P> = Option<(Result<T, CommandError<B, P>>, int)>;

/// `longer` holds `shorter` as its beginning.
pub open spec fn extends<B: Bus, P: Pin>(longer: Seq<Step<B, P>>, shorter: Seq<Step<B, P>>) -> bool {
    &&& shorter.len() <= longer.len()
    &&& forall|k: int|
        #![trigger longer[k]]
        #![trigger shorter[k]]
        0 <= k < shorter.len() ==> longer[k] == shorter[k]
}

/// A log that holds one that holds a third holds that third.
pub proof fn lemma_extends_trans<B: Bus, P: Pin>(
    a: Seq<Step<B, P>>,
    b: Seq<Step<B, P>>,
    c: Seq<Step<B, P>>,
)
    requires
        extends(a, b),
        extends(b, c),
    ensures
        extends(a, c),
{
    assert forall|k: int| 0 <= k < c.len() implies a[k] == c[k] by {
        assert(a[k] == b[k]);
    }
}

/// The outcome of an exchange whose call returned `r`, the buffer then holding `reply`.
pub open spec fn exchanged<E>(r: Result<(), E>, reply: Seq<u8>) -> Result<Seq<u8>, E> {
    match r {
        Ok(()) => Ok(reply),
        Err(e) => Err(e),
    }
}

/// The three address bytes, most significant first.
pub open spec fn address_bytes(address: u32) -> Seq<u8> {
    seq![(address >> 16u32) as u8, (address >> 8u32) as u8, address as u8]
}

/// The outcome of step `i`, where it drives `line` to the level `high`.
pub open spec fn drive_at<B: Bus, P: Pin>(
    t: Seq<Step<B, P>>,
    i: int,
    line: Line,
    high: bool,
) -> Option<Result<(), P::Error>> {
    if 0 <= i < t.len() {
        match t[i] {
            Step::Drive { line: l, high: h, outcome } => if l == line && h == high {
                Some(outcome)
            } else {
                None
            },
            Step::Exchange { .. } => None,
        }
    } else {
        None
    }
}

/// The outcome of step `i`, where it exchanges `sent` and any reply is as long as `sent`.
pub open spec fn exchange_at<B: Bus, P: Pin>(t: Seq<Step<B, P>>, i: int, sent: Seq<u8>) -> Option<
    Result<Seq<u8>, B::Error>,
> {
    if 0 <= i < t.len() {
        match t[i] {
            Step::Exchange { sent: s, reply } => if s == sent && match reply {
                Ok(bytes) => bytes.len() == sent.len(),
                Err(_) => true,
            } {
                Some(reply)
            } else {
                None
            },
            Step::Drive { .. } => None,
        }
    } else {
        None
    }
}

/// `first`, then, where it succeeded with a value, `next` on that value and on the index where
/// `first` ended.
pub open spec fn chain<T, U, B: Bus, P: Pin>(
    first: Run<T, B, P>,
    next: spec_fn(T, int) -> Run<U, B, P>,
) -> Run<U, B, P> {
    match first {
        Some((Ok(v), j)) => next(v, j),
        Some((Err(e), j)) => Some((Err(e), j)),
        None => None,
    }
}

/// The one-time setup: the hold line driven high, then the write-protect line low. No step at
/// all where the setup was done before.
pub open spec fn configure_run<B: Bus, P: Pin>(t: Seq<Step<B, P>>, i: int, configured: bool) -> Run<
    (),
    B,
    P,
> {
    if configured {
        Some((Ok(()), i))
    } else {
        match drive_at(t, i, Line::Hold, true) {
            Some(Err(e)) => Some((Err(CommandError::HoldPinError(e)), i + 1)),
            Some(Ok(())) => match drive_at(t, i + 1, Line::WriteProtect, false) {
                Some(Err(e)) => Some((Err(CommandError::WriteProtectionPinError(e)), i + 2)),
                Some(Ok(())) => Some((Ok(()), i + 2)),
                None => None,
            },
            None => None,
        }
    }
}

/// The setup is done by the steps from `i` on.
pub open spec fn configures<B: Bus, P: Pin>(t: Seq<Step<B, P>>, i: int) -> bool {
    configure_run(t, i, false) matches Some((Ok(_), _))
}

/// The enable line driven high at step `i`, which ends an exchange whose result is `result`. A
/// failure of the line takes the place of that result.
pub open spec fn release_run<T, B: Bus, P: Pin>(
    t: Seq<Step<B, P>>,
    i: int,
    result: Result<T, CommandError<B, P>>,
) -> Run<T, B, P> {
    match drive_at(t, i, Line::Enable, true) {
        Some(Err(e)) => Some((Err(CommandError::EnablePinError(e)), i + 1)),
        Some(Ok(())) => Some((result, i + 1)),
        None => None,
    }
}

/// One framed exchange: the enable line driven low, `sent` exchanged, the enable line driven
/// high again whatever the exchange gave. The result is the reply.
pub open spec fn frame_run<B: Bus, P: Pin>(t: Seq<Step<B, P>>, i: int, sent: Seq<u8>) -> Run<
    Seq<u8>,
    B,
    P,
> {
    match drive_at(t, i, Line::Enable, false) {
        Some(Err(e)) => Some((Err(CommandError::EnablePinError(e)), i + 1)),
        Some(Ok(())) => match exchange_at(t, i + 1, sent) {
            Some(Ok(reply)) => release_run(t, i + 2, Ok(reply)),
            Some(Err(e)) => release_run(t, i + 2, Err(CommandError::TransferError(e))),
            None => None,
        },
        None => None,
    }
}

/// A transaction: the setup where it is not done yet, then one framed exchange of `sent`.
pub open spec fn transaction_run<B: Bus, P: Pin>(
    t: Seq<Step<B, P>>,
    i: int,
    configured: bool,
    sent: Seq<u8>,
) -> Run<Seq<u8>, B, P> {
    chain(configure_run(t, i, configured), |_u: (), j: int| frame_run(t, j, sent))
}

/// `run` with its value dropped.
pub open spec fn unit_run<T, B: Bus, P: Pin>(run: Run<T, B, P>) -> Run<(), B, P> {
    match run {
        Some((Ok(_), j)) => Some((Ok(()), j)),
        Some((Err(e), j)) => Some((Err(e), j)),
        None => None,
    }
}

/// A transaction that sends the one-byte command `opcode`.
pub open spec fn command_run<B: Bus, P: Pin>(
    t: Seq<Step<B, P>>,
    i: int,
    configured: bool,
    opcode: u8,
) -> Run<(), B, P> {
    unit_run(transaction_run(t, i, configured, seq![opcode]))
}

/// A status read: a transaction that sends the opcode and one dummy byte; the second byte of
/// the reply, decoded.
pub open spec fn status_run<B: Bus, P: Pin>(t: Seq<Step<B, P>>, i: int, configured: bool) -> Run<
    Status,
    B,
    P,
> {
    chain(
        transaction_run(t, i, configured, seq![CMD_READ_STATUS, 0u8]),
        |reply: Seq<u8>, j: int| Some((Ok(Status::decoded(reply[1])), j)),
    )
}

/// A status read that must find the chip idle; `Busy` where it does not.
pub open spec fn idle_run<B: Bus, P: Pin>(t: Seq<Step<B, P>>, i: int, configured: bool) -> Run<
    (),
    B,
    P,
> {
    chain(
        status_run(t, i, configured),
        |status: Status, j: int|
            if status.busy {
                Some((Err(CommandError::Busy), j))
            } else {
                Some((Ok(()), j))
            },
    )
}

/// The write-enable command, then a status read that must find the chip idle: what precedes
/// every write and erase.
pub open spec fn prepare_run<B: Bus, P: Pin>(t: Seq<Step<B, P>>, i: int, configured: bool) -> Run<
    (),
    B,
    P,
> {
    chain(command_run(t, i, configured, CMD_WRITE_ENABLE), |_u: (), j: int| idle_run(t, j, true))
}

/// The busy-wait: where the handle blocks or the wait is forced, status reads until one finds
/// the chip idle, at most `budget` of them, and `Busy` where all of them find it busy. No step
/// at all otherwise. The first status read does the setup where it is not done yet.
pub open spec fn wait_run<B: Bus, P: Pin>(
    t: Seq<Step<B, P>>,
    i: int,
    configured: bool,
    blocking: bool,
    force: bool,
    budget: nat,
) -> Run<(), B, P>
    decreases budget,
{
    if !(blocking || force) {
        Some((Ok(()), i))
    } else if budget == 0 {
        Some((Err(CommandError::Busy), i))
    } else {
        match status_run(t, i, configured) {
            Some((Ok(status), j)) => if status.busy {
                wait_run(t, j, true, blocking, force, (budget - 1) as nat)
            } else {
                Some((Ok(()), j))
            },
            Some((Err(e), j)) => Some((Err(e), j)),
            None => None,
        }
    }
}

/// Writing the status register: the write-enable command, one dummy byte exchanged on the bus
/// with the enable line left alone, then a transaction with the opcode and the encoded status.
pub open spec fn write_status_run<B: Bus, P: Pin>(
    t: Seq<Step<B, P>>,
    i: int,
    configured: bool,
    status: Status,
) -> Run<(), B, P> {
    chain(
        command_run(t, i, configured, CMD_WRITE_ENABLE),
        |_u: (), j: int|
            match exchange_at(t, j, seq![0u8]) {
                Some(Ok(_)) => unit_run(
                    transaction_run(t, j + 1, true, seq![CMD_WRITE_STATUS, status.encoded()]),
                ),
                Some(Err(e)) => Some((Err(CommandError::TransferError(e)), j + 1)),
                None => None,
            },
    )
}

/// Erasing the whole chip: write-enable and an idle chip, the erase command, then a busy-wait
/// that is forced whatever the handle's mode.
pub open spec fn erase_full_run<B: Bus, P: Pin>(
    t: Seq<Step<B, P>>,
    i: int,
    configured: bool,
    blocking: bool,
) -> Run<(), B, P> {
    chain(
        prepare_run(t, i, configured),
        |_u: (), j: int|
            chain(
                transaction_run(t, j, true, seq![CMD_ERASE_FULL]),
                |_reply: Seq<u8>, k: int| wait_run(t, k, true, blocking, true, MAX_POLLS as nat),
            ),
    )
}

/// `InvalidAddress` where `address` is out of range, before any step; `run` otherwise.
pub open spec fn checked_run<T, B: Bus, P: Pin>(i: int, address: u32, run: Run<T, B, P>) -> Run<
    T,
    B,
    P,
> {
    if address > MAX_ADDRESS {
        Some((Err(CommandError::InvalidAddress), i))
    } else {
        run
    }
}

/// Erasing the sector that holds `address`: write-enable and an idle chip, the erase command
/// with the address, then a busy-wait where the handle blocks.
pub open spec fn erase_sector_run<B: Bus, P: Pin>(
    t: Seq<Step<B, P>>,
    i: int,
    configured: bool,
    blocking: bool,
    address: u32,
) -> Run<(), B, P> {
    checked_run(
        i,
        address,
        chain(
            prepare_run(t, i, configured),
            |_u: (), j: int|
                chain(
                    transaction_run(t, j, true, seq![CMD_ERASE_SECTOR] + address_bytes(address)),
                    |_reply: Seq<u8>, k: int| wait_run(t, k, true, blocking, false, MAX_POLLS as nat),
                ),
        ),
    )
}

/// Programming one byte: write-enable and an idle chip, the program command with the address
/// and `data`, then a busy-wait where the handle blocks.
pub open spec fn byte_program_run<B: Bus, P: Pin>(
    t: Seq<Step<B, P>>,
    i: int,
    configured: bool,
    blocking: bool,
    address: u32,
    data: u8,
) -> Run<(), B, P> {
    checked_run(
        i,
        address,
        chain(
            prepare_run(t, i, configured),
            |_u: (), j: int|
                chain(
                    transaction_run(
                        t,
                        j,
                        true,
                        seq![CMD_BYTE_PROGRAM] + address_bytes(address) + seq![data],
                    ),
                    |_reply: Seq<u8>, k: int| wait_run(t, k, true, blocking, false, MAX_POLLS as nat),
                ),
        ),
    )
}

/// The chunks of an AAI programming from byte `k` of `buffer` on: for each two bytes, a
/// transaction with the AAI opcode and the two bytes, then a forced busy-wait.
pub open spec fn aai_chunks_run<B: Bus, P: Pin>(
    t: Seq<Step<B, P>>,
    i: int,
    blocking: bool,
    buffer: Seq<u8>,
    k: int,
) -> Run<(), B, P>
    decreases buffer.len() - k,
{
    if k + 2 <= buffer.len() {
        match transaction_run(t, i, true, seq![CMD_AAI_PROGRAM, buffer[k], buffer[k + 1]]) {
            Some((Ok(_), j)) => match wait_run(t, j, true, blocking, true, MAX_POLLS as nat) {
                Some((Ok(()), l)) => aai_chunks_run(t, l, blocking, buffer, k + 2),
                other => other,
            },
            Some((Err(e), j)) => Some((Err(e), j)),
            None => None,
        }
    } else {
        Some((Ok(()), i))
    }
}

/// AAI programming of `buffer` from `address` on. It takes at least two bytes, and an even
/// number. Write-enable and an idle chip; a transaction with the AAI opcode, the address and
/// the first two bytes, then a forced busy-wait; the remaining chunks; the write-disable
/// command.
pub open spec fn aai_program_run<B: Bus, P: Pin>(
    t: Seq<Step<B, P>>,
    i: int,
    configured: bool,
    blocking: bool,
    address: u32,
    buffer: Seq<u8>,
) -> Run<(), B, P> {
    checked_run(
        i,
        address,
        if buffer.len() < 2 {
            Some((Err(CommandError::BufferTooSmall), i))
        } else if buffer.len() % 2 == 1 {
            Some((Err(CommandError::BufferUneven), i))
        } else {
            chain(
                prepare_run(t, i, configured),
                |_u: (), j: int|
                    chain(
                        transaction_run(
                            t,
                            j,
                            true,
                            seq![CMD_AAI_PROGRAM] + address_bytes(address) + buffer.take(2),
                        ),
                        |_reply: Seq<u8>, k: int|
                            chain(
                                wait_run(t, k, true, blocking, true, MAX_POLLS as nat),
                                |_u: (), l: int|
                                    chain(
                                        aai_chunks_run(t, l, blocking, buffer, 2),
                                        |_u: (), m: int|
                                            command_run(t, m, true, CMD_WRITE_DISABLE),
                                    ),
                            ),
                    ),
            )
        },
    )
}

/// Reading `len` bytes from `address` on: the setup where it is not done yet; with the enable
/// line low, the read command with the address exchanged, then `len` dummy bytes, whose reply
/// is the result; the enable line high again, also where an exchange failed.
pub open spec fn read_run<B: Bus, P: Pin>(
    t: Seq<Step<B, P>>,
    i: int,
    configured: bool,
    address: u32,
    len: nat,
) -> Run<Seq<u8>, B, P> {
    checked_run(
        i,
        address,
        chain(
            configure_run(t, i, configured),
            |_u: (), j: int|
                match drive_at(t, j, Line::Enable, false) {
                    Some(Err(e)) => Some((Err(CommandError::EnablePinError(e)), j + 1)),
                    Some(Ok(())) => match exchange_at(
                        t,
                        j + 1,
                        seq![CMD_READ] + address_bytes(address),
                    ) {
                        Some(Ok(_)) => match exchange_at(t, j + 2, Seq::new(len, |_n: int| 0u8)) {
                            Some(Ok(data)) => release_run(t, j + 3, Ok(data)),
                            Some(Err(e)) => release_run(
                                t,
                                j + 3,
                                Err(CommandError::TransferError(e)),
                            ),
                            None => None,
                        },
                        Some(Err(e)) => release_run(t, j + 2, Err(CommandError::TransferError(e))),
                        None => None,
                    },
                    None => None,
                },
        ),
    )
}

/// The bytes of a read's result.
pub open spec fn read_bytes<E, const L: usize>(r: Result<[u8; L], E>) -> Result<Seq<u8>, E> {
    match r {
        Ok(data) => Ok(data@),
        Err(e) => Err(e),
    }
}

} // verus!
