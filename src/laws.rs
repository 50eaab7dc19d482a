//! Properties of the protocol that relate several operations or steps.
use vstd::prelude::*;

use crate::device::{Bus, CommandError, Pin};
use crate::protocol::{
    aai_program_run, address_bytes, byte_program_run, command_run, configure_run, drive_at,
    erase_full_run, erase_sector_run, exchange_at, frame_run, prepare_run, read_run, status_run,
    transaction_run, Line, Step, CMD_BYTE_PROGRAM, CMD_ERASE_SECTOR, CMD_READ, CMD_READ_STATUS,
    CMD_WRITE_ENABLE, MAX_ADDRESS,
};
use crate::status::Status;

verus! {

/// Where the status read after the write-enable command finds the chip busy, every write and
/// erase operation returns `Busy`, and its steps end with that status read: nothing is sent
/// after the check.
pub proof fn lemma_busy_stops_writes<B: Bus, P: Pin>(
    t: Seq<Step<B, P>>,
    i: int,
    configured: bool,
    blocking: bool,
    address: u32,
    data: u8,
    buffer: Seq<u8>,
    j: int,
    k: int,
    status: Status,
)
    requires
        command_run(t, i, configured, CMD_WRITE_ENABLE) == Some((Ok::<(), CommandError<B, P>>(()), j)),
        status_run(t, j, true) == Some((Ok::<Status, CommandError<B, P>>(status), k)),
        status.busy,
        address <= MAX_ADDRESS,
        buffer.len() >= 2,
        buffer.len() % 2 == 0,
    ensures
        prepare_run(t, i, configured) == Some((Err::<(), CommandError<B, P>>(CommandError::Busy), k)),
        erase_full_run(t, i, configured, blocking) == Some(
            (Err::<(), CommandError<B, P>>(CommandError::Busy), k),
        ),
        erase_sector_run(t, i, configured, blocking, address) == Some(
            (Err::<(), CommandError<B, P>>(CommandError::Busy), k),
        ),
        byte_program_run(t, i, configured, blocking, address, data) == Some(
            (Err::<(), CommandError<B, P>>(CommandError::Busy), k),
        ),
        aai_program_run(t, i, configured, blocking, address, buffer) == Some(
            (Err::<(), CommandError<B, P>>(CommandError::Busy), k),
        ),
{
}

/// In non-blocking mode a byte program or a sector erase returns once its command is sent: where
/// the write-enable command, the idle check and the command's transaction succeed, the
/// operation succeeds and its steps end with that transaction, with no status read after it.
pub proof fn lemma_non_blocking_returns_after_command<B: Bus, P: Pin>(
    t: Seq<Step<B, P>>,
    i: int,
    configured: bool,
    address: u32,
    data: u8,
    j: int,
    k: int,
    l: int,
    program_reply: Seq<u8>,
    erase_reply: Seq<u8>,
)
    requires
        address <= MAX_ADDRESS,
        prepare_run(t, i, configured) == Some((Ok::<(), CommandError<B, P>>(()), j)),
    ensures
        transaction_run(t, j, true, seq![CMD_BYTE_PROGRAM] + address_bytes(address) + seq![data])
            == Some((Ok::<Seq<u8>, CommandError<B, P>>(program_reply), k)) ==> byte_program_run(
            t,
            i,
            configured,
            false,
            address,
            data,
        ) == Some((Ok::<(), CommandError<B, P>>(()), k)),
        transaction_run(t, j, true, seq![CMD_ERASE_SECTOR] + address_bytes(address)) == Some(
            (Ok::<Seq<u8>, CommandError<B, P>>(erase_reply), l),
        ) ==> erase_sector_run(t, i, configured, false, address) == Some(
            (Ok::<(), CommandError<B, P>>(()), l),
        ),
{
}

/// Where an exchange fails and driving the enable line high after it fails too, the error
/// returned is the enable line's, not the bus's: in a transaction, and at either exchange of a
/// read.
pub proof fn lemma_enable_error_wins<B: Bus, P: Pin>(
    t: Seq<Step<B, P>>,
    i: int,
    sent: Seq<u8>,
    address: u32,
    len: nat,
    bus_error: B::Error,
    pin_error: P::Error,
)
    requires
        drive_at(t, i, Line::Enable, false) == Some(Ok::<(), P::Error>(())),
    ensures
        exchange_at(t, i + 1, sent) == Some(Err::<Seq<u8>, B::Error>(bus_error))
            && drive_at(t, i + 2, Line::Enable, true) == Some(Err::<(), P::Error>(pin_error))
            ==> {
            &&& frame_run(t, i, sent) == Some(
                (Err::<Seq<u8>, CommandError<B, P>>(CommandError::EnablePinError(pin_error)), i + 3),
            )
            &&& transaction_run(t, i, true, sent) == Some(
                (Err::<Seq<u8>, CommandError<B, P>>(CommandError::EnablePinError(pin_error)), i + 3),
            )
        },
        address <= MAX_ADDRESS && exchange_at(t, i + 1, seq![CMD_READ] + address_bytes(address))
            == Some(Err::<Seq<u8>, B::Error>(bus_error)) && drive_at(t, i + 2, Line::Enable, true)
            == Some(Err::<(), P::Error>(pin_error)) ==> read_run(t, i, true, address, len) == Some(
            (Err::<Seq<u8>, CommandError<B, P>>(CommandError::EnablePinError(pin_error)), i + 3),
        ),
        address <= MAX_ADDRESS && exchange_at(t, i + 1, seq![CMD_READ] + address_bytes(address))
            is Some && exchange_at(t, i + 1, seq![CMD_READ] + address_bytes(address)).unwrap() is Ok
            && exchange_at(t, i + 2, Seq::new(len, |_n: int| 0u8)) == Some(
            Err::<Seq<u8>, B::Error>(bus_error),
        ) && drive_at(t, i + 3, Line::Enable, true) == Some(Err::<(), P::Error>(pin_error))
            ==> read_run(t, i, true, address, len) == Some(
            (Err::<Seq<u8>, CommandError<B, P>>(CommandError::EnablePinError(pin_error)), i + 4),
        ),
{
}

/// The same on any handle, set up before or not: where the setup succeeds, then an exchange
/// fails and driving the enable line high after it fails too, a transaction returns the enable
/// line's error, and so do a status read, a one-byte command and a read whose first exchange
/// that is.
pub proof fn lemma_enable_error_wins_after_setup<B: Bus, P: Pin>(
    t: Seq<Step<B, P>>,
    i: int,
    configured: bool,
    j: int,
    sent: Seq<u8>,
    opcode: u8,
    address: u32,
    len: nat,
    bus_error: B::Error,
    pin_error: P::Error,
)
    requires
        configure_run(t, i, configured) == Some((Ok::<(), CommandError<B, P>>(()), j)),
        drive_at(t, j, Line::Enable, false) == Some(Ok::<(), P::Error>(())),
        exchange_at(t, j + 1, sent) == Some(Err::<Seq<u8>, B::Error>(bus_error)),
        drive_at(t, j + 2, Line::Enable, true) == Some(Err::<(), P::Error>(pin_error)),
    ensures
        transaction_run(t, i, configured, sent) == Some(
            (Err::<Seq<u8>, CommandError<B, P>>(CommandError::EnablePinError(pin_error)), j + 3),
        ),
        sent == seq![CMD_READ_STATUS, 0u8] ==> status_run(t, i, configured) == Some(
            (Err::<Status, CommandError<B, P>>(CommandError::EnablePinError(pin_error)), j + 3),
        ),
        sent == seq![opcode] ==> command_run(t, i, configured, opcode) == Some(
            (Err::<(), CommandError<B, P>>(CommandError::EnablePinError(pin_error)), j + 3),
        ),
        address <= MAX_ADDRESS && sent == seq![CMD_READ] + address_bytes(address) ==> read_run(
            t,
            i,
            configured,
            address,
            len,
        ) == Some(
            (Err::<Seq<u8>, CommandError<B, P>>(CommandError::EnablePinError(pin_error)), j + 3),
        ),
{
}

/// An AAI programming at a valid address checks its buffer before any step: `BufferTooSmall`
/// below two bytes, `BufferUneven` for an odd number from three on; two bytes or more, even,
/// pass to the write-enable command.
pub proof fn lemma_aai_buffer_checks<B: Bus, P: Pin>(
    t: Seq<Step<B, P>>,
    i: int,
    configured: bool,
    blocking: bool,
    address: u32,
    buffer: Seq<u8>,
)
    requires
        address <= MAX_ADDRESS,
    ensures
        buffer.len() < 2 ==> aai_program_run(t, i, configured, blocking, address, buffer) == Some(
            (Err::<(), CommandError<B, P>>(CommandError::BufferTooSmall), i),
        ),
        buffer.len() >= 2 && buffer.len() % 2 == 1 ==> aai_program_run(
            t,
            i,
            configured,
            blocking,
            address,
            buffer,
        ) == Some((Err::<(), CommandError<B, P>>(CommandError::BufferUneven), i)),
        buffer.len() >= 2 && buffer.len() % 2 == 0 ==> match prepare_run(t, i, configured) {
            Some((Err(e), j)) => aai_program_run(t, i, configured, blocking, address, buffer)
                == Some((Err::<(), CommandError<B, P>>(e), j)),
            None => aai_program_run(t, i, configured, blocking, address, buffer) is None,
            Some((Ok(_), _)) => true,
        },
{
}

} // verus!
