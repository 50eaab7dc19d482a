//! Stand-in peripherals for trying the driver without hardware.
use vstd::prelude::*;

use core::convert::Infallible;

use crate::device::{Bus, Pin};
use crate::protocol::CMD_READ;

verus! {

/// Stand-in output line: every call succeeds.
#[derive(Default, Debug)]
pub struct MockPin {}

impl Pin for MockPin {
    type Error = Infallible;

    fn set_low(&mut self) -> (r: Result<(), Infallible>)
        ensures
            r is Ok,
    {
        Ok(())
    }

    fn set_high(&mut self) -> (r: Result<(), Infallible>)
        ensures
            r is Ok,
    {
        Ok(())
    }
}

/// Stand-in bus: after a read command, the next exchange of five bytes receives
/// `[0x66, 0x1, 0x2, 0x3, 0x4]` and one of four bytes `[0xa, 0xb, 0xc, 0xd]`; any other exchange
/// leaves the buffer as it was.
#[derive(Default, Debug)]
pub struct MockBus {
    /// Was the previous exchange a read command?
    read_command: bool,
}

impl MockBus {
    /// Was the previous exchange a read command?
    pub closed spec fn after_read_command(&self) -> bool {
        self.read_command
    }
}

impl Bus for MockBus {
    type Error = Infallible;

    fn transfer<const N: usize>(&mut self, words: &mut [u8; N]) -> (r: Result<(), Infallible>)
        ensures
            r is Ok,
            final(words)@ == (if old(self).after_read_command() && N == 5 {
                seq![0x66u8, 0x1u8, 0x2u8, 0x3u8, 0x4u8]
            } else if old(self).after_read_command() && N == 4 {
                seq![0xau8, 0xbu8, 0xcu8, 0xdu8]
            } else {
                old(words)@
            }),
            final(self).after_read_command() == (!old(self).after_read_command() && N > 0
                && old(words)@[0] == CMD_READ),
    {
        if self.read_command {
            self.read_command = false;
            if N == 5 {
                words[0] = 0x66;
                words[1] = 0x1;
                words[2] = 0x2;
                words[3] = 0x3;
                words[4] = 0x4;
                assert(words@ =~= seq![0x66u8, 0x1u8, 0x2u8, 0x3u8, 0x4u8]);
            } else if N == 4 {
                words[0] = 0xa;
                words[1] = 0xb;
                words[2] = 0xc;
                words[3] = 0xd;
                assert(words@ =~= seq![0xau8, 0xbu8, 0xcu8, 0xdu8]);
            }
        } else if N > 0 && words[0] == CMD_READ {
            self.read_command = true;
        }
        Ok(())
    }
}

} // verus!
