//! A shadow of the chip's two register files. The hardware registers are
//! write-only; the shell records the last byte written to every address so
//! that registers become queryable.

use vstd::prelude::*;
use crate::OplRegisterFile;

verus! {

/// One register bank as it stands after a reset: 256 zero bytes.
pub open spec fn zero_regs() -> Seq<u8> {
    Seq::new(256, |i: int| 0u8)
}

/// Two fixed-size banks of 256 byte registers, each entry holding the last
/// value written to that address since the last reset.
#[derive(Debug)]
pub struct RegisterShadow {
    /// The OPL2-compatible register bank.
    pub primary: Vec<u8>,
    /// The OPL3 extension register bank.
    pub secondary: Vec<u8>,
}

impl RegisterShadow {
    /// Both banks hold exactly one byte per register address.
    pub open spec fn wf(self) -> bool {
        &&& self.primary@.len() == 256
        &&& self.secondary@.len() == 256
    }

    /// The contents of the selected bank.
    pub open spec fn file_view(self, file: OplRegisterFile) -> Seq<u8> {
        match file {
            OplRegisterFile::Primary => self.primary@,
            OplRegisterFile::Secondary => self.secondary@,
        }
    }

    /// Build a shadow with every register of both banks zero.
    pub fn new() -> (s: RegisterShadow)
        ensures
            s.wf(),
            s.primary@ == zero_regs(),
            s.secondary@ == zero_regs(),
    {
        RegisterShadow { primary: zero_bank(), secondary: zero_bank() }
    }

    /// Record `value` as the current contents of register `addr` in the
    /// selected bank.
    pub fn write(&mut self, file: OplRegisterFile, addr: u8, value: u8)
        requires
            old(self).wf(),
        ensures
            final(self).wf(),
            final(self).primary@ == (match file {
                OplRegisterFile::Primary => old(self).primary@.update(addr as int, value),
                OplRegisterFile::Secondary => old(self).primary@,
            }),
            final(self).secondary@ == (match file {
                OplRegisterFile::Primary => old(self).secondary@,
                OplRegisterFile::Secondary => old(self).secondary@.update(addr as int, value),
            }),
    {
        match file {
            OplRegisterFile::Primary => {
                self.primary[addr as usize] = value;
            },
            OplRegisterFile::Secondary => {
                self.secondary[addr as usize] = value;
            },
        }
    }

    /// The recorded contents of register `addr` in the selected bank.
    pub fn read(&self, file: OplRegisterFile, addr: u8) -> (value: u8)
        requires
            self.wf(),
        ensures
            value == self.file_view(file)[addr as int],
    {
        match file {
            OplRegisterFile::Primary => self.primary[addr as usize],
            OplRegisterFile::Secondary => self.secondary[addr as usize],
        }
    }

    /// Clear every register of both banks to zero.
    pub fn reset(&mut self)
        requires
            old(self).wf(),
        ensures
            final(self).wf(),
            final(self).primary@ == zero_regs(),
            final(self).secondary@ == zero_regs(),
    {
        self.primary = zero_bank();
        self.secondary = zero_bank();
    }
}

/// One register bank's post-reset contents: 256 zero bytes.
#[verifier::loop_isolation(false)]
fn zero_bank() -> (bank: Vec<u8>)
    ensures
        bank@ == zero_regs(),
{
    let mut bank: Vec<u8> = Vec::new();
    let mut i: usize = 0;
    while i < 256
        invariant
            i == bank@.len(),
            i <= 256,
            forall|addr: int| 0 <= addr < i ==> bank@[addr] == 0,
        decreases 256 - i,
    {
        bank.push(0);
        i = i + 1;
    }
    proof {
        assert(bank@ =~= zero_regs());
    }
    bank
}

} // verus!
