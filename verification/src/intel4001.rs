//! Program memory unit: 256 read-only bytes addressed by the program counter,
//! plus one 4-bit I/O port. The byte array is populated once by an external
//! loader before execution begins; the engine only reads it.

use vstd::prelude::*;

use crate::model::rom_fetch;

verus! {

pub struct Intel4001 {
    /// Program memory: 256 bytes.
    pub rom: Vec<u8>,
    /// I/O port (4 bits) routing data in and out of the system.
    pub io: u8,
}

impl Intel4001 {
    /// The byte array has its fixed capacity and the port holds a nibble.
    pub open spec fn wf(&self) -> bool {
        &&& self.rom@.len() == 256
        &&& self.io < 16
    }

    /// A freshly constructed unit is zeroed everywhere.
    pub fn new() -> (r: Intel4001)
        ensures
            r.wf(),
            forall|i: int| 0 <= i < 256 ==> r.rom@[i] == 0,
            r.io == 0,
    {
        let mut rom: Vec<u8> = Vec::new();
        while rom.len() < 256
            invariant
                rom@.len() <= 256,
                forall|i: int| 0 <= i < rom@.len() ==> rom@[i] == 0,
            decreases 256 - rom@.len(),
        {
            rom.push(0);
        }
        Intel4001 { rom, io: 0 }
    }

    /// Read one byte; an out-of-range address yields 0 instead of failing.
    pub fn fetch_u8(&self, addr: usize) -> (r: u8)
        requires
            self.wf(),
        ensures
            r == rom_fetch(self.rom@, addr as int),
    {
        if addr < 256 {
            return self.rom[addr];
        }
        0x00
    }

    /// Overwrite memory from offset 0 with the supplied bytes: a source
    /// shorter than 256 bytes leaves the tail unchanged, a longer one is
    /// truncated. The port is untouched.
    pub fn load_rom(&mut self, data: &Vec<u8>)
        requires
            old(self).wf(),
        ensures
            final(self).wf(),
            final(self).io == old(self).io,
            forall|i: int|
                0 <= i < 256 ==> final(self).rom@[i] == (if i < data@.len() {
                    data@[i]
                } else {
                    old(self).rom@[i]
                }),
    {
        let n: usize = if data.len() < 256 {
            data.len()
        } else {
            256
        };
        let mut i: usize = 0;
        while i < n
            invariant
                old(self).wf(),
                n <= data@.len(),
                n <= 256,
                i <= n,
                self.rom@.len() == 256,
                self.io == old(self).io,
                forall|j: int| 0 <= j < i ==> self.rom@[j] == data@[j],
                forall|j: int| i <= j < 256 ==> self.rom@[j] == old(self).rom@[j],
            decreases n - i,
        {
            self.rom.set(i, data[i]);
            i = i + 1;
        }
    }
}

} // verus!
