//! Data memory unit: 64 main-memory characters, 16 status characters and one
//! output port. Every stored value is a nibble (4 bits); the byte-wide storage
//! is a convenience, so the top four bits of every cell stay at zero.

use vstd::prelude::*;

verus! {

pub struct Intel4002 {
    /// Main memory: 64 four-bit characters.
    pub ram: Vec<u8>,
    /// Status characters: 4 per bank, 4 banks.
    pub status: Vec<u8>,
    /// Output port (4 bits).
    pub output: u8,
}

impl Intel4002 {
    /// All cells hold nibbles and the arrays have their fixed capacities.
    pub open spec fn wf(&self) -> bool {
        &&& self.ram@.len() == 64
        &&& forall|i: int| 0 <= i < 64 ==> self.ram@[i] < 16
        &&& self.status@.len() == 16
        &&& forall|i: int| 0 <= i < 16 ==> self.status@[i] < 16
        &&& self.output < 16
    }

    /// A freshly constructed unit is zeroed everywhere.
    pub fn new() -> (r: Intel4002)
        ensures
            r.wf(),
            forall|i: int| 0 <= i < 64 ==> r.ram@[i] == 0,
            forall|i: int| 0 <= i < 16 ==> r.status@[i] == 0,
            r.output == 0,
    {
        let mut ram: Vec<u8> = Vec::new();
        while ram.len() < 64
            invariant
                ram@.len() <= 64,
                forall|i: int| 0 <= i < ram@.len() ==> ram@[i] == 0,
            decreases 64 - ram@.len(),
        {
            ram.push(0);
        }
        let mut status: Vec<u8> = Vec::new();
        while status.len() < 16
            invariant
                status@.len() <= 16,
                forall|i: int| 0 <= i < status@.len() ==> status@[i] == 0,
            decreases 16 - status@.len(),
        {
            status.push(0);
        }
        Intel4002 { ram, status, output: 0 }
    }
}

} // verus!
