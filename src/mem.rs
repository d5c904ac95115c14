//! Memory as a bus device: something that answers reads and writes at 16-bit addresses,
//! possibly mirroring several addresses onto one storage cell.

use vstd::prelude::*;

verus! {

/// A memory device seen through 16-bit addresses.
pub trait Mem {
    /// Whether `address` reaches a storage cell of the device.
    spec fn backs(address: u16) -> bool;

    /// The storage cell that `address` reaches.
    spec fn cell(address: u16) -> int;

    /// The contents of the device, cell by cell.
    spec fn cells(&self) -> Seq<u8>;

    /// The byte in the cell that `address` reaches.
    fn read(&self, address: u16) -> (r: u8)
        requires
            Self::backs(address),
        ensures
            r == self.cells()[Self::cell(address)],
    ;

    /// Stores `value` in the cell that `address` reaches; every other cell keeps its byte.
    fn write(&mut self, address: u16, value: u8)
        requires
            Self::backs(address),
        ensures
            final(self).cells() == old(self).cells().update(Self::cell(address), value),
    ;
}

/// The console's 2 KiB of work RAM. Addresses are masked with `0x67FF`, so that
/// `0x0000..0x07FF` is mirrored at `0x0800`, `0x1000` and `0x1800`; an address whose
/// masked value falls outside the 2 KiB reaches no cell.
pub struct CpuRam {
    data: [u8; 0x800],
}

/// The cell of the work RAM that an address reaches.
pub open spec fn ram_cell(address: u16) -> int {
    (address & 0x67ff) as int
}

impl Mem for CpuRam {
    open spec fn backs(address: u16) -> bool {
        ram_cell(address) < 0x800
    }

    open spec fn cell(address: u16) -> int {
        ram_cell(address)
    }

    closed spec fn cells(&self) -> Seq<u8> {
        self.data@
    }

    fn read(&self, address: u16) -> (r: u8) {
        self.data[(address & 0x67ff) as usize]
    }

    fn write(&mut self, address: u16, value: u8) {
        self.data[(address & 0x67ff) as usize] = value;
    }
}

impl CpuRam {
    /// Work RAM with every byte zero.
    pub fn new() -> (r: CpuRam)
        ensures
            r.cells().len() == 0x800,
            forall|i: int| 0 <= i < 0x800 ==> r.cells()[i] == 0,
    {
        CpuRam { data: [0u8; 0x800] }
    }
}

} // verus!
