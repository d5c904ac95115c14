//! The iNES cartridge header descriptor.

use vstd::prelude::*;

verus! {

/// The video standard a cartridge was made for.
#[derive(Debug, Clone, Copy, PartialEq, Eq, Structural)]
pub enum Timing {
    NTSC,
    PAL,
    Multi,
    Dendy,
}

/// What an iNES 2.0 header says about a cartridge.
#[derive(Debug, Clone, Copy, PartialEq, Eq, Structural)]
pub struct NesFormat {
    /// Program ROM size (12 bits).
    pub prg_rom_size: u16,
    /// Character ROM size (12 bits).
    pub chr_rom_size: u16,
    /// RAM sizes as shift counts (4 bits each): the size is `64 << count`, zero for none.
    pub prg_ram_shift_count: u8,
    pub prg_nvram_shift_count: u8,
    pub chr_ram_shift_count: u8,
    pub chr_nvram_shift_count: u8,
    /// `false`: horizontal or mapper-controlled mirroring; `true`: vertical.
    pub nametable_mirror_type: bool,
    pub battery_memory_present: bool,
    pub trainer_present: bool,
    pub four_screen_mode: bool,
    /// Mapper number (12 bits) and submapper number (4 bits).
    pub mapper_number: u16,
    pub submapper_number: u8,
    pub timing: Timing,
}

impl NesFormat {
    /// The descriptor of a cartridge file held in `buf`. Decoding the header's fields is
    /// left to the cartridge loader; this gives the plain descriptor: no ROM or RAM, no
    /// flags, mapper zero, NTSC timing.
    pub fn read_ines(buf: &[u8]) -> (r: NesFormat)
        ensures
            r == (NesFormat {
                prg_rom_size: 0,
                chr_rom_size: 0,
                prg_ram_shift_count: 0,
                prg_nvram_shift_count: 0,
                chr_ram_shift_count: 0,
                chr_nvram_shift_count: 0,
                nametable_mirror_type: false,
                battery_memory_present: false,
                trainer_present: false,
                four_screen_mode: false,
                mapper_number: 0,
                submapper_number: 0,
                timing: Timing::NTSC,
            }),
    {
        NesFormat {
            prg_rom_size: 0,
            chr_rom_size: 0,
            prg_ram_shift_count: 0,
            prg_nvram_shift_count: 0,
            chr_ram_shift_count: 0,
            chr_nvram_shift_count: 0,
            nametable_mirror_type: false,
            battery_memory_present: false,
            trainer_present: false,
            four_screen_mode: false,
            mapper_number: 0,
            submapper_number: 0,
            timing: Timing::NTSC,
        }
    }
}

} // verus!
