use vstd::prelude::*;

verus! {

/// Address translation between a bus address and an offset into the
/// cartridge's program or character memory.
///
/// Each translation yields `Some(offset)` when the mapper claims the address
/// and `None` when it leaves it to another device.
pub trait Mapper: Sized {
    /// Offset in program memory that a CPU read of `addr` reaches.
    spec fn cpu_read_target(&self, addr: u16) -> Option<u32>;

    /// Offset in program memory that a CPU write to `addr` reaches.
    spec fn cpu_write_target(&self, addr: u16) -> Option<u32>;

    /// Offset in character memory that a device read of `addr` reaches.
    spec fn ppu_read_target(&self, addr: u16) -> Option<u32>;

    /// Offset in character memory that a device write to `addr` reaches.
    spec fn ppu_write_target(&self, addr: u16) -> Option<u32>;

    /// The mapper's power-on configuration.
    spec fn power_on(&self) -> Self;

    fn cpu_map_read(&self, addr: u16) -> (r: Option<u32>)
        ensures
            r == self.cpu_read_target(addr),
    ;

    fn cpu_map_write(&self, addr: u16) -> (r: Option<u32>)
        ensures
            r == self.cpu_write_target(addr),
    ;

    fn ppu_map_read(&self, addr: u16) -> (r: Option<u32>)
        ensures
            r == self.ppu_read_target(addr),
    ;

    fn ppu_map_write(&self, addr: u16) -> (r: Option<u32>)
        ensures
            r == self.ppu_write_target(addr),
    ;

    fn reset(&mut self)
        ensures
            *final(self) == old(self).power_on(),
    ;
}

/// The direct-mapped baseline mapper (iNES mapper 0).
///
/// Program memory is seen at `$8000-$FFFF`: a 32 KiB window when the
/// cartridge has more than one program bank, otherwise the single 16 KiB
/// bank twice. Character memory is seen at `$0000-$1FFF`, writable only when
/// the cartridge declared no character banks (character RAM).
#[derive(Clone, Copy, Debug, PartialEq, Eq, Structural)]
pub struct Mapper000 {
    pub num_prg_banks: u8,
    pub num_chr_banks: u8,
}

/// Size of the window through which the CPU sees program memory.
pub open spec fn prg_window(num_prg_banks: u8) -> int {
    if num_prg_banks > 1 {
        0x8000
    } else {
        0x4000
    }
}

impl Mapper000 {
    pub fn new(num_prg_banks: u8, num_chr_banks: u8) -> (r: Mapper000)
        ensures
            r.num_prg_banks == num_prg_banks,
            r.num_chr_banks == num_chr_banks,
    {
        Mapper000 { num_prg_banks, num_chr_banks }
    }
}

impl Mapper for Mapper000 {
    open spec fn cpu_read_target(&self, addr: u16) -> Option<u32> {
        if addr >= 0x8000 {
            Some((addr as int % prg_window(self.num_prg_banks)) as u32)
        } else {
            None
        }
    }

    open spec fn cpu_write_target(&self, addr: u16) -> Option<u32> {
        self.cpu_read_target(addr)
    }

    open spec fn ppu_read_target(&self, addr: u16) -> Option<u32> {
        if addr <= 0x1FFF {
            Some(addr as u32)
        } else {
            None
        }
    }

    open spec fn ppu_write_target(&self, addr: u16) -> Option<u32> {
        if addr <= 0x1FFF && self.num_chr_banks == 0 {
            Some(addr as u32)
        } else {
            None
        }
    }

    open spec fn power_on(&self) -> Self {
        *self
    }

    fn cpu_map_read(&self, addr: u16) -> (r: Option<u32>) {
        if addr >= 0x8000 {
            if self.num_prg_banks > 1 {
                assert(addr & 0x7FFF == addr % 0x8000) by (bit_vector);
                Some((addr & 0x7FFF) as u32)
            } else {
                assert(addr & 0x3FFF == addr % 0x4000) by (bit_vector);
                Some((addr & 0x3FFF) as u32)
            }
        } else {
            None
        }
    }

    fn cpu_map_write(&self, addr: u16) -> (r: Option<u32>) {
        self.cpu_map_read(addr)
    }

    fn ppu_map_read(&self, addr: u16) -> (r: Option<u32>) {
        if addr <= 0x1FFF {
            Some(addr as u32)
        } else {
            None
        }
    }

    fn ppu_map_write(&self, addr: u16) -> (r: Option<u32>) {
        if addr <= 0x1FFF && self.num_chr_banks == 0 {
            Some(addr as u32)
        } else {
            None
        }
    }

    fn reset(&mut self) {
    }
}

/// Mapper for the iNES mapper number `mapper_id`, sized for the given bank
/// counts; `None` when that mapper is not implemented.
pub fn create_mapper(mapper_id: u8, num_prg_banks: u8, num_chr_banks: u8) -> (r: Option<Mapper000>)
    ensures
        mapper_id == 0 ==> r == Some(Mapper000 { num_prg_banks, num_chr_banks }),
        mapper_id != 0 ==> r is None,
{
    if mapper_id == 0 {
        Some(Mapper000::new(num_prg_banks, num_chr_banks))
    } else {
        None
    }
}

/// With a single 16 KiB program bank, the CPU sees the same byte at
/// `$8000 + i` and at `$C000 + i`.
pub proof fn lemma_single_bank_mirror(m: Mapper000, i: u16)
    requires
        m.num_prg_banks == 1,
        i < 0x4000,
    ensures
        m.cpu_read_target((0x8000 + i) as u16) == m.cpu_read_target((0xC000 + i) as u16),
        m.cpu_read_target((0x8000 + i) as u16) == Some(i as u32),
{
}

} // verus!
