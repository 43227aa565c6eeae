use vstd::prelude::*;

use crate::mapper::{create_mapper, prg_window, Mapper, Mapper000};

verus! {

/// Size of one program bank.
pub const PRG_BANK_SIZE: usize = 16384;

/// Size of one character bank, and of the character RAM that replaces the
/// banks when an image declares none.
pub const CHR_BANK_SIZE: usize = 8192;

/// Size of the fixed header that opens an iNES image.
pub const HEADER_SIZE: usize = 16;

/// Size of the optional trainer block that follows the header.
pub const TRAINER_SIZE: usize = 512;

/// Why an image could not be loaded as a cartridge.
#[derive(Clone, Copy, Debug, PartialEq, Eq, Structural)]
pub enum CartridgeError {
    /// The image does not open with the signature `N`, `E`, `S`, `0x1A`.
    NotInes,
    /// The image ends before the header or the data it declares.
    Truncated,
    /// The header's format-version bits are not those of the classic format.
    UnsupportedVersion(u8),
    /// No mapper of this number is implemented.
    UnsupportedMapper(u8),
}

/// A loaded cartridge: program memory, character memory and the mapper
/// through which both are reached.
pub struct Cartridge {
    program_mem: Vec<u8>,
    character_mem: Vec<u8>,
    mapper: Mapper000,
}

/// What a cartridge holds.
pub struct CartridgeView {
    pub prg: Seq<u8>,
    pub chr: Seq<u8>,
    pub mapper: Mapper000,
}

impl View for Cartridge {
    type V = CartridgeView;

    closed spec fn view(&self) -> CartridgeView {
        CartridgeView { prg: self.program_mem@, chr: self.character_mem@, mapper: self.mapper }
    }
}

/// Length of character memory for a declared character-bank count.
pub open spec fn chr_len(num_chr_banks: u8) -> int {
    if num_chr_banks == 0 {
        CHR_BANK_SIZE as int
    } else {
        num_chr_banks * CHR_BANK_SIZE
    }
}

impl CartridgeView {
    /// Memory sizes agree with the bank counts the mapper was built for.
    pub open spec fn wf(self) -> bool {
        &&& self.prg.len() == self.mapper.num_prg_banks * PRG_BANK_SIZE
        &&& self.chr.len() == chr_len(self.mapper.num_chr_banks)
    }

    /// What a CPU read of `addr` yields, if the cartridge claims it. A
    /// claimed offset past the end of program memory (a cartridge without
    /// program banks) reads as 0.
    pub open spec fn cpu_peek(self, addr: u16) -> Option<u8> {
        match self.mapper.cpu_read_target(addr) {
            Some(off) => Some(
                if off < self.prg.len() {
                    self.prg[off as int]
                } else {
                    0
                },
            ),
            None => None,
        }
    }

    /// The cartridge after a CPU write of `data` to `addr`. A write to a
    /// claimed offset past the end of program memory is dropped.
    pub open spec fn cpu_poke(self, addr: u16, data: u8) -> CartridgeView {
        match self.mapper.cpu_write_target(addr) {
            Some(off) => if off < self.prg.len() {
                CartridgeView { prg: self.prg.update(off as int, data), ..self }
            } else {
                self
            },
            None => self,
        }
    }

    /// What a device read of `addr` yields, if the cartridge claims it.
    pub open spec fn ppu_peek(self, addr: u16) -> Option<u8> {
        match self.mapper.ppu_read_target(addr) {
            Some(off) => Some(self.chr[off as int]),
            None => None,
        }
    }

    /// The cartridge after a device write of `data` to `addr`.
    pub open spec fn ppu_poke(self, addr: u16, data: u8) -> CartridgeView {
        match self.mapper.ppu_write_target(addr) {
            Some(off) => CartridgeView { chr: self.chr.update(off as int, data), ..self },
            None => self,
        }
    }
}

/// Mapper number held in the two flag bytes of the header.
pub open spec fn mapper_id(flags6: u8, flags7: u8) -> u8 {
    ((flags7 / 16) * 16 + flags6 / 16) as u8
}

/// Format-version bits (bits 2 and 3) of the second flag byte.
pub open spec fn format_version(flags7: u8) -> u8 {
    ((flags7 / 4) % 4) as u8
}

/// Whether the first flag byte announces a trainer block (bit 2).
pub open spec fn has_trainer(flags6: u8) -> bool {
    (flags6 / 4) % 2 == 1
}

/// Whether the image opens with the iNES signature.
pub open spec fn has_signature(image: Seq<u8>) -> bool {
    image.len() >= 4 && image[0] == 0x4E && image[1] == 0x45 && image[2] == 0x53 && image[3]
        == 0x1A
}

/// The cartridge that an iNES image describes, or why there is none.
pub open spec fn load_image(image: Seq<u8>) -> Result<CartridgeView, CartridgeError> {
    if image.len() < HEADER_SIZE {
        Err(CartridgeError::Truncated)
    } else if !has_signature(image) {
        Err(CartridgeError::NotInes)
    } else if mapper_id(image[6], image[7]) != 0 {
        Err(CartridgeError::UnsupportedMapper(mapper_id(image[6], image[7])))
    } else if format_version(image[7]) != 0 {
        Err(CartridgeError::UnsupportedVersion(format_version(image[7])))
    } else {
        let prg_start: int = if has_trainer(image[6]) {
            HEADER_SIZE + TRAINER_SIZE
        } else {
            HEADER_SIZE as int
        };
        let prg_end = prg_start + image[4] * PRG_BANK_SIZE;
        let chr_end = if image[5] == 0 {
            prg_end
        } else {
            prg_end + image[5] * CHR_BANK_SIZE
        };
        if image.len() < chr_end {
            Err(CartridgeError::Truncated)
        } else {
            Ok(
                CartridgeView {
                    prg: image.subrange(prg_start, prg_end),
                    chr: if image[5] == 0 {
                        Seq::new(CHR_BANK_SIZE as nat, |i: int| 0u8)
                    } else {
                        image.subrange(prg_end, chr_end)
                    },
                    mapper: Mapper000 { num_prg_banks: image[4], num_chr_banks: image[5] },
                },
            )
        }
    }
}

/// Every offset the mapper hands out lies inside character memory, and
/// inside program memory when the cartridge has at least one program bank.
proof fn lemma_targets_in_bounds(c: CartridgeView, addr: u16)
    requires
        c.wf(),
    ensures
        c.mapper.num_prg_banks >= 1 ==> (c.mapper.cpu_read_target(addr) matches Some(o) ==> o
            < c.prg.len()),
        c.mapper.ppu_read_target(addr) matches Some(o) ==> o < c.chr.len(),
        c.mapper.ppu_write_target(addr) matches Some(o) ==> o < c.chr.len(),
{
    assert(addr as int % prg_window(c.mapper.num_prg_banks) < prg_window(c.mapper.num_prg_banks));
}

/// Bytes `image[start..start + len]` as a vector.
fn copy_range(image: &[u8], start: usize, len: usize) -> (r: Vec<u8>)
    requires
        start + len <= image@.len(),
    ensures
        r@ == image@.subrange(start as int, start + len),
{
    let mut r: Vec<u8> = Vec::with_capacity(len);
    let mut i: usize = 0;
    while i < len
        invariant
            start + len <= image.len(),
            i <= len,
            r@ == image@.subrange(start as int, start + i),
        decreases len - i,
    {
        r.push(image[start + i]);
        i += 1;
        assert(r@ =~= image@.subrange(start as int, start + i));
    }
    r
}

impl Cartridge {
    /// Parses an iNES image: a 16-byte header, an optional 512-byte
    /// trainer (skipped), the program banks, then the character banks. An
    /// image without character banks gets 8 KiB of zeroed character RAM.
    pub fn new(image: &[u8]) -> (r: Result<Cartridge, CartridgeError>)
        ensures
            match r {
                Ok(c) => load_image(image@) == Ok::<CartridgeView, CartridgeError>(c@) && c@.wf(),
                Err(e) => load_image(image@) == Err::<CartridgeView, CartridgeError>(e),
            },
    {
        if image.len() < HEADER_SIZE {
            return Err(CartridgeError::Truncated);
        }
        if !(image[0] == 0x4E && image[1] == 0x45 && image[2] == 0x53 && image[3] == 0x1A) {
            return Err(CartridgeError::NotInes);
        }
        let prg_banks = image[4];
        let chr_banks = image[5];
        let flags6 = image[6];
        let flags7 = image[7];

        let id = (flags7 / 16) * 16 + flags6 / 16;
        let mapper = match create_mapper(id, prg_banks, chr_banks) {
            Some(m) => m,
            None => {
                return Err(CartridgeError::UnsupportedMapper(id));
            },
        };
        let version = (flags7 / 4) % 4;
        if version != 0 {
            return Err(CartridgeError::UnsupportedVersion(version));
        }
        let prg_start: usize = if (flags6 / 4) % 2 == 1 {
            HEADER_SIZE + TRAINER_SIZE
        } else {
            HEADER_SIZE
        };
        let prg_len: usize = prg_banks as usize * PRG_BANK_SIZE;
        let chr_rom_len: usize = chr_banks as usize * CHR_BANK_SIZE;
        if image.len() < prg_start || image.len() - prg_start < prg_len || image.len() - prg_start - prg_len < chr_rom_len {
            return Err(CartridgeError::Truncated);
        }
        let program_mem = copy_range(image, prg_start, prg_len);
        let character_mem = if chr_banks == 0 {
            let ram: Vec<u8> = vec![0u8; CHR_BANK_SIZE];
            assert(ram@ =~= Seq::new(CHR_BANK_SIZE as nat, |i: int| 0u8));
            ram
        } else {
            copy_range(image, prg_start + prg_len, chr_rom_len)
        };
        Ok(Cartridge { program_mem, character_mem, mapper })
    }

    /// The byte a CPU read of `addr` yields, or `None` when the mapper
    /// leaves the address to another device; 0 for a claimed offset past
    /// the end of program memory.
    pub fn cpu_read(&self, addr: u16) -> (r: Option<u8>)
        requires
            self@.wf(),
        ensures
            r == self@.cpu_peek(addr),
    {
        proof {
            lemma_targets_in_bounds(self@, addr);
        }
        match self.mapper.cpu_map_read(addr) {
            Some(off) => {
                if (off as usize) < self.program_mem.len() {
                    Some(self.program_mem[off as usize])
                } else {
                    Some(0)
                }
            },
            None => None,
        }
    }

    /// Stores `data` where a CPU write to `addr` lands; `false` when the
    /// mapper does not claim the address. A claimed write past the end of
    /// program memory is dropped.
    pub fn cpu_write(&mut self, addr: u16, data: u8) -> (r: bool)
        requires
            old(self)@.wf(),
        ensures
            final(self)@ == old(self)@.cpu_poke(addr, data),
            final(self)@.wf(),
            r == old(self)@.mapper.cpu_write_target(addr) is Some,
    {
        proof {
            lemma_targets_in_bounds(self@, addr);
        }
        match self.mapper.cpu_map_write(addr) {
            Some(off) => {
                if (off as usize) < self.program_mem.len() {
                    self.program_mem.set(off as usize, data);
                }
                true
            },
            None => false,
        }
    }

    /// The byte a device read of `addr` yields, or `None` when the mapper
    /// leaves the address to another device.
    pub fn ppu_read(&self, addr: u16) -> (r: Option<u8>)
        requires
            self@.wf(),
        ensures
            r == self@.ppu_peek(addr),
    {
        proof {
            lemma_targets_in_bounds(self@, addr);
        }
        match self.mapper.ppu_map_read(addr) {
            Some(off) => Some(self.character_mem[off as usize]),
            None => None,
        }
    }

    /// Stores `data` where a device write to `addr` lands; `false` when the
    /// mapper refuses the write.
    pub fn ppu_write(&mut self, addr: u16, data: u8) -> (r: bool)
        requires
            old(self)@.wf(),
        ensures
            final(self)@ == old(self)@.ppu_poke(addr, data),
            final(self)@.wf(),
            r == old(self)@.mapper.ppu_write_target(addr) is Some,
    {
        proof {
            lemma_targets_in_bounds(self@, addr);
        }
        match self.mapper.ppu_map_write(addr) {
            Some(off) => {
                self.character_mem.set(off as usize, data);
                true
            },
            None => false,
        }
    }

    /// Returns the mapper to its power-on configuration.
    pub fn reset(&mut self)
        ensures
            final(self)@ == (CartridgeView { mapper: old(self)@.mapper.power_on(), ..old(self)@ }),
    {
        self.mapper.reset();
    }
}

/// A cartridge with one 16 KiB program bank shows the CPU the same bytes at
/// `$8000-$BFFF` and at `$C000-$FFFF`.
pub proof fn lemma_single_bank_cartridge_mirrors(c: CartridgeView, i: u16)
    requires
        c.wf(),
        c.mapper.num_prg_banks == 1,
        i < 0x4000,
    ensures
        c.cpu_peek((0x8000 + i) as u16) == c.cpu_peek((0xC000 + i) as u16),
        c.cpu_peek((0x8000 + i) as u16) == Some(c.prg[i as int]),
{
    crate::mapper::lemma_single_bank_mirror(c.mapper, i);
}

} // verus!
