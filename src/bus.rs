use vstd::prelude::*;

use crate::cartridge::{Cartridge, CartridgeView};
use crate::mapper::Mapper;

verus! {

/// Size of the CPU's own RAM.
pub const RAM_SIZE: usize = 2048;

/// End (exclusive) of the window in which the CPU RAM repeats itself.
pub const RAM_WINDOW_END: u16 = 0x2000;

/// The CPU's memory bus: its RAM and the cartridge.
///
/// A read or write is offered to the cartridge first; what the cartridge
/// leaves falls to the RAM, mirrored every 2 KiB across `$0000-$1FFF`;
/// what neither claims reads as 0 and is dropped on write.
pub struct Bus {
    pub cpu_ram: Vec<u8>,
    pub cartridge: Cartridge,
}

/// What the bus holds.
pub struct BusView {
    pub ram: Seq<u8>,
    pub cart: CartridgeView,
}

impl View for Bus {
    type V = BusView;

    open spec fn view(&self) -> BusView {
        BusView { ram: self.cpu_ram@, cart: self.cartridge@ }
    }
}

/// Index into the CPU RAM of a RAM-window address.
pub open spec fn ram_index(addr: u16) -> int {
    addr as int % RAM_SIZE as int
}

impl BusView {
    pub open spec fn wf(self) -> bool {
        &&& self.ram.len() == RAM_SIZE
        &&& self.cart.wf()
    }

    /// The byte a CPU read of `addr` yields.
    #[verifier::opaque]
    pub open spec fn read(self, addr: u16) -> u8 {
        match self.cart.cpu_peek(addr) {
            Some(v) => v,
            None => if addr < RAM_WINDOW_END {
                self.ram[ram_index(addr)]
            } else {
                0
            },
        }
    }

    /// The bus after a CPU write of `data` to `addr`.
    #[verifier::opaque]
    pub open spec fn write(self, addr: u16, data: u8) -> BusView {
        if self.cart.mapper.cpu_write_target(addr) is Some {
            BusView { cart: self.cart.cpu_poke(addr, data), ..self }
        } else if addr < RAM_WINDOW_END {
            BusView { ram: self.ram.update(ram_index(addr), data), ..self }
        } else {
            self
        }
    }
}

impl Bus {
    /// A bus with zeroed RAM and the given cartridge.
    pub fn new(cartridge: Cartridge) -> (r: Bus)
        ensures
            r@.ram == Seq::new(RAM_SIZE as nat, |i: int| 0u8),
            r@.cart == cartridge@,
    {
        let cpu_ram: Vec<u8> = vec![0u8; RAM_SIZE];
        assert(cpu_ram@ =~= Seq::new(RAM_SIZE as nat, |i: int| 0u8));
        Bus { cpu_ram, cartridge }
    }

    /// Routes a CPU write: the cartridge first, then the RAM window;
    /// anything else is dropped.
    pub fn write(&mut self, addr: u16, data: u8)
        requires
            old(self)@.wf(),
        ensures
            final(self)@ == old(self)@.write(addr, data),
            final(self)@.wf(),
    {
        reveal(BusView::write);
        if self.cartridge.cpu_write(addr, data) {
            return;
        }
        if addr < RAM_WINDOW_END {
            self.cpu_ram.set(addr as usize % RAM_SIZE, data);
        }
    }

    /// Routes a CPU read: the cartridge first, then the RAM window; 0 for
    /// an address nobody claims. `read_only` marks a read that must have no
    /// side effect; neither RAM nor cartridge has read side effects.
    pub fn read(&self, addr: u16, read_only: bool) -> (r: u8)
        requires
            self@.wf(),
        ensures
            r == self@.read(addr),
    {
        reveal(BusView::read);
        match self.cartridge.cpu_read(addr) {
            Some(v) => v,
            None => {
                if addr < RAM_WINDOW_END {
                    self.cpu_ram[addr as usize % RAM_SIZE]
                } else {
                    0
                }
            },
        }
    }

    /// Propagates a reset to the cartridge.
    pub fn reset(&mut self)
        ensures
            final(self)@ == (BusView {
                cart: CartridgeView { mapper: old(self)@.cart.mapper.power_on(), ..old(self)@.cart },
                ..old(self)@
            }),
    {
        self.cartridge.reset();
    }

    /// Advances the attached devices by one clock; none of the devices on
    /// this bus has clocked state.
    pub fn clock_tick(&mut self)
        ensures
            final(self)@ == old(self)@,
    {
    }
}

/// On the stack page `$0100-$01FF` the bus behaves as plain memory: a read
/// returns the last byte written to that address, and a write leaves the
/// other addresses of the page untouched.
pub proof fn lemma_stack_page_memory(b: BusView, addr: u16, data: u8, other: u16)
    requires
        b.wf(),
        0x0100 <= addr <= 0x01FF,
        0x0100 <= other <= 0x01FF,
    ensures
        b.write(addr, data).wf(),
        b.write(addr, data).read(addr) == data,
        other != addr ==> b.write(addr, data).read(other) == b.read(other),
{
    reveal(BusView::read);
    reveal(BusView::write);
}

} // verus!
