//! The cartridge: a 32 KiB game image and the 256-byte boot program that
//! shadows its first page until the latch at `0xFF50` is written.

use vstd::prelude::*;

verus! {

pub const BOOT_ROM_SIZE: usize = 0x100;

pub const GAME_ROM_SIZE: usize = 0x8000;

/// Address of the latch that unmaps the boot program.
pub const BOOT_LATCH: u16 = 0xff50;

/// `data` cut or padded with zeros to exactly `size` bytes.
pub open spec fn rom_image(data: Seq<u8>, size: nat) -> Seq<u8> {
    Seq::new(size, |i: int| if i < data.len() { data[i] } else { 0u8 })
}

/// The mathematical content of a cartridge.
pub struct CartridgeView {
    pub boot_rom: Seq<u8>,
    pub game_data: Seq<u8>,
    pub use_boot_rom: bool,
}

impl CartridgeView {
    pub open spec fn wf(self) -> bool {
        &&& self.boot_rom.len() == BOOT_ROM_SIZE
        &&& self.game_data.len() == GAME_ROM_SIZE
    }

    /// The byte seen at `addr`: the boot program below `0x100` while it is
    /// mapped, the game image elsewhere below `0x8000`, and `0xFF` above.
    pub open spec fn read(self, addr: u16) -> u8 {
        if self.use_boot_rom && addr < 0x100 {
            self.boot_rom[addr as int]
        } else if addr < 0x8000 {
            self.game_data[addr as int]
        } else {
            0xff
        }
    }

    /// The cartridge after a write: only the latch reacts, to any value.
    pub open spec fn write(self, addr: u16, val: u8) -> CartridgeView {
        if addr == BOOT_LATCH {
            CartridgeView { use_boot_rom: false, ..self }
        } else {
            self
        }
    }
}

pub struct Cartridge {
    boot_rom: [u8; BOOT_ROM_SIZE],
    game_data: [u8; GAME_ROM_SIZE],
    use_boot_rom: bool,
}

impl View for Cartridge {
    type V = CartridgeView;

    closed spec fn view(&self) -> CartridgeView {
        CartridgeView {
            boot_rom: self.boot_rom@,
            game_data: self.game_data@,
            use_boot_rom: self.use_boot_rom,
        }
    }
}

/// Copies `data` into a zeroed game image, dropping what does not fit.
fn load_game(data: &[u8]) -> (image: [u8; GAME_ROM_SIZE])
    ensures
        image@ == rom_image(data@, GAME_ROM_SIZE as nat),
{
    let mut image = [0u8; GAME_ROM_SIZE];
    let n: usize = if data.len() < GAME_ROM_SIZE { data.len() } else { GAME_ROM_SIZE };
    let mut i: usize = 0;
    while i < n
        invariant
            i <= n,
            n <= GAME_ROM_SIZE,
            n <= data@.len(),
            forall|j: int| 0 <= j < i ==> image@[j] == data@[j],
            forall|j: int| i <= j < GAME_ROM_SIZE ==> image@[j] == 0,
        decreases n - i,
    {
        image[i] = data[i];
        i += 1;
    }
    assert(image@ =~= rom_image(data@, GAME_ROM_SIZE as nat));
    image
}

/// Copies `data` into a zeroed boot page, dropping what does not fit.
fn load_boot(data: &[u8]) -> (image: [u8; BOOT_ROM_SIZE])
    ensures
        image@ == rom_image(data@, BOOT_ROM_SIZE as nat),
{
    let mut image = [0u8; BOOT_ROM_SIZE];
    let n: usize = if data.len() < BOOT_ROM_SIZE { data.len() } else { BOOT_ROM_SIZE };
    let mut i: usize = 0;
    while i < n
        invariant
            i <= n,
            n <= BOOT_ROM_SIZE,
            n <= data@.len(),
            forall|j: int| 0 <= j < i ==> image@[j] == data@[j],
            forall|j: int| i <= j < BOOT_ROM_SIZE ==> image@[j] == 0,
        decreases n - i,
    {
        image[i] = data[i];
        i += 1;
    }
    assert(image@ =~= rom_image(data@, BOOT_ROM_SIZE as nat));
    image
}

impl Cartridge {
    /// A cartridge behind a mapped boot program.  Either image is cut at its
    /// size and padded with zeros up to it.
    pub fn new(boot: &[u8], game: &[u8]) -> (r: Self)
        ensures
            r@.wf(),
            r@.boot_rom == rom_image(boot@, BOOT_ROM_SIZE as nat),
            r@.game_data == rom_image(game@, GAME_ROM_SIZE as nat),
            r@.use_boot_rom,
    {
        Self { boot_rom: load_boot(boot), game_data: load_game(game), use_boot_rom: true }
    }

    /// A cartridge whose boot program has already run and is unmapped.
    pub fn no_boot(game: &[u8]) -> (r: Self)
        ensures
            r@.wf(),
            r@.boot_rom == rom_image(Seq::<u8>::empty(), BOOT_ROM_SIZE as nat),
            r@.game_data == rom_image(game@, GAME_ROM_SIZE as nat),
            !r@.use_boot_rom,
    {
        let boot_rom = [0u8; BOOT_ROM_SIZE];
        assert(boot_rom@ =~= rom_image(Seq::<u8>::empty(), BOOT_ROM_SIZE as nat));
        Self { boot_rom, game_data: load_game(game), use_boot_rom: false }
    }

    pub fn read_byte(&self, addr: u16) -> (r: u8)
        ensures
            r == self@.read(addr),
            self@.wf(),
    {
        if self.use_boot_rom && addr < 0x100 {
            self.boot_rom[addr as usize]
        } else if addr < 0x8000 {
            self.game_data[addr as usize]
        } else {
            0xff
        }
    }

    pub fn write_byte(&mut self, addr: u16, val: u8)
        ensures
            final(self)@ == old(self)@.write(addr, val),
            final(self)@.wf(),
    {
        if addr == BOOT_LATCH {
            self.use_boot_rom = false;
        }
    }

    /// Every cartridge holds images of the fixed sizes.
    pub proof fn lemma_wf(&self)
        ensures
            self@.wf(),
    {
    }
}

/// Once the latch has been written the boot program stays unmapped, and the
/// game image never changes.
pub proof fn lemma_latch_is_permanent(c: CartridgeView, addr: u16, val: u8)
    ensures
        !c.use_boot_rom ==> !c.write(addr, val).use_boot_rom,
        c.write(addr, val).game_data == c.game_data,
        c.write(addr, val).boot_rom == c.boot_rom,
        c.wf() ==> c.write(addr, val).wf(),
{
}

} // verus!
