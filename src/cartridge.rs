//! The cartridge: a read-only byte store seen through a 4 KiB window.
use vstd::prelude::*;
use crate::fault::{BusAccessable, Fault};

verus! {

/// The size of the cartridge's address window.
pub const ROM_WINDOW: usize = 4096;

/// What `set_rom` stores for an image: the image itself, padded with zero
/// bytes to the window's size when it is shorter.
pub open spec fn padded_rom(rom: Seq<u8>) -> Seq<u8> {
    if rom.len() < ROM_WINDOW {
        rom + Seq::new((ROM_WINDOW - rom.len()) as nat, |i: int| 0u8)
    } else {
        rom
    }
}

pub struct Cartridge {
    pub rom: Vec<u8>,
}

impl Cartridge {
    pub open spec fn wf(&self) -> bool {
        self.rom@.len() >= ROM_WINDOW
    }

    /// The byte seen at an address: its low 12 bits index the image.
    pub open spec fn read_spec(rom: Seq<u8>, addr: u16) -> u8 {
        rom[(addr % 4096) as int]
    }

    /// Replaces the image, padding it to the window's size.
    pub fn set_rom(&mut self, rom: &Vec<u8>)
        ensures
            final(self).rom@ == padded_rom(rom@),
            final(self).wf(),
    {
        let mut image: Vec<u8> = Vec::new();
        let mut i: usize = 0;
        while i < rom.len()
            invariant
                i <= rom@.len(),
                image@ == rom@.subrange(0, i as int),
            decreases rom@.len() - i,
        {
            image.push(rom[i]);
            i = i + 1;
            assert(image@ =~= rom@.subrange(0, i as int));
        }
        assert(image@ =~= rom@);
        while image.len() < ROM_WINDOW
            invariant
                rom@.len() <= image@.len() <= ROM_WINDOW || (rom@.len() >= ROM_WINDOW && image@ == rom@),
                image@.subrange(0, rom@.len() as int) == rom@,
                forall|j: int| rom@.len() <= j < image@.len() ==> image@[j] == 0,
            decreases ROM_WINDOW - image@.len(),
        {
            image.push(0);
            assert(image@.subrange(0, rom@.len() as int) =~= rom@);
        }
        assert(image@ =~= padded_rom(rom@));
        self.rom = image;
    }

}

impl Default for Cartridge {
    /// A blank image of zero bytes, one window long.
    fn default() -> (r: Cartridge)
        ensures
            r.wf(),
            r.rom@.len() == ROM_WINDOW,
            forall|i: int| 0 <= i < ROM_WINDOW ==> r.rom@[i] == 0,
    {
        Cartridge { rom: crate::memory::zeroed_bytes(ROM_WINDOW) }
    }
}

impl BusAccessable for Cartridge {
    open spec fn valid(&self) -> bool {
        self.wf()
    }

    /// The image is read-only: a write faults.
    fn write(&mut self, addr: u16, data: u8) -> (r: Result<(), Fault>)
        ensures
            r == Err::<(), Fault>(Fault::UnsupportedRegister(addr)),
            final(self).rom@ == old(self).rom@,
    {
        Err(Fault::UnsupportedRegister(addr))
    }

    fn read(&mut self, addr: u16) -> (r: Result<u8, Fault>)
        ensures
            r == Ok::<u8, Fault>(Cartridge::read_spec(old(self).rom@, addr)),
            final(self).rom@ == old(self).rom@,
    {
        Ok(self.rom[(addr % 4096) as usize])
    }
}

} // verus!
