//! The memory image: power-on contents and the boot ROM overlay.
use vstd::prelude::*;
use crate::cpu::MEM_SIZE;
use crate::step::REG_BOOT;

verus! {

/// Number of bytes of the boot ROM, which overlays the start of the cartridge.
pub const BOOT_ROM_SIZE: usize = 0x100;

/// Address of the LCD line register (LY).
pub const REG_LY: usize = 0xFF44;

/// The line register's value at power-on.
pub const LY_AT_POWER_ON: u8 = 0x90;

/// The memory image that the cartridge `rom` and the boot ROM `boot` give:
/// the boot ROM over the first 0x100 bytes, then the cartridge, cut or
/// padded with zeros to 64 KiB.
pub open spec fn boot_image_spec(rom: Seq<u8>, boot: Seq<u8>) -> Seq<u8> {
    Seq::new(
        MEM_SIZE as nat,
        |i: int|
            if i < BOOT_ROM_SIZE {
                boot[i]
            } else if i < rom.len() {
                rom[i]
            } else {
                0u8
            },
    )
}

/// Builds the memory image from the cartridge `rom` and the boot ROM `boot`
/// (both at least 0x100 bytes long).
#[verifier::rlimit(30)]
pub fn boot_image(rom: Vec<u8>, boot: &Vec<u8>) -> (mem: Vec<u8>)
    requires
        rom@.len() >= BOOT_ROM_SIZE,
        boot@.len() >= BOOT_ROM_SIZE,
    ensures
        mem@ == boot_image_spec(rom@, boot@),
{
    let mut data = rom;
    let mut i: usize = 0;
    while i < BOOT_ROM_SIZE
        invariant
            i <= BOOT_ROM_SIZE,
            boot@.len() >= BOOT_ROM_SIZE,
            rom@.len() >= BOOT_ROM_SIZE,
            data@.len() == rom@.len(),
            forall|j: int| 0 <= j < i ==> data@[j] == boot@[j],
            forall|j: int| i <= j < data@.len() ==> data@[j] == rom@[j],
        decreases BOOT_ROM_SIZE - i,
    {
        data[i] = boot[i];
        i = i + 1;
    }
    data.truncate(MEM_SIZE);
    while data.len() < MEM_SIZE
        invariant
            data@.len() <= MEM_SIZE,
            data@.len() >= BOOT_ROM_SIZE,
            data@.len() < MEM_SIZE ==> data@.len() >= rom@.len(),
            forall|j: int| 0 <= j < data@.len() ==> data@[j] == boot_image_spec(rom@, boot@)[j],
        decreases MEM_SIZE - data@.len(),
    {
        data.push(0);
    }
    assert(data@ =~= boot_image_spec(rom@, boot@));
    data
}

/// Sets the registers that have a fixed value at power-on (the LCD line register).
pub fn power_on(mem: &mut Vec<u8>)
    requires
        old(mem)@.len() == MEM_SIZE,
    ensures
        final(mem)@ == old(mem)@.update(REG_LY as int, LY_AT_POWER_ON),
{
    mem[REG_LY] = LY_AT_POWER_ON;
}

/// Whether the program asked for the boot ROM to be unmapped.
pub fn boot_rom_unmap_requested(mem: &Vec<u8>) -> (r: bool)
    requires
        mem@.len() == MEM_SIZE,
    ensures
        r == (mem@[REG_BOOT as int] != 0),
{
    mem[REG_BOOT] != 0
}

/// Replaces the boot ROM by the first 0x100 bytes of the cartridge `rom` and
/// clears the unmap register.
#[verifier::rlimit(30)]
pub fn unmap_boot_rom(mem: &mut Vec<u8>, rom: &Vec<u8>)
    requires
        old(mem)@.len() == MEM_SIZE,
        rom@.len() >= BOOT_ROM_SIZE,
    ensures
        final(mem)@ == Seq::new(
            MEM_SIZE as nat,
            |i: int|
                if i < BOOT_ROM_SIZE {
                    rom@[i]
                } else if i == REG_BOOT {
                    0u8
                } else {
                    old(mem)@[i]
                },
        ),
{
    let ghost before = mem@;
    let mut i: usize = 0;
    while i < BOOT_ROM_SIZE
        invariant
            i <= BOOT_ROM_SIZE,
            rom@.len() >= BOOT_ROM_SIZE,
            mem@.len() == MEM_SIZE,
            forall|j: int| 0 <= j < i ==> mem@[j] == rom@[j],
            forall|j: int| i <= j < MEM_SIZE ==> mem@[j] == before[j],
        decreases BOOT_ROM_SIZE - i,
    {
        mem[i] = rom[i];
        i = i + 1;
    }
    mem[REG_BOOT] = 0;
    assert(mem@ =~= Seq::new(
        MEM_SIZE as nat,
        |i: int|
            if i < BOOT_ROM_SIZE {
                rom@[i]
            } else if i == REG_BOOT {
                0u8
            } else {
                before[i]
            },
    ));
}

} // verus!
