use vstd::prelude::*;

use crate::memory::{Memory, MEMORY_SIZE};

verus! {

/// Where program images are placed.
pub const PRG_ORIGIN: u16 = 0x8000;

/// Bytes in one program bank of an iNES image.
pub const PRG_BANK_SIZE: usize = 0x4000;

/// Bytes in an iNES header.
pub const INES_HEADER_SIZE: usize = 16;

/// Memory after writing the first `n` bytes of `rom` one after another from
/// `origin`, the address wrapping at 16 bits.
pub open spec fn written(m: Seq<u8>, rom: Seq<u8>, origin: int, n: nat) -> Seq<u8>
    decreases n,
{
    if n == 0 {
        m
    } else {
        written(m, rom, origin, (n - 1) as nat).update((origin + n - 1) % 0x10000, rom[n - 1])
    }
}

/// For an image no larger than memory, each byte lands at its own address,
/// `origin + k` with 16-bit wrap, and every other byte is unchanged.
pub proof fn lemma_written_places_bytes(m: Seq<u8>, rom: Seq<u8>, origin: int, n: nat)
    requires
        m.len() == MEMORY_SIZE,
        0 <= origin < MEMORY_SIZE,
        n <= rom.len(),
        n <= MEMORY_SIZE,
    ensures
        written(m, rom, origin, n).len() == MEMORY_SIZE,
        forall|a: int|
            0 <= a < MEMORY_SIZE ==> #[trigger] written(m, rom, origin, n)[a] == if (a - origin
                + MEMORY_SIZE) % 0x10000 < n {
                rom[(a - origin + MEMORY_SIZE) % 0x10000]
            } else {
                m[a]
            },
    decreases n,
{
    if n > 0 {
        lemma_written_places_bytes(m, rom, origin, (n - 1) as nat);
        let slot = (origin + n - 1) % 0x10000;
        assert forall|a: int| 0 <= a < MEMORY_SIZE implies #[trigger] written(m, rom, origin, n)[a]
            == if (a - origin + MEMORY_SIZE) % 0x10000 < n {
            rom[(a - origin + MEMORY_SIZE) % 0x10000]
        } else {
            m[a]
        } by {
            let k = (a - origin + MEMORY_SIZE) % 0x10000;
            if a == slot {
                assert(k == n - 1);
            } else {
                assert(k != n - 1);
            }
        }
    }
}

/// Writes `rom` byte by byte from `origin`, wrapping at the top of memory.
fn write_from(bus: &mut Memory, rom: &[u8], origin: u16)
    ensures
        final(bus)@ == written(old(bus)@, rom@, origin as int, rom@.len()),
{
    let mut addr = origin;
    let mut i: usize = 0;
    while i < rom.len()
        invariant
            i <= rom@.len(),
            addr == (origin + i) % 0x10000,
            bus@ == written(old(bus)@, rom@, origin as int, i as nat),
        decreases rom@.len() - i,
    {
        bus.write(addr, rom[i]);
        addr = addr.wrapping_add(1);
        i = i + 1;
    }
}

/// Writes a raw program image from 0x8000, one byte after another with 16-bit wrap.
pub fn load_rom(bus: &mut Memory, rom: &[u8])
    ensures
        final(bus)@ == written(old(bus)@, rom@, PRG_ORIGIN as int, rom@.len()),
{
    write_from(bus, rom, PRG_ORIGIN);
}

/// Writes a program image twice in a row from 0x8000, so that a 16 KiB image
/// fills 0x8000..=0xFFFF with two copies.
pub fn load_rom_16kb(bus: &mut Memory, rom: &[u8])
    ensures
        final(bus)@ == written(
            written(old(bus)@, rom@, PRG_ORIGIN as int, rom@.len()),
            rom@,
            PRG_ORIGIN + rom@.len(),
            rom@.len(),
        ),
{
    write_from(bus, rom, PRG_ORIGIN);
    let second = PRG_ORIGIN.wrapping_add((rom.len() % 0x10000) as u16);
    proof {
        assert(second as int == (PRG_ORIGIN + rom@.len()) % 0x10000);
        lemma_written_origin_mod(
            written(old(bus)@, rom@, PRG_ORIGIN as int, rom@.len()),
            rom@,
            PRG_ORIGIN + rom@.len(),
            rom@.len(),
        );
    }
    write_from(bus, rom, second);
}

proof fn lemma_written_origin_mod(m: Seq<u8>, rom: Seq<u8>, origin: int, n: nat)
    requires
        origin >= 0,
    ensures
        written(m, rom, origin % 0x10000, n) == written(m, rom, origin, n),
    decreases n,
{
    if n > 0 {
        lemma_written_origin_mod(m, rom, origin, (n - 1) as nat);
        assert((origin % 0x10000 + n - 1) % 0x10000 == (origin + n - 1) % 0x10000) by (
        nonlinear_arith)
            requires
                origin >= 0,
                n >= 1,
        ;
    }
}

/// The iNES image has a header and a program region of one or two 16 KiB banks.
pub open spec fn nes_image_ok(rom: Seq<u8>) -> bool {
    &&& rom.len() >= INES_HEADER_SIZE
    &&& (rom[4] == 1 || rom[4] == 2)
    &&& rom.len() >= INES_HEADER_SIZE + rom[4] * PRG_BANK_SIZE
}

/// The byte an iNES image places at `addr` in 0x8000..=0xFFFF: one bank is
/// mirrored into both halves, two banks fill the region in order.
pub open spec fn nes_byte(rom: Seq<u8>, addr: int) -> u8 {
    rom[INES_HEADER_SIZE + (addr - PRG_ORIGIN) % (rom[4] * PRG_BANK_SIZE)]
}

/// The iNES loader accepts the image.
pub fn nes_image_supported(rom: &[u8]) -> (r: bool)
    ensures
        r == nes_image_ok(rom@),
{
    rom.len() >= INES_HEADER_SIZE && (rom[4] == 1 || rom[4] == 2) && rom.len() - INES_HEADER_SIZE
        >= rom[4] as usize * PRG_BANK_SIZE
}

/// Places the program banks of an iNES image at 0x8000..=0xFFFF; the rest
/// of memory is unchanged.
pub fn load_nes(bus: &mut Memory, rom: &[u8])
    requires
        nes_image_ok(rom@),
    ensures
        forall|a: int|
            0 <= a < MEMORY_SIZE ==> #[trigger] final(bus)@[a] == if a >= PRG_ORIGIN {
                nes_byte(rom@, a)
            } else {
                old(bus)@[a]
            },
        final(bus)@.len() == MEMORY_SIZE,
{
    let prg_size = rom[4] as usize * PRG_BANK_SIZE;
    let mut i: usize = 0;
    proof {
        bus.lemma_len();
    }
    while i < 0x8000
        invariant
            i <= 0x8000,
            prg_size == rom@[4] * PRG_BANK_SIZE,
            nes_image_ok(rom@),
            bus@.len() == MEMORY_SIZE,
            forall|a: int|
                0 <= a < MEMORY_SIZE ==> #[trigger] bus@[a] == if PRG_ORIGIN <= a < PRG_ORIGIN + i {
                    nes_byte(rom@, a)
                } else {
                    old(bus)@[a]
                },
        decreases 0x8000 - i,
    {
        bus.write(PRG_ORIGIN + i as u16, rom[INES_HEADER_SIZE + i % prg_size]);
        i = i + 1;
    }
}

} // verus!
