use vstd::prelude::*;

verus! {

/// Number of addressable bytes.
pub const MEMORY_SIZE: usize = 65536;

/// Little-endian 16-bit word from its low and high byte.
pub open spec fn word(lo: u8, hi: u8) -> u16 {
    (hi as int * 256 + lo as int) as u16
}

/// A byte read as a two's-complement signed value.
pub open spec fn signed(b: u8) -> int {
    if b < 128 {
        b as int
    } else {
        b as int - 256
    }
}

/// First address of a 256-byte page.
pub open spec fn page_start(page: u8) -> int {
    page as int * 256
}

/// A flat 64 KiB byte store addressed by a 16-bit word.
#[derive(Debug)]
pub struct Memory {
    data: [u8; 65536],
}

impl View for Memory {
    type V = Seq<u8>;

    closed spec fn view(&self) -> Seq<u8> {
        self.data@
    }
}

fn get_pgaddr(page: u8) -> (r: u16)
    ensures
        r == page_start(page),
{
    (page as u16) * 256
}

impl Memory {
    /// The store always holds exactly 65,536 bytes.
    pub proof fn lemma_len(&self)
        ensures
            self@.len() == MEMORY_SIZE,
    {
    }

    /// A store of zeros.
    pub fn new() -> (r: Memory)
        ensures
            r@ == Seq::new(MEMORY_SIZE as nat, |i: int| 0u8),
    {
        let r = Memory { data: [0u8; 65536] };
        assert(r@ =~= Seq::new(MEMORY_SIZE as nat, |i: int| 0u8));
        r
    }

    pub fn read(&self, addr: u16) -> (r: u8)
        ensures
            r == self@[addr as int],
    {
        self.data[addr as usize]
    }

    /// The stored byte reinterpreted as a signed byte.
    pub fn read_i8(&self, addr: u16) -> (r: i8)
        ensures
            r as int == signed(self@[addr as int]),
    {
        let b = self.read(addr);
        if b < 128 {
            b as i8
        } else {
            ((b as i16) - 256) as i8
        }
    }

    /// The word at `addr`, its high byte read at `addr + 1` with 16-bit wrap.
    pub fn read_u16(&self, addr: u16) -> (r: u16)
        ensures
            r == word(self@[addr as int], self@[addr.wrapping_add(1) as int]),
    {
        let lo = self.read(addr);
        let hi = self.read(addr.wrapping_add(1));
        (hi as u16) * 256 + (lo as u16)
    }

    pub fn write(&mut self, addr: u16, value: u8)
        ensures
            final(self)@ == old(self)@.update(addr as int, value),
    {
        self.data[addr as usize] = value;
    }

    /// The 256 bytes of a page, in address order.
    pub fn page_dump(&self, page: u8) -> (r: Vec<u8>)
        ensures
            r@ == self@.subrange(page_start(page), page_start(page) + 256),
    {
        let start = get_pgaddr(page) as usize;
        let mut out: Vec<u8> = Vec::new();
        let mut i: usize = 0;
        while i < 256
            invariant
                start == page_start(page),
                start + 256 <= MEMORY_SIZE,
                i <= 256,
                self@.len() == MEMORY_SIZE,
                out@ == self@.subrange(start as int, start + i),
            decreases 256 - i,
        {
            out.push(self.data[start + i]);
            i = i + 1;
            assert(out@ =~= self@.subrange(start as int, start + i));
        }
        out
    }
}

} // verus!
