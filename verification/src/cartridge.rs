use vstd::prelude::*;

verus! {

/// Bytes of program memory on the cartridge.
pub const PRG_SIZE: usize = 0x8000;

/// Bytes of character memory on the cartridge.
pub const CHR_SIZE: usize = 0x2000;

/// How the cartridge maps its memory into the address space.
pub struct Mapper {
    /// Mapper type
    ntype: u8,
}

impl Mapper {
    /// The number of the mapper type.
    pub closed spec fn kind(&self) -> u8 {
        self.ntype
    }

    /// Create type 0 mapper
    pub fn new() -> (mapper: Mapper)
        ensures
            mapper.kind() == 0,
    {
        Mapper { ntype: 0 }
    }
}

/// A cartridge without bank switching. Its view is its program memory.
pub struct Cartridge {
    prg: Vec<u8>,
    chr: Vec<u8>,
    mapper: Mapper,
}

impl View for Cartridge {
    type V = Seq<u8>;

    closed spec fn view(&self) -> Seq<u8> {
        self.prg@
    }
}

impl Cartridge {
    #[verifier::type_invariant]
    spec fn sized(self) -> bool {
        self.prg@.len() == PRG_SIZE && self.chr@.len() == CHR_SIZE
    }

    /// The character memory.
    pub closed spec fn chr(&self) -> Seq<u8> {
        self.chr@
    }

    /// The number of the mapper.
    pub closed spec fn mapper_type(&self) -> u8 {
        self.mapper.kind()
    }

    /// A cartridge whose memories hold zeros, with mapper 0.
    pub fn new() -> (cartridge: Cartridge)
        ensures
            cartridge@ == Seq::new(PRG_SIZE as nat, |i: int| 0u8),
            cartridge.chr() == Seq::new(CHR_SIZE as nat, |i: int| 0u8),
            cartridge.mapper_type() == 0,
    {
        let cartridge = Cartridge {
            // NROM
            prg: vec![0u8; PRG_SIZE],
            chr: vec![0u8; CHR_SIZE],
            mapper: Mapper::new(),
        };
        assert(cartridge.prg@ =~= Seq::new(PRG_SIZE as nat, |i: int| 0u8));
        assert(cartridge.chr@ =~= Seq::new(CHR_SIZE as nat, |i: int| 0u8));
        cartridge
    }

    /// Writes one byte of program memory.
    pub fn write(&mut self, i: usize, value: u8)
        requires
            i < PRG_SIZE,
        ensures
            final(self)@ == old(self)@.update(i as int, value),
            final(self).chr() == old(self).chr(),
            final(self).mapper_type() == old(self).mapper_type(),
        no_unwind
    {
        proof {
            use_type_invariant(&*self);
        }
        self.prg[i] = value;
    }

    /// Reads one byte of program memory.
    pub fn read(&self, i: usize) -> (value: u8)
        requires
            i < PRG_SIZE,
        ensures
            value == self@[i as int],
    {
        proof {
            use_type_invariant(self);
        }
        self.prg[i]
    }
}

} // verus!
