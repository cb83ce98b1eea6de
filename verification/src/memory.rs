use vstd::prelude::*;

verus! {

/// What the processor sees of the machine around it: bytes at 16-bit
/// addresses, to read and to write. Every address can be read and written;
/// what an address without a device gives is up to the implementor.
///
/// The view of a memory is its state. `peek` says what a read gives in a
/// state and `poke` which state follows a write, so that everything the
/// processor does is a function of its registers and that state.
pub trait Memory: View {
    /// The byte that a read at `address` gives.
    spec fn peek(image: Self::V, address: u16) -> u8;

    /// The state after `value` is written at `address`.
    spec fn poke(image: Self::V, address: u16, value: u8) -> Self::V;

    /// Reads the byte at an address.
    fn read(&self, address: u16) -> (value: u8)
        ensures
            value == Self::peek(self@, address),
    ;

    /// Writes a byte at an address.
    fn write(&mut self, address: u16, value: u8)
        ensures
            final(self)@ == Self::poke(old(self)@, address, value),
    ;
}

/// Whether a memory gives back at an address the byte that is written
/// there. Read-only and unmapped addresses do not.
pub open spec fn retains<M: Memory>(image: M::V, address: u16, value: u8) -> bool {
    M::peek(M::poke(image, address, value), address) == value
}

/// A vector as a flat memory that starts at address zero. Beyond its end
/// nothing is mapped: a read there gives 0xFF and a write is lost.
impl Memory for Vec<u8> {
    open spec fn peek(image: Seq<u8>, address: u16) -> u8 {
        if address < image.len() {
            image[address as int]
        } else {
            0xFF
        }
    }

    open spec fn poke(image: Seq<u8>, address: u16, value: u8) -> Seq<u8> {
        if address < image.len() {
            image.update(address as int, value)
        } else {
            image
        }
    }

    fn read(&self, address: u16) -> (value: u8) {
        let i: usize = address as usize;
        if i < self.len() {
            self[i]
        } else {
            0xFF
        }
    }

    fn write(&mut self, address: u16, value: u8) {
        let i: usize = address as usize;
        if i < self.len() {
            self[i] = value;
        }
    }
}

/// A vector retains what is written within its length, and a write there
/// changes no other byte. Beyond its length it retains only 0xFF.
pub proof fn law_vector_retains(image: Seq<u8>, address: u16, value: u8)
    ensures
        address < image.len() ==> retains::<Vec<u8>>(image, address, value),
        address >= image.len() ==> (retains::<Vec<u8>>(image, address, value) <==> value == 0xFF),
        forall|other: u16|
            other != address ==> <Vec<u8> as Memory>::peek(
                <Vec<u8> as Memory>::poke(image, address, value),
                other,
            ) == <Vec<u8> as Memory>::peek(image, other),
{
}

} // verus!
