//! The image under assembly and its write cursor.
use vstd::prelude::*;

verus! {

/// The size of the image: the whole 6502 address space.
pub const IMAGE_SIZE: usize = 0x10000;

/// A 16-bit word as two bytes, low byte first.
pub open spec fn le_bytes(w: u16) -> Seq<u8> {
    seq![(w % 256) as u8, (w / 256) as u8]
}

/// `image` with `bytes` written from `at` on.
pub open spec fn overwrite(image: Seq<u8>, at: int, bytes: Seq<u8>) -> Seq<u8> {
    Seq::new(
        image.len(),
        |i: int|
            if at <= i < at + bytes.len() {
                bytes[i - at]
            } else {
                image[i]
            },
    )
}

/// The bytes of `value`: low first, then high.
pub(crate) fn big_to_little_endian(value: u16) -> (r: (u8, u8))
    ensures
        r.0 == value % 256,
        r.1 == value / 256,
{
    assert(value & 0xFF == value % 256) by (bit_vector);
    assert((value & 0xFF00) >> 8 == value / 256) by (bit_vector);
    ((value & 0xFF) as u8, ((value & 0xFF00) >> 8) as u8)
}

/// The image being assembled and the write cursor.
pub struct Code {
    pub cart: Vec<u8>,
    pub pointer: usize,
}

impl View for Code {
    type V = Seq<u8>;

    open spec fn view(&self) -> Seq<u8> {
        self.cart@
    }
}

impl Code {
    /// An image of zeros, with the cursor at the start.
    pub fn new() -> (r: Code)
        ensures
            r@ == Seq::new(IMAGE_SIZE as nat, |i: int| 0u8),
            r.pointer == 0,
    {
        let cart = vec![0u8; IMAGE_SIZE];
        assert(cart@ =~= Seq::new(IMAGE_SIZE as nat, |i: int| 0u8));
        Code { cart, pointer: 0 }
    }

    /// Writes `byte` at the cursor, then moves the cursor past it.
    pub fn push_byte(&mut self, byte: u8)
        requires
            old(self)@.len() == IMAGE_SIZE,
            old(self).pointer < IMAGE_SIZE,
        ensures
            final(self)@ == overwrite(old(self)@, old(self).pointer as int, seq![byte]),
            final(self).pointer == old(self).pointer + 1,
    {
        self.cart.set(self.pointer, byte);
        assert(self.cart@ =~= overwrite(old(self)@, old(self).pointer as int, seq![byte]));
        self.pointer = self.pointer + 1;
    }

    /// Writes `long` at the cursor, low byte first, then moves the cursor past it.
    pub fn push_long(&mut self, long: u16)
        requires
            old(self)@.len() == IMAGE_SIZE,
            old(self).pointer + 2 <= IMAGE_SIZE,
        ensures
            final(self)@ == overwrite(old(self)@, old(self).pointer as int, le_bytes(long)),
            final(self).pointer == old(self).pointer + 2,
    {
        let bytes = big_to_little_endian(long);
        self.push_byte(bytes.0);
        self.push_byte(bytes.1);
        assert(self@ =~= overwrite(old(self)@, old(self).pointer as int, le_bytes(long)));
    }

    /// Moves the cursor `amount` bytes on without writing.
    pub fn skip(&mut self, amount: usize)
        requires
            old(self).pointer + amount <= usize::MAX,
        ensures
            final(self)@ == old(self)@,
            final(self).pointer == old(self).pointer + amount,
    {
        self.pointer = self.pointer + amount;
    }

    /// The image.
    pub fn into_bytes(self) -> (r: Vec<u8>)
        ensures
            r@ == self@,
    {
        self.cart
    }
}

} // verus!
