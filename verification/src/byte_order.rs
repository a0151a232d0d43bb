//! Byte order of multi-byte channels, and the encoding of 16- and 32-bit
//! words as bytes in either order.

use vstd::prelude::*;

verus! {

/// The order in which the bytes of a multi-byte channel are laid out.
#[derive(Clone, Copy, Debug, PartialEq, Eq, Structural)]
pub enum ByteOrder {
    /// Least significant byte first.
    Little,
    /// Most significant byte first.
    Big,
}

/// The two bytes of `x`, in the given order.
pub open spec fn u16_bytes(x: u16, order: ByteOrder) -> Seq<u8> {
    let lo = (x % 256) as u8;
    let hi = (x / 256) as u8;
    match order {
        ByteOrder::Little => seq![lo, hi],
        ByteOrder::Big => seq![hi, lo],
    }
}

/// The 16-bit word whose bytes, in the given order, are `b0` then `b1`.
pub open spec fn u16_of_bytes(b0: u8, b1: u8, order: ByteOrder) -> u16 {
    match order {
        ByteOrder::Little => (b0 + 256 * b1) as u16,
        ByteOrder::Big => (b1 + 256 * b0) as u16,
    }
}

/// The four bytes of `x`, in the given order.
pub open spec fn u32_bytes(x: u32, order: ByteOrder) -> Seq<u8> {
    let b0 = (x % 256) as u8;
    let b1 = ((x / 0x100) % 256) as u8;
    let b2 = ((x / 0x1_0000) % 256) as u8;
    let b3 = (x / 0x100_0000) as u8;
    match order {
        ByteOrder::Little => seq![b0, b1, b2, b3],
        ByteOrder::Big => seq![b3, b2, b1, b0],
    }
}

/// The 32-bit word whose bytes, in the given order, are `b0` to `b3`.
pub open spec fn u32_of_bytes(b0: u8, b1: u8, b2: u8, b3: u8, order: ByteOrder) -> u32 {
    match order {
        ByteOrder::Little => (b0 + 0x100 * b1 + 0x1_0000 * b2 + 0x100_0000 * b3) as u32,
        ByteOrder::Big => (b3 + 0x100 * b2 + 0x1_0000 * b1 + 0x100_0000 * b0) as u32,
    }
}

/// Reading back the bytes of a 16-bit word gives the word.
pub proof fn lemma_u16_roundtrip(x: u16, order: ByteOrder)
    ensures
        u16_bytes(x, order).len() == 2,
        u16_of_bytes(u16_bytes(x, order)[0], u16_bytes(x, order)[1], order) == x,
{
}

/// Reading back the bytes of a 32-bit word gives the word.
pub proof fn lemma_u32_roundtrip(x: u32, order: ByteOrder)
    ensures
        u32_bytes(x, order).len() == 4,
        u32_of_bytes(
            u32_bytes(x, order)[0],
            u32_bytes(x, order)[1],
            u32_bytes(x, order)[2],
            u32_bytes(x, order)[3],
            order,
        ) == x,
{
}

/// Asks the machine how it lays out the 16-bit word made of the bytes 1 and 0,
/// through `u16::from_ne_bytes`. The answer depends on the machine, so nothing
/// is claimed of it.
#[verifier::external_body]
fn native_probe() -> u16 {
    u16::from_ne_bytes([1, 0])
}

impl ByteOrder {
    /// The byte order of the machine this runs on.
    pub fn native() -> ByteOrder {
        ByteOrder::of_probe(native_probe())
    }

    /// The byte order in which the bytes 1 and 0 are the word `word`:
    /// least significant byte first where the word is 1, most significant
    /// byte first otherwise.
    pub open spec fn spec_of_probe(word: u16) -> ByteOrder {
        if word == u16_of_bytes(1, 0, ByteOrder::Little) {
            ByteOrder::Little
        } else {
            ByteOrder::Big
        }
    }

    /// The byte order of a machine that lays out the bytes 1 and 0 as the
    /// word `word`.
    pub fn of_probe(word: u16) -> (order: ByteOrder)
        ensures
            order == ByteOrder::spec_of_probe(word),
            order == ByteOrder::Little <==> word == 1,
            word == 1 || word == 256 ==> u16_of_bytes(1, 0, order) == word,
    {
        if word == 1 {
            ByteOrder::Little
        } else {
            ByteOrder::Big
        }
    }
}

/// Appends the two bytes of `x`, in the given order, to `out`.
pub fn push_u16(out: &mut Vec<u8>, x: u16, order: ByteOrder)
    ensures
        final(out)@ == old(out)@ + u16_bytes(x, order),
{
    let lo: u8 = (x % 256) as u8;
    let hi: u8 = (x / 256) as u8;
    match order {
        ByteOrder::Little => {
            out.push(lo);
            out.push(hi);
        },
        ByteOrder::Big => {
            out.push(hi);
            out.push(lo);
        },
    }
    assert(out@ =~= old(out)@ + u16_bytes(x, order));
}

/// Appends the four bytes of `x`, in the given order, to `out`.
pub fn push_u32(out: &mut Vec<u8>, x: u32, order: ByteOrder)
    ensures
        final(out)@ == old(out)@ + u32_bytes(x, order),
{
    let b0: u8 = (x % 256) as u8;
    let b1: u8 = ((x / 0x100) % 256) as u8;
    let b2: u8 = ((x / 0x1_0000) % 256) as u8;
    let b3: u8 = (x / 0x100_0000) as u8;
    match order {
        ByteOrder::Little => {
            out.push(b0);
            out.push(b1);
            out.push(b2);
            out.push(b3);
        },
        ByteOrder::Big => {
            out.push(b3);
            out.push(b2);
            out.push(b1);
            out.push(b0);
        },
    }
    assert(out@ =~= old(out)@ + u32_bytes(x, order));
}

/// Reads the 16-bit word laid out in the given order at `at` and `at + 1`.
pub fn read_u16(bytes: &[u8], at: usize, order: ByteOrder) -> (x: u16)
    requires
        at + 2 <= bytes@.len(),
    ensures
        x == u16_of_bytes(bytes@[at as int], bytes@[at + 1], order),
{
    let b0: u16 = bytes[at] as u16;
    let b1: u16 = bytes[at + 1] as u16;
    match order {
        ByteOrder::Little => b0 + 256 * b1,
        ByteOrder::Big => b1 + 256 * b0,
    }
}

/// Reads the 32-bit word laid out in the given order at `at` to `at + 3`.
pub fn read_u32(bytes: &[u8], at: usize, order: ByteOrder) -> (x: u32)
    requires
        at + 4 <= bytes@.len(),
    ensures
        x == u32_of_bytes(
            bytes@[at as int],
            bytes@[at + 1],
            bytes@[at + 2],
            bytes@[at + 3],
            order,
        ),
{
    let b0: u32 = bytes[at] as u32;
    let b1: u32 = bytes[at + 1] as u32;
    let b2: u32 = bytes[at + 2] as u32;
    let b3: u32 = bytes[at + 3] as u32;
    match order {
        ByteOrder::Little => b0 + 0x100 * b1 + 0x1_0000 * b2 + 0x100_0000 * b3,
        ByteOrder::Big => b3 + 0x100 * b2 + 0x1_0000 * b1 + 0x100_0000 * b0,
    }
}

} // verus!
