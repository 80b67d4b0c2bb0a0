//! Small facts about the bit masks the address decoders use.

use vstd::prelude::*;

verus! {

/// Masking a 16-bit value keeps it under the mask's power of two.
pub proof fn lemma_u16_mask_bounds()
    by (bit_vector)
    ensures
        forall|x: u16| #[trigger] (x & 1) < 2,
        forall|x: u16| #[trigger] (x & 0x0007) < 8,
        forall|x: u16| #[trigger] (x & 0x001F) < 32,
        forall|x: u16| #[trigger] (x & 0x003F) < 64,
        forall|x: u16| #[trigger] (x & 0x00FF) < 256,
        forall|x: u16| x < 256 ==> #[trigger] (x & 0x00FF) == x,
        forall|x: u16| #[trigger] (x & 0x03FF) < 1024,
        forall|x: u16| #[trigger] (x & 0x07FF) < 2048,
        forall|x: u16| #[trigger] (x & 0x0FFF) < 4096,
        forall|x: u16| #[trigger] (x & 0x1FFF) < 8192,
        forall|x: u16| #[trigger] (x & 0x3FFF) < 16384,
        forall|x: u16| #[trigger] (x & 0x7FFF) < 32768,
        forall|x: u16| #[trigger] ((x & 0x1000) >> 12) < 2,
        forall|x: u16| #[trigger] (x >> 8) < 256,
{
}

/// Masking an 8-bit value keeps it under the mask's power of two.
pub proof fn lemma_u8_mask_bounds()
    by (bit_vector)
    ensures
        forall|x: u8| #[trigger] (x & 0x01) < 2,
        forall|x: u8| #[trigger] (x & 0x03) < 4,
        forall|x: u8| #[trigger] (x & 0x07) < 8,
        forall|x: u8| #[trigger] (x & 0x0F) < 16,
        forall|x: u8| #[trigger] (x & 0x1F) < 32,
        forall|x: u8| #[trigger] (x & 0x3F) < 64,
        forall|x: u8| x < 16 ==> #[trigger] (x & 0x0F) == x,
        forall|x: u8| #[trigger] (x & 0xFF) == x,
{
}

/// A bit of `x` under `mask` is set.
pub open spec fn bit_get(x: u8, mask: u8) -> bool {
    x & mask != 0
}

/// `x` with the bits under `mask` set or cleared.
pub open spec fn bit_put(x: u8, mask: u8, v: bool) -> u8 {
    if v {
        x | mask
    } else {
        x & !mask
    }
}

/// Setting or clearing one status bit changes that bit alone, for the
/// three PPUSTATUS bits.
pub proof fn lemma_bit_put()
    by (bit_vector)
    ensures
        forall|x: u8, v: bool| bit_get(#[trigger] bit_put(x, 0x20, v), 0x20) == v,
        forall|x: u8, v: bool| bit_get(#[trigger] bit_put(x, 0x20, v), 0x40) == bit_get(x, 0x40),
        forall|x: u8, v: bool| bit_get(#[trigger] bit_put(x, 0x20, v), 0x80) == bit_get(x, 0x80),
        forall|x: u8, v: bool| bit_get(#[trigger] bit_put(x, 0x40, v), 0x20) == bit_get(x, 0x20),
        forall|x: u8, v: bool| bit_get(#[trigger] bit_put(x, 0x40, v), 0x40) == v,
        forall|x: u8, v: bool| bit_get(#[trigger] bit_put(x, 0x40, v), 0x80) == bit_get(x, 0x80),
        forall|x: u8, v: bool| bit_get(#[trigger] bit_put(x, 0x80, v), 0x20) == bit_get(x, 0x20),
        forall|x: u8, v: bool| bit_get(#[trigger] bit_put(x, 0x80, v), 0x40) == bit_get(x, 0x40),
        forall|x: u8, v: bool| bit_get(#[trigger] bit_put(x, 0x80, v), 0x80) == v,
{
}

/// A flag bit just set reads back as set.
pub proof fn lemma_flag_set()
    by (bit_vector)
    ensures
        forall|x: u8| #[trigger] ((x | 0x04) & 0x04) != 0,
{
}

/// Masking, shifting or combining zero bytes yields zero.
pub proof fn lemma_zero_and()
    by (bit_vector)
    ensures
        forall|x: u8, y: u8| x == 0 ==> #[trigger] (x & y) == 0,
        forall|x: u8| x == 0 ==> #[trigger] (x << 1) == 0,
        forall|x: u8, y: u8| x == 0 && y == 0 ==> #[trigger] (x | y) == 0,
{
}

/// Shifting one more place composes, for small shift counts.
pub proof fn lemma_shr_step()
    by (bit_vector)
    ensures
        forall|x: u8, n: u8| n < 8 ==> #[trigger] ((x >> n) >> 1) == (x >> ((n + 1) as u8)),
        forall|x: u8, n: u8| n == 0 ==> #[trigger] (x >> n) == x,
{
}

/// Bound for a shifted tile index in a pattern-table address.
pub proof fn lemma_shl_bounds()
    by (bit_vector)
    ensures
        forall|x: u16| x < 256 ==> #[trigger] (x << 4) < 4096,
{
}

/// Bounds that keep an 11-bit timer period inside its range when its low
/// or high byte is rewritten, and nibble bounds for register decoding.
pub proof fn lemma_apu_write_bounds()
    by (bit_vector)
    ensures
        forall|d: u16, x: u8| d < 0x800 ==> #[trigger] ((d & 0xFF00) | x as u16) < 0x800,
        forall|d: u16, x: u8| #[trigger] ((d & 0x00FF) | (((x & 0x07) as u16) << 8)) < 0x800,
        forall|x: u8| #[trigger] (x >> 6) < 4,
        forall|x: u8| #[trigger] ((x & 0x70) >> 4) < 8,
{
}

/// The high byte of a little-endian pointer is recovered by masking.
pub proof fn lemma_ind_ptr()
    by (bit_vector)
    ensures
        forall|ph: u8, pl: u8| #[trigger] (((((ph as u16) << 8) | pl as u16) as u16) & 0xFF00)
            == ((ph as u16) << 8),
        forall|ph: u8, pl: u8| pl != 0xFF ==> #[trigger] ((((ph as u16) << 8)
            | pl as u16) as u16) < 0xFFFF,
{
}

/// A DMA source address splits into its page and offset, and masking to
/// the 2 KiB RAM mirror is reduction modulo 2048.
pub proof fn lemma_dma_addr()
    by (bit_vector)
    ensures
        forall|p: u8, a: u8| #[trigger] (((p as u16) << 8) | a as u16) == p as u16 * 256
            + a as u16,
        forall|x: u16| #[trigger] (x & 0x07FF) == x % 2048,
{
}

/// Distinct offsets stay distinct under the OAM index wrap.
pub proof fn lemma_mod_diff()
    ensures
        forall|b: int, i: int, j: int|
            0 <= i < 256 && 0 <= j < 256 && i != j && 0 <= b < 256 ==> #[trigger] ((b + i)
                % 256) != #[trigger] ((b + j) % 256),
{
    assert forall|b: int, i: int, j: int|
        0 <= i < 256 && 0 <= j < 256 && i != j && 0 <= b < 256 implies #[trigger] ((b + i)
        % 256) != #[trigger] ((b + j) % 256) by {
        if (b + i) % 256 == (b + j) % 256 {
            assert((b + i) % 256 == if b + i < 256 { b + i } else { b + i - 256 });
            assert((b + j) % 256 == if b + j < 256 { b + j } else { b + j - 256 });
        }
    }
}

} // verus!
