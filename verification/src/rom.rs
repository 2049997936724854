//! Cartridge ROM: a power-of-two byte image with wrap-masked reads and the
//! header fields that live in the final 544 bytes of the image.

use vstd::prelude::*;
use vstd::slice::slice_to_vec;

use crate::bits::{
    is_pow2_u32, lemma_pow2_mask_bound, lemma_pow2_mask_even, lemma_pow2_mask_wraps, wrap_add32,
};

verus! {

pub const MIN_ROM_SIZE: usize = 1024;

pub const MAX_ROM_SIZE: usize = 16 * 1024 * 1024;

/// Why a byte image was rejected as a ROM.
#[derive(Clone, Copy, Debug, PartialEq, Eq, Structural)]
pub enum RomError {
    BelowMinimum,
    AboveMaximum,
    NotPowerOfTwo,
}

/// What `String::push` appends. Relies on std's `String::push`, which
/// appends the given character to the end of the string.
pub assume_specification[ String::push ](s: &mut String, ch: char)
    ensures
        final(s)@ == old(s)@.push(ch),
;

/// What decoding a byte sequence as Windows-31J (Shift-JIS) yields, or
/// `None` where the bytes are not well-formed in that encoding. The result
/// depends on the bytes alone.
pub uninterp spec fn shift_jis_decoded(bytes: Seq<u8>) -> Option<Seq<char>>;

/// Relies on encoding's `WINDOWS_31J.decode` with the strict trap: a
/// table-driven codec whose result is a function of the input bytes alone;
/// with the strict trap it fails exactly on ill-formed input.
#[verifier::external_body]
fn decode_shift_jis(bytes: &Vec<u8>) -> (r: Option<String>)
    ensures
        match r {
            Some(s) => shift_jis_decoded(bytes@) == Some(s@),
            None => shift_jis_decoded(bytes@) is None,
        },
{
    match encoding::Encoding::decode(
        encoding::all::WINDOWS_31J,
        bytes,
        encoding::types::DecoderTrap::Strict,
    ) {
        Ok(s) => Some(s),
        Err(_) => None,
    }
}

/// The decimal digit character for `d`, which must be below ten.
pub open spec fn spec_decimal_digit(d: u8) -> char {
    (48 + d) as char
}

/// The decimal digit characters of `b`, most significant first, without
/// leading zeros.
pub open spec fn spec_u8_decimal(b: u8) -> Seq<char> {
    if b < 10 {
        seq![spec_decimal_digit(b)]
    } else if b < 100 {
        seq![spec_decimal_digit((b / 10) as u8), spec_decimal_digit((b % 10) as u8)]
    } else {
        seq![
            spec_decimal_digit((b / 100) as u8),
            spec_decimal_digit(((b / 10) % 10) as u8),
            spec_decimal_digit((b % 10) as u8),
        ]
    }
}

/// Append the decimal digits of `b` to `s`.
fn push_u8_decimal(s: &mut String, b: u8)
    ensures
        final(s)@ == old(s)@ + spec_u8_decimal(b),
{
    if b >= 100 {
        s.push((48 + b / 100) as char);
        s.push((48 + (b / 10) % 10) as char);
        s.push((48 + b % 10) as char);
        assert(final(s)@ =~= old(s)@ + spec_u8_decimal(b));
    } else if b >= 10 {
        s.push((48 + b / 10) as char);
        s.push((48 + b % 10) as char);
        assert(final(s)@ =~= old(s)@ + spec_u8_decimal(b));
    } else {
        s.push((48 + b) as char);
        assert(final(s)@ =~= old(s)@ + spec_u8_decimal(b));
    }
}

pub struct Rom {
    pub data: Vec<u8>,
}

impl Rom {
    pub open spec fn wf(&self) -> bool {
        &&& MIN_ROM_SIZE <= self.data@.len() <= MAX_ROM_SIZE
    &&& is_pow2_u32(self.data@.len() as u32)
    }

    pub open spec fn spec_size_u32(&self) -> u32 {
        self.data@.len() as u32
    }

    /// The index a given offset reaches after wrap masking.
    pub open spec fn spec_mask(&self, addr: u32) -> int {
        (addr & ((self.spec_size_u32() - 1) as u32)) as int
    }

    pub open spec fn spec_read_byte(&self, addr: u32) -> u8 {
        self.data@[self.spec_mask(addr)]
    }

    /// Little-endian halfword at the masked, bit-0-cleared offset.
    pub open spec fn spec_read_halfword(&self, addr: u32) -> u16 {
        let lo = self.spec_mask(addr & 0xfffffffe);
        (self.data@[lo] as u16) | ((self.data@[lo + 1] as u16) << 8)
    }

    /// The twenty header bytes that hold the game's name.
    pub open spec fn spec_name_bytes(&self) -> Seq<u8> {
        Seq::new(20, |i: int| self.spec_read_byte((0xfffffde0 + i) as u32))
    }

    /// Accept a byte image as a ROM exactly when its length is a power of
    /// two between the minimum and maximum sizes.
    pub fn from_bytes(bytes: &[u8]) -> (r: Result<Rom, RomError>)
        ensures
            match r {
                Ok(rom) => rom.data@ == bytes@ && rom.wf(),
                Err(RomError::BelowMinimum) => bytes@.len() < MIN_ROM_SIZE,
                Err(RomError::AboveMaximum) => bytes@.len() > MAX_ROM_SIZE,
                Err(RomError::NotPowerOfTwo) => MIN_ROM_SIZE <= bytes@.len() <= MAX_ROM_SIZE
                    && !is_pow2_u32(bytes@.len() as u32),
            },
    {
        let size = bytes.len();
        if size < MIN_ROM_SIZE {
            return Err(RomError::BelowMinimum);
        }
        if size > MAX_ROM_SIZE {
            return Err(RomError::AboveMaximum);
        }
        let size32 = size as u32;
        if (size32 & (size32 - 1)) != 0 {
            return Err(RomError::NotPowerOfTwo);
        }
        Ok(Rom { data: slice_to_vec(bytes) })
    }

    pub fn size(&self) -> (r: usize)
        ensures
            r == self.data@.len(),
    {
        self.data.len()
    }

    fn mask_addr(&self, addr: u32) -> (r: usize)
        requires
            self.wf(),
        ensures
            r == self.spec_mask(addr),
            r < self.data@.len(),
    {
        let size32 = self.data.len() as u32;
        proof {
            lemma_pow2_mask_bound(addr, size32);
        }
        (addr & (size32 - 1)) as usize
    }

    pub fn read_byte(&self, addr: u32) -> (r: u8)
        requires
            self.wf(),
        ensures
            r == self.spec_read_byte(addr),
    {
        let masked = self.mask_addr(addr);
        self.data[masked]
    }

    pub fn read_halfword(&self, addr: u32) -> (r: u16)
        requires
            self.wf(),
        ensures
            r == self.spec_read_halfword(addr),
    {
        let cleared = addr & 0xfffffffe;
        let masked = self.mask_addr(cleared);
        proof {
            lemma_pow2_mask_even(addr, self.spec_size_u32());
        }
        (self.data[masked] as u16) | ((self.data[masked + 1] as u16) << 8)
    }

    /// The game's name from the header, decoded as Shift-JIS; `None` where
    /// those bytes are not well-formed Shift-JIS.
    pub fn name(&self) -> (r: Option<String>)
        requires
            self.wf(),
        ensures
            match r {
                Some(s) => shift_jis_decoded(self.spec_name_bytes()) == Some(s@),
                None => shift_jis_decoded(self.spec_name_bytes()) is None,
            },
    {
        let mut bytes: Vec<u8> = Vec::new();
        let mut offset: u32 = 0xfffffde0;
        while offset < 0xfffffdf4
            invariant
                self.wf(),
                0xfffffde0 <= offset <= 0xfffffdf4,
                bytes@.len() == offset - 0xfffffde0,
                forall|j: int|
                    0 <= j < bytes@.len() ==> bytes@[j] == self.spec_read_byte(
                        (0xfffffde0 + j) as u32,
                    ),
            decreases 0xfffffdf4u32 - offset,
        {
            bytes.push(self.read_byte(offset));
            offset = offset + 1;
        }
        proof {
            assert(bytes@ =~= self.spec_name_bytes());
        }
        decode_shift_jis(&bytes)
    }

    /// The two maker-code characters from the header.
    pub fn maker_code(&self) -> (r: String)
        requires
            self.wf(),
        ensures
            r@ == seq![
                self.spec_read_byte(0xfffffdf9) as char,
                self.spec_read_byte(0xfffffdfa) as char,
            ],
    {
        let mut mc = String::new();
        mc.push(self.read_byte(0xfffffdf9) as char);
        mc.push(self.read_byte(0xfffffdfa) as char);
        proof {
            assert(mc@ =~= seq![
                self.spec_read_byte(0xfffffdf9) as char,
                self.spec_read_byte(0xfffffdfa) as char,
            ]);
        }
        mc
    }

    /// The four game-code characters from the header.
    pub fn game_code(&self) -> (r: String)
        requires
            self.wf(),
        ensures
            r@ == seq![
                self.spec_read_byte(0xfffffdfb) as char,
                self.spec_read_byte(0xfffffdfc) as char,
                self.spec_read_byte(0xfffffdfd) as char,
                self.spec_read_byte(0xfffffdfe) as char,
            ],
    {
        let mut gc = String::new();
        gc.push(self.read_byte(0xfffffdfb) as char);
        gc.push(self.read_byte(0xfffffdfc) as char);
        gc.push(self.read_byte(0xfffffdfd) as char);
        gc.push(self.read_byte(0xfffffdfe) as char);
        proof {
            assert(gc@ =~= seq![
                self.spec_read_byte(0xfffffdfb) as char,
                self.spec_read_byte(0xfffffdfc) as char,
                self.spec_read_byte(0xfffffdfd) as char,
                self.spec_read_byte(0xfffffdfe) as char,
            ]);
        }
        gc
    }

    /// The game's version, printed as `1.` followed by the version byte in
    /// decimal.
    pub fn game_version(&self) -> (r: String)
        requires
            self.wf(),
        ensures
            r@ == seq!['1', '.'] + spec_u8_decimal(self.spec_read_byte(0xfffffdff)),
    {
        let b = self.read_byte(0xfffffdff);
        let mut v = String::new();
        v.push('1');
        v.push('.');
        proof {
            assert(v@ =~= seq!['1', '.']);
        }
        push_u8_decimal(&mut v, b);
        v
    }

    /// Reading one image-size past any offset reads the same byte: the
    /// address wraps within the ROM.
    pub proof fn lemma_read_byte_wraps(&self, offset: u32)
        requires
            self.wf(),
        ensures
            self.spec_read_byte(wrap_add32(offset, self.spec_size_u32())) == self.spec_read_byte(
                offset,
            ),
    {
        lemma_pow2_mask_wraps(offset, self.spec_size_u32());
    }
}

} // verus!
