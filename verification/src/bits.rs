//! Bit-level helpers: the integer operations bitfield accessors rest on,
//! and value-level bitfield views.
//!
//! A bitfield accessor works on a storage word that was read from a
//! structure; reading and writing the word itself is memory access and
//! stays outside this library.

use vstd::prelude::*;

verus! {

/// The bit operations a bitfield needs from its storage integer.  Each
/// operation's meaning is pinned by a spec function that the implementing
/// type defines as the literal bit expression.
pub trait BitInteger: Copy + Sized {
    /// How many bits the type holds.
    spec fn width_def() -> nat;

    /// What `shr` returns.
    spec fn shr_def(self, v: usize) -> Self;

    /// What `mask` returns.
    spec fn mask_def(self, v: usize) -> Self;

    /// What `ror` returns.
    spec fn ror_def(self, v: usize) -> Self;

    /// What `rol` returns.
    spec fn rol_def(self, v: usize) -> Self;

    /// What `set` returns.
    spec fn set_def(self, v: Self, l: usize) -> Self;

    /// Shifts right by `v` bits.
    fn shr(self, v: usize) -> (r: Self)
        requires
            v < Self::width_def(),
        ensures
            r == self.shr_def(v),
    ;

    /// Keeps only the low `v` bits; `v` at or above the width keeps all.
    fn mask(self, v: usize) -> (r: Self)
        ensures
            r == self.mask_def(v),
    ;

    /// Rotates right by `v` bits, `v` taken modulo the width.
    fn ror(self, v: usize) -> (r: Self)
        ensures
            r == self.ror_def(v),
    ;

    /// Rotates left by `v` bits, `v` taken modulo the width.
    fn rol(self, v: usize) -> (r: Self)
        ensures
            r == self.rol_def(v),
    ;

    /// Replaces the low `l` bits with those of `v`.
    fn set(self, v: Self, l: usize) -> (r: Self)
        ensures
            r == self.set_def(v, l),
    ;
}

/// The low `l` bits of a u8, all set.
pub open spec fn ones_u8(l: usize) -> u8 {
    if l >= 8 {
        0xffu8
    } else {
        (((1 as u8) << (l as u8)) - 1) as u8
    }
}

impl BitInteger for u8 {
    open spec fn width_def() -> nat {
        8
    }

    open spec fn shr_def(self, v: usize) -> u8 {
        if v >= 8 {
            0 as u8
        } else {
            self >> (v as u8)
        }
    }

    open spec fn mask_def(self, v: usize) -> u8 {
        self & ones_u8(v)
    }

    open spec fn ror_def(self, v: usize) -> u8 {
        if v % 8 == 0 {
            self
        } else {
            (self >> ((v % 8) as u8)) | (self << ((8 - v % 8) as u8))
        }
    }

    open spec fn rol_def(self, v: usize) -> u8 {
        if v % 8 == 0 {
            self
        } else {
            (self << ((v % 8) as u8)) | (self >> ((8 - v % 8) as u8))
        }
    }

    open spec fn set_def(self, v: u8, l: usize) -> u8 {
        (self & !ones_u8(l)) | (v & ones_u8(l))
    }

    fn shr(self, v: usize) -> (r: u8) {
        self >> (v as u8)
    }

    fn mask(self, v: usize) -> (r: u8) {
        if v >= 8 {
            proof {
                assert(self & 0xffu8 == self) by (bit_vector);
            }
            self
        } else {
            let s = v as u8;
            proof {
                assert(((1 as u8) << s) >= 1) by (bit_vector)
                    requires
                        s < 8,
                ;
            }
            let m = ((1 as u8) << s) - 1;
            self & m
        }
    }

    fn ror(self, v: usize) -> (r: u8) {
        let s = v % 8;
        if s == 0 {
            self
        } else {
            (self >> (s as u8)) | (self << ((8 - s) as u8))
        }
    }

    fn rol(self, v: usize) -> (r: u8) {
        let s = v % 8;
        if s == 0 {
            self
        } else {
            (self << (s as u8)) | (self >> ((8 - s) as u8))
        }
    }

    fn set(self, v: u8, l: usize) -> (r: u8) {
        let m = if l >= 8 {
            0xffu8
        } else {
            let s = l as u8;
            proof {
                assert(((1 as u8) << s) >= 1) by (bit_vector)
                    requires
                        s < 8,
                ;
            }
            ((1 as u8) << s) - 1
        };
        (self & !m) | (v & m)
    }
}

/// The low `l` bits of a u16, all set.
pub open spec fn ones_u16(l: usize) -> u16 {
    if l >= 16 {
        0xffffu16
    } else {
        (((1 as u16) << (l as u16)) - 1) as u16
    }
}

impl BitInteger for u16 {
    open spec fn width_def() -> nat {
        16
    }

    open spec fn shr_def(self, v: usize) -> u16 {
        if v >= 16 {
            0 as u16
        } else {
            self >> (v as u16)
        }
    }

    open spec fn mask_def(self, v: usize) -> u16 {
        self & ones_u16(v)
    }

    open spec fn ror_def(self, v: usize) -> u16 {
        if v % 16 == 0 {
            self
        } else {
            (self >> ((v % 16) as u16)) | (self << ((16 - v % 16) as u16))
        }
    }

    open spec fn rol_def(self, v: usize) -> u16 {
        if v % 16 == 0 {
            self
        } else {
            (self << ((v % 16) as u16)) | (self >> ((16 - v % 16) as u16))
        }
    }

    open spec fn set_def(self, v: u16, l: usize) -> u16 {
        (self & !ones_u16(l)) | (v & ones_u16(l))
    }

    fn shr(self, v: usize) -> (r: u16) {
        self >> (v as u16)
    }

    fn mask(self, v: usize) -> (r: u16) {
        if v >= 16 {
            proof {
                assert(self & 0xffffu16 == self) by (bit_vector);
            }
            self
        } else {
            let s = v as u16;
            proof {
                assert(((1 as u16) << s) >= 1) by (bit_vector)
                    requires
                        s < 16,
                ;
            }
            let m = ((1 as u16) << s) - 1;
            self & m
        }
    }

    fn ror(self, v: usize) -> (r: u16) {
        let s = v % 16;
        if s == 0 {
            self
        } else {
            (self >> (s as u16)) | (self << ((16 - s) as u16))
        }
    }

    fn rol(self, v: usize) -> (r: u16) {
        let s = v % 16;
        if s == 0 {
            self
        } else {
            (self << (s as u16)) | (self >> ((16 - s) as u16))
        }
    }

    fn set(self, v: u16, l: usize) -> (r: u16) {
        let m = if l >= 16 {
            0xffffu16
        } else {
            let s = l as u16;
            proof {
                assert(((1 as u16) << s) >= 1) by (bit_vector)
                    requires
                        s < 16,
                ;
            }
            ((1 as u16) << s) - 1
        };
        (self & !m) | (v & m)
    }
}

/// The low `l` bits of a u32, all set.
pub open spec fn ones_u32(l: usize) -> u32 {
    if l >= 32 {
        0xffff_ffffu32
    } else {
        (((1 as u32) << (l as u32)) - 1) as u32
    }
}

impl BitInteger for u32 {
    open spec fn width_def() -> nat {
        32
    }

    open spec fn shr_def(self, v: usize) -> u32 {
        if v >= 32 {
            0 as u32
        } else {
            self >> (v as u32)
        }
    }

    open spec fn mask_def(self, v: usize) -> u32 {
        self & ones_u32(v)
    }

    open spec fn ror_def(self, v: usize) -> u32 {
        if v % 32 == 0 {
            self
        } else {
            (self >> ((v % 32) as u32)) | (self << ((32 - v % 32) as u32))
        }
    }

    open spec fn rol_def(self, v: usize) -> u32 {
        if v % 32 == 0 {
            self
        } else {
            (self << ((v % 32) as u32)) | (self >> ((32 - v % 32) as u32))
        }
    }

    open spec fn set_def(self, v: u32, l: usize) -> u32 {
        (self & !ones_u32(l)) | (v & ones_u32(l))
    }

    fn shr(self, v: usize) -> (r: u32) {
        self >> (v as u32)
    }

    fn mask(self, v: usize) -> (r: u32) {
        if v >= 32 {
            proof {
                assert(self & 0xffff_ffffu32 == self) by (bit_vector);
            }
            self
        } else {
            let s = v as u32;
            proof {
                assert(((1 as u32) << s) >= 1) by (bit_vector)
                    requires
                        s < 32,
                ;
            }
            let m = ((1 as u32) << s) - 1;
            self & m
        }
    }

    fn ror(self, v: usize) -> (r: u32) {
        let s = v % 32;
        if s == 0 {
            self
        } else {
            (self >> (s as u32)) | (self << ((32 - s) as u32))
        }
    }

    fn rol(self, v: usize) -> (r: u32) {
        let s = v % 32;
        if s == 0 {
            self
        } else {
            (self << (s as u32)) | (self >> ((32 - s) as u32))
        }
    }

    fn set(self, v: u32, l: usize) -> (r: u32) {
        let m = if l >= 32 {
            0xffff_ffffu32
        } else {
            let s = l as u32;
            proof {
                assert(((1 as u32) << s) >= 1) by (bit_vector)
                    requires
                        s < 32,
                ;
            }
            ((1 as u32) << s) - 1
        };
        (self & !m) | (v & m)
    }
}

/// The low `l` bits of a u64, all set.
pub open spec fn ones_u64(l: usize) -> u64 {
    if l >= 64 {
        0xffff_ffff_ffff_ffffu64
    } else {
        (((1 as u64) << (l as u64)) - 1) as u64
    }
}

impl BitInteger for u64 {
    open spec fn width_def() -> nat {
        64
    }

    open spec fn shr_def(self, v: usize) -> u64 {
        if v >= 64 {
            0 as u64
        } else {
            self >> (v as u64)
        }
    }

    open spec fn mask_def(self, v: usize) -> u64 {
        self & ones_u64(v)
    }

    open spec fn ror_def(self, v: usize) -> u64 {
        if v % 64 == 0 {
            self
        } else {
            (self >> ((v % 64) as u64)) | (self << ((64 - v % 64) as u64))
        }
    }

    open spec fn rol_def(self, v: usize) -> u64 {
        if v % 64 == 0 {
            self
        } else {
            (self << ((v % 64) as u64)) | (self >> ((64 - v % 64) as u64))
        }
    }

    open spec fn set_def(self, v: u64, l: usize) -> u64 {
        (self & !ones_u64(l)) | (v & ones_u64(l))
    }

    fn shr(self, v: usize) -> (r: u64) {
        self >> (v as u64)
    }

    fn mask(self, v: usize) -> (r: u64) {
        if v >= 64 {
            proof {
                assert(self & 0xffff_ffff_ffff_ffffu64 == self) by (bit_vector);
            }
            self
        } else {
            let s = v as u64;
            proof {
                assert(((1 as u64) << s) >= 1) by (bit_vector)
                    requires
                        s < 64,
                ;
            }
            let m = ((1 as u64) << s) - 1;
            self & m
        }
    }

    fn ror(self, v: usize) -> (r: u64) {
        let s = v % 64;
        if s == 0 {
            self
        } else {
            (self >> (s as u64)) | (self << ((64 - s) as u64))
        }
    }

    fn rol(self, v: usize) -> (r: u64) {
        let s = v % 64;
        if s == 0 {
            self
        } else {
            (self << (s as u64)) | (self >> ((64 - s) as u64))
        }
    }

    fn set(self, v: u64, l: usize) -> (r: u64) {
        let m = if l >= 64 {
            0xffff_ffff_ffff_ffffu64
        } else {
            let s = l as u64;
            proof {
                assert(((1 as u64) << s) >= 1) by (bit_vector)
                    requires
                        s < 64,
                ;
            }
            ((1 as u64) << s) - 1
        };
        (self & !m) | (v & m)
    }
}

/// The low `l` bits of a u128, all set.
pub open spec fn ones_u128(l: usize) -> u128 {
    if l >= 128 {
        0xffff_ffff_ffff_ffff_ffff_ffff_ffff_ffffu128
    } else {
        (((1 as u128) << (l as u128)) - 1) as u128
    }
}

impl BitInteger for u128 {
    open spec fn width_def() -> nat {
        128
    }

    open spec fn shr_def(self, v: usize) -> u128 {
        if v >= 128 {
            0 as u128
        } else {
            self >> (v as u128)
        }
    }

    open spec fn mask_def(self, v: usize) -> u128 {
        self & ones_u128(v)
    }

    open spec fn ror_def(self, v: usize) -> u128 {
        if v % 128 == 0 {
            self
        } else {
            (self >> ((v % 128) as u128)) | (self << ((128 - v % 128) as u128))
        }
    }

    open spec fn rol_def(self, v: usize) -> u128 {
        if v % 128 == 0 {
            self
        } else {
            (self << ((v % 128) as u128)) | (self >> ((128 - v % 128) as u128))
        }
    }

    open spec fn set_def(self, v: u128, l: usize) -> u128 {
        (self & !ones_u128(l)) | (v & ones_u128(l))
    }

    fn shr(self, v: usize) -> (r: u128) {
        self >> (v as u128)
    }

    fn mask(self, v: usize) -> (r: u128) {
        if v >= 128 {
            proof {
                assert(self & 0xffff_ffff_ffff_ffff_ffff_ffff_ffff_ffffu128 == self) by (bit_vector);
            }
            self
        } else {
            let s = v as u128;
            proof {
                assert(((1 as u128) << s) >= 1) by (bit_vector)
                    requires
                        s < 128,
                ;
            }
            let m = ((1 as u128) << s) - 1;
            self & m
        }
    }

    fn ror(self, v: usize) -> (r: u128) {
        let s = v % 128;
        if s == 0 {
            self
        } else {
            (self >> (s as u128)) | (self << ((128 - s) as u128))
        }
    }

    fn rol(self, v: usize) -> (r: u128) {
        let s = v % 128;
        if s == 0 {
            self
        } else {
            (self << (s as u128)) | (self >> ((128 - s) as u128))
        }
    }

    fn set(self, v: u128, l: usize) -> (r: u128) {
        let m = if l >= 128 {
            0xffff_ffff_ffff_ffff_ffff_ffff_ffff_ffffu128
        } else {
            let s = l as u128;
            proof {
                assert(((1 as u128) << s) >= 1) by (bit_vector)
                    requires
                        s < 128,
                ;
            }
            ((1 as u128) << s) - 1
        };
        (self & !m) | (v & m)
    }
}

/// An immutable view of a bitfield: the storage word it was read from,
/// exposing the `L` bits that start `O` bits in.
pub struct BitField<I, const O: usize, const L: usize> where I: BitInteger {
    word: I,
}

impl<I, const O: usize, const L: usize> BitField<I, O, L> where I: BitInteger {
    /// The storage word.
    pub closed spec fn spec_word(self) -> I {
        self.word
    }

    /// Creates a bitfield view over a storage word.
    pub fn from_bits(word: I) -> (r: BitField<I, O, L>)
        ensures
            r.spec_word() == word,
    {
        BitField { word }
    }

    /// The value of this bitfield: the word shifted down to the field's
    /// start and cut to the field's length.
    pub fn get(&self) -> (r: I)
        requires
            O < I::width_def(),
        ensures
            r == self.spec_word().shr_def(O).mask_def(L),
    {
        self.word.shr(O).mask(L)
    }
}

/// A mutable view of a bitfield over a storage word; the caller writes the
/// word back to where it came from.
pub struct BitFieldMut<I, const O: usize, const L: usize> where I: BitInteger {
    word: I,
}

impl<I, const O: usize, const L: usize> BitFieldMut<I, O, L> where I: BitInteger {
    /// The storage word.
    pub closed spec fn spec_word(self) -> I {
        self.word
    }

    /// Creates a mutable bitfield view over a storage word.
    pub fn from_bits(word: I) -> (r: BitFieldMut<I, O, L>)
        ensures
            r.spec_word() == word,
    {
        BitFieldMut { word }
    }

    /// The storage word with all changes applied, to be written back.
    pub fn bits(&self) -> (r: I)
        ensures
            r == self.spec_word(),
    {
        self.word
    }

    /// The value of this bitfield.
    pub fn get(&self) -> (r: I)
        requires
            O < I::width_def(),
        ensures
            r == self.spec_word().shr_def(O).mask_def(L),
    {
        self.word.shr(O).mask(L)
    }

    /// Assigns a new value to the bitfield: the word is rotated so the
    /// field sits at the bottom, its `L` bits are replaced, and the word is
    /// rotated back.
    pub fn set(&mut self, value: I)
        ensures
            final (self).spec_word() == old(self).spec_word().ror_def(O).set_def(
                value,
                L,
            ).rol_def(O),
    {
        self.word = self.word.ror(O).set(value, L).rol(O);
    }
}

} // verus!
