//! Validity and copying of label text.
//!
//! A label crosses the boundary as NUL-terminated UTF-8, so the stored bytes
//! must be valid UTF-8, free of embedded NUL, and short enough to leave room
//! for the terminator. The check is written and verified here against the
//! UTF-8 encoding specification in `vstd::utf8`.

use vstd::prelude::*;
use vstd::utf8::is_continuation_byte;
use vstd::utf8::is_leading_byte_width_1;
use vstd::utf8::is_leading_byte_width_2;
use vstd::utf8::is_leading_byte_width_3;
use vstd::utf8::is_leading_byte_width_4;
use vstd::utf8::length_of_first_scalar;
use vstd::utf8::pop_first_scalar;
use vstd::utf8::valid_first_scalar;
use vstd::utf8::valid_utf8;

verus! {

/// Bytes fit for the label slot: valid UTF-8, no embedded NUL, and short
/// enough that the terminating NUL still fits in an addressable buffer.
pub open spec fn label_wf(bytes: Seq<u8>) -> bool {
    &&& valid_utf8(bytes)
    &&& forall|i: int| 0 <= i < bytes.len() ==> bytes[i] != 0
    &&& bytes.len() < usize::MAX
}

/// True exactly when no byte of `bytes` is NUL.
pub fn has_no_nul(bytes: &Vec<u8>) -> (r: bool)
    ensures
        r == (forall|i: int| 0 <= i < bytes@.len() ==> bytes@[i] != 0),
{
    let n = bytes.len();
    let mut i: usize = 0;
    while i < n
        invariant
            n == bytes@.len(),
            i <= n,
            forall|j: int| 0 <= j < i ==> bytes@[j] != 0,
        decreases n - i,
    {
        if bytes[i] == 0 {
            return false;
        }
        i += 1;
    }
    true
}

/// True exactly when `bytes` form a valid UTF-8 encoding.
///
/// The loop walks one encoded scalar at a time, holding on to the fact that
/// validity of the whole sequence is validity of the suffix not yet read.
pub fn is_valid_utf8(bytes: &Vec<u8>) -> (r: bool)
    ensures
        r == valid_utf8(bytes@),
{
    let n = bytes.len();
    let mut i: usize = 0;
    proof {
        assert(bytes@.skip(0) =~= bytes@);
    }
    while i < n
        invariant
            n == bytes@.len(),
            i <= n,
            valid_utf8(bytes@) == valid_utf8(bytes@.skip(i as int)),
        decreases n - i,
    {
        let ghost suf = bytes@.skip(i as int);
        proof {
            assert(suf.len() == n - i);
            assert(suf[0] == bytes@[i as int]);
        }
        let b0 = bytes[i];
        let rem = n - i;
        if b0 < 0x80 {
            proof {
                assert(is_leading_byte_width_1(suf[0]));
                assert(((b0 & 0x7f) as u32) < 0xd800) by (bit_vector);
                assert(valid_first_scalar(suf));
                assert(length_of_first_scalar(suf) == 1);
                assert(pop_first_scalar(suf) =~= bytes@.skip(i + 1));
            }
            i += 1;
        } else if b0 < 0xc0 {
            // A stray continuation byte can lead no encoding.
            proof {
                assert(!is_leading_byte_width_1(suf[0]));
                assert(!is_leading_byte_width_2(suf[0]));
                assert(!is_leading_byte_width_3(suf[0]));
                assert(!is_leading_byte_width_4(suf[0]));
                assert(!valid_first_scalar(suf));
            }
            return false;
        } else if b0 < 0xe0 {
            if rem < 2 {
                proof {
                    assert(!valid_first_scalar(suf));
                }
                return false;
            }
            let b1 = bytes[i + 1];
            proof {
                assert(suf[1] == b1);
            }
            if !(0x80 <= b1 && b1 < 0xc0) {
                proof {
                    assert(!is_continuation_byte(suf[1]));
                    assert(!valid_first_scalar(suf));
                }
                return false;
            }
            let cp: u32 = (((b0 & 0x1f) as u32) << 6u32) | ((b1 & 0x3f) as u32);
            if cp < 0x80 {
                // Overlong two-byte form.
                proof {
                    assert(!valid_first_scalar(suf));
                }
                return false;
            }
            proof {
                assert((((b0 & 0x1f) as u32) << 6u32) | ((b1 & 0x3f) as u32) < 0xd800)
                    by (bit_vector);
                assert(valid_first_scalar(suf));
                assert(length_of_first_scalar(suf) == 2);
                assert(pop_first_scalar(suf) =~= bytes@.skip(i + 2));
            }
            i += 2;
        } else if b0 < 0xf0 {
            if rem < 3 {
                proof {
                    assert(!valid_first_scalar(suf));
                }
                return false;
            }
            let b1 = bytes[i + 1];
            let b2 = bytes[i + 2];
            proof {
                assert(suf[1] == b1);
                assert(suf[2] == b2);
            }
            if !(0x80 <= b1 && b1 < 0xc0) || !(0x80 <= b2 && b2 < 0xc0) {
                proof {
                    assert(!valid_first_scalar(suf));
                }
                return false;
            }
            let cp: u32 = (((b0 & 0x0f) as u32) << 12u32) | (((b1 & 0x3f) as u32) << 6u32) | ((b2
                & 0x3f) as u32);
            if cp < 0x800 {
                // Overlong three-byte form.
                proof {
                    assert(!valid_first_scalar(suf));
                }
                return false;
            }
            if 0xd800 <= cp && cp <= 0xdfff {
                // Surrogate range.
                proof {
                    assert(!valid_first_scalar(suf));
                }
                return false;
            }
            proof {
                assert(valid_first_scalar(suf));
                assert(length_of_first_scalar(suf) == 3);
                assert(pop_first_scalar(suf) =~= bytes@.skip(i + 3));
            }
            i += 3;
        } else if b0 < 0xf8 {
            if rem < 4 {
                proof {
                    assert(!valid_first_scalar(suf));
                }
                return false;
            }
            let b1 = bytes[i + 1];
            let b2 = bytes[i + 2];
            let b3 = bytes[i + 3];
            proof {
                assert(suf[1] == b1);
                assert(suf[2] == b2);
                assert(suf[3] == b3);
            }
            if !(0x80 <= b1 && b1 < 0xc0) || !(0x80 <= b2 && b2 < 0xc0) || !(0x80 <= b3 && b3
                < 0xc0) {
                proof {
                    assert(!valid_first_scalar(suf));
                }
                return false;
            }
            let cp: u32 = (((b0 & 0x07) as u32) << 18u32) | (((b1 & 0x3f) as u32) << 12u32) | (((b2
                & 0x3f) as u32) << 6u32) | ((b3 & 0x3f) as u32);
            if cp < 0x10000 || cp > 0x10ffff {
                // Overlong four-byte form, or beyond the scalar range.
                proof {
                    assert(!valid_first_scalar(suf));
                }
                return false;
            }
            proof {
                assert(valid_first_scalar(suf));
                assert(length_of_first_scalar(suf) == 4);
                assert(pop_first_scalar(suf) =~= bytes@.skip(i + 4));
            }
            i += 4;
        } else {
            // 0xf8 and above lead no encoding.
            proof {
                assert(!is_leading_byte_width_4(suf[0]));
                assert(!valid_first_scalar(suf));
            }
            return false;
        }
    }
    proof {
        assert(bytes@.skip(n as int) =~= Seq::<u8>::empty());
    }
    true
}

/// Decides well-formedness of raw label bytes handed in by a caller.
pub fn check_label_bytes(bytes: &Vec<u8>) -> (r: bool)
    ensures
        r == label_wf(bytes@),
{
    if bytes.len() >= usize::MAX {
        return false;
    }
    if !has_no_nul(bytes) {
        return false;
    }
    is_valid_utf8(bytes)
}

/// A fresh copy of the bytes.
pub fn copy_bytes(bytes: &Vec<u8>) -> (r: Vec<u8>)
    ensures
        r@ == bytes@,
{
    let n = bytes.len();
    let mut out: Vec<u8> = Vec::new();
    let mut i: usize = 0;
    while i < n
        invariant
            n == bytes@.len(),
            i <= n,
            out@ == bytes@.take(i as int),
        decreases n - i,
    {
        out.push(bytes[i]);
        proof {
            assert(bytes@.take(i as int).push(bytes@[i as int]) =~= bytes@.take(i + 1));
        }
        i += 1;
    }
    proof {
        assert(bytes@.take(n as int) =~= bytes@);
    }
    out
}

/// The label bytes with the terminating NUL appended, freshly allocated:
/// exactly what is copied into an adequately sized caller buffer.
pub fn terminated_copy(bytes: &Vec<u8>) -> (r: Vec<u8>)
    requires
        bytes@.len() < usize::MAX,
    ensures
        r@ == bytes@.push(0u8),
{
    let mut out = copy_bytes(bytes);
    out.push(0);
    out
}

} // verus!
