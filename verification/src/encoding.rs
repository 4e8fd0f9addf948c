//! Executable UTF-8 validation, verified against `vstd::utf8::valid_utf8`.
//!
//! Host strings are byte strings; only those that form valid UTF-8 may become
//! text values of the storage layer.  The checker walks the bytes one encoded
//! scalar at a time, rejecting malformed leading or continuation bytes,
//! overlong encodings, surrogates, and out-of-range codepoints.

use vstd::prelude::*;
use vstd::utf8::*;

verus! {

/// Advancing past one well-formed scalar preserves validity of the rest.
proof fn lemma_utf8_step(full: Seq<u8>, i: int, w: int)
    requires
        0 <= i,
        i + w <= full.len(),
        valid_first_scalar(full.skip(i)),
        length_of_first_scalar(full.skip(i)) == w,
    ensures
        valid_utf8(full.skip(i)) <==> valid_utf8(full.skip(i + w)),
{
    let suf = full.skip(i);
    assert(pop_first_scalar(suf) =~= full.skip(i + w));
}

/// A suffix that does not begin with a well-formed scalar is not valid UTF-8.
proof fn lemma_utf8_fail(full: Seq<u8>, i: int)
    requires
        0 <= i < full.len(),
        !valid_first_scalar(full.skip(i)),
    ensures
        !valid_utf8(full.skip(i)),
{
    assert(full.skip(i).len() > 0);
}

/// True exactly when `bytes` is a valid UTF-8 encoding.
pub fn check_utf8(bytes: &Vec<u8>) -> (r: bool)
    ensures
        r == valid_utf8(bytes@),
{
    let n = bytes.len();
    let mut i: usize = 0;
    proof {
        assert(bytes@.skip(0) =~= bytes@);
    }
    while i < n
        invariant
            i <= n,
            n == bytes@.len(),
            valid_utf8(bytes@) <==> valid_utf8(bytes@.skip(i as int)),
        decreases n - i,
    {
        let ghost suf = bytes@.skip(i as int);
        let rem = n - i;
        let b0 = bytes[i];
        proof {
            assert(suf.len() == n - i);
            assert(suf[0] == bytes@[i as int]);
        }
        if b0 < 0x80 {
            proof {
                assert((b0 & 0x7f) as u32 <= 0x7f) by (bit_vector);
                assert(valid_first_scalar(suf));
                lemma_utf8_step(bytes@, i as int, 1);
            }
            i = i + 1;
        } else if 0xc0 <= b0 && b0 <= 0xdf {
            if rem < 2 || !(0x80 <= bytes[i + 1] && bytes[i + 1] <= 0xbf) {
                proof {
                    lemma_utf8_fail(bytes@, i as int);
                }
                return false;
            }
            let b1 = bytes[i + 1];
            proof {
                assert(suf[1] == bytes@[i + 1]);
            }
            let cp: u32 = (((b0 & 0x1f) as u32) << 6) | ((b1 & 0x3f) as u32);
            proof {
                assert(cp == (((b0 & 0x1f) as u32) << 6) | ((b1 & 0x3f) as u32) ==> cp
                    <= 0x7ff) by (bit_vector);
                assert(decode_first_codepoint(suf) == cp);
            }
            if cp < 0x80 {
                proof {
                    lemma_utf8_fail(bytes@, i as int);
                }
                return false;
            }
            proof {
                assert(valid_first_scalar(suf));
                lemma_utf8_step(bytes@, i as int, 2);
            }
            i = i + 2;
        } else if 0xe0 <= b0 && b0 <= 0xef {
            if rem < 3 || !(0x80 <= bytes[i + 1] && bytes[i + 1] <= 0xbf) || !(0x80 <= bytes[i + 2]
                && bytes[i + 2] <= 0xbf) {
                proof {
                    lemma_utf8_fail(bytes@, i as int);
                }
                return false;
            }
            let b1 = bytes[i + 1];
            let b2 = bytes[i + 2];
            proof {
                assert(suf[1] == bytes@[i + 1]);
                assert(suf[2] == bytes@[i + 2]);
            }
            let cp: u32 = (((b0 & 0x0f) as u32) << 12) | (((b1 & 0x3f) as u32) << 6) | ((b2
                & 0x3f) as u32);
            proof {
                assert(cp == (((b0 & 0x0f) as u32) << 12) | (((b1 & 0x3f) as u32) << 6) | ((b2
                    & 0x3f) as u32) ==> cp <= 0xffff) by (bit_vector);
                assert(decode_first_codepoint(suf) == cp);
            }
            if cp < 0x800 || (0xd800 <= cp && cp <= 0xdfff) {
                proof {
                    lemma_utf8_fail(bytes@, i as int);
                }
                return false;
            }
            proof {
                assert(valid_first_scalar(suf));
                lemma_utf8_step(bytes@, i as int, 3);
            }
            i = i + 3;
        } else if 0xf0 <= b0 && b0 <= 0xf7 {
            if rem < 4 || !(0x80 <= bytes[i + 1] && bytes[i + 1] <= 0xbf) || !(0x80 <= bytes[i + 2]
                && bytes[i + 2] <= 0xbf) || !(0x80 <= bytes[i + 3] && bytes[i + 3] <= 0xbf) {
                proof {
                    lemma_utf8_fail(bytes@, i as int);
                }
                return false;
            }
            let b1 = bytes[i + 1];
            let b2 = bytes[i + 2];
            let b3 = bytes[i + 3];
            proof {
                assert(suf[1] == bytes@[i + 1]);
                assert(suf[2] == bytes@[i + 2]);
                assert(suf[3] == bytes@[i + 3]);
            }
            let cp: u32 = (((b0 & 0x07) as u32) << 18) | (((b1 & 0x3f) as u32) << 12) | (((b2
                & 0x3f) as u32) << 6) | ((b3 & 0x3f) as u32);
            proof {
                assert(decode_first_codepoint(suf) == cp);
            }
            if cp < 0x10000 || cp > 0x10ffff {
                proof {
                    lemma_utf8_fail(bytes@, i as int);
                }
                return false;
            }
            proof {
                assert(valid_first_scalar(suf));
                lemma_utf8_step(bytes@, i as int, 4);
            }
            i = i + 4;
        } else {
            proof {
                lemma_utf8_fail(bytes@, i as int);
            }
            return false;
        }
    }
    proof {
        assert(bytes@.skip(n as int) =~= Seq::<u8>::empty());
    }
    true
}

} // verus!
