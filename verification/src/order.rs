//! The order of a listing, in terms of the denominations themselves.
//!
//! The store orders its keys by their bytes. UTF-8 is built so that this is
//! the order of the texts by their characters; this module proves it.

use vstd::prelude::*;
use vstd::utf8::{encode_scalar, encode_utf8};
use crate::store::{bytes_before, denom_before};

verus! {

/// Whether text `a` comes strictly before text `b` in lexicographic order
/// of their characters, a character being before another where its code
/// point is smaller.
pub open spec fn chars_before(a: Seq<char>, b: Seq<char>) -> bool
    decreases a.len(),
{
    if b.len() == 0 {
        false
    } else if a.len() == 0 {
        true
    } else if a[0] != b[0] {
        (a[0] as u32) < (b[0] as u32)
    } else {
        chars_before(a.drop_first(), b.drop_first())
    }
}

/// Whether `p` and `q` agree before index `at` and `p` is smaller there.
pub open spec fn smaller_at(p: Seq<u8>, q: Seq<u8>, at: int) -> bool {
    &&& 0 <= at < p.len()
    &&& at < q.len()
    &&& forall|i: int| 0 <= i < at ==> p[i] == q[i]
    &&& p[at] < q[at]
}

/// Byte strings that first differ at some index are ordered by the bytes at
/// that index.
pub proof fn first_difference_decides(p: Seq<u8>, q: Seq<u8>, at: int)
    requires
        smaller_at(p, q, at),
    ensures
        bytes_before(p, q),
        !bytes_before(q, p),
    decreases at,
{
    if at > 0 {
        assert(p[0] == q[0]);
        assert forall|i: int| 0 <= i < at - 1 implies p.drop_first()[i] == q.drop_first()[i] by {
            assert(p[i + 1] == q[i + 1]);
        }
        first_difference_decides(p.drop_first(), q.drop_first(), at - 1);
    }
}

/// A common prefix does not change the order of two byte strings.
pub proof fn common_prefix_cancels(prefix: Seq<u8>, x: Seq<u8>, y: Seq<u8>)
    ensures
        bytes_before(prefix + x, prefix + y) == bytes_before(x, y),
    decreases prefix.len(),
{
    if prefix.len() == 0 {
        assert(prefix + x =~= x);
        assert(prefix + y =~= y);
    } else {
        assert((prefix + x).drop_first() =~= prefix.drop_first() + x);
        assert((prefix + y).drop_first() =~= prefix.drop_first() + y);
        common_prefix_cancels(prefix.drop_first(), x, y);
    }
}

/// The first byte of an encoding tells its width: the first bytes of the
/// four widths lie in four ranges, one above the other.
proof fn leading_bytes_by_width(c: u32)
    by (bit_vector)
    ensures
        ((c & 0x7F) as u8) <= 0x7F,
        0xC0 <= (0xC0 | ((c >> 6) & 0x1F) as u8) <= 0xDF,
        0xE0 <= (0xE0 | ((c >> 12) & 0x0F) as u8) <= 0xEF,
        0xF0 <= (0xF0 | ((c >> 18) & 0x7) as u8) <= 0xF7,
{
}

/// Among scalars of one byte, the smaller has the smaller byte.
proof fn order_in_width_1(c: u32, d: u32)
    by (bit_vector)
    requires
        c < d <= 0x7F,
    ensures
        ((c & 0x7F) as u8) < ((d & 0x7F) as u8),
{
}

/// Among scalars of two bytes, the smaller has the smaller byte where the
/// two encodings first differ.
proof fn order_in_width_2(c: u32, d: u32)
    by (bit_vector)
    requires
        0x80 <= c < d <= 0x7FF,
    ensures
        ({
            let c0: u8 = 0xC0 | ((c >> 6) & 0x1F) as u8;
            let d0: u8 = 0xC0 | ((d >> 6) & 0x1F) as u8;
            let c1: u8 = 0x80 | (c & 0x3F) as u8;
            let d1: u8 = 0x80 | (d & 0x3F) as u8;
            c0 < d0 || (c0 == d0 && c1 < d1)
        }),
{
}

/// Among scalars of three bytes, the smaller has the smaller byte where the
/// two encodings first differ.
proof fn order_in_width_3(c: u32, d: u32)
    by (bit_vector)
    requires
        0x800 <= c < d <= 0xFFFF,
    ensures
        ({
            let c0: u8 = 0xE0 | ((c >> 12) & 0x0F) as u8;
            let d0: u8 = 0xE0 | ((d >> 12) & 0x0F) as u8;
            let c1: u8 = 0x80 | ((c >> 6) & 0x3F) as u8;
            let d1: u8 = 0x80 | ((d >> 6) & 0x3F) as u8;
            let c2: u8 = 0x80 | (c & 0x3F) as u8;
            let d2: u8 = 0x80 | (d & 0x3F) as u8;
            c0 < d0 || (c0 == d0 && (c1 < d1 || (c1 == d1 && c2 < d2)))
        }),
{
}

/// Among scalars of four bytes, the smaller has the smaller byte where the
/// two encodings first differ.
proof fn order_in_width_4(c: u32, d: u32)
    by (bit_vector)
    requires
        0x10000 <= c < d <= 0x10FFFF,
    ensures
        ({
            let c0: u8 = 0xF0 | ((c >> 18) & 0x7) as u8;
            let d0: u8 = 0xF0 | ((d >> 18) & 0x7) as u8;
            let c1: u8 = 0x80 | ((c >> 12) & 0x3F) as u8;
            let d1: u8 = 0x80 | ((d >> 12) & 0x3F) as u8;
            let c2: u8 = 0x80 | ((c >> 6) & 0x3F) as u8;
            let d2: u8 = 0x80 | ((d >> 6) & 0x3F) as u8;
            let c3: u8 = 0x80 | (c & 0x3F) as u8;
            let d3: u8 = 0x80 | (d & 0x3F) as u8;
            c0 < d0 || (c0 == d0 && (c1 < d1 || (c1 == d1 && (c2 < d2 || (c2 == d2 && c3
                < d3)))))
        }),
{
}

/// The encodings of two scalars first differ at some index, where the
/// encoding of the smaller scalar has the smaller byte.
pub proof fn scalar_order_shows_in_bytes(c: u32, d: u32)
    requires
        vstd::utf8::is_scalar(c),
        vstd::utf8::is_scalar(d),
        c < d,
    ensures
        exists|at: int| smaller_at(encode_scalar(c), encode_scalar(d), at),
{
    let p = encode_scalar(c);
    let q = encode_scalar(d);
    leading_bytes_by_width(c);
    leading_bytes_by_width(d);
    if vstd::utf8::has_width_1_encoding(d) {
        order_in_width_1(c, d);
        assert(smaller_at(p, q, 0));
    } else if vstd::utf8::has_width_2_encoding(d) {
        if vstd::utf8::has_width_2_encoding(c) {
            order_in_width_2(c, d);
            if p[0] < q[0] {
                assert(smaller_at(p, q, 0));
            } else {
                assert(smaller_at(p, q, 1));
            }
        } else {
            assert(smaller_at(p, q, 0));
        }
    } else if vstd::utf8::has_width_3_encoding(d) {
        if vstd::utf8::has_width_3_encoding(c) {
            order_in_width_3(c, d);
            if p[0] < q[0] {
                assert(smaller_at(p, q, 0));
            } else if p[1] < q[1] {
                assert(smaller_at(p, q, 1));
            } else {
                assert(smaller_at(p, q, 2));
            }
        } else {
            assert(smaller_at(p, q, 0));
        }
    } else {
        if vstd::utf8::has_width_4_encoding(c) {
            order_in_width_4(c, d);
            if p[0] < q[0] {
                assert(smaller_at(p, q, 0));
            } else if p[1] < q[1] {
                assert(smaller_at(p, q, 1));
            } else if p[2] < q[2] {
                assert(smaller_at(p, q, 2));
            } else {
                assert(smaller_at(p, q, 3));
            }
        } else {
            assert(smaller_at(p, q, 0));
        }
    }
}

/// Where two encodings differ as [`smaller_at`] says, so do any byte strings
/// that start with them.
proof fn smaller_at_extends(p: Seq<u8>, q: Seq<u8>, at: int, x: Seq<u8>, y: Seq<u8>)
    requires
        smaller_at(p, q, at),
    ensures
        smaller_at(p + x, q + y, at),
{
    assert forall|i: int| 0 <= i < at implies (p + x)[i] == (q + y)[i] by {
        assert(p[i] == q[i]);
    }
}

/// The order of two texts by their UTF-8 bytes is their order by their
/// characters.
pub proof fn byte_order_is_char_order(a: Seq<char>, b: Seq<char>)
    ensures
        denom_before(a, b) == chars_before(a, b),
    decreases a.len(),
{
    if b.len() == 0 {
    } else if a.len() == 0 {
        vstd::utf8::char_is_scalar(b[0]);
        assert(encode_scalar(b[0] as u32).len() > 0);
    } else {
        let c: u32 = a[0] as u32;
        let d: u32 = b[0] as u32;
        let x = encode_utf8(a.drop_first());
        let y = encode_utf8(b.drop_first());
        vstd::utf8::char_is_scalar(a[0]);
        vstd::utf8::char_is_scalar(b[0]);
        assert(encode_utf8(a) == encode_scalar(c) + x);
        assert(encode_utf8(b) == encode_scalar(d) + y);
        if a[0] == b[0] {
            common_prefix_cancels(encode_scalar(c), x, y);
            byte_order_is_char_order(a.drop_first(), b.drop_first());
        } else if c < d {
            scalar_order_shows_in_bytes(c, d);
            let at: int = choose|at: int| smaller_at(encode_scalar(c), encode_scalar(d), at);
            smaller_at_extends(encode_scalar(c), encode_scalar(d), at, x, y);
            first_difference_decides(encode_scalar(c) + x, encode_scalar(d) + y, at);
        } else {
            vstd::utf8::char_u32_cast(a[0], c);
            vstd::utf8::char_u32_cast(b[0], d);
            assert(d < c);
            scalar_order_shows_in_bytes(d, c);
            let at: int = choose|at: int| smaller_at(encode_scalar(d), encode_scalar(c), at);
            smaller_at_extends(encode_scalar(d), encode_scalar(c), at, y, x);
            first_difference_decides(encode_scalar(d) + y, encode_scalar(c) + x, at);
        }
    }
}

} // verus!
