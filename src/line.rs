//! The line generator: one random, printable, CRLF-terminated line per
//! call, never starting with the SSH version-exchange prefix.
use vstd::prelude::*;

use crate::random::draw_between;

verus! {

/// Shortest random part of a line.
pub const MIN_LINE_LENGTH: u8 = 3;

/// Longest random part of a line that the configuration may ask for.
pub const MAX_LINE_LENGTH: u8 = 253;

/// Size of a working buffer that holds the longest line and its CRLF.
pub const LINE_BUFFER_LEN: usize = 255;

/// Lowest byte drawn for a line: the space.
pub const PRINTABLE_LOW: u8 = 0x20;

/// Highest byte drawn for a line: the tilde.
pub const PRINTABLE_HIGH: u8 = 0x7e;

/// Byte that replaces the leading `S` of an `SSH-` prefix.
pub const GUARD_BYTE: u8 = 0x58;

pub open spec fn is_printable(b: u8) -> bool {
    PRINTABLE_LOW <= b <= PRINTABLE_HIGH
}

pub open spec fn all_printable(s: Seq<u8>) -> bool {
    forall|i: int| 0 <= i < s.len() ==> #[trigger] is_printable(s[i])
}

/// The bytes `S`, `S`, `H`, `-` open `s`.
pub open spec fn starts_with_banner(s: Seq<u8>) -> bool {
    &&& s.len() >= 4
    &&& s[0] == 0x53u8
    &&& s[1] == 0x53u8
    &&& s[2] == 0x48u8
    &&& s[3] == 0x2du8
}

/// The buffer with the prefix guard applied: when its first four bytes are
/// `SSH-`, the first one is replaced by `X`.
pub open spec fn guarded(buf: Seq<u8>) -> Seq<u8> {
    if starts_with_banner(buf) {
        buf.update(0, GUARD_BYTE)
    } else {
        buf
    }
}

/// The line sent when the buffer `buf` holds the random part in its first
/// `len` bytes: those bytes after the guard on the buffer's first four,
/// then CR, LF.
pub open spec fn line_of(buf: Seq<u8>, len: int) -> Seq<u8> {
    guarded(buf).subrange(0, len) + seq![0x0du8, 0x0au8]
}

/// What every generated line looks like for a given maximum length: between
/// 5 and `max_line_length + 2` bytes, printable up to a closing CRLF, and not
/// opening with `SSH-`.
pub open spec fn is_tarpit_line(line: Seq<u8>, max_line_length: int) -> bool {
    &&& 5 <= line.len() <= max_line_length + 2
    &&& line[line.len() - 2] == 0x0du8
    &&& line[line.len() - 1] == 0x0au8
    &&& all_printable(line.subrange(0, line.len() - 2))
    &&& !starts_with_banner(line)
}

/// A random part of allowed length and bytes always yields a well-shaped
/// line, whatever the buffer holds after it: its length lies in
/// `[5, max_line_length + 2]`, it ends in CRLF, every byte before the CRLF
/// is printable, and it never starts with `SSH-`.
pub proof fn lemma_line_shape(buf: Seq<u8>, len: int, max_line_length: int)
    requires
        MIN_LINE_LENGTH <= len <= max_line_length,
        len + 2 <= buf.len(),
        all_printable(buf.subrange(0, len)),
    ensures
        is_tarpit_line(line_of(buf, len), max_line_length),
{
    let line = line_of(buf, len);
    let g = guarded(buf);
    assert(line.subrange(0, line.len() - 2) =~= g.subrange(0, len));
    assert forall|i: int| 0 <= i < len implies #[trigger] is_printable(g.subrange(0, len)[i]) by {
        assert(is_printable(buf.subrange(0, len)[i]));
    }
    assert(GUARD_BYTE != 0x53u8);
}

/// Turns the `len` random bytes at the start of `buf` into a line in place:
/// when the buffer's first four bytes are `SSH-`, replaces the first by
/// `X`, then appends CR, LF after the random part. Returns the length of
/// the line; the bytes after it are left as they were.
pub fn finish_line(buf: &mut [u8], len: usize) -> (r: usize)
    requires
        len + 2 <= old(buf)@.len(),
        4 <= old(buf)@.len(),
    ensures
        r == len + 2,
        final(buf)@.len() == old(buf)@.len(),
        final(buf)@.subrange(0, r as int) == line_of(old(buf)@, len as int),
        final(buf)@.subrange(r as int, final(buf)@.len() as int)
            == old(buf)@.subrange(r as int, old(buf)@.len() as int),
{
    if buf[0] == 0x53u8 && buf[1] == 0x53u8 && buf[2] == 0x48u8 && buf[3] == 0x2du8 {
        buf[0] = GUARD_BYTE;
    }
    assert(buf@ =~= guarded(old(buf)@));
    buf[len] = 0x0du8;
    buf[len + 1] = 0x0au8;
    assert(buf@.subrange(0, (len + 2) as int) =~= line_of(old(buf)@, len as int));
    assert(buf@.subrange((len + 2) as int, buf@.len() as int) =~= old(buf)@.subrange(
        (len + 2) as int,
        old(buf)@.len() as int,
    ));
    len + 2
}

/// Writes one random line at the start of `target_buf` and returns its
/// length. The random part has a length drawn from `[3, max_line_length]`
/// and bytes drawn from the printable range; the result is a well-shaped
/// line whatever was drawn, and the bytes after it are left as they were.
pub fn gen_answer(target_buf: &mut [u8], max_line_length: u8) -> (r: usize)
    requires
        MIN_LINE_LENGTH <= max_line_length <= MAX_LINE_LENGTH,
        old(target_buf)@.len() >= max_line_length + 2,
    ensures
        final(target_buf)@.len() == old(target_buf)@.len(),
        r <= final(target_buf)@.len(),
        is_tarpit_line(final(target_buf)@.subrange(0, r as int), max_line_length as int),
        forall|i: int|
            r <= i < old(target_buf)@.len() ==> final(target_buf)@[i] == old(target_buf)@[i],
        exists|filled: Seq<u8>|
            {
                &&& filled.len() == old(target_buf)@.len()
                &&& MIN_LINE_LENGTH <= r - 2 <= max_line_length
                &&& all_printable(filled.subrange(0, r - 2))
                &&& filled.subrange(r - 2, filled.len() as int) == old(target_buf)@.subrange(
                    r - 2,
                    old(target_buf)@.len() as int,
                )
                &&& #[trigger] line_of(filled, r - 2) == final(target_buf)@.subrange(0, r as int)
            },
{
    let mut rng = rand::thread_rng();
    let len = draw_between(&mut rng, MIN_LINE_LENGTH, max_line_length) as usize;
    let mut idx: usize = 0;
    while idx < len
        invariant
            idx <= len <= max_line_length,
            MIN_LINE_LENGTH <= len,
            target_buf@.len() == old(target_buf)@.len(),
            old(target_buf)@.len() >= max_line_length + 2,
            forall|i: int| 0 <= i < idx ==> #[trigger] is_printable(target_buf@[i]),
            forall|i: int| len <= i < target_buf@.len() ==> target_buf@[i] == old(target_buf)@[i],
        decreases len - idx,
    {
        target_buf[idx] = draw_between(&mut rng, PRINTABLE_LOW, PRINTABLE_HIGH);
        idx = idx + 1;
    }
    let ghost filled = target_buf@;
    assert(all_printable(filled.subrange(0, len as int)));
    assert(filled.subrange(len as int, filled.len() as int) =~= old(target_buf)@.subrange(
        len as int,
        old(target_buf)@.len() as int,
    ));
    let r = finish_line(target_buf, len);
    proof {
        lemma_line_shape(filled, len as int, max_line_length as int);
        assert forall|i: int| r <= i < old(target_buf)@.len() implies target_buf@[i] == old(
            target_buf,
        )@[i] by {
            assert(target_buf@.subrange(r as int, target_buf@.len() as int)[i - r] == filled.subrange(
                r as int,
                filled.len() as int,
            )[i - r]);
        }
    }
    r
}

} // verus!
