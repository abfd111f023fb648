//! Byte signatures: patterns of bytes with gaps, and the search for them in
//! the memory of a process.

use vstd::prelude::*;
use vstd::string::StringSliceAdditionalSpecFns;

verus! {

/// The value of a character of a signature: a hexadecimal digit stands for
/// its value, a question mark for 16, and any other character for nothing.
pub open spec fn spec_nibble(b: u8) -> Option<u8> {
    if 0x30 <= b <= 0x39 {
        Some((b - 0x30) as u8)
    } else if 0x61 <= b <= 0x66 {
        Some((b - 0x61 + 0xA) as u8)
    } else if 0x41 <= b <= 0x46 {
        Some((b - 0x41 + 0xA) as u8)
    } else if b == 0x3F {
        Some(0x10u8)
    } else {
        None
    }
}

/// The values of the characters of a signature that stand for something,
/// in order.
pub open spec fn spec_nibbles(text: Seq<u8>) -> Seq<u8>
    decreases text.len(),
{
    if text.len() == 0 {
        Seq::empty()
    } else {
        match spec_nibble(text.last()) {
            Some(v) => spec_nibbles(text.drop_last()).push(v),
            None => spec_nibbles(text.drop_last()),
        }
    }
}

/// The byte that two values stand for, the first for its upper half.
pub open spec fn spec_pair(a: u8, b: u8) -> u8 {
    (a << 4) | b
}

/// The bytes of a signature: one for every two values. A value that is
/// left over at the end stands for nothing.
pub open spec fn spec_bytes(text: Seq<u8>) -> Seq<u8> {
    Seq::new(
        spec_nibbles(text).len() / 2,
        |i: int| spec_pair(spec_nibbles(text)[2 * i], spec_nibbles(text)[2 * i + 1]),
    )
}

/// The gaps of a signature: a byte is a gap, which any byte matches, where
/// it is written as two question marks.
pub open spec fn spec_mask(text: Seq<u8>) -> Seq<bool> {
    Seq::new(
        spec_nibbles(text).len() / 2,
        |i: int| spec_nibbles(text)[2 * i] == 0x10 && spec_nibbles(text)[2 * i + 1] == 0x10,
    )
}

/// Whether the byte `b` can stand at position `at` of a signature.
pub open spec fn accepts(bytes: Seq<u8>, mask: Seq<bool>, at: int, b: u8) -> bool {
    mask[at] || bytes[at] == b
}

/// Whether a signature is found in a buffer at index `at`.
pub open spec fn matches_at(bytes: Seq<u8>, mask: Seq<bool>, buf: Seq<u8>, at: int) -> bool {
    &&& 0 <= at
    &&& at + bytes.len() <= buf.len()
    &&& forall|k: int| 0 <= k < bytes.len() ==> accepts(bytes, mask, k, #[trigger] buf[at + k])
}

/// How far the last byte `b` before position `n` that is no gap lies from
/// the end of a signature, or 0 where there is none. The last position of
/// the signature is never looked at.
pub open spec fn last_plain(bytes: Seq<u8>, mask: Seq<bool>, b: u8, n: int) -> int
    decreases n,
{
    if n <= 0 {
        0
    } else if !mask[n - 1] && bytes[n - 1] == b {
        bytes.len() - 1 - (n - 1)
    } else {
        last_plain(bytes, mask, b, n - 1)
    }
}

/// How far the last gap before position `n` lies from the end of a
/// signature, or 0 where there is none.
pub open spec fn last_gap(mask: Seq<bool>, n: int) -> int
    decreases n,
{
    if n <= 0 {
        0
    } else if mask[n - 1] {
        mask.len() - 1 - (n - 1)
    } else {
        last_gap(mask, n - 1)
    }
}

/// How far the search moves on after it has seen the byte `b` under the
/// last position of a signature: to the nearest position that `b` can stand
/// at, be it a gap or the byte itself, and past the whole signature where
/// there is none.
pub open spec fn spec_skip(bytes: Seq<u8>, mask: Seq<bool>, b: u8) -> int {
    let end = bytes.len() - 1;
    let gap = if last_gap(mask, end) == 0 {
        bytes.len() as int
    } else {
        last_gap(mask, end)
    };
    let plain = last_plain(bytes, mask, b, end);
    if gap < plain || plain == 0 {
        gap
    } else {
        plain
    }
}

/// The byte `b` can stand at no position nearer to the end than
/// [`last_plain`] and [`last_gap`] say.
pub proof fn lemma_last(bytes: Seq<u8>, mask: Seq<bool>, b: u8, n: int)
    requires
        bytes.len() == mask.len(),
        0 <= n <= bytes.len() - 1,
    ensures
        0 <= last_plain(bytes, mask, b, n) <= bytes.len() - 1,
        0 <= last_gap(mask, n) <= bytes.len() - 1,
        n > 0 ==> last_plain(bytes, mask, b, n) == 0 || last_plain(bytes, mask, b, n)
            >= bytes.len() - n,
        n > 0 ==> last_gap(mask, n) == 0 || last_gap(mask, n) >= bytes.len() - n,
        forall|j: int|
            0 <= j < n && !mask[j] && #[trigger] bytes[j] == b ==> 0 < last_plain(
                bytes,
                mask,
                b,
                n,
            ) <= bytes.len() - 1 - j,
        forall|j: int|
            0 <= j < n && #[trigger] mask[j] ==> 0 < last_gap(mask, n) <= bytes.len() - 1 - j,
    decreases n,
{
    if n > 0 {
        lemma_last(bytes, mask, b, n - 1);
    }
}

/// Moving on by [`spec_skip`] passes over no place where the signature
/// could be found.
pub proof fn lemma_skip_is_safe(bytes: Seq<u8>, mask: Seq<bool>, b: u8)
    requires
        bytes.len() == mask.len(),
        bytes.len() > 0,
    ensures
        1 <= spec_skip(bytes, mask, b) <= bytes.len(),
        forall|d: int|
            1 <= d < spec_skip(bytes, mask, b) ==> !#[trigger] accepts(
                bytes,
                mask,
                bytes.len() - 1 - d,
                b,
            ),
{
    let end = bytes.len() - 1;
    lemma_last(bytes, mask, b, end);
    assert forall|d: int| 1 <= d < spec_skip(bytes, mask, b) implies !#[trigger] accepts(
        bytes,
        mask,
        bytes.len() - 1 - d,
        b,
    ) by {
        let j = end - d;
        if mask[j] {
            assert(0 < last_gap(mask, end) <= end - j);
        } else if bytes[j] == b {
            assert(0 < last_plain(bytes, mask, b, end) <= end - j);
        }
    }
}

/// A pattern of bytes to search for. A byte of the pattern is either a
/// given byte or a gap that any byte matches.
pub struct Signature {
    bytes: Vec<u8>,
    mask: Vec<bool>,
    skip_offsets: [usize; 256],
}

impl Signature {
    /// The bytes of the pattern. The byte of a gap is of no account.
    pub closed spec fn bytes(&self) -> Seq<u8> {
        self.bytes@
    }

    /// For every byte of the pattern, whether it is a gap.
    pub closed spec fn mask(&self) -> Seq<bool> {
        self.mask@
    }

    /// The table that tells the search how far to move on.
    pub closed spec fn skip_offsets(&self) -> Seq<usize> {
        self.skip_offsets@
    }

    /// The pattern has at least one byte, and the table of the search is
    /// the one that belongs to the pattern.
    pub open spec fn wf(&self) -> bool {
        &&& self.bytes().len() > 0
        &&& self.bytes().len() == self.mask().len()
        &&& self.skip_offsets().len() == 256
        &&& forall|b: u8| #[trigger]
            self.skip_offsets()[b as int] == spec_skip(self.bytes(), self.mask(), b)
    }

    /// Reads a pattern from its text: two hexadecimal digits for a byte,
    /// two question marks for a gap. Any other character is passed over, so
    /// bytes may be set apart by spaces.
    ///
    /// The text has to hold at least one byte.
    pub fn new(signature: &str) -> (sig: Signature)
        requires
            spec_nibbles(signature.spec_bytes()).len() >= 2,
        ensures
            sig.wf(),
            sig.bytes() == spec_bytes(signature.spec_bytes()),
            sig.mask() == spec_mask(signature.spec_bytes()),
    {
        let text = signature.as_bytes();
        let mut nibbles: Vec<u8> = Vec::new();
        let mut i: usize = 0;
        while i < text.len()
            invariant
                0 <= i <= text.len(),
                nibbles@ == spec_nibbles(text@.take(i as int)),
                forall|k: int| 0 <= k < nibbles.len() ==> #[trigger] nibbles[k] <= 0x10,
            decreases text.len() - i,
        {
            let b: u8 = text[i];
            proof {
                assert(text@.take(i as int + 1).drop_last() =~= text@.take(i as int));
                assert(text@.take(i as int + 1).last() == b);
            }
            if 0x30 <= b && b <= 0x39 {
                nibbles.push(b - 0x30);
            } else if 0x61 <= b && b <= 0x66 {
                nibbles.push(b - 0x61 + 0xA);
            } else if 0x41 <= b && b <= 0x46 {
                nibbles.push(b - 0x41 + 0xA);
            } else if b == 0x3F {
                nibbles.push(0x10);
            }
            i = i + 1;
        }
        assert(text@.take(text.len() as int) =~= text@);
        let mut bytes: Vec<u8> = Vec::new();
        let mut mask: Vec<bool> = Vec::new();
        let mut p: usize = 0;
        while p + 1 < nibbles.len()
            invariant
                p % 2 == 0,
                p <= nibbles.len(),
                bytes.len() == p / 2,
                mask.len() == p / 2,
                nibbles@ == spec_nibbles(text@),
                forall|k: int|
                    0 <= k < bytes.len() ==> #[trigger] bytes[k] == spec_pair(
                        nibbles[2 * k],
                        nibbles[2 * k + 1],
                    ),
                forall|k: int|
                    0 <= k < mask.len() ==> #[trigger] mask[k] == (nibbles[2 * k] == 0x10
                        && nibbles[2 * k + 1] == 0x10),
            decreases nibbles.len() - p,
        {
            let a: u8 = nibbles[p];
            let b: u8 = nibbles[p + 1];
            bytes.push((a << 4) | b);
            mask.push(a == 0x10 && b == 0x10);
            p = p + 2;
        }
        assert(bytes@ =~= spec_bytes(text@));
        assert(mask@ =~= spec_mask(text@));
        let mut skip_offsets: [usize; 256] = [0usize; 256];
        let mut unknown: usize = 0;
        let end: usize = bytes.len() - 1;
        let mut j: usize = 0;
        while j < end
            invariant
                0 <= j <= end,
                end == bytes.len() - 1,
                bytes.len() == mask.len(),
                unknown == last_gap(mask@, j as int),
                forall|b: u8| #[trigger]
                    skip_offsets@[b as int] == last_plain(bytes@, mask@, b, j as int),
            decreases end - j,
        {
            let byte: u8 = bytes[j];
            if !mask[j] {
                skip_offsets[byte as usize] = end - j;
            } else {
                unknown = end - j;
            }
            j = j + 1;
        }
        if unknown == 0 {
            unknown = bytes.len();
        }
        let mut b: usize = 0;
        while b < 256
            invariant
                0 <= b <= 256,
                end == bytes.len() - 1,
                bytes.len() == mask.len(),
                unknown == (if last_gap(mask@, end as int) == 0 {
                    bytes.len() as int
                } else {
                    last_gap(mask@, end as int)
                }),
                forall|c: u8|
                    c < b ==> #[trigger] skip_offsets@[c as int] == spec_skip(bytes@, mask@, c),
                forall|c: u8|
                    c >= b ==> #[trigger] skip_offsets@[c as int] == last_plain(
                        bytes@,
                        mask@,
                        c,
                        end as int,
                    ),
            decreases 256 - b,
        {
            let offset: usize = skip_offsets[b];
            if unknown < offset || offset == 0 {
                skip_offsets[b] = unknown;
            }
            b = b + 1;
        }
        Signature { bytes, mask, skip_offsets }
    }

    /// Searches a buffer for the pattern and returns the index at which it
    /// is found first, or `None` where it is not found at all.
    ///
    /// The buffer has to be at least as long as the pattern.
    pub fn scan(&self, buf: &[u8]) -> (found: Option<usize>)
        requires
            self.wf(),
            buf.len() >= self.bytes().len(),
        ensures
            match found {
                Some(at) => matches_at(self.bytes(), self.mask(), buf@, at as int) && forall|
                    earlier: int,
                |
                    0 <= earlier < at ==> !matches_at(self.bytes(), self.mask(), buf@, earlier),
                None => forall|at: int| !matches_at(self.bytes(), self.mask(), buf@, at),
            },
    {
        let len: usize = self.bytes.len();
        let end: usize = len - 1;
        let last: usize = buf.len() - len;
        let mut current: usize = 0;
        while current <= last
            invariant
                self.wf(),
                len == self.bytes().len(),
                len == self.bytes@.len(),
                end == len - 1,
                last == buf.len() - len,
                buf.len() >= len,
                0 <= current <= buf.len(),
                forall|earlier: int|
                    0 <= earlier < current ==> !matches_at(
                        self.bytes(),
                        self.mask(),
                        buf@,
                        earlier,
                    ),
            decreases buf.len() - current,
        {
            let mut k: usize = 0;
            let mut all: bool = true;
            while k < len && all
                invariant
                    len == self.bytes@.len(),
                    len == self.mask@.len(),
                    0 <= k <= len,
                    current + len <= buf.len(),
                    all ==> forall|m: int|
                        0 <= m < k ==> accepts(
                            self.bytes(),
                            self.mask(),
                            m,
                            #[trigger] buf@[current + m],
                        ),
                    !all ==> !matches_at(self.bytes(), self.mask(), buf@, current as int),
                decreases len - k + if all { 1int } else { 0int },
            {
                if !(buf[current + k] == self.bytes[k] || self.mask[k]) {
                    all = false;
                    assert(!accepts(self.bytes(), self.mask(), k as int, buf@[current + k]));
                } else {
                    k = k + 1;
                }
            }
            if all {
                return Some(current);
            }
            let seen: u8 = buf[current + end];
            let offset: usize = self.skip_offsets[seen as usize];
            proof {
                lemma_skip_is_safe(self.bytes(), self.mask(), seen);
                assert forall|earlier: int| current < earlier < current + offset implies !matches_at(
                    self.bytes(),
                    self.mask(),
                    buf@,
                    earlier,
                ) by {
                    let d = earlier - current;
                    assert(!accepts(self.bytes(), self.mask(), len - 1 - d, seen));
                    assert(buf@[earlier + (len - 1 - d)] == seen);
                }
            }
            current = current + offset;
        }
        None
    }
}

} // verus!
