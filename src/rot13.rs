//! A byte filter that rotates ASCII letters within their alphabet as they
//! are read from an underlying source.
use vstd::arithmetic::div_mod::lemma_add_mod_noop_right;
use vstd::prelude::*;

verus! {

/// Number of letters in each of the two ASCII alphabets.
pub const SIZE_OF_ALPHABET: u8 = 26;

/// The ASCII codes of `A`, `Z`, `a` and `z`.
pub const UPPER_FIRST: u8 = 65;
pub const UPPER_LAST: u8 = 90;
pub const LOWER_FIRST: u8 = 97;
pub const LOWER_LAST: u8 = 122;

pub open spec fn is_upper(b: u8) -> bool {
    65 <= b <= 90
}

pub open spec fn is_lower(b: u8) -> bool {
    97 <= b <= 122
}

pub open spec fn is_letter(b: u8) -> bool {
    is_upper(b) || is_lower(b)
}

/// `b` moved `shift` places forward within its own alphabet, wrapping after
/// the last letter; a byte that is not an ASCII letter stays as it is.
pub open spec fn rotated(b: u8, shift: int) -> u8 {
    if is_upper(b) {
        ((b - 65 + shift) % 26 + 65) as u8
    } else if is_lower(b) {
        ((b - 97 + shift) % 26 + 97) as u8
    } else {
        b
    }
}

/// `bytes` with each of its first `count` bytes rotated by `shift`.
pub open spec fn rotated_prefix(bytes: Seq<u8>, count: int, shift: int) -> Seq<u8> {
    Seq::new(bytes.len(), |i: int| if i < count { rotated(bytes[i], shift) } else { bytes[i] })
}

/// Rotates one byte by `shift` places within its alphabet.
pub fn rotate(b: u8, shift: u8) -> (r: u8)
    ensures
        r == rotated(b, shift as int),
        !is_letter(b) ==> r == b,
        is_upper(b) ==> is_upper(r),
        is_lower(b) ==> is_lower(r),
{
    let upper = UPPER_FIRST <= b && b <= UPPER_LAST;
    let lower = LOWER_FIRST <= b && b <= LOWER_LAST;
    if upper || lower {
        let base: u8 = if upper { UPPER_FIRST } else { LOWER_FIRST };
        let s: u8 = shift % SIZE_OF_ALPHABET;
        proof {
            lemma_add_mod_noop_right((b - base) as int, shift as int, 26);
        }
        (b - base + s) % SIZE_OF_ALPHABET + base
    } else {
        b
    }
}

/// Moving a letter index forward by `s` places and then by `26 - s` places
/// brings it back where it was.
proof fn lemma_index_round_trip(x: int, s: int)
    requires
        0 <= x < 26,
        0 <= s <= 26,
    ensures
        ((x + s) % 26 + 26 - s) % 26 == x,
{
    if x + s < 26 {
        assert((x + s) % 26 == x + s);
        assert((x + 26) % 26 == x);
    } else {
        assert((x + s) % 26 == x + s - 26);
        assert(x % 26 == x);
    }
}

/// Rotating an uppercase letter by `s` and then by `26 - s` gives the letter
/// back.
pub proof fn lemma_rotate_inverse(c: u8, s: u8)
    requires
        is_upper(c),
        s <= 25,
    ensures
        rotated(rotated(c, s as int), 26 - s) == c,
{
    lemma_index_round_trip(c - 65, s as int);
}

/// A rotation by thirteen undoes itself on every letter.
pub proof fn lemma_rotate_thirteen_twice(c: u8)
    requires
        is_letter(c),
    ensures
        rotated(rotated(c, 13), 13) == c,
{
    if is_upper(c) {
        lemma_index_round_trip(c - 65, 13);
    } else {
        lemma_index_round_trip(c - 97, 13);
    }
}

/// Passing bytes through the filter twice with a shift of thirteen gives
/// them back.
pub proof fn lemma_filter_thirteen_twice(bytes: Seq<u8>, count: int)
    ensures
        rotated_prefix(rotated_prefix(bytes, count, 13), count, 13) == bytes,
{
    assert forall|i: int| 0 <= i < bytes.len() implies #[trigger] rotated_prefix(
        rotated_prefix(bytes, count, 13),
        count,
        13,
    )[i] == bytes[i] by {
        if i < count && is_letter(bytes[i]) {
            lemma_rotate_thirteen_twice(bytes[i]);
        }
    }
    assert(rotated_prefix(rotated_prefix(bytes, count, 13), count, 13) =~= bytes);
}

/// Passing bytes through the filter changes a byte only where it was a
/// letter, and what it becomes is a letter too.
pub proof fn lemma_only_letters_change(bytes: Seq<u8>, count: int, shift: int, i: int)
    requires
        0 <= i < bytes.len(),
    ensures
        rotated_prefix(bytes, count, shift)[i] != bytes[i] ==> is_letter(bytes[i]) && is_letter(
            rotated_prefix(bytes, count, shift)[i],
        ),
{
}

/// Anything that fills a caller's buffer with bytes and says how many it
/// wrote: zero once it has no more, or an error of its own.
pub trait ByteSource: Sized {
    type Error;

    /// Whether one read may take the source from `pre` to `post`, turn the
    /// buffer from `before` into `after`, and report `r`. A source that
    /// says nothing more is held only to the length clauses of `read`.
    open spec fn reads(
        pre: Self,
        post: Self,
        before: Seq<u8>,
        after: Seq<u8>,
        r: Result<usize, Self::Error>,
    ) -> bool {
        true
    }

    fn read(&mut self, buf: &mut [u8]) -> (r: Result<usize, Self::Error>)
        ensures
            final(buf)@.len() == old(buf)@.len(),
            r matches Ok(n) ==> n <= old(buf)@.len(),
            Self::reads(*old(self), *final(self), old(buf)@, final(buf)@, r),
    ;
}

/// A byte slice is a source that hands out its bytes from the front and
/// never fails.
impl<'a> ByteSource for &'a [u8] {
    type Error = ();

    /// The read copies as many bytes as both the slice and the buffer hold
    /// to the front of the buffer, and the slice moves past them.
    open spec fn reads(
        pre: Self,
        post: Self,
        before: Seq<u8>,
        after: Seq<u8>,
        r: Result<usize, ()>,
    ) -> bool {
        let n = if pre@.len() < before.len() {
            pre@.len()
        } else {
            before.len()
        };
        &&& r == Ok::<usize, ()>(n as usize)
        &&& after == pre@.take(n as int) + before.skip(n as int)
        &&& post@ == pre@.skip(n as int)
    }

    fn read(&mut self, buf: &mut [u8]) -> (r: Result<usize, ()>) {
        let n: usize = if self.len() < buf.len() {
            self.len()
        } else {
            buf.len()
        };
        let mut i: usize = 0;
        while i < n
            invariant
                n <= buf@.len(),
                n <= self@.len(),
                i <= n,
                buf@.len() == old(buf)@.len(),
                forall|j: int| 0 <= j < i ==> #[trigger] buf@[j] == self@[j],
                forall|j: int| i <= j < buf@.len() ==> #[trigger] buf@[j] == old(buf)@[j],
            decreases n - i,
        {
            buf[i] = self[i];
            i = i + 1;
        }
        let (_, rest) = self.split_at(n);
        assert(buf@ =~= self@.take(n as int) + old(buf)@.skip(n as int));
        *self = rest;
        Ok(n)
    }
}

/// Rewrites in place what a source has just written into `buf`: on
/// `Ok(n)`, each of the first `n` bytes is rotated by `shift`; the outcome
/// itself is handed back unchanged.
pub fn rotate_filled<E>(outcome: Result<usize, E>, buf: &mut [u8], shift: u8) -> (r: Result<
    usize,
    E,
>)
    requires
        outcome matches Ok(n) ==> n <= old(buf)@.len(),
    ensures
        r == outcome,
        outcome matches Ok(n) ==> final(buf)@ == rotated_prefix(old(buf)@, n as int, shift as int),
        outcome is Err ==> final(buf)@ == old(buf)@,
        outcome == Ok::<usize, E>(0) ==> r == Ok::<usize, E>(0) && final(buf)@ == old(buf)@,
{
    match outcome {
        Ok(n) => {
            let mut i: usize = 0;
            while i < n
                invariant
                    n <= buf@.len(),
                    i <= n,
                    buf@.len() == old(buf)@.len(),
                    forall|j: int|
                        0 <= j < i ==> #[trigger] buf@[j] == rotated(old(buf)@[j], shift as int),
                    forall|j: int| i <= j < buf@.len() ==> #[trigger] buf@[j] == old(buf)@[j],
                decreases n - i,
            {
                let b = rotate(buf[i], shift);
                buf[i] = b;
                i = i + 1;
            }
            assert(buf@ =~= rotated_prefix(old(buf)@, n as int, shift as int));
            Ok(n)
        },
        Err(e) => Err(e),
    }
}

/// Wraps a byte source and rotates every ASCII letter it produces by `rot`
/// places within its alphabet; all other bytes pass through unchanged.
pub struct RotDecoder<R: ByteSource> {
    pub input: R,
    pub rot: u8,
}

impl<R: ByteSource> ByteSource for RotDecoder<R> {
    type Error = R::Error;

    /// The read is one read of the inner source, whose outcome is handed
    /// on, with the bytes it filled rotated by `rot`.
    open spec fn reads(
        pre: Self,
        post: Self,
        before: Seq<u8>,
        after: Seq<u8>,
        r: Result<usize, R::Error>,
    ) -> bool {
        &&& post.rot == pre.rot
        &&& exists|raw: Seq<u8>|
            {
                &&& #[trigger] R::reads(pre.input, post.input, before, raw, r)
                &&& match r {
                    Ok(n) => after == rotated_prefix(raw, n as int, pre.rot as int),
                    Err(_) => after == raw,
                }
            }
    }

    fn read(&mut self, buf: &mut [u8]) -> (r: Result<usize, R::Error>) {
        let ghost before = buf@;
        let outcome = self.input.read(buf);
        let ghost raw = buf@;
        let r = rotate_filled(outcome, buf, self.rot);
        assert(R::reads(old(self).input, self.input, before, raw, outcome));
        r
    }
}

} // verus!
