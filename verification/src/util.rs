//! Small helpers: decimal digit expansion of a byte value, and the spaced
//! display formatting shared by IBANs and BBANs.

use vstd::prelude::*;

verus! {

/// The decimal digits of `v`, most significant first, without leading zeros;
/// the value `0` is the single digit `0`.
pub open spec fn spec_digits(v: u8) -> Seq<u8> {
    if v >= 100 {
        seq![(v / 100) as u8, ((v / 10) % 10) as u8, (v % 10) as u8]
    } else if v >= 10 {
        seq![(v / 10) as u8, (v % 10) as u8]
    } else {
        seq![v]
    }
}

/// Expands `value` into its decimal digits, most significant first.
///
/// Leading zeros are skipped, but at least one digit is always produced.
pub fn digits(value: u8) -> (r: Vec<u8>)
    ensures
        r@ == spec_digits(value),
        forall|i: int| 0 <= i < r@.len() ==> r@[i] <= 9,
{
    let mut r: Vec<u8> = Vec::new();
    if value >= 100 {
        r.push(value / 100);
        r.push((value / 10) % 10);
        r.push(value % 10);
    } else if value >= 10 {
        r.push(value / 10);
        r.push(value % 10);
    } else {
        r.push(value);
    }
    proof {
        assert(r@ =~= spec_digits(value));
    }
    r
}

/// The spaced display form of a byte string: chunks of four bytes separated
/// by single spaces, the last chunk possibly shorter, no trailing space.
pub open spec fn spaced(s: Seq<u8>) -> Seq<u8>
    decreases s.len(),
{
    if s.len() <= 4 {
        s
    } else {
        s.subrange(0, 4) + seq![' ' as u8] + spaced(s.subrange(4, s.len() as int))
    }
}

/// The same spaced display form, spelled in characters.
pub open spec fn spaced_chars(s: Seq<char>) -> Seq<char>
    decreases s.len(),
{
    if s.len() <= 4 {
        s
    } else {
        s.subrange(0, 4) + seq![' '] + spaced_chars(s.subrange(4, s.len() as int))
    }
}

/// The two spellings of the spaced form agree byte for byte.
pub proof fn lemma_spaced_chars_bytes(cs: Seq<char>)
    ensures
        crate::bytes_of(spaced_chars(cs)) =~= spaced(crate::bytes_of(cs)),
    decreases cs.len(),
{
    if cs.len() > 4 {
        let tail = cs.subrange(4, cs.len() as int);
        lemma_spaced_chars_bytes(tail);
        assert(crate::bytes_of(tail) =~= crate::bytes_of(cs).subrange(4, cs.len() as int));
        assert(crate::bytes_of(spaced_chars(cs)) =~= spaced(crate::bytes_of(cs)));
    }
}

/// Successive chunks of at most `N` characters of a string slice.
pub struct Chunks<'a, const N: usize>(&'a str);

impl<'a, const N: usize> View for Chunks<'a, N> {
    type V = Seq<char>;

    /// The characters not yet handed out.
    closed spec fn view(&self) -> Seq<char> {
        self.0@
    }
}

/// Hands out the chunks of a string slice.
pub trait ChunksExt {
    /// Returns the chunks of `self`, at most `N` characters each.
    fn chunks<const N: usize>(&self) -> Chunks<'_, N>;
}

impl ChunksExt for str {
    fn chunks<const N: usize>(&self) -> (r: Chunks<'_, N>)
        ensures
            r@ == self@,
    {
        Chunks(self)
    }
}

impl<'a, const N: usize> Chunks<'a, N> {
    /// The next chunk: the first `N` characters of what remains, or all of
    /// them if fewer are left, or nothing once the slice is exhausted.
    pub fn next(&mut self) -> (r: Option<&'a str>)
        ensures
            ({
                let s = old(self)@;
                if s.len() == 0 {
                    r is None && final(self)@ == s
                } else {
                    let k = if s.len() < N { s.len() as int } else { N as int };
                    r matches Some(c) && c@ == s.subrange(0, k) && final(self)@ == s.subrange(
                        k,
                        s.len() as int,
                    )
                }
            }),
    {
        let n = self.0.unicode_len();
        if n == 0 {
            return None;
        }
        let take = if n < N {
            n
        } else {
            N
        };
        let chunk = self.0.substring_char(0, take);
        self.0 = self.0.substring_char(take, n);
        Some(chunk)
    }
}

/// Builds the spaced display form of a string slice: chunks of four
/// characters separated by single spaces, no trailing space.
#[verifier::loop_isolation(false)]
pub fn spaced_string(s: &str) -> (r: String)
    ensures
        r@ == spaced_chars(s@),
{
    let mut out = String::new();
    let mut it: Chunks<4> = s.chunks();
    let mut first = true;
    let mut done = false;
    proof {
        reveal_strlit(" ");
    }
    while !done
        invariant
            done ==> it@.len() == 0,
            first ==> out@.len() == 0 && it@ == s@,
            !first ==> spaced_chars(s@) == out@ + (if it@.len() == 0 {
                Seq::<char>::empty()
            } else {
                seq![' '] + spaced_chars(it@)
            }),
        decreases it@.len() + (if done {
            0int
        } else {
            1int
        }),
    {
        let ghost rem = it@;
        match it.next() {
            None => {
                done = true;
            },
            Some(chunk) => {
                let ghost k: int = if rem.len() < 4 {
                    rem.len() as int
                } else {
                    4
                };
                if first {
                    out.append(chunk);
                    first = false;
                    proof {
                        if rem.len() <= 4 {
                            assert(rem.subrange(0, k) =~= rem);
                            assert(spaced_chars(s@) =~= out@);
                        } else {
                            assert(out@ =~= s@.subrange(0, 4));
                            assert(spaced_chars(s@) =~= out@ + (seq![' '] + spaced_chars(it@)));
                        }
                    }
                } else {
                    let ghost out0 = out@;
                    out.append(" ");
                    out.append(chunk);
                    proof {
                        assert(out@ =~= out0 + seq![' '] + rem.subrange(0, k));
                        if rem.len() <= 4 {
                            assert(rem.subrange(0, k) =~= rem);
                            assert(spaced_chars(rem) == rem);
                            assert(spaced_chars(s@) =~= out@);
                        } else {
                            assert(spaced_chars(rem) == rem.subrange(0, 4) + seq![' ']
                                + spaced_chars(rem.subrange(4, rem.len() as int)));
                            assert(it@ =~= rem.subrange(4, rem.len() as int));
                            assert(spaced_chars(s@) =~= out@ + (seq![' '] + spaced_chars(it@)));
                        }
                    }
                }
            },
        }
    }
    proof {
        if first {
            assert(s@ =~= Seq::<char>::empty());
            assert(spaced_chars(s@) =~= out@);
        } else {
            assert(out@ + Seq::<char>::empty() =~= out@);
        }
    }
    out
}

} // verus!
