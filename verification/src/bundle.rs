//! Bundle-only mode: a text-line request / binary-reply protocol over a
//! pair of pre-opened file descriptors, guarded by an advisory lock on a
//! third, with responses memoized per name.
//!
//! The configuring URL is `texpresso-bundle://<lock>,<output>,<input>`,
//! parsed right to left: the rightmost field is the descriptor to read
//! replies from, the middle one is written to, and the leftmost carries the
//! advisory lock.

use vstd::prelude::*;
use vstd::string::{StrSliceExecFns, StringSliceAdditionalSpecFns};
use crate::str_eq;

verus! {

/// A memoized answer of the bundle server for one name.
#[derive(Clone, PartialEq, Debug)]
pub enum CacheEntry {
    /// The server answered with an error: the name is not available.
    NotAvailable,
    /// The server answered with a local path to an already-materialized file.
    Local(String),
    /// The server answered with raw bytes to serve from memory.
    Data(Vec<u8>),
}

/// The bundle-mode state: the three file descriptors from the configuring
/// URL and the memoized answers.
pub struct TexpressoBundle {
    /// Replies are read from this descriptor.
    pub input: i32,
    /// Requests are written to this descriptor.
    pub output: i32,
    /// The descriptor carrying the advisory lock around each round trip.
    pub lock: i32,
    pub cached: Vec<(String, CacheEntry)>,
}

/// A decimal digit byte.
pub open spec fn spec_is_digit(b: u8) -> bool {
    48 <= b <= 57
}

/// A non-empty run of decimal digit bytes.
pub open spec fn spec_all_digits(s: Seq<u8>) -> bool {
    s.len() > 0 && forall|i: int| 0 <= i < s.len() ==> spec_is_digit(#[trigger] s[i])
}

/// The value of a digit string.
pub open spec fn spec_dec_val(s: Seq<u8>) -> int
    decreases s.len(),
{
    if s.len() == 0 {
        0
    } else {
        spec_dec_val(s.drop_last()) * 10 + (s.last() - 48)
    }
}

/// The signed 32-bit integer a byte string denotes: an optional sign, then
/// one or more decimal digits, with the value in range; anything else is
/// rejected.
pub open spec fn spec_parse_i32(s: Seq<u8>) -> Option<i32> {
    if s.len() > 0 && (s[0] == 43 || s[0] == 45) {
        let digits = s.subrange(1, s.len() as int);
        if spec_all_digits(digits) {
            let v = spec_dec_val(digits);
            if s[0] == 45 {
                if v <= 0x8000_0000 {
                    Some((-v) as i32)
                } else {
                    None
                }
            } else {
                if v <= 0x7FFF_FFFF {
                    Some(v as i32)
                } else {
                    None
                }
            }
        } else {
            None
        }
    } else {
        if spec_all_digits(s) {
            let v = spec_dec_val(s);
            if v <= 0x7FFF_FFFF {
                Some(v as i32)
            } else {
                None
            }
        } else {
            None
        }
    }
}

/// The value of a digit string is non-negative.
proof fn lemma_dec_val_nonneg(s: Seq<u8>)
    requires
        forall|i: int| 0 <= i < s.len() ==> spec_is_digit(#[trigger] s[i]),
    ensures
        spec_dec_val(s) >= 0,
    decreases s.len(),
{
    if s.len() > 0 {
        lemma_dec_val_nonneg(s.drop_last());
    }
}

/// Parses the byte range `[from, to)` of `s` as a signed 32-bit integer.
pub fn parse_i32_range(s: &[u8], from: usize, to: usize) -> (r: Option<i32>)
    requires
        from <= to <= s@.len(),
    ensures
        r == spec_parse_i32(s@.subrange(from as int, to as int)),
{
    let ghost field = s@.subrange(from as int, to as int);
    if from == to {
        return None;
    }
    let first = s[from];
    let neg = first == 45;
    let digits_from = if first == 43 || first == 45 {
        from + 1
    } else {
        from
    };
    let ghost digits = s@.subrange(digits_from as int, to as int);
    assert(field[0] == first);
    assert((first == 43 || first == 45) ==> digits =~= field.subrange(1, field.len() as int));
    assert(!(first == 43 || first == 45) ==> digits =~= field);
    if digits_from == to {
        return None;
    }
    let mut i: usize = digits_from;
    let mut mag: u64 = 0;
    let mut over: bool = false;
    while i < to
        invariant
            from <= digits_from <= i <= to <= s@.len(),
            from < to,
            digits_from == from || digits_from == from + 1,
            digits_from < to,
            field == s@.subrange(from as int, to as int),
            digits == s@.subrange(digits_from as int, to as int),
            first == s@[from as int],
            neg == (first == 45),
            digits_from == from + 1 <==> (first == 43 || first == 45),
            (first == 43 || first == 45) ==> digits == field.subrange(1, field.len() as int),
            !(first == 43 || first == 45) ==> digits == field,
            forall|j: int|
                0 <= j < i - digits_from ==> spec_is_digit(#[trigger] digits[j]),
            !over ==> mag == spec_dec_val(digits.subrange(0, i - digits_from)) && mag
                <= 0x8000_0000,
            over ==> spec_dec_val(digits.subrange(0, i - digits_from)) > 0x8000_0000,
        decreases to - i,
    {
        let b = s[i];
        assert(digits[i - digits_from] == b);
        if b < 48 || b > 57 {
            assert(!spec_is_digit(digits[i - digits_from]));
            assert(!spec_all_digits(digits));
            return None;
        }
        let ghost pre = digits.subrange(0, i - digits_from);
        let ghost cur = digits.subrange(0, i + 1 - digits_from);
        assert(cur.drop_last() =~= pre);
        assert(cur.last() == b);
        if !over {
            let step = mag * 10 + ((b - 48) as u64);
            if step > 0x8000_0000 {
                over = true;
            } else {
                mag = step;
            }
        } else {
            proof {
                lemma_dec_val_nonneg(pre);
            }
        }
        i = i + 1;
    }
    assert(digits.subrange(0, (to - digits_from) as int) =~= digits);
    assert(spec_all_digits(digits));
    if over {
        proof {
            if neg {
                assert(spec_dec_val(digits) > 0x8000_0000);
            }
        }
        return None;
    }
    if neg {
        if mag == 0x8000_0000 {
            Some(i32::MIN)
        } else {
            Some(-(mag as i32))
        }
    } else {
        if mag > 0x7FFF_FFFF {
            None
        } else {
            Some(mag as i32)
        }
    }
}

/// The 19 bytes of the URL scheme prefix `texpresso-bundle://` in ASCII.
pub open spec fn spec_bundle_prefix() -> Seq<u8> {
    seq![
        116u8,
        101,
        120,
        112,
        114,
        101,
        115,
        115,
        111,
        45,
        98,
        117,
        110,
        100,
        108,
        101,
        58,
        47,
        47,
    ]
}

/// The three descriptors a bundle URL denotes, as `(lock, output, input)`:
/// the part after the scheme prefix is split at its last two commas, parsed
/// right to left.
pub open spec fn spec_connect(b: Seq<u8>) -> Option<(i32, i32, i32)> {
    if b.len() >= 19 && b.subrange(0, 19) == spec_bundle_prefix() {
        let rest = b.subrange(19, b.len() as int);
        match rest.index_of_last(44u8) {
            Option::None => Option::None,
            Option::Some(c2) => {
                let head = rest.subrange(0, c2);
                match head.index_of_last(44u8) {
                    Option::None => Option::None,
                    Option::Some(c1) => {
                        let lock = spec_parse_i32(head.subrange(0, c1));
                        let outp = spec_parse_i32(head.subrange(c1 + 1, c2));
                        let inp = spec_parse_i32(rest.subrange(c2 + 1, rest.len() as int));
                        if lock is Some && outp is Some && inp is Some {
                            Option::Some((lock->0, outp->0, inp->0))
                        } else {
                            Option::None
                        }
                    },
                }
            },
        }
    } else {
        Option::None
    }
}

/// The index of the last comma in `[from, to)` of `s`, if any.
fn rfind_comma(s: &[u8], from: usize, to: usize) -> (r: Option<usize>)
    requires
        from <= to <= s@.len(),
    ensures
        r matches Some(i) ==> from <= i < to && s@[i as int] == 44 && (forall|j: int|
            i < j < to ==> s@[j] != 44),
        r is None ==> forall|j: int| from <= j < to ==> s@[j] != 44,
{
    let mut k: usize = to;
    while k > from
        invariant
            from <= k <= to <= s@.len(),
            forall|j: int| k <= j < to ==> s@[j] != 44,
        decreases k,
    {
        k = k - 1;
        if s[k] == 44 {
            return Some(k);
        }
    }
    None
}

impl TexpressoBundle {
    /// Keys in the memo are distinct.
    pub open spec fn wf(&self) -> bool {
        forall|i: int, j: int|
            0 <= i < j < self.cached@.len() ==> (#[trigger] self.cached@[i]).0@ != (
            #[trigger] self.cached@[j]).0@
    }

    /// A name the memo already holds an answer for.
    pub open spec fn cache_has(&self, name: Seq<char>) -> bool {
        exists|i: int| 0 <= i < self.cached@.len() && (#[trigger] self.cached@[i]).0@ == name
    }

    /// Parses a bundle URL. The descriptors are taken right to left from
    /// the comma-separated suffix; a malformed URL gives nothing.
    pub fn connect(url: &str) -> (r: Option<TexpressoBundle>)
        ensures
            r is Some <==> spec_connect(url.spec_bytes()) is Some,
            r matches Some(b) ==> spec_connect(url.spec_bytes()) == Some(
                (b.lock, b.output, b.input),
            ) && b.cached@.len() == 0 && b.wf(),
    {
        let bytes = url.as_bytes();
        let n = bytes.len();
        if n < 19 {
            return None;
        }
        let prefix = [
            116u8,
            101,
            120,
            112,
            114,
            101,
            115,
            115,
            111,
            45,
            98,
            117,
            110,
            100,
            108,
            101,
            58,
            47,
            47,
        ];
        assert(prefix@ =~= spec_bundle_prefix());
        let mut i: usize = 0;
        while i < 19
            invariant
                0 <= i <= 19,
                n == bytes@.len(),
                n >= 19,
                bytes@ == url.spec_bytes(),
                prefix@ =~= spec_bundle_prefix(),
                forall|j: int| 0 <= j < i ==> bytes@[j] == spec_bundle_prefix()[j],
            decreases 19 - i,
        {
            if bytes[i] != prefix[i] {
                assert(bytes@.subrange(0, 19)[i as int] != spec_bundle_prefix()[i as int]);
                return None;
            }
            i = i + 1;
        }
        assert(bytes@.subrange(0, 19) =~= spec_bundle_prefix());
        let ghost rest = bytes@.subrange(19, n as int);
        let c2 = match rfind_comma(bytes, 19, n) {
            Some(c2) => c2,
            None => {
                proof {
                    rest.index_of_last_ensures(44u8);
                    if rest.contains(44u8) {
                        let w = choose|w: int| 0 <= w < rest.len() && rest[w] == 44u8;
                        assert(bytes@[19 + w] == 44);
                    }
                }
                return None;
            },
        };
        proof {
            rest.index_of_last_ensures(44u8);
            assert(rest[c2 - 19] == 44);
            assert(rest.contains(44u8));
            let li = rest.index_of_last(44u8)->0;
            assert(rest[li] == 44);
            if li > c2 - 19 {
                assert(bytes@[19 + li] == 44);
            }
            assert(li == c2 - 19);
        }
        let c1 = match rfind_comma(bytes, 19, c2) {
            Some(c1) => c1,
            None => {
                proof {
                    let head = rest.subrange(0, c2 - 19);
                    head.index_of_last_ensures(44u8);
                    if head.contains(44u8) {
                        let w = choose|w: int| 0 <= w < head.len() && head[w] == 44u8;
                        assert(bytes@[19 + w] == 44);
                    }
                }
                return None;
            },
        };
        proof {
            let head = rest.subrange(0, c2 - 19);
            head.index_of_last_ensures(44u8);
            assert(head[c1 - 19] == 44);
            assert(head.contains(44u8));
            let li = head.index_of_last(44u8)->0;
            assert(head[li] == 44);
            if li > c1 - 19 {
                assert(bytes@[19 + li] == 44);
            }
            assert(li == c1 - 19);
        }
        let lock = match parse_i32_range(bytes, 19, c1) {
            Some(v) => v,
            None => {
                proof {
                    assert(rest.subrange(0, c2 - 19).subrange(0, c1 - 19) =~= bytes@.subrange(
                        19,
                        c1 as int,
                    ));
                }
                return None;
            },
        };
        let outp = match parse_i32_range(bytes, c1 + 1, c2) {
            Some(v) => v,
            None => {
                proof {
                    assert(rest.subrange(0, c2 - 19).subrange(c1 + 1 - 19, c2 - 19)
                        =~= bytes@.subrange(c1 + 1, c2 as int));
                }
                return None;
            },
        };
        let inp = match parse_i32_range(bytes, c2 + 1, n) {
            Some(v) => v,
            None => {
                proof {
                    assert(rest.subrange(c2 + 1 - 19, rest.len() as int) =~= bytes@.subrange(
                        c2 + 1,
                        n as int,
                    ));
                }
                return None;
            },
        };
        proof {
            assert(rest.subrange(0, c2 - 19).subrange(0, c1 - 19) =~= bytes@.subrange(
                19,
                c1 as int,
            ));
            assert(rest.subrange(0, c2 - 19).subrange(c1 + 1 - 19, c2 - 19) =~= bytes@.subrange(
                c1 + 1,
                c2 as int,
            ));
            assert(rest.subrange(c2 + 1 - 19, rest.len() as int) =~= bytes@.subrange(
                c2 + 1,
                n as int,
            ));
        }
        Some(TexpressoBundle { input: inp, output: outp, lock, cached: Vec::new() })
    }

    /// The bundle mode serves no file listing.
    pub fn all_files(&self) -> (r: Vec<String>)
        ensures
            r@.len() == 0,
    {
        Vec::new()
    }

    /// The memoized answer for a name, if one was recorded.
    pub fn lookup(&self, name: &str) -> (r: Option<&CacheEntry>)
        ensures
            r is Some <==> self.cache_has(name@),
            r matches Some(e) ==> exists|i: int|
                0 <= i < self.cached@.len() && (#[trigger] self.cached@[i]).0@ == name@ && *e
                    == self.cached@[i].1,
    {
        let mut i: usize = 0;
        while i < self.cached.len()
            invariant
                0 <= i <= self.cached@.len(),
                forall|j: int| 0 <= j < i ==> (#[trigger] self.cached@[j]).0@ != name@,
            decreases self.cached@.len() - i,
        {
            if str_eq(self.cached[i].0.as_str(), name) {
                return Some(&self.cached[i].1);
            }
            i = i + 1;
        }
        None
    }

    /// Memoizes the server's answer for a name not asked before.
    pub fn record(&mut self, name: &str, entry: CacheEntry)
        requires
            old(self).wf(),
            !old(self).cache_has(name@),
        ensures
            final(self).wf(),
            final(self).cached@.len() == old(self).cached@.len() + 1,
            final(self).cached@.subrange(0, old(self).cached@.len() as int) == old(self).cached@,
            final(self).cached@.last().0@ == name@,
            final(self).cached@.last().1 == entry,
            final(self).cache_has(name@),
            final(self).input == old(self).input,
            final(self).output == old(self).output,
            final(self).lock == old(self).lock,
    {
        let key = name.to_owned();
        self.cached.push((key, entry));
        assert(final(self).cached@[final(self).cached@.len() - 1].0@ == name@);
        assert forall|i: int, j: int|
            0 <= i < j < self.cached@.len() implies (#[trigger] self.cached@[i]).0@ != (
        #[trigger] self.cached@[j]).0@ by {
            if j < self.cached@.len() - 1 {
                assert(old(self).cached@[i].0@ != old(self).cached@[j].0@);
            } else {
                assert(self.cached@[j].0@ == name@);
                assert(!old(self).cache_has(name@));
                assert(old(self).cached@[i].0@ != name@);
            }
        }
    }
}

/// The kind of a bundle-server reply, decoded from its first byte: `E` for
/// an error text, `P` for a local path, `C` for raw content; anything else
/// is a protocol violation.
#[derive(Clone, Copy, PartialEq, Eq, Debug)]
pub enum AnswerKind {
    Error,
    Path,
    Content,
    Invalid,
}

/// Classifies the first byte of a bundle-server reply.
pub fn classify_answer(code: u8) -> (r: AnswerKind)
    ensures
        code == 69 ==> r is Error,
        code == 80 ==> r is Path,
        code == 67 ==> r is Content,
        !(code == 69 || code == 80 || code == 67) ==> r is Invalid,
{
    if code == 69 {
        AnswerKind::Error
    } else if code == 80 {
        AnswerKind::Path
    } else if code == 67 {
        AnswerKind::Content
    } else {
        AnswerKind::Invalid
    }
}

} // verus!
