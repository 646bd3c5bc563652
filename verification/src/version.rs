//! Semantic versions of release tags.
//!
//! Release metadata carries a tag of the form `vMAJOR.MINOR.PATCH`.
//! Parsing is specified functionally: the tag's bytes after the
//! leading `v` are split on dots, and the tag is valid exactly when
//! that yields three non-empty all-digit parts whose values fit in 32
//! bits.

use vstd::prelude::*;

use crate::text::bytes_of;

verus! {

/// A parsed `vMAJOR.MINOR.PATCH` version.
#[derive(Clone, Copy, Debug, PartialEq, Eq, Structural)]
pub struct SemVersion {
    pub major: u32,
    pub minor: u32,
    pub patch: u32,
}

/// An ASCII decimal digit.
pub open spec fn is_digit(b: u8) -> bool {
    48 <= b <= 57
}

/// Every byte is a decimal digit.
pub open spec fn all_digits(s: Seq<u8>) -> bool {
    forall|i: int| 0 <= i < s.len() ==> is_digit(#[trigger] s[i])
}

/// The number a digit string denotes.
pub open spec fn digits_value(s: Seq<u8>) -> int
    decreases s.len(),
{
    if s.len() == 0 {
        0
    } else {
        digits_value(s.drop_last()) * 10 + (s.last() - 48)
    }
}

/// Splitting a byte string on the dot byte.  The result always has
/// one part more than the string has dots; parts may be empty.
pub open spec fn split_dots(s: Seq<u8>) -> Seq<Seq<u8>>
    decreases s.len(),
{
    if s.len() == 0 {
        seq![Seq::empty()]
    } else {
        let rest = split_dots(s.drop_last());
        if s.last() == 46 {
            rest.push(Seq::empty())
        } else {
            rest.update(rest.len() - 1, rest.last().push(s.last()))
        }
    }
}

/// A split always yields at least one part.
pub proof fn lemma_split_dots_nonempty(s: Seq<u8>)
    ensures
        split_dots(s).len() >= 1,
    decreases s.len(),
{
    if s.len() > 0 {
        lemma_split_dots_nonempty(s.drop_last());
    }
}

/// A version part is usable when it is a non-empty digit string whose
/// value fits in 32 bits.
pub open spec fn part_ok(p: Seq<u8>) -> bool {
    p.len() > 0 && all_digits(p) && digits_value(p) <= u32::MAX
}

/// What the bytes of a valid tag parse to: a leading `v`, then three
/// usable parts separated by dots.
pub open spec fn spec_parse_version(s: Seq<u8>) -> Option<SemVersion> {
    if s.len() < 1 || s[0] != 118 {
        Option::None
    } else {
        let parts = split_dots(s.subrange(1, s.len() as int));
        if parts.len() == 3 && part_ok(parts[0]) && part_ok(parts[1]) && part_ok(parts[2]) {
            Option::Some(
                SemVersion {
                    major: digits_value(parts[0]) as u32,
                    minor: digits_value(parts[1]) as u32,
                    patch: digits_value(parts[2]) as u32,
                },
            )
        } else {
            Option::None
        }
    }
}

/// `a` is strictly newer than `b`, in lexicographic order of the
/// three components.
pub open spec fn spec_newer(a: SemVersion, b: SemVersion) -> bool {
    ||| a.major > b.major
    ||| (a.major == b.major && a.minor > b.minor)
    ||| (a.major == b.major && a.minor == b.minor && a.patch > b.patch)
}

/// A digit string's value is never negative.
proof fn lemma_digits_value_nonneg(s: Seq<u8>)
    requires
        all_digits(s),
    ensures
        digits_value(s) >= 0,
    decreases s.len(),
{
    if s.len() > 0 {
        assert(all_digits(s.drop_last()));
        assert(is_digit(s.last()));
        lemma_digits_value_nonneg(s.drop_last());
    }
}

/// The value of a digit-string prefix never exceeds the value of the
/// whole string.
proof fn lemma_digits_value_prefix(s: Seq<u8>, j: int)
    requires
        0 <= j <= s.len(),
        all_digits(s),
    ensures
        digits_value(s.take(j)) <= digits_value(s),
    decreases s.len(),
{
    if j < s.len() {
        assert(s.drop_last().take(j) =~= s.take(j));
        assert(all_digits(s.drop_last()));
        lemma_digits_value_prefix(s.drop_last(), j);
        lemma_digits_value_nonneg(s.drop_last());
        assert(is_digit(s.last()));
    } else {
        assert(s.take(j) =~= s);
    }
}

/// Evaluate one dot-separated part.  Yields the part's value, or
/// `None` when the part is empty, holds a non-digit, or overflows.
fn eval_part(p: &Vec<u8>) -> (r: Option<u32>)
    ensures
        r matches Some(v) ==> part_ok(p@) && v == digits_value(p@),
        r is None ==> !part_ok(p@),
{
    let n = p.len();
    if n == 0 {
        return Option::None;
    }
    let mut acc: u64 = 0;
    let mut j: usize = 0;
    while j < n
        invariant
            n == p@.len(),
            0 <= j <= n,
            all_digits(p@.take(j as int)),
            acc == digits_value(p@.take(j as int)),
            acc <= u32::MAX,
        decreases n - j,
    {
        let b = p[j];
        proof {
            assert(p@.take(j + 1).drop_last() =~= p@.take(j as int));
            assert(p@.take(j + 1).last() == p@[j as int]);
        }
        if b < 48 || b > 57 {
            proof {
                assert(!is_digit(p@[j as int]));
            }
            return Option::None;
        }
        let d = (b - 48) as u64;
        let widened = acc * 10 + d;
        if widened > 0xffff_ffff {
            proof {
                assert(digits_value(p@.take(j + 1)) > u32::MAX);
                if all_digits(p@) {
                    lemma_digits_value_prefix(p@, j + 1);
                }
            }
            return Option::None;
        }
        acc = widened;
        j += 1;
    }
    proof {
        assert(p@.take(n as int) =~= p@);
    }
    Option::Some(acc as u32)
}

/// Split the bytes after the leading `v` on dots.
fn split_tag(bytes: &[u8]) -> (r: Vec<Vec<u8>>)
    requires
        bytes@.len() >= 1,
    ensures
        r@.map_values(|p: Vec<u8>| p@) == split_dots(bytes@.subrange(1, bytes@.len() as int)),
{
    let n = bytes.len();
    let mut done: Vec<Vec<u8>> = Vec::new();
    let mut cur: Vec<u8> = Vec::new();
    let mut i: usize = 1;
    while i < n
        invariant
            n == bytes@.len(),
            1 <= i <= n,
            done@.map_values(|p: Vec<u8>| p@).push(cur@) == split_dots(
                bytes@.subrange(1, i as int),
            ),
        decreases n - i,
    {
        let b = bytes[i];
        proof {
            assert(bytes@.subrange(1, i + 1).drop_last() =~= bytes@.subrange(1, i as int));
            assert(bytes@.subrange(1, i + 1).last() == bytes@[i as int]);
        }
        if b == 46 {
            done.push(cur);
            cur = Vec::new();
            proof {
                assert(done@.map_values(|p: Vec<u8>| p@).push(cur@) =~= split_dots(
                    bytes@.subrange(1, i + 1),
                ));
            }
        } else {
            cur.push(b);
            proof {
                let prev = split_dots(bytes@.subrange(1, i as int));
                lemma_split_dots_nonempty(bytes@.subrange(1, i as int));
                assert(done@.map_values(|p: Vec<u8>| p@).push(cur@) =~= prev.update(
                    prev.len() - 1,
                    prev.last().push(bytes@[i as int]),
                ));
            }
        }
        i += 1;
    }
    done.push(cur);
    proof {
        assert(bytes@.subrange(1, n as int) =~= bytes@.subrange(1, n as int));
    }
    done
}

/// Parse a release tag of the form `vMAJOR.MINOR.PATCH`.
pub fn parse_version(tag: &str) -> (r: Option<SemVersion>)
    ensures
        r == spec_parse_version(bytes_of(tag@)),
{
    let bytes = tag.as_bytes();
    let n = bytes.len();
    if n < 1 {
        return Option::None;
    }
    if bytes[0] != 118 {
        return Option::None;
    }
    let parts = split_tag(bytes);
    proof {
        assert(parts@.map_values(|p: Vec<u8>| p@).len() == parts@.len());
    }
    if parts.len() != 3 {
        return Option::None;
    }
    proof {
        assert(parts@.map_values(|p: Vec<u8>| p@)[0] == parts@[0]@);
        assert(parts@.map_values(|p: Vec<u8>| p@)[1] == parts@[1]@);
        assert(parts@.map_values(|p: Vec<u8>| p@)[2] == parts@[2]@);
    }
    let major = eval_part(&parts[0]);
    let minor = eval_part(&parts[1]);
    let patch = eval_part(&parts[2]);
    match (major, minor, patch) {
        (Option::Some(a), Option::Some(b), Option::Some(c)) => Option::Some(
            SemVersion { major: a, minor: b, patch: c },
        ),
        _ => Option::None,
    }
}

/// Whether `candidate` is strictly newer than `current`.
pub fn is_newer(candidate: &SemVersion, current: &SemVersion) -> (r: bool)
    ensures
        r == spec_newer(*candidate, *current),
{
    if candidate.major != current.major {
        candidate.major > current.major
    } else if candidate.minor != current.minor {
        candidate.minor > current.minor
    } else {
        candidate.patch > current.patch
    }
}

} // verus!
