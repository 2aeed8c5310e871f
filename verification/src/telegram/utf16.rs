//! UTF-16 and UTF-8 lengths of text held as characters: Telegram counts
//! entity offsets in UTF-16 code units, Rust indexes strings by bytes.
use vstd::prelude::*;

verus! {

/// UTF-16 code units of one character: two outside the Basic Multilingual Plane.
pub open spec fn char_utf16_len(c: char) -> nat {
    if (c as u32) >= 0x10000 {
        2
    } else {
        1
    }
}

/// UTF-8 bytes of one character (`char::len_utf8`).
pub open spec fn char_utf8_len(c: char) -> nat {
    if (c as u32) < 0x80 {
        1
    } else if (c as u32) < 0x800 {
        2
    } else if (c as u32) < 0x10000 {
        3
    } else {
        4
    }
}

/// UTF-16 length of a text.
pub open spec fn utf16_len(s: Seq<char>) -> nat
    decreases s.len(),
{
    if s.len() == 0 {
        0
    } else {
        utf16_len(s.drop_last()) + char_utf16_len(s.last())
    }
}

/// UTF-8 length of a text.
pub open spec fn utf8_len(s: Seq<char>) -> nat
    decreases s.len(),
{
    if s.len() == 0 {
        0
    } else {
        utf8_len(s.drop_last()) + char_utf8_len(s.last())
    }
}

/// The number of leading characters of `s` that make up exactly `units`
/// UTF-16 code units, if a character boundary lies there.
pub open spec fn utf16_boundary(s: Seq<char>, units: int) -> Option<int> {
    if exists|k: int| 0 <= k <= s.len() && #[trigger] utf16_len(s.take(k)) == units {
        Some(choose|k: int| 0 <= k <= s.len() && #[trigger] utf16_len(s.take(k)) == units)
    } else {
        None
    }
}

pub fn char_utf16_units(c: char) -> (r: u8)
    ensures
        r == char_utf16_len(c),
{
    if (c as u32) >= 0x10000 {
        2
    } else {
        1
    }
}

pub fn char_utf8_units(c: char) -> (r: u8)
    ensures
        r == char_utf8_len(c),
{
    let v = c as u32;
    if v < 0x80 {
        1
    } else if v < 0x800 {
        2
    } else if v < 0x10000 {
        3
    } else {
        4
    }
}

/// Each further character adds at least one UTF-16 unit.
pub proof fn lemma_utf16_len_strictly_grows(s: Seq<char>, a: int, b: int)
    requires
        0 <= a < b <= s.len(),
    ensures
        utf16_len(s.take(a)) < utf16_len(s.take(b)),
    decreases b - a,
{
    let t = s.take(b);
    assert(t.drop_last() == s.take(b - 1));
    if a < b - 1 {
        lemma_utf16_len_strictly_grows(s, a, b - 1);
    }
}

/// Every character takes at most two UTF-16 units.
pub proof fn lemma_utf16_len_bound(s: Seq<char>)
    ensures
        utf16_len(s) <= 2 * s.len(),
    decreases s.len(),
{
    if s.len() > 0 {
        lemma_utf16_len_bound(s.drop_last());
    }
}

/// At most one character boundary lies at any UTF-16 offset.
pub proof fn lemma_utf16_boundary_unique(s: Seq<char>, k: int, units: int)
    requires
        0 <= k <= s.len(),
        utf16_len(s.take(k)) == units,
    ensures
        utf16_boundary(s, units) == Some(k),
{
    assert(exists|j: int| 0 <= j <= s.len() && #[trigger] utf16_len(s.take(j)) == units);
    let c = choose|j: int| 0 <= j <= s.len() && #[trigger] utf16_len(s.take(j)) == units;
    if c < k {
        lemma_utf16_len_strictly_grows(s, c, k);
    } else if k < c {
        lemma_utf16_len_strictly_grows(s, k, c);
    }
}

/// The character count at UTF-16 offset `units` of `s`, or `None` when the
/// offset runs past the end or lands inside a surrogate pair.
pub fn utf16_char_boundary(s: &[char], units: u128) -> (r: Option<usize>)
    ensures
        match r {
            Some(k) => utf16_boundary(s@, units as int) == Some(k as int),
            None => utf16_boundary(s@, units as int) is None,
        },
{
    let mut seen: u128 = 0;
    let mut i: usize = 0;
    while i < s.len()
        invariant
            i <= s@.len(),
            seen == utf16_len(s@.take(i as int)),
            seen <= 2 * i,
            forall|j: int| 0 <= j < i ==> #[trigger] utf16_len(s@.take(j)) != units,
        decreases s@.len() - i,
    {
        if seen == units {
            proof {
                lemma_utf16_boundary_unique(s@, i as int, units as int);
            }
            return Some(i);
        }
        let u = char_utf16_units(s[i]);
        proof {
            assert(s@.take(i + 1).drop_last() == s@.take(i as int));
        }
        seen = seen + u as u128;
        i = i + 1;
    }
    assert(s@.take(s@.len() as int) == s@);
    if seen == units {
        proof {
            lemma_utf16_boundary_unique(s@, i as int, units as int);
        }
        Some(i)
    } else {
        proof {
            assert forall|k: int| 0 <= k <= s@.len() implies #[trigger] utf16_len(s@.take(k)) != units by {
                if k == s@.len() {
                } else {
                }
            }
        }
        None
    }
}

/// UTF-8 lengths only grow along a text.
pub proof fn lemma_utf8_len_monotone(s: Seq<char>, a: int, b: int)
    requires
        0 <= a <= b <= s.len(),
    ensures
        utf8_len(s.take(a)) <= utf8_len(s.take(b)),
    decreases b - a,
{
    if a < b {
        let t = s.take(b);
        assert(t.drop_last() == s.take(b - 1));
        lemma_utf8_len_monotone(s, a, b - 1);
    }
}

/// The UTF-8 length of the first `k` characters of `s`.
pub fn utf8_prefix_len(s: &[char], k: usize) -> (r: usize)
    requires
        k <= s@.len(),
        utf8_len(s@) <= usize::MAX,
    ensures
        r == utf8_len(s@.take(k as int)),
{
    let mut n: usize = 0;
    let mut i: usize = 0;
    while i < k
        invariant
            k <= s@.len(),
            utf8_len(s@) <= usize::MAX,
            i <= k,
            n == utf8_len(s@.take(i as int)),
        decreases k - i,
    {
        proof {
            assert(s@.take(i + 1).drop_last() == s@.take(i as int));
            lemma_utf8_len_monotone(s@, i + 1, s@.len() as int);
            assert(s@.take(s@.len() as int) == s@);
        }
        n = n + char_utf8_units(s[i]) as usize;
        i = i + 1;
    }
    n
}

} // verus!
