//! Character-level helpers: rendering small integers as decimal or binary
//! text, trimming whitespace, and comparing strings, each against an exact
//! sequence-of-characters specification.

use vstd::assert_by_contradiction;
use vstd::prelude::*;
use vstd::string::StrSliceExecFns;
use vstd::string::StringExecFns;

verus! {

/// The character for a single decimal (or binary) digit value.
pub open spec fn digit_char(d: nat) -> char {
    if d == 0 {
        '0'
    } else if d == 1 {
        '1'
    } else if d == 2 {
        '2'
    } else if d == 3 {
        '3'
    } else if d == 4 {
        '4'
    } else if d == 5 {
        '5'
    } else if d == 6 {
        '6'
    } else if d == 7 {
        '7'
    } else if d == 8 {
        '8'
    } else {
        '9'
    }
}

/// The decimal rendering of `v`, most significant digit first, no leading
/// zeros (a lone `0` for zero itself).
pub open spec fn spec_u8_decimal(v: nat) -> Seq<char>
    decreases v,
{
    if v < 10 {
        seq![digit_char(v)]
    } else {
        spec_u8_decimal(v / 10).push(digit_char(v % 10))
    }
}

/// The 32-bit binary rendering of `v`, most significant bit first.
pub open spec fn spec_u32_binary(v: u32) -> Seq<char> {
    Seq::new(32, |i: int| if (v >> ((31 - i) as u32)) & 1u32 == 1u32 {
        '1'
    } else {
        '0'
    })
}

/// The 8-bit binary rendering of `v`, most significant bit first.
pub open spec fn spec_u8_binary(v: u8) -> Seq<char> {
    Seq::new(8, |i: int| if (v >> ((7 - i) as u8)) & 1u8 == 1u8 {
        '1'
    } else {
        '0'
    })
}

fn digit_str(d: u8) -> (s: &'static str)
    requires
        d < 10,
    ensures
        s@ == seq![digit_char(d as nat)],
{
    proof {
        reveal_strlit("0");
        reveal_strlit("1");
        reveal_strlit("2");
        reveal_strlit("3");
        reveal_strlit("4");
        reveal_strlit("5");
        reveal_strlit("6");
        reveal_strlit("7");
        reveal_strlit("8");
        reveal_strlit("9");
    }
    let s = match d {
        0 => "0",
        1 => "1",
        2 => "2",
        3 => "3",
        4 => "4",
        5 => "5",
        6 => "6",
        7 => "7",
        8 => "8",
        _ => "9",
    };
    proof {
        assert(s@ =~= seq![digit_char(d as nat)]);
    }
    s
}

/// Render `v` in decimal.
pub(crate) fn u8_decimal_string(v: u8) -> (s: String)
    ensures
        s@ == spec_u8_decimal(v as nat),
{
    let mut out = String::new();
    if v >= 10 {
        let q: u8 = v / 10;
        if q >= 10 {
            out.append(digit_str(q / 10));
            proof {
                assert(spec_u8_decimal((q / 10) as nat) == seq![digit_char((q / 10) as nat)]);
            }
        }
        out.append(digit_str(q % 10));
        proof {
            assert(spec_u8_decimal(q as nat) == if q < 10 {
                seq![digit_char(q as nat)]
            } else {
                spec_u8_decimal((q / 10) as nat).push(digit_char((q % 10) as nat))
            });
        }
    }
    out.append(digit_str(v % 10));
    proof {
        assert(spec_u8_decimal(v as nat) == if v < 10 {
            seq![digit_char(v as nat)]
        } else {
            spec_u8_decimal((v / 10) as nat).push(digit_char((v % 10) as nat))
        });
        assert(out@ =~= spec_u8_decimal(v as nat));
    }
    out
}

/// Render `v` as 32 binary digits.
pub(crate) fn u32_binary_string(v: u32) -> (s: String)
    ensures
        s@ == spec_u32_binary(v),
{
    proof {
        reveal_strlit("0");
        reveal_strlit("1");
    }
    let mut out = String::new();
    let mut j: u32 = 0;
    while j < 32
        invariant
            j <= 32,
            out@ =~= spec_u32_binary(v).take(j as int),
        decreases 32 - j,
    {
        proof {
            reveal_strlit("0");
            reveal_strlit("1");
        }
        let sh: u32 = 31 - j;
        if ((v >> sh) & 1) == 1 {
            out.append("1");
        } else {
            out.append("0");
        }
        proof {
            assert(out@ =~= spec_u32_binary(v).take((j + 1) as int));
        }
        j = j + 1;
    }
    proof {
        assert(spec_u32_binary(v).take(32) =~= spec_u32_binary(v));
    }
    out
}

/// Render `v` as 8 binary digits.
pub(crate) fn u8_binary_string(v: u8) -> (s: String)
    ensures
        s@ == spec_u8_binary(v),
{
    proof {
        reveal_strlit("0");
        reveal_strlit("1");
    }
    let mut out = String::new();
    let mut j: u8 = 0;
    while j < 8
        invariant
            j <= 8,
            out@ =~= spec_u8_binary(v).take(j as int),
        decreases 8 - j,
    {
        proof {
            reveal_strlit("0");
            reveal_strlit("1");
        }
        let sh: u8 = 7 - j;
        if ((v >> sh) & 1) == 1 {
            out.append("1");
        } else {
            out.append("0");
        }
        proof {
            assert(out@ =~= spec_u8_binary(v).take((j + 1) as int));
        }
        j = j + 1;
    }
    proof {
        assert(spec_u8_binary(v).take(8) =~= spec_u8_binary(v));
    }
    out
}

/// Whitespace as Unicode defines the `White_Space` property, the set that
/// `str::trim` removes.
pub open spec fn spec_is_whitespace(c: char) -> bool {
    let u = c as u32;
    u == 0x9 || u == 0xA || u == 0xB || u == 0xC || u == 0xD || u == 0x20 || u == 0x85 || u == 0xA0
        || u == 0x1680 || (0x2000 <= u && u <= 0x200A) || u == 0x2028 || u == 0x2029 || u == 0x202F
        || u == 0x205F || u == 0x3000
}

pub(crate) fn is_whitespace_char(c: char) -> (r: bool)
    ensures
        r == spec_is_whitespace(c),
{
    let u = c as u32;
    u == 0x9 || u == 0xA || u == 0xB || u == 0xC || u == 0xD || u == 0x20 || u == 0x85 || u == 0xA0
        || u == 0x1680 || (0x2000 <= u && u <= 0x200A) || u == 0x2028 || u == 0x2029 || u == 0x202F
        || u == 0x205F || u == 0x3000
}

/// `s` with leading whitespace removed.
pub open spec fn spec_trim_start(s: Seq<char>) -> Seq<char>
    decreases s.len(),
{
    if s.len() == 0 {
        s
    } else if spec_is_whitespace(s[0]) {
        spec_trim_start(s.drop_first())
    } else {
        s
    }
}

/// `s` with trailing whitespace removed.
pub open spec fn spec_trim_end(s: Seq<char>) -> Seq<char>
    decreases s.len(),
{
    if s.len() == 0 {
        s
    } else if spec_is_whitespace(s.last()) {
        spec_trim_end(s.drop_last())
    } else {
        s
    }
}

/// `s` with whitespace removed from both ends, as `str::trim` does.
pub open spec fn spec_trim(s: Seq<char>) -> Seq<char> {
    spec_trim_end(spec_trim_start(s))
}

proof fn lemma_trim_start_at(s: Seq<char>, k: int)
    requires
        0 <= k <= s.len(),
        forall|j: int| 0 <= j < k ==> spec_is_whitespace(s[j]),
        k == s.len() || !spec_is_whitespace(s[k]),
    ensures
        spec_trim_start(s) == s.subrange(k, s.len() as int),
    decreases k,
{
    if k == 0 {
        assert(s.subrange(0, s.len() as int) =~= s);
    } else {
        assert(spec_is_whitespace(s[0]));
        let t = s.drop_first();
        lemma_trim_start_at(t, k - 1);
        assert(t.subrange(k - 1, t.len() as int) =~= s.subrange(k, s.len() as int));
    }
}

proof fn lemma_trim_end_at(s: Seq<char>, k: int)
    requires
        0 <= k <= s.len(),
        forall|j: int| k <= j < s.len() ==> spec_is_whitespace(s[j]),
        k == 0 || !spec_is_whitespace(s[k - 1]),
    ensures
        spec_trim_end(s) == s.subrange(0, k),
    decreases s.len() - k,
{
    if k == s.len() {
        assert(s.subrange(0, k) =~= s);
    } else {
        assert(spec_is_whitespace(s.last()));
        let t = s.drop_last();
        lemma_trim_end_at(t, k);
        assert(t.subrange(0, k) =~= s.subrange(0, k));
    }
}

/// Compare the character range `[from, to)` of `s` with the whole of `t`.
pub(crate) fn str_range_eq(s: &str, from: usize, to: usize, t: &str) -> (r: bool)
    requires
        from <= to,
        to <= s@.len(),
    ensures
        r == (s@.subrange(from as int, to as int) == t@),
{
    let tlen = t.unicode_len();
    if to - from != tlen {
        proof {
            assert(s@.subrange(from as int, to as int).len() != t@.len());
        }
        return false;
    }
    let mut i: usize = 0;
    while i < tlen
        invariant
            i <= tlen,
            tlen == t@.len(),
            from <= to <= s@.len(),
            to - from == tlen,
            forall|k: int| 0 <= k < i ==> s@[from + k] == t@[k],
        decreases tlen - i,
    {
        if s.get_char(from + i) != t.get_char(i) {
            proof {
                assert_by_contradiction!(s@.subrange(from as int, to as int) != t@, {
                    assert(s@.subrange(from as int, to as int)[i as int] == t@[i as int]);
                });
            }
            return false;
        }
        i += 1;
    }
    proof {
        assert(s@.subrange(from as int, to as int) =~= t@);
    }
    true
}

/// Compare two strings character by character.
pub(crate) fn str_eq(a: &str, b: &str) -> (r: bool)
    ensures
        r == (a@ == b@),
{
    let alen = a.unicode_len();
    if alen != b.unicode_len() {
        proof {
            assert(a@.len() != b@.len());
        }
        return false;
    }
    let r = str_range_eq(a, 0, alen, b);
    proof {
        assert(a@.subrange(0, alen as int) =~= a@);
    }
    r
}

/// Find the bounds of `s` without its leading and trailing whitespace:
/// `spec_trim(s@)` is exactly the character range `[r.0, r.1)` of `s`.
pub(crate) fn trimmed_bounds(s: &str) -> (r: (usize, usize))
    ensures
        r.0 <= r.1 <= s@.len(),
        spec_trim(s@) == s@.subrange(r.0 as int, r.1 as int),
{
    let n = s.unicode_len();
    let mut start: usize = 0;
    loop
        invariant
            n == s@.len(),
            start <= n,
            forall|j: int| 0 <= j < start ==> spec_is_whitespace(s@[j]),
        ensures
            start <= n,
            forall|j: int| 0 <= j < start ==> spec_is_whitespace(s@[j]),
            start == n || !spec_is_whitespace(s@[start as int]),
        decreases n - start,
    {
        if start == n {
            break ;
        }
        if !is_whitespace_char(s.get_char(start)) {
            break ;
        }
        start += 1;
    }
    let mut end: usize = n;
    loop
        invariant
            n == s@.len(),
            start <= end <= n,
            forall|j: int| end <= j < n ==> spec_is_whitespace(s@[j]),
        ensures
            start <= end <= n,
            forall|j: int| end <= j < n ==> spec_is_whitespace(s@[j]),
            end == start || !spec_is_whitespace(s@[end - 1]),
        decreases end,
    {
        if end == start {
            break ;
        }
        if !is_whitespace_char(s.get_char(end - 1)) {
            break ;
        }
        end -= 1;
    }
    proof {
        lemma_trim_start_at(s@, start as int);
        let t = s@.subrange(start as int, n as int);
        lemma_trim_end_at(t, (end - start) as int);
        assert(t.subrange(0, (end - start) as int) =~= s@.subrange(start as int, end as int));
    }
    (start, end)
}

} // verus!
