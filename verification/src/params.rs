//! Numeric parameter handling for control sequences: splitting a parameter
//! region on separators and parsing bounded decimal numbers the way the
//! standard integer parser does (optional leading `+`, ASCII digits only,
//! overflow rejected).

use vstd::prelude::*;

verus! {

/// Whether `c` is an ASCII decimal digit.
pub open spec fn is_digit(c: char) -> bool {
    '0' <= c && c <= '9'
}

/// The numeric value of an ASCII digit.
pub open spec fn digit_val(c: char) -> int {
    c as int - 48
}

/// Whether `s` is one or more ASCII digits.
pub open spec fn is_digits(s: Seq<char>) -> bool {
    s.len() > 0 && forall|i: int| 0 <= i < s.len() ==> is_digit(s[i])
}

/// The value of a digit string read in base ten.
pub open spec fn dec_val(s: Seq<char>) -> int
    decreases s.len(),
{
    if s.len() == 0 {
        0
    } else {
        dec_val(s.drop_last()) * 10 + digit_val(s.last())
    }
}

/// `s` without one leading `+`, if present.
pub open spec fn strip_plus(s: Seq<char>) -> Seq<char> {
    if s.len() > 0 && s[0] == '+' {
        s.drop_first()
    } else {
        s
    }
}

/// The unbounded decimal value of `s`, read as the standard unsigned integer
/// parser does: an optional leading `+`, then one or more ASCII digits.
pub open spec fn parse_dec(s: Seq<char>) -> Option<int> {
    let t = strip_plus(s);
    if is_digits(t) {
        Some(dec_val(t))
    } else {
        None
    }
}

/// Parsing as `u16`: the decimal value if it fits.
pub open spec fn parse_u16(s: Seq<char>) -> Option<u16> {
    match parse_dec(s) {
        Some(v) => if v <= 65535 {
            Some(v as u16)
        } else {
            None
        },
        None => None,
    }
}

/// Parsing as `u8`: the decimal value if it fits.
pub open spec fn parse_u8(s: Seq<char>) -> Option<u8> {
    match parse_dec(s) {
        Some(v) => if v <= 255 {
            Some(v as u8)
        } else {
            None
        },
        None => None,
    }
}

/// A digit string has a non-negative value.
pub proof fn lemma_dec_val_nonneg(s: Seq<char>)
    requires
        forall|i: int| 0 <= i < s.len() ==> is_digit(s[i]),
    ensures
        dec_val(s) >= 0,
    decreases s.len(),
{
    if s.len() > 0 {
        lemma_dec_val_nonneg(s.drop_last());
    }
}

/// The executable digit test.
fn is_digit_char(c: char) -> (r: bool)
    ensures
        r == is_digit(c),
{
    '0' <= c && c <= '9'
}

/// The numeric value of an ASCII digit, executable form.
fn digit_of(c: char) -> (r: u32)
    requires
        is_digit(c),
    ensures
        r == digit_val(c),
{
    (c as u32) - 48
}

/// Parse `s` as a decimal number no greater than `max`, as the standard
/// unsigned parsers do; `None` on an empty or malformed string and on any
/// value above `max`.
pub fn parse_uint_chars(s: &[char], max: u32) -> (r: Option<u32>)
    requires
        max <= 65535,
    ensures
        r == match parse_dec(s@) {
            Some(d) => if d <= max {
                Some(d as u32)
            } else {
                None::<u32>
            },
            None => None::<u32>,
        },
{
    let n = s.len();
    let start: usize = if n > 0 && s[0] == '+' {
        1
    } else {
        0
    };
    let ghost t = strip_plus(s@);
    proof {
        assert(t =~= s@.subrange(start as int, n as int));
    }
    if start >= n {
        return None;
    }
    let mut val: u32 = 0;
    let mut over: bool = false;
    let mut i: usize = start;
    while i < n
        invariant
            max <= 65535,
            start <= i <= n,
            n == s@.len(),
            start == if n > 0 && s@[0] == '+' { 1int } else { 0int },
            t =~= s@.subrange(start as int, n as int),
            forall|j: int| start <= j < i ==> is_digit(s@[j]),
            !over ==> val <= max && val == dec_val(s@.subrange(start as int, i as int)),
            over ==> dec_val(s@.subrange(start as int, i as int)) > max,
        decreases n - i,
    {
        let c = s[i];
        let ghost pre = s@.subrange(start as int, i as int);
        proof {
            assert(s@.subrange(start as int, i + 1).drop_last() =~= pre);
        }
        if !is_digit_char(c) {
            proof {
                assert(t[i - start] == s@[i as int]);
                assert(!is_digits(t));
            }
            return None;
        }
        let d = digit_of(c);
        if over {
            proof {
                lemma_dec_val_nonneg(pre);
                assert(dec_val(s@.subrange(start as int, i + 1)) == dec_val(pre) * 10
                    + digit_val(c));
                assert(dec_val(pre) * 10 > max);
            }
        } else {
            proof {
                assert(val <= 65535);
                assert(d <= 9);
            }
            let next = val * 10 + d;
            if next > max {
                over = true;
            } else {
                val = next;
            }
            proof {
                assert(dec_val(s@.subrange(start as int, i + 1)) == dec_val(pre) * 10
                    + digit_val(c));
            }
        }
        i = i + 1;
    }
    proof {
        assert(s@.subrange(start as int, n as int) =~= t);
        assert(is_digits(t));
    }
    if over {
        None
    } else {
        Some(val)
    }
}

/// Parse as `u16` exactly as the standard parser does.
pub fn parse_u16_chars(s: &[char]) -> (r: Option<u16>)
    ensures
        r == parse_u16(s@),
{
    proof {
        if parse_dec(s@) is Some {
            lemma_dec_val_nonneg(strip_plus(s@));
        }
    }
    match parse_uint_chars(s, 65535) {
        Some(v) => Some(v as u16),
        None => None,
    }
}

/// Parse as `u8` exactly as the standard parser does.
pub fn parse_u8_chars(s: &[char]) -> (r: Option<u8>)
    ensures
        r == parse_u8(s@),
{
    proof {
        if parse_dec(s@) is Some {
            lemma_dec_val_nonneg(strip_plus(s@));
        }
    }
    match parse_uint_chars(s, 255) {
        Some(v) => Some(v as u8),
        None => None,
    }
}

/// The segments of `s` between occurrences of `sep`; always at least one
/// segment, and an empty string yields one empty segment.
pub open spec fn split_sep(s: Seq<char>, sep: char) -> Seq<Seq<char>>
    decreases s.len(),
{
    if s.len() == 0 {
        seq![Seq::<char>::empty()]
    } else if s.last() == sep {
        split_sep(s.drop_last(), sep).push(Seq::<char>::empty())
    } else {
        let r = split_sep(s.drop_last(), sep);
        r.update(r.len() - 1, r.last().push(s.last()))
    }
}

/// Splitting always yields at least one segment.
pub proof fn lemma_split_sep_len(s: Seq<char>, sep: char)
    ensures
        split_sep(s, sep).len() >= 1,
    decreases s.len(),
{
    if s.len() > 0 {
        lemma_split_sep_len(s.drop_last(), sep);
    }
}

/// The views of a vector of character vectors.
pub open spec fn views_of(vs: Seq<Vec<char>>) -> Seq<Seq<char>> {
    vs.map_values(|v: Vec<char>| v@)
}

/// Split `s` on `sep` into its segments.
pub fn split_chars(s: &[char], sep: char) -> (r: Vec<Vec<char>>)
    ensures
        views_of(r@) == split_sep(s@, sep),
{
    let n = s.len();
    let mut parts: Vec<Vec<char>> = Vec::new();
    let mut cur: Vec<char> = Vec::new();
    let mut i: usize = 0;
    proof {
        assert(s@.take(0) =~= Seq::<char>::empty());
        assert(views_of(parts@).push(cur@) =~= split_sep(s@.take(0), sep));
    }
    while i < n
        invariant
            0 <= i <= n,
            n == s@.len(),
            views_of(parts@).push(cur@) =~= split_sep(s@.take(i as int), sep),
        decreases n - i,
    {
        let c = s[i];
        let ghost before = split_sep(s@.take(i as int), sep);
        proof {
            lemma_split_sep_len(s@.take(i as int), sep);
            assert(s@.take(i + 1).drop_last() =~= s@.take(i as int));
            assert(s@.take(i + 1).last() == s@[i as int]);
        }
        if c == sep {
            parts.push(cur);
            cur = Vec::new();
            proof {
                assert(views_of(parts@).push(cur@) =~= before.push(Seq::<char>::empty()));
                assert(split_sep(s@.take(i + 1), sep) == before.push(Seq::<char>::empty()));
            }
        } else {
            cur.push(c);
            proof {
                assert(before.len() >= 1);
                assert(views_of(parts@).push(cur@) =~= before.update(
                    before.len() - 1,
                    before.last().push(s@[i as int]),
                ));
                assert(split_sep(s@.take(i + 1), sep) == before.update(
                    before.len() - 1,
                    before.last().push(s@[i as int]),
                ));
            }
        }
        i = i + 1;
    }
    proof {
        assert(s@.take(n as int) =~= s@);
    }
    parts.push(cur);
    parts
}

/// The numbers among the segments that parse as `u16`, malformed segments
/// dropped.
pub open spec fn parsed_u16s(parts: Seq<Seq<char>>) -> Seq<u16>
    decreases parts.len(),
{
    if parts.len() == 0 {
        Seq::<u16>::empty()
    } else {
        let r = parsed_u16s(parts.drop_last());
        match parse_u16(parts.last()) {
            Some(v) => r.push(v),
            None => r,
        }
    }
}

/// The numbers among the segments that parse as `u8`, malformed segments
/// dropped.
pub open spec fn parsed_u8s(parts: Seq<Seq<char>>) -> Seq<u8>
    decreases parts.len(),
{
    if parts.len() == 0 {
        Seq::<u8>::empty()
    } else {
        let r = parsed_u8s(parts.drop_last());
        match parse_u8(parts.last()) {
            Some(v) => r.push(v),
            None => r,
        }
    }
}

/// The semicolon-separated `u16` parameters of a control-sequence parameter
/// region.
pub open spec fn params_u16(ps: Seq<char>) -> Seq<u16> {
    parsed_u16s(split_sep(ps, ';'))
}

/// The semicolon-separated `u8` parameters of a control-sequence parameter
/// region.
pub open spec fn params_u8(ps: Seq<char>) -> Seq<u8> {
    parsed_u8s(split_sep(ps, ';'))
}

/// Split the parameter region on semicolons and parse each segment as `u16`.
pub fn parse_params_u16(ps: &[char]) -> (r: Vec<u16>)
    ensures
        r@ == params_u16(ps@),
{
    let parts = split_chars(ps, ';');
    let n = parts.len();
    let mut out: Vec<u16> = Vec::new();
    let mut i: usize = 0;
    while i < n
        invariant
            0 <= i <= n,
            n == parts@.len(),
            views_of(parts@) == split_sep(ps@, ';'),
            out@ == parsed_u16s(views_of(parts@).take(i as int)),
        decreases n - i,
    {
        let ghost upto = views_of(parts@).take(i as int);
        proof {
            assert(views_of(parts@).take(i + 1).drop_last() =~= upto);
            assert(views_of(parts@).take(i + 1).last() == parts@[i as int]@);
        }
        match parse_u16_chars(parts[i].as_slice()) {
            Some(v) => out.push(v),
            None => (),
        }
        i = i + 1;
    }
    proof {
        assert(views_of(parts@).take(n as int) =~= views_of(parts@));
    }
    out
}

/// Split the parameter region on semicolons and parse each segment as `u8`.
pub fn parse_params_u8(ps: &[char]) -> (r: Vec<u8>)
    ensures
        r@ == params_u8(ps@),
{
    let parts = split_chars(ps, ';');
    let n = parts.len();
    let mut out: Vec<u8> = Vec::new();
    let mut i: usize = 0;
    while i < n
        invariant
            0 <= i <= n,
            n == parts@.len(),
            views_of(parts@) == split_sep(ps@, ';'),
            out@ == parsed_u8s(views_of(parts@).take(i as int)),
        decreases n - i,
    {
        let ghost upto = views_of(parts@).take(i as int);
        proof {
            assert(views_of(parts@).take(i + 1).drop_last() =~= upto);
            assert(views_of(parts@).take(i + 1).last() == parts@[i as int]@);
        }
        match parse_u8_chars(parts[i].as_slice()) {
            Some(v) => out.push(v),
            None => (),
        }
        i = i + 1;
    }
    proof {
        assert(views_of(parts@).take(n as int) =~= views_of(parts@));
    }
    out
}

/// The `i`-th parameter, or the default where it is absent.
pub open spec fn nth_or16(ps: Seq<u16>, i: int, d: u16) -> u16 {
    if 0 <= i < ps.len() {
        ps[i]
    } else {
        d
    }
}

/// The `i`-th parameter of a vector, or the default where it is absent.
pub fn nth_or_u16(ps: &Vec<u16>, i: usize, d: u16) -> (r: u16)
    ensures
        r == nth_or16(ps@, i as int, d),
{
    if i < ps.len() {
        ps[i]
    } else {
        d
    }
}

} // verus!
