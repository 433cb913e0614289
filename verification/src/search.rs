//! The scrollback search index: an ANSI-stripped, line-oriented, bounded
//! history store with plain and regular-expression search and contextual
//! windows. Escape sequences are stripped from each line as it is
//! committed, so a sequence split across chunk boundaries never leaves
//! fragments in the store. Plain search is verified down to the match
//! offsets; regular expressions go through the regex crate behind its
//! named results.

use vstd::prelude::*;
use crate::outside::{regex_stripped, regex_find_ranges, re_strip, re_find_ranges};
use crate::text::{lower_ascii, to_lower_char, str_chars, chars_to_string, str_eq};
use crate::registry::{find_key, lemma_find_key, lemma_find_key_at, lemma_find_key_none};

verus! {

/// One search hit: the owning line's index, the match's offsets within that
/// line, and the line's text (kept twice, as the stored line and as the
/// text handed back with the hit).
#[derive(Debug, Clone, PartialEq, Eq)]
pub struct ScrollMatch {
    pub line_index: usize,
    pub start: usize,
    pub end: usize,
    pub line: String,
    pub line_content: String,
}

/// The mathematical image of one search hit.
pub struct MatchModel {
    pub line_index: int,
    pub start: int,
    pub end: int,
    pub line: Seq<char>,
}

impl View for ScrollMatch {
    type V = MatchModel;

    open spec fn view(&self) -> MatchModel {
        MatchModel {
            line_index: self.line_index as int,
            start: self.start as int,
            end: self.end as int,
            line: self.line@,
        }
    }
}

/// One line of context around a hit.
#[derive(Debug, Clone, PartialEq, Eq)]
pub struct ContextLine {
    pub line_index: usize,
    pub line: String,
}

/// The escape-sequence pattern stripped from everything entering the store.
pub open spec fn ansi_pattern_spec() -> Seq<char> {
    "\\x1B\\[[0-9;?]*[ -/]*[@-~]"@
}

/// The escape-sequence pattern, executable form.
pub fn ansi_pattern() -> (r: &'static str)
    ensures
        r@ == ansi_pattern_spec(),
{
    "\\x1B\\[[0-9;?]*[ -/]*[@-~]"
}

/// Line-ending normalization: a carriage-return/line-feed pair and a lone
/// carriage return each become one line feed.
pub open spec fn normalize_newlines(s: Seq<char>) -> Seq<char>
    decreases s.len(),
{
    if s.len() == 0 {
        Seq::<char>::empty()
    } else if s[0] == '\r' {
        if s.len() >= 2 && s[1] == '\n' {
            seq!['\n'] + normalize_newlines(s.skip(2))
        } else {
            seq!['\n'] + normalize_newlines(s.skip(1))
        }
    } else {
        seq![s[0]] + normalize_newlines(s.skip(1))
    }
}

/// Normalize line endings, executable form.
pub fn normalize_chars(s: &[char]) -> (r: Vec<char>)
    ensures
        r@ == normalize_newlines(s@),
{
    let n = s.len();
    let mut out: Vec<char> = Vec::new();
    let mut i: usize = 0;
    proof {
        assert(s@.skip(0) =~= s@);
        assert(out@ + normalize_newlines(s@) =~= normalize_newlines(s@));
    }
    while i < n
        invariant
            0 <= i <= n,
            n == s@.len(),
            normalize_newlines(s@) == out@ + normalize_newlines(s@.skip(i as int)),
        decreases n - i,
    {
        let ghost rest = s@.skip(i as int);
        let ghost prev = out@;
        if s[i] == '\r' {
            if i + 1 < n && s[i + 1] == '\n' {
                out.push('\n');
                proof {
                    assert(rest[0] == '\r' && rest.len() >= 2 && rest[1] == '\n');
                    assert(rest.skip(2) =~= s@.skip(i + 2));
                    assert(normalize_newlines(rest) == seq!['\n'] + normalize_newlines(
                        s@.skip(i + 2),
                    ));
                    assert(prev + (seq!['\n'] + normalize_newlines(s@.skip(i + 2))) =~= out@
                        + normalize_newlines(s@.skip(i + 2)));
                }
                i = i + 2;
            } else {
                out.push('\n');
                proof {
                    assert(rest[0] == '\r');
                    assert(!(rest.len() >= 2 && rest[1] == '\n'));
                    assert(rest.skip(1) =~= s@.skip(i + 1));
                    assert(normalize_newlines(rest) == seq!['\n'] + normalize_newlines(
                        s@.skip(i + 1),
                    ));
                    assert(prev + (seq!['\n'] + normalize_newlines(s@.skip(i + 1))) =~= out@
                        + normalize_newlines(s@.skip(i + 1)));
                }
                i = i + 1;
            }
        } else {
            out.push(s[i]);
            proof {
                assert(rest[0] == s@[i as int]);
                assert(rest.skip(1) =~= s@.skip(i + 1));
                assert(normalize_newlines(rest) == seq![s@[i as int]] + normalize_newlines(
                    s@.skip(i + 1),
                ));
                assert(prev + (seq![s@[i as int]] + normalize_newlines(s@.skip(i + 1))) =~= out@
                    + normalize_newlines(s@.skip(i + 1)));
            }
            i = i + 1;
        }
    }
    proof {
        assert(s@.skip(n as int) =~= Seq::<char>::empty());
        assert(out@ + normalize_newlines(s@.skip(n as int)) =~= out@);
    }
    out
}

/// Committing one finished line into a bounded store: push it, then evict
/// from the front until no more than `max` lines remain.
pub open spec fn spec_commit(lines: Seq<Seq<char>>, l: Seq<char>, max: int) -> Seq<Seq<char>> {
    let p = lines.push(l);
    if p.len() > max {
        p.skip(p.len() - max)
    } else {
        p
    }
}

/// Feeding normalized text: every line feed strips the pending partial
/// line of escape sequences and commits it; other characters extend the
/// pending line.
pub open spec fn spec_feed(
    lines: Seq<Seq<char>>,
    buf: Seq<char>,
    t: Seq<char>,
    max: int,
) -> (Seq<Seq<char>>, Seq<char>)
    decreases t.len(),
{
    if t.len() == 0 {
        (lines, buf)
    } else {
        let p = spec_feed(lines, buf, t.drop_last(), max);
        if t.last() == '\n' {
            (
                spec_commit(p.0, regex_stripped(ansi_pattern_spec(), p.1), max),
                Seq::<char>::empty(),
            )
        } else {
            (p.0, p.1.push(t.last()))
        }
    }
}

/// Committing a whole run of lines, oldest first.
pub open spec fn commit_all(lines: Seq<Seq<char>>, incoming: Seq<Seq<char>>, max: int) -> Seq<
    Seq<char>,
>
    decreases incoming.len(),
{
    if incoming.len() == 0 {
        lines
    } else {
        spec_commit(commit_all(lines, incoming.drop_last(), max), incoming.last(), max)
    }
}

/// A bounded store holds the last `max` of what went in: committing a run
/// on top of a store keeps exactly the newest `max` entries of the whole.
pub proof fn lemma_commit_all(lines: Seq<Seq<char>>, incoming: Seq<Seq<char>>, max: int)
    requires
        max >= 0,
        lines.len() <= max,
    ensures
        commit_all(lines, incoming, max) == if lines.len() + incoming.len() <= max {
            lines + incoming
        } else {
            (lines + incoming).skip(lines.len() + incoming.len() - max)
        },
    decreases incoming.len(),
{
    if incoming.len() == 0 {
        assert(lines + incoming =~= lines);
    } else {
        lemma_commit_all(lines, incoming.drop_last(), max);
        let prev = commit_all(lines, incoming.drop_last(), max);
        if lines.len() + incoming.len() - 1 <= max {
            assert(prev == lines + incoming.drop_last());
            if lines.len() + incoming.len() <= max {
                assert(prev.push(incoming.last()) =~= lines + incoming);
            } else {
                assert(prev.push(incoming.last()).skip(prev.len() + 1 - max) =~= (lines
                    + incoming).skip(lines.len() + incoming.len() - max));
            }
        } else {
            assert(prev == (lines + incoming.drop_last()).skip(
                lines.len() + incoming.len() - 1 - max,
            ));
            assert(prev.len() == max);
            assert(prev.push(incoming.last()).skip(1) =~= (lines + incoming).skip(
                lines.len() + incoming.len() - max,
            ));
        }
    }
}

/// Scrollback eviction: committing `max + k` lines into an empty store
/// leaves exactly the last `max` of them, oldest evicted first.
pub proof fn lemma_scrollback_eviction(incoming: Seq<Seq<char>>, max: int, k: int)
    requires
        max >= 0,
        k >= 0,
        incoming.len() == max + k,
    ensures
        commit_all(Seq::<Seq<char>>::empty(), incoming, max) == incoming.skip(k),
{
    lemma_commit_all(Seq::<Seq<char>>::empty(), incoming, max);
    if incoming.len() <= max {
        assert(incoming.skip(0) =~= incoming);
        assert(Seq::<Seq<char>>::empty() + incoming =~= incoming);
    } else {
        assert(Seq::<Seq<char>>::empty() + incoming =~= incoming);
    }
}

/// Whether `needle` occurs in `hay` at offset `i`.
pub open spec fn occurs_at(hay: Seq<char>, needle: Seq<char>, i: int) -> bool {
    0 <= i && i + needle.len() <= hay.len() && hay.subrange(i, i + needle.len()) == needle
}

/// The first offset at or after `from` where `needle` occurs in `hay`.
pub open spec fn first_occurrence_from(hay: Seq<char>, needle: Seq<char>, from: int) -> Option<int>
    decreases hay.len() - from,
{
    if from < 0 || from + needle.len() > hay.len() {
        None
    } else if needle.len() == 0 {
        Some(from)
    } else if occurs_at(hay, needle, from) {
        Some(from)
    } else {
        first_occurrence_from(hay, needle, from + 1)
    }
}

/// The first occurrence is the least one.
pub proof fn lemma_first_occurrence(hay: Seq<char>, needle: Seq<char>, from: int)
    requires
        0 <= from,
    ensures
        match first_occurrence_from(hay, needle, from) {
            Some(i) => from <= i && occurs_at(hay, needle, i) && forall|j: int|
                from <= j < i ==> !occurs_at(hay, needle, j),
            None => forall|j: int| from <= j ==> !occurs_at(hay, needle, j),
        },
    decreases hay.len() - from,
{
    if from + needle.len() <= hay.len() && needle.len() == 0 {
        assert(hay.subrange(from, from + needle.len()) =~= needle);
        assert(occurs_at(hay, needle, from));
    }
    if !(from + needle.len() > hay.len()) && needle.len() > 0 && !occurs_at(hay, needle, from) {
        lemma_first_occurrence(hay, needle, from + 1);
    }
}

/// The non-overlapping matches of `needle` in `hay` from `from` on, each as
/// its start and end offsets, scanned greedily left to right.
pub open spec fn match_ranges_from(hay: Seq<char>, needle: Seq<char>, from: int) -> Seq<(int, int)>
    decreases hay.len() - from,
{
    if needle.len() == 0 {
        Seq::<(int, int)>::empty()
    } else {
        match first_occurrence_from(hay, needle, from) {
            Some(i) => if from <= i && i + needle.len() <= hay.len() {
                seq![(i, i + needle.len())] + match_ranges_from(hay, needle, i + needle.len())
            } else {
                Seq::<(int, int)>::empty()
            },
            None => Seq::<(int, int)>::empty(),
        }
    }
}

/// The match offsets of a plain search in one line, case-folded when the
/// search is case-insensitive.
pub open spec fn scan_line(line: Seq<char>, needle: Seq<char>, case_sensitive: bool) -> Seq<
    (int, int),
> {
    let h = if case_sensitive {
        line
    } else {
        lower_ascii(line)
    };
    let nd = if case_sensitive {
        needle
    } else {
        lower_ascii(needle)
    };
    match_ranges_from(h, nd, 0)
}

/// The hits of one line, from its match offsets.
pub open spec fn line_hits(line: Seq<char>, index: int, ranges: Seq<(int, int)>) -> Seq<
    MatchModel,
> {
    ranges.map_values(
        |r: (int, int)| MatchModel { line_index: index, start: r.0, end: r.1, line: line },
    )
}

/// The pattern a regular-expression search runs: the query itself, or the
/// query wrapped for case-insensitivity.
pub open spec fn regex_search_pattern(query: Seq<char>, case_sensitive: bool) -> Seq<char> {
    if case_sensitive {
        query
    } else {
        "(?i)"@ + query
    }
}

/// The byte ranges of one line under a regular-expression search, as ints.
pub open spec fn ranges_view(v: Seq<(usize, usize)>) -> Seq<(int, int)> {
    v.map_values(|r: (usize, usize)| (r.0 as int, r.1 as int))
}

/// The match offsets of one line under the chosen search mode: a verified
/// substring scan over the line's characters, or the regex crate's match
/// ranges for the wrapped pattern. The two modes report offsets in
/// different units — the plain scan counts characters, the regex crate
/// counts bytes — which agree on lines of ASCII text.
pub open spec fn line_ranges_spec(
    line: Seq<char>,
    query: Seq<char>,
    case_sensitive: bool,
    use_regex: bool,
) -> Seq<(int, int)> {
    if use_regex {
        ranges_view(regex_find_ranges(regex_search_pattern(query, case_sensitive), line))
    } else {
        scan_line(line, query, case_sensitive)
    }
}

/// Every hit from line `i` on, in line order then offset order.
pub open spec fn matches_from(
    lines: Seq<Seq<char>>,
    query: Seq<char>,
    case_sensitive: bool,
    use_regex: bool,
    i: int,
) -> Seq<MatchModel>
    decreases lines.len() - i,
{
    if i < 0 || i >= lines.len() {
        Seq::<MatchModel>::empty()
    } else {
        line_hits(lines[i], i, line_ranges_spec(lines[i], query, case_sensitive, use_regex))
            + matches_from(lines, query, case_sensitive, use_regex, i + 1)
    }
}

/// What a search returns: all hits in order, cut off at the limit; an empty
/// query matches nothing.
pub open spec fn spec_search(
    lines: Seq<Seq<char>>,
    query: Seq<char>,
    case_sensitive: bool,
    use_regex: bool,
    limit: int,
) -> Seq<MatchModel> {
    if query.len() == 0 {
        Seq::<MatchModel>::empty()
    } else {
        let all = matches_from(lines, query, case_sensitive, use_regex, 0);
        if limit <= all.len() {
            all.take(limit)
        } else {
            all
        }
    }
}

/// The views of a vector of search hits.
pub open spec fn match_views(v: Seq<ScrollMatch>) -> Seq<MatchModel> {
    v.map_values(|m: ScrollMatch| m@)
}

/// Hit views commute with appending one hit.
pub proof fn lemma_match_views_push(s: Seq<ScrollMatch>, m: ScrollMatch)
    ensures
        match_views(s.push(m)) =~= match_views(s).push(m@),
{
}

/// The views of a vector of lines.
pub open spec fn line_views(v: Seq<String>) -> Seq<Seq<char>> {
    v.map_values(|s: String| s@)
}

/// Line views commute with appending one line.
pub proof fn lemma_line_views_push(s: Seq<String>, x: String)
    ensures
        line_views(s.push(x)) =~= line_views(s).push(x@),
{
}

/// ASCII lower-casing of a whole character vector.
fn lower_chars(v: &[char]) -> (r: Vec<char>)
    ensures
        r@ == lower_ascii(v@),
{
    let n = v.len();
    let mut out: Vec<char> = Vec::new();
    let mut i: usize = 0;
    while i < n
        invariant
            0 <= i <= n,
            n == v@.len(),
            out@ =~= lower_ascii(v@).take(i as int),
        decreases n - i,
    {
        out.push(to_lower_char(v[i]));
        proof {
            assert(out@ =~= lower_ascii(v@).take(i + 1));
        }
        i = i + 1;
    }
    proof {
        assert(out@ =~= lower_ascii(v@));
    }
    out
}

/// The first offset at or after `from` where `needle` occurs in `hay`.
fn find_from_chars(hay: &[char], needle: &[char], from: usize) -> (r: Option<usize>)
    requires
        needle@.len() > 0,
    ensures
        match r {
            Some(i) => first_occurrence_from(hay@, needle@, from as int) == Some(i as int),
            None => first_occurrence_from(hay@, needle@, from as int) is None,
        },
{
    let hn = hay.len();
    let nn = needle.len();
    if from > hn || nn > hn {
        return None;
    }
    let mut i: usize = from;
    while i <= hn - nn
        invariant
            from <= i <= hn,
            nn <= hn,
            hn == hay@.len(),
            nn == needle@.len(),
            nn > 0,
            first_occurrence_from(hay@, needle@, from as int) == first_occurrence_from(
                hay@,
                needle@,
                i as int,
            ),
        decreases hn - i,
    {
        let mut j: usize = 0;
        let mut hit = true;
        while j < nn
            invariant
                0 <= j <= nn,
                i + nn <= hn,
                hn == hay@.len(),
                nn == needle@.len(),
                nn > 0,
                hit ==> forall|k: int| 0 <= k < j ==> hay@[i + k] == needle@[k],
                !hit ==> !occurs_at(hay@, needle@, i as int),
            decreases nn - j,
        {
            if hay[i + j] != needle[j] {
                hit = false;
                proof {
                    assert(hay@.subrange(i as int, i + nn)[j as int] != needle@[j as int]);
                    assert(!occurs_at(hay@, needle@, i as int));
                }
                j = nn;
            } else {
                j = j + 1;
            }
        }
        if hit {
            proof {
                assert(hay@.subrange(i as int, i + nn) =~= needle@);
                assert(occurs_at(hay@, needle@, i as int));
            }
            return Some(i);
        }
        proof {
            assert(first_occurrence_from(hay@, needle@, i as int) == first_occurrence_from(
                hay@,
                needle@,
                i + 1,
            ));
        }
        i = i + 1;
    }
    proof {
        assert(first_occurrence_from(hay@, needle@, i as int) is None);
    }
    None
}

/// The first occurrence of `needle` in `hay`, if any.
pub fn first_occurrence_hit(hay: &[char], needle: &[char]) -> (r: Option<usize>)
    requires
        needle@.len() > 0,
    ensures
        match r {
            Some(i) => first_occurrence_from(hay@, needle@, 0) == Some(i as int),
            None => first_occurrence_from(hay@, needle@, 0) is None,
        },
{
    find_from_chars(hay, needle, 0)
}

/// All non-overlapping matches of `needle` in `hay`, greedily left to
/// right.
fn scan_ranges(hay: &[char], needle: &[char]) -> (r: Vec<(usize, usize)>)
    requires
        needle@.len() > 0,
    ensures
        ranges_view(r@) == match_ranges_from(hay@, needle@, 0),
{
    let hn = hay.len();
    let nn = needle.len();
    let mut out: Vec<(usize, usize)> = Vec::new();
    let mut idx: usize = 0;
    proof {
        assert(ranges_view(out@) =~= Seq::<(int, int)>::empty());
    }
    while idx <= hn
        invariant
            0 <= idx <= hn + 1,
            hn == hay@.len(),
            nn == needle@.len(),
            nn > 0,
            match_ranges_from(hay@, needle@, 0) =~= ranges_view(out@) + match_ranges_from(
                hay@,
                needle@,
                idx as int,
            ),
        decreases hn + 1 - idx,
    {
        let ghost prev = out@;
        match find_from_chars(hay, needle, idx) {
            Some(s) => {
                proof {
                    lemma_first_occurrence(hay@, needle@, idx as int);
                }
                out.push((s, s + nn));
                proof {
                    assert(ranges_view(out@) =~= ranges_view(prev).push(
                        (s as int, s as int + nn),
                    ));
                    assert(match_ranges_from(hay@, needle@, idx as int) == seq![
                        (s as int, s as int + nn),
                    ] + match_ranges_from(hay@, needle@, s + nn));
                    assert((ranges_view(prev) + match_ranges_from(hay@, needle@, idx as int))
                        =~= ranges_view(out@) + match_ranges_from(hay@, needle@, s + nn));
                }
                idx = s + nn;
            },
            None => {
                proof {
                    assert(match_ranges_from(hay@, needle@, idx as int) =~= Seq::<(
                        int,
                        int,
                    )>::empty());
                    assert(ranges_view(out@) + match_ranges_from(hay@, needle@, idx as int)
                        =~= ranges_view(out@));
                }
                return out;
            },
        }
    }
    proof {
        assert(match_ranges_from(hay@, needle@, idx as int) =~= Seq::<(int, int)>::empty());
        assert(ranges_view(out@) + match_ranges_from(hay@, needle@, idx as int) =~= ranges_view(
            out@,
        ));
    }
    out
}

/// An ANSI-stripped, line-ending-normalized, bounded per-session line store.
/// Completed lines live in `lines`, oldest first; an in-progress partial
/// line waits in `buf` and is only committed on a line feed.
#[derive(Debug)]
pub struct ScrollbackIndex {
    lines: Vec<String>,
    buf: Vec<char>,
    max_lines: usize,
}

impl ScrollbackIndex {
    /// The stored lines, oldest first.
    pub closed spec fn lines_view(&self) -> Seq<Seq<char>> {
        self.lines@.map_values(|s: String| s@)
    }

    /// The pending, not yet newline-terminated partial line.
    pub closed spec fn pending(&self) -> Seq<char> {
        self.buf@
    }

    /// The line capacity the store was created with.
    pub closed spec fn capacity(&self) -> int {
        self.max_lines as int
    }

    /// The store never holds more lines than its capacity.
    pub closed spec fn wf(&self) -> bool {
        self.lines@.len() <= self.max_lines
    }

    /// An empty store with the given capacity.
    pub fn new(max_lines: usize) -> (r: ScrollbackIndex)
        ensures
            r.wf(),
            r.lines_view() == Seq::<Seq<char>>::empty(),
            r.pending() == Seq::<char>::empty(),
            r.capacity() == max_lines as int,
    {
        let r = ScrollbackIndex { lines: Vec::new(), buf: Vec::new(), max_lines };
        proof {
            assert(r.lines_view() =~= Seq::<Seq<char>>::empty());
        }
        r
    }

    /// Strip the pending line of escape sequences and commit it, evicting
    /// the oldest line over capacity.
    fn push_line(&mut self)
        requires
            old(self).wf(),
        ensures
            final(self).wf(),
            final(self).lines_view() == spec_commit(
                old(self).lines_view(),
                regex_stripped(ansi_pattern_spec(), old(self).pending()),
                old(self).capacity(),
            ),
            final(self).pending() == Seq::<char>::empty(),
            final(self).capacity() == old(self).capacity(),
    {
        let raw = chars_to_string(&self.buf);
        let line = re_strip(ansi_pattern(), raw.as_str());
        self.buf.clear();
        let ghost pushed = old(self).lines_view().push(
            regex_stripped(ansi_pattern_spec(), old(self).pending()),
        );
        self.lines.push(line);
        proof {
            assert(self.lines_view() =~= pushed);
        }
        if self.lines.len() > self.max_lines {
            let ghost before = self.lines@;
            self.lines.remove(0);
            proof {
                assert(self.lines@ =~= before.drop_first());
                assert(self.lines_view() =~= pushed.skip(pushed.len() - self.max_lines));
            }
        }
    }

    /// Strip and commit the pending partial line now, if there is one.
    pub fn finalize_line_if_any(&mut self)
        requires
            old(self).wf(),
        ensures
            final(self).wf(),
            final(self).capacity() == old(self).capacity(),
            old(self).pending().len() == 0 ==> *final(self) == *old(self),
            old(self).pending().len() > 0 ==> final(self).lines_view() == spec_commit(
                old(self).lines_view(),
                regex_stripped(ansi_pattern_spec(), old(self).pending()),
                old(self).capacity(),
            ) && final(self).pending() == Seq::<char>::empty(),
    {
        if self.buf.len() > 0 {
            self.push_line();
        }
    }

    /// Feed one raw chunk: normalize its line endings, extend the pending
    /// line, and at every line feed strip the finished line of escape
    /// sequences and commit it. Because stripping happens per completed
    /// line, a chunk boundary inside an escape sequence never leaves
    /// fragments in the store.
    pub fn append(&mut self, data: &str)
        requires
            old(self).wf(),
        ensures
            final(self).wf(),
            final(self).capacity() == old(self).capacity(),
            (final(self).lines_view(), final(self).pending()) == spec_feed(
                old(self).lines_view(),
                old(self).pending(),
                normalize_newlines(data@),
                old(self).capacity(),
            ),
    {
        let ghost l0 = self.lines_view();
        let ghost b0 = self.pending();
        let ghost cap = self.capacity();
        let cs = str_chars(data);
        let norm = normalize_chars(cs.as_slice());
        let ghost t = normalize_newlines(data@);
        let n = norm.len();
        let mut i: usize = 0;
        proof {
            assert(t.take(0) =~= Seq::<char>::empty());
        }
        while i < n
            invariant
                0 <= i <= n,
                n == norm@.len(),
                norm@ == t,
                self.wf(),
                self.capacity() == cap,
                (self.lines_view(), self.pending()) == spec_feed(l0, b0, t.take(i as int), cap),
            decreases n - i,
        {
            proof {
                assert(t.take(i + 1).drop_last() =~= t.take(i as int));
                assert(t.take(i + 1).last() == t[i as int]);
            }
            let c = norm[i];
            if c == '\n' {
                self.push_line();
            } else {
                self.buf.push(c);
            }
            i = i + 1;
        }
        proof {
            assert(t.take(n as int) =~= t);
        }
    }

    /// Search the stored lines. A plain search scans each line for the
    /// query, ASCII-case-folded unless the search is case-sensitive, and
    /// reports character offsets; a regular expression search runs the
    /// (possibly case-wrapped) pattern over each line and reports the byte
    /// offsets the regex crate yields. The two units agree on ASCII lines.
    /// Hits come in line order, then offset order, cut off at `limit`; an
    /// empty query matches nothing. Each hit carries the line's text twice,
    /// as `line` and `line_content`.
    pub fn search(&self, query: &str, case_sensitive: bool, use_regex: bool, limit: usize) -> (r:
        Vec<ScrollMatch>)
        ensures
            match_views(r@) == spec_search(
                self.lines_view(),
                query@,
                case_sensitive,
                use_regex,
                limit as int,
            ),
            forall|k: int| 0 <= k < r@.len() ==> (#[trigger] r@[k]).line_content@ == r@[k].line@,
    {
        let mut results: Vec<ScrollMatch> = Vec::new();
        let qn = query.unicode_len();
        proof {
            assert(match_views(results@) =~= Seq::<MatchModel>::empty());
        }
        if qn == 0 {
            return results;
        }
        if limit == 0 {
            proof {
                let all = matches_from(self.lines_view(), query@, case_sensitive, use_regex, 0);
                assert(all.take(0) =~= Seq::<MatchModel>::empty());
            }
            return results;
        }
        let ghost lines = self.lines_view();
        let ghost all = matches_from(lines, query@, case_sensitive, use_regex, 0);
        let qchars = str_chars(query);
        let needle = if case_sensitive {
            qchars
        } else {
            lower_chars(qchars.as_slice())
        };
        let pattern = if case_sensitive {
            String::from_str(query)
        } else {
            String::from_str("(?i)").concat(query)
        };
        let n = self.lines.len();
        let mut i: usize = 0;
        while i < n
            invariant
                0 <= i <= n,
                n == self.lines@.len(),
                lines == self.lines_view(),
                all == matches_from(lines, query@, case_sensitive, use_regex, 0),
                query@.len() > 0,
                limit >= 1,
                needle@ == if case_sensitive { query@ } else { lower_ascii(query@) },
                pattern@ == regex_search_pattern(query@, case_sensitive),
                match_views(results@).len() < limit,
                all =~= match_views(results@) + matches_from(
                    lines,
                    query@,
                    case_sensitive,
                    use_regex,
                    i as int,
                ),
                forall|k: int| 0 <= k < results@.len() ==> (#[trigger] results@[k]).line_content@
                    == results@[k].line@,
            decreases n - i,
        {
            let line = &self.lines[i];
            let ghost lranges = line_ranges_spec(lines[i as int], query@, case_sensitive, use_regex);
            let ranges: Vec<(usize, usize)> = if use_regex {
                re_find_ranges(pattern.as_str(), line.as_str())
            } else {
                let lchars = str_chars(line.as_str());
                let hay = if case_sensitive {
                    lchars
                } else {
                    lower_chars(lchars.as_slice())
                };
                scan_ranges(hay.as_slice(), needle.as_slice())
            };
            proof {
                assert(ranges_view(ranges@) == lranges);
            }
            let rn = ranges.len();
            let mut j: usize = 0;
            while j < rn
                invariant
                    0 <= j <= rn,
                    0 <= i < n,
                    n == self.lines@.len(),
                    lines == self.lines_view(),
                    all == matches_from(lines, query@, case_sensitive, use_regex, 0),
                    query@.len() > 0,
                    limit >= 1,
                    rn == ranges@.len(),
                    ranges_view(ranges@) == lranges,
                    lranges == line_ranges_spec(lines[i as int], query@, case_sensitive, use_regex),
                    line@ == lines[i as int],
                    match_views(results@).len() < limit,
                    all =~= match_views(results@) + line_hits(
                        lines[i as int],
                        i as int,
                        lranges.skip(j as int),
                    ) + matches_from(lines, query@, case_sensitive, use_regex, i + 1),
                    forall|k: int| 0 <= k < results@.len() ==> (
                    #[trigger] results@[k]).line_content@ == results@[k].line@,
                decreases rn - j,
            {
                let ghost prev = results@;
                let rg = ranges[j];
                let sm = ScrollMatch {
                    line_index: i,
                    start: rg.0,
                    end: rg.1,
                    line: line.clone(),
                    line_content: line.clone(),
                };
                proof {
                    assert(sm.line@ == self.lines@[i as int]@);
                    assert(lines[i as int] == self.lines@[i as int]@);
                }
                results.push(sm);
                proof {
                    lemma_match_views_push(prev, sm);
                    assert(sm@ == (MatchModel {
                        line_index: i as int,
                        start: rg.0 as int,
                        end: rg.1 as int,
                        line: lines[i as int],
                    }));
                    assert(match_views(results@) =~= match_views(prev).push(
                        MatchModel {
                            line_index: i as int,
                            start: rg.0 as int,
                            end: rg.1 as int,
                            line: lines[i as int],
                        },
                    ));
                    assert(line_hits(lines[i as int], i as int, lranges.skip(j as int))[0]
                        == (MatchModel {
                        line_index: i as int,
                        start: rg.0 as int,
                        end: rg.1 as int,
                        line: lines[i as int],
                    }));
                    assert(lranges.skip(j as int).drop_first() =~= lranges.skip(j + 1));
                    assert(line_hits(lines[i as int], i as int, lranges.skip(j as int)).drop_first()
                        =~= line_hits(lines[i as int], i as int, lranges.skip(j + 1)));
                    assert(all =~= match_views(results@) + line_hits(
                        lines[i as int],
                        i as int,
                        lranges.skip(j + 1),
                    ) + matches_from(lines, query@, case_sensitive, use_regex, i + 1));
                }
                j = j + 1;
                if results.len() >= limit {
                    proof {
                        assert(match_views(results@).len() == limit);
                        assert(all.take(limit as int) =~= match_views(results@));
                    }
                    return results;
                }
            }
            proof {
                assert(lranges.skip(rn as int) =~= Seq::<(int, int)>::empty());
                assert(line_hits(lines[i as int], i as int, lranges.skip(rn as int)) =~= Seq::<
                    MatchModel,
                >::empty());
                assert(all =~= match_views(results@) + matches_from(
                    lines,
                    query@,
                    case_sensitive,
                    use_regex,
                    i + 1,
                ));
            }
            i = i + 1;
        }
        proof {
            assert(matches_from(lines, query@, case_sensitive, use_regex, n as int) =~= Seq::<
                MatchModel,
            >::empty());
            assert(all =~= match_views(results@));
        }
        results
    }

    /// The stored lines from `start` on, at most `count` of them.
    pub fn window(&self, start: usize, count: usize) -> (r: Vec<String>)
        requires
            start + count <= usize::MAX,
        ensures
            line_views(r@) == self.lines_view().subrange(
                if start as int <= self.lines_view().len() {
                    start as int
                } else {
                    self.lines_view().len() as int
                },
                if start + count <= self.lines_view().len() {
                    (start + count) as int
                } else {
                    self.lines_view().len() as int
                },
            ),
    {
        let n = self.lines.len();
        let lo = if start <= n {
            start
        } else {
            n
        };
        let hi = if start + count <= n {
            start + count
        } else {
            n
        };
        let mut out: Vec<String> = Vec::new();
        let mut i: usize = lo;
        while i < hi
            invariant
                lo <= i <= hi <= n,
                n == self.lines@.len(),
                line_views(out@) =~= self.lines_view().subrange(
                    lo as int,
                    i as int,
                ),
            decreases hi - i,
        {
            let ghost prevout = out@;
            let cl = self.lines[i].clone();
            out.push(cl);
            proof {
                lemma_line_views_push(prevout, cl);
                assert(line_views(out@) =~= self.lines_view().subrange(
                    lo as int,
                    i + 1,
                ));
            }
            i = i + 1;
        }
        out
    }

    /// The clamped window of lines around `line_index`: `before` lines
    /// above it through `after` lines below it.
    pub fn context(&self, line_index: usize, before: usize, after: usize) -> (r: Vec<ContextLine>)
        requires
            line_index + after + 1 <= usize::MAX,
        ensures
            ({
                let len = self.lines_view().len() as int;
                let start = if line_index >= before {
                    line_index - before
                } else {
                    0
                };
                let end = if line_index + after + 1 <= len {
                    line_index + after + 1
                } else {
                    len
                };
                &&& r@.len() == if start <= end {
                    end - start
                } else {
                    0
                }
                &&& forall|k: int| 0 <= k < r@.len() ==> (#[trigger] r@[k]).line_index == start + k
                    && r@[k].line@ == self.lines_view()[start + k]
            }),
    {
        let n = self.lines.len();
        let start = if line_index >= before {
            line_index - before
        } else {
            0
        };
        let end = if line_index + after + 1 <= n {
            line_index + after + 1
        } else {
            n
        };
        let mut out: Vec<ContextLine> = Vec::new();
        let mut i: usize = start;
        while i < end
            invariant
                start <= i,
                i <= end || i == start,
                end <= n,
                n == self.lines@.len(),
                out@.len() == i - start,
                forall|k: int| 0 <= k < out@.len() ==> (#[trigger] out@[k]).line_index == start + k
                    && out@[k].line@ == self.lines_view()[start + k],
            decreases end - i,
        {
            let cl = ContextLine { line_index: i, line: self.lines[i].clone() };
            out.push(cl);
            proof {
                assert(out@.last().line@ == self.lines_view()[i as int]);
            }
            i = i + 1;
        }
        out
    }

    /// The last `count` stored lines.
    pub fn tail(&self, count: usize) -> (r: Vec<String>)
        ensures
            line_views(r@) == self.lines_view().skip(
                if count as int <= self.lines_view().len() {
                    self.lines_view().len() - count as int
                } else {
                    0
                },
            ),
    {
        let n = self.lines.len();
        let start = if count <= n {
            n - count
        } else {
            0
        };
        let mut out: Vec<String> = Vec::new();
        let mut i: usize = start;
        proof {
            assert(line_views(out@) =~= self.lines_view().subrange(
                start as int,
                start as int,
            ));
        }
        while i < n
            invariant
                start <= i <= n,
                n == self.lines@.len(),
                line_views(out@) =~= self.lines_view().subrange(
                    start as int,
                    i as int,
                ),
            decreases n - i,
        {
            let ghost prevout = out@;
            let cl = self.lines[i].clone();
            out.push(cl);
            proof {
                lemma_line_views_push(prevout, cl);
                assert(line_views(out@) =~= self.lines_view().subrange(
                    start as int,
                    i + 1,
                ));
            }
            i = i + 1;
        }
        proof {
            assert(self.lines_view().subrange(start as int, n as int) =~= self.lines_view().skip(
                start as int,
            ));
        }
        out
    }
}


/// One session's stored state: its lines and its pending partial line.
pub type IndexModel = (Seq<Seq<char>>, Seq<char>);

/// The per-session scrollback stores, keyed by session id.
pub struct SearchIndexManager {
    sessions: Vec<(String, ScrollbackIndex)>,
    max_lines: usize,
}

impl SearchIndexManager {
    /// The stored sessions: each id with its lines and pending text.
    pub closed spec fn entries(&self) -> Seq<(Seq<char>, IndexModel)> {
        self.sessions@.map_values(
            |e: (String, ScrollbackIndex)| (e.0@, (e.1.lines_view(), e.1.pending())),
        )
    }

    /// The session ids, in insertion order.
    pub closed spec fn keys(&self) -> Seq<Seq<char>> {
        self.sessions@.map_values(|e: (String, ScrollbackIndex)| e.0@)
    }

    /// The line capacity every store is created with.
    pub closed spec fn capacity(&self) -> int {
        self.max_lines as int
    }

    /// Every store is within bounds and carries the shared capacity.
    pub closed spec fn wf(&self) -> bool {
        forall|i: int|
            0 <= i < self.sessions@.len() ==> (#[trigger] self.sessions@[i]).1.wf()
                && self.sessions@[i].1.capacity() == self.max_lines as int
    }

    /// An empty manager with the default five-thousand-line capacity.
    pub fn new() -> (r: SearchIndexManager)
        ensures
            r.wf(),
            r.entries() == Seq::<(Seq<char>, IndexModel)>::empty(),
            r.capacity() == 5000,
    {
        let r = SearchIndexManager { sessions: Vec::new(), max_lines: 5000 };
        proof {
            assert(r.entries() =~= Seq::<(Seq<char>, IndexModel)>::empty());
        }
        r
    }

    /// The position of a session, scanning for its first entry.
    fn find(&self, session_id: &str) -> (r: Option<usize>)
        ensures
            match r {
                Some(i) => find_key(self.entries(), session_id@) == Some(i as int) && (i as int)
                    < self.entries().len(),
                None => find_key(self.entries(), session_id@) is None,
            },
    {
        let n = self.sessions.len();
        let mut i: usize = 0;
        while i < n
            invariant
                0 <= i <= n,
                n == self.sessions@.len(),
                forall|j: int| 0 <= j < i ==> (#[trigger] self.entries()[j]).0 != session_id@,
            decreases n - i,
        {
            if str_eq(self.sessions[i].0.as_str(), session_id) {
                proof {
                    assert(self.entries()[i as int].0 == session_id@);
                    lemma_find_key_at(self.entries(), session_id@, i as int);
                }
                return Some(i);
            }
            proof {
                assert(self.entries()[i as int].0 == self.sessions@[i as int].0@);
            }
            i = i + 1;
        }
        proof {
            lemma_find_key_none(self.entries(), session_id@);
        }
        None
    }

    /// Register a fresh, empty store for a session; an existing entry under
    /// the same id is replaced.
    pub fn create_session(&mut self, session_id: String)
        requires
            old(self).wf(),
        ensures
            final(self).wf(),
            final(self).capacity() == old(self).capacity(),
            final(self).entries() == match find_key(old(self).entries(), session_id@) {
                Some(i) => old(self).entries().update(
                    i,
                    (session_id@, (Seq::<Seq<char>>::empty(), Seq::<char>::empty())),
                ),
                None => old(self).entries().push(
                    (session_id@, (Seq::<Seq<char>>::empty(), Seq::<char>::empty())),
                ),
            },
    {
        let fresh = ScrollbackIndex::new(self.max_lines);
        match self.find(session_id.as_str()) {
            Some(i) => {
                self.sessions.set(i, (session_id, fresh));
                proof {
                    assert(final(self).entries() =~= old(self).entries().update(
                        find_key(old(self).entries(), session_id@).unwrap(),
                        (session_id@, (Seq::<Seq<char>>::empty(), Seq::<char>::empty())),
                    ));
                }
            },
            None => {
                self.sessions.push((session_id, fresh));
                proof {
                    assert(final(self).entries() =~= old(self).entries().push(
                        (session_id@, (Seq::<Seq<char>>::empty(), Seq::<char>::empty())),
                    ));
                }
            },
        }
    }

    /// Drop a session's store; unknown ids change nothing.
    pub fn remove_session(&mut self, session_id: &str)
        requires
            old(self).wf(),
        ensures
            final(self).wf(),
            final(self).capacity() == old(self).capacity(),
            final(self).entries() == match find_key(old(self).entries(), session_id@) {
                Some(i) => old(self).entries().remove(i),
                None => old(self).entries(),
            },
    {
        match self.find(session_id) {
            Some(i) => {
                self.sessions.remove(i);
                proof {
                    assert(final(self).entries() =~= old(self).entries().remove(
                        find_key(old(self).entries(), session_id@).unwrap(),
                    ));
                }
            },
            None => (),
        }
    }

    /// Feed one raw chunk into a session's store; unknown ids change
    /// nothing.
    pub fn append_output(&mut self, session_id: &str, data: &str)
        requires
            old(self).wf(),
        ensures
            final(self).wf(),
            final(self).capacity() == old(self).capacity(),
            final(self).entries() == match find_key(old(self).entries(), session_id@) {
                Some(i) => ({
                    let e = old(self).entries()[i];
                    old(self).entries().update(
                        i,
                        (
                            e.0,
                            spec_feed(
                                e.1.0,
                                e.1.1,
                                normalize_newlines(data@),
                                old(self).capacity(),
                            ),
                        ),
                    )
                }),
                None => old(self).entries(),
            },
    {
        match self.find(session_id) {
            Some(i) => {
                proof {
                    lemma_find_key(old(self).entries(), session_id@);
                }
                let entry = &mut self.sessions[i];
                entry.1.append(data);
                proof {
                    let gi = find_key(old(self).entries(), session_id@).unwrap();
                    let e = old(self).entries()[gi];
                    assert(self.entries() =~= old(self).entries().update(
                        gi,
                        (
                            e.0,
                            spec_feed(
                                e.1.0,
                                e.1.1,
                                normalize_newlines(data@),
                                old(self).capacity(),
                            ),
                        ),
                    ));
                }
            },
            None => (),
        }
    }

    /// Search one session's store; `None` for an unknown id.
    pub fn search(
        &self,
        session_id: &str,
        query: &str,
        case_sensitive: bool,
        use_regex: bool,
        limit: usize,
    ) -> (r: Option<Vec<ScrollMatch>>)
        ensures
            match find_key(self.entries(), session_id@) {
                Some(i) => r matches Some(v) && match_views(v@) == spec_search(
                    self.entries()[i].1.0,
                    query@,
                    case_sensitive,
                    use_regex,
                    limit as int,
                ),
                None => r is None,
            },
    {
        match self.find(session_id) {
            Some(i) => {
                proof {
                    lemma_find_key(self.entries(), session_id@);
                }
                Some(self.sessions[i].1.search(query, case_sensitive, use_regex, limit))
            },
            None => None,
        }
    }

    /// The clamped context window in one session's store; `None` for an
    /// unknown id.
    pub fn context(&self, session_id: &str, line_index: usize, before: usize, after: usize) -> (r:
        Option<Vec<ContextLine>>)
        requires
            line_index + after + 1 <= usize::MAX,
        ensures
            r is Some <==> find_key(self.entries(), session_id@) is Some,
            match find_key(self.entries(), session_id@) {
                Some(i) => r matches Some(v) && ({
                    let lines = self.entries()[i].1.0;
                    let start = if line_index >= before {
                        line_index - before
                    } else {
                        0
                    };
                    let end = if line_index + after + 1 <= lines.len() {
                        line_index + after + 1
                    } else {
                        lines.len() as int
                    };
                    &&& v@.len() == if start <= end {
                        end - start
                    } else {
                        0
                    }
                    &&& forall|k: int|
                        0 <= k < v@.len() ==> (#[trigger] v@[k]).line_index == start + k
                            && v@[k].line@ == lines[start + k]
                }),
                None => r is None,
            },
    {
        match self.find(session_id) {
            Some(i) => {
                proof {
                    lemma_find_key(self.entries(), session_id@);
                }
                Some(self.sessions[i].1.context(line_index, before, after))
            },
            None => None,
        }
    }

    /// The last `count` lines of one session's store; `None` for an unknown
    /// id.
    pub fn tail(&self, session_id: &str, count: usize) -> (r: Option<Vec<String>>)
        ensures
            match find_key(self.entries(), session_id@) {
                Some(i) => r matches Some(v) && line_views(v@) == ({
                    let lines = self.entries()[i].1.0;
                    lines.skip(
                        if count as int <= lines.len() {
                            lines.len() - count as int
                        } else {
                            0
                        },
                    )
                }),
                None => r is None,
            },
    {
        match self.find(session_id) {
            Some(i) => {
                proof {
                    lemma_find_key(self.entries(), session_id@);
                }
                Some(self.sessions[i].1.tail(count))
            },
            None => None,
        }
    }
}

} // verus!
