//! Small verified operations on text.
//!
//! Contracts speak of a text as the sequence of its characters.
use vstd::prelude::*;
use vstd::string::*;
use vstd::utf8::is_ascii_chars;

verus! {

/// `needle` occurs somewhere in `hay`.
pub open spec fn occurs(hay: Seq<char>, needle: Seq<char>) -> bool {
    exists|i: int| occurs_at(hay, needle, i)
}

/// `needle` occurs in `hay` at position `i`.
pub open spec fn occurs_at(hay: Seq<char>, needle: Seq<char>, i: int) -> bool {
    0 <= i <= hay.len() - needle.len() && hay.subrange(i, i + needle.len()) == needle
}

/// `suffix` is the end of `s`.
pub open spec fn has_suffix(s: Seq<char>, suffix: Seq<char>) -> bool {
    suffix.len() <= s.len() && s.skip(s.len() - suffix.len()) == suffix
}

/// The characters with the Unicode property `White_Space`.
pub open spec fn is_space(c: char) -> bool {
    let n = c as u32;
    ||| 0x09 <= n <= 0x0d
    ||| n == 0x20
    ||| n == 0x85
    ||| n == 0xa0
    ||| n == 0x1680
    ||| 0x2000 <= n <= 0x200a
    ||| n == 0x2028
    ||| n == 0x2029
    ||| n == 0x202f
    ||| n == 0x205f
    ||| n == 0x3000
}

/// `s` without the white space at its start.
pub open spec fn trim_start(s: Seq<char>) -> Seq<char>
    decreases s.len(),
{
    if s.len() > 0 && is_space(s[0]) {
        trim_start(s.drop_first())
    } else {
        s
    }
}

/// `s` without the white space at its end.
pub open spec fn trim_end(s: Seq<char>) -> Seq<char>
    decreases s.len(),
{
    if s.len() > 0 && is_space(s.last()) {
        trim_end(s.drop_last())
    } else {
        s
    }
}

/// `s` without the white space at its two ends.
pub open spec fn trimmed(s: Seq<char>) -> Seq<char> {
    trim_end(trim_start(s))
}

/// The decimal digit of `d`.
pub open spec fn digit(d: nat) -> char {
    (('0' as nat) + d) as char
}

/// `n` in decimal, without leading zeros.
pub open spec fn decimal_of(n: nat) -> Seq<char>
    decreases n,
{
    if n < 10 {
        seq![digit(n)]
    } else {
        decimal_of(n / 10).push(digit(n % 10))
    }
}

/// The characters of `s`.
pub fn chars_of(s: &str) -> (v: Vec<char>)
    ensures
        v@ == s@,
{
    let mut v: Vec<char> = Vec::new();
    for c in it: s.chars()
        invariant
            it.seq() == s@,
            v@ == s@.take(it.index()),
    {
        v.push(c);
    }
    proof {
        assert(s@.take(s@.len() as int) == s@);
    }
    v
}

/// Whether two texts are the same.
pub fn same(a: &str, b: &str) -> (r: bool)
    ensures
        r == (a@ == b@),
{
    let x: Vec<char> = chars_of(a);
    let y: Vec<char> = chars_of(b);
    if x.len() != y.len() {
        return false;
    }
    let mut i: usize = 0;
    while i < x.len()
        invariant
            i <= x.len() == y.len(),
            x@ == a@,
            y@ == b@,
            x@.take(i as int) == y@.take(i as int),
        decreases x.len() - i,
    {
        if x[i] != y[i] {
            proof {
                assert(a@[i as int] != b@[i as int]);
            }
            return false;
        }
        proof {
            assert(x@.take(i + 1) == x@.take(i as int).push(x@[i as int]));
            assert(y@.take(i + 1) == y@.take(i as int).push(y@[i as int]));
        }
        i = i + 1;
    }
    proof {
        assert(x@.take(x@.len() as int) == x@);
        assert(y@.take(y@.len() as int) == y@);
    }
    true
}

/// Whether `needle` stands in `hay` at position `i`.
fn matches_at(hay: &Vec<char>, needle: &Vec<char>, i: usize) -> (r: bool)
    requires
        i + needle.len() <= hay.len(),
    ensures
        r == occurs_at(hay@, needle@, i as int),
{
    let mut j: usize = 0;
    while j < needle.len()
        invariant
            j <= needle.len(),
            i + needle.len() <= hay.len(),
            forall|k: int| 0 <= k < j ==> hay@[i + k] == #[trigger] needle@[k],
        decreases needle.len() - j,
    {
        if hay[i + j] != needle[j] {
            proof {
                assert(hay@.subrange(i as int, i + needle.len())[j as int] == hay@[i + j]);
            }
            return false;
        }
        j = j + 1;
    }
    proof {
        assert(hay@.subrange(i as int, i + needle.len()) =~= needle@);
    }
    true
}

/// Whether `needle` occurs in the characters `hay`.
pub fn contains(hay: &Vec<char>, needle: &str) -> (r: bool)
    ensures
        r == occurs(hay@, needle@),
{
    let pattern: Vec<char> = chars_of(needle);
    if pattern.len() > hay.len() {
        return false;
    }
    let last: usize = hay.len() - pattern.len();
    let mut i: usize = 0;
    while i <= last
        invariant
            pattern@ == needle@,
            last == hay.len() - pattern.len(),
            i <= last + 1,
            forall|k: int| 0 <= k < i ==> !occurs_at(hay@, needle@, k),
        decreases last + 1 - i,
    {
        if matches_at(hay, &pattern, i) {
            return true;
        }
        if i == last {
            return false;
        }
        i = i + 1;
    }
    false
}

/// Whether `s` ends in `suffix`.
pub fn ends_with(s: &str, suffix: &str) -> (r: bool)
    ensures
        r == has_suffix(s@, suffix@),
{
    let text: Vec<char> = chars_of(s);
    let end: Vec<char> = chars_of(suffix);
    if end.len() > text.len() {
        return false;
    }
    let start: usize = text.len() - end.len();
    proof {
        assert(text@.subrange(start as int, text@.len() as int) =~= text@.skip(start as int));
    }
    matches_at(&text, &end, start)
}

/// `s` without `suffix`, if it ends in it.
pub fn strip_suffix<'a>(s: &'a str, suffix: &str) -> (r: Option<&'a str>)
    ensures
        match r {
            Some(head) => has_suffix(s@, suffix@) && s@ == head@ + suffix@,
            None => !has_suffix(s@, suffix@),
        },
{
    if ends_with(s, suffix) {
        let cut: usize = s.unicode_len() - suffix.unicode_len();
        let head = s.substring_char(0, cut);
        proof {
            assert(s@ =~= s@.subrange(0, cut as int) + s@.skip(cut as int));
        }
        Some(head)
    } else {
        None
    }
}

/// Whether `c` is white space.
fn space(c: char) -> (r: bool)
    ensures
        r == is_space(c),
{
    let n: u32 = c as u32;
    (0x09 <= n && n <= 0x0d) || n == 0x20 || n == 0x85 || n == 0xa0 || n == 0x1680 || (0x2000 <= n
        && n <= 0x200a) || n == 0x2028 || n == 0x2029 || n == 0x202f || n == 0x205f || n == 0x3000
}

/// `s` without the white space at its two ends.
pub fn trim<'a>(s: &'a str) -> (r: &'a str)
    ensures
        r@ == trimmed(s@),
{
    let text: Vec<char> = chars_of(s);
    let mut i: usize = 0;
    proof {
        assert(s@.skip(0) == s@);
    }
    while i < text.len() && space(text[i])
        invariant
            text@ == s@,
            i <= text.len(),
            trim_start(s@) == trim_start(s@.skip(i as int)),
        decreases text.len() - i,
    {
        proof {
            assert(s@.skip(i as int).drop_first() =~= s@.skip(i + 1));
        }
        i = i + 1;
    }
    let mut j: usize = text.len();
    proof {
        assert(s@.skip(i as int) =~= s@.subrange(i as int, j as int));
    }
    while j > i && space(text[j - 1])
        invariant
            text@ == s@,
            i <= j <= text.len(),
            trimmed(s@) == trim_end(s@.subrange(i as int, j as int)),
        decreases j,
    {
        proof {
            assert(s@.subrange(i as int, j as int).drop_last() =~= s@.subrange(i as int, j - 1));
        }
        j = j - 1;
    }
    s.substring_char(i, j)
}

/// The digit of `d` as a text.
fn digit_text(d: u64) -> (s: &'static str)
    requires
        d < 10,
    ensures
        s@ == seq![digit(d as nat)],
{
    proof {
        reveal_strlit("0");
        reveal_strlit("1");
        reveal_strlit("2");
        reveal_strlit("3");
        reveal_strlit("4");
        reveal_strlit("5");
        reveal_strlit("6");
        reveal_strlit("7");
        reveal_strlit("8");
        reveal_strlit("9");
    }
    match d {
        0 => "0",
        1 => "1",
        2 => "2",
        3 => "3",
        4 => "4",
        5 => "5",
        6 => "6",
        7 => "7",
        8 => "8",
        _ => "9",
    }
}

/// `n` in decimal.
pub fn decimal(n: u64) -> (s: String)
    ensures
        s@ == decimal_of(n as nat),
    decreases n,
{
    if n < 10 {
        digit_text(n).to_string()
    } else {
        decimal(n / 10).concat(digit_text(n % 10))
    }
}

/// The text that `str::to_lowercase` makes of a text.
pub uninterp spec fn lowercase_of(s: Seq<char>) -> Seq<char>;

/// `c`, with `A` to `Z` mapped to `a` to `z`.
pub open spec fn ascii_lower(c: char) -> char {
    if 'A' <= c <= 'Z' {
        (c as u32 + 32) as char
    } else {
        c
    }
}

/// `str::to_lowercase`: the text with every character mapped by Unicode's
/// lower case rules. On ASCII text they map `A` to `Z` and nothing else; what
/// they do to other text is not spelled out here.
#[verifier::external_body]
pub(crate) fn lowercase(s: &str) -> (r: String)
    ensures
        r@ == lowercase_of(s@),
        is_ascii_chars(s@) ==> r@ == s@.map_values(|c: char| ascii_lower(c)),
{
    s.to_lowercase()
}

/// Whether one of `texts` is `s`.
pub fn any_same(texts: &Vec<String>, s: &str) -> (r: bool)
    ensures
        r == texts.deep_view().contains(s@),
{
    let mut i: usize = 0;
    while i < texts.len()
        invariant
            i <= texts.len(),
            forall|k: int| 0 <= k < i ==> texts.deep_view()[k] != s@,
        decreases texts.len() - i,
    {
        if same(texts[i].as_str(), s) {
            proof {
                assert(texts.deep_view()[i as int] == s@);
            }
            return true;
        }
        i = i + 1;
    }
    false
}

// ── lines ──────────────────────────────────────────────────────────

/// Where the line that runs through position `i` ends: at the next newline, or
/// at the end of the text.
pub open spec fn line_end(s: Seq<char>, i: int) -> int
    decreases s.len() - i,
{
    if i >= s.len() {
        s.len() as int
    } else if s[i] == '\n' {
        i
    } else {
        line_end(s, i + 1)
    }
}

/// A line end is not ahead of where the search for it began.
pub proof fn lemma_line_end(s: Seq<char>, i: int)
    requires
        0 <= i <= s.len(),
    ensures
        i <= line_end(s, i) <= s.len(),
    decreases s.len() - i,
{
    if i < s.len() && s[i] != '\n' {
        lemma_line_end(s, i + 1);
    }
}

/// A line without the carriage return ahead of its newline.
pub open spec fn without_cr(line: Seq<char>) -> Seq<char> {
    if line.len() > 0 && line.last() == '\r' {
        line.drop_last()
    } else {
        line
    }
}

/// The lines of `s` from position `i` on, without their line endings, each of
/// them a newline or a carriage return and a newline. The last one is optional.
pub open spec fn lines_from(s: Seq<char>, i: int) -> Seq<Seq<char>>
    decreases s.len() - i,
    when 0 <= i
{
    if i >= s.len() {
        seq![]
    } else {
        let e = line_end(s, i);
        proof {
            lemma_line_end(s, i);
        }
        if e < s.len() {
            seq![without_cr(s.subrange(i, e))] + lines_from(s, e + 1)
        } else {
            seq![s.skip(i)]
        }
    }
}

/// The last `k` items.
pub open spec fn last_items<T>(s: Seq<T>, k: nat) -> Seq<T> {
    if s.len() <= k {
        s
    } else {
        s.skip(s.len() - k)
    }
}

fn find_line_end(s: &Vec<char>, i: usize) -> (e: usize)
    requires
        i <= s.len(),
    ensures
        e == line_end(s@, i as int),
        i <= e <= s.len(),
{
    let mut e: usize = i;
    while e < s.len() && s[e] != '\n'
        invariant
            i <= e <= s.len(),
            line_end(s@, i as int) == line_end(s@, e as int),
        decreases s.len() - e,
    {
        e = e + 1;
    }
    e
}

/// The texts between these pairs of positions.
pub open spec fn spans_of(s: Seq<char>, spans: Seq<(usize, usize)>) -> Seq<Seq<char>> {
    spans.map_values(|p: (usize, usize)| s.subrange(p.0 as int, p.1 as int))
}

/// Where the lines of a text begin and end.
fn line_spans(s: &Vec<char>) -> (spans: Vec<(usize, usize)>)
    ensures
        spans_of(s@, spans@) == lines_from(s@, 0),
        forall|k: int|
            0 <= k < spans@.len() ==> (#[trigger] spans@[k]).0 <= spans@[k].1 <= s@.len(),
{
    let mut spans: Vec<(usize, usize)> = Vec::new();
    let mut start: usize = 0;
    proof {
        assert(spans_of(s@, spans@) + lines_from(s@, 0) =~= lines_from(s@, 0));
    }
    while start < s.len()
        invariant
            start <= s.len(),
            spans_of(s@, spans@) + lines_from(s@, start as int) == lines_from(s@, 0),
            forall|k: int|
                0 <= k < spans@.len() ==> (#[trigger] spans@[k]).0 <= spans@[k].1 <= s@.len(),
        decreases s.len() - start,
    {
        let ghost before = spans@;
        let ghost rest = lines_from(s@, start as int);
        let e: usize = find_line_end(s, start);
        if e < s.len() {
            let end: usize = if e > start && s[e - 1] == '\r' {
                e - 1
            } else {
                e
            };
            spans.push((start, end));
            proof {
                let line = s@.subrange(start as int, e as int);
                assert(without_cr(line) =~= s@.subrange(start as int, end as int));
                assert(spans_of(s@, spans@) =~= spans_of(s@, before).push(without_cr(line)));
                assert(spans_of(s@, spans@) + lines_from(s@, e + 1) =~= spans_of(s@, before) + (
                seq![without_cr(line)] + lines_from(s@, e + 1)));
            }
            start = e + 1;
        } else {
            spans.push((start, e));
            proof {
                let line = s@.skip(start as int);
                assert(line =~= s@.subrange(start as int, e as int));
                assert(spans_of(s@, spans@) =~= spans_of(s@, before).push(line));
                assert(spans_of(s@, spans@) + lines_from(s@, e as int) =~= spans_of(s@, before)
                    + seq![line]);
            }
            start = e;
        }
    }
    proof {
        assert(spans_of(s@, spans@) + lines_from(s@, start as int) =~= spans_of(s@, spans@));
    }
    spans
}

/// The last `k` lines of a text.
pub fn last_lines(s: &str, k: usize) -> (r: Vec<String>)
    ensures
        r.deep_view() == last_items(lines_from(s@, 0), k as nat),
{
    let chars: Vec<char> = chars_of(s);
    let spans: Vec<(usize, usize)> = line_spans(&chars);
    let first: usize = if spans.len() <= k {
        0
    } else {
        spans.len() - k
    };
    let ghost all = lines_from(s@, 0);
    let mut r: Vec<String> = Vec::new();
    let mut i: usize = first;
    while i < spans.len()
        invariant
            first <= i <= spans.len(),
            chars@ == s@,
            spans_of(s@, spans@) == all,
            forall|k: int|
                0 <= k < spans@.len() ==> (#[trigger] spans@[k]).0 <= spans@[k].1 <= s@.len(),
            r.deep_view() == all.subrange(first as int, i as int),
        decreases spans.len() - i,
    {
        let ghost before = r.deep_view();
        let span: (usize, usize) = spans[i];
        r.push(s.substring_char(span.0, span.1).to_string());
        proof {
            assert(all[i as int] == s@.subrange(span.0 as int, span.1 as int));
            assert(r.deep_view() =~= before.push(all[i as int]));
            assert(all.subrange(first as int, i + 1) =~= all.subrange(
                first as int,
                i as int,
            ).push(all[i as int]));
        }
        i = i + 1;
    }
    proof {
        assert(all.len() == spans@.len());
        assert(all.subrange(first as int, all.len() as int) =~= last_items(all, k as nat));
    }
    r
}

}
