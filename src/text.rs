//! Whitespace trimming and the repair annotation line.

use vstd::prelude::*;

verus! {

/// The Unicode `White_Space` property, the set that `char::is_whitespace` uses.
pub open spec fn is_white_space(c: char) -> bool {
    let n = c as u32;
    (0x09 <= n && n <= 0x0d) || n == 0x20 || n == 0x85 || n == 0xa0 || n == 0x1680
        || (0x2000 <= n && n <= 0x200a) || n == 0x2028 || n == 0x2029 || n == 0x202f
        || n == 0x205f || n == 0x3000
}

/// Whether `c` is a whitespace character.
pub fn white_space_char(c: char) -> (r: bool)
    ensures
        r == is_white_space(c),
{
    let n = c as u32;
    (0x09 <= n && n <= 0x0d) || n == 0x20 || n == 0x85 || n == 0xa0 || n == 0x1680
        || (0x2000 <= n && n <= 0x200a) || n == 0x2028 || n == 0x2029 || n == 0x202f
        || n == 0x205f || n == 0x3000
}

/// `s` without its leading whitespace.
pub open spec fn trim_start(s: Seq<char>) -> Seq<char>
    decreases s.len(),
{
    if s.len() > 0 && is_white_space(s[0]) {
        trim_start(s.drop_first())
    } else {
        s
    }
}

/// `s` without its trailing whitespace.
pub open spec fn trim_end(s: Seq<char>) -> Seq<char>
    decreases s.len(),
{
    if s.len() > 0 && is_white_space(s.last()) {
        trim_end(s.drop_last())
    } else {
        s
    }
}

/// `s` without its leading and trailing whitespace.
pub open spec fn trimmed(s: Seq<char>) -> Seq<char> {
    trim_end(trim_start(s))
}

proof fn lemma_trim_start(s: Seq<char>, lo: int)
    requires
        0 <= lo <= s.len(),
        forall|k: int| 0 <= k < lo ==> is_white_space(#[trigger] s[k]),
        lo == s.len() || !is_white_space(s[lo]),
    ensures
        trim_start(s) == s.subrange(lo, s.len() as int),
    decreases lo,
{
    if lo == 0 {
        assert(s.subrange(0, s.len() as int) =~= s);
    } else {
        let t = s.drop_first();
        assert forall|k: int| 0 <= k < lo - 1 implies is_white_space(#[trigger] t[k]) by {
            assert(t[k] == s[k + 1]);
        }
        lemma_trim_start(t, lo - 1);
        assert(t.subrange(lo - 1, t.len() as int) =~= s.subrange(lo, s.len() as int));
    }
}

proof fn lemma_trim_end(s: Seq<char>, hi: int)
    requires
        0 <= hi <= s.len(),
        forall|k: int| hi <= k < s.len() ==> is_white_space(#[trigger] s[k]),
        hi == 0 || !is_white_space(s[hi - 1]),
    ensures
        trim_end(s) == s.subrange(0, hi),
    decreases s.len() - hi,
{
    if hi == s.len() {
        assert(s.subrange(0, hi) =~= s);
    } else {
        let t = s.drop_last();
        assert forall|k: int| hi <= k < t.len() implies is_white_space(#[trigger] t[k]) by {
            assert(t[k] == s[k]);
        }
        lemma_trim_end(t, hi);
        assert(t.subrange(0, hi) =~= s.subrange(0, hi));
    }
}

/// Copies `s` without its leading and trailing whitespace.
pub fn trim_whitespace(s: &str) -> (r: String)
    ensures
        r@ == trimmed(s@),
{
    let n = s.unicode_len();
    let mut lo: usize = 0;
    while lo < n && white_space_char(s.get_char(lo))
        invariant
            lo <= n,
            n == s@.len(),
            forall|k: int| 0 <= k < lo ==> is_white_space(#[trigger] s@[k]),
        decreases n - lo,
    {
        lo = lo + 1;
    }
    proof {
        lemma_trim_start(s@, lo as int);
    }
    let mut hi: usize = n;
    while hi > lo && white_space_char(s.get_char(hi - 1))
        invariant
            lo <= hi <= n,
            n == s@.len(),
            forall|k: int| hi <= k < n ==> is_white_space(#[trigger] s@[k]),
        decreases hi,
    {
        hi = hi - 1;
    }
    proof {
        let t = s@.subrange(lo as int, n as int);
        assert forall|k: int| hi - lo <= k < t.len() implies is_white_space(#[trigger] t[k]) by {
            assert(t[k] == s@[k + lo]);
        }
        lemma_trim_end(t, hi - lo);
        assert(t.subrange(0, hi - lo) =~= s@.subrange(lo as int, hi as int));
    }
    String::from_str(s.substring_char(lo, hi))
}

/// The line that opens a document which was produced through repair.
pub open spec fn repair_marker() -> Seq<char> {
    "// 注意：输入的 JSON 已被自动修复\n"@
}

/// The repair marker line as text.
pub fn repair_marker_text() -> (r: &'static str)
    ensures
        r@ == repair_marker(),
{
    "// 注意：输入的 JSON 已被自动修复\n"
}

/// `s` with the repair marker line removed from its start, if it opens with it.
pub open spec fn without_marker(s: Seq<char>) -> Seq<char> {
    let m = repair_marker();
    if m.len() <= s.len() && s.subrange(0, m.len() as int) == m {
        s.subrange(m.len() as int, s.len() as int)
    } else {
        s
    }
}

/// Removes the repair marker line from the start of `text`; any other text is returned as it is.
pub fn strip_repair_annotation(text: &str) -> (r: String)
    ensures
        r@ == without_marker(text@),
{
    let marker = repair_marker_text();
    let m = marker.unicode_len();
    let n = text.unicode_len();
    if m <= n {
        let head = String::from_str(text.substring_char(0, m));
        if head == String::from_str(marker) {
            return String::from_str(text.substring_char(m, n));
        }
    }
    String::from_str(text)
}

/// `body` preceded by the repair marker line.
pub fn annotate(body: &str) -> (r: String)
    ensures
        r@ == repair_marker() + body@,
{
    let mut r = String::from_str(repair_marker_text());
    r.append(body);
    r
}

/// Stripping the annotation from an annotated text gives back exactly the text that was annotated.
pub proof fn lemma_strip_undoes_annotate(body: Seq<char>)
    ensures
        without_marker(repair_marker() + body) == body,
{
    let m = repair_marker();
    let s = m + body;
    assert(s.subrange(0, m.len() as int) =~= m);
    assert(s.subrange(m.len() as int, s.len() as int) =~= body);
}

} // verus!
