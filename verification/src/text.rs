//! Text that messages are made of.

use vstd::prelude::*;

verus! {

/// `s` without the occurrences of `pattern`, which are searched from left to
/// right and do not overlap.
pub open spec fn without(s: Seq<char>, pattern: Seq<char>) -> Seq<char>
    decreases s.len(),
{
    if pattern.len() == 0 || s.len() < pattern.len() {
        s
    } else if s.take(pattern.len() as int) == pattern {
        without(s.skip(pattern.len() as int), pattern)
    } else {
        seq![s[0]] + without(s.skip(1), pattern)
    }
}

/// The text up to the first line feed, without the carriage return that may
/// stand before that line feed.
pub open spec fn first_line_of(s: Seq<char>) -> Seq<char> {
    match s.index_of_first('\n') {
        None => s,
        Some(end) => if end > 0 && s[end - 1] == '\r' {
            s.take(end - 1)
        } else {
            s.take(end)
        },
    }
}

/// The characters with the Unicode property White_Space.
pub open spec fn white_space(c: char) -> bool {
    ||| '\u{9}' <= c <= '\u{d}'
    ||| c == '\u{20}'
    ||| c == '\u{85}'
    ||| c == '\u{a0}'
    ||| c == '\u{1680}'
    ||| '\u{2000}' <= c <= '\u{200a}'
    ||| c == '\u{2028}'
    ||| c == '\u{2029}'
    ||| c == '\u{202f}'
    ||| c == '\u{205f}'
    ||| c == '\u{3000}'
}

/// `s` without the white space that it starts with.
pub open spec fn trim_start_of(s: Seq<char>) -> Seq<char>
    decreases s.len(),
{
    if s.len() > 0 && white_space(s[0]) {
        trim_start_of(s.skip(1))
    } else {
        s
    }
}

/// `s` without the white space that it ends with.
pub open spec fn trim_end_of(s: Seq<char>) -> Seq<char>
    decreases s.len(),
{
    if s.len() > 0 && white_space(s.last()) {
        trim_end_of(s.drop_last())
    } else {
        s
    }
}

/// `s` without the white space at its two ends.
pub open spec fn trimmed(s: Seq<char>) -> Seq<char> {
    trim_end_of(trim_start_of(s))
}

/// The three texts one behind the other.
pub fn join(first: &str, second: &str, third: &str) -> (result: String)
    ensures
        result@ == first@ + second@ + third@,
{
    let mut result = String::new();
    result.append(first);
    result.append(second);
    result.append(third);
    result
}

/// The characters of a string.
pub fn chars_of(s: &str) -> (chars: Vec<char>)
    ensures
        chars@ == s@,
{
    let mut chars: Vec<char> = Vec::new();
    for c in it: s.chars()
        invariant
            chars@ == it.seq().take(it.index() as int),
            it.seq() == s@,
    {
        chars.push(c);
    }
    assert(s@.take(s@.len() as int) == s@);
    chars
}

/// Takes every occurrence of `pattern` out of `s`.
pub fn remove_all(s: &str, pattern: &str) -> (result: String)
    ensures
        result@ == without(s@, pattern@),
{
    let chars = chars_of(s);
    let pattern_chars = chars_of(pattern);
    let n: usize = chars.len();
    let m: usize = pattern_chars.len();
    let mut result = String::new();
    let mut i: usize = 0;
    assert(s@.skip(0) == s@);
    while m > 0 && m <= n - i
        invariant
            i <= n,
            n == s@.len(),
            m == pattern@.len(),
            chars@ == s@,
            pattern_chars@ == pattern@,
            result@ + without(s@.skip(i as int), pattern@) == without(s@, pattern@),
        decreases n - i,
    {
        let ghost rest = s@.skip(i as int);
        if matches_at(&chars, i, &pattern_chars) {
            assert(rest.take(m as int) == s@.subrange(i as int, i + m));
            assert(rest.skip(m as int) == s@.skip(i + m));
            i = i + m;
        } else {
            assert(rest.take(m as int) == s@.subrange(i as int, i + m));
            assert(rest.skip(1) == s@.skip(i + 1));
            let ghost before = result@;
            result.append(s.substring_char(i, i + 1));
            assert(result@ == before + seq![rest[0]]);
            assert(before + without(rest, pattern@) == result@ + without(rest.skip(1), pattern@));
            i = i + 1;
        }
    }
    let ghost rest = s@.skip(i as int);
    result.append(s.substring_char(i, n));
    assert(s@.subrange(i as int, n as int) == rest);
    assert(without(rest, pattern@) == rest);
    result
}

/// Says whether `pattern` stands in `chars` at position `i`.
fn matches_at(chars: &Vec<char>, i: usize, pattern: &Vec<char>) -> (found: bool)
    requires
        i + pattern@.len() <= chars@.len(),
    ensures
        found == (chars@.subrange(i as int, i + pattern@.len()) == pattern@),
{
    let n: usize = chars.len();
    let mut k: usize = 0;
    while k < pattern.len()
        invariant
            i + pattern@.len() <= chars@.len() == n,
            k <= pattern@.len(),
            forall|j: int| 0 <= j < k ==> chars@[i + j] == #[trigger] pattern@[j],
        decreases pattern@.len() - k,
    {
        if chars[i + k] != pattern[k] {
            assert(chars@.subrange(i as int, i + pattern@.len())[k as int] != pattern@[k as int]);
            return false;
        }
        k = k + 1;
    }
    assert(chars@.subrange(i as int, i + pattern@.len()) =~= pattern@);
    true
}

/// The first line of `s`, without its line ending.
pub fn first_line(s: &str) -> (line: &str)
    ensures
        line@ == first_line_of(s@),
{
    let chars = chars_of(s);
    let n: usize = chars.len();
    let mut i: usize = 0;
    while i < n && chars[i] != '\n'
        invariant
            i <= n,
            n == s@.len(),
            chars@ == s@,
            forall|j: int| 0 <= j < i ==> s@[j] != '\n',
        decreases n - i,
    {
        i = i + 1;
    }
    proof {
        s@.index_of_first_ensures('\n');
    }
    if i == n {
        assert(s@.subrange(0, n as int) == s@);
        return s.substring_char(0, n);
    }
    assert(s@.contains(s@[i as int]));
    assert(s@.index_of_first('\n') == Some(i as int));
    if i > 0 && chars[i - 1] == '\r' {
        s.substring_char(0, i - 1)
    } else {
        s.substring_char(0, i)
    }
}

/// Says whether `c` is white space.
pub fn is_white_space(c: char) -> (result: bool)
    ensures
        result == white_space(c),
{
    ('\u{9}' <= c && c <= '\u{d}') || c == '\u{20}' || c == '\u{85}' || c == '\u{a0}'
        || c == '\u{1680}' || ('\u{2000}' <= c && c <= '\u{200a}') || c == '\u{2028}'
        || c == '\u{2029}' || c == '\u{202f}' || c == '\u{205f}' || c == '\u{3000}'
}

/// `s` without the white space at its two ends.
pub fn trim(s: &str) -> (result: &str)
    ensures
        result@ == trimmed(s@),
{
    let chars = chars_of(s);
    let n: usize = chars.len();
    let mut from: usize = 0;
    assert(s@.skip(0) == s@);
    while from < n && is_white_space(chars[from])
        invariant
            from <= n,
            n == s@.len(),
            chars@ == s@,
            trim_start_of(s@.skip(from as int)) == trim_start_of(s@),
        decreases n - from,
    {
        assert(s@.skip(from as int).skip(1) == s@.skip(from + 1));
        from = from + 1;
    }
    let ghost rest = s@.skip(from as int);
    assert(trim_start_of(s@) == rest);
    let mut to: usize = n;
    assert(s@.subrange(from as int, n as int) == rest);
    while from < to && is_white_space(chars[to - 1])
        invariant
            from <= to <= n,
            n == s@.len(),
            chars@ == s@,
            trim_end_of(s@.subrange(from as int, to as int)) == trim_end_of(rest),
        decreases to - from,
    {
        assert(s@.subrange(from as int, to as int).drop_last() == s@.subrange(
            from as int,
            to - 1,
        ));
        to = to - 1;
    }
    s.substring_char(from, to)
}

/// Says whether `pattern` stands in `s` at position `i`.
pub open spec fn occurs_at(s: Seq<char>, pattern: Seq<char>, i: int) -> bool {
    &&& 0 <= i
    &&& i + pattern.len() <= s.len()
    &&& s.subrange(i, i + pattern.len()) == pattern
}

/// A name that holds no `.zip` comes back unchanged when `.zip` is put behind
/// it and taken out again.
pub proof fn law_archive_name_round_trip(name: Seq<char>)
    requires
        forall|i: int| !#[trigger] occurs_at(name, ".zip"@, i),
    ensures
        without(name + ".zip"@, ".zip"@) == name,
    decreases name.len(),
{
    reveal_strlit(".zip");
    let pattern = ".zip"@;
    let s = name + pattern;
    if name.len() == 0 {
        assert(s.take(4) == pattern);
        assert(s.skip(4) =~= Seq::<char>::empty());
        assert(without(s.skip(4), pattern) == s.skip(4));
    } else {
        let head = s.take(4);
        assert(head != pattern) by {
            if name.len() >= 4 {
                assert(head == name.subrange(0, 4));
                assert(!occurs_at(name, pattern, 0));
            } else {
                assert(head[name.len() as int] == '.');
                assert(pattern[name.len() as int] != '.');
            }
        }
        let rest = name.skip(1);
        assert(s.skip(1) == rest + pattern);
        assert forall|i: int| !#[trigger] occurs_at(rest, pattern, i) by {
            if occurs_at(rest, pattern, i) {
                assert(rest.subrange(i, i + 4) == name.subrange(i + 1, i + 1 + 4));
                assert(occurs_at(name, pattern, i + 1));
            }
        }
        law_archive_name_round_trip(rest);
        assert(seq![name[0]] + rest == name);
    }
}

/// What does not hold a pattern keeps all of its characters.
pub proof fn law_absent_pattern_removes_nothing(s: Seq<char>, pattern: Seq<char>)
    requires
        pattern.len() == 0 || forall|i: int| !#[trigger] occurs_at(s, pattern, i),
    ensures
        without(s, pattern) == s,
    decreases s.len(),
{
    if pattern.len() > 0 && s.len() >= pattern.len() {
        assert(s.take(pattern.len() as int) == s.subrange(0, pattern.len() as int));
        assert(!occurs_at(s, pattern, 0));
        let rest = s.skip(1);
        assert forall|i: int| !#[trigger] occurs_at(rest, pattern, i) by {
            if occurs_at(rest, pattern, i) {
                assert(rest.subrange(i, i + pattern.len()) == s.subrange(
                    i + 1,
                    i + 1 + pattern.len(),
                ));
                assert(occurs_at(s, pattern, i + 1));
            }
        }
        law_absent_pattern_removes_nothing(rest, pattern);
        assert(seq![s[0]] + rest == s);
    }
}

/// The first occurrence of a pattern is taken out, what stands before it is
/// kept, and the search goes on behind it.
pub proof fn law_first_occurrence_is_removed(
    before: Seq<char>,
    pattern: Seq<char>,
    behind: Seq<char>,
)
    requires
        pattern.len() > 0,
        forall|i: int|
            0 <= i < before.len() ==> !#[trigger] occurs_at(
                before + pattern + behind,
                pattern,
                i,
            ),
    ensures
        without(before + pattern + behind, pattern) == before + without(behind, pattern),
    decreases before.len(),
{
    let s = before + pattern + behind;
    let m = pattern.len() as int;
    if before.len() == 0 {
        assert(s.take(m) == pattern);
        assert(s.skip(m) == behind);
        assert(before + without(behind, pattern) == without(behind, pattern));
    } else {
        assert(s.take(m) == s.subrange(0, 0 + m));
        assert(!occurs_at(s, pattern, 0));
        let rest = before.skip(1);
        let tail = rest + pattern + behind;
        assert(s.skip(1) == tail);
        assert forall|i: int| 0 <= i < rest.len() implies !#[trigger] occurs_at(
            tail,
            pattern,
            i,
        ) by {
            if occurs_at(tail, pattern, i) {
                assert(tail.subrange(i, i + m) == s.subrange(i + 1, i + 1 + m));
                assert(occurs_at(s, pattern, i + 1));
            }
        }
        law_first_occurrence_is_removed(rest, pattern, behind);
        assert(s[0] == before[0]);
        assert(seq![s[0]] + (rest + without(behind, pattern)) == before + without(behind, pattern));
    }
}

/// A line is read up to its ending, whatever follows: the end of the text, a
/// line feed, or a carriage return and a line feed.
pub proof fn law_first_line_ends_at_its_ending(line: Seq<char>, behind: Seq<char>)
    requires
        !line.contains('\n'),
    ensures
        first_line_of(line) == line,
        line.len() == 0 || line.last() != '\r' ==> first_line_of(line + seq!['\n'] + behind)
            == line,
        first_line_of(line + seq!['\r', '\n'] + behind) == line,
{
    line.index_of_first_ensures('\n');
    let lf = line + seq!['\n'] + behind;
    let n = line.len() as int;
    lf.index_of_first_ensures('\n');
    assert(lf[n] == '\n');
    assert forall|j: int| 0 <= j < n implies lf[j] != '\n' by {
        assert(lf[j] == line[j]);
        assert(line.contains(line[j]));
    }
    assert(lf.index_of_first('\n') == Some(n));
    assert(lf.take(n) == line);
    if n > 0 {
        assert(lf[n - 1] == line.last());
    }
    let crlf = line + seq!['\r', '\n'] + behind;
    crlf.index_of_first_ensures('\n');
    assert(crlf[n] == '\r');
    assert(crlf[n + 1] == '\n');
    assert forall|j: int| 0 <= j < n + 1 implies crlf[j] != '\n' by {
        if j < n {
            assert(crlf[j] == line[j]);
            assert(line.contains(line[j]));
        }
    }
    assert(crlf.index_of_first('\n') == Some(n + 1));
    assert(crlf.take(n) == line);
}

/// Nothing but white space.
pub open spec fn blank(s: Seq<char>) -> bool {
    forall|i: int| 0 <= i < s.len() ==> white_space(#[trigger] s[i])
}

proof fn lemma_trim_start(left: Seq<char>, rest: Seq<char>)
    requires
        blank(left),
        rest.len() == 0 || !white_space(rest[0]),
    ensures
        trim_start_of(left + rest) == rest,
    decreases left.len(),
{
    if left.len() == 0 {
        assert(left + rest == rest);
    } else {
        assert((left + rest)[0] == left[0]);
        assert((left + rest).skip(1) == left.skip(1) + rest);
        lemma_trim_start(left.skip(1), rest);
    }
}

proof fn lemma_trim_end(rest: Seq<char>, right: Seq<char>)
    requires
        blank(right),
        rest.len() == 0 || !white_space(rest.last()),
    ensures
        trim_end_of(rest + right) == rest,
    decreases right.len(),
{
    if right.len() == 0 {
        assert(rest + right == rest);
    } else {
        assert((rest + right).last() == right.last());
        assert((rest + right).drop_last() == rest + right.drop_last());
        lemma_trim_end(rest, right.drop_last());
    }
}

/// Trimming takes away the white space around a text and nothing else.
pub proof fn law_trimming_takes_white_space_only(
    left: Seq<char>,
    kept: Seq<char>,
    right: Seq<char>,
)
    requires
        blank(left),
        blank(right),
        kept.len() == 0 || (!white_space(kept[0]) && !white_space(kept.last())),
    ensures
        trimmed(left + kept + right) == kept,
{
    if kept.len() == 0 {
        let all = left + kept + right;
        assert(all == (left + right) + kept);
        assert(blank(left + right));
        lemma_trim_start(left + right, kept);
        assert(trim_end_of(kept) == kept);
    } else {
        assert(left + kept + right == left + (kept + right));
        lemma_trim_start(left, kept + right);
        lemma_trim_end(kept, right);
    }
}

} // verus!
