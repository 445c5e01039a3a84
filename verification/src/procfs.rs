//! Reading the kernel's process and CPU reports under `/proc`.
use vstd::prelude::*;

use crate::text::text_chars;

verus! {

/// The word that starts each processor's paragraph in `/proc/cpuinfo`.
pub open spec fn processor_word() -> Seq<char> {
    seq!['p', 'r', 'o', 'c', 'e', 's', 's', 'o', 'r']
}

/// A line of `s` starts at position `i` and begins with `processor`.
pub open spec fn processor_line_at(s: Seq<char>, i: int) -> bool {
    &&& 0 <= i
    &&& i == 0 || s[i - 1] == '\n'
    &&& i + 9 <= s.len()
    &&& s.subrange(i, i + 9) == processor_word()
}

/// Number of lines that begin with `processor` and start before position `n`.
pub open spec fn processor_lines_before(s: Seq<char>, n: int) -> nat
    decreases n,
{
    if n <= 0 {
        0
    } else {
        processor_lines_before(s, n - 1) + if processor_line_at(s, n - 1) {
            1nat
        } else {
            0nat
        }
    }
}

proof fn lemma_processor_lines_bound(s: Seq<char>, n: int)
    requires
        n >= 0,
    ensures
        processor_lines_before(s, n) <= n,
    decreases n,
{
    if n > 0 {
        lemma_processor_lines_bound(s, n - 1);
    }
}

/// Number of lines of a `/proc/cpuinfo` report that begin with `processor`:
/// one per logical CPU.
pub fn count_processor_lines(cpuinfo: &str) -> (n: usize)
    ensures
        n == processor_lines_before(cpuinfo@, cpuinfo@.len() as int),
{
    let chars = text_chars(cpuinfo);
    let len = chars.len();
    let word = ['p', 'r', 'o', 'c', 'e', 's', 's', 'o', 'r'];
    assert(word@ == processor_word());
    let mut count: usize = 0;
    let mut i: usize = 0;
    while i < len
        invariant
            chars@ == cpuinfo@,
            len == chars@.len(),
            word@ == processor_word(),
            0 <= i <= len,
            count == processor_lines_before(cpuinfo@, i as int),
            count <= i,
        decreases len - i,
    {
        let at_line_start = i == 0 || chars[i - 1] == '\n';
        let mut matches = at_line_start && len - i >= 9;
        if matches {
            let mut k: usize = 0;
            while k < 9
                invariant
                    0 <= k <= 9,
                    i + 9 <= len,
                    len == chars@.len(),
                    word@ == processor_word(),
                    matches ==> forall|j: int| 0 <= j < k ==> chars@[i + j] == word@[j],
                    !matches ==> exists|j: int| 0 <= j < k && chars@[i + j] != word@[j],
                decreases 9 - k,
            {
                if chars[i + k] != word[k] {
                    matches = false;
                }
                k = k + 1;
            }
            if matches {
                assert(chars@.subrange(i as int, i + 9) =~= processor_word());
            } else {
                proof {
                    let j = choose|j: int| 0 <= j < 9 && chars@[i + j] != word@[j];
                    assert(chars@.subrange(i as int, i + 9)[j] != processor_word()[j]);
                }
            }
        }
        assert(matches == processor_line_at(cpuinfo@, i as int));
        if matches {
            count = count + 1;
        }
        i = i + 1;
    }
    count
}

/// The characters Rust's `char::is_whitespace` accepts: those with the
/// Unicode `White_Space` property.
pub open spec fn is_white_space(c: char) -> bool {
    ||| '\u{9}' <= c <= '\u{d}'
    ||| c == ' '
    ||| c == '\u{85}'
    ||| c == '\u{a0}'
    ||| c == '\u{1680}'
    ||| '\u{2000}' <= c <= '\u{200a}'
    ||| c == '\u{2028}'
    ||| c == '\u{2029}'
    ||| c == '\u{202f}'
    ||| c == '\u{205f}'
    ||| c == '\u{3000}'
}

/// Whether a character is whitespace in the sense of `char::is_whitespace`.
pub fn white_space(c: char) -> (b: bool)
    ensures
        b == is_white_space(c),
{
    ('\u{9}' <= c && c <= '\u{d}') || c == ' ' || c == '\u{85}' || c == '\u{a0}' || c == '\u{1680}'
        || ('\u{2000}' <= c && c <= '\u{200a}') || c == '\u{2028}' || c == '\u{2029}' || c
        == '\u{202f}' || c == '\u{205f}' || c == '\u{3000}'
}

/// The words of `s`: its maximal runs of non-whitespace characters, in
/// order (what `str::split_whitespace` yields).
pub open spec fn words(s: Seq<char>) -> Seq<Seq<char>>
    decreases s.len(),
{
    if s.len() == 0 {
        Seq::empty()
    } else {
        let rest = words(s.drop_last());
        let c = s.last();
        if is_white_space(c) {
            rest
        } else if s.len() >= 2 && !is_white_space(s[s.len() - 2]) && rest.len() > 0 {
            rest.update(rest.len() - 1, rest.last().push(c))
        } else {
            rest.push(seq![c])
        }
    }
}

proof fn lemma_words_nonempty_after_word_char(s: Seq<char>)
    requires
        s.len() > 0,
        !is_white_space(s.last()),
    ensures
        words(s).len() > 0,
    decreases s.len(),
{
    let rest = words(s.drop_last());
    if s.len() >= 2 && !is_white_space(s[s.len() - 2]) {
        lemma_words_nonempty_after_word_char(s.drop_last());
    }
}

/// Only Unicode `White_Space` characters separate words: every printable
/// ASCII character other than the space (letters, digits, punctuation such
/// as `-`, `(`, `)`) is part of a word, while tab, line feed, vertical tab,
/// form feed, carriage return and space separate words.
pub proof fn ascii_white_space(c: char)
    ensures
        '!' <= c <= '~' ==> !is_white_space(c),
        (c == '\t' || c == '\n' || c == '\u{b}' || c == '\u{c}' || c == '\r' || c == ' ')
            ==> is_white_space(c),
{
}

/// A run of characters none of which is whitespace is one word, whole.
pub proof fn one_word(s: Seq<char>)
    requires
        s.len() > 0,
        forall|i: int| 0 <= i < s.len() ==> !is_white_space(#[trigger] s[i]),
    ensures
        words(s) == seq![s],
    decreases s.len(),
{
    let p = s.drop_last();
    assert(!is_white_space(s[s.len() - 1]));
    if s.len() == 1 {
        assert(p =~= Seq::<char>::empty());
        assert(words(p) == Seq::<Seq<char>>::empty());
        assert(seq![s.last()] =~= s);
        assert(words(s) =~~= seq![s]);
    } else {
        assert forall|i: int| 0 <= i < p.len() implies !is_white_space(#[trigger] p[i]) by {
            assert(p[i] == s[i]);
        }
        one_word(p);
        assert(!is_white_space(s[s.len() - 2]));
        assert(p.push(s.last()) =~= s);
        let rest = words(p);
        assert(rest.update(rest.len() - 1, rest.last().push(s.last())) =~~= seq![s]);
    }
}

/// The views of a list of character vectors.
pub open spec fn char_vec_views(v: Seq<Vec<char>>) -> Seq<Seq<char>> {
    v.map_values(|t: Vec<char>| t@)
}

/// Splits characters into words, as `str::split_whitespace` does.
pub fn split_words(chars: &Vec<char>) -> (w: Vec<Vec<char>>)
    ensures
        char_vec_views(w@) == words(chars@),
{
    let n = chars.len();
    let mut done: Vec<Vec<char>> = Vec::new();
    let mut cur: Vec<char> = Vec::new();
    let mut i: usize = 0;
    while i < n
        invariant
            n == chars@.len(),
            0 <= i <= n,
            cur@.len() > 0 <==> (i > 0 && !is_white_space(chars@[i - 1])),
            words(chars@.take(i as int)) == char_vec_views(done@) + if cur@.len() > 0 {
                seq![cur@]
            } else {
                Seq::<Seq<char>>::empty()
            },
        decreases n - i,
    {
        let c = chars[i];
        let ghost t = chars@.take(i + 1);
        let ghost prev_done = char_vec_views(done@);
        let ghost prev_cur = cur@;
        let ghost rest = words(chars@.take(i as int));
        assert(t.drop_last() =~= chars@.take(i as int));
        assert(t.last() == c);
        if white_space(c) {
            if cur.len() > 0 {
                let mut finished: Vec<char> = Vec::new();
                std::mem::swap(&mut finished, &mut cur);
                done.push(finished);
                assert(char_vec_views(done@) =~= prev_done.push(prev_cur));
                assert(words(t) =~= char_vec_views(done@));
            } else {
                assert(words(t) =~= char_vec_views(done@));
            }
        } else {
            if cur.len() > 0 {
                proof {
                    lemma_words_nonempty_after_word_char(chars@.take(i as int));
                    assert(chars@.take(i as int).last() == chars@[i - 1]);
                    assert(t[t.len() - 2] == chars@[i - 1]);
                }
                cur.push(c);
                assert(words(t) =~= rest.update(rest.len() - 1, rest.last().push(c)));
                assert(words(t) =~= prev_done + seq![cur@]);
            } else {
                assert(rest =~= prev_done);
                cur.push(c);
                assert(cur@ =~= seq![c]);
                assert(words(t) =~= rest.push(seq![c]));
                assert(words(t) =~= prev_done + seq![cur@]);
            }
        }
        i = i + 1;
    }
    assert(chars@.take(n as int) =~= chars@);
    let ghost prev_done = char_vec_views(done@);
    if cur.len() > 0 {
        let ghost last = cur@;
        done.push(cur);
        assert(char_vec_views(done@) =~= prev_done.push(last));
    }
    assert(char_vec_views(done@) =~= words(chars@));
    done
}

/// The value of a string of decimal digits.
pub open spec fn digits_value(d: Seq<char>) -> nat
    decreases d.len(),
{
    if d.len() == 0 {
        0
    } else {
        digits_value(d.drop_last()) * 10 + (d.last() as nat - '0' as nat) as nat
    }
}

pub open spec fn all_digits(d: Seq<char>) -> bool {
    forall|i: int| 0 <= i < d.len() ==> '0' <= #[trigger] d[i] <= '9'
}

/// What `u64::from_str` gives a word: an optional `+` followed by at least
/// one decimal digit and nothing else, whose value fits in a `u64`.
pub open spec fn parse_u64_spec(t: Seq<char>) -> Option<u64> {
    let d = if t.len() > 0 && t[0] == '+' {
        t.drop_first()
    } else {
        t
    };
    if d.len() > 0 && all_digits(d) && digits_value(d) <= u64::MAX {
        Some(digits_value(d) as u64)
    } else {
        None
    }
}

proof fn lemma_digits_value_grows(d: Seq<char>, k: int)
    requires
        0 <= k <= d.len(),
        all_digits(d),
    ensures
        digits_value(d.take(k)) <= digits_value(d),
    decreases d.len(),
{
    if k < d.len() {
        let p = d.drop_last();
        assert(all_digits(p));
        assert(p.take(k) =~= d.take(k));
        lemma_digits_value_grows(p, k);
        assert(d.last() >= '0');
    } else {
        assert(d.take(k) =~= d);
    }
}

/// Parses a word as `u64::from_str` does, giving `None` where it fails.
pub fn parse_u64(t: &Vec<char>) -> (r: Option<u64>)
    ensures
        r == parse_u64_spec(t@),
{
    let n = t.len();
    let start: usize = if n > 0 && t[0] == '+' {
        1
    } else {
        0
    };
    let ghost d = if t@.len() > 0 && t@[0] == '+' {
        t@.drop_first()
    } else {
        t@
    };
    assert(d =~= t@.subrange(start as int, n as int));
    if start == n {
        return None;
    }
    let mut acc: u64 = 0;
    let mut i: usize = start;
    while i < n
        invariant
            n == t@.len(),
            start <= i <= n,
            d == t@.subrange(start as int, n as int),
            d == if t@.len() > 0 && t@[0] == '+' {
                t@.drop_first()
            } else {
                t@
            },
            start < n,
            all_digits(d.take(i - start)),
            acc == digits_value(d.take(i - start)),
        decreases n - i,
    {
        let c = t[i];
        let ghost k = i - start;
        assert(d.take(k + 1).drop_last() =~= d.take(k));
        assert(d.take(k + 1).last() == c);
        if !('0' <= c && c <= '9') {
            assert(d[k] == c);
            assert(!all_digits(d));
            return None;
        }
        let digit = (c as u32 - '0' as u32) as u64;
        assert(all_digits(d.take(k + 1)));
        assert(digits_value(d.take(k + 1)) == acc * 10 + digit);
        assert(d.len() > 0);
        match acc.checked_mul(10) {
            Some(m) => match m.checked_add(digit) {
                Some(v) => {
                    acc = v;
                },
                None => {
                    proof {
                        if all_digits(d) {
                            lemma_digits_value_grows(d, k + 1);
                        }
                    }
                    return None;
                },
            },
            None => {
                proof {
                    if all_digits(d) {
                        lemma_digits_value_grows(d, k + 1);
                    }
                }
                return None;
            },
        }
        i = i + 1;
    }
    assert(d.take(n - start) =~= d);
    Some(acc)
}

/// A field of `/proc/<pid>/stat` read as a number, zero when it is absent
/// or not a number.
pub open spec fn stat_field(stat: Seq<char>, k: int) -> nat {
    if k < words(stat).len() {
        match parse_u64_spec(words(stat)[k]) {
            Some(v) => v as nat,
            None => 0,
        }
    } else {
        0
    }
}

/// CPU time a process has used, in clock ticks, from its
/// `/proc/<pid>/stat` line: user time (the 14th field) plus system time
/// (the 15th), fields that are not numbers counting as zero, and zero when
/// the line has fewer than 15 fields. `None` when the sum overflows a `u64`.
pub fn process_cpu_time(stat: &str) -> (r: Option<u64>)
    ensures
        words(stat@).len() <= 14 ==> r == Some(0u64),
        words(stat@).len() > 14 ==> if stat_field(stat@, 13) + stat_field(stat@, 14) <= u64::MAX {
            r == Some((stat_field(stat@, 13) + stat_field(stat@, 14)) as u64)
        } else {
            r is None
        },
{
    let chars = text_chars(stat);
    let parts = split_words(&chars);
    if parts.len() <= 14 {
        return Some(0);
    }
    assert(parts@[13]@ == words(stat@)[13]);
    assert(parts@[14]@ == words(stat@)[14]);
    let utime = match parse_u64(&parts[13]) {
        Some(v) => v,
        None => 0,
    };
    let stime = match parse_u64(&parts[14]) {
        Some(v) => v,
        None => 0,
    };
    utime.checked_add(stime)
}

/// The lines of `s` as separated by line feeds; the text after the last
/// line feed forms the last (possibly empty) line.
pub open spec fn line_segments(s: Seq<char>) -> Seq<Seq<char>>
    decreases s.len(),
{
    if s.len() == 0 {
        seq![Seq::<char>::empty()]
    } else {
        let rest = line_segments(s.drop_last());
        if s.last() == '\n' {
            rest.push(Seq::empty())
        } else {
            rest.update(rest.len() - 1, rest.last().push(s.last()))
        }
    }
}

proof fn lemma_line_segments_nonempty(s: Seq<char>)
    ensures
        line_segments(s).len() > 0,
    decreases s.len(),
{
    if s.len() > 0 {
        lemma_line_segments_nonempty(s.drop_last());
    }
}

/// Splits characters into line-feed separated lines.
pub fn split_lines(chars: &Vec<char>) -> (l: Vec<Vec<char>>)
    ensures
        char_vec_views(l@) == line_segments(chars@),
{
    let n = chars.len();
    let mut done: Vec<Vec<char>> = Vec::new();
    let mut cur: Vec<char> = Vec::new();
    let mut i: usize = 0;
    assert(chars@.take(0) =~= Seq::<char>::empty());
    assert(char_vec_views(done@) + seq![cur@] =~= line_segments(chars@.take(0)));
    while i < n
        invariant
            n == chars@.len(),
            0 <= i <= n,
            line_segments(chars@.take(i as int)) == char_vec_views(done@) + seq![cur@],
        decreases n - i,
    {
        let c = chars[i];
        let ghost t = chars@.take(i + 1);
        let ghost prev_done = char_vec_views(done@);
        let ghost prev_cur = cur@;
        let ghost rest = line_segments(chars@.take(i as int));
        assert(t.drop_last() =~= chars@.take(i as int));
        assert(t.last() == c);
        if c == '\n' {
            let mut finished: Vec<char> = Vec::new();
            std::mem::swap(&mut finished, &mut cur);
            done.push(finished);
            assert(char_vec_views(done@) =~= prev_done.push(prev_cur));
            assert(line_segments(t) =~= char_vec_views(done@) + seq![cur@]);
        } else {
            cur.push(c);
            assert(line_segments(t) =~= rest.update(rest.len() - 1, rest.last().push(c)));
            assert(line_segments(t) =~= char_vec_views(done@) + seq![cur@]);
        }
        i = i + 1;
    }
    assert(chars@.take(n as int) =~= chars@);
    let ghost prev_done = char_vec_views(done@);
    let ghost last = cur@;
    done.push(cur);
    assert(char_vec_views(done@) =~= prev_done.push(last));
    done
}

/// The label of the resident-memory line of `/proc/<pid>/status`.
pub open spec fn rss_label() -> Seq<char> {
    seq!['V', 'm', 'R', 'S', 'S', ':']
}

/// A status line that reports resident memory and has a value after the label.
pub open spec fn is_rss_line(line: Seq<char>) -> bool {
    &&& line.len() >= 6
    &&& line.take(6) == rss_label()
    &&& words(line).len() >= 2
}

/// The value word of the first resident-memory line among `lines[k..]`.
pub open spec fn rss_value_from(lines: Seq<Seq<char>>, k: int) -> Option<Seq<char>>
    decreases lines.len() - k,
{
    if k < 0 || k >= lines.len() {
        None
    } else if is_rss_line(lines[k]) {
        Some(words(lines[k])[1])
    } else {
        rss_value_from(lines, k + 1)
    }
}

fn starts_with_rss_label(line: &Vec<char>) -> (b: bool)
    ensures
        b == (line@.len() >= 6 && line@.take(6) == rss_label()),
{
    if line.len() < 6 {
        return false;
    }
    let label = ['V', 'm', 'R', 'S', 'S', ':'];
    assert(label@ == rss_label());
    let mut k: usize = 0;
    while k < 6
        invariant
            0 <= k <= 6,
            line@.len() >= 6,
            label@ == rss_label(),
            forall|j: int| 0 <= j < k ==> line@[j] == label@[j],
        decreases 6 - k,
    {
        if line[k] != label[k] {
            assert(line@.take(6)[k as int] != rss_label()[k as int]);
            return false;
        }
        k = k + 1;
    }
    assert(line@.take(6) =~= rss_label());
    true
}

/// The resident-memory value word of a `/proc/<pid>/status` report (in kB):
/// the second word of the first line that starts with `VmRSS:` and has one.
pub fn rss_value(status: &str) -> (r: Option<Vec<char>>)
    ensures
        match rss_value_from(line_segments(status@), 0) {
            Some(v) => r matches Some(w) && w@ == v,
            None => r is None,
        },
{
    let chars = text_chars(status);
    let lines = split_lines(&chars);
    let ghost segs = line_segments(status@);
    assert(char_vec_views(lines@) == segs);
    let n = lines.len();
    let mut k: usize = 0;
    while k < n
        invariant
            n == lines@.len(),
            0 <= k <= n,
            char_vec_views(lines@) == segs,
            segs == line_segments(status@),
            rss_value_from(segs, 0) == rss_value_from(segs, k as int),
        decreases n - k,
    {
        assert(lines@[k as int]@ == segs[k as int]);
        if starts_with_rss_label(&lines[k]) {
            let parts = split_words(&lines[k]);
            if parts.len() >= 2 {
                assert(char_vec_views(parts@).len() == parts@.len());
                assert(is_rss_line(segs[k as int]));
                assert(parts@[1]@ == words(segs[k as int])[1]);
                let mut value: Vec<char> = Vec::new();
                let mut j: usize = 0;
                while j < parts[1].len()
                    invariant
                        parts@.len() >= 2,
                        0 <= j <= parts@[1]@.len(),
                        parts@[1]@ == words(segs[k as int])[1],
                        is_rss_line(segs[k as int]),
                        rss_value_from(segs, 0) == rss_value_from(segs, k as int),
                        0 <= k < segs.len(),
                        segs == line_segments(status@),
                        value@ == parts@[1]@.take(j as int),
                    decreases parts@[1]@.len() - j,
                {
                    value.push(parts[1][j]);
                    assert(parts@[1]@.take(j + 1) =~= parts@[1]@.take(j as int).push(
                        parts@[1]@[j as int],
                    ));
                    j = j + 1;
                }
                assert(parts@[1]@.take(parts@[1]@.len() as int) =~= parts@[1]@);
                return Some(value);
            }
        }
        k = k + 1;
    }
    None
}

} // verus!
