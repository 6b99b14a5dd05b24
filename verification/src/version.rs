//! Finding the version that the Harness command line reports about itself.
use vstd::prelude::*;

use crate::text::{chars_of, lossy_text, split, split_text, texts, utf8_lossy};

verus! {

/// An ASCII decimal digit.
pub open spec fn digit(c: char) -> bool {
    '0' <= c <= '9'
}

/// A character of a pre-release or build suffix: an ASCII letter or digit, `.` or `-`.
pub open spec fn suffix_char(c: char) -> bool {
    digit(c) || 'a' <= c <= 'z' || 'A' <= c <= 'Z' || c == '.' || c == '-'
}

/// The first index at or after `i` that holds no digit.
pub open spec fn digits_end(s: Seq<char>, i: int) -> int
    decreases s.len() - i,
{
    if 0 <= i < s.len() && digit(s[i]) {
        digits_end(s, i + 1)
    } else {
        i
    }
}

/// The first index at or after `i` that holds no suffix character.
pub open spec fn suffix_end(s: Seq<char>, i: int) -> int
    decreases s.len() - i,
{
    if 0 <= i < s.len() && suffix_char(s[i]) {
        suffix_end(s, i + 1)
    } else {
        i
    }
}

/// Digits start at `i` and a dot stands right behind them.
pub open spec fn dotted(s: Seq<char>, i: int) -> bool {
    i < digits_end(s, i) < s.len() && s[digits_end(s, i)] == '.'
}

/// `digits.digits.digits` starts at `p`.
pub open spec fn core_at(s: Seq<char>, p: int) -> bool {
    let a = digits_end(s, p) + 1;
    let b = digits_end(s, a) + 1;
    0 <= p && dotted(s, p) && dotted(s, a) && b < digits_end(s, b)
}

/// Where the `digits.digits.digits` that starts at `p` ends; its last number is taken whole.
pub open spec fn core_end(s: Seq<char>, p: int) -> int {
    digits_end(s, digits_end(s, digits_end(s, p) + 1) + 1)
}

/// Where a pre-release suffix that may start at `d` ends: `-` and what belongs to it.
pub open spec fn prerelease_end(s: Seq<char>, d: int) -> int {
    if 0 <= d < s.len() && s[d] == '-' {
        suffix_end(s, d + 1)
    } else {
        d
    }
}

/// Where a build suffix that may start at `e` ends: `+` and at least one suffix character.
pub open spec fn build_end(s: Seq<char>, e: int) -> int {
    if 0 <= e < s.len() && s[e] == '+' && e + 1 < suffix_end(s, e + 1) {
        suffix_end(s, e + 1)
    } else {
        e
    }
}

/// Where the version that starts at `p` ends, its suffixes counted in.
pub open spec fn version_end(s: Seq<char>, p: int) -> int {
    build_end(s, prerelease_end(s, core_end(s, p)))
}

/// The version that starts first at or after `p`.
pub open spec fn version_from(s: Seq<char>, p: int) -> Option<Seq<char>>
    decreases s.len() - p,
{
    if p >= s.len() {
        None
    } else if core_at(s, p) {
        Some(s.subrange(p, version_end(s, p)))
    } else {
        version_from(s, p + 1)
    }
}

/// The first version in a line.
pub open spec fn first_version(s: Seq<char>) -> Option<Seq<char>> {
    version_from(s, 0)
}

/// The first version of the last line that has one.
pub open spec fn latest_version(lines: Seq<Seq<char>>) -> Option<Seq<char>>
    decreases lines.len(),
{
    if lines.len() == 0 {
        None
    } else if first_version(lines.last()) is Some {
        first_version(lines.last())
    } else {
        latest_version(lines.drop_last())
    }
}

proof fn lemma_digits_end(s: Seq<char>, i: int)
    requires
        0 <= i <= s.len(),
    ensures
        i <= digits_end(s, i) <= s.len(),
        forall|k: int| i <= k < digits_end(s, i) ==> digit(#[trigger] s[k]),
        digits_end(s, i) < s.len() ==> !digit(s[digits_end(s, i)]),
    decreases s.len() - i,
{
    if i < s.len() && digit(s[i]) {
        lemma_digits_end(s, i + 1);
    }
}

proof fn lemma_suffix_end(s: Seq<char>, i: int)
    requires
        0 <= i <= s.len(),
    ensures
        i <= suffix_end(s, i) <= s.len(),
        forall|k: int| i <= k < suffix_end(s, i) ==> suffix_char(#[trigger] s[k]),
        suffix_end(s, i) < s.len() ==> !suffix_char(s[suffix_end(s, i)]),
    decreases s.len() - i,
{
    if i < s.len() && suffix_char(s[i]) {
        lemma_suffix_end(s, i + 1);
    }
}

/// Digits that start inside a run of digits end where the run ends.
proof fn lemma_digits_end_inside(s: Seq<char>, i: int, q: int)
    requires
        0 <= i <= q <= digits_end(s, i),
        i <= s.len(),
    ensures
        digits_end(s, q) == digits_end(s, i),
    decreases q - i,
{
    lemma_digits_end(s, i);
    if i < q {
        lemma_digits_end_inside(s, i + 1, q);
    }
}

/// A version lies within its line and is not empty.
proof fn lemma_version_bounds(s: Seq<char>, p: int)
    requires
        core_at(s, p),
    ensures
        0 <= p < core_end(s, p) <= prerelease_end(s, core_end(s, p)) <= version_end(s, p)
            <= s.len(),
{
    lemma_digits_end(s, p);
    let a = digits_end(s, p) + 1;
    lemma_digits_end(s, a);
    let b = digits_end(s, a) + 1;
    lemma_digits_end(s, b);
    let d = core_end(s, p);
    if d < s.len() && s[d] == '-' {
        lemma_suffix_end(s, d + 1);
    }
    let e = prerelease_end(s, d);
    if e < s.len() && s[e] == '+' {
        lemma_suffix_end(s, e + 1);
    }
}

/// A stretch of a line in which no version starts can be passed over.
proof fn lemma_no_core_skip(s: Seq<char>, i: int, j: int)
    requires
        0 <= i <= j <= s.len(),
        forall|q: int| i <= q < j ==> !core_at(s, q),
    ensures
        version_from(s, i) == version_from(s, j),
    decreases j - i,
{
    if i < j {
        assert(!core_at(s, i));
        lemma_no_core_skip(s, i + 1, j);
    }
}

fn is_digit(c: char) -> (yes: bool)
    ensures
        yes == digit(c),
{
    '0' <= c && c <= '9'
}

fn is_suffix_char(c: char) -> (yes: bool)
    ensures
        yes == suffix_char(c),
{
    is_digit(c) || ('a' <= c && c <= 'z') || ('A' <= c && c <= 'Z') || c == '.' || c == '-'
}

fn scan_digits(b: &Vec<char>, from: usize) -> (end: usize)
    requires
        from <= b@.len(),
    ensures
        end == digits_end(b@, from as int),
        from <= end <= b@.len(),
{
    let mut i: usize = from;
    while i < b.len() && is_digit(b[i])
        invariant
            from <= i <= b@.len(),
            digits_end(b@, from as int) == digits_end(b@, i as int),
        decreases b@.len() - i,
    {
        i += 1;
    }
    i
}

fn scan_suffix(b: &Vec<char>, from: usize) -> (end: usize)
    requires
        from <= b@.len(),
    ensures
        end == suffix_end(b@, from as int),
        from <= end <= b@.len(),
{
    let mut i: usize = from;
    while i < b.len() && is_suffix_char(b[i])
        invariant
            from <= i <= b@.len(),
            suffix_end(b@, from as int) == suffix_end(b@, i as int),
        decreases b@.len() - i,
    {
        i += 1;
    }
    i
}

/// Where the three numbers end that start at `from`, if they do start there. `first` is the end of
/// the first number.
fn scan_core(b: &Vec<char>, from: usize, first: usize) -> (end: Option<usize>)
    requires
        from < first <= b@.len(),
        first == digits_end(b@, from as int),
    ensures
        end is Some <==> core_at(b@, from as int),
        end matches Some(d) ==> d == core_end(b@, from as int) && d <= b@.len(),
{
    if first < b.len() && b[first] == '.' {
        let second: usize = scan_digits(b, first + 1);
        if first + 1 < second && second < b.len() && b[second] == '.' {
            let third: usize = scan_digits(b, second + 1);
            if second + 1 < third {
                return Some(third);
            }
        }
    }
    None
}

/// Where the suffixes end of a version whose numbers end at `d`.
fn scan_suffixes(b: &Vec<char>, d: usize) -> (end: usize)
    requires
        d <= b@.len(),
    ensures
        end == build_end(b@, prerelease_end(b@, d as int)),
{
    let mut end: usize = d;
    if end < b.len() && b[end] == '-' {
        end = scan_suffix(b, end + 1);
    }
    if end < b.len() && b[end] == '+' {
        let build: usize = scan_suffix(b, end + 1);
        if end + 1 < build {
            end = build;
        }
    }
    end
}

/// Finds a semver-like pattern anywhere inside a line: `digits.digits.digits` with an optional
/// `-prerelease` and an optional `+build` suffix. The leftmost one is taken.
pub fn find_semver(s: &str) -> (found: Option<String>)
    ensures
        found is Some <==> first_version(s@) is Some,
        found matches Some(v) ==> first_version(s@) == Some(v@),
{
    let b: Vec<char> = chars_of(s);
    let n: usize = b.len();
    let mut i: usize = 0;
    while i < n
        invariant
            i <= n,
            n == b@.len(),
            b@ == s@,
            first_version(s@) == version_from(s@, i as int),
        decreases n - i,
    {
        let first: usize = scan_digits(&b, i);
        if first == i {
            i += 1;
        } else {
            if let Some(d) = scan_core(&b, i, first) {
                let end: usize = scan_suffixes(&b, d);
                proof {
                    lemma_version_bounds(s@, i as int);
                }
                return Some(s.substring_char(i, end).to_owned());
            }
            proof {
                assert forall|q: int| i <= q < first implies !core_at(s@, q) by {
                    lemma_digits_end_inside(s@, i as int, q);
                    assert(core_at(s@, q) ==> core_at(s@, i as int));
                }
                lemma_no_core_skip(s@, i as int, first as int);
            }
            i = first;
        }
    }
    None
}

/// Scans from the last line backwards for the first line that holds a version, so that a bare
/// `0.1.0`, `v0.1.0`, `dsh 0.1.0-rc.6` and a download line such as `dsh-0.1.0.tgz` all count.
pub fn extract_version(lines: &[String]) -> (found: Option<String>)
    ensures
        found is Some <==> latest_version(texts(lines@)) is Some,
        found matches Some(v) ==> latest_version(texts(lines@)) == Some(v@),
{
    let mut k: usize = lines.len();
    assert(texts(lines@).take(k as int) == texts(lines@));
    while k > 0
        invariant
            k <= lines@.len(),
            latest_version(texts(lines@)) == latest_version(texts(lines@).take(k as int)),
        decreases k,
    {
        let ghost rest = texts(lines@).take(k as int);
        k -= 1;
        let found = find_semver(lines[k].as_str());
        assert(rest.last() == lines@[k as int]@);
        assert(rest.drop_last() == texts(lines@).take(k as int));
        if found.is_some() {
            return found;
        }
    }
    None
}

/// The version that the lines report, or a word that says that they report none.
pub open spec fn version_or_unknown(lines: Seq<Seq<char>>) -> Seq<char> {
    match latest_version(lines) {
        Some(v) => v,
        None => "unknown"@,
    }
}

/// The version that the lines report, or `unknown`.
pub fn reported_version(lines: &[String]) -> (version: String)
    ensures
        version@ == version_or_unknown(texts(lines@)),
{
    match extract_version(lines) {
        Some(v) => v,
        None => "unknown".to_owned(),
    }
}

/// The version that a program has printed, or `unknown`. Lines end at a line feed; a carriage
/// return in front of it is part of no version.
pub fn dsh_version(stdout: &[u8]) -> (version: String)
    ensures
        version@ == version_or_unknown(split(utf8_lossy(stdout@), '\n')),
        vstd::utf8::valid_utf8(stdout@) ==> version@ == version_or_unknown(
            split(vstd::utf8::decode_utf8(stdout@), '\n'),
        ),
{
    let text: String = lossy_text(stdout);
    let lines: Vec<String> = split_text(text.as_str(), '\n');
    reported_version(lines.as_slice())
}

/// Digits found in a part of a line end there as they do in the line.
proof fn lemma_digits_end_part(s: Seq<char>, p: int, e: int, i: int)
    requires
        0 <= p <= i <= e <= s.len(),
        digits_end(s, i) <= e,
    ensures
        digits_end(s.subrange(p, e), i - p) == digits_end(s, i) - p,
    decreases e - i,
{
    if i < s.len() && digit(s[i]) {
        lemma_digits_end(s, i + 1);
        lemma_digits_end_part(s, p, e, i + 1);
    }
}

/// A suffix found in a part of a line ends there as it does in the line.
proof fn lemma_suffix_end_part(s: Seq<char>, p: int, e: int, i: int)
    requires
        0 <= p <= i <= e <= s.len(),
        suffix_end(s, i) <= e,
    ensures
        suffix_end(s.subrange(p, e), i - p) == suffix_end(s, i) - p,
    decreases e - i,
{
    if i < s.len() && suffix_char(s[i]) {
        lemma_suffix_end(s, i + 1);
        lemma_suffix_end_part(s, p, e, i + 1);
    }
}

proof fn lemma_digits_end_shift(x: Seq<char>, y: Seq<char>, i: int)
    requires
        0 <= i <= y.len(),
    ensures
        digits_end(x + y, x.len() + i) == x.len() + digits_end(y, i),
    decreases y.len() - i,
{
    if i < y.len() && digit(y[i]) {
        lemma_digits_end_shift(x, y, i + 1);
    }
}

proof fn lemma_suffix_end_shift(x: Seq<char>, y: Seq<char>, i: int)
    requires
        0 <= i <= y.len(),
    ensures
        suffix_end(x + y, x.len() + i) == x.len() + suffix_end(y, i),
    decreases y.len() - i,
{
    if i < y.len() && suffix_char(y[i]) {
        lemma_suffix_end_shift(x, y, i + 1);
    }
}

proof fn lemma_core_shift(x: Seq<char>, y: Seq<char>, i: int)
    requires
        0 <= i <= y.len(),
    ensures
        core_at(x + y, x.len() + i) == core_at(y, i),
        core_at(y, i) ==> version_end(x + y, x.len() + i) == x.len() + version_end(y, i),
{
    lemma_digits_end_shift(x, y, i);
    lemma_digits_end(y, i);
    if dotted(y, i) {
        let a = digits_end(y, i) + 1;
        lemma_digits_end_shift(x, y, a);
        lemma_digits_end(y, a);
        if dotted(y, a) {
            let b = digits_end(y, a) + 1;
            lemma_digits_end_shift(x, y, b);
            lemma_digits_end(y, b);
            let d = digits_end(y, b);
            if b < d && d < y.len() && y[d] == '-' {
                lemma_suffix_end_shift(x, y, d + 1);
                lemma_suffix_end(y, d + 1);
            }
            let e = prerelease_end(y, d);
            if b < d && e < y.len() && y[e] == '+' {
                lemma_suffix_end_shift(x, y, e + 1);
                lemma_suffix_end(y, e + 1);
            }
        }
    }
}

proof fn lemma_version_from_shift(x: Seq<char>, y: Seq<char>, i: int)
    requires
        0 <= i <= y.len(),
    ensures
        version_from(x + y, x.len() + i) == version_from(y, i),
    decreases y.len() - i,
{
    if i < y.len() {
        lemma_core_shift(x, y, i);
        if core_at(y, i) {
            lemma_version_bounds(y, i);
            assert((x + y).subrange(x.len() + i, version_end(x + y, x.len() + i))
                == y.subrange(i, version_end(y, i)));
        } else {
            lemma_version_from_shift(x, y, i + 1);
        }
    }
}

proof fn lemma_version_from(s: Seq<char>, i: int)
    requires
        0 <= i <= s.len(),
    ensures
        match version_from(s, i) {
            Some(v) => exists|p: int| #[trigger]
                core_at(s, p) && i <= p && v == s.subrange(p, version_end(s, p)) && (forall|q: int|
                    i <= q < p ==> !core_at(s, q)),
            None => forall|q: int| i <= q ==> !core_at(s, q),
        },
    decreases s.len() - i,
{
    if i < s.len() {
        if core_at(s, i) {
            assert(core_at(s, i) && s.subrange(i, version_end(s, i)) == s.subrange(
                i,
                version_end(s, i),
            ));
        } else {
            lemma_version_from(s, i + 1);
        }
    }
}

/// The version found in a line starts at the leftmost `digits.digits.digits` of the line and takes
/// its suffixes whole; a line without such a pattern has no version.
pub proof fn law_version_is_leftmost(s: Seq<char>)
    ensures
        match first_version(s) {
            Some(v) => exists|p: int| #[trigger]
                core_at(s, p) && v == s.subrange(p, version_end(s, p)) && (forall|q: int|
                    q < p ==> !core_at(s, q)),
            None => forall|q: int| !core_at(s, q),
        },
{
    lemma_version_from(s, 0);
}

/// A version that was found is found again, unchanged, when it stands alone.
pub proof fn law_version_is_stable(s: Seq<char>, v: Seq<char>)
    requires
        first_version(s) == Some(v),
    ensures
        first_version(v) == Some(v),
{
    lemma_version_from(s, 0);
    let p = choose|p: int| #[trigger] core_at(s, p) && v == s.subrange(p, version_end(s, p));
    let e = version_end(s, p);
    lemma_version_bounds(s, p);
    lemma_digits_end(s, p);
    let a = digits_end(s, p) + 1;
    lemma_digits_end(s, a);
    let b = digits_end(s, a) + 1;
    lemma_digits_end(s, b);
    let d = digits_end(s, b);
    lemma_digits_end_part(s, p, e, p);
    lemma_digits_end_part(s, p, e, a);
    lemma_digits_end_part(s, p, e, b);
    assert(core_at(v, 0));
    assert(core_end(v, 0) == d - p);
    if d < s.len() && s[d] == '-' {
        lemma_suffix_end(s, d + 1);
        lemma_suffix_end_part(s, p, e, d + 1);
    }
    let f = prerelease_end(s, d);
    assert(prerelease_end(v, d - p) == f - p);
    if f < e {
        lemma_suffix_end_part(s, p, e, f + 1);
    }
    assert(version_end(v, 0) == e - p);
    assert(v.subrange(0, e - p) == v);
}

/// Text without digits in front of a version does not matter.
pub proof fn law_digitless_prefix_is_ignored(prefix: Seq<char>, s: Seq<char>)
    requires
        forall|i: int| 0 <= i < prefix.len() ==> !digit(#[trigger] prefix[i]),
    ensures
        first_version(prefix + s) == first_version(s),
{
    let x = prefix + s;
    assert forall|q: int| 0 <= q < prefix.len() implies !core_at(x, q) by {
        assert(x[q] == prefix[q]);
        assert(digits_end(x, q) == q);
    }
    lemma_no_core_skip(x, 0, prefix.len() as int);
    lemma_version_from_shift(prefix, s, 0);
}

/// Lines without a version after the line that reports one do not matter.
pub proof fn law_trailing_noise_is_ignored(lines: Seq<Seq<char>>, noise: Seq<Seq<char>>)
    requires
        forall|i: int| 0 <= i < noise.len() ==> first_version(#[trigger] noise[i]) is None,
    ensures
        latest_version(lines + noise) == latest_version(lines),
    decreases noise.len(),
{
    if noise.len() == 0 {
        assert(lines + noise == lines);
    } else {
        let all = lines + noise;
        assert(all.last() == noise[noise.len() - 1]);
        assert(all.drop_last() == lines + noise.drop_last());
        law_trailing_noise_is_ignored(lines, noise.drop_last());
    }
}

/// A version is reported exactly when some line holds one.
pub proof fn law_version_reported_iff_present(lines: Seq<Seq<char>>)
    ensures
        latest_version(lines) is Some <==> exists|i: int|
            0 <= i < lines.len() && first_version(#[trigger] lines[i]) is Some,
    decreases lines.len(),
{
    if lines.len() > 0 {
        let front = lines.drop_last();
        law_version_reported_iff_present(front);
        assert(forall|i: int| 0 <= i < front.len() ==> front[i] == lines[i]);
        assert(lines.last() == lines[lines.len() - 1]);
        if latest_version(front) is Some {
            let i = choose|i: int|
                0 <= i < front.len() && first_version(#[trigger] front[i]) is Some;
            assert(first_version(lines[i]) is Some);
        }
    }
}

/// ASCII digits, at least one, fill `s` from `from` up to `to`.
pub open spec fn number_at(s: Seq<char>, from: int, to: int) -> bool {
    0 <= from < to <= s.len() && forall|k: int| from <= k < to ==> '0' <= #[trigger] s[k] <= '9'
}

/// Three numbers with dots between them start at `p`; the dots stand at `a` and `b`, and the last
/// number reaches up to `c`.
pub open spec fn numbers_at(s: Seq<char>, p: int, a: int, b: int, c: int) -> bool {
    number_at(s, p, a) && a < s.len() && s[a] == '.' && number_at(s, a + 1, b) && b < s.len()
        && s[b] == '.' && number_at(s, b + 1, c)
}

/// A letter or digit of ASCII, a dot or a hyphen.
pub open spec fn tag_char(c: char) -> bool {
    '0' <= c <= '9' || 'A' <= c <= 'Z' || 'a' <= c <= 'z' || c == '.' || c == '-'
}

/// Letters, digits, dots and hyphens fill `s` from `from` up to `to`, and no further.
pub open spec fn tag_at(s: Seq<char>, from: int, to: int) -> bool {
    &&& 0 <= from <= to <= s.len()
    &&& forall|k: int| from <= k < to ==> tag_char(#[trigger] s[k])
    &&& to < s.len() ==> !tag_char(s[to])
}

/// The suffixes of a version whose numbers reach up to `c`: a hyphen and a tag up to `d`, if a
/// hyphen stands there, then a plus and a tag that is not empty up to `e`, if such stand there.
pub open spec fn suffixes_at(s: Seq<char>, c: int, d: int, e: int) -> bool {
    &&& if c < s.len() && s[c] == '-' {
        tag_at(s, c + 1, d)
    } else {
        d == c
    }
    &&& if d + 1 < s.len() && s[d] == '+' && tag_char(s[d + 1]) {
        tag_at(s, d + 1, e)
    } else {
        e == d
    }
}

/// `v` stands in `s` from `p` on: three numbers, the last of them whole, and all of the suffixes.
pub open spec fn version_at(s: Seq<char>, v: Seq<char>, p: int) -> bool {
    exists|a: int, b: int, c: int, d: int, e: int|
        #![trigger numbers_at(s, p, a, b, c), suffixes_at(s, c, d, e)]
        numbers_at(s, p, a, b, c) && (c < s.len() ==> !('0' <= s[c] <= '9')) && suffixes_at(
            s,
            c,
            d,
            e,
        ) && 0 <= p <= e <= s.len() && v == s.subrange(p, e)
}

proof fn lemma_digits_end_is(s: Seq<char>, i: int, j: int)
    requires
        0 <= i <= j <= s.len(),
        forall|k: int| i <= k < j ==> '0' <= #[trigger] s[k] <= '9',
        j < s.len() ==> !('0' <= s[j] <= '9'),
    ensures
        digits_end(s, i) == j,
    decreases j - i,
{
    if i < j {
        assert('0' <= s[i] <= '9');
        lemma_digits_end_is(s, i + 1, j);
    }
}

proof fn lemma_numbers_are_core(s: Seq<char>, p: int, a: int, b: int, c: int)
    requires
        numbers_at(s, p, a, b, c),
    ensures
        core_at(s, p),
{
    lemma_digits_end_is(s, p, a);
    lemma_digits_end_is(s, a + 1, b);
    assert(digit(s[b + 1]));
    lemma_digits_end(s, b + 2);
}

proof fn lemma_core_is_numbers(s: Seq<char>, p: int)
    requires
        core_at(s, p),
    ensures
        version_at(s, s.subrange(p, version_end(s, p)), p),
{
    lemma_version_bounds(s, p);
    lemma_digits_end(s, p);
    let a = digits_end(s, p);
    lemma_digits_end(s, a + 1);
    let b = digits_end(s, a + 1);
    lemma_digits_end(s, b + 1);
    let c = core_end(s, p);
    assert(numbers_at(s, p, a, b, c));
    let d = prerelease_end(s, c);
    let e = version_end(s, p);
    if c < s.len() && s[c] == '-' {
        lemma_suffix_end(s, c + 1);
    }
    if d < s.len() && s[d] == '+' {
        lemma_suffix_end(s, d + 1);
    }
    assert(suffixes_at(s, c, d, e));
}

/// A line has a version exactly if three numbers with dots between them stand in it. The version is
/// the one that starts leftmost, with its last number whole and with all of its suffixes.
pub proof fn law_version_is_three_numbers_and_suffixes(s: Seq<char>)
    ensures
        first_version(s) is Some <==> exists|p: int, a: int, b: int, c: int| #[trigger]
            numbers_at(s, p, a, b, c),
        first_version(s) matches Some(v) ==> exists|p: int| #[trigger]
            version_at(s, v, p) && (forall|q: int, a: int, b: int, c: int| #[trigger]
                numbers_at(s, q, a, b, c) ==> p <= q),
{
    lemma_version_from(s, 0);
    match first_version(s) {
        Some(v) => {
            let p = choose|p: int| #[trigger]
                core_at(s, p) && v == s.subrange(p, version_end(s, p)) && (forall|q: int|
                    0 <= q < p ==> !core_at(s, q));
            lemma_core_is_numbers(s, p);
            assert forall|q: int, a: int, b: int, c: int| #[trigger]
                numbers_at(s, q, a, b, c) implies p <= q by {
                lemma_numbers_are_core(s, q, a, b, c);
            }
            assert(version_at(s, v, p));
        },
        None => {
            assert forall|p: int, a: int, b: int, c: int| !#[trigger] numbers_at(s, p, a, b, c) by {
                if numbers_at(s, p, a, b, c) {
                    lemma_numbers_are_core(s, p, a, b, c);
                }
            }
        },
    }
}

/// The last line that holds a version decides: the version that is reported is the one of the line
/// `i` if no line behind it holds one, whatever stands in front; and where no line holds one, none
/// is reported.
pub proof fn law_last_line_decides(lines: Seq<Seq<char>>, i: int)
    requires
        -1 <= i < lines.len(),
        forall|j: int| i < j < lines.len() ==> first_version(#[trigger] lines[j]) is None,
        i >= 0 ==> first_version(lines[i]) is Some,
    ensures
        i >= 0 ==> latest_version(lines) == first_version(lines[i]),
        i < 0 ==> latest_version(lines) is None,
    decreases lines.len(),
{
    if lines.len() > 0 {
        let front = lines.drop_last();
        assert(lines.last() == lines[lines.len() - 1]);
        if i < lines.len() - 1 {
            assert forall|j: int| i < j < front.len() implies first_version(
                #[trigger] front[j],
            ) is None by {
                assert(front[j] == lines[j]);
            }
            law_last_line_decides(front, i);
        }
    }
}

/// What is reported is the version that was found, and the word `unknown` exactly where none was.
pub proof fn law_unknown_stands_for_no_version(lines: Seq<Seq<char>>)
    ensures
        latest_version(lines) matches Some(v) ==> version_or_unknown(lines) == v,
        latest_version(lines) is None ==> version_or_unknown(lines) == "unknown"@,
{
}

} // verus!
