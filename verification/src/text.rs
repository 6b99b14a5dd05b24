//! Text helpers shared by the other modules.
use vstd::prelude::*;

verus! {

/// What a list of owned texts holds.
pub open spec fn texts(list: Seq<String>) -> Seq<Seq<char>> {
    list.map_values(|s: String| s@)
}

/// What a list of borrowed texts holds.
pub open spec fn literals(list: Seq<&str>) -> Seq<Seq<char>> {
    list.map_values(|s: &str| s@)
}

/// What an optional text holds.
pub open spec fn opt_text(text: Option<String>) -> Option<Seq<char>> {
    match text {
        Some(s) => Some(s@),
        None => None,
    }
}

/// The characters of `s`, in order.
pub fn chars_of(s: &str) -> (out: Vec<char>)
    ensures
        out@ == s@,
{
    let mut out: Vec<char> = Vec::new();
    for c in it: s.chars()
        invariant
            out@ == s@.take(it.index() as int),
            it.seq() == s@,
    {
        out.push(c);
    }
    assert(s@.take(s@.len() as int) == s@);
    out
}

/// Whether two texts hold the same characters.
pub fn same_text(a: &str, b: &str) -> (same: bool)
    ensures
        same == (a@ == b@),
{
    a.to_owned() == b.to_owned()
}

/// A character of the Unicode class White_Space.
pub open spec fn white_space(c: char) -> bool {
    let n = c as u32;
    ||| 0x09 <= n <= 0x0d
    ||| n == 0x20
    ||| n == 0x85
    ||| n == 0xa0
    ||| n == 0x1680
    ||| 0x2000 <= n <= 0x200a
    ||| n == 0x2028
    ||| n == 0x2029
    ||| n == 0x202f
    ||| n == 0x205f
    ||| n == 0x3000
}

/// `s` without the white space at its start.
pub open spec fn trim_start(s: Seq<char>) -> Seq<char>
    decreases s.len(),
{
    if s.len() > 0 && white_space(s[0]) {
        trim_start(s.drop_first())
    } else {
        s
    }
}

/// `s` without the white space at its end.
pub open spec fn trim_end(s: Seq<char>) -> Seq<char>
    decreases s.len(),
{
    if s.len() > 0 && white_space(s.last()) {
        trim_end(s.drop_last())
    } else {
        s
    }
}

/// `s` without the white space around it.
pub open spec fn trim(s: Seq<char>) -> Seq<char> {
    trim_end(trim_start(s))
}

fn is_white_space(c: char) -> (yes: bool)
    ensures
        yes == white_space(c),
{
    let n: u32 = c as u32;
    (0x09 <= n && n <= 0x0d) || n == 0x20 || n == 0x85 || n == 0xa0 || n == 0x1680 || (0x2000 <= n
        && n <= 0x200a) || n == 0x2028 || n == 0x2029 || n == 0x202f || n == 0x205f || n == 0x3000
}

/// `s` without the white space around it.
pub fn trim_text(s: &str) -> (trimmed: String)
    ensures
        trimmed@ == trim(s@),
{
    let b: Vec<char> = chars_of(s);
    let n: usize = b.len();
    let mut from: usize = 0;
    assert(s@.skip(0) == s@);
    while from < n && is_white_space(b[from])
        invariant
            b@ == s@,
            n == b@.len(),
            from <= n,
            trim_start(s@) == trim_start(s@.skip(from as int)),
        decreases n - from,
    {
        assert(s@.skip(from as int).drop_first() == s@.skip(from + 1));
        from += 1;
    }
    let mut to: usize = n;
    assert(s@.subrange(from as int, n as int) == s@.skip(from as int));
    while to > from && is_white_space(b[to - 1])
        invariant
            b@ == s@,
            from <= to <= b@.len(),
            trim(s@) == trim_end(s@.subrange(from as int, to as int)),
        decreases to,
    {
        assert(s@.subrange(from as int, to as int).drop_last() == s@.subrange(
            from as int,
            to - 1,
        ));
        to -= 1;
    }
    s.substring_char(from, to).to_owned()
}

/// The digit for a number below ten.
pub open spec fn digit_char(d: nat) -> char {
    ('0' as u32 + d) as char
}

/// A number in decimal, without leading zeros.
pub open spec fn decimal(n: nat) -> Seq<char>
    decreases n,
{
    if n < 10 {
        seq![digit_char(n)]
    } else {
        decimal(n / 10).push(digit_char(n % 10))
    }
}

fn digit_text(d: u32) -> (text: &'static str)
    requires
        d < 10,
    ensures
        text@ == seq![digit_char(d as nat)],
{
    proof {
        reveal_strlit("0");
        reveal_strlit("1");
        reveal_strlit("2");
        reveal_strlit("3");
        reveal_strlit("4");
        reveal_strlit("5");
        reveal_strlit("6");
        reveal_strlit("7");
        reveal_strlit("8");
        reveal_strlit("9");
    }
    match d {
        0 => "0",
        1 => "1",
        2 => "2",
        3 => "3",
        4 => "4",
        5 => "5",
        6 => "6",
        7 => "7",
        8 => "8",
        _ => "9",
    }
}

/// `n` in decimal.
pub fn decimal_text(n: u32) -> (text: String)
    ensures
        text@ == decimal(n as nat),
    decreases n,
{
    if n < 10 {
        digit_text(n).to_owned()
    } else {
        decimal_text(n / 10).concat(digit_text(n % 10))
    }
}

/// `parts` with `sep` between each two of them.
pub open spec fn join(parts: Seq<Seq<char>>, sep: Seq<char>) -> Seq<char>
    decreases parts.len(),
{
    if parts.len() == 0 {
        seq![]
    } else if parts.len() == 1 {
        parts[0]
    } else {
        join(parts.drop_last(), sep) + sep + parts.last()
    }
}

/// `parts` with `sep` between each two of them.
pub fn join_texts(parts: &Vec<String>, sep: &str) -> (joined: String)
    ensures
        joined@ == join(texts(parts@), sep@),
{
    let mut joined: String = String::new();
    let mut i: usize = 0;
    let ghost all = texts(parts@);
    while i < parts.len()
        invariant
            i <= parts@.len(),
            all == texts(parts@),
            joined@ == join(all.take(i as int), sep@),
        decreases parts@.len() - i,
    {
        if i > 0 {
            joined.append(sep);
        }
        joined.append(parts[i].as_str());
        assert(all.take(i + 1).drop_last() == all.take(i as int));
        assert(all.take(i + 1).last() == parts@[i as int]@);
        i += 1;
    }
    assert(all.take(i as int) == all);
    joined
}

/// The pieces of `s` between the occurrences of `sep`; there is always one more piece than there
/// are occurrences.
pub open spec fn split(s: Seq<char>, sep: char) -> Seq<Seq<char>>
    decreases s.len(),
{
    if s.len() == 0 {
        seq![Seq::<char>::empty()]
    } else {
        let front = split(s.drop_last(), sep);
        if s.last() == sep {
            front.push(Seq::<char>::empty())
        } else {
            front.drop_last().push(front.last().push(s.last()))
        }
    }
}

/// The pieces of `s` between the occurrences of `sep`.
pub fn split_text(s: &str, sep: char) -> (parts: Vec<String>)
    ensures
        texts(parts@) == split(s@, sep),
{
    let b: Vec<char> = chars_of(s);
    let mut parts: Vec<String> = Vec::new();
    let mut from: usize = 0;
    let mut i: usize = 0;
    assert(s@.subrange(0, 0) == Seq::<char>::empty());
    assert(texts(parts@).push(s@.subrange(0, 0)) == split(s@.take(0), sep));
    while i < b.len()
        invariant
            b@ == s@,
            from <= i <= b@.len(),
            split(s@.take(i as int), sep) == texts(parts@).push(
                s@.subrange(from as int, i as int),
            ),
        decreases b@.len() - i,
    {
        let ghost before = texts(parts@);
        let ghost piece = s@.subrange(from as int, i as int);
        assert(s@.take(i + 1).drop_last() == s@.take(i as int));
        assert(before.push(piece).drop_last() == before);
        if b[i] == sep {
            parts.push(s.substring_char(from, i).to_owned());
            assert(texts(parts@) == before.push(piece));
            from = i + 1;
            assert(s@.subrange(from as int, i + 1) == Seq::<char>::empty());
        } else {
            assert(s@.subrange(from as int, i + 1) == piece.push(s@[i as int]));
        }
        i += 1;
    }
    assert(s@.take(i as int) == s@);
    let ghost before = texts(parts@);
    parts.push(s.substring_char(from, i).to_owned());
    assert(texts(parts@) == before.push(s@.subrange(from as int, i as int)));
    parts
}

/// Joining the pieces of a split gives the text back.
pub proof fn law_join_undoes_split(s: Seq<char>, sep: char)
    ensures
        split(s, sep).len() > 0,
        join(split(s, sep), seq![sep]) == s,
    decreases s.len(),
{
    if s.len() > 0 {
        law_join_undoes_split(s.drop_last(), sep);
        let front = split(s.drop_last(), sep);
        let all = split(s, sep);
        assert(s == s.drop_last().push(s.last()));
        if s.last() == sep {
            assert(all.drop_last() == front);
            assert(join(front, seq![sep]) + seq![sep] + Seq::<char>::empty() == s);
        } else {
            assert(all.drop_last() == front.drop_last());
            assert(front.last().push(s.last()) == front.last() + seq![s.last()]);
            if front.len() == 1 {
                assert(all[0] == s);
            } else {
                assert(join(all.drop_last(), seq![sep]) + seq![sep] + all.last() == s);
            }
        }
    }
}

proof fn lemma_split_joint(a: Seq<char>, sep: char, b: Seq<char>)
    ensures
        split(a.push(sep) + b, sep) == split(a, sep) + split(b, sep),
    decreases b.len(),
{
    let whole = a.push(sep) + b;
    law_join_undoes_split(b.drop_last(), sep);
    if b.len() == 0 {
        assert(whole.drop_last() == a);
        assert(whole.last() == sep);
        assert(split(a, sep).push(Seq::<char>::empty()) == split(a, sep) + seq![
            Seq::<char>::empty(),
        ]);
    } else {
        lemma_split_joint(a, sep, b.drop_last());
        let front = split(b.drop_last(), sep);
        assert(whole.drop_last() == a.push(sep) + b.drop_last());
        assert(whole.last() == b.last());
        let both = split(a, sep) + front;
        assert(both.last() == front.last());
        if b.last() == sep {
            assert(both.push(Seq::<char>::empty()) == split(a, sep) + front.push(
                Seq::<char>::empty(),
            ));
        } else {
            assert(both.drop_last().push(front.last().push(b.last())) == split(a, sep)
                + front.drop_last().push(front.last().push(b.last())));
        }
    }
}

/// Splitting `a`, a separator and `b` gives the pieces of `a` and then those of `b`.
pub proof fn law_split_at_separator(a: Seq<char>, sep: char, b: Seq<char>)
    ensures
        split(a + seq![sep] + b, sep) == split(a, sep) + split(b, sep),
{
    assert(a + seq![sep] + b == a.push(sep) + b);
    lemma_split_joint(a, sep, b);
}

proof fn lemma_split_whole(s: Seq<char>, sep: char)
    requires
        !s.contains(sep),
    ensures
        split(s, sep) == seq![s],
    decreases s.len(),
{
    if s.len() > 0 {
        let front = s.drop_last();
        assert forall|k: int| 0 <= k < front.len() implies front[k] != sep by {
            assert(s.contains(s[k]));
        }
        assert(s.contains(s[s.len() - 1]));
        lemma_split_whole(front, sep);
        assert(seq![front].drop_last().push(front.push(s.last())) == seq![s]) by {
            assert(front.push(s.last()) == s);
        }
    } else {
        assert(s == Seq::<char>::empty());
    }
}

/// Splitting a joined list gives the list back, if it is not empty and no entry holds the separator.
pub proof fn law_split_undoes_join(parts: Seq<Seq<char>>, sep: char)
    requires
        parts.len() > 0,
        forall|i: int| 0 <= i < parts.len() ==> !(#[trigger] parts[i]).contains(sep),
    ensures
        split(join(parts, seq![sep]), sep) == parts,
    decreases parts.len(),
{
    lemma_split_whole(parts.last(), sep);
    if parts.len() == 1 {
        assert(seq![parts[0]] == parts);
    } else {
        let front = parts.drop_last();
        assert forall|i: int| 0 <= i < front.len() implies !(#[trigger] front[i]).contains(
            sep,
        ) by {
            assert(front[i] == parts[i]);
        }
        law_split_undoes_join(front, sep);
        law_split_at_separator(join(front, seq![sep]), sep, parts.last());
        assert(front + seq![parts.last()] == parts);
    }
}

/// No piece of a split holds the separator.
pub proof fn law_split_pieces_hold_no_separator(s: Seq<char>, sep: char, i: int)
    requires
        0 <= i < split(s, sep).len(),
    ensures
        !split(s, sep)[i].contains(sep),
    decreases s.len(),
{
    if s.len() > 0 {
        let front = split(s.drop_last(), sep);
        law_join_undoes_split(s.drop_last(), sep);
        if i < front.len() {
            law_split_pieces_hold_no_separator(s.drop_last(), sep, i);
        }
        if s.last() != sep && i == front.len() - 1 {
            let piece = front[i];
            assert(split(s, sep)[i] == piece.push(s.last()));
            assert forall|k: int| 0 <= k < piece.len() + 1 implies piece.push(s.last())[k]
                != sep by {
                if k < piece.len() {
                    assert(piece.contains(piece[k]));
                }
            }
        }
    }
}

/// Owned copies of borrowed texts.
pub fn owned_texts(list: &[&str]) -> (out: Vec<String>)
    ensures
        texts(out@) == literals(list@),
{
    let mut out: Vec<String> = Vec::new();
    let mut i: usize = 0;
    while i < list.len()
        invariant
            i <= list@.len(),
            texts(out@) == literals(list@).take(i as int),
        decreases list@.len() - i,
    {
        let ghost before = texts(out@);
        out.push(list[i].to_owned());
        assert(texts(out@) == before.push(list@[i as int]@));
        i += 1;
    }
    assert(literals(list@).take(i as int) == literals(list@));
    out
}

/// A copy of a list of texts.
pub fn copy_texts(list: &Vec<String>) -> (copy: Vec<String>)
    ensures
        texts(copy@) == texts(list@),
{
    let mut copy: Vec<String> = Vec::new();
    let mut i: usize = 0;
    while i < list.len()
        invariant
            i <= list@.len(),
            texts(copy@) == texts(list@).take(i as int),
        decreases list@.len() - i,
    {
        let ghost before = texts(copy@);
        copy.push(list[i].clone());
        assert(texts(copy@) == before.push(list@[i as int]@));
        i += 1;
    }
    assert(texts(list@).take(i as int) == texts(list@));
    copy
}

/// What `String::from_utf8_lossy` makes of `bytes`.
pub uninterp spec fn utf8_lossy(bytes: Seq<u8>) -> Seq<char>;

/// Calls `String::from_utf8_lossy`. Its result is named; of the name it is claimed that bytes which
/// are UTF-8 are decoded. What takes the place of other bytes is left unsaid.
#[verifier::external_body]
pub(crate) fn lossy_text(bytes: &[u8]) -> (text: String)
    ensures
        text@ == utf8_lossy(bytes@),
        vstd::utf8::valid_utf8(bytes@) ==> text@ == vstd::utf8::decode_utf8(bytes@),
{
    String::from_utf8_lossy(bytes).into_owned()
}

/// What `String::from_utf16_lossy` makes of `units`.
pub uninterp spec fn utf16_lossy(units: Seq<u16>) -> Seq<char>;

/// A code unit that stands for a character by itself.
pub open spec fn lone_unit(unit: u16) -> bool {
    !(0xd800 <= unit <= 0xdfff)
}

/// Calls `String::from_utf16_lossy`. Its result is named; of the name it is claimed that units
/// outside the surrogate range each become the character with their number. What becomes of
/// surrogates is left unsaid.
#[verifier::external_body]
pub(crate) fn utf16_text(units: &[u16]) -> (text: String)
    ensures
        text@ == utf16_lossy(units@),
        (forall|i: int| 0 <= i < units@.len() ==> lone_unit(#[trigger] units@[i])) ==> text@
            == units@.map_values(|u: u16| u as char),
{
    String::from_utf16_lossy(units)
}

/// Nothing but white space.
pub open spec fn blank(s: Seq<char>) -> bool {
    forall|i: int| 0 <= i < s.len() ==> white_space(#[trigger] s[i])
}

proof fn lemma_trim_start_blank(a: Seq<char>, m: Seq<char>)
    requires
        blank(a),
    ensures
        trim_start(a + m) == trim_start(m),
    decreases a.len(),
{
    if a.len() > 0 {
        let rest = a.drop_first();
        assert(white_space(a[0]));
        assert forall|i: int| 0 <= i < rest.len() implies white_space(#[trigger] rest[i]) by {
            assert(rest[i] == a[i + 1]);
        }
        assert((a + m).drop_first() == rest + m);
        lemma_trim_start_blank(rest, m);
    } else {
        assert(a + m == m);
    }
}

proof fn lemma_trim_end_blank(m: Seq<char>, b: Seq<char>)
    requires
        blank(b),
    ensures
        trim_end(m + b) == trim_end(m),
    decreases b.len(),
{
    if b.len() > 0 {
        let rest = b.drop_last();
        assert(white_space(b[b.len() - 1]));
        assert forall|i: int| 0 <= i < rest.len() implies white_space(#[trigger] rest[i]) by {
            assert(rest[i] == b[i]);
        }
        assert((m + b).drop_last() == m + rest);
        lemma_trim_end_blank(m, rest);
    } else {
        assert(m + b == m);
    }
}

/// Trimming takes the white space around a text away, and nothing else: of white space, a text that
/// neither begins nor ends with white space, and white space again, the middle is left.
pub proof fn law_trim_takes_the_middle(a: Seq<char>, m: Seq<char>, b: Seq<char>)
    requires
        blank(a),
        blank(b),
        m.len() > 0 ==> !white_space(m[0]) && !white_space(m[m.len() - 1]),
    ensures
        trim(a + m + b) == m,
{
    assert(a + m + b == a + (m + b));
    lemma_trim_start_blank(a, m + b);
    if m.len() > 0 {
        assert(trim_start(m + b) == m + b);
        lemma_trim_end_blank(m, b);
    } else {
        let empty = Seq::<char>::empty();
        assert(m + b == b + empty);
        lemma_trim_start_blank(b, empty);
        assert(m == empty);
    }
}

/// White space is what Unicode counts as such: the characters of ASCII, and those of the other
/// blocks by their names.
pub proof fn law_white_space_is_that_of_unicode(c: char)
    ensures
        (c as u32) < 0x80 ==> (white_space(c) <==> c == '\t' || c == '\n' || c == '\u{b}' || c
            == '\u{c}' || c == '\r' || c == ' '),
        (c as u32) >= 0x80 ==> (white_space(c) <==> c == '\u{85}' || c == '\u{a0}' || c
            == '\u{1680}' || '\u{2000}' <= c <= '\u{200a}' || c == '\u{2028}' || c == '\u{2029}'
            || c == '\u{202f}' || c == '\u{205f}' || c == '\u{3000}'),
{
}

/// The number that decimal digits stand for.
pub open spec fn value(s: Seq<char>) -> int
    decreases s.len(),
{
    if s.len() == 0 {
        0
    } else {
        value(s.drop_last()) * 10 + (s.last() as int - '0' as int)
    }
}

/// A number in decimal reads back as the number, has digits only, and no zero in front.
pub proof fn law_decimal_reads_back(n: nat)
    ensures
        value(decimal(n)) == n,
        decimal(n).len() > 0,
        forall|i: int| 0 <= i < decimal(n).len() ==> '0' <= #[trigger] decimal(n)[i] <= '9',
        decimal(n).len() > 1 ==> decimal(n)[0] != '0',
    decreases n,
{
    reveal_with_fuel(value, 2);
    if n >= 10 {
        law_decimal_reads_back(n / 10);
        assert(decimal(n).drop_last() == decimal(n / 10));
        if decimal(n / 10).len() == 1 {
            assert(value(decimal(n / 10)) == decimal(n / 10)[0] as int - '0' as int) by {
                assert(decimal(n / 10).drop_last() == Seq::<char>::empty());
            }
        }
    } else {
        assert(decimal(n).drop_last() == Seq::<char>::empty());
    }
}

/// Joining two lists, neither of them empty, puts the separator between what each joins to; a
/// single text joins to itself, and no text to nothing.
pub proof fn law_join_of_two_lists(a: Seq<Seq<char>>, b: Seq<Seq<char>>, sep: Seq<char>)
    ensures
        a.len() > 0 && b.len() > 0 ==> join(a + b, sep) == join(a, sep) + sep + join(b, sep),
        a.len() == 1 ==> join(a, sep) == a[0],
        a.len() == 0 ==> join(a, sep) == Seq::<char>::empty(),
    decreases b.len(),
{
    if a.len() > 0 && b.len() > 0 {
        let front = b.drop_last();
        assert((a + b).drop_last() == a + front);
        assert((a + b).last() == b.last());
        if front.len() > 0 {
            law_join_of_two_lists(a, front, sep);
            assert(join(a, sep) + sep + join(front, sep) + sep + b.last() == join(a, sep) + sep
                + join(b, sep));
        } else {
            assert(a + front == a);
        }
    }
}

/// A list of texts holds what each of its texts holds, in order.
pub proof fn law_texts_hold_each(owned: Seq<String>, borrowed: Seq<&str>, text: String)
    ensures
        texts(owned).len() == owned.len(),
        forall|i: int| 0 <= i < owned.len() ==> #[trigger] texts(owned)[i] == owned[i]@,
        literals(borrowed).len() == borrowed.len(),
        forall|i: int| 0 <= i < borrowed.len() ==> #[trigger] literals(borrowed)[i] == borrowed[i]@,
        opt_text(Some(text)) == Some(text@),
        opt_text(None) is None,
{
}

} // verus!
