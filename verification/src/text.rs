use vstd::prelude::*;
use vstd::string::*;

verus! {

/// Whether `char::is_whitespace` holds of `c`: whether Unicode counts `c` as
/// white space (`White_Space`).
pub uninterp spec fn white_space(c: char) -> bool;

/// `char::is_whitespace`. The answer depends on the character alone.
#[verifier::external_body]
fn is_whitespace(c: char) -> (b: bool)
    ensures
        b == white_space(c),
{
    c.is_whitespace()
}

/// `String::push`: `c` is appended to `text`.
#[verifier::external_body]
pub(crate) fn push_char(text: &mut String, c: char)
    ensures
        final(text)@ == old(text)@.push(c),
{
    text.push(c)
}

/// `String::pop`: the last character leaves `text` and is handed back; an empty
/// `text` stays empty and nothing is handed back.
#[verifier::external_body]
pub(crate) fn pop_char(text: &mut String) -> (last: Option<char>)
    ensures
        old(text)@.len() == 0 ==> last is None && final(text)@ == old(text)@,
        old(text)@.len() > 0 ==> last == Some(old(text)@.last()) && final(text)@
            == old(text)@.drop_last(),
{
    text.pop()
}

/// `text` without the white space it starts with.
pub open spec fn trim_start(text: Seq<char>) -> Seq<char>
    decreases text.len(),
{
    if text.len() > 0 && white_space(text.first()) {
        trim_start(text.drop_first())
    } else {
        text
    }
}

/// `text` without the white space it ends with.
pub open spec fn trim_end(text: Seq<char>) -> Seq<char>
    decreases text.len(),
{
    if text.len() > 0 && white_space(text.last()) {
        trim_end(text.drop_last())
    } else {
        text
    }
}

/// `text` without the white space at either end.
pub open spec fn trimmed(text: Seq<char>) -> Seq<char> {
    trim_end(trim_start(text))
}

/// Whether `text` holds nothing but white space.
pub open spec fn is_blank(text: Seq<char>) -> bool {
    forall|i: int| 0 <= i < text.len() ==> white_space(#[trigger] text[i])
}

proof fn lemma_trim_start_at(text: Seq<char>, from: int)
    requires
        0 <= from <= text.len(),
        forall|i: int| 0 <= i < from ==> white_space(#[trigger] text[i]),
        from < text.len() ==> !white_space(text[from]),
    ensures
        trim_start(text) == text.subrange(from, text.len() as int),
    decreases from,
{
    if from == 0 {
        assert(text.subrange(0, text.len() as int) =~= text);
    } else {
        let rest = text.drop_first();
        assert forall|i: int| 0 <= i < from - 1 implies white_space(#[trigger] rest[i]) by {
            assert(rest[i] == text[i + 1]);
        }
        lemma_trim_start_at(rest, from - 1);
        assert(rest.subrange(from - 1, rest.len() as int) =~= text.subrange(
            from,
            text.len() as int,
        ));
    }
}

proof fn lemma_trim_end_at(text: Seq<char>, to: int)
    requires
        0 <= to <= text.len(),
        forall|i: int| to <= i < text.len() ==> white_space(#[trigger] text[i]),
        0 < to ==> !white_space(text[to - 1]),
    ensures
        trim_end(text) == text.subrange(0, to),
    decreases text.len() - to,
{
    if to == text.len() {
        assert(text.subrange(0, to) =~= text);
    } else {
        let rest = text.drop_last();
        lemma_trim_end_at(rest, to);
        assert(rest.subrange(0, to) =~= text.subrange(0, to));
    }
}

/// Trimming keeps the part of `text` from its first to its last character that is
/// no white space, and nothing where there is no such character.
pub proof fn lemma_trimmed_is_the_inner_part(text: Seq<char>, from: int, to: int)
    requires
        0 <= from <= to <= text.len(),
        forall|i: int| 0 <= i < from ==> white_space(#[trigger] text[i]),
        forall|i: int| to <= i < text.len() ==> white_space(#[trigger] text[i]),
        from < to ==> !white_space(text[from]) && !white_space(text[to - 1]),
    ensures
        trimmed(text) == text.subrange(from, to),
{
    if from < to {
        lemma_trim_start_at(text, from);
        let tail = text.subrange(from, text.len() as int);
        assert forall|i: int| to - from <= i < tail.len() implies white_space(
            #[trigger] tail[i],
        ) by {
            assert(tail[i] == text[i + from]);
        }
        assert(tail[to - from - 1] == text[to - 1]);
        lemma_trim_end_at(tail, to - from);
        assert(tail.subrange(0, to - from) =~= text.subrange(from, to));
    } else {
        lemma_trim_start_at(text, text.len() as int);
        let tail = text.subrange(text.len() as int, text.len() as int);
        assert(tail.len() == 0);
        assert(text.subrange(from, to) =~= tail);
    }
}

/// What trimming leaves is empty exactly where `text` is blank.
pub proof fn lemma_trimmed_empty_iff_blank(text: Seq<char>)
    ensures
        trimmed(text).len() == 0 <==> is_blank(text),
{
    if is_blank(text) {
        lemma_trimmed_is_the_inner_part(text, 0, 0);
    } else {
        let first = choose|i: int|
            0 <= i < text.len() && !white_space(#[trigger] text[i]) && forall|j: int|
                0 <= j < i ==> white_space(#[trigger] text[j]);
        lemma_first_other_exists(text, text.len() as int);
        lemma_last_other_exists(text, 0);
        let last = choose|i: int|
            0 <= i < text.len() && !white_space(#[trigger] text[i]) && forall|j: int|
                i < j < text.len() ==> white_space(#[trigger] text[j]);
        lemma_trimmed_is_the_inner_part(text, first, last + 1);
    }
}

proof fn lemma_first_other_exists(text: Seq<char>, upto: int)
    requires
        0 <= upto <= text.len(),
        exists|i: int| 0 <= i < upto && !white_space(#[trigger] text[i]),
    ensures
        exists|i: int|
            0 <= i < text.len() && !white_space(#[trigger] text[i]) && forall|j: int|
                0 <= j < i ==> white_space(#[trigger] text[j]),
    decreases upto,
{
    let k = choose|i: int| 0 <= i < upto && !white_space(#[trigger] text[i]);
    if exists|i: int| 0 <= i < k && !white_space(#[trigger] text[i]) {
        lemma_first_other_exists(text, k);
    } else {
        assert(forall|j: int| 0 <= j < k ==> white_space(#[trigger] text[j]));
    }
}

proof fn lemma_last_other_exists(text: Seq<char>, from: int)
    requires
        0 <= from <= text.len(),
        exists|i: int| from <= i < text.len() && !white_space(#[trigger] text[i]),
    ensures
        exists|i: int|
            0 <= i < text.len() && !white_space(#[trigger] text[i]) && forall|j: int|
                i < j < text.len() ==> white_space(#[trigger] text[j]),
    decreases text.len() - from,
{
    let k = choose|i: int| from <= i < text.len() && !white_space(#[trigger] text[i]);
    if exists|i: int| k < i < text.len() && !white_space(#[trigger] text[i]) {
        lemma_last_other_exists(text, k + 1);
    } else {
        assert(forall|j: int| k < j < text.len() ==> white_space(#[trigger] text[j]));
    }
}

/// `text` without the white space at either end, as `str::trim` gives it.
pub fn trim(text: &str) -> (inner: String)
    ensures
        inner@ == trimmed(text@),
{
    let len: usize = text.unicode_len();
    // The characters that stay are those from `from` up to `to`; `to` is 0 until
    // one of them has been seen.
    let mut from: usize = 0;
    let mut to: usize = 0;
    let mut i: usize = 0;
    for c in letters: text.chars()
        invariant
            letters.seq() == text@,
            len == text@.len(),
            i == letters.index(),
            from <= to <= i,
            forall|k: int| 0 <= k < from ==> white_space(#[trigger] text@[k]),
            forall|k: int| to <= k < i ==> white_space(#[trigger] text@[k]),
            to > 0 ==> !white_space(text@[from as int]) && !white_space(text@[to - 1]),
    {
        if !is_whitespace(c) {
            if to == 0 {
                from = i;
            }
            to = i + 1;
        }
        i = i + 1;
    }
    proof {
        lemma_trimmed_is_the_inner_part(text@, from as int, to as int);
    }
    text.substring_char(from, to).to_owned()
}

/// The three full stops that mark a shortened text.
pub open spec fn ellipsis() -> Seq<char> {
    seq!['.', '.', '.']
}

/// `text` cut down for a column of `max_len` characters: unchanged where it is no
/// longer than the column; cut to `max_len` characters where the column is no wider
/// than three; else cut to three characters less, with the ellipsis behind.
pub open spec fn truncated(text: Seq<char>, max_len: int) -> Seq<char> {
    if text.len() <= max_len {
        text
    } else if max_len <= 3 {
        text.take(max_len)
    } else {
        text.take(max_len - 3) + ellipsis()
    }
}

/// A cut text never has more characters than the column it was cut for, and a
/// text that is longer than its column fills it.
pub proof fn lemma_truncated_fits(text: Seq<char>, max_len: int)
    requires
        0 <= max_len,
    ensures
        truncated(text, max_len).len() <= max_len,
        text.len() <= max_len ==> truncated(text, max_len) == text,
        text.len() > max_len ==> truncated(text, max_len).len() == max_len,
{
}

/// `value` cut down to fit a column of `max_len` characters. A text that is no
/// longer than its column comes back as it is.
pub fn truncate(value: &str, max_len: usize) -> (out: String)
    ensures
        out@ == truncated(value@, max_len as int),
        value@.len() <= max_len ==> out@ == value@,
        out@.len() <= max_len,
{
    if value.unicode_len() <= max_len {
        return value.to_owned();
    }
    if max_len <= 3 {
        return value.substring_char(0, max_len).to_owned();
    }
    let mut out = value.substring_char(0, max_len - 3).to_owned();
    proof {
        reveal_strlit("...");
        assert("..."@ =~= ellipsis());
    }
    out.append("...");
    out
}

/// `text` with spaces behind it up to `width` characters; unchanged where it has
/// that many already.
pub open spec fn padded(text: Seq<char>, width: int) -> Seq<char> {
    if text.len() >= width {
        text
    } else {
        text + Seq::new((width - text.len()) as nat, |i: int| ' ')
    }
}

/// `text` filled up with spaces to `width` characters.
pub fn pad(text: &str, width: usize) -> (out: String)
    ensures
        out@ == padded(text@, width as int),
{
    let mut out = text.to_owned();
    let mut count: usize = text.unicode_len();
    while count < width
        invariant
            text@.len() <= count,
            count > text@.len() ==> count <= width,
            out@ == text@ + Seq::new((count - text@.len()) as nat, |i: int| ' '),
        decreases width - count,
    {
        push_char(&mut out, ' ');
        count = count + 1;
        assert(out@ =~= text@ + Seq::new((count - text@.len()) as nat, |i: int| ' '));
    }
    assert(out@ =~= padded(text@, width as int));
    out
}

/// The character of the decimal digit `d`.
pub open spec fn digit_char(d: int) -> char {
    (48 + d) as char
}

/// `n` in decimal digits, the most significant first, without leading zeros.
pub open spec fn decimal_digits(n: nat) -> Seq<char>
    decreases n,
{
    if n < 10 {
        seq![digit_char(n as int)]
    } else {
        decimal_digits(n / 10).push(digit_char((n % 10) as int))
    }
}

/// `n` written in decimal digits.
pub fn decimal(n: usize) -> (out: String)
    ensures
        out@ == decimal_digits(n as nat),
{
    let mut low: Vec<char> = Vec::new();
    let mut rest: usize = n;
    while rest >= 10
        invariant
            decimal_digits(n as nat) == decimal_digits(rest as nat) + low@.reverse(),
        decreases rest,
    {
        let d: u8 = (rest % 10) as u8;
        let c: char = (48u8 + d) as char;
        proof {
            let ghost before = low@;
            assert(decimal_digits(rest as nat) == decimal_digits((rest / 10) as nat).push(c));
            assert(decimal_digits((rest / 10) as nat).push(c) + before.reverse()
                =~= decimal_digits((rest / 10) as nat) + before.push(c).reverse());
        }
        low.push(c);
        rest = rest / 10;
    }
    let mut out = String::new();
    push_char(&mut out, (48u8 + rest as u8) as char);
    let mut i: usize = low.len();
    while i > 0
        invariant
            i <= low.len(),
            out@ == decimal_digits(rest as nat) + low@.reverse().take(low.len() - i),
            rest < 10,
        decreases i,
    {
        i = i - 1;
        push_char(&mut out, low[i]);
        assert(out@ =~= decimal_digits(rest as nat) + low@.reverse().take(low.len() - i));
    }
    assert(low@.reverse().take(low.len() as int) =~= low@.reverse());
    out
}

} // verus!
