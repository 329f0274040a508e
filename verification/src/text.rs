use vstd::prelude::*;

verus! {

/// The texts of a list of strings, in order.
pub open spec fn texts(lines: Seq<String>) -> Seq<Seq<char>> {
    lines.map_values(|line: String| line@)
}

/// A space or a tab: the characters that separate the words of a protocol line.
pub open spec fn is_blank(ch: char) -> bool {
    ch == ' ' || ch == '\t'
}

/// A decimal digit.
pub open spec fn is_digit(ch: char) -> bool {
    '0' <= ch && ch <= '9'
}

/// The value of a decimal digit.
pub open spec fn digit_value(ch: char) -> int {
    ch as int - '0' as int
}

/// The character with an ASCII capital replaced by its small letter.
pub open spec fn fold_case(ch: char) -> char {
    if 'A' <= ch && ch <= 'Z' {
        ((ch as u8 + 32) as u8) as char
    } else {
        ch
    }
}

/// `word` stands in `text` at position `at`, capitals and small letters taken as equal.
/// `word` is meant to be written in small letters.
pub open spec fn word_at(text: Seq<char>, at: int, word: Seq<char>) -> bool {
    &&& 0 <= at
    &&& at + word.len() <= text.len()
    &&& forall|k: int| 0 <= k < word.len() ==> fold_case(#[trigger] text[at + k]) == word[k]
}

/// The first position at or after `from` that holds no blank, or the length of `text`.
pub open spec fn skip_blanks(text: Seq<char>, from: int) -> int
    decreases text.len() - from,
{
    if 0 <= from < text.len() && is_blank(text[from]) {
        skip_blanks(text, from + 1)
    } else {
        from
    }
}

/// `text` begins, after any blanks, with `word`.
pub open spec fn begins_with_word(text: Seq<char>, word: Seq<char>) -> bool {
    word_at(text, skip_blanks(text, 0), word)
}

/// Three digits stand at `at` and the number they write is above 255.
pub open spec fn oversized_byte_at(text: Seq<char>, at: int) -> bool {
    &&& 0 <= at
    &&& at + 3 <= text.len()
    &&& is_digit(text[at])
    &&& is_digit(text[at + 1])
    &&& is_digit(text[at + 2])
    &&& 100 * digit_value(text[at]) + 10 * digit_value(text[at + 1]) + digit_value(text[at + 2])
        > 255
}

/// `word` stands at `at`, followed by at least one blank and then by a three-digit number
/// above 255.
pub open spec fn oversized_field_at(text: Seq<char>, at: int, word: Seq<char>) -> bool {
    &&& word_at(text, at, word)
    &&& skip_blanks(text, at + word.len()) > at + word.len()
    &&& oversized_byte_at(text, skip_blanks(text, at + word.len()))
}

/// Somewhere in `text`, `word` is followed by blanks and a three-digit number above 255.
pub open spec fn has_oversized_field(text: Seq<char>, word: Seq<char>) -> bool {
    exists|at: int| 0 <= at < text.len() && #[trigger] oversized_field_at(text, at, word)
}

/// The characters of a string, one by one.
pub fn to_chars(text: &str) -> (chars: Vec<char>)
    ensures
        chars@ == text@,
{
    let n = text.unicode_len();
    let mut chars: Vec<char> = Vec::new();
    let mut i: usize = 0;
    while i < n
        invariant
            n == text@.len(),
            i <= n,
            chars@ == text@.take(i as int),
        decreases n - i,
    {
        let ch = text.get_char(i);
        chars.push(ch);
        i = i + 1;
        assert(text@.take(i as int) == text@.take(i as int - 1).push(ch));
    }
    assert(text@.take(n as int) == text@);
    chars
}

/// The small letter of an ASCII capital; other characters unchanged.
pub fn lower(ch: char) -> (folded: char)
    ensures
        folded == fold_case(ch),
{
    if 'A' <= ch && ch <= 'Z' {
        ((ch as u8) + 32) as char
    } else {
        ch
    }
}

/// Tells whether `word` stands in `text` at `at`, whatever the case of the letters in `text`.
pub fn matches_word(text: &Vec<char>, at: usize, word: &str) -> (found: bool)
    ensures
        found == word_at(text@, at as int, word@),
{
    let len = word.unicode_len();
    if at > text.len() || len > text.len() - at {
        return false;
    }
    let mut k: usize = 0;
    while k < len
        invariant
            len == word@.len(),
            at + len <= text@.len() <= usize::MAX,
            k <= len,
            forall|j: int| 0 <= j < k ==> fold_case(#[trigger] text@[at + j]) == word@[j],
        decreases len - k,
    {
        if lower(text[at + k]) != word.get_char(k) {
            return false;
        }
        k = k + 1;
    }
    true
}

/// The first position at or after `from` that holds no blank.
pub fn skip_blank_run(text: &Vec<char>, from: usize) -> (next: usize)
    requires
        from <= text@.len(),
    ensures
        next == skip_blanks(text@, from as int),
        from <= next <= text@.len(),
{
    let mut next = from;
    while next < text.len() && (text[next] == ' ' || text[next] == '\t')
        invariant
            from <= next <= text@.len(),
            skip_blanks(text@, from as int) == skip_blanks(text@, next as int),
        decreases text@.len() - next,
    {
        next = next + 1;
    }
    next
}

/// Tells whether `text` begins, after any blanks, with `word`.
pub fn starts_with_word(text: &Vec<char>, word: &str) -> (found: bool)
    ensures
        found == begins_with_word(text@, word@),
{
    let start = skip_blank_run(text, 0);
    matches_word(text, start, word)
}

/// Tells whether `text` begins with `prefix`, letter for letter.
pub fn has_prefix(text: &str, prefix: &str) -> (found: bool)
    ensures
        found == prefix@.is_prefix_of(text@),
{
    let len = prefix.unicode_len();
    if len > text.unicode_len() {
        return false;
    }
    let mut k: usize = 0;
    while k < len
        invariant
            len == prefix@.len(),
            len <= text@.len(),
            k <= len,
            forall|j: int| 0 <= j < k ==> text@[j] == prefix@[j],
        decreases len - k,
    {
        if text.get_char(k) != prefix.get_char(k) {
            assert(text@.subrange(0, len as int)[k as int] != prefix@[k as int]);
            return false;
        }
        k = k + 1;
    }
    assert(text@.subrange(0, len as int) == prefix@);
    true
}

/// Tells whether three digits stand at `at` that write a number above 255.
pub fn oversized_byte(text: &Vec<char>, at: usize) -> (found: bool)
    ensures
        found == oversized_byte_at(text@, at as int),
{
    if at > text.len() || text.len() - at < 3 {
        return false;
    }
    let a = text[at];
    let b = text[at + 1];
    let c = text[at + 2];
    if !('0' <= a && a <= '9' && '0' <= b && b <= '9' && '0' <= c && c <= '9') {
        return false;
    }
    let value: u32 = 100 * ((a as u32) - 48) + 10 * ((b as u32) - 48) + ((c as u32) - 48);
    value > 255
}

/// Tells whether `word`, some blanks and a three-digit number above 255 stand anywhere in
/// `text`.
pub fn contains_oversized_field(text: &Vec<char>, word: &str) -> (found: bool)
    ensures
        found == has_oversized_field(text@, word@),
{
    let len = word.unicode_len();
    let mut at: usize = 0;
    while at < text.len()
        invariant
            len == word@.len(),
            at <= text@.len(),
            forall|j: int| 0 <= j < at ==> !#[trigger] oversized_field_at(text@, j, word@),
        decreases text@.len() - at,
    {
        if matches_word(text, at, word) {
            let gap = skip_blank_run(text, at + len);
            if gap > at + len && oversized_byte(text, gap) {
                assert(oversized_field_at(text@, at as int, word@));
                return true;
            }
        }
        at = at + 1;
    }
    false
}

} // verus!
