//! Small operations on text that the rest of the library is built from:
//! comparing, trimming, cutting between byte offsets, and reading and writing
//! numerals. A text is modelled by its sequence of characters.

use vstd::prelude::*;
use vstd::string::*;
use vstd::utf8::*;

verus! {

/// Whether `c` is one of the characters that Unicode classes as white space.
pub open spec fn is_white_space(c: char) -> bool {
    let u = c as u32;
    ||| 0x09 <= u <= 0x0D
    ||| u == 0x20
    ||| u == 0x85
    ||| u == 0xA0
    ||| u == 0x1680
    ||| 0x2000 <= u <= 0x200A
    ||| u == 0x2028
    ||| u == 0x2029
    ||| u == 0x202F
    ||| u == 0x205F
    ||| u == 0x3000
}

/// `s` without the white space at its start and at its end.
pub open spec fn trimmed(s: Seq<char>) -> Seq<char>
    decreases s.len(),
{
    if s.len() == 0 {
        s
    } else if is_white_space(s.first()) {
        trimmed(s.drop_first())
    } else if is_white_space(s.last()) {
        trimmed(s.drop_last())
    } else {
        s
    }
}

/// `s` without its first character; the empty text stays empty.
pub open spec fn without_first(s: Seq<char>) -> Seq<char> {
    if s.len() == 0 {
        s
    } else {
        s.subrange(1, s.len() as int)
    }
}

/// The index of the first `c` in `s`, if there is one.
pub open spec fn position_of(s: Seq<char>, c: char) -> Option<int>
    decreases s.len(),
{
    if s.len() == 0 {
        None
    } else if s.first() == c {
        Some(0)
    } else {
        match position_of(s.drop_first(), c) {
            Some(i) => Some(i + 1),
            None => None,
        }
    }
}

/// The part of `text` that lies between two byte offsets of its UTF-8 form.
pub open spec fn text_between(text: Seq<char>, from: int, to: int) -> Seq<char> {
    decode_utf8(encode_utf8(text).subrange(from, to))
}

/// Whether byte offset `at` of the UTF-8 form of `text` lies between two
/// characters, or at one of the two ends.
pub open spec fn on_boundary(text: Seq<char>, at: int) -> bool {
    is_char_boundary(encode_utf8(text), at)
}

/// The character that stands for a digit below sixteen, in upper case.
pub open spec fn digit_char(d: nat) -> char
    recommends
        d < 16,
{
    if d < 10 {
        (0x30 + d) as char
    } else {
        (0x41 + d - 10) as char
    }
}

/// Whether `c` is one of the ten decimal digits.
pub open spec fn is_decimal_digit(c: char) -> bool {
    0x30 <= c as u32 <= 0x39
}

/// Whether `s` is a decimal numeral: one digit or more, and nothing else.
pub open spec fn is_decimal(s: Seq<char>) -> bool {
    s.len() > 0 && forall|i: int| 0 <= i < s.len() ==> is_decimal_digit(#[trigger] s[i])
}

/// The number that the digits of `s` write, read in base ten.
pub open spec fn decimal_value(s: Seq<char>) -> nat
    decreases s.len(),
{
    if s.len() == 0 {
        0
    } else {
        decimal_value(s.drop_last()) * 10 + (s.last() as u32 - 0x30) as nat
    }
}

/// The number that `s` writes, where `s` is a decimal numeral and the number
/// fits the machine word.
pub open spec fn parsed_decimal(s: Seq<char>) -> Option<usize> {
    if is_decimal(s) && decimal_value(s) <= usize::MAX {
        Some(decimal_value(s) as usize)
    } else {
        None
    }
}

/// The decimal numeral of `n`, without leading zeros.
pub open spec fn decimal_digits(n: nat) -> Seq<char>
    decreases n,
{
    if n < 10 {
        seq![digit_char(n)]
    } else {
        decimal_digits(n / 10).push(digit_char(n % 10))
    }
}

/// The hexadecimal numeral of `n` in upper case, without leading zeros.
pub open spec fn upper_hex_digits(n: nat) -> Seq<char>
    decreases n,
{
    if n < 16 {
        seq![digit_char(n)]
    } else {
        upper_hex_digits(n / 16).push(digit_char(n % 16))
    }
}

/// `unit` written `n` times in a row.
pub open spec fn repeated(unit: Seq<char>, n: nat) -> Seq<char>
    decreases n,
{
    if n == 0 {
        Seq::empty()
    } else {
        repeated(unit, (n - 1) as nat) + unit
    }
}

/// Tells whether two texts hold the same characters.
pub fn same_text(a: &str, b: &str) -> (same: bool)
    ensures
        same == (a@ == b@),
{
    let x = a.as_bytes();
    let y = b.as_bytes();
    proof {
        encode_utf8_decode_utf8(a@);
        encode_utf8_decode_utf8(b@);
    }
    if x.len() != y.len() {
        return false;
    }
    let mut i: usize = 0;
    while i < x.len()
        invariant
            i <= x.len(),
            x.len() == y.len(),
            x@ == encode_utf8(a@),
            y@ == encode_utf8(b@),
            forall|j: int| 0 <= j < i ==> x@[j] == y@[j],
        decreases x.len() - i,
    {
        if x[i] != y[i] {
            return false;
        }
        i += 1;
    }
    assert(x@ =~= y@);
    true
}

/// Tells whether `c` is white space.
pub fn is_white_space_char(c: char) -> (white: bool)
    ensures
        white == is_white_space(c),
{
    let u = c as u32;
    (0x09 <= u && u <= 0x0D) || u == 0x20 || u == 0x85 || u == 0xA0 || u == 0x1680 || (0x2000 <= u
        && u <= 0x200A) || u == 0x2028 || u == 0x2029 || u == 0x202F || u == 0x205F || u == 0x3000
}

/// What `trimmed` leaves is the stretch from the first character that is not
/// white space to the last one.
proof fn lemma_trimmed_is_subrange(s: Seq<char>, from: int, to: int)
    requires
        0 <= from <= to <= s.len(),
        forall|i: int| 0 <= i < from ==> is_white_space(#[trigger] s[i]),
        forall|i: int| to <= i < s.len() ==> is_white_space(#[trigger] s[i]),
        from < to ==> !is_white_space(s[from]) && !is_white_space(s[to - 1]),
    ensures
        trimmed(s) == s.subrange(from, to),
    decreases s.len(),
{
    if s.len() == 0 {
        assert(s.subrange(from, to) =~= s);
    } else if is_white_space(s.first()) {
        let rest = s.drop_first();
        let f = if from == 0 { 0 } else { from - 1 };
        let t = if to == 0 { 0 } else { to - 1 };
        assert forall|i: int| 0 <= i < rest.len() && (i < f || t <= i) implies is_white_space(
            #[trigger] rest[i],
        ) by {
            assert(rest[i] == s[i + 1]);
        }
        lemma_trimmed_is_subrange(rest, f, t);
        assert(rest.subrange(f, t) =~= s.subrange(from, to));
    } else if is_white_space(s.last()) {
        lemma_trimmed_is_subrange(s.drop_last(), from, to);
        assert(s.drop_last().subrange(from, to) =~= s.subrange(from, to));
    } else {
        assert(s.subrange(from, to) =~= s);
    }
}

/// Returns `text` without the white space at its start and at its end.
pub fn trim(text: &str) -> (inner: &str)
    ensures
        inner@ == trimmed(text@),
{
    let n = text.unicode_len();
    let mut from: usize = 0;
    let mut to: usize = 0;
    let mut i: usize = 0;
    for c in it: text.chars()
        invariant
            it.seq() == text@,
            i == it.index(),
            n == text@.len(),
            from <= to <= i <= n,
            from == to ==> from == 0,
            forall|j: int|
                0 <= j < i && (j < from || to <= j) ==> is_white_space(#[trigger] text@[j]),
            from < to ==> !is_white_space(text@[from as int]) && !is_white_space(text@[to - 1]),
    {
        if !is_white_space_char(c) {
            if from == to {
                from = i;
            }
            to = i + 1;
        }
        i += 1;
    }
    proof {
        lemma_trimmed_is_subrange(text@, from as int, to as int);
    }
    text.substring_char(from, to)
}

/// Returns `text` without its first character.
pub fn drop_first_char(text: &str) -> (rest: &str)
    ensures
        rest@ == without_first(text@),
{
    let n = text.unicode_len();
    if n == 0 {
        text
    } else {
        text.substring_char(1, n)
    }
}

/// Where the first `c` stands in `s`, by what comes before it.
proof fn lemma_position_of(s: Seq<char>, c: char, k: int)
    requires
        0 <= k <= s.len(),
        forall|i: int| 0 <= i < k ==> #[trigger] s[i] != c,
    ensures
        k < s.len() && s[k] == c ==> position_of(s, c) == Some(k),
        k == s.len() ==> position_of(s, c) is None,
    decreases s.len(),
{
    if s.len() > 0 && k > 0 {
        let rest = s.drop_first();
        assert forall|i: int| 0 <= i < k - 1 implies #[trigger] rest[i] != c by {
            assert(rest[i] == s[i + 1]);
        }
        lemma_position_of(rest, c, k - 1);
        assert(s[0] != c);
    }
}

/// Cuts `text` at its first `c`: returns what stands before it and what
/// stands after it, or nothing where `text` holds no `c`.
pub fn split_at_first<'a>(text: &'a str, c: char) -> (parts: Option<(&'a str, &'a str)>)
    ensures
        match position_of(text@, c) {
            Some(k) => parts matches Some((before, after)) && before@ == text@.subrange(0, k)
                && after@ == text@.subrange(k + 1, text@.len() as int),
            None => parts is None,
        },
{
    let n = text.unicode_len();
    let mut i: usize = 0;
    for d in it: text.chars()
        invariant
            it.seq() == text@,
            i == it.index(),
            n == text@.len(),
            forall|j: int| 0 <= j < i ==> #[trigger] text@[j] != c,
    {
        if d == c {
            proof {
                lemma_position_of(text@, c, i as int);
            }
            return Some((text.substring_char(0, i), text.substring_char(i + 1, n)));
        }
        i += 1;
    }
    proof {
        lemma_position_of(text@, c, text@.len() as int);
    }
    None
}

/// Returns the part of `text` between two byte offsets that lie between
/// characters.
pub fn slice_between<'a>(text: &'a str, from: usize, to: usize) -> (piece: &'a str)
    requires
        from <= to <= encode_utf8(text@).len(),
        on_boundary(text@, from as int),
        on_boundary(text@, to as int),
    ensures
        piece@ == text_between(text@, from as int, to as int),
{
    let (head, _) = text.split_at(to);
    proof {
        let bytes = text.spec_bytes();
        encode_utf8_valid_utf8(text@);
        encode_utf8_valid_utf8(head@);
        if from == to {
            is_char_boundary_start_end_of_seq(head.spec_bytes());
        } else if from > 0 {
            is_char_boundary_iff_not_is_continuation_byte(bytes, from as int);
            is_char_boundary_iff_not_is_continuation_byte(head.spec_bytes(), from as int);
        }
    }
    let (_, piece) = head.split_at(from);
    proof {
        encode_utf8_decode_utf8(piece@);
        assert(piece.spec_bytes() =~= text.spec_bytes().subrange(from as int, to as int));
    }
    piece
}

/// The part of a text between its two ends is the whole text.
pub proof fn lemma_text_between_ends(text: Seq<char>)
    ensures
        text_between(text, 0, encode_utf8(text).len() as int) == text,
{
    encode_utf8_decode_utf8(text);
    assert(encode_utf8(text).subrange(0, encode_utf8(text).len() as int) =~= encode_utf8(text));
}

/// A stretch of a text that is cut in two between characters is the first
/// piece followed by the second: nothing is lost and nothing changes place.
pub proof fn lemma_text_between_joins(text: Seq<char>, from: int, at: int, to: int)
    requires
        0 <= from <= at <= to <= encode_utf8(text).len(),
        on_boundary(text, from),
        on_boundary(text, at),
        on_boundary(text, to),
    ensures
        text_between(text, from, at) + text_between(text, at, to) == text_between(text, from, to),
{
    let bytes = encode_utf8(text);
    let head = bytes.subrange(0, to);
    encode_utf8_valid_utf8(text);
    valid_utf8_split(bytes, to);
    if from == to {
        is_char_boundary_start_end_of_seq(head);
    } else if from > 0 {
        is_char_boundary_iff_not_is_continuation_byte(bytes, from);
        is_char_boundary_iff_not_is_continuation_byte(head, from);
    }
    valid_utf8_split(head, from);
    let piece = bytes.subrange(from, to);
    assert(head.subrange(from, head.len() as int) =~= piece);
    if at == to {
        is_char_boundary_start_end_of_seq(piece);
    } else if at > from {
        is_char_boundary_iff_not_is_continuation_byte(bytes, at);
        is_char_boundary_iff_not_is_continuation_byte(piece, at - from);
    }
    decode_utf8_split(piece, at - from);
    assert(piece.subrange(0, at - from) =~= bytes.subrange(from, at));
    assert(piece.subrange(at - from, piece.len() as int) =~= bytes.subrange(at, to));
}

/// In a text of ASCII characters a byte offset is a character offset:
/// every offset lies between characters, and the part between two offsets
/// is the part between the characters at those places.
pub proof fn lemma_text_between_ascii(text: Seq<char>, from: int, to: int)
    requires
        is_ascii_chars(text),
        0 <= from <= to <= text.len(),
    ensures
        encode_utf8(text).len() == text.len(),
        on_boundary(text, from),
        on_boundary(text, to),
        text_between(text, from, to) == text.subrange(from, to),
{
    let bytes = encode_utf8(text);
    let piece = text.subrange(from, to);
    is_ascii_chars_encode_utf8(text);
    is_ascii_chars_encode_utf8(piece);
    is_ascii_chars_nat_bound(text);
    encode_utf8_valid_utf8(text);
    encode_utf8_decode_utf8(piece);
    assert(encode_utf8(piece) =~= bytes.subrange(from, to));
    is_char_boundary_start_end_of_seq(bytes);
    if from < text.len() {
        utf8_byte_ranges_bitwise(bytes[from]);
        is_char_boundary_iff_not_is_continuation_byte(bytes, from);
    }
    if to < text.len() {
        utf8_byte_ranges_bitwise(bytes[to]);
        is_char_boundary_iff_not_is_continuation_byte(bytes, to);
    }
}

/// The digits of a longer numeral write a number that is no smaller.
proof fn lemma_decimal_value_grows(s: Seq<char>, k: int)
    requires
        0 <= k <= s.len(),
        forall|i: int| 0 <= i < s.len() ==> is_decimal_digit(#[trigger] s[i]),
    ensures
        decimal_value(s.take(k)) <= decimal_value(s),
    decreases s.len() - k,
{
    if k == s.len() {
        assert(s.take(k) =~= s);
    } else {
        lemma_decimal_value_grows(s, k + 1);
        assert(s.take(k + 1).drop_last() =~= s.take(k));
    }
}

/// Reads a decimal numeral. Returns nothing where `text` is no such numeral
/// or writes a number too large for the machine word.
pub fn parse_decimal(text: &str) -> (number: Option<usize>)
    ensures
        number == parsed_decimal(text@),
{
    let mut value: usize = 0;
    let mut i: usize = 0;
    let n = text.unicode_len();
    for c in it: text.chars()
        invariant
            it.seq() == text@,
            i == it.index(),
            n == text@.len(),
            forall|j: int| 0 <= j < i ==> is_decimal_digit(#[trigger] text@[j]),
            value == decimal_value(text@.take(i as int)),
    {
        let u = c as u32;
        if u < 0x30 || u > 0x39 {
            assert(!is_decimal_digit(text@[i as int]));
            return None;
        }
        let digit = (u - 0x30) as usize;
        proof {
            assert(text@.take(i + 1).drop_last() =~= text@.take(i as int));
            if is_decimal(text@) {
                lemma_decimal_value_grows(text@, i + 1);
            }
        }
        match value.checked_mul(10) {
            None => {
                return None;
            },
            Some(tens) => match tens.checked_add(digit) {
                None => {
                    return None;
                },
                Some(next) => {
                    value = next;
                },
            },
        }
        i += 1;
    }
    assert(text@.take(i as int) =~= text@);
    if n == 0 {
        None
    } else {
        Some(value)
    }
}

/// Returns the one-character text of a digit below sixteen.
pub fn digit_text(d: usize) -> (text: &'static str)
    requires
        d < 16,
    ensures
        text@ == seq![digit_char(d as nat)],
{
    proof {
        reveal_strlit("0");
        reveal_strlit("1");
        reveal_strlit("2");
        reveal_strlit("3");
        reveal_strlit("4");
        reveal_strlit("5");
        reveal_strlit("6");
        reveal_strlit("7");
        reveal_strlit("8");
        reveal_strlit("9");
        reveal_strlit("A");
        reveal_strlit("B");
        reveal_strlit("C");
        reveal_strlit("D");
        reveal_strlit("E");
        reveal_strlit("F");
    }
    let text = if d == 0 {
        "0"
    } else if d == 1 {
        "1"
    } else if d == 2 {
        "2"
    } else if d == 3 {
        "3"
    } else if d == 4 {
        "4"
    } else if d == 5 {
        "5"
    } else if d == 6 {
        "6"
    } else if d == 7 {
        "7"
    } else if d == 8 {
        "8"
    } else if d == 9 {
        "9"
    } else if d == 10 {
        "A"
    } else if d == 11 {
        "B"
    } else if d == 12 {
        "C"
    } else if d == 13 {
        "D"
    } else if d == 14 {
        "E"
    } else {
        "F"
    };
    assert(text@ =~= seq![digit_char(d as nat)]);
    text
}

/// Writes `n` as a decimal numeral.
pub fn decimal_text(n: usize) -> (text: String)
    ensures
        text@ == decimal_digits(n as nat),
    decreases n,
{
    if n < 10 {
        digit_text(n).to_owned()
    } else {
        let mut text = decimal_text(n / 10);
        text.append(digit_text(n % 10));
        assert(text@ =~= decimal_digits(n as nat));
        text
    }
}

/// Writes `n` as a hexadecimal numeral in upper case.
pub fn upper_hex_text(n: u32) -> (text: String)
    ensures
        text@ == upper_hex_digits(n as nat),
    decreases n,
{
    if n < 16 {
        digit_text(n as usize).to_owned()
    } else {
        let mut text = upper_hex_text(n / 16);
        text.append(digit_text((n % 16) as usize));
        assert(text@ =~= upper_hex_digits(n as nat));
        text
    }
}

} // verus!
