//! What reading and writing text guarantees.

use vstd::prelude::*;

use crate::text::{
    ascii_lower, decimal, decimal_text, digit_char, hex_digit_value, is_white_space,
    lemma_pieces_nonempty, lower, lowered, pieces, split, trim, trim_end, trim_start,
};

verus! {

/// Whether two characters are the same, the case of ASCII letters aside.
pub open spec fn same_letter(a: char, b: char) -> bool {
    ||| a == b
    ||| 'A' <= a <= 'Z' && b as int == a as int + 32
    ||| 'A' <= b <= 'Z' && a as int == b as int + 32
}

/// Whether two texts are the same, the case of ASCII letters aside.
pub open spec fn alike(a: Seq<char>, b: Seq<char>) -> bool {
    a.len() == b.len() && forall|i: int| 0 <= i < a.len() ==> same_letter(#[trigger] a[i], b[i])
}

proof fn lemma_lower_letter(a: char, b: char)
    ensures
        ascii_lower(a) == ascii_lower(b) <==> same_letter(a, b),
        'A' <= a <= 'Z' ==> ascii_lower(a) as int == a as int + 32,
        !('A' <= a <= 'Z') ==> ascii_lower(a) == a,
{
}

/// Texts are lowered to the same text exactly where they differ in the case of ASCII letters
/// at most.
pub proof fn lowering_forgets_case_alone(a: Seq<char>, b: Seq<char>)
    ensures
        lowered(a) == lowered(b) <==> alike(a, b),
{
    if lowered(a) == lowered(b) {
        assert(lowered(a).len() == a.len() && lowered(b).len() == b.len());
        assert forall|i: int| 0 <= i < a.len() implies same_letter(#[trigger] a[i], b[i]) by {
            assert(lowered(a)[i] == lowered(b)[i]);
            lemma_lower_letter(a[i], b[i]);
        }
    }
    if alike(a, b) {
        assert forall|i: int| 0 <= i < a.len() implies lowered(a)[i] == lowered(b)[i] by {
            assert(same_letter(a[i], b[i]));
            lemma_lower_letter(a[i], b[i]);
        }
        assert(lowered(a) =~= lowered(b));
    }
}

/// Whether `small` is `text` with each ASCII capital moved to its small letter, and nothing
/// else.
pub open spec fn is_small(small: Seq<char>, text: Seq<char>) -> bool {
    &&& small.len() == text.len()
    &&& forall|i: int|
        0 <= i < text.len() ==> {
            let c = #[trigger] text[i];
            if 'A' <= c <= 'Z' {
                small[i] as int == c as int + 32
            } else {
                small[i] == c
            }
        }
}

pub(crate) proof fn lemma_lowered(text: Seq<char>)
    ensures
        is_small(lowered(text), text),
        forall|small: Seq<char>| is_small(small, text) ==> small == lowered(text),
{
    assert forall|i: int| 0 <= i < text.len() implies {
        let c = #[trigger] text[i];
        if 'A' <= c <= 'Z' {
            lowered(text)[i] as int == c as int + 32
        } else {
            lowered(text)[i] == c
        }
    } by {
        lemma_lower_letter(text[i], text[i]);
    }
    assert forall|small: Seq<char>| is_small(small, text) implies small == lowered(text) by {
        assert forall|i: int| 0 <= i < text.len() implies small[i] == lowered(text)[i] by {
            let c = text[i];
            lemma_lower_letter(c, c);
        }
        assert(small =~= lowered(text));
    }
}

/// Lowering moves each ASCII capital to its small letter and leaves every other character
/// where and what it is.
pub proof fn lowering_keeps_every_other_character(text: &str, small: String)
    requires
        call_ensures(lower, (text,), small),
    ensures
        is_small(small@, text@),
{
    lemma_lowered(text@);
}

/// Whether a character is white space, by its code point.
pub open spec fn is_blank(c: char) -> bool {
    let point = c as int;
    ||| 9 <= point <= 13
    ||| point == 32
    ||| point == 133
    ||| point == 160
    ||| point == 5760
    ||| 8192 <= point <= 8202
    ||| point == 8232
    ||| point == 8233
    ||| point == 8239
    ||| point == 8287
    ||| point == 12288
}

proof fn lemma_trim_start(s: Seq<char>)
    ensures
        trim_start(s).len() <= s.len(),
        trim_start(s) == s.subrange(s.len() - trim_start(s).len(), s.len() as int),
        forall|i: int| 0 <= i < s.len() - trim_start(s).len() ==> is_blank(#[trigger] s[i]),
        trim_start(s).len() > 0 ==> !is_blank(trim_start(s)[0]),
    decreases s.len(),
{
    if s.len() > 0 && is_white_space(s[0]) {
        let rest = s.drop_first();
        lemma_trim_start(rest);
        let cut = s.len() - trim_start(s).len();
        assert forall|i: int| 0 <= i < cut implies is_blank(#[trigger] s[i]) by {
            if i > 0 {
                assert(rest[i - 1] == s[i]);
            }
        }
        assert(s.subrange(cut, s.len() as int) =~= rest.subrange(cut - 1, rest.len() as int));
    } else {
        assert(s.subrange(0, s.len() as int) =~= s);
    }
}

proof fn lemma_trim_end(s: Seq<char>)
    ensures
        trim_end(s).len() <= s.len(),
        trim_end(s) == s.subrange(0, trim_end(s).len() as int),
        forall|i: int| trim_end(s).len() <= i < s.len() ==> is_blank(#[trigger] s[i]),
        trim_end(s).len() > 0 ==> !is_blank(trim_end(s).last()),
    decreases s.len(),
{
    if s.len() > 0 && is_white_space(s.last()) {
        let rest = s.drop_last();
        lemma_trim_end(rest);
        let kept = trim_end(s).len() as int;
        assert forall|i: int| kept <= i < s.len() implies is_blank(#[trigger] s[i]) by {
            if i < s.len() - 1 {
                assert(rest[i] == s[i]);
            }
        }
        assert(s.subrange(0, kept) =~= rest.subrange(0, kept));
    } else {
        assert(s.subrange(0, s.len() as int) =~= s);
    }
}

/// Whether `inner` is `s` with nothing but white space taken from its ends, and all of it.
pub open spec fn is_trimmed_from(inner: Seq<char>, s: Seq<char>) -> bool {
    exists|from: int|
        {
            &&& 0 <= from <= from + inner.len() <= s.len()
            &&& inner == #[trigger] s.subrange(from, from + inner.len())
            &&& forall|i: int| 0 <= i < from ==> is_blank(#[trigger] s[i])
            &&& forall|i: int| from + inner.len() <= i < s.len() ==> is_blank(#[trigger] s[i])
            &&& inner.len() > 0 ==> !is_blank(inner[0]) && !is_blank(inner.last())
        }
}

/// Trimming takes the white space at both ends of a text, all of it, and nothing else.
pub proof fn trimming_takes_white_space_alone(text: &str, inner: String)
    requires
        call_ensures(trim, (text,), inner),
    ensures
        is_trimmed_from(inner@, text@),
{
    let s = text@;
    let tail = trim_start(s);
    lemma_trim_start(s);
    lemma_trim_end(tail);
    let from = s.len() - tail.len();
    assert forall|i: int| from + inner@.len() <= i < s.len() implies is_blank(#[trigger] s[i]) by {
        assert(tail[i - from] == s[i]);
    }
    assert(inner@ =~= s.subrange(from, from + inner@.len()));
    if inner@.len() > 0 {
        assert(inner@[0] == tail[0]);
    }
}

/// The parts, one behind the other, with `separator` between any two.
pub open spec fn rejoined(parts: Seq<Seq<char>>, separator: char) -> Seq<char>
    decreases parts.len(),
{
    if parts.len() <= 1 {
        if parts.len() == 0 {
            Seq::empty()
        } else {
            parts[0]
        }
    } else {
        rejoined(parts.drop_last(), separator) + seq![separator] + parts.last()
    }
}

proof fn lemma_pieces(s: Seq<char>, separator: char)
    ensures
        rejoined(pieces(s, separator), separator) == s,
        forall|i: int|
            0 <= i < pieces(s, separator).len() ==> !(#[trigger] pieces(s, separator)[i]).contains(
                separator,
            ),
    decreases s.len(),
{
    let all = pieces(s, separator);
    if s.len() == 0 {
        assert(rejoined(all, separator) =~= s);
    } else {
        let before = pieces(s.drop_last(), separator);
        lemma_pieces(s.drop_last(), separator);
        lemma_pieces_nonempty(s.drop_last(), separator);
        if s.last() == separator {
            assert(all.drop_last() =~= before);
            assert(rejoined(all, separator) =~= s);
            assert forall|i: int| 0 <= i < all.len() implies !(#[trigger] all[i]).contains(
                separator,
            ) by {
                if i < before.len() {
                    assert(all[i] == before[i]);
                }
            }
        } else {
            assert(all.drop_last() =~= before.drop_last());
            assert(all.last() == before.last().push(s.last()));
            assert(all.len() == before.len());
            assert(rejoined(before, separator) == s.drop_last());
            if before.len() == 1 {
                assert(all[0] == all.last() && before[0] == before.last());
            } else {
                let front = rejoined(before.drop_last(), separator) + seq![separator];
                assert(rejoined(before, separator) == front + before.last());
                assert(rejoined(all, separator) == front + all.last());
                assert(front + all.last() =~= (front + before.last()).push(s.last()));
            }
            assert(rejoined(all, separator) =~= s);
            assert forall|i: int| 0 <= i < all.len() implies !(#[trigger] all[i]).contains(
                separator,
            ) by {
                if i < before.len() - 1 {
                    assert(all[i] == before[i]);
                } else {
                    let last = before.last();
                    assert(!before[before.len() - 1].contains(separator));
                    if all[i].contains(separator) {
                        let k = choose|k: int| 0 <= k < all[i].len() && all[i][k] == separator;
                        assert(k < last.len());
                        assert(last[k] == separator);
                    }
                }
            }
        }
    }
}

/// The texts that a list holds.
pub open spec fn texts_of(list: Seq<String>) -> Seq<Seq<char>> {
    Seq::new(list.len(), |i: int| list[i]@)
}

/// Splitting loses nothing: the pieces with the separator between them are the text again,
/// and the separator stands in none of them.
pub proof fn splitting_loses_nothing(text: &str, separator: char, parts: Vec<String>)
    requires
        call_ensures(split, (text, separator), parts),
    ensures
        parts@.len() > 0,
        rejoined(texts_of(parts@), separator) == text@,
        forall|i: int| 0 <= i < parts@.len() ==> !(#[trigger] parts@[i])@.contains(separator),
{
    lemma_pieces(text@, separator);
    lemma_pieces_nonempty(text@, separator);
    assert(texts_of(parts@) =~= pieces(text@, separator));
    assert forall|i: int| 0 <= i < parts@.len() implies !(#[trigger] parts@[i])@.contains(
        separator,
    ) by {
        assert(!pieces(text@, separator)[i].contains(separator));
    }
}

/// The number that decimal digits write, the highest first.
pub open spec fn number(digits: Seq<char>) -> int
    decreases digits.len(),
{
    if digits.len() == 0 {
        0
    } else {
        10 * number(digits.drop_last()) + (digits.last() as int - 48)
    }
}

/// Whether a text writes a number in decimal and in no longer a way than it needs.
pub open spec fn writes(digits: Seq<char>, n: int) -> bool {
    &&& number(digits) == n
    &&& digits.len() > 0
    &&& digits.len() > 1 ==> digits[0] as int != 48
    &&& forall|i: int| 0 <= i < digits.len() ==> 48 <= (#[trigger] digits[i]) as int <= 57
}

/// The decimal form of a number writes that number.
pub proof fn decimal_writes_the_number(n: nat)
    ensures
        writes(decimal(n), n as int),
    decreases n,
{
    if n < 10 {
        assert(digit_char(n) as int == 48 + n);
        assert(decimal(n).drop_last() =~= Seq::empty());
        assert(number(Seq::<char>::empty()) == 0);
    } else {
        decimal_writes_the_number(n / 10);
        assert(digit_char(n % 10) as int == 48 + n % 10);
        assert(decimal(n).drop_last() =~= decimal(n / 10));
        assert(decimal(n)[0] == decimal(n / 10)[0]);
        if decimal(n / 10).len() == 1 {
            assert(decimal(n / 10).drop_last() =~= Seq::empty());
            assert(number(Seq::<char>::empty()) == 0);
        }
        let digits = decimal(n);
        assert forall|i: int| 0 <= i < digits.len() implies 48 <= (#[trigger] digits[i]) as int
            <= 57 by {
            if i < digits.len() - 1 {
                assert(digits[i] == decimal(n / 10)[i]);
            }
        }
    }
}

/// No two texts write the same number.
pub proof fn a_number_is_written_in_one_way(a: Seq<char>, b: Seq<char>, n: int)
    requires
        writes(a, n),
        writes(b, n),
    ensures
        a == b,
    decreases a.len(),
{
    lemma_number_is_positive(a);
    lemma_number_is_positive(b);
    let (x, y) = (a.drop_last(), b.drop_last());
    assert(a.last() as int == b.last() as int && number(x) == number(y)) by {
        lemma_number_is_positive(x);
        lemma_number_is_positive(y);
        assert(48 <= a[a.len() - 1] as int <= 57);
        assert(48 <= b[b.len() - 1] as int <= 57);
    }
    if a.len() == 1 || b.len() == 1 {
        assert(number(Seq::<char>::empty()) == 0);
        if a.len() == 1 {
            assert(x =~= Seq::empty());
        }
        if b.len() == 1 {
            assert(y =~= Seq::empty());
        }
        if a.len() > 1 {
            lemma_number_is_large(x);
        }
        if b.len() > 1 {
            lemma_number_is_large(y);
        }
    } else {
        assert(x[0] == a[0] && y[0] == b[0]);
        a_number_is_written_in_one_way(x, y, number(x));
    }
    assert(a =~= x.push(a.last()));
    assert(b =~= y.push(b.last()));
}

proof fn lemma_number_is_positive(digits: Seq<char>)
    requires
        forall|i: int| 0 <= i < digits.len() ==> 48 <= (#[trigger] digits[i]) as int <= 57,
    ensures
        number(digits) >= 0,
    decreases digits.len(),
{
    if digits.len() > 0 {
        lemma_number_is_positive(digits.drop_last());
        assert(48 <= digits[digits.len() - 1] as int);
    }
}

proof fn lemma_number_is_large(digits: Seq<char>)
    requires
        digits.len() > 0,
        digits[0] as int != 48,
        forall|i: int| 0 <= i < digits.len() ==> 48 <= (#[trigger] digits[i]) as int <= 57,
    ensures
        number(digits) > 0,
    decreases digits.len(),
{
    let rest = digits.drop_last();
    assert(48 <= digits[digits.len() - 1] as int);
    if digits.len() > 1 {
        assert(rest[0] == digits[0]);
        lemma_number_is_large(rest);
    } else {
        assert(rest =~= Seq::empty());
        assert(number(Seq::<char>::empty()) == 0);
    }
}

/// What is written for a number reads as that number, in decimal without leading zeros.
pub proof fn a_number_is_written_as_it_is(n: u64, digits: String)
    requires
        call_ensures(decimal_text, (n,), digits),
    ensures
        writes(digits@, n as int),
{
    decimal_writes_the_number(n as nat);
}

/// The digits of hexadecimal are read at their value, in either case, and no other character
/// is a digit.
pub proof fn a_hexadecimal_digit_has_its_value(c: char, value: Option<u8>)
    requires
        call_ensures(hex_digit_value, (c,), value),
    ensures
        48 <= c as int <= 57 ==> value == Some((c as int - 48) as u8),
        97 <= c as int <= 102 ==> value == Some((c as int - 97 + 10) as u8),
        65 <= c as int <= 70 ==> value == Some((c as int - 65 + 10) as u8),
        value is Some ==> 48 <= c as int <= 57 || 97 <= c as int <= 102 || 65 <= c as int <= 70,
{
}

} // verus!
