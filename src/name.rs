//! Building a name: a noun with its Ezafe link, the delimiter, an adjective and,
//! optionally, the delimiter and a number; in Persian script its digits are
//! written as Persian numerals.

use rand::Rng;
use vstd::prelude::*;
use vstd::string::*;
use crate::text::{
    decimal_of, decimal_string, decimal_value, lemma_decimal_round_trip,
    persian_digit, persian_digits, push_char, to_persian_digits,
};
use crate::words::{
    is_ascii_digit, is_latin_word, is_word_entry, lemma_adjectives_well_formed,
    lemma_nouns_well_formed, noun_entry, noun_word, adjective_entry, adjective_word, WordEntry,
    ADJECTIVE_COUNT, NOUN_COUNT,
};

verus! {

/// Why a name could not be generated.
#[derive(Debug, Clone, Copy, PartialEq, Eq, Structural)]
pub enum NameError {
    /// The suffix bound is 1: the range `[1, 1)` holds no number to draw.
    DegenerateRange,
}

/// The zero-width non-joiner, which keeps the Ezafe suffix apart from the noun.
pub const ZWNJ: char = '\u{200c}';

/// The word of a table entry in the chosen script.
pub open spec fn in_script(e: WordEntry, use_latin: bool) -> Seq<char> {
    if use_latin {
        e.latin@
    } else {
        e.native@
    }
}

/// A Persian noun with its Ezafe link: after a final heh or vav comes ZWNJ and yeh.
pub open spec fn linked_native(w: Seq<char>) -> Seq<char> {
    if w.len() > 0 && (w.last() == 'ه' || w.last() == 'و') {
        w + seq![ZWNJ, 'ی']
    } else {
        w
    }
}

/// A transliterated noun with its Ezafe link: after a final e, i or o comes
/// ZWNJ and "ye", after anything else an "e".
pub open spec fn linked_latin(w: Seq<char>) -> Seq<char> {
    if w.len() > 0 && (w.last() == 'e' || w.last() == 'i' || w.last() == 'o') {
        w + seq![ZWNJ, 'y', 'e']
    } else {
        w.push('e')
    }
}

pub open spec fn linked(w: Seq<char>, use_latin: bool) -> Seq<char> {
    if use_latin {
        linked_latin(w)
    } else {
        linked_native(w)
    }
}

/// The delimiter and the number, when there is one.
pub open spec fn suffix_text(suffix: Option<u32>, delimiter: char) -> Seq<char> {
    match suffix {
        Some(n) => seq![delimiter] + decimal_of(n as nat),
        None => Seq::empty(),
    }
}

/// The name as it is put together, before its digits are written in the script.
pub open spec fn assembled(
    noun: int,
    adjective: int,
    suffix: Option<u32>,
    delimiter: char,
    use_latin: bool,
) -> Seq<char> {
    linked(in_script(noun_entry(noun), use_latin), use_latin).push(delimiter) + in_script(
        adjective_entry(adjective),
        use_latin,
    ) + suffix_text(suffix, delimiter)
}

/// Text in the chosen script: Persian script writes every ASCII digit as a Persian numeral.
pub open spec fn written(s: Seq<char>, use_latin: bool) -> Seq<char> {
    if use_latin {
        s
    } else {
        persian_digits(s)
    }
}

/// The name made of the given draws.
pub open spec fn name_text(
    noun: int,
    adjective: int,
    suffix: Option<u32>,
    delimiter: char,
    use_latin: bool,
) -> Seq<char> {
    written(assembled(noun, adjective, suffix, delimiter, use_latin), use_latin)
}

/// Whether a drawn suffix fits the bound: none for bound 0, else one in `[1, max_suffix)`.
pub open spec fn suffix_allowed(suffix: Option<u32>, max_suffix: u32) -> bool {
    match suffix {
        Some(n) => max_suffix > 0 && 1 <= n && n < max_suffix,
        None => max_suffix == 0,
    }
}

/// `out` is one of the names that `generate(max_suffix, delimiter, use_latin)` may give.
pub open spec fn is_generated(out: Seq<char>, max_suffix: u32, delimiter: char, use_latin: bool) -> bool {
    exists|noun: int, adjective: int, suffix: Option<u32>|
        0 <= noun < NOUN_COUNT && 0 <= adjective < ADJECTIVE_COUNT && suffix_allowed(
            suffix,
            max_suffix,
        ) && out == #[trigger] name_text(noun, adjective, suffix, delimiter, use_latin)
}

/// Relies on rand's `thread_rng` and `Rng::gen_range`: a value in `[low, high)`.
/// `gen_range` panics when `low >= high`.
#[verifier::external_body]
fn draw_in_range(low: usize, high: usize) -> (r: usize)
    requires
        low < high,
    ensures
        low <= r < high,
{
    rand::thread_rng().gen_range(low, high)
}

/// The noun `w` followed by its Ezafe link in the chosen script.
pub fn link_noun(w: &str, use_latin: bool) -> (r: String)
    ensures
        r@ == linked(w@, use_latin),
{
    let mut out = String::from_str(w);
    let n = w.unicode_len();
    if n > 0 {
        let last = w.get_char(n - 1);
        if use_latin {
            if last == 'e' || last == 'i' || last == 'o' {
                push_char(&mut out, ZWNJ);
                push_char(&mut out, 'y');
                push_char(&mut out, 'e');
                assert(out@ =~= w@ + seq![ZWNJ, 'y', 'e']);
            } else {
                push_char(&mut out, 'e');
            }
        } else if last == 'ه' || last == 'و' {
            push_char(&mut out, ZWNJ);
            push_char(&mut out, 'ی');
            assert(out@ =~= w@ + seq![ZWNJ, 'ی']);
        }
    } else if use_latin {
        push_char(&mut out, 'e');
    }
    out
}

/// The name made of the given draws: the noun at `noun` with its link, the
/// delimiter, the adjective at `adjective`, then the delimiter and the suffix if
/// one is given. In Persian script (`use_latin` false) every ASCII digit of the
/// result, the delimiter's included, is written as a Persian numeral.
pub fn compose(
    noun: usize,
    adjective: usize,
    suffix: Option<u32>,
    delimiter: char,
    use_latin: bool,
) -> (r: String)
    requires
        noun < NOUN_COUNT,
        adjective < ADJECTIVE_COUNT,
    ensures
        r@ == name_text(noun as int, adjective as int, suffix, delimiter, use_latin),
{
    let noun_pick = noun_word(noun);
    let mut out = link_noun(
        if use_latin {
            noun_pick.latin
        } else {
            noun_pick.native
        },
        use_latin,
    );
    push_char(&mut out, delimiter);
    let adjective_pick = adjective_word(adjective);
    out.append(
        if use_latin {
            adjective_pick.latin
        } else {
            adjective_pick.native
        },
    );
    if let Some(n) = suffix {
        push_char(&mut out, delimiter);
        let digits = decimal_string(n);
        out.append(digits.as_str());
    }
    assert(out@ =~= assembled(noun as int, adjective as int, suffix, delimiter, use_latin));
    if use_latin {
        out
    } else {
        to_persian_digits(out.as_str())
    }
}

/// Draws a noun, an adjective and, for a bound above 1, a suffix, and composes the name.
fn draw_name(max_suffix: u32, delimiter: char, use_latin: bool) -> (r: String)
    requires
        max_suffix != 1,
    ensures
        is_generated(r@, max_suffix, delimiter, use_latin),
{
    let noun = draw_in_range(0, NOUN_COUNT);
    let adjective = draw_in_range(0, ADJECTIVE_COUNT);
    let suffix = if max_suffix > 0 {
        Some(draw_in_range(1, max_suffix as usize) as u32)
    } else {
        None
    };
    let out = compose(noun, adjective, suffix, delimiter, use_latin);
    assert(suffix_allowed(suffix, max_suffix));
    assert(out@ == name_text(noun as int, adjective as int, suffix, delimiter, use_latin));
    out
}

/// A random name. `max_suffix` 0 gives a name without a number; a larger bound
/// `N` adds a number drawn from `[1, N)`. A bound of 1 leaves nothing to draw
/// and is an error.
pub fn generate(max_suffix: u32, delimiter: char, use_latin: bool) -> (r: Result<
    String,
    NameError,
>)
    ensures
        r is Err <==> max_suffix == 1,
        r is Ok ==> is_generated(r->Ok_0@, max_suffix, delimiter, use_latin),
{
    if max_suffix == 1 {
        return Err(NameError::DegenerateRange);
    }
    Ok(draw_name(max_suffix, delimiter, use_latin))
}

/// A random name in Persian script: noun and adjective, separated by a space.
pub fn gen() -> (r: String)
    ensures
        is_generated(r@, 0, ' ', false),
{
    draw_name(0, ' ', false)
}

/// A random identifier in Latin script: noun, adjective and a number from 1 to
/// 9999, separated by hyphens.
pub fn gen_id() -> (r: String)
    ensures
        is_generated(r@, 10000, '-', true),
{
    draw_name(10000, '-', true)
}

/// Persian numerals are no ASCII digits: text written in Persian script holds none.
pub proof fn lemma_persian_digits_has_no_ascii_digit(s: Seq<char>)
    ensures
        persian_digits(s).len() == s.len(),
        forall|k: int| 0 <= k < s.len() ==> !is_ascii_digit(#[trigger] persian_digits(s)[k]),
{
}

/// Text without ASCII digits is left as it is by the change to Persian numerals.
pub proof fn lemma_persian_digits_keeps_digit_free(s: Seq<char>)
    requires
        forall|k: int| 0 <= k < s.len() ==> !is_ascii_digit(#[trigger] s[k]),
    ensures
        persian_digits(s) == s,
{
    assert(persian_digits(s) =~= s);
}

/// A Persian-script name without a suffix holds no ASCII digit. When the
/// delimiter is not a digit either, it is a noun of the table with its Ezafe
/// link, the delimiter, and an adjective of the table.
pub proof fn lemma_native_plain_name(out: Seq<char>, delimiter: char)
    requires
        is_generated(out, 0, delimiter, false),
    ensures
        forall|k: int| 0 <= k < out.len() ==> !is_ascii_digit(#[trigger] out[k]),
        !is_ascii_digit(delimiter) ==> exists|noun: int, adjective: int|
            0 <= noun < NOUN_COUNT && 0 <= adjective < ADJECTIVE_COUNT && out == #[trigger] (
            linked_native(noun_entry(noun).native@).push(delimiter) + adjective_entry(adjective).native@),
{
    let (noun, adjective, suffix) = choose|noun: int, adjective: int, suffix: Option<u32>|
        0 <= noun < NOUN_COUNT && 0 <= adjective < ADJECTIVE_COUNT && suffix_allowed(
            suffix,
            0,
        ) && out == #[trigger] name_text(noun, adjective, suffix, delimiter, false);
    let pre = assembled(noun, adjective, suffix, delimiter, false);
    lemma_persian_digits_has_no_ascii_digit(pre);
    if !is_ascii_digit(delimiter) {
        lemma_nouns_well_formed();
        lemma_adjectives_well_formed();
        assert(is_word_entry(noun_entry(noun)));
        assert(is_word_entry(adjective_entry(adjective)));
        let w = noun_entry(noun).native@;
        let a = adjective_entry(adjective).native@;
        assert(pre =~= linked_native(w).push(delimiter) + a);
        assert forall|k: int| 0 <= k < pre.len() implies !is_ascii_digit(#[trigger] pre[k]) by {
            if k < w.len() {
                assert(pre[k] == w[k]);
            } else if k < linked_native(w).len() {
            } else if k == linked_native(w).len() {
            } else {
                assert(pre[k] == a[k - linked_native(w).len() - 1]);
            }
        }
        lemma_persian_digits_keeps_digit_free(pre);
    }
}

/// A Latin-script name without a suffix is a word of lowercase letters, its
/// Ezafe link (ZWNJ and "ye", or "e"), the delimiter, and another word of
/// lowercase letters.
pub proof fn lemma_latin_plain_name(out: Seq<char>, delimiter: char)
    requires
        is_generated(out, 0, delimiter, true),
    ensures
        exists|noun: Seq<char>, link: Seq<char>, adjective: Seq<char>|
            is_latin_word(noun) && is_latin_word(adjective) && (link == seq![ZWNJ, 'y', 'e']
                || link == seq!['e']) && out == #[trigger] (noun + link + seq![delimiter]
                + adjective),
{
    let (noun, adjective, suffix) = choose|noun: int, adjective: int, suffix: Option<u32>|
        0 <= noun < NOUN_COUNT && 0 <= adjective < ADJECTIVE_COUNT && suffix_allowed(
            suffix,
            0,
        ) && out == #[trigger] name_text(noun, adjective, suffix, delimiter, true);
    lemma_nouns_well_formed();
    lemma_adjectives_well_formed();
    assert(is_word_entry(noun_entry(noun)));
    assert(is_word_entry(adjective_entry(adjective)));
    let w = noun_entry(noun).latin@;
    let a = adjective_entry(adjective).latin@;
    let link = if w.last() == 'e' || w.last() == 'i' || w.last() == 'o' {
        seq![ZWNJ, 'y', 'e']
    } else {
        seq!['e']
    };
    assert(out =~= w + link + seq![delimiter] + a);
}

/// The number at the end of a name drawn with a bound `N > 1` lies in
/// `[1, N)`: the name ends with the delimiter and the decimal form of that number,
/// which reads back as the number (in Persian script, written in Persian numerals).
pub proof fn lemma_suffix_in_range(out: Seq<char>, max_suffix: u32, delimiter: char, use_latin: bool)
    requires
        max_suffix > 1,
        is_generated(out, max_suffix, delimiter, use_latin),
    ensures
        exists|head: Seq<char>, n: nat|
            1 <= n < max_suffix && decimal_value(decimal_of(n)) == n && out == #[trigger] written(
                head + seq![delimiter] + decimal_of(n),
                use_latin,
            ),
{
    let (noun, adjective, suffix) = choose|noun: int, adjective: int, suffix: Option<u32>|
        0 <= noun < NOUN_COUNT && 0 <= adjective < ADJECTIVE_COUNT && suffix_allowed(
            suffix,
            max_suffix,
        ) && out == #[trigger] name_text(noun, adjective, suffix, delimiter, use_latin);
    let n = suffix->0 as nat;
    let head = linked(in_script(noun_entry(noun), use_latin), use_latin).push(delimiter) + in_script(
        adjective_entry(adjective),
        use_latin,
    );
    lemma_decimal_round_trip(n);
    assert(assembled(noun, adjective, suffix, delimiter, use_latin) =~= head + seq![delimiter]
        + decimal_of(n));
}

/// In Persian script every ASCII digit of the assembled name, the suffix's
/// digits among them, comes out as its Persian numeral, every other character
/// unchanged, and no ASCII digit remains.
pub proof fn lemma_native_digits(out: Seq<char>, max_suffix: u32, delimiter: char)
    requires
        is_generated(out, max_suffix, delimiter, false),
    ensures
        forall|k: int| 0 <= k < out.len() ==> !is_ascii_digit(#[trigger] out[k]),
        exists|noun: int, adjective: int, suffix: Option<u32>|
            0 <= noun < NOUN_COUNT && 0 <= adjective < ADJECTIVE_COUNT && suffix_allowed(
                suffix,
                max_suffix,
            ) && {
                let pre = #[trigger] assembled(noun, adjective, suffix, delimiter, false);
                &&& out.len() == pre.len()
                &&& forall|k: int|
                    0 <= k < pre.len() && is_ascii_digit(pre[k]) ==> #[trigger] out[k]
                        == persian_digit(pre[k])
                &&& forall|k: int|
                    0 <= k < pre.len() && !is_ascii_digit(pre[k]) ==> #[trigger] out[k] == pre[k]
            },
{
    let (noun, adjective, suffix) = choose|noun: int, adjective: int, suffix: Option<u32>|
        0 <= noun < NOUN_COUNT && 0 <= adjective < ADJECTIVE_COUNT && suffix_allowed(
            suffix,
            max_suffix,
        ) && out == #[trigger] name_text(noun, adjective, suffix, delimiter, false);
    let pre = assembled(noun, adjective, suffix, delimiter, false);
    lemma_persian_digits_has_no_ascii_digit(pre);
}

/// The same draws give the same name: composing twice from them yields equal text.
pub proof fn lemma_same_draws_same_name(
    noun: int,
    adjective: int,
    suffix: Option<u32>,
    delimiter: char,
    use_latin: bool,
    first: Seq<char>,
    second: Seq<char>,
)
    requires
        first == name_text(noun, adjective, suffix, delimiter, use_latin),
        second == name_text(noun, adjective, suffix, delimiter, use_latin),
    ensures
        first == second,
{
}

} // verus!
