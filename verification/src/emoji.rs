//! Emoji identifiers: which strings count as emoji, and how one is made up
//! when the user gives none.
use vstd::prelude::*;
use vstd::arithmetic::power::pow;

use tiny_id::ShortCodeGenerator;
use unic_char_range::CharRange;
use unicode_segmentation::UnicodeSegmentation;

use crate::text::{to_chars, unicode_numeric};

verus! {

#[verifier::external_type_specification]
#[verifier::external_body]
pub struct ExCharRange(CharRange);

/// The characters of a closed range `low..=high` that lies on one side of
/// the surrogate block, in increasing order.
pub open spec fn closed_chars(low: char, high: char) -> Seq<char> {
    if (low as int) <= (high as int) {
        Seq::new(
            ((high as int) - (low as int) + 1) as nat,
            |i: int| ((low as int) + i) as char,
        )
    } else {
        Seq::empty()
    }
}

/// The characters that a `CharRange` holds, in the order its iterator walks them.
pub uninterp spec fn char_range_chars(r: CharRange) -> Seq<char>;

/// Trusted: `CharRange::closed(low, high)` holds the characters from `low` to
/// `high` inclusive, and its iterator walks them upwards (source of
/// `unic_char_range`: `closed` stores both bounds, the iterator steps one
/// scalar value at a time and skips only the surrogate block, which the
/// `requires` keeps out of the range).
#[verifier::external_body]
fn closed_range(low: char, high: char) -> (r: CharRange)
    requires
        (low as int) <= (high as int),
        (high as int) < 0xD800 || (low as int) > 0xDFFF,
    ensures
        char_range_chars(r) == closed_chars(low, high),
{
    CharRange::closed(low, high)
}

/// Trusted: `CharRange::iter` collected into a vector yields the characters of
/// the range in order (source of `unic_char_range`).
#[verifier::external_body]
fn range_to_vec(r: &CharRange) -> (res: Vec<char>)
    ensures
        res@ == char_range_chars(*r),
{
    r.iter().collect()
}

/// The Unicode `Emoji` property.
pub uninterp spec fn emoji_property(c: char) -> bool;

/// The Unicode `Emoji_Component` property.
pub uninterp spec fn emoji_component_property(c: char) -> bool;

/// The Unicode `Emoji_Modifier` property.
pub uninterp spec fn emoji_modifier_property(c: char) -> bool;

/// The Unicode `Emoji_Presentation` property.
pub uninterp spec fn emoji_presentation_property(c: char) -> bool;

/// The Unicode `Emoji_Modifier_Base` property.
pub uninterp spec fn emoji_modifier_base_property(c: char) -> bool;

/// Trusted: `unic_emoji_char::is_emoji` looks the character up in the
/// `Emoji` property table; the result depends on the character alone. The
/// table (`tables/emoji.rsv`) holds the range U+1F5FA-U+1F64F, which covers
/// the emoticons block.
pub assume_specification[ unic_emoji_char::is_emoji ](ch: char) -> (res: bool)
    ensures
        res == emoji_property(ch),
        (0x1F600 <= (ch as int) <= 0x1F64F) ==> res,
;

/// Trusted: `unic_emoji_char::is_emoji_component` looks the character up in
/// the `Emoji_Component` property table.
pub assume_specification[ unic_emoji_char::is_emoji_component ](ch: char) -> (res: bool)
    ensures
        res == emoji_component_property(ch),
;

/// Trusted: `unic_emoji_char::is_emoji_modifier` looks the character up in
/// the `Emoji_Modifier` property table.
pub assume_specification[ unic_emoji_char::is_emoji_modifier ](ch: char) -> (res: bool)
    ensures
        res == emoji_modifier_property(ch),
;

/// Trusted: `unic_emoji_char::is_emoji_presentation` looks the character up
/// in the `Emoji_Presentation` property table.
pub assume_specification[ unic_emoji_char::is_emoji_presentation ](ch: char) -> (res: bool)
    ensures
        res == emoji_presentation_property(ch),
;

/// Trusted: `unic_emoji_char::is_emoji_modifier_base` looks the character up
/// in the `Emoji_Modifier_Base` property table.
pub assume_specification[ unic_emoji_char::is_emoji_modifier_base ](ch: char) -> (res: bool)
    ensures
        res == emoji_modifier_base_property(ch),
;

/// The extended grapheme clusters of a string, in order.
pub uninterp spec fn extended_graphemes(s: Seq<char>) -> Seq<Seq<char>>;

/// The characters of each string of a sequence.
pub open spec fn views_of(v: Seq<String>) -> Seq<Seq<char>> {
    v.map_values(|g: String| g@)
}

/// Trusted: `UnicodeSegmentation::graphemes(s, true)` walks the extended
/// grapheme clusters of `s`; the source of `unicode_segmentation` yields each
/// cluster as the slice between two consecutive boundaries, from the start of
/// the string to its end, so the clusters are non-empty and together spell
/// out `s`.
#[verifier::external_body]
fn graphemes(s: &str) -> (res: Vec<String>)
    ensures
        views_of(res@) == extended_graphemes(s@),
        views_of(res@).flatten() == s@,
        forall|i: int| 0 <= i < res@.len() ==> res@[i]@.len() > 0,
{
    s.graphemes(true).map(String::from).collect()
}

/// The characters an identifier may be made of: not numeric, and either
/// emoji by one of the Unicode emoji properties, the zero-width joiner, the
/// emoji variation selector, a hair component, or one of two emoji that the
/// property tables lack.
pub open spec fn emoji_char(c: char) -> bool {
    !unicode_numeric(c) && (emoji_property(c) || emoji_component_property(c)
        || emoji_modifier_property(c) || emoji_presentation_property(c)
        || emoji_modifier_base_property(c) || c == '\u{200D}' || c == '\u{FE0F}'
        || closed_chars('\u{1f9b0}', '\u{1f9b3}').contains(c) || c == '\u{1fac2}'
        || c == '\u{1F97A}')
}

/// Whether `c` is an ASCII decimal digit.
pub open spec fn is_ascii_digit(c: char) -> bool {
    '0' <= c && c <= '9'
}

/// Whether `s` holds no ASCII decimal digit.
pub open spec fn digit_free(s: Seq<char>) -> bool {
    forall|i: int| 0 <= i < s.len() ==> !is_ascii_digit(#[trigger] s[i])
}

/// The characters that are known to pass: the emoticons block, the
/// zero-width joiner and the emoji variation selector.
pub open spec fn surely_emoji(c: char) -> bool {
    c == '\u{200D}' || c == '\u{FE0F}' || (0x1F600 <= (c as int) <= 0x1F64F)
}

/// Whether every character of `s` is known to pass.
pub open spec fn all_surely_emoji(s: Seq<char>) -> bool {
    forall|i: int| 0 <= i < s.len() ==> surely_emoji(#[trigger] s[i])
}

/// The made-up identifiers are made of emoticons.
proof fn lemma_generated_surely_emoji(id: Seq<char>)
    ensures
        is_generated_identifier(id) ==> all_surely_emoji(id),
{
    if is_generated_identifier(id) {
        assert forall|i: int| 0 <= i < id.len() implies surely_emoji(#[trigger] id[i]) by {
            assert(generated_alphabet().contains(id[i]));
            let j = choose|j: int| 0 <= j < generated_alphabet().len() && generated_alphabet()[j] == id[i];
            assert(generated_alphabet()[j] == ((0x1F600int + j) as char));
        }
    }
}

/// Whether every character of `s` may stand in an identifier.
pub open spec fn spec_is_valid(s: Seq<char>) -> bool {
    forall|i: int| 0 <= i < s.len() ==> #[trigger] emoji_char(s[i])
}

/// Whether `c` is one of `cs`.
fn contains_char(cs: &Vec<char>, c: char) -> (res: bool)
    ensures
        res == cs@.contains(c),
{
    let mut i: usize = 0;
    while i < cs.len()
        invariant
            i <= cs.len(),
            forall|j: int| 0 <= j < i ==> cs@[j] != c,
        decreases cs.len() - i,
    {
        if cs[i] == c {
            assert(cs@[i as int] == c);
            return true;
        }
        i = i + 1;
    }
    false
}

/// Whether a single character may stand in an identifier.
fn is_emoji_char(c: char) -> (res: bool)
    ensures
        res == emoji_char(c),
        is_ascii_digit(c) ==> !res,
        surely_emoji(c) ==> res,
{
    let hair_components = range_to_vec(&closed_range('\u{1f9b0}', '\u{1f9b3}'));
    !c.is_numeric() && (unic_emoji_char::is_emoji(c) || unic_emoji_char::is_emoji_component(c)
        || unic_emoji_char::is_emoji_modifier(c) || unic_emoji_char::is_emoji_presentation(c)
        || unic_emoji_char::is_emoji_modifier_base(c) || c == '\u{200D}' || c == '\u{FE0F}'
        || contains_char(&hair_components, c) || c == '\u{1fac2}' || c == '\u{1F97A}')
}

/// Checks whether a string is made of emoji: each character of each
/// grapheme cluster must be an emoji character, a zero-width joiner or an
/// emoji variation selector (see `emoji_char`).
pub fn is_valid(identifier: &str) -> (res: bool)
    ensures
        res == spec_is_valid(identifier@),
        res ==> digit_free(identifier@),
        all_surely_emoji(identifier@) ==> res,
        is_generated_identifier(identifier@) ==> res,
        (forall|i: int|
            0 <= i < identifier@.len() ==> !unicode_numeric(#[trigger] identifier@[i]) && (
            emoji_property(identifier@[i]) || emoji_component_property(identifier@[i])
                || emoji_modifier_property(identifier@[i]) || emoji_presentation_property(
                identifier@[i],
            ) || emoji_modifier_base_property(identifier@[i]))) ==> res,
        res ==> forall|i: int| 0 <= i < identifier@.len() ==> !unicode_numeric(#[trigger] identifier@[i]),
{
    proof {
        lemma_generated_surely_emoji(identifier@);
    }
    let gs = graphemes(identifier);
    let ghost views = views_of(gs@);
    let mut i: usize = 0;
    while i < gs.len()
        invariant
            i <= gs.len(),
            views == views_of(gs@),
            views.flatten() == identifier@,
            spec_is_valid(views.take(i as int).flatten()),
            digit_free(views.take(i as int).flatten()),
        decreases gs.len() - i,
    {
        let cs = to_chars(gs[i].as_str());
        let ghost before = views.take(i as int).flatten();
        proof {
            assert(views.take(i + 1) =~= views.take(i as int).push(views[i as int]));
            views.take(i as int).lemma_flatten_push(views[i as int]);
            vstd::seq_lib::lemma_flatten_concat(views.take(i as int), views.skip(i as int));
            assert(views.take(i as int) + views.skip(i as int) =~= views);
            assert(views.skip(i as int).first() == views[i as int]);
            assert(views.skip(i as int).flatten() == views[i as int] + views.skip(i as int).drop_first().flatten());
            assert(identifier@ == before + views[i as int] + views.skip(i as int).drop_first().flatten());
        }
        let ghost rest = views.skip(i as int).drop_first().flatten();
        let mut j: usize = 0;
        while j < cs.len()
            invariant
                j <= cs.len(),
                i < views.len(),
                cs@ == views[i as int],
                identifier@ == before + cs@ + rest,
                forall|k: int| 0 <= k < j ==> emoji_char(#[trigger] cs@[k]),
                forall|k: int| 0 <= k < j ==> !is_ascii_digit(#[trigger] cs@[k]),
            decreases cs.len() - j,
        {
            if !is_emoji_char(cs[j]) {
                proof {
                    let at = before.len() + j;
                    assert(identifier@[at] == cs@[j as int]);
                    assert(!emoji_char(identifier@[at]));
                    assert(!surely_emoji(identifier@[at]));
                }
                return false;
            }
            j = j + 1;
        }
        proof {
            let after = views.take(i + 1).flatten();
            assert(after == before + cs@);
            assert forall|k: int| 0 <= k < after.len() implies #[trigger] emoji_char(after[k])
                && !is_ascii_digit(after[k]) by {
                if k < before.len() {
                    assert(after[k] == before[k]);
                } else {
                    assert(after[k] == cs@[k - before.len()]);
                }
            }
        }
        i = i + 1;
    }
    proof {
        assert(views.take(gs.len() as int) =~= views);
        assert forall|i: int| 0 <= i < identifier@.len() implies !unicode_numeric(
            #[trigger] identifier@[i],
        ) by {
            assert(emoji_char(identifier@[i]));
        }
    }
    true
}

/// A character that is not numeric and has any of the Unicode emoji
/// properties (`Emoji`, `Emoji_Component`, `Emoji_Modifier`,
/// `Emoji_Presentation`, `Emoji_Modifier_Base`) is an identifier on its own.
pub proof fn lemma_property_char_valid(c: char)
    requires
        !unicode_numeric(c),
        emoji_property(c) || emoji_component_property(c) || emoji_modifier_property(c)
            || emoji_presentation_property(c) || emoji_modifier_base_property(c),
    ensures
        spec_is_valid(seq![c]),
{
    assert(seq![c][0] == c);
}

/// Putting identifiers side by side gives an identifier exactly when both
/// parts are identifiers.
pub proof fn lemma_valid_concat(a: Seq<char>, b: Seq<char>)
    ensures
        spec_is_valid(a + b) == (spec_is_valid(a) && spec_is_valid(b)),
{
    if spec_is_valid(a + b) {
        assert forall|i: int| 0 <= i < a.len() implies #[trigger] emoji_char(a[i]) by {
            assert((a + b)[i] == a[i]);
        }
        assert forall|i: int| 0 <= i < b.len() implies #[trigger] emoji_char(b[i]) by {
            assert((a + b)[a.len() + i] == b[i]);
        }
    }
    if spec_is_valid(a) && spec_is_valid(b) {
        assert forall|i: int| 0 <= i < (a + b).len() implies #[trigger] emoji_char((a + b)[i]) by {
            if i < a.len() {
                assert((a + b)[i] == a[i]);
            } else {
                assert((a + b)[i] == b[i - a.len()]);
            }
        }
    }
}

/// The characters from which identifiers are made up: the emoticons block.
pub open spec fn generated_alphabet() -> Seq<char> {
    closed_chars('\u{1f600}', '\u{1f64f}')
}

/// Whether `id` has the shape of a made-up identifier: six characters of the
/// emoticons block.
pub open spec fn is_generated_identifier(id: Seq<char>) -> bool {
    id.len() == 6 && forall|i: int| 0 <= i < id.len() ==> generated_alphabet().contains(#[trigger] id[i])
}

/// The emoticons block, from which identifiers are made up.
pub fn range() -> (r: CharRange)
    ensures
        char_range_chars(r) == generated_alphabet(),
{
    closed_range('\u{1f600}', '\u{1f64f}')
}

/// Trusted: a fresh `ShortCodeGenerator::with_alphabet(alphabet, length)`
/// seeds itself from the operating system's entropy, and its first
/// `next_string` is `length` characters, each taken from the alphabet
/// (source of `tiny_id`: a fresh generator is not exhausted, so `next_vec`
/// pushes exactly `length` alphabet entries). Which characters come out is
/// random and left unsaid. The `requires` keeps the generator's `u64`
/// arithmetic (`m = len^length`, `a * next + c`, `result + offset`) and its
/// factorisation of the alphabet size from overflowing. The generator also
/// panics if the operating system gives it no entropy (`with_alphabet`); that
/// depends on the environment, not on any argument, so no `requires` can
/// exclude it.
#[verifier::external_body]
fn random_code(alphabet: Vec<char>, length: usize) -> (res: String)
    requires
        0 < alphabet@.len() <= 0xFFFF,
        length <= 0xFFFF_FFFF,
        pow(alphabet@.len() as int, length as nat) * (2 * alphabet@.len() + 2) <= 0xFFFF_FFFF_FFFF_FFFF,
    ensures
        res@.len() == length,
        forall|i: int| 0 <= i < res@.len() ==> alphabet@.contains(#[trigger] res@[i]),
{
    ShortCodeGenerator::with_alphabet(alphabet, length).next_string()
}

/// A random identifier of six emoticons.
pub fn random_sequence() -> (res: String)
    ensures
        is_generated_identifier(res@),
{
    let emojis = range_to_vec(&range());
    proof {
        assert(emojis@.len() == 80);
        reveal_with_fuel(pow, 7);
        assert(pow(80, 6) == 262144000000);
    }
    random_code(emojis, 6)
}

} // verus!
