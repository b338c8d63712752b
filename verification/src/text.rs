//! Surrounding whitespace and its removal.

use vstd::prelude::*;

verus! {

/// Whether a character is whitespace: one of the code points that carry
/// Unicode's White_Space property, which is what `char::is_whitespace`
/// accepts and `str::trim` removes.
pub open spec fn is_white_space(c: char) -> bool {
    let code = c as u32;
    ||| 0x0009 <= code <= 0x000D
    ||| code == 0x0020
    ||| code == 0x0085
    ||| code == 0x00A0
    ||| code == 0x1680
    ||| 0x2000 <= code <= 0x200A
    ||| code == 0x2028
    ||| code == 0x2029
    ||| code == 0x202F
    ||| code == 0x205F
    ||| code == 0x3000
}

/// The text without its leading whitespace.
pub open spec fn skip_leading(text: Seq<char>) -> Seq<char>
    decreases text.len(),
{
    if text.len() > 0 && is_white_space(text[0]) {
        skip_leading(text.drop_first())
    } else {
        text
    }
}

/// The text without its trailing whitespace.
pub open spec fn skip_trailing(text: Seq<char>) -> Seq<char>
    decreases text.len(),
{
    if text.len() > 0 && is_white_space(text.last()) {
        skip_trailing(text.drop_last())
    } else {
        text
    }
}

/// The text without the whitespace that surrounds it.
pub open spec fn trimmed(text: Seq<char>) -> Seq<char> {
    skip_trailing(skip_leading(text))
}

/// An optional text without the whitespace that surrounds it.
pub open spec fn trimmed_option(text: Option<Seq<char>>) -> Option<Seq<char>> {
    match text {
        Some(t) => Some(trimmed(t)),
        None => None,
    }
}

/// Whether a text neither starts nor ends with whitespace.
pub open spec fn has_no_margin(text: Seq<char>) -> bool {
    text.len() > 0 ==> !is_white_space(text[0]) && !is_white_space(text.last())
}

/// What is left of a text after its leading whitespace does not start with
/// whitespace.
pub proof fn lemma_skip_leading(text: Seq<char>)
    ensures
        skip_leading(text).len() > 0 ==> !is_white_space(skip_leading(text)[0]),
    decreases text.len(),
{
    if text.len() > 0 && is_white_space(text[0]) {
        lemma_skip_leading(text.drop_first());
    }
}

/// What is left of a text after its trailing whitespace does not end with
/// whitespace, and is the head of the text.
pub proof fn lemma_skip_trailing(text: Seq<char>)
    ensures
        skip_trailing(text).len() > 0 ==> !is_white_space(skip_trailing(text).last()),
        skip_trailing(text).len() <= text.len(),
        skip_trailing(text) == text.subrange(0, skip_trailing(text).len() as int),
    decreases text.len(),
{
    if text.len() > 0 && is_white_space(text.last()) {
        let rest = text.drop_last();
        lemma_skip_trailing(rest);
        let kept = skip_trailing(rest).len() as int;
        assert(rest.subrange(0, kept) =~= text.subrange(0, kept));
    } else {
        assert(text.subrange(0, text.len() as int) =~= text);
    }
}

/// A trimmed text neither starts nor ends with whitespace.
pub proof fn lemma_trimmed_has_no_margin(text: Seq<char>)
    ensures
        has_no_margin(trimmed(text)),
{
    lemma_skip_leading(text);
    lemma_skip_trailing(skip_leading(text));
}

/// Trimming twice is trimming once.
pub proof fn lemma_trimmed_is_idempotent(text: Seq<char>)
    ensures
        trimmed(trimmed(text)) == trimmed(text),
{
    lemma_trimmed_has_no_margin(text);
}

/// A text whose first `from` characters are whitespace and whose next one is
/// not loses exactly those `from` characters.
proof fn lemma_leading_margin(text: Seq<char>, from: int)
    requires
        0 <= from < text.len(),
        forall|i: int| 0 <= i < from ==> is_white_space(#[trigger] text[i]),
        !is_white_space(text[from]),
    ensures
        skip_leading(text) == text.subrange(from, text.len() as int),
    decreases from,
{
    if from == 0 {
        assert(text.subrange(0, text.len() as int) =~= text);
    } else {
        let rest = text.drop_first();
        assert forall|i: int| 0 <= i < from - 1 implies is_white_space(#[trigger] rest[i]) by {
            assert(rest[i] == text[i + 1]);
        }
        lemma_leading_margin(rest, from - 1);
        assert(rest.subrange(from - 1, rest.len() as int) =~= text.subrange(from, text.len() as int));
    }
}

/// A text whose characters from `to` on are whitespace and whose character
/// before them is not loses exactly those from `to` on.
proof fn lemma_trailing_margin(text: Seq<char>, to: int)
    requires
        0 < to <= text.len(),
        forall|i: int| to <= i < text.len() ==> is_white_space(#[trigger] text[i]),
        !is_white_space(text[to - 1]),
    ensures
        skip_trailing(text) == text.subrange(0, to),
    decreases text.len() - to,
{
    if to == text.len() {
        assert(text.subrange(0, to) =~= text);
    } else {
        let rest = text.drop_last();
        assert forall|i: int| to <= i < rest.len() implies is_white_space(#[trigger] rest[i]) by {
            assert(rest[i] == text[i]);
        }
        lemma_trailing_margin(rest, to);
        assert(rest.subrange(0, to) =~= text.subrange(0, to));
    }
}

/// A text of whitespace alone has nothing left after its leading whitespace.
proof fn lemma_all_margin(text: Seq<char>)
    requires
        forall|i: int| 0 <= i < text.len() ==> is_white_space(#[trigger] text[i]),
    ensures
        skip_leading(text).len() == 0,
    decreases text.len(),
{
    if text.len() > 0 {
        let rest = text.drop_first();
        assert forall|i: int| 0 <= i < rest.len() implies is_white_space(#[trigger] rest[i]) by {
            assert(rest[i] == text[i + 1]);
        }
        lemma_all_margin(rest);
    }
}

/// The trimmed text is the one contiguous part of a text that neither starts
/// nor ends with whitespace and has only whitespace around it.
pub proof fn lemma_core_is_trimmed(text: Seq<char>, from: int, to: int)
    requires
        0 <= from <= to <= text.len(),
        forall|i: int| 0 <= i < from || to <= i < text.len() ==> is_white_space(#[trigger] text[i]),
        has_no_margin(text.subrange(from, to)),
    ensures
        trimmed(text) == text.subrange(from, to),
{
    let core = text.subrange(from, to);
    if from == to {
        lemma_all_margin(text);
        assert(trimmed(text) =~= core);
    } else {
        assert(core[0] == text[from]);
        assert(core.last() == text[to - 1]);
        lemma_leading_margin(text, from);
        let inner = text.subrange(from, text.len() as int);
        assert forall|i: int| to - from <= i < inner.len() implies is_white_space(#[trigger] inner[i]) by {
            assert(inner[i] == text[i + from]);
        }
        assert(inner[to - from - 1] == text[to - 1]);
        lemma_trailing_margin(inner, to - from);
        assert(inner.subrange(0, to - from) =~= core);
    }
}

/// Whether `part` is a contiguous part of `text` with nothing but whitespace
/// before and after it.
pub open spec fn is_part_within_margins(part: Seq<char>, text: Seq<char>) -> bool {
    exists|from: int, to: int|
        {
            &&& 0 <= from <= to <= text.len()
            &&& part == #[trigger] text.subrange(from, to)
            &&& forall|i: int| 0 <= i < from || to <= i < text.len() ==> is_white_space(#[trigger] text[i])
        }
}

/// `str::trim`: a contiguous part of the slice that neither starts nor ends
/// with whitespace, with nothing but whitespace before and after it.
#[verifier::external_body]
fn trim(text: &str) -> (kept: &str)
    ensures
        kept@.len() > 0 ==> !is_white_space(kept@[0]) && !is_white_space(kept@.last()),
        is_part_within_margins(kept@, text@),
{
    text.trim()
}

/// The text without the whitespace that surrounds it.
pub fn trimmed_text(text: &str) -> (kept: String)
    ensures
        kept@ == trimmed(text@),
{
    let kept = trim(text);
    proof {
        let (from, to) = choose|from: int, to: int|
            {
                &&& 0 <= from <= to <= text@.len()
                &&& kept@ == #[trigger] text@.subrange(from, to)
                &&& forall|i: int|
                    0 <= i < from || to <= i < text@.len() ==> is_white_space(#[trigger] text@[i])
            };
        lemma_core_is_trimmed(text@, from, to);
    }
    kept.to_owned()
}

} // verus!
