//! Conversion of identifiers to lower case with a word separator.

use vstd::prelude::*;

verus! {

/// What the converter remembers about the character it saw last.
#[derive(Clone, Copy, Debug, PartialEq, Eq, Structural)]
pub enum CaseStatus {
    PrevSep,
    PrevLower,
    PrevUpper,
    RepeatUpper,
}

/// Whether `char::is_uppercase` holds of a character.
pub uninterp spec fn char_is_uppercase(c: char) -> bool;

/// The characters that `char::to_lowercase` yields for a character.
pub uninterp spec fn char_lowercase(c: char) -> Seq<char>;

/// `char::is_uppercase`: the result is the Unicode `Uppercase` property of `c`,
/// which this crate only names.
pub assume_specification[ char::is_uppercase ](c: char) -> (upper: bool)
    ensures
        upper == char_is_uppercase(c),
;

/// `char::to_lowercase`, collected into a `String`: the lowercase mapping of `c`,
/// which this crate only names.
#[verifier::external_body]
fn lowercase_of(c: char) -> (lowered: String)
    ensures
        lowered@ == char_lowercase(c),
{
    c.to_lowercase().collect()
}

/// The converter between two characters: the text written so far and the status.
pub struct CaseState {
    pub output: Seq<char>,
    pub status: CaseStatus,
}

/// The state after the first character `ch`, of which `upper` says whether it is
/// upper case and `lowered` is its lowercase mapping. No separator is written
/// before it.
pub open spec fn case_start_with(ch: char, upper: bool, lowered: Seq<char>, sep: char) -> CaseState {
    if upper {
        CaseState { output: lowered, status: CaseStatus::PrevUpper }
    } else {
        CaseState {
            output: seq![ch],
            status: if ch == sep {
                CaseStatus::PrevSep
            } else {
                CaseStatus::PrevLower
            },
        }
    }
}

/// One step of the converter on a character `ch` that is not the first.
pub open spec fn case_step_with(
    st: CaseState,
    ch: char,
    upper: bool,
    lowered: Seq<char>,
    sep: char,
) -> CaseState {
    if upper {
        CaseState {
            output: (if st.status is PrevLower {
                st.output.push(sep)
            } else {
                st.output
            }) + lowered,
            status: if st.status is PrevLower || st.status is PrevSep {
                CaseStatus::PrevUpper
            } else {
                CaseStatus::RepeatUpper
            },
        }
    } else {
        CaseState {
            output: (if st.status is RepeatUpper && st.output.len() > 0 {
                st.output.drop_last().push(sep).push(st.output.last())
            } else {
                st.output
            }).push(ch),
            status: if ch == sep {
                CaseStatus::PrevSep
            } else {
                CaseStatus::PrevLower
            },
        }
    }
}

/// The state of the converter after all of `input`.
pub open spec fn case_fold(input: Seq<char>, sep: char) -> CaseState
    decreases input.len(),
{
    if input.len() == 0 {
        CaseState { output: Seq::empty(), status: CaseStatus::PrevLower }
    } else if input.len() == 1 {
        case_start_with(input[0], char_is_uppercase(input[0]), char_lowercase(input[0]), sep)
    } else {
        case_step_with(
            case_fold(input.drop_last(), sep),
            input.last(),
            char_is_uppercase(input.last()),
            char_lowercase(input.last()),
            sep,
        )
    }
}

/// `input` in lower case, its words separated by `sep`.
pub open spec fn lower_case_by_sep(input: Seq<char>, sep: char) -> Seq<char> {
    case_fold(input, sep).output
}

/// Writes the first character of an identifier.
pub fn push_first_converted(
    output: &mut String,
    ch: char,
    upper: bool,
    lowered: &str,
    sep: char,
) -> (status: CaseStatus)
    ensures
        final(output)@ == old(output)@ + case_start_with(ch, upper, lowered@, sep).output,
        status == case_start_with(ch, upper, lowered@, sep).status,
{
    if upper {
        output.append(lowered);
        CaseStatus::PrevUpper
    } else {
        output.push(ch);
        if ch == sep {
            CaseStatus::PrevSep
        } else {
            CaseStatus::PrevLower
        }
    }
}

/// Writes a later character of an identifier, after a separator where a word
/// starts with it, and splits a run of capitals before its last one where a
/// lower-case character follows the run.
pub fn push_case_converted(
    output: &mut String,
    status: CaseStatus,
    ch: char,
    upper: bool,
    lowered: &str,
    sep: char,
) -> (next: CaseStatus)
    ensures
        (CaseState { output: final(output)@, status: next }) == case_step_with(
            CaseState { output: old(output)@, status },
            ch,
            upper,
            lowered@,
            sep,
        ),
{
    if upper {
        if let CaseStatus::PrevLower = status {
            output.push(sep);
        }
        output.append(lowered);
        match status {
            CaseStatus::PrevLower | CaseStatus::PrevSep => CaseStatus::PrevUpper,
            CaseStatus::PrevUpper | CaseStatus::RepeatUpper => CaseStatus::RepeatUpper,
        }
    } else {
        if let CaseStatus::RepeatUpper = status {
            if let Some(last_ch) = output.pop() {
                output.push(sep);
                output.push(last_ch);
            }
        }
        output.push(ch);
        if ch == sep {
            CaseStatus::PrevSep
        } else {
            CaseStatus::PrevLower
        }
    }
}

/// Converts an identifier to lower case, with `sep` between its words.
pub fn to_lower_case_by_sep(input: &str, sep: char) -> (output: String)
    ensures
        output@ == lower_case_by_sep(input@, sep),
{
    let mut output = String::new();
    let mut status = CaseStatus::PrevLower;
    let mut first = true;
    for ch in it: input.chars()
        invariant
            it.seq() == input@,
            first == (it.index() == 0),
            (CaseState { output: output@, status }) == case_fold(input@.take(it.index() as int), sep),
    {
        proof {
            let seen = input@.take(it.index() + 1);
            assert(seen.drop_last() == input@.take(it.index() as int));
            assert(seen.last() == ch);
            assert(output@ == Seq::<char>::empty() + output@);
        }
        let upper = ch.is_uppercase();
        let lowered = if upper { lowercase_of(ch) } else { String::new() };
        if first {
            status = push_first_converted(&mut output, ch, upper, lowered.as_str(), sep);
            first = false;
        } else {
            status = push_case_converted(&mut output, status, ch, upper, lowered.as_str(), sep);
        }
    }
    assert(input@.take(input@.len() as int) == input@);
    output
}

/// No character of `text` is upper case.
pub open spec fn no_uppercase(text: Seq<char>) -> bool {
    forall|i: int| 0 <= i < text.len() ==> !char_is_uppercase(#[trigger] text[i])
}

/// The lowercase mapping of every upper-case character of `text` holds no
/// upper-case character. A character without a lowercase mapping is mapped to
/// itself, so this can fail.
pub open spec fn lowers_cleanly(text: Seq<char>) -> bool {
    forall|i: int|
        0 <= i < text.len() && char_is_uppercase(#[trigger] text[i]) ==> no_uppercase(
            char_lowercase(text[i]),
        )
}

/// A text without upper-case characters is left as it is, whatever the separator.
pub proof fn lemma_lower_case_is_fixed(text: Seq<char>, sep: char)
    requires
        no_uppercase(text),
    ensures
        lower_case_by_sep(text, sep) == text,
        !(case_fold(text, sep).status is PrevUpper),
        !(case_fold(text, sep).status is RepeatUpper),
    decreases text.len(),
{
    if text.len() == 1 {
        assert(text == seq![text[0]]);
    } else if text.len() > 1 {
        let front = text.drop_last();
        assert(no_uppercase(front)) by {
            assert forall|i: int| 0 <= i < front.len() implies !char_is_uppercase(
                #[trigger] front[i],
            ) by {
                assert(front[i] == text[i]);
            }
        }
        lemma_lower_case_is_fixed(front, sep);
        assert(front.push(text.last()) == text);
    }
}

/// Where the separator is not upper case and lowercase mappings hold no upper-case
/// character, the converted text holds none.
pub proof fn lemma_converted_has_no_uppercase(text: Seq<char>, sep: char)
    requires
        !char_is_uppercase(sep),
        lowers_cleanly(text),
    ensures
        no_uppercase(lower_case_by_sep(text, sep)),
    decreases text.len(),
{
    if text.len() > 1 {
        let front = text.drop_last();
        assert(lowers_cleanly(front)) by {
            assert forall|i: int|
                0 <= i < front.len() && char_is_uppercase(
                    #[trigger] front[i],
                ) implies no_uppercase(char_lowercase(front[i])) by {
                assert(front[i] == text[i]);
            }
        }
        lemma_converted_has_no_uppercase(front, sep);
        let before = case_fold(front, sep).output;
        let ch = text.last();
        assert(ch == text[text.len() - 1]);
        if char_is_uppercase(ch) {
            assert(no_uppercase(char_lowercase(ch)));
        } else if before.len() > 0 {
            assert(before.last() == before[before.len() - 1]);
        }
    } else if text.len() == 1 {
        assert(char_is_uppercase(text[0]) ==> no_uppercase(char_lowercase(text[0])));
    }
}

/// Converting twice gives what converting once gives, for a separator that is not
/// upper case and a text whose lowercase mappings hold no upper-case character.
pub proof fn lemma_to_lower_case_idempotent(text: Seq<char>, sep: char)
    requires
        !char_is_uppercase(sep),
        lowers_cleanly(text),
    ensures
        lower_case_by_sep(lower_case_by_sep(text, sep), sep) == lower_case_by_sep(text, sep),
{
    lemma_converted_has_no_uppercase(text, sep);
    lemma_lower_case_is_fixed(lower_case_by_sep(text, sep), sep);
}

/// Whether the standard library treats the characters of ASCII as ASCII does:
/// the upper-case ones are `A` to `Z`, and the lowercase mapping of each is its
/// lower-case letter alone. The contracts of this crate do not state this of the
/// standard library.
pub open spec fn ascii_case_is_plain() -> bool {
    &&& forall|c: char|
        (c as int) < 128 ==> (#[trigger] char_is_uppercase(c) <==> 'A' <= c <= 'Z')
    &&& forall|c: char|
        'A' <= c <= 'Z' ==> #[trigger] char_lowercase(c) == seq![((c as int) + 32) as char]
}

/// Every character of `text` is one of ASCII.
pub open spec fn is_ascii_text(text: Seq<char>) -> bool {
    forall|i: int| 0 <= i < text.len() ==> ((#[trigger] text[i]) as int) < 128
}

/// Converting an ASCII text twice gives what converting it once gives, for a
/// separator of ASCII that is no capital, where the standard library treats the
/// characters of ASCII as ASCII does.
pub proof fn lemma_ascii_converts_once(text: Seq<char>, sep: char)
    requires
        ascii_case_is_plain(),
        is_ascii_text(text),
        (sep as int) < 128,
        !('A' <= sep <= 'Z'),
    ensures
        lower_case_by_sep(lower_case_by_sep(text, sep), sep) == lower_case_by_sep(text, sep),
{
    assert(!char_is_uppercase(sep));
    assert forall|i: int|
        0 <= i < text.len() && char_is_uppercase(#[trigger] text[i]) implies no_uppercase(
        char_lowercase(text[i]),
    ) by {
        let c = text[i];
        assert('A' <= c <= 'Z');
        let lower = ((c as int) + 32) as char;
        assert(char_lowercase(c) == seq![lower]);
        assert((lower as int) < 128 && !('A' <= lower <= 'Z'));
        assert(!char_is_uppercase(lower));
    }
    lemma_to_lower_case_idempotent(text, sep);
}

} // verus!
