//! Text helpers: comparing, joining and recognising blank strings.
use vstd::prelude::*;

verus! {

/// `str` equality: two strings are equal exactly when they hold the same characters in the same
/// order. Specifies `<str as PartialEq>::eq`.
pub assume_specification[ <str as PartialEq>::eq ](a: &str, b: &str) -> (equal: bool)
    ensures
        equal == (a@ == b@),
;

/// `str::trim`: the string without its leading and trailing whitespace. The result is a
/// contiguous part of the string, everything outside that part is whitespace, and the part
/// neither starts nor ends with whitespace.
pub assume_specification[ str::trim ](text: &str) -> (trimmed: &str)
    ensures
        exists|from: int, to: int| #[trigger] is_trimmed(text@, trimmed@, from, to),
;

/// The Unicode `White_Space` property.
pub open spec fn is_white_space(c: char) -> bool {
    ||| '\u{9}' <= c <= '\u{d}'
    ||| c == ' '
    ||| c == '\u{85}'
    ||| c == '\u{a0}'
    ||| c == '\u{1680}'
    ||| '\u{2000}' <= c <= '\u{200a}'
    ||| c == '\u{2028}'
    ||| c == '\u{2029}'
    ||| c == '\u{202f}'
    ||| c == '\u{205f}'
    ||| c == '\u{3000}'
}

/// `trimmed` is `text[from..to]`, all of `text` outside it is whitespace, and neither of its ends
/// is.
pub open spec fn is_trimmed(text: Seq<char>, trimmed: Seq<char>, from: int, to: int) -> bool {
    &&& 0 <= from <= to <= text.len()
    &&& trimmed == text.subrange(from, to)
    &&& forall|k: int| 0 <= k < from || to <= k < text.len() ==> is_white_space(#[trigger] text[k])
    &&& from < to ==> !is_white_space(text[from]) && !is_white_space(text[to - 1])
}

/// Nothing but whitespace.
pub open spec fn blank(text: Seq<char>) -> bool {
    forall|k: int| 0 <= k < text.len() ==> is_white_space(#[trigger] text[k])
}

/// Whether `text` holds nothing but whitespace.
pub fn is_blank(text: &str) -> (r: bool)
    ensures
        r == blank(text@),
        !r <==> exists|k: int| 0 <= k < text@.len() && !is_white_space(#[trigger] text@[k]),
{
    let trimmed = text.trim();
    proof {
        let (from, to) = choose|from: int, to: int| #[trigger]
            is_trimmed(text@, trimmed@, from, to);
        if from < to {
            assert(!is_white_space(text@[from]));
        }
    }
    trimmed.is_empty()
}

/// The characters of an optional string.
pub open spec fn optional_text(text: Option<String>) -> Option<Seq<char>> {
    match text {
        Some(text) => Some(text@),
        None => None,
    }
}

/// Whether `candidate` is present and equal to `text`.
pub fn is_exactly(candidate: &Option<String>, text: &str) -> (r: bool)
    ensures
        r == (optional_text(*candidate) == Some(text@)),
        r <==> (candidate matches Some(candidate) && candidate@ == text@),
{
    match candidate {
        Some(candidate) => *candidate.as_str() == *text,
        None => false,
    }
}

/// The characters of every string of a list.
pub open spec fn texts(list: Seq<String>) -> Seq<Seq<char>> {
    list.map_values(|text: String| text@)
}

/// The parts one after another, with `separator` between each two neighbours.
pub open spec fn joined(parts: Seq<Seq<char>>, separator: Seq<char>) -> Seq<char>
    decreases parts.len(),
{
    if parts.len() == 0 {
        Seq::empty()
    } else if parts.len() == 1 {
        parts[0]
    } else {
        joined(parts.drop_last(), separator) + separator + parts.last()
    }
}

/// Joins the parts with `separator` between each two neighbours.
pub fn join(parts: &Vec<String>, separator: &str) -> (r: String)
    ensures
        r@ == joined(texts(parts@), separator@),
{
    let mut result = String::new();
    let mut i: usize = 0;
    while i < parts.len()
        invariant
            i <= parts.len(),
            result@ == joined(texts(parts@).take(i as int), separator@),
        decreases parts.len() - i,
    {
        if i > 0 {
            result.append(separator);
        }
        result.append(parts[i].as_str());
        proof {
            let before = texts(parts@).take(i as int);
            let after = texts(parts@).take(i + 1);
            assert(after.drop_last() =~= before);
            assert(after.last() == parts@[i as int]@);
            if i == 0 {
                assert(result@ =~= after[0]);
            }
        }
        i += 1;
    }
    assert(texts(parts@).take(parts.len() as int) =~= texts(parts@));
    result
}

/// The characters of a list of strings are those of every string, at its place.
pub proof fn law_texts_are_shown_whole(list: Seq<String>, k: int)
    requires
        0 <= k < list.len(),
    ensures
        texts(list).len() == list.len(),
        texts(list)[k] == list[k]@,
{
}

/// Joining nothing gives nothing, joining a single part gives that part, and a list is joined like
/// its two halves, with one separator between them.
pub proof fn law_joined_in_parts(
    first: Seq<Seq<char>>,
    second: Seq<Seq<char>>,
    separator: Seq<char>,
)
    ensures
        first.len() == 0 ==> joined(first, separator).len() == 0,
        first.len() == 1 ==> joined(first, separator) == first[0],
        first.len() > 0 && second.len() > 0 ==> joined(first + second, separator) == joined(
            first,
            separator,
        ) + separator + joined(second, separator),
    decreases second.len(),
{
    if first.len() > 0 && second.len() > 0 {
        let rest = second.drop_last();
        assert((first + second).drop_last() =~= first + rest);
        assert((first + second).last() == second.last());
        if rest.len() == 0 {
            assert(first + rest =~= first);
            assert(second.last() == second[0]);
        } else {
            law_joined_in_parts(first, rest, separator);
            assert(joined(first, separator) + separator + joined(rest, separator) + separator
                + second.last() =~= joined(first, separator) + separator + (joined(rest, separator)
                + separator + second.last()));
        }
    }
}

} // verus!
