//! White space at the edges of a text.

use vstd::prelude::*;
use vstd::string::StrSliceExecFns;

verus! {

/// Whether a character is white space: whether it has the Unicode
/// property `White_Space`. These are the tab, the line feed and the three
/// controls after it, the space, the next line control, the no-break
/// space, the Ogham space mark, the spaces from the en quad to the hair
/// space, the line and the paragraph separator, the narrow no-break space,
/// the medium mathematical space and the ideographic space.
pub open spec fn is_white_space(c: char) -> bool {
    let code = c as u32;
    ||| 0x09 <= code <= 0x0D
    ||| code == 0x20
    ||| code == 0x85
    ||| code == 0xA0
    ||| code == 0x1680
    ||| 0x2000 <= code <= 0x200A
    ||| code == 0x2028
    ||| code == 0x2029
    ||| code == 0x202F
    ||| code == 0x205F
    ||| code == 0x3000
}

/// Tells whether a character is white space.
pub fn is_whitespace(c: char) -> (b: bool)
    ensures
        b == is_white_space(c),
{
    let code: u32 = c as u32;
    (0x09 <= code && code <= 0x0D) || code == 0x20 || code == 0x85 || code == 0xA0 || code
        == 0x1680 || (0x2000 <= code && code <= 0x200A) || code == 0x2028 || code == 0x2029 || code
        == 0x202F || code == 0x205F || code == 0x3000
}

/// The number of characters at the start of a text that are white space.
pub open spec fn leading(text: Seq<char>) -> int
    decreases text.len(),
{
    if text.len() > 0 && is_white_space(text[0]) {
        1 + leading(text.drop_first())
    } else {
        0
    }
}

/// The number of characters at the end of a text that are white space.
pub open spec fn trailing(text: Seq<char>) -> int
    decreases text.len(),
{
    if text.len() > 0 && is_white_space(text.last()) {
        1 + trailing(text.drop_last())
    } else {
        0
    }
}

/// A text without the white space at its start and at its end.
pub open spec fn trimmed(text: Seq<char>) -> Seq<char> {
    let start = leading(text);
    let rest = text.subrange(start, text.len() as int);
    rest.subrange(0, rest.len() - trailing(rest))
}

/// Whether a text holds nothing but white space.
pub open spec fn is_blank(text: Seq<char>) -> bool {
    trimmed(text).len() == 0
}

/// [`leading`] counts exactly the white space before the first character
/// that is none.
pub proof fn lemma_leading(text: Seq<char>)
    ensures
        0 <= leading(text) <= text.len(),
        forall|i: int| 0 <= i < leading(text) ==> is_white_space(#[trigger] text[i]),
        leading(text) < text.len() ==> !is_white_space(text[leading(text)]),
    decreases text.len(),
{
    if text.len() > 0 && is_white_space(text[0]) {
        let rest = text.drop_first();
        lemma_leading(rest);
        assert forall|i: int| 0 <= i < leading(text) implies is_white_space(
            #[trigger] text[i],
        ) by {
            if i > 0 {
                assert(text[i] == rest[i - 1]);
            }
        }
        if leading(text) < text.len() {
            assert(text[leading(text)] == rest[leading(rest)]);
        }
    }
}

/// [`trailing`] counts exactly the white space after the last character
/// that is none.
pub proof fn lemma_trailing(text: Seq<char>)
    ensures
        0 <= trailing(text) <= text.len(),
        forall|i: int|
            text.len() - trailing(text) <= i < text.len() ==> is_white_space(#[trigger] text[i]),
        trailing(text) < text.len() ==> !is_white_space(text[text.len() - trailing(text) - 1]),
    decreases text.len(),
{
    if text.len() > 0 && is_white_space(text.last()) {
        let rest = text.drop_last();
        lemma_trailing(rest);
        assert forall|i: int| text.len() - trailing(text) <= i < text.len() implies is_white_space(
            #[trigger] text[i],
        ) by {
            if i < text.len() - 1 {
                assert(text[i] == rest[i]);
            }
        }
        if trailing(text) < text.len() {
            assert(text[text.len() - trailing(text) - 1] == rest[rest.len() - trailing(rest) - 1]);
        }
    }
}

/// A text of nothing but white space is blank.
pub proof fn lemma_white_space_is_blank(text: Seq<char>)
    requires
        forall|i: int| 0 <= i < text.len() ==> is_white_space(#[trigger] text[i]),
    ensures
        is_blank(text),
{
    lemma_leading(text);
}

/// Where the white space at the start of a text ends.
fn leading_end(text: &str, len: usize) -> (start: usize)
    requires
        len == text@.len(),
    ensures
        start == leading(text@),
        start <= len,
{
    let mut start: usize = 0;
    proof {
        assert(text@.subrange(0, len as int) =~= text@);
    }
    while start < len && is_whitespace(text.get_char(start))
        invariant
            0 <= start <= len,
            len == text@.len(),
            leading(text@) == start + leading(text@.subrange(start as int, len as int)),
        decreases len - start,
    {
        proof {
            let rest = text@.subrange(start as int, len as int);
            assert(rest[0] == text@[start as int]);
            assert(rest.drop_first() =~= text@.subrange(start as int + 1, len as int));
        }
        start = start + 1;
    }
    proof {
        let rest = text@.subrange(start as int, len as int);
        if start < len {
            assert(rest[0] == text@[start as int]);
        }
    }
    start
}

/// Where the white space at the end of a text begins, looking no further
/// to the left than at `start`.
fn trailing_start(text: &str, start: usize, len: usize) -> (end: usize)
    requires
        start <= len,
        len == text@.len(),
    ensures
        start <= end <= len,
        len - end == trailing(text@.subrange(start as int, len as int)),
{
    let mut end: usize = len;
    let ghost rest = text@.subrange(start as int, len as int);
    proof {
        assert(rest.subrange(0, len - start) =~= rest);
    }
    while end > start && is_whitespace(text.get_char(end - 1))
        invariant
            start <= end <= len,
            len == text@.len(),
            rest == text@.subrange(start as int, len as int),
            trailing(rest) == (len - end) + trailing(rest.subrange(0, end - start)),
        decreases end - start,
    {
        proof {
            let head = rest.subrange(0, end - start);
            assert(head.last() == text@[end - 1]);
            assert(head.drop_last() =~= rest.subrange(0, end - start - 1));
        }
        end = end - 1;
    }
    proof {
        let head = rest.subrange(0, end - start);
        if end > start {
            assert(head.last() == text@[end - 1]);
        }
    }
    end
}

/// Returns the text without the white space at its start and at its end.
pub fn trim(text: &str) -> (r: &str)
    ensures
        r@ == trimmed(text@),
{
    let len: usize = text.unicode_len();
    let start: usize = leading_end(text, len);
    let end: usize = trailing_start(text, start, len);
    proof {
        let rest = text@.subrange(start as int, len as int);
        assert(rest.subrange(0, rest.len() - trailing(rest)) =~= text@.subrange(
            start as int,
            end as int,
        ));
    }
    text.substring_char(start, end)
}

/// Tells whether a text holds nothing but white space.
pub fn blank(text: &str) -> (b: bool)
    ensures
        b == is_blank(text@),
{
    trim(text).unicode_len() == 0
}

} // verus!
