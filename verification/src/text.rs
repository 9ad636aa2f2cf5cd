//! What the library needs of strings.

use vstd::prelude::*;
use vstd::string::StrSliceExecFns;
use vstd::string::StringExecFns;
use vstd::string::StringSliceAdditionalSpecFns;
use vstd::utf8::encode_utf8_decode_utf8;

verus! {

/// The characters of each string of `list`.
pub open spec fn views<'a>(list: Seq<&'a str>) -> Seq<Seq<char>> {
    list.map_values(|text: &'a str| text@)
}

/// Whether two strings hold the same characters.
pub fn same_text(left: &str, right: &str) -> (same: bool)
    ensures
        same == (left@ == right@),
{
    let a = left.as_bytes();
    let b = right.as_bytes();
    proof {
        encode_utf8_decode_utf8(left@);
        encode_utf8_decode_utf8(right@);
    }
    if a.len() != b.len() {
        return false;
    }
    let mut i: usize = 0;
    while i < a.len()
        invariant
            i <= a@.len(),
            a@.len() == b@.len(),
            a@ == left.spec_bytes(),
            b@ == right.spec_bytes(),
            forall|j: int| 0 <= j < i ==> a@[j] == b@[j],
        decreases a@.len() - i,
    {
        if a[i] != b[i] {
            return false;
        }
        i = i + 1;
    }
    assert(a@ =~= b@);
    true
}

/// Whether `list` holds a string with the characters of `text`.
pub fn holds_text(list: &[&str], text: &str) -> (found: bool)
    ensures
        found == views(list@).contains(text@),
{
    let mut i: usize = 0;
    while i < list.len()
        invariant
            i <= list@.len(),
            forall|j: int| 0 <= j < i ==> views(list@)[j] != text@,
        decreases list@.len() - i,
    {
        if same_text(list[i], text) {
            assert(views(list@)[i as int] == text@);
            return true;
        }
        i = i + 1;
    }
    false
}

/// Whether `c` is an opening or a closing brace.
pub open spec fn is_brace(c: char) -> bool {
    c == '{' || c == '}'
}

/// `text` without the braces that it begins with.
pub open spec fn without_leading_braces(text: Seq<char>) -> Seq<char>
    decreases text.len(),
{
    if text.len() > 0 && is_brace(text[0]) {
        without_leading_braces(text.skip(1))
    } else {
        text
    }
}

/// `text` without the braces that it ends with.
pub open spec fn without_trailing_braces(text: Seq<char>) -> Seq<char>
    decreases text.len(),
{
    if text.len() > 0 && is_brace(text.last()) {
        without_trailing_braces(text.drop_last())
    } else {
        text
    }
}

/// `text` without the braces at either end.
pub open spec fn without_braces(text: Seq<char>) -> Seq<char> {
    without_trailing_braces(without_leading_braces(text))
}

proof fn leading_braces_end(text: Seq<char>, count: int)
    requires
        0 <= count <= text.len(),
        forall|j: int| 0 <= j < count ==> is_brace(text[j]),
        count == text.len() || !is_brace(text[count]),
    ensures
        without_leading_braces(text) == text.skip(count),
    decreases count,
{
    if count == 0 {
        assert(text.skip(0) =~= text);
    } else {
        leading_braces_end(text.skip(1), count - 1);
        assert(text.skip(1).skip(count - 1) =~= text.skip(count));
    }
}

proof fn trailing_braces_begin(text: Seq<char>, kept: int)
    requires
        0 <= kept <= text.len(),
        forall|j: int| kept <= j < text.len() ==> is_brace(text[j]),
        kept == 0 || !is_brace(text[kept - 1]),
    ensures
        without_trailing_braces(text) == text.take(kept),
    decreases text.len() - kept,
{
    if kept == text.len() {
        assert(text.take(kept) =~= text);
    } else {
        trailing_braces_begin(text.drop_last(), kept);
        assert(text.drop_last().take(kept) =~= text.take(kept));
    }
}

fn brace(c: char) -> (found: bool)
    ensures
        found == is_brace(c),
{
    c == '{' || c == '}'
}

/// `text` without the braces at either end.
pub fn trim_braces(text: &str) -> (inner: String)
    ensures
        inner@ == without_braces(text@),
{
    let len: usize = text.unicode_len();
    let mut start: usize = 0;
    while start < len && brace(text.get_char(start))
        invariant
            start <= len,
            len == text@.len(),
            forall|j: int| 0 <= j < start ==> is_brace(text@[j]),
        decreases len - start,
    {
        start = start + 1;
    }
    let mut end: usize = len;
    while end > start && brace(text.get_char(end - 1))
        invariant
            start <= end <= len,
            len == text@.len(),
            forall|j: int| end <= j < len ==> is_brace(text@[j]),
        decreases end,
    {
        end = end - 1;
    }
    proof {
        let rest = text@.skip(start as int);
        leading_braces_end(text@, start as int);
        trailing_braces_begin(rest, end - start);
        assert(rest.take(end - start) =~= text@.subrange(start as int, end as int));
    }
    String::from_str(text.substring_char(start, end))
}

/// `text` with a dot in place of each pair of colons, pairs being taken
/// from the left.
pub open spec fn dotted(text: Seq<char>) -> Seq<char>
    decreases text.len(),
{
    if text.len() == 0 {
        text
    } else if text.len() >= 2 && text[0] == ':' && text[1] == ':' {
        seq!['.'] + dotted(text.skip(2))
    } else {
        seq![text[0]] + dotted(text.skip(1))
    }
}

/// `text` with a dot in place of each pair of colons.
pub fn dot_path(text: &str) -> (path: String)
    ensures
        path@ == dotted(text@),
{
    proof {
        reveal_strlit(".");
    }
    let len: usize = text.unicode_len();
    let mut path: String = String::new();
    let mut i: usize = 0;
    assert(text@.skip(0) =~= text@);
    while i < len
        invariant
            i <= len,
            len == text@.len(),
            "."@ == seq!['.'],
            dotted(text@) == path@ + dotted(text@.skip(i as int)),
        decreases len - i,
    {
        let ghost rest = text@.skip(i as int);
        let ghost before = path@;
        if text.get_char(i) == ':' && i + 1 < len && text.get_char(i + 1) == ':' {
            path.append(".");
            proof {
                assert(rest.skip(2) =~= text@.skip(i + 2));
                assert(path@ + dotted(text@.skip(i + 2)) =~= before + dotted(rest));
            }
            i = i + 2;
        } else {
            path.append(text.substring_char(i, i + 1));
            proof {
                assert(text@.subrange(i as int, i + 1) =~= seq![rest[0]]);
                assert(rest.skip(1) =~= text@.skip(i + 1));
                assert(path@ + dotted(text@.skip(i + 1)) =~= before + dotted(rest));
            }
            i = i + 1;
        }
    }
    assert(path@ + dotted(text@.skip(i as int)) =~= path@);
    path
}

} // verus!
