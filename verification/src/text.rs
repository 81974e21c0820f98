//! Small helpers on text that the other modules share.

use vstd::prelude::*;

verus! {

/// Whether two strings hold the same characters.
pub fn same_text(a: &str, b: &str) -> (r: bool)
    ensures
        r == (a@ == b@),
{
    let left: String = a.to_owned();
    let right: String = b.to_owned();
    left == right
}

/// Whether `text` starts with `prefix`, character for character.
pub open spec fn starts_with(text: Seq<char>, prefix: Seq<char>) -> bool {
    prefix.len() <= text.len() && text.subrange(0, prefix.len() as int) == prefix
}

/// Splits `prefix` off the front of `text`: the rest, or `None` where `text`
/// does not start with it.
pub fn strip_prefix<'a>(text: &'a str, prefix: &str) -> (r: Option<&'a str>)
    ensures
        match r {
            Some(rest) => starts_with(text@, prefix@) && text@ == prefix@ + rest@,
            None => !starts_with(text@, prefix@),
        },
{
    let text_len: usize = text.unicode_len();
    let prefix_len: usize = prefix.unicode_len();
    if prefix_len > text_len {
        return None;
    }
    let head: &str = text.substring_char(0, prefix_len);
    if same_text(head, prefix) {
        let rest: &str = text.substring_char(prefix_len, text_len);
        assert(text@ == prefix@ + rest@) by {
            assert(text@ =~= text@.subrange(0, prefix_len as int) + text@.subrange(
                prefix_len as int,
                text_len as int,
            ));
        }
        Some(rest)
    } else {
        None
    }
}

} // verus!
