//! Finding where a pattern matches in a text. The matching itself is the work
//! of the `regex` crate; this module states what the library relies on.

use vstd::prelude::*;
use vstd::string::*;
use vstd::utf8::*;
use crate::text::on_boundary;

verus! {

/// `regex::Error`, the error with which the crate refuses a pattern. The
/// library hands it on and never looks inside.
#[verifier::external_type_specification]
#[verifier::external_body]
pub struct ExPatternError(regex::Error);

/// The matches of `pattern` in `text`, from left to right, each as the byte
/// offsets of its start and of its end in the UTF-8 form of `text`; nothing
/// where the pattern engine does not accept `pattern`.
pub uninterp spec fn pattern_spans(pattern: Seq<char>, text: Seq<char>) -> Option<
    Seq<(usize, usize)>,
>;

/// Whether `spans` can be cut out of `text` one after the other: each span
/// starts and ends between characters, inside the text, and starts no earlier
/// than the one before it ends.
pub open spec fn spans_fit(text: Seq<char>, spans: Seq<(usize, usize)>) -> bool {
    &&& forall|i: int|
        0 <= i < spans.len() ==> {
            &&& (#[trigger] spans[i]).0 <= spans[i].1 <= encode_utf8(text).len()
            &&& on_boundary(text, spans[i].0 as int)
            &&& on_boundary(text, spans[i].1 as int)
        }
    &&& forall|i: int, j: int|
        0 <= i < j < spans.len() ==> (#[trigger] spans[i]).1 <= (#[trigger] spans[j]).0
}

/// Compiles `pattern` with `regex::Regex::new` and walks `text` with
/// `Regex::find_iter`, keeping of each match its start and its end.
///
/// The contract gives the outcome its name and repeats what the crate
/// documents of every match: its start is no later than its end, both fall
/// between characters of the searched text, and the matches come one after
/// the other without overlap.
#[verifier::external_body]
pub(crate) fn find_spans(pattern: &str, text: &str) -> (found: Result<
    Vec<(usize, usize)>,
    regex::Error,
>)
    ensures
        match found {
            Ok(spans) => pattern_spans(pattern@, text@) == Some(spans@) && spans_fit(
                text@,
                spans@,
            ),
            Err(_) => pattern_spans(pattern@, text@) is None,
        },
{
    let re = regex::Regex::new(pattern)?;
    Ok(re.find_iter(text).map(|m| (m.start(), m.end())).collect())
}

/// Tells whether `spans` can be cut out of `text` one after the other.
pub fn check_spans(text: &str, spans: &Vec<(usize, usize)>) -> (fit: bool)
    ensures
        fit == spans_fit(text@, spans@),
{
    let len = text.as_bytes().len();
    let mut last: usize = 0;
    let mut i: usize = 0;
    while i < spans.len()
        invariant
            i <= spans.len(),
            len == encode_utf8(text@).len(),
            spans_fit(text@, spans@.take(i as int)),
            i > 0 ==> last == spans@[i - 1].1,
        decreases spans.len() - i,
    {
        let (start, end) = spans[i];
        if start > end || end > len || !text.is_char_boundary(start) || !text.is_char_boundary(end)
            || (i > 0 && last > start) {
            proof {
                if spans_fit(text@, spans@) {
                    assert(spans@[i as int] == (start, end));
                    if i > 0 {
                        assert(spans@[i - 1].1 <= spans@[i as int].0);
                    }
                }
            }
            return false;
        }
        proof {
            let before = spans@.take(i as int);
            let now = spans@.take(i + 1);
            assert forall|a: int, b: int| 0 <= a < b < now.len() implies (#[trigger] now[a]).1 <= (
            #[trigger] now[b]).0 by {
                if b < i {
                    assert(before[a] == now[a] && before[b] == now[b]);
                } else if a < i - 1 {
                    assert(before[a] == now[a] && before[i - 1] == now[i - 1]);
                    assert(before[a].1 <= before[i - 1].0);
                }
            }
            assert forall|a: int| 0 <= a < now.len() implies {
                &&& (#[trigger] now[a]).0 <= now[a].1 <= encode_utf8(text@).len()
                &&& on_boundary(text@, now[a].0 as int)
                &&& on_boundary(text@, now[a].1 as int)
            } by {
                if a < i {
                    assert(before[a] == now[a]);
                }
            }
        }
        last = end;
        i += 1;
    }
    proof {
        assert(spans@.take(i as int) =~= spans@);
    }
    true
}

} // verus!
