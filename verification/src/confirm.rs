//! Reading the operator's answer to a yes/no question.

use vstd::prelude::*;
use vstd::string::*;

verus! {

/// Whether `c` is white space: a character with the Unicode property
/// `White_Space`.
pub open spec fn is_space(c: char) -> bool {
    ||| ('\u{9}' <= c && c <= '\u{d}')
    ||| c == ' '
    ||| c == '\u{85}'
    ||| c == '\u{a0}'
    ||| c == '\u{1680}'
    ||| ('\u{2000}' <= c && c <= '\u{200a}')
    ||| c == '\u{2028}'
    ||| c == '\u{2029}'
    ||| c == '\u{202f}'
    ||| c == '\u{205f}'
    ||| c == '\u{3000}'
}

/// Whether `answer` says yes: it is the letter `y`, of either case, with
/// nothing but white space before and after it. The empty answer says no.
pub open spec fn says_yes(answer: Seq<char>) -> bool {
    exists|i: int|
        0 <= i < answer.len() && (#[trigger] answer[i] == 'y' || answer[i] == 'Y') && forall|j: int|
            0 <= j < answer.len() && j != i ==> is_space(#[trigger] answer[j])
}

fn space_char(c: char) -> (b: bool)
    ensures
        b == is_space(c),
{
    ('\u{9}' <= c && c <= '\u{d}') || c == ' ' || c == '\u{85}' || c == '\u{a0}' || c == '\u{1680}'
        || ('\u{2000}' <= c && c <= '\u{200a}') || c == '\u{2028}' || c == '\u{2029}' || c
        == '\u{202f}' || c == '\u{205f}' || c == '\u{3000}'
}

/// Decides whether the operator's answer is a yes. Only `y` or `Y`,
/// surrounded by any amount of white space, is one.
pub fn is_affirmative(answer: &str) -> (yes: bool)
    ensures
        yes == says_yes(answer@),
{
    let n = answer.unicode_len();
    let mut seen: bool = false;
    let ghost mut at: int = 0;
    let mut i: usize = 0;
    while i < n
        invariant
            i <= n,
            n == answer@.len(),
            seen ==> 0 <= at < i && (answer@[at] == 'y' || answer@[at] == 'Y'),
            forall|j: int| 0 <= j < i && !(seen && j == at) ==> is_space(#[trigger] answer@[j]),
        decreases n - i,
    {
        let c = answer.get_char(i);
        if !space_char(c) {
            if seen || !(c == 'y' || c == 'Y') {
                proof {
                    // Whichever place might hold the one `y`, this character
                    // or the `y` seen before stands beside it and is no
                    // white space.
                    let k = i as int;
                    assert forall|w: int|
                        0 <= w < answer@.len() && (#[trigger] answer@[w] == 'y' || answer@[w]
                            == 'Y') implies !(forall|j: int|
                        0 <= j < answer@.len() && j != w ==> is_space(#[trigger] answer@[j])) by {
                        if w != k {
                            assert(!is_space(answer@[k]));
                        } else {
                            assert(!is_space(answer@[at]));
                        }
                    }
                }
                return false;
            }
            seen = true;
            proof {
                at = i as int;
            }
        }
        i = i + 1;
    }
    proof {
        if !seen {
            assert forall|w: int| 0 <= w < answer@.len() implies !(#[trigger] answer@[w] == 'y'
                || answer@[w] == 'Y') by {
                assert(is_space(answer@[w]));
            }
        }
    }
    seen
}

} // verus!
