//! Lowercase hexadecimal rendering of byte strings.

use vstd::prelude::*;
use vstd::string::*;

verus! {

/// The lowercase hexadecimal digit that stands for `n`, for `n` below 16.
pub open spec fn hex_digit(n: int) -> char {
    if n == 0 {
        '0'
    } else if n == 1 {
        '1'
    } else if n == 2 {
        '2'
    } else if n == 3 {
        '3'
    } else if n == 4 {
        '4'
    } else if n == 5 {
        '5'
    } else if n == 6 {
        '6'
    } else if n == 7 {
        '7'
    } else if n == 8 {
        '8'
    } else if n == 9 {
        '9'
    } else if n == 10 {
        'a'
    } else if n == 11 {
        'b'
    } else if n == 12 {
        'c'
    } else if n == 13 {
        'd'
    } else if n == 14 {
        'e'
    } else {
        'f'
    }
}

/// The digit at position `k` of the rendering of `bytes`: the high half of a
/// byte comes first, then its low half.
pub open spec fn hex_at(bytes: Seq<u8>, k: int) -> char {
    if k % 2 == 0 {
        hex_digit(bytes[k / 2] as int / 16)
    } else {
        hex_digit(bytes[k / 2] as int % 16)
    }
}

/// `bytes` written as lowercase hexadecimal, two digits for each byte.
pub open spec fn hex_lower(bytes: Seq<u8>) -> Seq<char> {
    Seq::new(2 * bytes.len(), |k: int| hex_at(bytes, k))
}

/// Whether `c` is one of the sixteen lowercase hexadecimal digits.
pub open spec fn is_lower_hex_digit(c: char) -> bool {
    ('0' <= c && c <= '9') || ('a' <= c && c <= 'f')
}

fn digit_text(n: u8) -> (text: &'static str)
    requires
        n < 16,
    ensures
        text@ == seq![hex_digit(n as int)],
{
    proof {
        reveal_strlit("0");
        reveal_strlit("1");
        reveal_strlit("2");
        reveal_strlit("3");
        reveal_strlit("4");
        reveal_strlit("5");
        reveal_strlit("6");
        reveal_strlit("7");
        reveal_strlit("8");
        reveal_strlit("9");
        reveal_strlit("a");
        reveal_strlit("b");
        reveal_strlit("c");
        reveal_strlit("d");
        reveal_strlit("e");
        reveal_strlit("f");
    }
    let text = if n == 0 {
        "0"
    } else if n == 1 {
        "1"
    } else if n == 2 {
        "2"
    } else if n == 3 {
        "3"
    } else if n == 4 {
        "4"
    } else if n == 5 {
        "5"
    } else if n == 6 {
        "6"
    } else if n == 7 {
        "7"
    } else if n == 8 {
        "8"
    } else if n == 9 {
        "9"
    } else if n == 10 {
        "a"
    } else if n == 11 {
        "b"
    } else if n == 12 {
        "c"
    } else if n == 13 {
        "d"
    } else if n == 14 {
        "e"
    } else {
        "f"
    };
    text
}

/// Renders `bytes` as lowercase hexadecimal.
pub fn to_hex(bytes: &[u8]) -> (text: String)
    ensures
        text@ == hex_lower(bytes@),
{
    let mut text = String::new();
    let mut i: usize = 0;
    while i < bytes.len()
        invariant
            i <= bytes.len(),
            text@.len() == 2 * i,
            forall|k: int| 0 <= k < 2 * i ==> text@[k] == hex_at(bytes@, k),
        decreases bytes.len() - i,
    {
        let b: u8 = bytes[i];
        let ghost before = text@;
        text.append(digit_text(b / 16));
        text.append(digit_text(b % 16));
        assert(text@ =~= before.push(hex_digit(b as int / 16)).push(hex_digit(b as int % 16)));
        assert forall|k: int| 0 <= k < 2 * (i + 1) implies text@[k] == hex_at(bytes@, k) by {
            if k < 2 * i {
                assert(text@[k] == before[k]);
            }
        }
        i = i + 1;
    }
    assert(text@ =~= hex_lower(bytes@));
    text
}

/// Every rendering is twice as long as its bytes and holds lowercase
/// hexadecimal digits only.
pub proof fn lemma_hex_lower_shape(bytes: Seq<u8>)
    ensures
        hex_lower(bytes).len() == 2 * bytes.len(),
        forall|k: int|
            0 <= k < 2 * bytes.len() ==> is_lower_hex_digit(#[trigger] hex_lower(bytes)[k]),
{
    assert forall|k: int| 0 <= k < 2 * bytes.len() implies is_lower_hex_digit(
        #[trigger] hex_lower(bytes)[k],
    ) by {
        let b = bytes[k / 2];
        assert(0 <= b as int / 16 < 16);
        assert(0 <= b as int % 16 < 16);
    }
}

} // verus!
