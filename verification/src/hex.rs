//! Lowercase hexadecimal rendering of fixed-width unsigned values, used
//! for addresses and transaction hashes in responses and messages.

use vstd::prelude::*;
use vstd::string::StringExecFns;

verus! {

/// The lowercase hexadecimal digit for one value below 16.
pub open spec fn hex_digit(n: int) -> char {
    if n < 10 {
        (48 + n) as char
    } else {
        (87 + n) as char
    }
}

/// The last `k` lowercase hexadecimal digits of `v`, most significant
/// first, zero-padded to exactly `k` digits.
pub open spec fn hex_digits_of(v: int, k: nat) -> Seq<char>
    decreases k,
{
    if k == 0 {
        Seq::empty()
    } else {
        hex_digits_of(v / 16, (k - 1) as nat).push(hex_digit(v % 16))
    }
}

pub proof fn lemma_hex_digits_len(v: int, k: nat)
    ensures
        hex_digits_of(v, k).len() == k,
    decreases k,
{
    if k > 0 {
        lemma_hex_digits_len(v / 16, (k - 1) as nat);
    }
}

fn digit_str(d: u128) -> (r: &'static str)
    requires
        d < 16,
    ensures
        r@ =~= seq![hex_digit(d as int)],
{
    if d == 0 {
        proof {
            reveal_strlit("0");
        }
        "0"
    } else if d == 1 {
        proof {
            reveal_strlit("1");
        }
        "1"
    } else if d == 2 {
        proof {
            reveal_strlit("2");
        }
        "2"
    } else if d == 3 {
        proof {
            reveal_strlit("3");
        }
        "3"
    } else if d == 4 {
        proof {
            reveal_strlit("4");
        }
        "4"
    } else if d == 5 {
        proof {
            reveal_strlit("5");
        }
        "5"
    } else if d == 6 {
        proof {
            reveal_strlit("6");
        }
        "6"
    } else if d == 7 {
        proof {
            reveal_strlit("7");
        }
        "7"
    } else if d == 8 {
        proof {
            reveal_strlit("8");
        }
        "8"
    } else if d == 9 {
        proof {
            reveal_strlit("9");
        }
        "9"
    } else if d == 10 {
        proof {
            reveal_strlit("a");
        }
        "a"
    } else if d == 11 {
        proof {
            reveal_strlit("b");
        }
        "b"
    } else if d == 12 {
        proof {
            reveal_strlit("c");
        }
        "c"
    } else if d == 13 {
        proof {
            reveal_strlit("d");
        }
        "d"
    } else if d == 14 {
        proof {
            reveal_strlit("e");
        }
        "e"
    } else {
        proof {
            reveal_strlit("f");
        }
        "f"
    }
}

/// Appends the last `k` hexadecimal digits of `v` to `s`, zero-padded,
/// most significant first.
pub fn push_hex(s: &mut String, v: u128, k: usize)
    ensures
        final(s)@ == old(s)@ + hex_digits_of(v as int, k as nat),
    decreases k,
{
    if k == 0 {
        proof {
            assert(old(s)@ + hex_digits_of(v as int, 0) =~= old(s)@);
        }
    } else {
        push_hex(s, v / 16, k - 1);
        let d = v % 16;
        s.append(digit_str(d));
        proof {
            assert(final(s)@ =~= old(s)@ + hex_digits_of(v as int, k as nat));
        }
    }
}

} // verus!
