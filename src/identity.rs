//! Identities as printable keys.
use vstd::prelude::*;
use vstd::string::StringExecFns;

use crate::service::OhMyChess;

verus! {

pub open spec fn hex_digits() -> Seq<char> {
    seq!['0', '1', '2', '3', '4', '5', '6', '7', '8', '9', 'a', 'b', 'c', 'd', 'e', 'f']
}

/// A byte as two lower-case hexadecimal digits.
pub open spec fn hex_of_byte(b: u8) -> Seq<char> {
    seq![hex_digits()[b as int / 16], hex_digits()[b as int % 16]]
}

/// The bytes in hexadecimal, two digits each, separated by `-`.
pub open spec fn hex_joined(bytes: Seq<u8>) -> Seq<char>
    decreases bytes.len(),
{
    if bytes.len() == 0 {
        Seq::empty()
    } else if bytes.len() == 1 {
        hex_of_byte(bytes[0])
    } else {
        hex_joined(bytes.drop_last()) + seq!['-'] + hex_of_byte(bytes.last())
    }
}

fn hex_digit(d: u8) -> (r: &'static str)
    requires
        d < 16,
    ensures
        r@ == seq![hex_digits()[d as int]],
{
    proof {
        reveal_strlit("0");
        reveal_strlit("1");
        reveal_strlit("2");
        reveal_strlit("3");
        reveal_strlit("4");
        reveal_strlit("5");
        reveal_strlit("6");
        reveal_strlit("7");
        reveal_strlit("8");
        reveal_strlit("9");
        reveal_strlit("a");
        reveal_strlit("b");
        reveal_strlit("c");
        reveal_strlit("d");
        reveal_strlit("e");
        reveal_strlit("f");
    }
    let r = match d {
        0 => "0",
        1 => "1",
        2 => "2",
        3 => "3",
        4 => "4",
        5 => "5",
        6 => "6",
        7 => "7",
        8 => "8",
        9 => "9",
        10 => "a",
        11 => "b",
        12 => "c",
        13 => "d",
        14 => "e",
        _ => "f",
    };
    assert(r@ =~= seq![hex_digits()[d as int]]);
    r
}

impl OhMyChess {
    /// An identity as the key of its session index: each byte as two
    /// lower-case hexadecimal digits, separated by `-`.
    pub fn bytes_to_hex_string(bytes: [u8; 32]) -> (r: String)
        ensures
            r@ == hex_joined(bytes@),
    {
        let mut s = String::from_str("");
        proof {
            reveal_strlit("");
            assert(bytes@.take(0) =~= Seq::<u8>::empty());
        }
        let mut i: usize = 0;
        while i < 32
            invariant
                i <= 32,
                s@ == hex_joined(bytes@.take(i as int)),
            decreases 32 - i,
        {
            let ghost before = s@;
            proof {
                reveal_strlit("-");
            }
            if i > 0 {
                s.append("-");
            }
            let ghost sep = s@;
            let b = bytes[i];
            s.append(hex_digit(b / 16));
            s.append(hex_digit(b % 16));
            assert(s@ =~= sep + hex_of_byte(b));
            proof {
                let next = bytes@.take(i + 1);
                assert(next.drop_last() =~= bytes@.take(i as int));
                assert(next.last() == b);
                if i == 0 {
                    assert(s@ =~= hex_of_byte(b));
                } else {
                    assert(sep =~= before + seq!['-']);
                    assert(s@ =~= hex_joined(bytes@.take(i as int)) + seq!['-'] + hex_of_byte(b));
                }
            }
            i += 1;
        }
        assert(bytes@.take(32) =~= bytes@);
        s
    }
}

} // verus!
