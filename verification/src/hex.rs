//! Bytes written out in hexadecimal, for messages to a person.

use vstd::prelude::*;
use vstd::string::StringExecFns;

verus! {

/// The sixteen hexadecimal digits, capitals for ten to fifteen.
pub open spec fn hex_digits() -> Seq<char> {
    seq!['0', '1', '2', '3', '4', '5', '6', '7', '8', '9', 'A', 'B', 'C', 'D', 'E', 'F']
}

/// The two digits of one byte, high digit first.
pub open spec fn hex_byte(b: u8) -> Seq<char> {
    seq![hex_digits()[b as int / 16], hex_digits()[b as int % 16]]
}

/// The bytes of `s`, two digits each, with `", 0x"` between one byte and
/// the next.
pub open spec fn hex_list(s: Seq<u8>) -> Seq<char>
    decreases s.len(),
{
    if s.len() == 0 {
        Seq::<char>::empty()
    } else if s.len() == 1 {
        hex_byte(s[0])
    } else {
        hex_list(s.drop_last()) + seq![',', ' ', '0', 'x'] + hex_byte(s.last())
    }
}

/// What `hexstring` writes for `s`: `"0x"`, then the list of its bytes.
pub open spec fn hexstring_of(s: Seq<u8>) -> Seq<char> {
    seq!['0', 'x'] + hex_list(s)
}

/// The hexadecimal digit for `n`.
fn digit(n: u8) -> (d: &'static str)
    requires
        n < 16,
    ensures
        d@ == seq![hex_digits()[n as int]],
{
    proof {
        reveal_strlit("0");
        reveal_strlit("1");
        reveal_strlit("2");
        reveal_strlit("3");
        reveal_strlit("4");
        reveal_strlit("5");
        reveal_strlit("6");
        reveal_strlit("7");
        reveal_strlit("8");
        reveal_strlit("9");
        reveal_strlit("A");
        reveal_strlit("B");
        reveal_strlit("C");
        reveal_strlit("D");
        reveal_strlit("E");
        reveal_strlit("F");
    }
    let d: &'static str = if n == 0 {
        "0"
    } else if n == 1 {
        "1"
    } else if n == 2 {
        "2"
    } else if n == 3 {
        "3"
    } else if n == 4 {
        "4"
    } else if n == 5 {
        "5"
    } else if n == 6 {
        "6"
    } else if n == 7 {
        "7"
    } else if n == 8 {
        "8"
    } else if n == 9 {
        "9"
    } else if n == 10 {
        "A"
    } else if n == 11 {
        "B"
    } else if n == 12 {
        "C"
    } else if n == 13 {
        "D"
    } else if n == 14 {
        "E"
    } else {
        "F"
    };
    assert(d@ =~= seq![hex_digits()[n as int]]);
    d
}

/// Writes `slice` as `0x` and two capital hexadecimal digits per byte,
/// the bytes parted by a comma and a blank: `0x0A, 0xFF`. An empty slice
/// gives `0x` alone.
pub fn hexstring(slice: &[u8]) -> (out: String)
    ensures
        out@ == hexstring_of(slice@),
{
    proof {
        reveal_strlit("0x");
        reveal_strlit(", 0x");
    }
    let mut out: String = String::from_str("0x");
    assert(out@ =~= seq!['0', 'x']);
    assert(", 0x"@ =~= seq![',', ' ', '0', 'x']);
    let mut i: usize = 0;
    assert(slice@.subrange(0, 0) =~= Seq::<u8>::empty());
    while i < slice.len()
        invariant
            i <= slice@.len(),
            ", 0x"@ == seq![',', ' ', '0', 'x'],
            out@ == hexstring_of(slice@.subrange(0, i as int)),
        decreases slice@.len() - i,
    {
        let b: u8 = slice[i];
        let ghost done = slice@.subrange(0, i as int);
        let ghost next = slice@.subrange(0, i + 1);
        assert(next.drop_last() =~= done);
        assert(next.last() == b);
        if i > 0 {
            out.append(", 0x");
        }
        out.append(digit(b / 16));
        out.append(digit(b % 16));
        assert(out@ =~= hexstring_of(next)) by {
            if i == 0 {
                assert(hex_list(done) =~= Seq::<char>::empty());
                assert(next[0] == b);
            }
        }
        i = i + 1;
    }
    assert(slice@.subrange(0, i as int) =~= slice@);
    out
}

} // verus!
