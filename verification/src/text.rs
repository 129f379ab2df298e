//! Numbers written out as the gateway reads them.
use vstd::prelude::*;
use vstd::string::StringExecFns;

verus! {

/// The digit that stands for `d` in base 16 and below, in lower case.
pub open spec fn digit(d: nat) -> char {
    seq!['0', '1', '2', '3', '4', '5', '6', '7', '8', '9', 'a', 'b', 'c', 'd', 'e', 'f'][d as int]
}

/// `n` in decimal, most significant digit first, without leading zeros; zero is `0`.
pub open spec fn decimal(n: nat) -> Seq<char>
    decreases n,
{
    if n < 10 {
        seq![digit(n)]
    } else {
        decimal(n / 10).push(digit(n % 10))
    }
}

/// `n` in hexadecimal, most significant digit first, in lower case and
/// without leading zeros; zero is `0`.
pub open spec fn hex_digits(n: nat) -> Seq<char>
    decreases n,
{
    if n < 16 {
        seq![digit(n)]
    } else {
        hex_digits(n / 16).push(digit(n % 16))
    }
}

/// `n` in hexadecimal after the prefix `0x`.
pub open spec fn hex(n: nat) -> Seq<char> {
    seq!['0', 'x'] + hex_digits(n)
}

/// The number that `bytes` hold, most significant byte first.
pub open spec fn be_value(bytes: Seq<u8>) -> nat
    decreases bytes.len(),
{
    if bytes.len() == 0 {
        0
    } else {
        be_value(bytes.drop_last()) * 256 + bytes.last() as nat
    }
}

/// The text of one digit.
fn digit_str(d: u8) -> (s: &'static str)
    requires
        d < 16,
    ensures
        s@ == seq![digit(d as nat)],
{
    proof {
        reveal_strlit("0");
        reveal_strlit("1");
        reveal_strlit("2");
        reveal_strlit("3");
        reveal_strlit("4");
        reveal_strlit("5");
        reveal_strlit("6");
        reveal_strlit("7");
        reveal_strlit("8");
        reveal_strlit("9");
        reveal_strlit("a");
        reveal_strlit("b");
        reveal_strlit("c");
        reveal_strlit("d");
        reveal_strlit("e");
        reveal_strlit("f");
    }
    let s = match d {
        0 => "0",
        1 => "1",
        2 => "2",
        3 => "3",
        4 => "4",
        5 => "5",
        6 => "6",
        7 => "7",
        8 => "8",
        9 => "9",
        10 => "a",
        11 => "b",
        12 => "c",
        13 => "d",
        14 => "e",
        _ => "f",
    };
    assert(s@ =~= seq![digit(d as nat)]);
    s
}

/// Writes `n` in decimal.
pub fn to_decimal(n: u64) -> (s: String)
    ensures
        s@ == decimal(n as nat),
{
    let mut rest: u64 = n / 10;
    let mut s = String::from_str(digit_str((n % 10) as u8));
    // `s` holds the digits of `n` below those of `rest`.
    while rest > 0
        invariant
            rest > 0 ==> decimal(n as nat) == decimal(rest as nat) + s@,
            rest == 0 ==> decimal(n as nat) == s@,
        decreases rest,
    {
        let mut t = String::from_str(digit_str((rest % 10) as u8));
        t.append(s.as_str());
        proof {
            let r = rest as nat;
            if r >= 10 {
                assert(decimal(r) + s@ =~= decimal(r / 10) + t@);
            } else {
                assert(decimal(r) + s@ =~= t@);
            }
        }
        s = t;
        rest = rest / 10;
    }
    s
}

/// Writes the number that `bytes` hold, most significant byte first, in
/// hexadecimal after `0x`.
pub fn to_hex(bytes: &[u8]) -> (s: String)
    ensures
        s@ == hex(be_value(bytes@)),
{
    proof {
        reveal_strlit("0x");
    }
    let mut s = String::from_str("0x");
    let mut nonzero = false;
    let mut i: usize = 0;
    while i < bytes.len()
        invariant
            i <= bytes.len(),
            nonzero <==> be_value(bytes@.take(i as int)) > 0,
            nonzero ==> s@ == hex(be_value(bytes@.take(i as int))),
            !nonzero ==> s@ == seq!['0', 'x'],
        decreases bytes.len() - i,
    {
        let b: u8 = bytes[i];
        let high: u8 = b / 16;
        let low: u8 = b % 16;
        proof {
            let v = be_value(bytes@.take(i as int));
            let w = be_value(bytes@.take(i + 1));
            assert(bytes@.take(i + 1).drop_last() =~= bytes@.take(i as int));
            assert(w == v * 256 + b);
            assert(w / 16 == v * 16 + high);
            assert(w % 16 == low as nat);
            assert(w >= 16 ==> hex_digits(w) == hex_digits(w / 16).push(digit(low as nat)));
            if v > 0 {
                let u: nat = v * 16 + high as nat;
                assert(u / 16 == v);
                assert(u % 16 == high as nat);
                assert(hex_digits(u) == hex_digits(v).push(digit(high as nat)));
            } else if high > 0 {
                assert(hex_digits(high as nat) == seq![digit(high as nat)]);
            } else {
                assert(w == low);
            }
        }
        if nonzero || high > 0 {
            s.append(digit_str(high));
            s.append(digit_str(low));
            nonzero = true;
        } else if low > 0 {
            s.append(digit_str(low));
            nonzero = true;
        }
        proof {
            let v = be_value(bytes@.take(i as int));
            let w = be_value(bytes@.take(i + 1));
            if nonzero {
                assert(s@ =~= hex(w));
            }
        }
        i = i + 1;
    }
    if !nonzero {
        s.append(digit_str(0));
    }
    proof {
        assert(bytes@.take(bytes@.len() as int) =~= bytes@);
        assert(s@ =~= hex(be_value(bytes@)));
    }
    s
}

} // verus!
