use vstd::prelude::*;
use vstd::arithmetic::div_mod::lemma_div_decreases;
use vstd::string::*;

verus! {

/// The character for one decimal digit.
pub open spec fn digit_char(d: int) -> char {
    if d == 0 {
        '0'
    } else if d == 1 {
        '1'
    } else if d == 2 {
        '2'
    } else if d == 3 {
        '3'
    } else if d == 4 {
        '4'
    } else if d == 5 {
        '5'
    } else if d == 6 {
        '6'
    } else if d == 7 {
        '7'
    } else if d == 8 {
        '8'
    } else {
        '9'
    }
}

/// The decimal digit string of `n`, without leading zeros.
pub open spec fn dec_str(n: nat) -> Seq<char>
    decreases n,
{
    if n < 10 {
        seq![digit_char(n as int)]
    } else {
        dec_str(n / 10) + seq![digit_char((n % 10) as int)]
    }
}

/// The two-character zero-padded form used for months and days.
pub open spec fn pad2(n: nat) -> Seq<char> {
    if n < 10 {
        seq!['0'] + seq![digit_char(n as int)]
    } else {
        dec_str(n)
    }
}

/// The numeric value of a digit character; ten for anything else.
pub open spec fn digit_val_spec(c: char) -> int {
    if c == '0' {
        0
    } else if c == '1' {
        1
    } else if c == '2' {
        2
    } else if c == '3' {
        3
    } else if c == '4' {
        4
    } else if c == '5' {
        5
    } else if c == '6' {
        6
    } else if c == '7' {
        7
    } else if c == '8' {
        8
    } else if c == '9' {
        9
    } else {
        10
    }
}

pub open spec fn is_digit_char(c: char) -> bool {
    digit_val_spec(c) < 10
}

/// The value of a digit run, most significant first.
pub open spec fn digits_val(s: Seq<char>) -> int
    decreases s.len(),
{
    if s.len() == 0 {
        0
    } else {
        digits_val(s.drop_last()) * 10 + digit_val_spec(s.last())
    }
}

/// Every character of `dec_str(n)` is a digit, and the run reads back as
/// `n`.
pub proof fn lemma_dec_str_digits(n: nat)
    ensures
        dec_str(n).len() >= 1,
        forall|i: int| 0 <= i < dec_str(n).len() ==> is_digit_char(#[trigger] dec_str(n)[i]),
        digits_val(dec_str(n)) == n,
    decreases n,
{
    if n < 10 {
        assert(dec_str(n) =~= seq![digit_char(n as int)]);
        assert(dec_str(n).drop_last() =~= Seq::<char>::empty());
        assert(digits_val(Seq::<char>::empty()) == 0);
    } else {
        lemma_dec_str_digits(n / 10);
        let prefix = dec_str(n / 10);
        let whole = dec_str(n);
        assert(whole =~= prefix + seq![digit_char((n % 10) as int)]);
        assert(whole.drop_last() =~= prefix);
        assert(whole.last() == digit_char((n % 10) as int));
        assert forall|i: int| 0 <= i < whole.len() implies is_digit_char(#[trigger] whole[i]) by {
            if i < prefix.len() {
                assert(whole[i] == prefix[i]);
            }
        }
    }
}

/// Both characters of `pad2(n)` are digits, and the pair reads back as `n`.
pub proof fn lemma_pad2_digits(n: nat)
    requires
        n < 100,
    ensures
        pad2(n).len() == 2,
        forall|i: int| 0 <= i < 2 ==> is_digit_char(#[trigger] pad2(n)[i]),
        digits_val(pad2(n)) == n,
{
    if n < 10 {
        assert(pad2(n) =~= seq!['0', digit_char(n as int)]);
        assert(pad2(n).drop_last() =~= seq!['0']);
        assert(seq!['0'].drop_last() =~= Seq::<char>::empty());
        assert(digits_val(Seq::<char>::empty()) == 0);
        assert(digits_val(seq!['0']) == 0);
    } else {
        lemma_dec_str_digits(n);
        let tens = dec_str(n / 10);
        assert(tens =~= seq![digit_char((n / 10) as int)]);
        assert(pad2(n) =~= tens + seq![digit_char((n % 10) as int)]);
    }
}

/// The one-character string for a decimal digit.
pub fn digit_str(d: u8) -> (s: &'static str)
    requires
        d < 10,
    ensures
        s@ == seq![digit_char(d as int)],
{
    match d {
        0 => {
            proof { reveal_strlit("0"); }
            let s = "0";
            assert(s@ =~= seq![digit_char(0)]);
            s
        },
        1 => {
            proof { reveal_strlit("1"); }
            let s = "1";
            assert(s@ =~= seq![digit_char(1)]);
            s
        },
        2 => {
            proof { reveal_strlit("2"); }
            let s = "2";
            assert(s@ =~= seq![digit_char(2)]);
            s
        },
        3 => {
            proof { reveal_strlit("3"); }
            let s = "3";
            assert(s@ =~= seq![digit_char(3)]);
            s
        },
        4 => {
            proof { reveal_strlit("4"); }
            let s = "4";
            assert(s@ =~= seq![digit_char(4)]);
            s
        },
        5 => {
            proof { reveal_strlit("5"); }
            let s = "5";
            assert(s@ =~= seq![digit_char(5)]);
            s
        },
        6 => {
            proof { reveal_strlit("6"); }
            let s = "6";
            assert(s@ =~= seq![digit_char(6)]);
            s
        },
        7 => {
            proof { reveal_strlit("7"); }
            let s = "7";
            assert(s@ =~= seq![digit_char(7)]);
            s
        },
        8 => {
            proof { reveal_strlit("8"); }
            let s = "8";
            assert(s@ =~= seq![digit_char(8)]);
            s
        },
        _ => {
            proof { reveal_strlit("9"); }
            let s = "9";
            assert(s@ =~= seq![digit_char(9)]);
            s
        },
    }
}

/// Renders `n` in decimal, matching `dec_str`.
pub fn u128_to_string(n: u128) -> (s: String)
    ensures
        s@ == dec_str(n as nat),
    decreases n,
{
    if n < 10 {
        let s = digit_str(n as u8).to_owned();
        assert(s@ =~= dec_str(n as nat));
        s
    } else {
        proof {
            lemma_div_decreases(n as int, 10);
        }
        let mut s = u128_to_string(n / 10);
        s.append(digit_str((n % 10) as u8));
        assert(s@ =~= dec_str(n as nat));
        s
    }
}

/// Renders `n` as exactly two digits when `n < 100`, zero-padding a single
/// digit, matching `pad2`.
pub fn two_digit_string(n: u8) -> (s: String)
    requires
        n < 100,
    ensures
        s@ == pad2(n as nat),
{
    if n < 10 {
        proof { reveal_strlit("0"); }
        let mut s = "0".to_owned();
        assert(s@ =~= seq!['0']);
        s.append(digit_str(n));
        assert(s@ =~= pad2(n as nat));
        s
    } else {
        let s = u128_to_string(n as u128);
        s
    }
}

} // verus!
