//! Small text helpers.

use vstd::prelude::*;
use vstd::string::StringExecFns;
use vstd::utf8::encode_utf8;
use vstd::utf8::valid_utf8;

verus! {

/// Whether two texts are the same.
pub fn same_text(a: &str, b: &str) -> (r: bool)
    ensures
        r == (a@ == b@),
{
    a.to_owned() == b.to_owned()
}

/// `std::str::from_utf8`: the text that these bytes encode, where they are
/// valid UTF-8.
#[verifier::external_body]
pub(crate) fn utf8_text(bytes: &[u8]) -> (r: Option<String>)
    ensures
        match r {
            Some(s) => valid_utf8(bytes@) && encode_utf8(s@) == bytes@,
            None => !valid_utf8(bytes@),
        },
{
    match std::str::from_utf8(bytes) {
        Ok(s) => Some(s.to_owned()),
        Err(_) => None,
    }
}

pub open spec fn digit(d: int) -> char {
    if d == 0 {
        '0'
    } else if d == 1 {
        '1'
    } else if d == 2 {
        '2'
    } else if d == 3 {
        '3'
    } else if d == 4 {
        '4'
    } else if d == 5 {
        '5'
    } else if d == 6 {
        '6'
    } else if d == 7 {
        '7'
    } else if d == 8 {
        '8'
    } else {
        '9'
    }
}

/// A number in decimal, without leading zeros.
pub open spec fn decimal_of(n: nat) -> Seq<char>
    decreases n,
{
    if n < 10 {
        seq![digit(n as int)]
    } else {
        decimal_of(n / 10).push(digit((n % 10) as int))
    }
}

fn digit_text(d: u32) -> (r: &'static str)
    requires
        d < 10,
    ensures
        r@ == seq![digit(d as int)],
{
    proof {
        reveal_strlit("0");
        reveal_strlit("1");
        reveal_strlit("2");
        reveal_strlit("3");
        reveal_strlit("4");
        reveal_strlit("5");
        reveal_strlit("6");
        reveal_strlit("7");
        reveal_strlit("8");
        reveal_strlit("9");
    }
    let r = match d {
        0 => "0",
        1 => "1",
        2 => "2",
        3 => "3",
        4 => "4",
        5 => "5",
        6 => "6",
        7 => "7",
        8 => "8",
        _ => "9",
    };
    assert(r@ =~= seq![digit(d as int)]);
    r
}

/// A number in decimal.
pub fn decimal(n: u32) -> (r: String)
    ensures
        r@ == decimal_of(n as nat),
    decreases n,
{
    if n < 10 {
        let r = digit_text(n).to_owned();
        r
    } else {
        let mut r = decimal(n / 10);
        let ghost before = r@;
        r.append(digit_text(n % 10));
        assert(r@ =~= before.push(digit((n % 10) as int)));
        r
    }
}

/// A signed number in decimal.
pub open spec fn signed_decimal_of(n: int) -> Seq<char> {
    if n < 0 {
        seq!['-'] + decimal_of((-n) as nat)
    } else {
        decimal_of(n as nat)
    }
}

pub fn signed_decimal(n: i32) -> (r: String)
    ensures
        r@ == signed_decimal_of(n as int),
{
    if n < 0 {
        let magnitude: u32 = (-(n as i64)) as u32;
        proof {
            reveal_strlit("-");
        }
        let mut r = "-".to_owned();
        let digits = decimal(magnitude);
        r.append(digits.as_str());
        assert(r@ =~= seq!['-'] + decimal_of(magnitude as nat));
        r
    } else {
        decimal(n as u32)
    }
}

/// The number that decimal digits stand for.
pub open spec fn number_in(s: Seq<char>) -> int
    decreases s.len(),
{
    if s.len() == 0 {
        0
    } else {
        10 * number_in(s.drop_last()) + (s.last() as u32 - 48)
    }
}

proof fn decimal_reads_back(n: nat)
    ensures
        number_in(decimal_of(n)) == n,
        decimal_of(n).len() >= 1,
        forall|i: int|
            #![trigger decimal_of(n)[i]]
            0 <= i < decimal_of(n).len() ==> 48 <= decimal_of(n)[i] as u32 <= 57,
        decimal_of(n)[0] == '0' ==> decimal_of(n).len() == 1,
    decreases n,
{
    let s = decimal_of(n);
    reveal_with_fuel(number_in, 2);
    if n < 10 {
        assert(s.drop_last() =~= Seq::empty());
    } else {
        decimal_reads_back(n / 10);
        assert(s.drop_last() =~= decimal_of(n / 10));
        assert(s[0] == decimal_of(n / 10)[0]);
        assert forall|i: int| #![trigger s[i]] 0 <= i < s.len() implies 48 <= s[i] as u32
            <= 57 by {
            if i < s.len() - 1 {
                assert(s[i] == decimal_of(n / 10)[i]);
            }
        }
        if n / 10 < 10 {
            assert(s[0] == digit((n / 10) as int));
        }
    }
}

/// A number's text is made of digits, the first of them no needless zero, and
/// stands for the number; below zero a minus sign comes first.
pub proof fn text_stands_for_its_number(n: u32, r: String, m: i32, s: String)
    requires
        call_ensures(decimal, (n,), r),
        call_ensures(signed_decimal, (m,), s),
    ensures
        number_in(r@) == n,
        r@.len() >= 1,
        forall|i: int| #![trigger r@[i]] 0 <= i < r@.len() ==> 48 <= r@[i] as u32 <= 57,
        r@[0] == '0' ==> r@.len() == 1,
        m >= 0 ==> number_in(s@) == m && s@[0] != '-',
        m < 0 ==> s@[0] == '-' && number_in(s@.drop_first()) == -m,
        s@.len() >= 1,
        s@.last() != '-',
{
    decimal_reads_back(n as nat);
    let a: nat = if m < 0 {
        (-m) as nat
    } else {
        m as nat
    };
    decimal_reads_back(a);
    if m < 0 {
        assert(s@.drop_first() =~= decimal_of(a));
        assert(s@.last() == decimal_of(a).last());
    }
}

/// Texts are the same where all their characters are.
pub proof fn same_text_is_the_same(a: &str, b: &str, r: bool)
    requires
        call_ensures(same_text, (a, b), r),
    ensures
        r <==> a@.len() == b@.len() && forall|i: int|
            #![trigger a@[i]]
            0 <= i < a@.len() ==> a@[i] == b@[i],
{
    if a@.len() == b@.len() && (forall|i: int|
        #![trigger a@[i]]
        0 <= i < a@.len() ==> a@[i] == b@[i]) {
        assert(a@ =~= b@);
    }
}

} // verus!
