//! Text pieces: decimal numerals, concatenation and the command line argument.
use vstd::prelude::*;

verus! {

/// The character of a decimal digit.
pub open spec fn digit_char(d: int) -> char {
    (48 + d) as char
}

/// The decimal numeral of a natural number, without leading zeros.
pub open spec fn decimal_nat(n: nat) -> Seq<char>
    decreases n,
{
    if n < 10 {
        seq![digit_char(n as int)]
    } else {
        decimal_nat(n / 10).push(digit_char((n % 10) as int))
    }
}

/// The decimal numeral of an integer: a minus sign stands before a negative one.
pub open spec fn decimal_int(n: int) -> Seq<char> {
    if n < 0 {
        seq!['-'] + decimal_nat((-n) as nat)
    } else {
        decimal_nat(n as nat)
    }
}

/// The numeral of one digit.
fn digit_str(d: u64) -> (s: &'static str)
    requires
        d < 10,
    ensures
        s@ == seq![digit_char(d as int)],
{
    proof {
        reveal_strlit("0");
        reveal_strlit("1");
        reveal_strlit("2");
        reveal_strlit("3");
        reveal_strlit("4");
        reveal_strlit("5");
        reveal_strlit("6");
        reveal_strlit("7");
        reveal_strlit("8");
        reveal_strlit("9");
    }
    match d {
        0 => "0",
        1 => "1",
        2 => "2",
        3 => "3",
        4 => "4",
        5 => "5",
        6 => "6",
        7 => "7",
        8 => "8",
        _ => "9",
    }
}

/// Writes a natural number in decimal.
pub fn decimal_u64(n: u64) -> (s: String)
    ensures
        s@ == decimal_nat(n as nat),
    decreases n,
{
    if n < 10 {
        digit_str(n).to_owned()
    } else {
        let mut s = decimal_u64(n / 10);
        s.append(digit_str(n % 10));
        s
    }
}

/// Writes an integer in decimal.
pub fn decimal_i64(n: i64) -> (s: String)
    ensures
        s@ == decimal_int(n as int),
{
    if n < 0 {
        proof {
            reveal_strlit("-");
        }
        let mut s = "-".to_owned();
        let magnitude: u64 = (-(n as i128)) as u64;
        let digits = decimal_u64(magnitude);
        s.append(digits.as_str());
        s
    } else {
        decimal_u64(n as u64)
    }
}

/// Puts two texts one after the other.
pub fn joined(head: &str, tail: &str) -> (s: String)
    ensures
        s@ == head@ + tail@,
{
    let mut s = head.to_owned();
    s.append(tail);
    s
}

/// The last argument after the program's name, empty if there is none.
pub open spec fn last_argument(args: Seq<Seq<char>>) -> Seq<char> {
    if args.len() >= 2 {
        args.last()
    } else {
        Seq::empty()
    }
}

/// Picks the path of the shared buffer from the command line, whose first entry
/// is the program's name.
pub fn shared_path(args: &Vec<String>) -> (path: String)
    ensures
        path@ == last_argument(args@.map_values(|a: String| a@)),
{
    if args.len() >= 2 {
        args[args.len() - 1].clone()
    } else {
        String::new()
    }
}

/// Different numbers have different numerals.
pub proof fn lemma_decimal_nat_injective(m: nat, n: nat)
    requires
        decimal_nat(m) == decimal_nat(n),
    ensures
        m == n,
    decreases m,
{
    lemma_decimal_nat_shape(m);
    lemma_decimal_nat_shape(n);
    assert(decimal_nat(m).last() == decimal_nat(n).last());
    if m >= 10 && n >= 10 {
        assert(decimal_nat(m).drop_last() =~= decimal_nat(m / 10));
        assert(decimal_nat(n).drop_last() =~= decimal_nat(n / 10));
        lemma_decimal_nat_injective(m / 10, n / 10);
    }
}

/// A numeral ends in the last digit, starts with a digit, and has one
/// character exactly below ten.
proof fn lemma_decimal_nat_shape(n: nat)
    ensures
        decimal_nat(n).len() >= 1,
        decimal_nat(n).len() == 1 <==> n < 10,
        decimal_nat(n).last() == digit_char((n % 10) as int),
        '0' <= decimal_nat(n)[0] <= '9',
    decreases n,
{
    if n >= 10 {
        lemma_decimal_nat_shape(n / 10);
        assert(decimal_nat(n)[0] == decimal_nat(n / 10)[0]);
    }
}

/// Different integers have different numerals.
pub proof fn lemma_decimal_int_injective(m: int, n: int)
    requires
        decimal_int(m) == decimal_int(n),
    ensures
        m == n,
{
    let a = if m < 0 { (-m) as nat } else { m as nat };
    let b = if n < 0 { (-n) as nat } else { n as nat };
    lemma_decimal_nat_shape(a);
    lemma_decimal_nat_shape(b);
    assert(decimal_int(m)[0] == decimal_int(n)[0]);
    if m < 0 {
        assert(decimal_int(m).skip(1) =~= decimal_nat(a));
        assert(decimal_int(n).skip(1) =~= decimal_nat(b));
    }
    lemma_decimal_nat_injective(a, b);
}

/// The number that a row of digits stands for.
pub open spec fn numeral_value(digits: Seq<char>) -> int
    decreases digits.len(),
{
    if digits.len() == 0 {
        0
    } else {
        10 * numeral_value(digits.drop_last()) + (digits.last() as int - 48)
    }
}

/// A numeral consists of digits, has no leading zero, and stands for its number.
pub proof fn law_numerals_read_back(n: nat)
    ensures
        decimal_nat(n).len() >= 1,
        forall|i: int| 0 <= i < decimal_nat(n).len() ==> '0' <= #[trigger] decimal_nat(n)[i] <= '9',
        decimal_nat(n).len() > 1 ==> decimal_nat(n)[0] != '0',
        numeral_value(decimal_nat(n)) == n,
    decreases n,
{
    if n < 10 {
        reveal_with_fuel(numeral_value, 2);
        assert(decimal_nat(n).drop_last() =~= Seq::empty());
    } else {
        law_numerals_read_back(n / 10);
        assert(decimal_nat(n).drop_last() =~= decimal_nat(n / 10));
        assert(decimal_nat(n)[0] == decimal_nat(n / 10)[0]);
        if decimal_nat(n / 10).len() == 1 && decimal_nat(n / 10)[0] == '0' {
            reveal_with_fuel(numeral_value, 2);
            assert(decimal_nat(n / 10).drop_last() =~= Seq::empty());
        }
        assert forall|i: int| 0 <= i < decimal_nat(n).len() implies '0'
            <= #[trigger] decimal_nat(n)[i] <= '9' by {
            if i < decimal_nat(n / 10).len() {
                assert(decimal_nat(n)[i] == decimal_nat(n / 10)[i]);
            }
        }
    }
}

/// A negative number is a minus sign and the numeral of its magnitude; any other number
/// is its numeral.
pub proof fn law_signs(n: int)
    ensures
        n >= 0 ==> decimal_int(n) == decimal_nat(n as nat),
        n < 0 ==> decimal_int(n).len() >= 1 && decimal_int(n)[0] == '-' && decimal_int(n).skip(1)
            == decimal_nat((-n) as nat),
{
    if n < 0 {
        assert(decimal_int(n).skip(1) =~= decimal_nat((-n) as nat));
    }
}

/// Whatever comes before it, the argument given last is the one picked, and the name of
/// the program never is.
pub proof fn law_last_argument_wins(args: Seq<Seq<char>>, last: Seq<char>)
    ensures
        args.len() >= 1 ==> last_argument(args.push(last)) == last,
        args.len() == 0 ==> last_argument(args.push(last)).len() == 0,
        last_argument(Seq::empty()).len() == 0,
{
}

} // verus!
