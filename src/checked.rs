//! Functions that check their input and fail with a message.
use vstd::prelude::*;
use vstd::string::*;

verus! {

/// Integer division rounding toward zero, as machine division does.
pub open spec fn trunc_div(a: int, b: int) -> int {
    let q: int = abs(a) as int / abs(b) as int;
    if (a < 0) == (b < 0) {
        q
    } else {
        -q
    }
}

/// The decimal digits of `n`, most significant first, without leading zeros.
pub open spec fn decimal(n: nat) -> Seq<char>
    decreases n,
{
    if n < 10 {
        seq![digit_char(n)]
    } else {
        decimal(n / 10).push(digit_char(n % 10))
    }
}

pub open spec fn digit_char(d: nat) -> char {
    ((d + '0' as nat) as u8) as char
}

pub open spec fn abs(a: int) -> nat {
    if a < 0 {
        (-a) as nat
    } else {
        a as nat
    }
}

/// `a / b`, or the message `Division by zero` when `b` is zero.
pub fn safe_divide(a: i32, b: i32) -> (r: Result<i32, String>)
    requires
        !(a == i32::MIN && b == -1),
    ensures
        b == 0 <==> r is Err,
        b == 0 ==> r->Err_0@ == "Division by zero"@,
        b != 0 ==> r == Ok::<i32, String>(trunc_div(a as int, b as int) as i32),
{
    if b == 0 {
        return Err(String::from_str("Division by zero"));
    }
    let na: i64 = if a < 0 { -(a as i64) } else { a as i64 };
    let nb: i64 = if b < 0 { -(b as i64) } else { b as i64 };
    let q: i64 = na / nb;
    proof {
        assert(q <= na) by (nonlinear_arith)
            requires q == na / nb, na >= 0, nb >= 1;
        if nb == 1 {
            assert(q == na) by (nonlinear_arith)
                requires q == na / nb, nb == 1;
        } else {
            assert(q <= na / 2) by (nonlinear_arith)
                requires q == na / nb, na >= 0, nb >= 2;
        }
    }
    let r: i64 = if (a < 0) == (b < 0) { q } else { -q };
    Ok(r as i32)
}

/// The decimal spelling of a positive number.
fn decimal_string(n: i32) -> (r: String)
    requires
        n > 0,
    ensures
        r@ == decimal(n as nat),
{
    let mut digits: Vec<u8> = Vec::new();
    let mut m: i32 = n;
    while m >= 10
        invariant
            m > 0,
            decimal(n as nat) == decimal(m as nat) + digits@.reverse().map_values(|d: u8| digit_char(d as nat)),
            forall|k: int| 0 <= k < digits.len() ==> digits@[k] < 10,
        decreases m,
    {
        let ghost before = digits@;
        proof {
            let tail = digits@.reverse().map_values(|d: u8| digit_char(d as nat));
            let now = before.push((m % 10) as u8);
            assert(now.reverse() =~= seq![(m % 10) as u8] + before.reverse());
            assert(now.reverse().map_values(|d: u8| digit_char(d as nat))
                =~= seq![digit_char((m % 10) as nat)] + tail);
            assert(decimal(m as nat) == decimal((m / 10) as nat).push(digit_char((m % 10) as nat)));
            assert(decimal(m as nat) + tail =~= decimal((m / 10) as nat) + (seq![digit_char((m % 10) as nat)] + tail));
        }
        digits.push((m % 10) as u8);
        m = m / 10;
    }
    let mut out = String::new();
    out.append(digit_str(m as u8));
    proof {
        assert(decimal(m as nat) == seq![digit_char(m as nat)]);
    }
    let mut i: usize = digits.len();
    while i > 0
        invariant
            i <= digits.len(),
            decimal(n as nat) == out@ + digits@.subrange(0, i as int).reverse().map_values(
                |d: u8| digit_char(d as nat),
            ),
            forall|k: int| 0 <= k < digits.len() ==> digits@[k] < 10,
        decreases i,
    {
        let ghost before = out@;
        let d = digits[i - 1];
        out.append(digit_str(d));
        i = i - 1;
        proof {
            let whole = digits@.subrange(0, i + 1);
            let rest = digits@.subrange(0, i as int);
            assert(whole.reverse() =~= seq![d] + rest.reverse());
            assert(whole.reverse().map_values(|x: u8| digit_char(x as nat))
                =~= seq![digit_char(d as nat)] + rest.reverse().map_values(|x: u8| digit_char(x as nat)));
            assert(before + whole.reverse().map_values(|x: u8| digit_char(x as nat))
                =~= out@ + rest.reverse().map_values(|x: u8| digit_char(x as nat)));
        }
    }
    proof {
        assert(digits@.subrange(0, 0).reverse().map_values(|d: u8| digit_char(d as nat)) =~= Seq::<char>::empty());
        assert(out@ + Seq::<char>::empty() =~= out@);
    }
    out
}

/// The one-character spelling of a decimal digit.
fn digit_str(d: u8) -> (r: &'static str)
    requires
        d < 10,
    ensures
        r@ == seq![digit_char(d as nat)],
{
    proof {
        reveal_strlit("0");
        reveal_strlit("1");
        reveal_strlit("2");
        reveal_strlit("3");
        reveal_strlit("4");
        reveal_strlit("5");
        reveal_strlit("6");
        reveal_strlit("7");
        reveal_strlit("8");
        reveal_strlit("9");
    }
    let r = match d {
        0 => "0",
        1 => "1",
        2 => "2",
        3 => "3",
        4 => "4",
        5 => "5",
        6 => "6",
        7 => "7",
        8 => "8",
        _ => "9",
    };
    assert(r@ =~= seq![digit_char(d as nat)]);
    r
}

/// Rejects negative numbers and zero; accepts any other number with the
/// message `Valid: ` followed by its decimal spelling.
pub fn complex_error_handling(x: i32) -> (r: Result<String, String>)
    ensures
        x < 0 ==> r is Err && r->Err_0@ == "Negative value not allowed"@,
        x == 0 ==> r is Err && r->Err_0@ == "Zero is invalid"@,
        x > 0 ==> r is Ok && r->Ok_0@ == "Valid: "@ + decimal(x as nat),
{
    if x < 0 {
        return Err(String::from_str("Negative value not allowed"));
    }
    if x == 0 {
        return Err(String::from_str("Zero is invalid"));
    }
    let mut out = String::from_str("Valid: ");
    let digits = decimal_string(x);
    out.append(digits.as_str());
    Ok(out)
}

/// Rejects values above one hundred; accepts every other value.
pub fn nested_try_catch(value: i32) -> (r: Result<bool, String>)
    ensures
        value > 100 ==> r is Err && r->Err_0@ == "Value too large"@,
        value <= 100 ==> r == Ok::<bool, String>(true),
{
    if value > 100 {
        return Err(String::from_str("Value too large"));
    }
    Ok(true)
}

} // verus!
