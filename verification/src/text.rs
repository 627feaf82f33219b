use vstd::prelude::*;
use vstd::string::StrSliceExecFns;
use vstd::string::StringExecFns;

verus! {

/// Relies on std's `String::push`: it appends exactly the given character to
/// the end of the string.
pub assume_specification[ String::push ](s: &mut String, c: char)
    ensures
        final(s)@ == old(s)@.push(c),
;

/// The character for one decimal digit.
pub open spec fn dec_digit(d: int) -> char
    recommends
        0 <= d < 10,
{
    if d == 0 {
        '0'
    } else if d == 1 {
        '1'
    } else if d == 2 {
        '2'
    } else if d == 3 {
        '3'
    } else if d == 4 {
        '4'
    } else if d == 5 {
        '5'
    } else if d == 6 {
        '6'
    } else if d == 7 {
        '7'
    } else if d == 8 {
        '8'
    } else {
        '9'
    }
}

/// The decimal rendering of a non-negative integer, most significant digit
/// first, with no leading zeros (except for the number zero itself).
pub open spec fn udec(n: nat) -> Seq<char>
    decreases n,
{
    if n < 10 {
        seq![dec_digit(n as int)]
    } else {
        udec(n / 10) + seq![dec_digit((n % 10) as int)]
    }
}

/// The decimal rendering of an integer, with a leading minus sign when it is
/// negative.
pub open spec fn idec(n: int) -> Seq<char> {
    if n < 0 {
        seq!['-'] + udec((-n) as nat)
    } else {
        udec(n as nat)
    }
}

fn dec_digit_str(d: u64) -> (r: &'static str)
    requires
        d < 10,
    ensures
        r@ =~= seq![dec_digit(d as int)],
{
    proof {
        reveal_strlit("0");
        reveal_strlit("1");
        reveal_strlit("2");
        reveal_strlit("3");
        reveal_strlit("4");
        reveal_strlit("5");
        reveal_strlit("6");
        reveal_strlit("7");
        reveal_strlit("8");
        reveal_strlit("9");
    }
    match d {
        0 => "0",
        1 => "1",
        2 => "2",
        3 => "3",
        4 => "4",
        5 => "5",
        6 => "6",
        7 => "7",
        8 => "8",
        _ => "9",
    }
}

pub fn u64_dec_string(n: u64) -> (r: String)
    ensures
        r@ == udec(n as nat),
    decreases n,
{
    if n < 10 {
        let r = String::from_str(dec_digit_str(n));
        proof {
            assert(r@ =~= udec(n as nat));
        }
        r
    } else {
        let mut s = u64_dec_string(n / 10);
        s.append(dec_digit_str(n % 10));
        proof {
            assert(s@ =~= udec(n as nat));
        }
        s
    }
}

pub fn i32_dec_string(n: i32) -> (r: String)
    ensures
        r@ == idec(n as int),
{
    if n < 0 {
        let m: u64 = (-(n as i64)) as u64;
        let mut s = String::from_str("-");
        s.append(u64_dec_string(m).as_str());
        proof {
            reveal_strlit("-");
            assert(s@ =~= idec(n as int));
        }
        s
    } else {
        let r = u64_dec_string(n as u64);
        r
    }
}

/// The character for one hexadecimal digit, lower case.
pub open spec fn hex_digit(d: int) -> char
    recommends
        0 <= d < 16,
{
    if d < 10 {
        dec_digit(d)
    } else if d == 10 {
        'a'
    } else if d == 11 {
        'b'
    } else if d == 12 {
        'c'
    } else if d == 13 {
        'd'
    } else if d == 14 {
        'e'
    } else {
        'f'
    }
}

/// How one character appears inside a JSON string literal: quote and
/// backslash get a backslash prefix, control characters take the `\u00XX`
/// form, and every other character stands for itself.
pub open spec fn json_escape_char(c: char) -> Seq<char> {
    if c == '"' {
        seq!['\\', '"']
    } else if c == '\\' {
        seq!['\\', '\\']
    } else if (c as int) < 32 {
        seq!['\\', 'u', '0', '0', hex_digit(c as int / 16), hex_digit(c as int % 16)]
    } else {
        seq![c]
    }
}

/// A whole character sequence escaped for use inside a JSON string literal.
pub open spec fn json_escape(s: Seq<char>) -> Seq<char>
    decreases s.len(),
{
    if s.len() == 0 {
        Seq::<char>::empty()
    } else {
        json_escape(s.drop_last()) + json_escape_char(s.last())
    }
}

fn hex_digit_str(d: u32) -> (r: &'static str)
    requires
        d < 16,
    ensures
        r@ =~= seq![hex_digit(d as int)],
{
    proof {
        reveal_strlit("0");
        reveal_strlit("1");
        reveal_strlit("2");
        reveal_strlit("3");
        reveal_strlit("4");
        reveal_strlit("5");
        reveal_strlit("6");
        reveal_strlit("7");
        reveal_strlit("8");
        reveal_strlit("9");
        reveal_strlit("a");
        reveal_strlit("b");
        reveal_strlit("c");
        reveal_strlit("d");
        reveal_strlit("e");
        reveal_strlit("f");
    }
    match d {
        0 => "0",
        1 => "1",
        2 => "2",
        3 => "3",
        4 => "4",
        5 => "5",
        6 => "6",
        7 => "7",
        8 => "8",
        9 => "9",
        10 => "a",
        11 => "b",
        12 => "c",
        13 => "d",
        14 => "e",
        _ => "f",
    }
}

fn json_escape_char_string(c: char) -> (r: String)
    ensures
        r@ == json_escape_char(c),
{
    if c == '"' {
        let s = String::from_str("\\\"");
        proof {
            reveal_strlit("\\\"");
            assert(s@ =~= json_escape_char(c));
        }
        s
    } else if c == '\\' {
        let s = String::from_str("\\\\");
        proof {
            reveal_strlit("\\\\");
            assert(s@ =~= json_escape_char(c));
        }
        s
    } else {
        let v = c as u32;
        if v < 32 {
            let mut s = String::from_str("\\u00");
            s.append(hex_digit_str(v / 16));
            s.append(hex_digit_str(v % 16));
            proof {
                reveal_strlit("\\u00");
                assert(v == c as int);
                assert(s@ =~= json_escape_char(c));
            }
            s
        } else {
            let mut s = String::new();
            s.push(c);
            proof {
                assert(v == c as int);
                assert(s@ =~= json_escape_char(c));
            }
            s
        }
    }
}

/// Escapes every character of a string for use inside a JSON string literal.
pub fn json_escape_string(s: &str) -> (r: String)
    ensures
        r@ == json_escape(s@),
{
    let n = s.unicode_len();
    let mut r = String::new();
    proof {
        assert(s@.subrange(0, 0) =~= Seq::<char>::empty());
    }
    let mut i: usize = 0;
    while i < n
        invariant
            n as nat == s@.len(),
            0 <= i <= n,
            r@ == json_escape(s@.subrange(0, i as int)),
        decreases n - i,
    {
        let c = s.get_char(i);
        let e = json_escape_char_string(c);
        r.append(e.as_str());
        proof {
            assert(s@.subrange(0, i + 1 as int).drop_last() =~= s@.subrange(0, i as int));
            assert(s@.subrange(0, i + 1 as int).last() == c);
        }
        i = i + 1;
    }
    proof {
        assert(s@.subrange(0, n as int) =~= s@);
    }
    r
}

} // verus!
