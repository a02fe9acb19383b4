use vstd::prelude::*;

verus! {

/// What `format!("{:?}", s)` gives for the string `s`: the quoted, escaped text.
pub uninterp spec fn str_debug_text(s: Seq<char>) -> Seq<char>;

/// Calls std's `Debug` formatting of a string slice, `format!("{:?}", s)`.
/// Claimed: the result is `str_debug_text` of the characters of `s` (a function of them alone).
#[verifier::external_body]
pub(crate) fn str_debug(s: &str) -> (r: String)
    ensures
        r@ == str_debug_text(s@),
{
    format!("{:?}", s)
}


/// The character of a decimal digit.
pub open spec fn digit_char(d: nat) -> char {
    if d == 0 {
        '0'
    } else if d == 1 {
        '1'
    } else if d == 2 {
        '2'
    } else if d == 3 {
        '3'
    } else if d == 4 {
        '4'
    } else if d == 5 {
        '5'
    } else if d == 6 {
        '6'
    } else if d == 7 {
        '7'
    } else if d == 8 {
        '8'
    } else {
        '9'
    }
}

/// The decimal numeral of `n`, without leading zeros.
pub open spec fn decimal(n: nat) -> Seq<char>
    decreases n,
{
    if n < 10 {
        seq![digit_char(n)]
    } else {
        decimal(n / 10).push(digit_char(n % 10))
    }
}

/// A one-character string literal for a decimal digit.
fn digit_str(d: u8) -> (s: &'static str)
    requires
        d < 10,
    ensures
        s@ == seq![digit_char(d as nat)],
{
    if d == 0 {
        proof {
            reveal_strlit("0");
        }
        "0"
    } else if d == 1 {
        proof {
            reveal_strlit("1");
        }
        "1"
    } else if d == 2 {
        proof {
            reveal_strlit("2");
        }
        "2"
    } else if d == 3 {
        proof {
            reveal_strlit("3");
        }
        "3"
    } else if d == 4 {
        proof {
            reveal_strlit("4");
        }
        "4"
    } else if d == 5 {
        proof {
            reveal_strlit("5");
        }
        "5"
    } else if d == 6 {
        proof {
            reveal_strlit("6");
        }
        "6"
    } else if d == 7 {
        proof {
            reveal_strlit("7");
        }
        "7"
    } else if d == 8 {
        proof {
            reveal_strlit("8");
        }
        "8"
    } else {
        proof {
            reveal_strlit("9");
        }
        "9"
    }
}

/// Appends the decimal numeral of `n` to `out`.
pub fn push_decimal(out: &mut String, n: u128)
    ensures
        final(out)@ == old(out)@ + decimal(n as nat),
{
    // Collect the digits, least significant first.
    let mut digits: Vec<u8> = Vec::new();
    let mut m: u128 = n;
    let ghost mut rest: Seq<char> = Seq::empty();
    loop
        invariant_except_break
            decimal(n as nat) == decimal(m as nat) + rest,
        invariant
            digits@.len() == rest.len(),
            forall|i: int|
                0 <= i < digits@.len() ==> digits@[i] < 10 && rest[rest.len() - 1 - i]
                    == digit_char(digits@[i] as nat),
        ensures
            decimal(n as nat) == rest,
        decreases m,
    {
        let d: u8 = (m % 10) as u8;
        if m < 10 {
            digits.push(d);
            proof {
                assert(decimal(m as nat) == seq![digit_char(m as nat)]);
                let old_rest = rest;
                rest = decimal(m as nat) + rest;
                assert(decimal(n as nat) =~= rest);
                assert forall|i: int| 0 <= i < digits@.len() implies digits@[i] < 10 && rest[rest.len() - 1 - i]
                    == digit_char(digits@[i] as nat) by {
                    if i < digits@.len() - 1 {
                        assert(rest[rest.len() - 1 - i] == old_rest[old_rest.len() - 1 - i]);
                    }
                }
            }
            break;
        }
        digits.push(d);
        proof {
            assert(decimal(m as nat) == decimal((m / 10) as nat).push(digit_char((m % 10) as nat)));
            let old_rest = rest;
            rest = seq![digit_char((m % 10) as nat)] + rest;
            assert(decimal(m as nat) + old_rest =~= decimal((m / 10) as nat) + rest);
            assert forall|i: int| 0 <= i < digits@.len() implies digits@[i] < 10 && rest[rest.len() - 1 - i]
                == digit_char(digits@[i] as nat) by {
                if i < digits@.len() - 1 {
                    assert(rest[rest.len() - 1 - i] == old_rest[old_rest.len() - 1 - i]);
                }
            }
        }
        m = m / 10;
    }
    // Write them most significant first.
    let ghost start = out@;
    let mut k: usize = digits.len();
    while k > 0
        invariant
            k <= digits@.len(),
            digits@.len() == rest.len(),
            decimal(n as nat) == rest,
            forall|i: int|
                0 <= i < digits@.len() ==> digits@[i] < 10 && rest[rest.len() - 1 - i]
                    == digit_char(digits@[i] as nat),
            out@ == start + rest.subrange(0, (digits@.len() - k) as int),
        decreases k,
    {
        k = k - 1;
        let s = digit_str(digits[k]);
        out.append(s);
        proof {
            let len = digits@.len() as int;
            assert(rest.subrange(0, len - k) =~= rest.subrange(0, len - k - 1).push(rest[len - 1 - k]));
        }
    }
    proof {
        assert(rest.subrange(0, rest.len() as int) =~= rest);
    }
}

/// The decimal numeral of `n`.
pub fn decimal_string(n: u128) -> (s: String)
    ensures
        s@ == decimal(n as nat),
{
    let mut s = String::new();
    push_decimal(&mut s, n);
    proof {
        assert(Seq::<char>::empty() + decimal(n as nat) =~= decimal(n as nat));
    }
    s
}

/// The `Debug` text of a list of bytes, such as `[1, 20, 255]`.
pub open spec fn bytes_debug(b: Seq<u8>) -> Seq<char> {
    "["@ + bytes_debug_items(b) + "]"@
}

/// The items of a byte list's `Debug` text, separated by ", ".
pub open spec fn bytes_debug_items(b: Seq<u8>) -> Seq<char>
    decreases b.len(),
{
    if b.len() == 0 {
        Seq::empty()
    } else if b.len() == 1 {
        decimal(b[0] as nat)
    } else {
        bytes_debug_items(b.drop_last()) + ", "@ + decimal(b.last() as nat)
    }
}

/// Appends the `Debug` text of a list of bytes to `out`.
pub fn push_bytes_debug(out: &mut String, b: &Vec<u8>)
    ensures
        final(out)@ == old(out)@ + bytes_debug(b@),
{
    let ghost start = out@;
    out.append("[");
    let mut i: usize = 0;
    while i < b.len()
        invariant
            0 <= i <= b@.len(),
            out@ == start + "["@ + bytes_debug_items(b@.subrange(0, i as int)),
        decreases b@.len() - i,
    {
        let ghost before = out@;
        if i > 0 {
            out.append(", ");
        }
        push_decimal(out, b[i] as u128);
        proof {
            let p = b@.subrange(0, i + 1);
            assert(p.drop_last() =~= b@.subrange(0, i as int));
            assert(p.last() == b@[i as int]);
            if i == 0 {
                assert(bytes_debug_items(b@.subrange(0, 0)) =~= Seq::<char>::empty());
                assert(out@ =~= start + "["@ + bytes_debug_items(p));
            } else {
                assert(out@ =~= start + "["@ + bytes_debug_items(p));
            }
        }
        i = i + 1;
    }
    out.append("]");
    proof {
        assert(b@.subrange(0, b@.len() as int) =~= b@);
        assert(out@ =~= start + bytes_debug(b@));
    }
}

} // verus!

