use vstd::prelude::*;
use vstd::string::*;

verus! {

/// The lowercase hexadecimal digit for a value below 16.
pub open spec fn hex_digit(d: u8) -> char {
    seq!['0', '1', '2', '3', '4', '5', '6', '7', '8', '9', 'a', 'b', 'c', 'd', 'e', 'f'][d as int]
}

/// Bytes as lowercase hexadecimal text: two digits per byte, high half first.
pub open spec fn hex_lower(b: Seq<u8>) -> Seq<char>
    decreases b.len(),
{
    if b.len() == 0 {
        Seq::empty()
    } else {
        hex_lower(b.drop_last()) + seq![hex_digit(b.last() / 16), hex_digit(b.last() % 16)]
    }
}

/// The decimal digit for a value below 10.
pub open spec fn decimal_digit(d: nat) -> char {
    seq!['0', '1', '2', '3', '4', '5', '6', '7', '8', '9'][d as int]
}

/// A number in decimal, without sign or leading zeros.
pub open spec fn decimal_of(n: nat) -> Seq<char>
    decreases n,
{
    if n < 10 {
        seq![decimal_digit(n)]
    } else {
        decimal_of(n / 10).push(decimal_digit(n % 10))
    }
}

/// The reference text of a deposit or stake: the prefix, the number in decimal, and the
/// suffix "_rbx_sol".
pub open spec fn ticket_text(prefix: Seq<char>, n: u64) -> Seq<char> {
    prefix + decimal_of(n as nat) + "_rbx_sol"@
}

/// Relies on hex::encode: each byte becomes two lowercase hexadecimal digits, high half
/// first, in the order of the bytes.
#[verifier::external_body]
fn hex_encode(b: &[u8; 32]) -> (r: String)
    ensures
        r@ == hex_lower(b@),
{
    hex::encode(b)
}

/// The decimal digit for `d`, as text.
fn digit_text(d: u64) -> (r: &'static str)
    requires
        d < 10,
    ensures
        r@ == seq![decimal_digit(d as nat)],
{
    if d == 0 {
        proof { reveal_strlit("0"); }
        assert("0"@ =~= seq![decimal_digit(0)]);
        "0"
    } else if d == 1 {
        proof { reveal_strlit("1"); }
        assert("1"@ =~= seq![decimal_digit(1)]);
        "1"
    } else if d == 2 {
        proof { reveal_strlit("2"); }
        assert("2"@ =~= seq![decimal_digit(2)]);
        "2"
    } else if d == 3 {
        proof { reveal_strlit("3"); }
        assert("3"@ =~= seq![decimal_digit(3)]);
        "3"
    } else if d == 4 {
        proof { reveal_strlit("4"); }
        assert("4"@ =~= seq![decimal_digit(4)]);
        "4"
    } else if d == 5 {
        proof { reveal_strlit("5"); }
        assert("5"@ =~= seq![decimal_digit(5)]);
        "5"
    } else if d == 6 {
        proof { reveal_strlit("6"); }
        assert("6"@ =~= seq![decimal_digit(6)]);
        "6"
    } else if d == 7 {
        proof { reveal_strlit("7"); }
        assert("7"@ =~= seq![decimal_digit(7)]);
        "7"
    } else if d == 8 {
        proof { reveal_strlit("8"); }
        assert("8"@ =~= seq![decimal_digit(8)]);
        "8"
    } else {
        proof { reveal_strlit("9"); }
        assert("9"@ =~= seq![decimal_digit(9)]);
        "9"
    }
}

/// Appends `n` in decimal to `out`.
fn append_decimal(out: &mut String, n: u64)
    ensures
        final(out)@ == old(out)@ + decimal_of(n as nat),
    decreases n,
{
    if n >= 10 {
        append_decimal(out, n / 10);
    }
    out.append(digit_text(n % 10));
    proof {
        if n >= 10 {
            assert(decimal_of(n as nat) == decimal_of((n / 10) as nat).push(
                decimal_digit((n % 10) as nat),
            ));
            assert(out@ =~= old(out)@ + decimal_of(n as nat));
        } else {
            assert(n % 10 == n);
            assert(out@ =~= old(out)@ + decimal_of(n as nat));
        }
    }
}

/// The identity `address` as "0x" followed by its 64 lowercase hexadecimal digits.
pub fn hex_identity(address: &[u8; 32]) -> (r: String)
    ensures
        r@ == "0x"@ + hex_lower(address@),
{
    let mut out = String::from_str("0x");
    let digits = hex_encode(address);
    out.append(digits.as_str());
    out
}

/// The reference text of deposit or stake number `n` under `prefix`.
pub fn ticket(prefix: &str, n: u64) -> (r: String)
    ensures
        r@ == ticket_text(prefix@, n),
{
    let mut out = String::from_str(prefix);
    append_decimal(&mut out, n);
    out.append("_rbx_sol");
    out
}

} // verus!
