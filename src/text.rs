use vstd::prelude::*;
use vstd::string::*;

verus! {

/// The ten decimal digits, in order.
pub open spec fn digit_chars() -> Seq<char> {
    seq!['0', '1', '2', '3', '4', '5', '6', '7', '8', '9']
}

/// The lowercase alphabet, in order: the names that iteration variables are taken from.
pub open spec fn letter_chars() -> Seq<char> {
    seq![
        'a', 'b', 'c', 'd', 'e', 'f', 'g', 'h', 'i', 'j', 'k', 'l', 'm',
        'n', 'o', 'p', 'q', 'r', 's', 't', 'u', 'v', 'w', 'x', 'y', 'z',
    ]
}

/// Number of single-letter variable names available.
pub const LETTER_COUNT: usize = 26;

/// Decimal notation of a natural number, most significant digit first, without leading zeros.
pub open spec fn decimal(n: nat) -> Seq<char>
    decreases n,
{
    if n < 10 {
        seq![digit_chars()[n as int]]
    } else {
        decimal(n / 10) + seq![digit_chars()[(n % 10) as int]]
    }
}

/// Decimal notation of an integer: a minus sign before the digits of a negative value.
pub open spec fn signed_decimal(n: int) -> Seq<char> {
    if n < 0 {
        seq!['-'] + decimal((-n) as nat)
    } else {
        decimal(n as nat)
    }
}

/// The one-letter name `letter_chars()[k]`.
pub open spec fn letter(k: nat) -> Seq<char> {
    seq![letter_chars()[k as int]]
}

/// Appends the digit `d` to `out`.
fn push_digit(out: &mut String, d: u64)
    requires
        d < 10,
    ensures
        final(out)@ == old(out)@ + seq![digit_chars()[d as int]],
{
    let digits = "0123456789";
    proof {
        reveal_strlit("0123456789");
    }
    assert(digits@ == digit_chars());
    let s = digits.substring_ascii(d as usize, d as usize + 1);
    assert(s@ =~= seq![digit_chars()[d as int]]);
    out.append(s);
}

/// Appends the decimal notation of `n` to `out`.
pub(crate) fn push_decimal(out: &mut String, n: u64)
    ensures
        final(out)@ == old(out)@ + decimal(n as nat),
    decreases n,
{
    if n < 10 {
        push_digit(out, n);
    } else {
        push_decimal(out, n / 10);
        push_digit(out, n % 10);
        assert(final(out)@ =~= old(out)@ + decimal(n as nat));
    }
}

/// Appends the decimal notation of the signed `n` to `out`.
pub(crate) fn push_signed_decimal(out: &mut String, n: i64)
    ensures
        final(out)@ == old(out)@ + signed_decimal(n as int),
{
    if n < 0 {
        out.append("-");
        proof {
            reveal_strlit("-");
        }
        let magnitude: u64 = (0i128 - n as i128) as u64;
        push_decimal(out, magnitude);
        assert(final(out)@ =~= old(out)@ + signed_decimal(n as int));
    } else {
        push_decimal(out, n as u64);
    }
}

/// Appends the one-letter name `letter(k)` to `out`.
pub(crate) fn push_letter(out: &mut String, k: usize)
    requires
        k < LETTER_COUNT,
    ensures
        final(out)@ == old(out)@ + letter(k as nat),
{
    let letters = "abcdefghijklmnopqrstuvwxyz";
    proof {
        reveal_strlit("abcdefghijklmnopqrstuvwxyz");
    }
    assert(letters@ == letter_chars());
    let s = letters.substring_ascii(k, k + 1);
    assert(s@ =~= letter(k as nat));
    out.append(s);
}

/// A string literal of the query language: the text between double quotes.
pub open spec fn quoted(s: Seq<char>) -> Seq<char> {
    "\""@ + s + "\""@
}

/// The items joined by `", "`, in order.
pub open spec fn joined(items: Seq<Seq<char>>) -> Seq<char>
    decreases items.len(),
{
    if items.len() == 0 {
        Seq::empty()
    } else if items.len() == 1 {
        items[0]
    } else {
        joined(items.drop_last()) + ", "@ + items.last()
    }
}

/// An array literal of the query language: the items joined by `", "` between brackets.
pub open spec fn bracketed(items: Seq<Seq<char>>) -> Seq<char> {
    "["@ + joined(items) + "]"@
}

/// The literals of a list of integers.
pub open spec fn int_literals(values: Seq<i64>) -> Seq<Seq<char>> {
    values.map_values(|v: i64| signed_decimal(v as int))
}

/// The quoted literals of a list of strings.
pub open spec fn str_literals(values: Seq<&str>) -> Seq<Seq<char>> {
    values.map_values(|v: &str| quoted(v@))
}

/// Joining one more item extends the joined text by a separator and that item.
proof fn lemma_joined_push(items: Seq<Seq<char>>, i: int)
    requires
        0 < i < items.len(),
    ensures
        joined(items.take(i + 1)) == joined(items.take(i)) + ", "@ + items[i],
{
    assert(items.take(i + 1).drop_last() =~= items.take(i));
}

/// `s` between double quotes.
pub(crate) fn quote(s: &str) -> (r: String)
    ensures
        r@ == quoted(s@),
{
    let mut out = String::new();
    out.append("\"");
    out.append(s);
    out.append("\"");
    assert(out@ =~= quoted(s@));
    out
}

/// The array literal of a list of integers, as in `[13, 14, 15]`.
pub(crate) fn int_array_literal(values: &[i64]) -> (r: String)
    ensures
        r@ == bracketed(int_literals(values@)),
{
    let ghost items = int_literals(values@);
    let mut out = String::new();
    out.append("[");
    let mut i: usize = 0;
    while i < values.len()
        invariant
            i <= values@.len(),
            items == int_literals(values@),
            out@ == "["@ + joined(items.take(i as int)),
        decreases values@.len() - i,
    {
        if i > 0 {
            out.append(", ");
        }
        push_signed_decimal(&mut out, values[i]);
        proof {
            if i > 0 {
                lemma_joined_push(items, i as int);
                assert(out@ =~= "["@ + joined(items.take(i + 1)));
            } else {
                assert(items.take(1) =~= seq![items[0]]);
                assert(out@ =~= "["@ + joined(items.take(i + 1)));
            }
        }
        i = i + 1;
    }
    assert(items.take(values@.len() as int) =~= items);
    out.append("]");
    out
}

/// The array literal of a list of strings, each quoted, as in `["felix", "gerard"]`.
pub(crate) fn str_array_literal(values: &[&str]) -> (r: String)
    ensures
        r@ == bracketed(str_literals(values@)),
{
    let ghost items = str_literals(values@);
    let mut out = String::new();
    out.append("[");
    let mut i: usize = 0;
    while i < values.len()
        invariant
            i <= values@.len(),
            items == str_literals(values@),
            out@ == "["@ + joined(items.take(i as int)),
        decreases values@.len() - i,
    {
        if i > 0 {
            out.append(", ");
        }
        let q = quote(values[i]);
        out.append(q.as_str());
        proof {
            if i > 0 {
                lemma_joined_push(items, i as int);
                assert(out@ =~= "["@ + joined(items.take(i + 1)));
            } else {
                assert(items.take(1) =~= seq![items[0]]);
                assert(out@ =~= "["@ + joined(items.take(i + 1)));
            }
        }
        i = i + 1;
    }
    assert(items.take(values@.len() as int) =~= items);
    out.append("]");
    out
}

} // verus!
