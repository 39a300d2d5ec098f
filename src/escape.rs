//! Terminal control sequences, as bytes.
use vstd::prelude::*;

verus! {

/// The decimal digits of `n`, most significant first, with no leading zero.
pub open spec fn decimal(n: nat) -> Seq<u8>
    decreases n,
{
    if n < 10 {
        seq![(48 + n) as u8]
    } else {
        decimal(n / 10).push((48 + n % 10) as u8)
    }
}

/// `ESC [ row ; col H`: move the cursor to a 1-based row and column.
pub open spec fn cursor_to(row: nat, col: nat) -> Seq<u8> {
    seq![27u8, 91u8] + decimal(row) + seq![59u8] + decimal(col) + seq![72u8]
}

/// `ESC [ 48 ; 2 ; r ; g ; b m`: select a 24-bit background colour.
pub open spec fn background(r: u8, g: u8, b: u8) -> Seq<u8> {
    seq![27u8, 91u8, 52u8, 56u8, 59u8, 50u8, 59u8] + decimal(r as nat) + seq![59u8]
        + decimal(g as nat) + seq![59u8] + decimal(b as nat) + seq![109u8]
}

/// Appends the decimal digits of `n`.
pub fn push_decimal(out: &mut Vec<u8>, n: u64)
    ensures
        final(out)@ == old(out)@ + decimal(n as nat),
    decreases n,
{
    if n >= 10 {
        push_decimal(out, n / 10);
    }
    out.push((48 + n % 10) as u8);
    assert(decimal(n as nat) == if n < 10 {
        seq![(48 + n % 10) as u8]
    } else {
        decimal((n / 10) as nat).push((48 + n % 10) as u8)
    });
    assert(final(out)@ =~= old(out)@ + decimal(n as nat));
}

/// Appends the cursor-positioning sequence for `row` and `col`.
pub fn push_cursor_to(out: &mut Vec<u8>, row: u64, col: u64)
    ensures
        final(out)@ == old(out)@ + cursor_to(row as nat, col as nat),
{
    let ghost start = out@;
    out.push(27u8);
    out.push(91u8);
    push_decimal(out, row);
    out.push(59u8);
    push_decimal(out, col);
    out.push(72u8);
    assert(out@ =~= start + cursor_to(row as nat, col as nat));
}

/// Appends the background-colour sequence for `r`, `g`, `b`.
pub fn push_background(out: &mut Vec<u8>, r: u8, g: u8, b: u8)
    ensures
        final(out)@ == old(out)@ + background(r, g, b),
{
    let ghost start = out@;
    out.push(27u8);
    out.push(91u8);
    out.push(52u8);
    out.push(56u8);
    out.push(59u8);
    out.push(50u8);
    out.push(59u8);
    push_decimal(out, r as u64);
    out.push(59u8);
    push_decimal(out, g as u64);
    out.push(59u8);
    push_decimal(out, b as u64);
    out.push(109u8);
    assert(out@ =~= start + background(r, g, b));
}

} // verus!
