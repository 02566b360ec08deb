//! Random printable strings: passwords, and key material for the MAC.

use vstd::prelude::*;
use crate::primitives::random_below;

verus! {

/// The bytes from `lo` up to and including `hi`, in order.
pub open spec fn byte_range(lo: u8, hi: u8) -> Seq<u8> {
    Seq::new((hi - lo + 1) as nat, |i: int| (lo + i) as u8)
}

/// The upper-case letters.
pub open spec fn upper_chars() -> Seq<u8> {
    byte_range(65, 90)
}

/// The lower-case letters.
pub open spec fn lower_chars() -> Seq<u8> {
    byte_range(97, 122)
}

/// The digits.
pub open spec fn number_chars() -> Seq<u8> {
    byte_range(48, 57)
}

/// The symbols `! @ # $ % ^ & * _`.
pub open spec fn symbol_chars() -> Seq<u8> {
    seq![33u8, 64u8, 35u8, 36u8, 37u8, 94u8, 38u8, 42u8, 95u8]
}

/// The characters to draw from when the given classes are switched on: the
/// classes one after another.
pub open spec fn charset_of(upper: bool, lower: bool, number: bool, symbol: bool) -> Seq<u8> {
    (if upper { upper_chars() } else { Seq::<u8>::empty() })
        + (if lower { lower_chars() } else { Seq::<u8>::empty() })
        + (if number { number_chars() } else { Seq::<u8>::empty() })
        + (if symbol { symbol_chars() } else { Seq::<u8>::empty() })
}

/// Appends the bytes from `lo` up to and including `hi`.
fn push_range(out: &mut Vec<u8>, lo: u8, hi: u8)
    requires
        lo <= hi,
        hi - lo < 255,
    ensures
        final(out)@ == old(out)@ + byte_range(lo, hi),
{
    let count: u8 = hi - lo + 1;
    let mut k: u8 = 0;
    while k < count
        invariant
            k <= count,
            count == hi - lo + 1,
            out@ == old(out)@ + Seq::new(k as nat, |i: int| (lo + i) as u8),
        decreases count - k,
    {
        out.push(lo + k);
        assert(out@ =~= old(out)@ + Seq::new((k + 1) as nat, |i: int| (lo + i) as u8));
        k += 1;
    }
}

/// Appends the symbols.
fn push_symbols(out: &mut Vec<u8>)
    ensures
        final(out)@ == old(out)@ + symbol_chars(),
{
    out.push(33);
    out.push(64);
    out.push(35);
    out.push(36);
    out.push(37);
    out.push(94);
    out.push(38);
    out.push(42);
    out.push(95);
    assert(out@ =~= old(out)@ + symbol_chars());
}

/// The characters to draw from when the given classes are switched on.
pub fn charset(upper: bool, lower: bool, number: bool, symbol: bool) -> (chars: Vec<u8>)
    ensures
        chars@ == charset_of(upper, lower, number, symbol),
        chars@.len() > 0 <==> (upper || lower || number || symbol),
{
    let mut chars: Vec<u8> = Vec::new();
    if upper {
        push_range(&mut chars, 65, 90);
    }
    if lower {
        push_range(&mut chars, 97, 122);
    }
    if number {
        push_range(&mut chars, 48, 57);
    }
    if symbol {
        push_symbols(&mut chars);
    }
    assert(chars@ =~= charset_of(upper, lower, number, symbol));
    chars
}

/// The string that `picks` selects from `chars`: one character for each
/// pick, in order.
pub fn select(chars: &[u8], picks: &[usize]) -> (out: Vec<u8>)
    requires
        forall|i: int| 0 <= i < picks@.len() ==> picks@[i] < chars@.len(),
    ensures
        out@ == Seq::new(picks@.len(), |i: int| chars@[picks@[i] as int]),
{
    let mut out: Vec<u8> = Vec::new();
    let mut i: usize = 0;
    while i < picks.len()
        invariant
            i <= picks@.len(),
            forall|j: int| 0 <= j < picks@.len() ==> picks@[j] < chars@.len(),
            out@ == Seq::new(i as nat, |j: int| chars@[picks@[j] as int]),
        decreases picks@.len() - i,
    {
        out.push(chars[picks[i]]);
        assert(out@ =~= Seq::new((i + 1) as nat, |j: int| chars@[picks@[j] as int]));
        i += 1;
    }
    out
}

/// A random string of `length` characters, each drawn from the classes that
/// are switched on. At least one class must be.
pub fn process_genpass(
    length: u8,
    upper: bool,
    lower: bool,
    number: bool,
    symbol: bool,
) -> (out: Vec<u8>)
    requires
        upper || lower || number || symbol,
    ensures
        out@.len() == length,
        forall|i: int|
            0 <= i < out@.len() ==> charset_of(upper, lower, number, symbol).contains(
                #[trigger] out@[i],
            ),
{
    let chars = charset(upper, lower, number, symbol);
    let mut picks: Vec<usize> = Vec::new();
    let mut i: u8 = 0;
    while i < length
        invariant
            i <= length,
            chars@.len() > 0,
            picks@.len() == i,
            forall|j: int| 0 <= j < picks@.len() ==> picks@[j] < chars@.len(),
        decreases length - i,
    {
        picks.push(random_below(chars.len()));
        i += 1;
    }
    select(chars.as_slice(), picks.as_slice())
}

} // verus!
