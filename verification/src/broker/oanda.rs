use crate::helpers::text::{has_char, to_uppercase, uppercase_of};
use vstd::prelude::*;
use vstd::string::*;
use vstd::utf8::{encode_utf8, is_char_boundary};

verus! {

/// The inputs on which splitting a symbol after its third byte is possible.
pub open spec fn oanda_symbol_defined(symbol: &str) -> bool {
    symbol@.contains('_') || symbol.len() < 6 || is_char_boundary(symbol.spec_bytes(), 3)
}

/// A symbol in the broker's instrument format: `EURUSD` becomes `EUR_USD`, in capitals;
/// symbols that already hold `_` or are shorter than six bytes are only put in capitals.
pub fn to_oanda_symbol(symbol: &str) -> (res: String)
    requires
        oanda_symbol_defined(symbol),
    ensures
        (symbol@.contains('_') || symbol.len() < 6) ==> res@ == uppercase_of(symbol@),
        !(symbol@.contains('_') || symbol.len() < 6) ==> exists|a: Seq<char>, b: Seq<char>|
            encode_utf8(a) == symbol.spec_bytes().take(3) && encode_utf8(b) == symbol.spec_bytes().skip(3)
                && res@ == uppercase_of(a + seq!['_'] + b),
{
    if has_char(symbol, '_') || symbol.len() < 6 {
        return to_uppercase(symbol);
    }
    let (head, tail) = symbol.split_at(3);
    let mut joined = head.to_owned();
    joined.append("_");
    joined.append(tail);
    proof {
        reveal_strlit("_");
        assert(head.spec_bytes() =~= symbol.spec_bytes().take(3));
        assert(tail.spec_bytes() =~= symbol.spec_bytes().skip(3));
        assert(joined@ == head@ + seq!['_'] + tail@);
    }
    to_uppercase(joined.as_str())
}

/// The broker's name of a candle period in minutes; unknown periods are hourly.
pub open spec fn spec_period_to_granularity(period: int) -> Seq<char> {
    if period == 1 {
        "M1"@
    } else if period == 5 {
        "M5"@
    } else if period == 15 {
        "M15"@
    } else if period == 30 {
        "M30"@
    } else if period == 60 {
        "H1"@
    } else if period == 120 {
        "H2"@
    } else if period == 240 {
        "H4"@
    } else if period == 480 {
        "H8"@
    } else if period == 720 {
        "H12"@
    } else if period == 1440 {
        "D"@
    } else if period == 10080 {
        "W"@
    } else if period == 43200 {
        "M"@
    } else {
        "H1"@
    }
}

/// The broker's name of a candle period in minutes.
pub fn period_to_granularity(period: usize) -> (res: &'static str)
    ensures
        res@ == spec_period_to_granularity(period as int),
{
    match period {
        1 => "M1",
        5 => "M5",
        15 => "M15",
        30 => "M30",
        60 => "H1",
        120 => "H2",
        240 => "H4",
        480 => "H8",
        720 => "H12",
        1440 => "D",
        10080 => "W",
        43200 => "M",
        _ => "H1",
    }
}

} // verus!
