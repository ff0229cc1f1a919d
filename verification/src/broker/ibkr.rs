use crate::helpers::text::{alphabetic, chars_of, is_alphabetic, push_char, string_of};
use vstd::prelude::*;
use vstd::string::*;

verus! {

/// `s` with every leading copy of `prefix` removed.
pub open spec fn trim_leading(s: Seq<char>, prefix: Seq<char>) -> Seq<char>
    decreases s.len(),
{
    if prefix.len() > 0 && prefix.len() <= s.len() && s.take(prefix.len() as int) == prefix {
        trim_leading(s.skip(prefix.len() as int), prefix)
    } else {
        s
    }
}

/// `s` up to its last `:`, all of `s` when there is none.
pub open spec fn before_last_colon(s: Seq<char>) -> Seq<char> {
    if s.contains(':') {
        s.take(choose|i: int| 0 <= i < s.len() && s[i] == ':' && forall|j: int| i < j < s.len() ==> s[j] != ':')
    } else {
        s
    }
}

/// The host of a gateway address: without the leading `https://` and `http://` copies and
/// without the port after the last `:`.
pub open spec fn spec_gateway_host(url: Seq<char>) -> Seq<char> {
    before_last_colon(trim_leading(trim_leading(url, "https://"@), "http://"@))
}

/// Whether `chars[at..]` starts with `prefix`.
fn starts_with_at(chars: &Vec<char>, at: usize, prefix: &Vec<char>) -> (res: bool)
    requires
        at <= chars.len(),
    ensures
        res == (prefix.len() <= chars.len() - at && chars@.skip(at as int).take(prefix.len() as int)
            == prefix@),
{
    if prefix.len() > chars.len() - at {
        return false;
    }
    let mut i: usize = 0;
    while i < prefix.len()
        invariant
            i <= prefix.len() <= chars.len() - at,
            forall|j: int| 0 <= j < i ==> chars@[at + j] == prefix@[j],
        decreases prefix.len() - i,
    {
        if chars[at + i] != prefix[i] {
            assert(chars@.skip(at as int).take(prefix.len() as int)[i as int] != prefix@[i as int]);
            return false;
        }
        i = i + 1;
    }
    assert(chars@.skip(at as int).take(prefix.len() as int) =~= prefix@);
    true
}

/// The position after every leading copy of `prefix` in `chars[at..]`.
fn skip_leading(chars: &Vec<char>, at: usize, prefix: &Vec<char>) -> (res: usize)
    requires
        at <= chars.len(),
        prefix.len() > 0,
    ensures
        at <= res <= chars.len(),
        chars@.skip(res as int) == trim_leading(chars@.skip(at as int), prefix@),
    decreases chars.len() - at,
{
    if starts_with_at(chars, at, prefix) {
        assert(chars@.skip(at as int).skip(prefix.len() as int) =~= chars@.skip(at + prefix.len()));
        skip_leading(chars, at + prefix.len(), prefix)
    } else {
        at
    }
}

/// The position of the last `:` in `chars[from..]`, if any.
fn last_colon_from(chars: &Vec<char>, from: usize) -> (res: Option<usize>)
    requires
        from <= chars.len(),
    ensures
        match res {
            Some(i) => from <= i < chars.len() && chars@[i as int] == ':' && forall|j: int|
                i < j < chars.len() ==> chars@[j] != ':',
            None => forall|j: int| from <= j < chars.len() ==> chars@[j] != ':',
        },
{
    let mut k: usize = chars.len();
    while k > from
        invariant
            from <= k <= chars.len(),
            forall|j: int| k <= j < chars.len() ==> chars@[j] != ':',
        decreases k - from,
    {
        if chars[k - 1] == ':' {
            return Some(k - 1);
        }
        k = k - 1;
    }
    None
}

/// The URL of the health check of the gateway at `gateway_url`: its host on port 5001.
pub fn ibeam_health_url(gateway_url: &str) -> (res: String)
    ensures
        res@ == "http://"@ + spec_gateway_host(gateway_url@) + ":5001"@,
{
    let chars = chars_of(gateway_url);
    let https = chars_of("https://");
    let http = chars_of("http://");
    proof {
        reveal_strlit("https://");
        reveal_strlit("http://");
    }
    let start1 = skip_leading(&chars, 0, &https);
    assert(chars@.skip(0) =~= chars@);
    let start = skip_leading(&chars, start1, &http);
    let ghost host = trim_leading(trim_leading(gateway_url@, "https://"@), "http://"@);
    assert(chars@.skip(start as int) == host);
    let end: usize = match last_colon_from(&chars, start) {
        Some(i) => i,
        None => chars.len(),
    };
    proof {
        if end < chars.len() {
            let i = (end - start) as int;
            assert(host[i] == ':');
            assert(forall|j: int| i < j < host.len() ==> host[j] != ':');
            assert(host.contains(':'));
            let c = choose|c: int| 0 <= c < host.len() && host[c] == ':' && forall|j: int|
                c < j < host.len() ==> host[j] != ':';
            if c < i {
                assert(host[i] != ':');
            }
            if c > i {
                assert(host[c] != ':');
            }
            assert(chars@.subrange(start as int, end as int) =~= host.take(i));
        } else {
            assert(forall|j: int| 0 <= j < host.len() ==> host[j] != ':') by {
                assert forall|j: int| 0 <= j < host.len() implies host[j] != ':' by {
                    assert(host[j] == chars@[start + j]);
                }
            }
            assert(!host.contains(':'));
            assert(chars@.subrange(start as int, end as int) =~= host);
        }
    }
    let mut url = "http://".to_owned();
    let host_text = string_of(&chars, start, end);
    url.append(host_text.as_str());
    url.append(":5001");
    url
}

/// Whether a symbol is a currency pair: six bytes long and alphabetic throughout.
pub open spec fn spec_is_forex(symbol: &str) -> bool {
    symbol.len() == 6 && forall|i: int| 0 <= i < symbol@.len() ==> alphabetic(#[trigger] symbol@[i])
}

/// Whether a symbol is a currency pair: six bytes long and alphabetic throughout.
pub fn is_forex(symbol: &str) -> (res: bool)
    ensures
        res == spec_is_forex(symbol),
{
    if symbol.len() != 6 {
        return false;
    }
    let chars = chars_of(symbol);
    let mut i: usize = 0;
    while i < chars.len()
        invariant
            i <= chars.len(),
            chars@ == symbol@,
            forall|j: int| 0 <= j < i ==> alphabetic(#[trigger] chars@[j]),
        decreases chars.len() - i,
    {
        if !is_alphabetic(chars[i]) {
            assert(!alphabetic(symbol@[i as int]));
            return false;
        }
        i = i + 1;
    }
    assert forall|j: int| 0 <= j < symbol@.len() implies alphabetic(#[trigger] symbol@[j]) by {
        assert(chars@[j] == symbol@[j]);
    }
    true
}

/// The exchange an order for `symbol` is routed to: `IDEALPRO` for currency pairs,
/// `SMART` otherwise.
pub fn symbol_to_exchange(symbol: &str) -> (res: &'static str)
    ensures
        res@ == if spec_is_forex(symbol) { "IDEALPRO"@ } else { "SMART"@ },
{
    if is_forex(symbol) {
        "IDEALPRO"
    } else {
        "SMART"
    }
}

/// The security type of `symbol`: `CASH` for currency pairs, `STK` otherwise.
pub fn symbol_to_sec_type(symbol: &str) -> (res: &'static str)
    ensures
        res@ == if spec_is_forex(symbol) { "CASH"@ } else { "STK"@ },
{
    if is_forex(symbol) {
        "CASH"
    } else {
        "STK"
    }
}

/// Bar size and history length for a candle period in minutes (about 500 bars); unknown
/// periods get hourly bars over a month.
pub open spec fn spec_period_to_ibkr(period: int) -> (Seq<char>, Seq<char>) {
    if period == 1 {
        ("1min"@, "1d"@)
    } else if period == 5 {
        ("5min"@, "3d"@)
    } else if period == 15 {
        ("15min"@, "1w"@)
    } else if period == 30 {
        ("30min"@, "2w"@)
    } else if period == 60 {
        ("1h"@, "1m"@)
    } else if period == 240 {
        ("4h"@, "3m"@)
    } else if period == 1440 {
        ("1d"@, "2y"@)
    } else if period == 10080 {
        ("1w"@, "5y"@)
    } else {
        ("1h"@, "1m"@)
    }
}

/// Bar size and history length for a candle period in minutes.
pub fn period_to_ibkr(period: usize) -> (res: (&'static str, &'static str))
    ensures
        (res.0@, res.1@) == spec_period_to_ibkr(period as int),
{
    match period {
        1 => ("1min", "1d"),
        5 => ("5min", "3d"),
        15 => ("15min", "1w"),
        30 => ("30min", "2w"),
        60 => ("1h", "1m"),
        240 => ("4h", "3m"),
        1440 => ("1d", "2y"),
        10080 => ("1w", "5y"),
        _ => ("1h", "1m"),
    }
}

} // verus!
