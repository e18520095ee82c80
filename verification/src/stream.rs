//! Stream subscriptions: topic names, the paths of the single-topic and the
//! combined endpoint, and the channel names that take arguments.

use vstd::prelude::*;
use vstd::string::*;
use crate::enums::{ContractType, Interval};
use crate::error::{BianResult, Failure};
use crate::http::{resolve, url_join};
use crate::query::string_views;
use crate::text::{append_decimal, decimal};

verus! {

/// How the messages of a channel are framed.
#[derive(Debug, Clone, Copy, PartialEq, Eq, Structural)]
pub enum StreamMode {
    /// One topic; every message is the payload itself.
    Single,
    /// Several topics; every message is wrapped in an envelope that names
    /// its topic.
    Combined,
}

/// Where to connect for a subscription, and how its messages are framed. The
/// mode is fixed when the subscription is made and never read off a message.
#[derive(Debug, Clone)]
pub struct StreamSubscription {
    pub url: String,
    pub mode: StreamMode,
}

/// The topic of a channel for a symbol: `symbol@channel`, or the channel
/// alone when the symbol is empty (a feed over all symbols).
pub open spec fn topic_text(symbol: Seq<char>, channel: Seq<char>) -> Seq<char> {
    if symbol.len() == 0 {
        channel
    } else {
        symbol.push('@') + channel
    }
}

/// The path of the single-topic endpoint for a topic.
pub open spec fn single_path_text(symbol: Seq<char>, channel: Seq<char>) -> Seq<char> {
    "ws/"@ + topic_text(symbol, channel)
}

/// The topics of a channel for several symbols, joined with `/`.
pub open spec fn joined_topics(symbols: Seq<Seq<char>>, channel: Seq<char>) -> Seq<char>
    decreases symbols.len(),
{
    if symbols.len() == 0 {
        Seq::empty()
    } else if symbols.len() == 1 {
        topic_text(symbols[0], channel)
    } else {
        joined_topics(symbols.drop_last(), channel).push('/') + topic_text(symbols.last(), channel)
    }
}

/// The path and query of the combined endpoint for several symbols.
pub open spec fn combined_path_text(symbols: Seq<Seq<char>>, channel: Seq<char>) -> Seq<char> {
    "stream?streams="@ + joined_topics(symbols, channel)
}

/// The mark-price channel: updated every second when `freq` is 1, else at
/// the default pace.
pub open spec fn mark_price_channel_text(freq: usize) -> Seq<char> {
    if freq == 1 {
        "markPrice@1s"@
    } else {
        "markPrice"@
    }
}

/// The mark-price channel over all symbols.
pub open spec fn mark_price_arr_channel_text(freq: usize) -> Seq<char> {
    if freq == 1 {
        "!markPrice@arr@1s"@
    } else {
        "!markPrice@arr"@
    }
}

/// The candlestick channel of an interval.
pub open spec fn kline_channel_text(interval: Interval) -> Seq<char> {
    "kline_"@ + interval.spec_wire_name()
}

/// The continuous-contract candlestick channel of an interval.
pub open spec fn continuous_kline_channel_text(interval: Interval) -> Seq<char> {
    "continuousKline_"@ + interval.spec_wire_name()
}

/// The symbol of a continuous contract: the pair, `_`, and the contract
/// type.
pub open spec fn continuous_symbol_text(pair: Seq<char>, contract_type: ContractType) -> Seq<
    char,
> {
    pair.push('_') + contract_type.spec_wire_name()
}

/// The symbols of a continuous contract for several pairs.
pub open spec fn continuous_symbol_texts(pairs: Seq<Seq<char>>, contract_type: ContractType) -> Seq<
    Seq<char>,
> {
    Seq::new(pairs.len(), |i: int| continuous_symbol_text(pairs[i], contract_type))
}

/// The number of levels a partial-depth channel carries: 10 or 20 when asked
/// for, else 5.
pub open spec fn depth_levels(level: usize) -> nat {
    if level == 10 {
        10
    } else if level == 20 {
        20
    } else {
        5
    }
}

/// The partial-depth channel: `depth` and the number of levels, followed by
/// `@100ms` or `@500ms` when that pace is asked for.
pub open spec fn depth_channel_text(level: usize, freq: usize) -> Seq<char> {
    let base = "depth"@ + decimal(depth_levels(level));
    if freq == 100 {
        base + "@100ms"@
    } else if freq == 500 {
        base + "@500ms"@
    } else {
        base
    }
}

/// What a subscription owes: the URL that the path resolves to against the
/// base URL, with the given mode; `InvalidUrl` with the path when the two do
/// not make a URL.
pub open spec fn is_subscription_at(
    res: BianResult<StreamSubscription>,
    base_url: Seq<char>,
    path: Seq<char>,
    mode: StreamMode,
) -> bool {
    match res {
        Ok(s) => url_join(base_url, path) == Some(s.url@) && s.mode == mode,
        Err(e) => url_join(base_url, path) is None && e@ == Failure::InvalidUrl(path),
    }
}

/// The topic of a channel for a symbol.
pub fn topic(symbol: &str, channel: &str) -> (t: String)
    ensures
        t@ == topic_text(symbol@, channel@),
{
    if symbol.unicode_len() == 0 {
        String::from_str(channel)
    } else {
        let mut t = String::from_str(symbol);
        t.append("@");
        t.append(channel);
        proof {
            reveal_strlit("@");
        }
        t
    }
}

/// The path of the single-topic endpoint for a symbol and a channel.
pub fn single_path(symbol: &str, channel: &str) -> (path: String)
    ensures
        path@ == single_path_text(symbol@, channel@),
{
    let mut path = String::from_str("ws/");
    let t = topic(symbol, channel);
    path.append(t.as_str());
    path
}

/// The path and query of the combined endpoint for several symbols and a
/// channel.
pub fn combined_path(symbols: &Vec<String>, channel: &str) -> (path: String)
    ensures
        path@ == combined_path_text(string_views(symbols@), channel@),
{
    let mut joined = String::new();
    let ghost names = string_views(symbols@);
    let mut i: usize = 0;
    while i < symbols.len()
        invariant
            i <= symbols.len(),
            names == string_views(symbols@),
            joined@ == joined_topics(names.take(i as int), channel@),
        decreases symbols.len() - i,
    {
        if i > 0 {
            joined.append("/");
        }
        let t = topic(symbols[i].as_str(), channel);
        joined.append(t.as_str());
        proof {
            reveal_strlit("/");
            assert(names.take(i + 1).drop_last() =~= names.take(i as int));
        }
        i += 1;
    }
    proof {
        assert(names.take(i as int) =~= names);
    }
    let mut path = String::from_str("stream?streams=");
    path.append(joined.as_str());
    path
}

/// The mark-price channel for an update pace.
pub fn mark_price_channel(freq: usize) -> (channel: &'static str)
    ensures
        channel@ == mark_price_channel_text(freq),
{
    if freq == 1 {
        "markPrice@1s"
    } else {
        "markPrice"
    }
}

/// The mark-price channel over all symbols for an update pace.
pub fn mark_price_arr_channel(freq: usize) -> (channel: &'static str)
    ensures
        channel@ == mark_price_arr_channel_text(freq),
{
    if freq == 1 {
        "!markPrice@arr@1s"
    } else {
        "!markPrice@arr"
    }
}

/// The candlestick channel of an interval.
pub fn kline_channel(interval: Interval) -> (channel: String)
    ensures
        channel@ == kline_channel_text(interval),
{
    let mut channel = String::from_str("kline_");
    channel.append(interval.wire_name());
    channel
}

/// The continuous-contract candlestick channel of an interval.
pub fn continuous_kline_channel(interval: Interval) -> (channel: String)
    ensures
        channel@ == continuous_kline_channel_text(interval),
{
    let mut channel = String::from_str("continuousKline_");
    channel.append(interval.wire_name());
    channel
}

/// The symbol of a continuous contract.
pub fn continuous_symbol(pair: &str, contract_type: ContractType) -> (symbol: String)
    ensures
        symbol@ == continuous_symbol_text(pair@, contract_type),
{
    let mut symbol = String::from_str(pair);
    symbol.append("_");
    symbol.append(contract_type.wire_name());
    proof {
        reveal_strlit("_");
    }
    symbol
}

/// The symbols of a continuous contract for several pairs.
pub fn continuous_symbols(pairs: &Vec<String>, contract_type: ContractType) -> (symbols: Vec<
    String,
>)
    ensures
        string_views(symbols@) == continuous_symbol_texts(string_views(pairs@), contract_type),
{
    let mut symbols: Vec<String> = Vec::new();
    let mut i: usize = 0;
    while i < pairs.len()
        invariant
            i <= pairs.len(),
            symbols@.len() == i,
            forall|k: int|
                0 <= k < i ==> (#[trigger] symbols@[k])@ == continuous_symbol_text(
                    pairs@[k]@,
                    contract_type,
                ),
        decreases pairs.len() - i,
    {
        symbols.push(continuous_symbol(pairs[i].as_str(), contract_type));
        i += 1;
    }
    symbols
}

/// The partial-depth channel for a number of levels and an update pace.
pub fn depth_channel(level: usize, freq: usize) -> (channel: String)
    ensures
        channel@ == depth_channel_text(level, freq),
{
    let levels: u64 = if level == 10 {
        10
    } else if level == 20 {
        20
    } else {
        5
    };
    let mut channel = String::from_str("depth");
    append_decimal(&mut channel, levels);
    if freq == 100 {
        channel.append("@100ms");
    } else if freq == 500 {
        channel.append("@500ms");
    }
    channel
}

/// The subscription for a path on the single-topic or the combined endpoint.
pub fn subscribe(base_url: &str, path: &str, mode: StreamMode) -> (res: BianResult<
    StreamSubscription,
>)
    ensures
        is_subscription_at(res, base_url@, path@, mode),
{
    match resolve(base_url, path) {
        Ok(url) => Ok(StreamSubscription { url, mode }),
        Err(e) => Err(e),
    }
}

/// The subscription to one channel of one symbol, on the single-topic
/// endpoint. An empty symbol subscribes to the channel alone.
pub fn subscribe_single(base_url: &str, symbol: &str, channel: &str) -> (res: BianResult<
    StreamSubscription,
>)
    ensures
        is_subscription_at(
            res,
            base_url@,
            single_path_text(symbol@, channel@),
            StreamMode::Single,
        ),
{
    let path = single_path(symbol, channel);
    subscribe(base_url, path.as_str(), StreamMode::Single)
}

/// The subscription to one channel of several symbols, on the combined
/// endpoint.
pub fn subscribe_multi(base_url: &str, symbols: &Vec<String>, channel: &str) -> (res: BianResult<
    StreamSubscription,
>)
    ensures
        is_subscription_at(
            res,
            base_url@,
            combined_path_text(string_views(symbols@), channel@),
            StreamMode::Combined,
        ),
{
    let path = combined_path(symbols, channel);
    subscribe(base_url, path.as_str(), StreamMode::Combined)
}

} // verus!
