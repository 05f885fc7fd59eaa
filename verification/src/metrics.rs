//! Extraction of the four network counters from the status document,
//! and the line-protocol body pushed to the metric sink.

use vstd::prelude::*;

use crate::errors::{Field, ParseError, ProtocolError};
use crate::json::{json_of, parse_json, spec_as_uint, spec_at, spec_get, Json};
use crate::text::{spec_dec_digits, u64_to_dec};

verus! {

/// The four interface counters of one status document, each already
/// scaled from the source unit to bits (multiplied by eight).
#[derive(Debug, Clone, Copy, PartialEq, Eq, Structural)]
pub struct NetworkSample {
    pub rx: u64,
    pub tx: u64,
    pub rx_errors: u64,
    pub rx_dropped: u64,
}

/// A counter value scaled by eight, when it fits.
pub open spec fn spec_scaled(v: Json, f: Field) -> Result<u64, ParseError> {
    match spec_as_uint(v) {
        None => Err(ParseError::Invalid(f)),
        Some(n) => if 8 * n <= u64::MAX {
            Ok((8 * n) as u64)
        } else {
            Err(ParseError::TooLarge(f))
        },
    }
}

/// The first element of the minutes array under `key` inside the
/// `bandwidth` object, scaled by eight.
pub open spec fn spec_minutes_counter(doc: Json, key: Seq<char>, f: Field) -> Result<
    u64,
    ParseError,
> {
    match spec_get(doc, "bandwidth"@) {
        None => Err(ParseError::Missing(Field::Bandwidth)),
        Some(bandwidth) => match spec_get(bandwidth, key) {
            None => Err(ParseError::Missing(f)),
            Some(minutes) => match spec_at(minutes, 0) {
                None => Err(ParseError::Invalid(f)),
                Some(v) => spec_scaled(v, f),
            },
        },
    }
}

/// A top-level counter field, scaled by eight.
pub open spec fn spec_top_counter(doc: Json, key: Seq<char>, f: Field) -> Result<u64, ParseError> {
    match spec_get(doc, key) {
        None => Err(ParseError::Missing(f)),
        Some(v) => spec_scaled(v, f),
    }
}

/// What the status document must hold: `bandwidth.minutesRx[0]`,
/// `bandwidth.minutesTx[0]`, `rxErrors` and `rxDropped`, each an
/// unsigned integer, each multiplied by eight. A missing or ill-shaped
/// field is a parse error naming it; nothing is defaulted.
pub open spec fn spec_sample(doc: Json) -> Result<NetworkSample, ParseError> {
    match spec_minutes_counter(doc, "minutesRx"@, Field::MinutesRx) {
        Err(e) => Err(e),
        Ok(rx) => match spec_minutes_counter(doc, "minutesTx"@, Field::MinutesTx) {
            Err(e) => Err(e),
            Ok(tx) => match spec_top_counter(doc, "rxErrors"@, Field::RxErrors) {
                Err(e) => Err(e),
                Ok(rx_errors) => match spec_top_counter(doc, "rxDropped"@, Field::RxDropped) {
                    Err(e) => Err(e),
                    Ok(rx_dropped) => Ok(NetworkSample { rx, tx, rx_errors, rx_dropped }),
                },
            },
        },
    }
}

fn scaled(v: &Json, f: Field) -> (r: Result<u64, ParseError>)
    ensures
        r == spec_scaled(*v, f),
{
    match v.as_uint() {
        None => Err(ParseError::Invalid(f)),
        Some(n) => if n <= u64::MAX / 8 {
            Ok(8 * n)
        } else {
            Err(ParseError::TooLarge(f))
        },
    }
}

fn minutes_counter(doc: &Json, key: &str, f: Field) -> (r: Result<u64, ParseError>)
    ensures
        r == spec_minutes_counter(*doc, key@, f),
{
    match doc.field("bandwidth") {
        None => Err(ParseError::Missing(Field::Bandwidth)),
        Some(bandwidth) => match bandwidth.field(key) {
            None => Err(ParseError::Missing(f)),
            Some(minutes) => match minutes.at(0) {
                None => Err(ParseError::Invalid(f)),
                Some(v) => scaled(v, f),
            },
        },
    }
}

fn top_counter(doc: &Json, key: &str, f: Field) -> (r: Result<u64, ParseError>)
    ensures
        r == spec_top_counter(*doc, key@, f),
{
    match doc.field(key) {
        None => Err(ParseError::Missing(f)),
        Some(v) => scaled(v, f),
    }
}

/// Extracts the four counters from an already-parsed status document.
pub fn extract_sample(doc: &Json) -> (r: Result<NetworkSample, ParseError>)
    ensures
        r == spec_sample(*doc),
{
    let rx = match minutes_counter(doc, "minutesRx", Field::MinutesRx) {
        Ok(v) => v,
        Err(e) => return Err(e),
    };
    let tx = match minutes_counter(doc, "minutesTx", Field::MinutesTx) {
        Ok(v) => v,
        Err(e) => return Err(e),
    };
    let rx_errors = match top_counter(doc, "rxErrors", Field::RxErrors) {
        Ok(v) => v,
        Err(e) => return Err(e),
    };
    let rx_dropped = match top_counter(doc, "rxDropped", Field::RxDropped) {
        Ok(v) => v,
        Err(e) => return Err(e),
    };
    Ok(NetworkSample { rx, tx, rx_errors, rx_dropped })
}

/// A document without `rxErrors` is rejected with the parse error
/// naming that field — never defaulted to zero — whenever the bandwidth
/// counters before it are themselves well-formed.
pub proof fn lemma_missing_rx_errors_rejected(doc: Json)
    requires
        spec_minutes_counter(doc, "minutesRx"@, Field::MinutesRx) is Ok,
        spec_minutes_counter(doc, "minutesTx"@, Field::MinutesTx) is Ok,
        spec_get(doc, "rxErrors"@) is None,
    ensures
        spec_sample(doc) == Err::<NetworkSample, ParseError>(
            ParseError::Missing(Field::RxErrors),
        ),
{
}

/// What parsing a status body yields: `Syntax` where the text is not
/// JSON, else the four scaled counters.
pub open spec fn spec_network_sample(text: Seq<char>) -> Result<NetworkSample, ParseError> {
    match json_of(text) {
        None => Err(ParseError::Syntax),
        Some(doc) => spec_sample(doc),
    }
}

/// Parses the raw body of the network-status GET into a sample.
pub fn parse_network_sample(body: &str) -> (r: Result<NetworkSample, ParseError>)
    ensures
        r == spec_network_sample(body@),
{
    match parse_json(body) {
        None => Err(ParseError::Syntax),
        Some(doc) => extract_sample(&doc),
    }
}

/// One line of the metric sink's line protocol:
/// `<name>,host=<host> value=<value>i` and a newline.
pub open spec fn spec_metric_line(name: Seq<char>, host: Seq<char>, value: u64) -> Seq<char> {
    name + ",host="@ + host + " value="@ + spec_dec_digits(value as nat) + "i\n"@
}

/// The sink body for a list of metrics: one line per metric, in the
/// list's order.
pub open spec fn spec_sink_body(metrics: Seq<(String, u64)>, host: Seq<char>) -> Seq<char>
    decreases metrics.len(),
{
    if metrics.len() == 0 {
        Seq::empty()
    } else {
        spec_metric_line(metrics.first().0@, host, metrics.first().1) + spec_sink_body(
            metrics.drop_first(),
            host,
        )
    }
}

/// Builds one metric line.
fn metric_line(name: &str, host: &str, value: u64) -> (r: String)
    ensures
        r@ == spec_metric_line(name@, host@, value),
{
    let mut r = String::from_str(name);
    r.append(",host=");
    r.append(host);
    r.append(" value=");
    let dec = u64_to_dec(value);
    r.append(dec.as_str());
    r.append("i\n");
    r
}

/// Builds the sink body for a list of (name, value) metrics, one line
/// per metric, in the list's order.
pub fn sink_body(metrics: &Vec<(String, u64)>, host: &str) -> (r: String)
    ensures
        r@ == spec_sink_body(metrics@, host@),
{
    let mut r = String::new();
    let n = metrics.len();
    proof {
        assert(metrics@.skip(0) =~= metrics@);
    }
    for i in 0..n
        invariant
            n == metrics@.len(),
            r@ + spec_sink_body(metrics@.skip(i as int), host@) =~= spec_sink_body(
                metrics@,
                host@,
            ),
    {
        let entry = &metrics[i];
        let line = metric_line(entry.0.as_str(), host, entry.1);
        r.append(line.as_str());
        proof {
            assert(metrics@.skip(i as int).first() == metrics@[i as int]);
            assert(metrics@.skip(i as int).drop_first() =~= metrics@.skip(i + 1));
        }
    }
    proof {
        assert(metrics@.skip(n as int) =~= Seq::<(String, u64)>::empty());
    }
    r
}

/// The four metrics of a sample under their sink names, in the order
/// they are emitted.
pub fn sample_metrics(sample: &NetworkSample) -> (r: Vec<(String, u64)>)
    ensures
        r@.len() == 4,
        r@[0].0@ == "net_tx"@ && r@[0].1 == sample.tx,
        r@[1].0@ == "net_rx"@ && r@[1].1 == sample.rx,
        r@[2].0@ == "net_rx_errors"@ && r@[2].1 == sample.rx_errors,
        r@[3].0@ == "net_rx_dropped"@ && r@[3].1 == sample.rx_dropped,
{
    let mut r: Vec<(String, u64)> = Vec::new();
    r.push((String::from_str("net_tx"), sample.tx));
    r.push((String::from_str("net_rx"), sample.rx));
    r.push((String::from_str("net_rx_errors"), sample.rx_errors));
    r.push((String::from_str("net_rx_dropped"), sample.rx_dropped));
    r
}

/// What the sink's response status determines: only 204 (No Content)
/// is success; any other status is a protocol error carrying it.
pub open spec fn spec_sink_outcome(status: u16) -> Result<(), ProtocolError> {
    if status == 204 {
        Ok(())
    } else {
        Err(ProtocolError::UnexpectedStatus(status))
    }
}

/// Judges the response of the sink push.
pub fn sink_outcome(status: u16) -> (r: Result<(), ProtocolError>)
    ensures
        r == spec_sink_outcome(status),
{
    if status == 204 {
        Ok(())
    } else {
        Err(ProtocolError::UnexpectedStatus(status))
    }
}

} // verus!
