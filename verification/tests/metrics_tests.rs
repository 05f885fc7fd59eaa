use fios_stats::errors::{Field, ParseError, ProtocolError};
use fios_stats::json::Json;
use fios_stats::metrics::{
    extract_sample, parse_network_sample, sample_metrics, sink_body, sink_outcome, NetworkSample,
};

const STATUS_BODY: &str =
    "{\"bandwidth\":{\"minutesRx\":[10],\"minutesTx\":[20]},\"rxErrors\":1,\"rxDropped\":2}";

#[test]
fn extraction_scales_each_counter_by_eight() {
    let s = parse_network_sample(STATUS_BODY).unwrap();
    assert_eq!(s.rx, 80);
    assert_eq!(s.tx, 160);
    assert_eq!(s.rx_errors, 8);
    assert_eq!(s.rx_dropped, 16);
}

#[test]
fn extraction_requires_rx_errors() {
    let body = "{\"bandwidth\":{\"minutesRx\":[10],\"minutesTx\":[20]},\"rxDropped\":2}";
    assert_eq!(
        parse_network_sample(body).unwrap_err(),
        ParseError::Missing(Field::RxErrors)
    );
}

#[test]
fn extraction_requires_bandwidth() {
    let body = "{\"rxErrors\":1,\"rxDropped\":2}";
    assert_eq!(
        parse_network_sample(body).unwrap_err(),
        ParseError::Missing(Field::Bandwidth)
    );
}

#[test]
fn extraction_rejects_empty_minutes_array() {
    let body = "{\"bandwidth\":{\"minutesRx\":[],\"minutesTx\":[20]},\"rxErrors\":1,\"rxDropped\":2}";
    assert_eq!(
        parse_network_sample(body).unwrap_err(),
        ParseError::Invalid(Field::MinutesRx)
    );
}

#[test]
fn extraction_rejects_non_integer_counter() {
    let body =
        "{\"bandwidth\":{\"minutesRx\":[10],\"minutesTx\":[20]},\"rxErrors\":-1,\"rxDropped\":2}";
    assert_eq!(
        parse_network_sample(body).unwrap_err(),
        ParseError::Invalid(Field::RxErrors)
    );
}

#[test]
fn extraction_rejects_counter_too_large_to_scale() {
    let body = "{\"bandwidth\":{\"minutesRx\":[2305843009213693952],\"minutesTx\":[20]},\
                \"rxErrors\":1,\"rxDropped\":2}";
    assert_eq!(
        parse_network_sample(body).unwrap_err(),
        ParseError::TooLarge(Field::MinutesRx)
    );
}

#[test]
fn extraction_rejects_bad_json() {
    assert_eq!(parse_network_sample("[1, 2").unwrap_err(), ParseError::Syntax);
}

#[test]
fn extraction_works_on_a_hand_built_document() {
    let doc = Json::Object(vec![
        (
            String::from("bandwidth"),
            Json::Object(vec![
                (String::from("minutesRx"), Json::Array(vec![Json::UInt(3)])),
                (String::from("minutesTx"), Json::Array(vec![Json::UInt(5), Json::UInt(9)])),
            ]),
        ),
        (String::from("rxErrors"), Json::UInt(0)),
        (String::from("rxDropped"), Json::UInt(7)),
    ]);
    let s = extract_sample(&doc).unwrap();
    assert_eq!(s.rx, 24);
    assert_eq!(s.tx, 40);
    assert_eq!(s.rx_errors, 0);
    assert_eq!(s.rx_dropped, 56);
}

#[test]
fn sink_body_emits_one_line_per_metric() {
    let sample = NetworkSample { rx: 80, tx: 160, rx_errors: 8, rx_dropped: 16 };
    let metrics = sample_metrics(&sample);
    let body = sink_body(&metrics, "myfiosgateway.com");
    assert_eq!(
        body,
        "net_tx,host=myfiosgateway.com value=160i\n\
         net_rx,host=myfiosgateway.com value=80i\n\
         net_rx_errors,host=myfiosgateway.com value=8i\n\
         net_rx_dropped,host=myfiosgateway.com value=16i\n"
    );
}

#[test]
fn sink_body_of_two_metrics_keeps_list_order() {
    let metrics = vec![(String::from("net_tx"), 160u64), (String::from("net_rx"), 80u64)];
    let body = sink_body(&metrics, "router.local");
    let lines: Vec<&str> = body.lines().collect();
    assert_eq!(lines.len(), 2);
    assert_eq!(lines[0], "net_tx,host=router.local value=160i");
    assert_eq!(lines[1], "net_rx,host=router.local value=80i");
}

#[test]
fn sink_accepts_only_no_content() {
    assert!(sink_outcome(204).is_ok());
    assert_eq!(
        sink_outcome(200).unwrap_err(),
        ProtocolError::UnexpectedStatus(200)
    );
    assert_eq!(
        sink_outcome(500).unwrap_err(),
        ProtocolError::UnexpectedStatus(500)
    );
}
