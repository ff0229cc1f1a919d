use rs_algo_shared::error::{RsAlgoError, RsAlgoErrorKind};
use rs_algo_shared::helpers::calc::get_prev_index;
use rs_algo_shared::helpers::comp::{average_usize, symbol_in_list};
use rs_algo_shared::helpers::date::{get_week_day, LocalTime};
use rs_algo_shared::helpers::http::{method_to_uppercase, HttpMethod};
use rs_algo_shared::helpers::status::{get_candle_status, get_divergence_status};
use rs_algo_shared::helpers::uuid::{
    calculate_hash, from_str, generate, hash_text, to_be_bytes, try_from_str, uuid_from_hash_text,
};
use rs_algo_shared::models::candle::CandleType;
use rs_algo_shared::models::divergence::DivergenceType;
use rs_algo_shared::models::status::Status;

#[test]
fn previous_index_stops_at_zero() {
    assert_eq!(get_prev_index(0), 0);
    assert_eq!(get_prev_index(1), 0);
    assert_eq!(get_prev_index(10), 9);
}

#[test]
fn average_of_counts_rounds_down() {
    assert_eq!(average_usize(&vec![1, 2, 4]), 2);
    assert_eq!(average_usize(&vec![5]), 5);
    assert_eq!(average_usize(&vec![]), 0);
    assert_eq!(average_usize(&vec![3, 3, 3, 4]), 3);
}

#[test]
fn symbols_are_found_by_their_base() {
    let list = vec!["EURUSD".to_string(), "GBPJPY".to_string()];
    assert!(symbol_in_list("EURUSD", &list));
    assert!(symbol_in_list("EURUSD_4", &list));
    assert!(!symbol_in_list("EUR", &list));
    assert!(!symbol_in_list("USDJPY", &list));
    assert!(!symbol_in_list("EURUSD", &vec![]));
}

#[test]
fn week_day_of_a_local_time() {
    let t = LocalTime { week_day: 5, hour: 21, minute: 0, second: 0, dst: false };
    assert_eq!(get_week_day(t), 5);
}

#[test]
fn request_methods_in_capitals() {
    assert_eq!(method_to_uppercase(&HttpMethod::Get), "GET");
    assert_eq!(method_to_uppercase(&HttpMethod::Delete), "DELETE");
    assert_eq!(method_to_uppercase(&HttpMethod::Patch), "UNKNOWN");
}

#[test]
fn candle_and_divergence_statuses() {
    assert_eq!(get_candle_status(&CandleType::Engulfing), Status::Bullish);
    assert_eq!(get_candle_status(&CandleType::BearishStar), Status::Bearish);
    assert_eq!(get_candle_status(&CandleType::Doji), Status::Default);
    assert_eq!(get_divergence_status(&DivergenceType::Bearish), Status::Bearish);
    assert_eq!(get_divergence_status(&DivergenceType::NoDivergence), Status::Default);
}

#[test]
fn identifier_bytes_and_hash_text() {
    assert_eq!(to_be_bytes("0123456789abcdef"), *b"0123456789abcdef");
    assert_eq!(hash_text(42), "42");
    assert_eq!(hash_text(12345678901234567890), "1234567890123456");
    assert_eq!(hash_text(0), "0");
}

#[test]
fn identifiers_from_hash_texts() {
    let id = uuid_from_hash_text(&"1234567890123456".to_string()).unwrap();
    assert_eq!(id.bytes(), *b"1234567890123456");
    assert!(uuid_from_hash_text(&"123".to_string()).is_none());
}

#[test]
fn generated_identifiers_are_stable() {
    let parts: Vec<String> = (0..6).map(|i| format!("seed{}", i)).collect();
    let seed = [&parts[0], &parts[1], &parts[2], &parts[3], &parts[4], &parts[5]];
    let text = calculate_hash(&seed);
    assert!(text.len() <= 16);
    assert!(text.chars().all(|c| c.is_ascii_digit()));
    assert_eq!(generate(seed), generate(seed));
    assert_eq!(generate(seed), uuid_from_hash_text(&text));
}

#[test]
fn identifiers_read_from_text() {
    let text = "67e55044-10b1-426f-9247-bb680e5fe0c8".to_string();
    let id = from_str(text.clone());
    assert_eq!(try_from_str(text), Some(id));
    assert!(try_from_str("not an id".to_string()).is_none());
}

#[test]
fn errors_keep_their_kind() {
    let err = RsAlgoError::from(RsAlgoErrorKind::ConnectionError);
    assert_eq!(err.kind(), RsAlgoErrorKind::ConnectionError);
    assert_eq!(err.to_string(), "Connection Error!");
    assert_eq!(RsAlgoErrorKind::ParseError.message(), "Error while Parsing!");
    assert_eq!(RsAlgoError::from(RsAlgoErrorKind::NoResponse).to_string(), "No response!");
}
