use rs_mqtt2jsons::{print_strings, Event, EvtSourceCfg, OptCfg, QoS};
use std::collections::VecDeque;

type Item = Result<String, String>;

fn line(text: &str) -> Item {
    Ok(String::from(text))
}

fn config(retries: usize) -> EvtSourceCfg {
    EvtSourceCfg::new(OptCfg::default().into_opts(), String::from("t"), retries, QoS::AtMostOnce, 10)
}

#[test]
fn sink_writes_two_lines_then_surfaces_the_error() {
    let mut out: Vec<String> = Vec::new();
    let result = print_strings(vec![line("x"), line("y"), Err(String::from("terminal"))], &mut out);
    assert_eq!(result, Err(String::from("terminal")));
    assert_eq!(out, vec![String::from("x"), String::from("y")]);
}

#[test]
fn sink_writes_nothing_after_the_error() {
    let mut out: Vec<String> = Vec::new();
    let items = vec![line("x"), Err(String::from("first")), line("y"), Err(String::from("second"))];
    let result = print_strings(items, &mut out);
    assert_eq!(result, Err(String::from("first")));
    assert_eq!(out, vec![String::from("x")]);
}

#[test]
fn sink_without_error_writes_everything() {
    let mut out: Vec<String> = Vec::new();
    let result: Result<(), String> = print_strings(vec![line("a"), line(""), line("c")], &mut out);
    assert_eq!(result, Ok(()));
    assert_eq!(out, vec![String::from("a"), String::new(), String::from("c")]);
}

#[test]
fn sink_over_nothing_writes_nothing() {
    let mut out: Vec<String> = Vec::new();
    let result: Result<(), String> = print_strings(Vec::new(), &mut out);
    assert_eq!(result, Ok(()));
    assert!(out.is_empty());
}

#[test]
fn sink_with_error_first_writes_nothing() {
    let mut out: Vec<String> = Vec::new();
    let result = print_strings(vec![Err(String::from("e")), line("x")], &mut out);
    assert_eq!(result, Err(String::from("e")));
    assert!(out.is_empty());
}

#[test]
fn sink_appends_to_what_was_written_before() {
    let mut out: Vec<String> = vec![String::from("earlier")];
    let result: Result<(), String> = print_strings(vec![line("x")], &mut out);
    assert_eq!(result, Ok(()));
    assert_eq!(out, vec![String::from("earlier"), String::from("x")]);
}

#[test]
fn into_strings_streams_the_decoded_payloads() {
    let feed: VecDeque<Result<Event, String>> = VecDeque::from(vec![
        Ok(Event::Publish(b"x".to_vec())),
        Ok(Event::Other),
        Ok(Event::Publish(vec![0xff])),
        Ok(Event::Publish(b"y".to_vec())),
        Err(String::from("poll failed")),
        Ok(Event::Publish(b"z".to_vec())),
    ]);
    let strings = config(2).into_strings(Ok(()), feed);
    assert_eq!(
        strings,
        Ok(vec![line("x"), line(""), line("y"), Err(String::from("poll failed"))])
    );
}

#[test]
fn into_strings_returns_a_failed_subscription_and_streams_nothing() {
    let feed: VecDeque<Result<Event, String>> =
        VecDeque::from(vec![Ok(Event::Publish(b"x".to_vec()))]);
    let strings = config(2).into_strings(Err(String::from("not subscribed")), feed);
    assert_eq!(strings, Err(String::from("not subscribed")));
}

#[test]
fn into_strings_with_zero_budget_streams_nothing() {
    let feed: VecDeque<Result<Event, String>> =
        VecDeque::from(vec![Ok(Event::Publish(b"x".to_vec()))]);
    let strings = config(0).into_strings(Ok(()), feed);
    assert_eq!(strings, Ok(Vec::new()));
}

#[test]
fn whole_pipeline_writes_the_lines_and_surfaces_the_poll_error() {
    let feed: VecDeque<Result<Event, String>> = VecDeque::from(vec![
        Ok(Event::Other),
        Ok(Event::Publish(b"x".to_vec())),
        Ok(Event::Other),
        Ok(Event::Other),
        Ok(Event::Publish(b"y".to_vec())),
        Err(String::from("connection lost")),
    ]);
    let strings = config(2).into_strings(Ok(()), feed).unwrap();
    let mut out: Vec<String> = Vec::new();
    let result = print_strings(strings, &mut out);
    assert_eq!(out, vec![String::from("x"), String::from("y")]);
    assert_eq!(result, Err(String::from("connection lost")));
}
