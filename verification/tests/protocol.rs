use rustengan::ident::{decimal, format_unique_id};
use rustengan::message::{Message, MessageBody, Payload, PayloadKind};
use rustengan::node::{EchoNode, StepError};
use rustengan::outbox::Outbox;
use rustengan::wire::{decode, encode, kind_named, output_line, parse, serialize, tag, ParseError};
use serde_json::Value;

fn line_of(m: &Message) -> String {
    serialize(m).expect("a message has a text")
}

fn message(src: &str, dest: &str, msg_id: Option<usize>, payload: Payload) -> Message {
    Message {
        src: src.to_string(),
        dest: dest.to_string(),
        body: MessageBody { msg_id, in_reply_to: None, payload },
    }
}

fn echo(text: &str) -> Payload {
    Payload::Echo { echo: text.to_string() }
}

fn init() -> Payload {
    Payload::Init { node_id: "n1".to_string(), node_ids: vec!["n1".to_string(), "n2".to_string()] }
}

fn feed_line(node: &mut EchoNode, out: &mut Outbox, line: &str) -> Vec<String> {
    let input = parse(line).expect("the line is a message");
    node.step(input, out).expect("the step succeeds");
    out.take().iter().map(line_of).collect()
}

#[test]
fn init_scenario_end_to_end() {
    let mut node = EchoNode::new();
    let mut out = Outbox::new();
    let lines = feed_line(
        &mut node,
        &mut out,
        r#"{"src":"c1","dest":"n1","body":{"msg_id":1,"type":"init","node_id":"n1","node_ids":["n1"]}}"#,
    );
    assert_eq!(
        lines,
        vec![r#"{"src":"n1","dest":"c1","body":{"msg_id":0,"in_reply_to":1,"type":"init_ok"}}"#.to_string()]
    );
    assert_eq!(node.id(), 1);
}

#[test]
fn echo_scenario_after_init() {
    let mut node = EchoNode::new();
    let mut out = Outbox::new();
    feed_line(
        &mut node,
        &mut out,
        r#"{"src":"c1","dest":"n1","body":{"msg_id":1,"type":"init","node_id":"n1","node_ids":["n1"]}}"#,
    );
    let lines = feed_line(
        &mut node,
        &mut out,
        r#"{"src":"c1","dest":"n1","body":{"msg_id":2,"type":"echo","echo":"hello"}}"#,
    );
    assert_eq!(
        lines,
        vec![r#"{"src":"n1","dest":"c1","body":{"msg_id":1,"in_reply_to":2,"type":"echo_ok","echo":"hello"}}"#.to_string()]
    );
    assert_eq!(node.id(), 2);
}

#[test]
fn new_node_starts_at_zero() {
    assert_eq!(EchoNode::new().id(), 0);
    assert_eq!(EchoNode::starting_at(41).id(), 41);
}

#[test]
fn counter_counts_replies() {
    let mut node = EchoNode::starting_at(7);
    let mut out = Outbox::new();
    let requests = vec![init(), echo("a"), Payload::Generate {}, echo("b"), Payload::Generate {}];
    for (k, payload) in requests.into_iter().enumerate() {
        let res = node.step_at(message("c1", "n1", Some(100 + k), payload), Some(5), &mut out);
        assert_eq!(res, Ok(()));
        assert_eq!(node.id(), 7 + k + 1);
    }
    let lines = out.take();
    assert_eq!(lines.len(), 5);
    for (k, line) in lines.iter().enumerate() {
        assert_eq!(line.body.msg_id, Some(7 + k));
        assert_eq!(line.body.in_reply_to, Some(100 + k));
    }
}

#[test]
fn reply_swaps_sender_and_receiver() {
    let mut node = EchoNode::new();
    let mut out = Outbox::new();
    node.step(message("c9", "n3", Some(4), echo("x")), &mut out).unwrap();
    let lines = out.take();
    assert_eq!(lines.len(), 1);
    assert_eq!(lines[0].src, "n3");
    assert_eq!(lines[0].dest, "c9");
    assert_eq!(lines[0].body.msg_id, Some(0));
    assert_eq!(lines[0].body.in_reply_to, Some(4));
}

#[test]
fn reply_to_request_without_id_names_none() {
    let mut node = EchoNode::new();
    let mut out = Outbox::new();
    node.step(message("c1", "n1", None, init()), &mut out).unwrap();
    node.step(message("c1", "n1", None, echo("x")), &mut out).unwrap();
    node.step(message("c1", "n1", None, Payload::Generate {}), &mut out).unwrap();
    let lines = out.take();
    assert_eq!(lines.len(), 3);
    for line in &lines {
        assert_eq!(line.body.in_reply_to, None);
    }
    assert_eq!(
        line_of(&lines[0]),
        r#"{"src":"n1","dest":"c1","body":{"msg_id":0,"type":"init_ok"}}"#
    );
}

#[test]
fn reply_ignores_in_reply_to_of_request() {
    let mut node = EchoNode::new();
    let mut out = Outbox::new();
    let mut input = message("c1", "n1", Some(3), echo("x"));
    input.body.in_reply_to = Some(99);
    node.step(input, &mut out).unwrap();
    assert_eq!(out.take()[0].body.in_reply_to, Some(3));
}

#[test]
fn echo_comes_back_unchanged() {
    for text in ["", "hello", "  two  spaces\tand a tab\n", "héllo wörld ✓ 日本語", "\"quoted\\\""] {
        let mut node = EchoNode::new();
        let mut out = Outbox::new();
        node.step(message("c1", "n1", Some(1), echo(text)), &mut out).unwrap();
        let lines = out.take();
        assert_eq!(lines.len(), 1);
        assert_eq!(lines[0].body.payload, Payload::EchoOk { echo: text.to_string() });
    }
}

#[test]
fn init_is_acknowledged() {
    let mut node = EchoNode::new();
    let mut out = Outbox::new();
    node.step(message("c1", "n1", Some(1), init()), &mut out).unwrap();
    assert_eq!(out.take()[0].body.payload, Payload::InitOk {});
}

#[test]
fn generate_at_a_given_second() {
    let mut node = EchoNode::starting_at(12);
    let mut out = Outbox::new();
    let res = node.step_at(message("c1", "n1", Some(5), Payload::Generate {}), Some(1700000000), &mut out);
    assert_eq!(res, Ok(()));
    let lines = out.take();
    assert_eq!(lines.len(), 1);
    assert_eq!(lines[0].body.payload, Payload::GenerateOk { id: "1700000000_n1_12".to_string() });
    assert_eq!(lines[0].body.msg_id, Some(12));
    assert_eq!(lines[0].body.in_reply_to, Some(5));
    assert_eq!(node.id(), 13);
}

#[test]
fn generate_reads_the_clock() {
    let mut node = EchoNode::starting_at(3);
    let mut out = Outbox::new();
    node.step(message("c1", "n7", Some(5), Payload::Generate {}), &mut out).unwrap();
    let lines = out.take();
    let id = match &lines[0].body.payload {
        Payload::GenerateOk { id } => id.clone(),
        other => panic!("unexpected payload {:?}", other),
    };
    let parts: Vec<&str> = id.split('_').collect();
    assert_eq!(parts.len(), 3);
    let secs: u64 = parts[0].parse().expect("seconds");
    assert!(secs > 1_600_000_000);
    assert_eq!(parts[0], secs.to_string());
    assert_eq!(parts[1], "n7");
    assert_eq!(parts[2], "3");
}

#[test]
fn gen_unique_id_has_the_shape() {
    let node = EchoNode::starting_at(12);
    let id = node.gen_unique_id("n1").expect("the clock reads a time after the epoch");
    assert!(id.ends_with("_n1_12"));
    let secs: u64 = id[..id.len() - "_n1_12".len()].parse().expect("seconds");
    assert_eq!(id, format_unique_id(secs, "n1", 12));
}

#[test]
fn unique_id_at_is_exact() {
    assert_eq!(EchoNode::starting_at(0).unique_id_at(0, ""), "0__0");
    assert_eq!(EchoNode::starting_at(9).unique_id_at(10, "n_1"), "10_n_1_9");
}

#[test]
fn same_second_same_dest_differs_by_counter() {
    let a = format_unique_id(1700000000, "n1", 1);
    let b = format_unique_id(1700000000, "n1", 12);
    let c = format_unique_id(1700000000, "n1", 1);
    assert_ne!(a, b);
    assert_eq!(a, c);
    assert_eq!(a, "1700000000_n1_1");
    assert_eq!(b, "1700000000_n1_12");
}

#[test]
fn unpadded_parts_keep_apart_by_the_underscores() {
    assert_eq!(format_unique_id(5, "n1", 2), "5_n1_2");
    assert_eq!(format_unique_id(5, "n", 12), "5_n_12");
    assert_ne!(format_unique_id(5, "n1", 2), format_unique_id(5, "n", 12));
    assert_ne!(format_unique_id(5, "n1", 2), format_unique_id(5, "n2", 2));
}

#[test]
fn decimal_is_exact() {
    assert_eq!(decimal(0), "0");
    assert_eq!(decimal(7), "7");
    assert_eq!(decimal(10), "10");
    assert_eq!(decimal(1234567890), "1234567890");
    assert_eq!(decimal(u64::MAX), "18446744073709551615");
    assert_eq!(decimal(u64::MAX), u64::MAX.to_string());
}

#[test]
fn answers_are_violations() {
    let answers = vec![
        (Payload::InitOk {}, PayloadKind::InitOk),
        (Payload::EchoOk { echo: "x".to_string() }, PayloadKind::EchoOk),
        (Payload::GenerateOk { id: "1_n1_0".to_string() }, PayloadKind::GenerateOk),
    ];
    for (payload, kind) in answers {
        let mut node = EchoNode::starting_at(4);
        let mut out = Outbox::new();
        let res = node.step(message("c1", "n1", Some(1), payload), &mut out);
        assert_eq!(res, Err(StepError::ProtocolViolation(kind)));
        assert_eq!(out.len(), 0);
        assert!(out.take().is_empty());
        assert_eq!(node.id(), 4);
    }
}

#[test]
fn violation_comes_before_a_closed_output() {
    let mut node = EchoNode::new();
    let mut out = Outbox::new();
    out.close();
    let res = node.step(message("c1", "n1", Some(1), Payload::InitOk {}), &mut out);
    assert_eq!(res, Err(StepError::ProtocolViolation(PayloadKind::InitOk)));
}

#[test]
fn refused_write_leaves_the_counter() {
    let mut node = EchoNode::starting_at(2);
    let mut out = Outbox::new();
    node.step(message("c1", "n1", Some(1), echo("kept")), &mut out).unwrap();
    out.close();
    assert!(!out.is_open());
    let res = node.step(message("c1", "n1", Some(2), echo("lost")), &mut out);
    assert_eq!(res, Err(StepError::Write));
    assert_eq!(node.id(), 3);
    let lines = out.take();
    assert_eq!(lines.len(), 1);
    assert_eq!(lines[0].body.payload, Payload::EchoOk { echo: "kept".to_string() });
}

#[test]
fn clock_before_epoch_fails_generate_only() {
    let mut node = EchoNode::new();
    let mut out = Outbox::new();
    let res = node.step_at(message("c1", "n1", Some(1), Payload::Generate {}), None, &mut out);
    assert_eq!(res, Err(StepError::ClockBeforeEpoch));
    assert_eq!(node.id(), 0);
    assert_eq!(out.len(), 0);
    let res = node.step_at(message("c1", "n1", Some(1), echo("x")), None, &mut out);
    assert_eq!(res, Ok(()));
    assert_eq!(node.id(), 1);
}

#[test]
fn errors_describe_themselves() {
    assert_eq!(
        StepError::ProtocolViolation(PayloadKind::EchoOk).describe(),
        "Received unexpected EchoOk message!"
    );
    assert_eq!(
        StepError::ProtocolViolation(PayloadKind::InitOk).describe(),
        "Received unexpected InitOk message!"
    );
    assert_eq!(
        StepError::ProtocolViolation(PayloadKind::GenerateOk).describe(),
        "Received unexpected GenerateOk message!"
    );
    assert_eq!(StepError::Write.describe(), "Failed to write reply data to output: stdout.");
    assert_eq!(StepError::ClockBeforeEpoch.describe(), "Time went backwards?");
}

#[test]
fn kinds_and_names() {
    assert_eq!(echo("x").kind(), PayloadKind::Echo);
    assert_eq!(init().kind(), PayloadKind::Init);
    assert_eq!(Payload::Generate {}.kind(), PayloadKind::Generate);
    assert!(PayloadKind::Echo.expects_reply());
    assert!(PayloadKind::Init.expects_reply());
    assert!(PayloadKind::Generate.expects_reply());
    assert!(!PayloadKind::EchoOk.expects_reply());
    assert!(!PayloadKind::InitOk.expects_reply());
    assert!(!PayloadKind::GenerateOk.expects_reply());
    assert_eq!(PayloadKind::Generate.name(), "Generate");
    assert_eq!(tag(PayloadKind::GenerateOk), "generate_ok");
    assert_eq!(tag(PayloadKind::Echo), "echo");
    assert_eq!(kind_named(&"init_ok".to_string()), Some(PayloadKind::InitOk));
    assert_eq!(kind_named(&"echo".to_string()), Some(PayloadKind::Echo));
    assert_eq!(kind_named(&"Echo".to_string()), None);
    assert_eq!(kind_named(&"".to_string()), None);
}

#[test]
fn outbox_keeps_order_and_empties() {
    let mut out = Outbox::new();
    assert!(out.is_open());
    assert!(out.write(message("a", "b", Some(1), echo("one"))));
    assert!(out.write(message("a", "b", Some(2), echo("two"))));
    assert_eq!(out.len(), 2);
    let lines = out.take();
    assert_eq!(lines[0].body.msg_id, Some(1));
    assert_eq!(lines[1].body.msg_id, Some(2));
    assert_eq!(out.len(), 0);
    assert!(out.is_open());
    out.close();
    assert!(!out.write(message("a", "b", Some(3), echo("three"))));
    assert_eq!(out.len(), 0);
}

#[test]
fn every_payload_round_trips() {
    let payloads = vec![
        echo("hello"),
        echo(""),
        echo("ünïcödé \n \"q\""),
        Payload::EchoOk { echo: "back".to_string() },
        init(),
        Payload::Init { node_id: "n1".to_string(), node_ids: vec![] },
        Payload::InitOk {},
        Payload::Generate {},
        Payload::GenerateOk { id: "1700000000_n1_12".to_string() },
    ];
    for payload in payloads {
        for msg_id in [None, Some(0), Some(usize::MAX)] {
            for in_reply_to in [None, Some(17)] {
                let m = Message {
                    src: "c1".to_string(),
                    dest: "n1".to_string(),
                    body: MessageBody { msg_id, in_reply_to, payload: payload.clone() },
                };
                assert_eq!(decode(&encode(&m)), Ok(m.clone()));
                assert_eq!(parse(&line_of(&m)), Ok(m));
            }
        }
    }
}

#[test]
fn wire_shape_is_flat_and_ordered() {
    let m = Message {
        src: "c1".to_string(),
        dest: "n1".to_string(),
        body: MessageBody { msg_id: Some(1), in_reply_to: Some(2), payload: init() },
    };
    assert_eq!(
        line_of(&m),
        r#"{"src":"c1","dest":"n1","body":{"msg_id":1,"in_reply_to":2,"type":"init","node_id":"n1","node_ids":["n1","n2"]}}"#
    );
    let m = message("a", "b", None, Payload::Generate {});
    assert_eq!(line_of(&m), r#"{"src":"a","dest":"b","body":{"type":"generate"}}"#);
    let m = message("a", "b", None, Payload::GenerateOk { id: "x".to_string() });
    assert_eq!(line_of(&m), r#"{"src":"a","dest":"b","body":{"type":"generate_ok","id":"x"}}"#);
    let m = message("a", "b", Some(3), Payload::EchoOk { echo: "e".to_string() });
    assert_eq!(line_of(&m), r#"{"src":"a","dest":"b","body":{"msg_id":3,"type":"echo_ok","echo":"e"}}"#);
}

#[test]
fn parse_takes_members_in_any_order() {
    let m = parse(r#"{"body":{"echo":"hi","type":"echo","in_reply_to":null,"msg_id":9},"dest":"n1","src":"c1"}"#);
    assert_eq!(m, Ok(message("c1", "n1", Some(9), echo("hi"))));
}

#[test]
fn parse_takes_absent_and_null_ids() {
    let m = parse(r#"{"src":"c1","dest":"n1","body":{"type":"generate"}}"#);
    assert_eq!(m, Ok(message("c1", "n1", None, Payload::Generate {})));
    let m = parse(r#"{"src":"c1","dest":"n1","body":{"msg_id":null,"type":"init_ok"}}"#);
    assert_eq!(m, Ok(message("c1", "n1", None, Payload::InitOk {})));
}

#[test]
fn parse_passes_over_members_it_does_not_know() {
    let m = parse(r#"{"src":"c1","dest":"n1","id":7,"body":{"type":"generate","echo":1,"extra":[{}]}}"#);
    assert_eq!(m, Ok(message("c1", "n1", None, Payload::Generate {})));
}

#[test]
fn parse_reports_missing_fields() {
    for text in [
        r#"{"dest":"n1","body":{"type":"generate"}}"#,
        r#"{"src":"c1","body":{"type":"generate"}}"#,
        r#"{"src":"c1","dest":"n1"}"#,
        r#"{"src":"c1","dest":"n1","body":{"msg_id":1}}"#,
        r#"{"src":"c1","dest":"n1","body":{"type":"echo"}}"#,
        r#"{"src":"c1","dest":"n1","body":{"type":"echo_ok"}}"#,
        r#"{"src":"c1","dest":"n1","body":{"type":"init","node_ids":[]}}"#,
        r#"{"src":"c1","dest":"n1","body":{"type":"init","node_id":"n1"}}"#,
        r#"{"src":"c1","dest":"n1","body":{"type":"generate_ok"}}"#,
    ] {
        assert_eq!(parse(text), Err(ParseError::MissingField), "{}", text);
    }
}

#[test]
fn parse_reports_unknown_types() {
    for text in [
        r#"{"src":"c1","dest":"n1","body":{"type":"read"}}"#,
        r#"{"src":"c1","dest":"n1","body":{"type":"Echo","echo":"x"}}"#,
        r#"{"src":"c1","dest":"n1","body":{"type":"","echo":"x"}}"#,
        r#"{"src":"c1","dest":"n1","body":{"type":"echo_ok ","echo":"x"}}"#,
    ] {
        assert_eq!(parse(text), Err(ParseError::UnknownType), "{}", text);
    }
}

#[test]
fn parse_reports_malformed_values() {
    for text in [
        r#"[]"#,
        r#""src""#,
        r#"{"src":1,"dest":"n1","body":{"type":"generate"}}"#,
        r#"{"src":"c1","dest":null,"body":{"type":"generate"}}"#,
        r#"{"src":"c1","dest":"n1","body":"generate"}"#,
        r#"{"src":"c1","dest":"n1","body":{"msg_id":-1,"type":"generate"}}"#,
        r#"{"src":"c1","dest":"n1","body":{"msg_id":1.5,"type":"generate"}}"#,
        r#"{"src":"c1","dest":"n1","body":{"msg_id":"1","type":"generate"}}"#,
        r#"{"src":"c1","dest":"n1","body":{"in_reply_to":true,"type":"generate"}}"#,
        r#"{"src":"c1","dest":"n1","body":{"type":7}}"#,
        r#"{"src":"c1","dest":"n1","body":{"type":"echo","echo":5}}"#,
        r#"{"src":"c1","dest":"n1","body":{"type":"init","node_id":"n1","node_ids":"n1"}}"#,
        r#"{"src":"c1","dest":"n1","body":{"type":"init","node_id":"n1","node_ids":["n1",2]}}"#,
    ] {
        assert_eq!(parse(text), Err(ParseError::Malformed), "{}", text);
    }
}

#[test]
fn first_fault_is_reported() {
    assert_eq!(parse(r#"{"dest":1,"body":{"type":"read"}}"#), Err(ParseError::MissingField));
    assert_eq!(parse(r#"{"src":"a","dest":1}"#), Err(ParseError::Malformed));
    assert_eq!(
        parse(r#"{"src":"a","dest":"b","body":{"msg_id":"x","type":"read"}}"#),
        Err(ParseError::Malformed)
    );
}

#[test]
fn parse_reports_text_that_is_no_json() {
    for text in ["", "{", r#"{"src":"c1","dest":"n1","body":{"type":"generate"}"#, "src", "{} {}"] {
        assert_eq!(parse(text), Err(ParseError::Syntax), "{}", text);
    }
}

#[test]
fn parse_takes_the_last_of_a_repeated_member() {
    let m = parse(r#"{"src":"c1","dest":"n1","body":{"type":"echo","echo":"one","echo":"two"}}"#);
    assert_eq!(m, Ok(message("c1", "n1", None, echo("two"))));
}

#[test]
fn decode_reads_a_value() {
    let value: Value =
        serde_json::from_str(r#"{"src":"c1","dest":"n1","body":{"msg_id":3,"type":"echo","echo":"hi"}}"#)
            .unwrap();
    assert_eq!(decode(&value), Ok(message("c1", "n1", Some(3), echo("hi"))));
    assert_eq!(decode(&Value::Null), Err(ParseError::Malformed));
    assert_eq!(decode(&Value::from(3u64)), Err(ParseError::Malformed));
}

#[test]
fn encode_writes_a_value() {
    let m = message("c1", "n1", Some(3), init());
    let value = encode(&m);
    assert_eq!(value["src"], Value::from("c1"));
    assert_eq!(value["dest"], Value::from("n1"));
    assert_eq!(value["body"]["msg_id"], Value::from(3u64));
    assert_eq!(value["body"]["type"], Value::from("init"));
    assert_eq!(value["body"]["node_id"], Value::from("n1"));
    assert_eq!(value["body"]["node_ids"], Value::from(vec!["n1", "n2"]));
    assert!(value["body"].get("in_reply_to").is_none());
    assert!(value.get("type").is_none());
    assert_eq!(value.as_object().unwrap().len(), 3);
    assert_eq!(value["body"].as_object().unwrap().len(), 4);
}

#[test]
fn ids_beyond_the_unsigned_range_are_malformed() {
    assert_eq!(
        parse(r#"{"src":"c1","dest":"n1","body":{"msg_id":18446744073709551616,"type":"generate"}}"#),
        Err(ParseError::Malformed)
    );
    assert_eq!(
        parse(r#"{"src":"c1","dest":"n1","body":{"msg_id":18446744073709551615,"type":"generate"}}"#),
        Ok(message("c1", "n1", Some(18446744073709551615), Payload::Generate {}))
    );
}

#[test]
fn line_ends_with_one_newline() {
    let m = message("a", "b", Some(3), Payload::EchoOk { echo: "e\nf".to_string() });
    assert_eq!(
        output_line(&m),
        Some("{\"src\":\"a\",\"dest\":\"b\",\"body\":{\"msg_id\":3,\"type\":\"echo_ok\",\"echo\":\"e\\nf\"}}\n".to_string())
    );
    assert_eq!(output_line(&m).unwrap(), format!("{}\n", serialize(&m).unwrap()));
}

#[test]
fn parse_errors_describe_themselves() {
    assert_eq!(ParseError::Syntax.describe(), "the input is no JSON value");
    assert_eq!(ParseError::MissingField.describe(), "a required field is missing");
    assert_eq!(ParseError::UnknownType.describe(), "the body's type names no known payload");
    assert_eq!(ParseError::Malformed.describe(), "a value has the wrong shape");
}

#[test]
fn violation_is_reported_at_the_last_counter() {
    let mut node = EchoNode::starting_at(usize::MAX);
    let mut out = Outbox::new();
    let res = node.step(message("c1", "n1", Some(1), Payload::InitOk {}), &mut out);
    assert_eq!(res, Err(StepError::ProtocolViolation(PayloadKind::InitOk)));
    assert_eq!(node.id(), usize::MAX);
    assert_eq!(out.len(), 0);
}
