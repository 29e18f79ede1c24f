use rollup_driver::codec::encode;
use rollup_driver::driver::classify;
use rollup_driver::driver::Classified;
use rollup_driver::driver::PollReply;
use rollup_driver::driver::StudentDriver;
use rollup_driver::driver::UpperDriver;
use rollup_driver::Channel;
use rollup_driver::OutboundMessage;
use rollup_driver::Verdict;

fn advance_body(sender: &str, text: &str) -> String {
    format!(
        "{{\"request_type\":\"advance_state\",\"data\":{{\"payload\":\"{}\",\"metadata\":{{\"msg_sender\":\"{}\",\"epoch_index\":0}}}}}}",
        encode(text),
        sender
    )
}

fn inspect_body(text: &str) -> String {
    format!(
        "{{\"request_type\":\"inspect_state\",\"data\":{{\"payload\":\"{}\"}}}}",
        encode(text)
    )
}

#[test]
fn classify_sorts_request_bodies() {
    assert!(matches!(classify(&advance_body("0xA", "hi")), Classified::Advance { .. }));
    assert!(matches!(classify(&inspect_body("total")), Classified::Inspect { .. }));
    assert!(matches!(
        classify("{\"request_type\":\"shutdown\"}"),
        Classified::Unknown
    ));
    assert!(matches!(classify("not json"), Classified::Malformed));
    assert!(matches!(classify("{\"data\":{}}"), Classified::Malformed));
    assert!(matches!(
        classify("{\"request_type\":\"advance_state\",\"data\":{}}"),
        Classified::Malformed
    ));
}

#[test]
fn fresh_drivers_owe_accept() {
    assert_eq!(StudentDriver::new().verdict(), Verdict::Accept);
    assert_eq!(UpperDriver::new().verdict(), Verdict::Accept);
}

#[test]
fn unknown_request_type_rejects_without_dispatch() {
    let mut d = UpperDriver::new();
    let msgs = d.step(PollReply::Request("{\"request_type\":\"shutdown\"}".to_string()));
    assert_eq!(msgs.len(), 0);
    assert_eq!(d.verdict(), Verdict::Reject);
    assert_eq!(d.storage().toUpperTotal, 0);
    assert_eq!(d.storage().userStruct.len(), 0);
}

#[test]
fn malformed_envelope_reports_and_rejects() {
    let mut d = UpperDriver::new();
    let msgs = d.step(PollReply::Request("not json".to_string()));
    assert_eq!(msgs.len(), 1);
    assert_eq!(msgs[0].channel, Channel::Report);
    assert_eq!(msgs[0].payload, "Malformed request envelope");
    assert_eq!(d.verdict(), Verdict::Reject);
}

#[test]
fn no_pending_request_keeps_the_verdict() {
    let mut d = UpperDriver::new();
    d.step(PollReply::Request("{\"request_type\":\"shutdown\"}".to_string()));
    assert_eq!(d.verdict(), Verdict::Reject);
    let msgs = d.step(PollReply::NoPending);
    assert_eq!(msgs.len(), 0);
    assert_eq!(d.verdict(), Verdict::Reject);
}

#[test]
fn verdict_follows_the_previous_request() {
    let mut d = UpperDriver::new();

    let msgs = d.step(PollReply::Request(advance_body("0xA", "good sentence")));
    assert_eq!(d.verdict(), Verdict::Accept);
    assert_eq!(msgs.len(), 1);
    assert_eq!(msgs[0].channel, Channel::Notice);
    assert_eq!(msgs[0].payload, "GOOD SENTENCE");

    let msgs = d.step(PollReply::Request(advance_body("0xA", "42")));
    assert_eq!(d.verdict(), Verdict::Reject);
    assert_eq!(msgs[0].channel, Channel::Report);

    let msgs = d.step(PollReply::Request(inspect_body("total")));
    assert_eq!(d.verdict(), Verdict::Accept);
    assert_eq!(msgs[0].payload, "Total upper: 1");
}

#[test]
fn repeated_inspect_steps_are_idempotent_and_isolated() {
    let mut d = StudentDriver::new();
    d.step(PollReply::Request(advance_body(
        "0xA",
        "{\"method\":\"create\",\"name\":\"Ada\",\"age\":30,\"wallet_address\":\"0xABC\"}",
    )));
    assert_eq!(d.verdict(), Verdict::Accept);
    assert_eq!(d.students().len(), 1);

    let m1 = d.step(PollReply::Request(inspect_body("all_students")));
    let m2 = d.step(PollReply::Request(inspect_body("all_students")));
    assert_eq!(m1[0].payload, m2[0].payload);
    assert_eq!(d.students().len(), 1);
    assert_eq!(d.students()[0].attendance_count(), 0);
}

#[test]
fn student_driver_routes_advance_and_inspect() {
    let mut d = StudentDriver::new();
    let msgs = d.step(PollReply::Request(advance_body(
        "0xA",
        "{\"method\":\"create\",\"name\":\"Grace\",\"age\":36,\"wallet_address\":\"0xDEF\"}",
    )));
    assert_eq!(msgs[0].payload, "Student created successfully");
    let msgs = d.step(PollReply::Request(inspect_body("student/0xdef")));
    assert_eq!(
        msgs[0].payload,
        "Student { name: \"Grace\", age: 36, wallet_address: \"0xdef\", attendance_count: 0 }"
    );
    assert_eq!(d.verdict(), Verdict::Accept);
}

#[test]
fn outbound_messages_are_hex_wrapped_for_the_wire() {
    let m = OutboundMessage { channel: Channel::Notice, payload: "hello".to_string() };
    assert_eq!(m.encoded_payload(), "0x68656c6c6f");
    assert_eq!(m.channel.endpoint(), "notice");
    let m = OutboundMessage { channel: Channel::Report, payload: String::new() };
    assert_eq!(m.encoded_payload(), "0x");
    assert_eq!(m.channel.endpoint(), "report");
}

#[test]
fn verdicts_have_wire_names() {
    assert_eq!(Verdict::Accept.as_text(), "accept");
    assert_eq!(Verdict::Reject.as_text(), "reject");
}

#[test]
fn malformed_payload_inside_valid_envelope_reports_and_rejects() {
    let mut d = UpperDriver::new();
    let body = "{\"request_type\":\"advance_state\",\"data\":{\"payload\":\"0x686\",\"metadata\":{\"msg_sender\":\"0xA\"}}}";
    let msgs = d.step(PollReply::Request(body.to_string()));
    assert_eq!(msgs[0].channel, Channel::Report);
    assert_eq!(msgs[0].payload, "Malformed payload");
    assert_eq!(d.verdict(), Verdict::Reject);
    assert_eq!(d.storage().toUpperTotal, 0);
}

#[test]
fn no_pending_request_keeps_accept_too() {
    let mut d = UpperDriver::new();
    d.step(PollReply::Request(advance_body("0xA", "fine text")));
    assert_eq!(d.verdict(), Verdict::Accept);
    d.step(PollReply::NoPending);
    assert_eq!(d.verdict(), Verdict::Accept);
}
