use rollup_driver::codec::encode;
use rollup_driver::upper::handle_advance;
use rollup_driver::upper::handle_inspect;
use rollup_driver::Channel;
use rollup_driver::Storage;
use rollup_driver::Verdict;

fn empty_storage() -> Storage {
    Storage { toUpperTotal: 0, userStruct: Vec::new() }
}

#[test]
fn advance_upper_cases_and_logs_the_sentence() {
    let mut storage = empty_storage();
    let (msgs, verdict) = handle_advance(&mut storage, "0xCaller", &encode("hello world"));
    assert_eq!(storage.toUpperTotal, 1);
    assert_eq!(storage.userStruct.len(), 1);
    assert_eq!(storage.userStruct[0].sender, "0xCaller");
    assert_eq!(storage.userStruct[0].request_input, "hello world");
    assert_eq!(storage.userStruct[0].request_output, "HELLO WORLD");
    assert_eq!(msgs.len(), 1);
    assert_eq!(msgs[0].channel, Channel::Notice);
    assert_eq!(msgs[0].payload, "HELLO WORLD");
    assert_eq!(verdict, Verdict::Accept);
}

#[test]
fn numeric_sentence_reports_and_rejects_without_mutating() {
    let mut storage = empty_storage();
    let (msgs, verdict) = handle_advance(&mut storage, "0xCaller", &encode("42"));
    assert_eq!(storage.toUpperTotal, 0);
    assert_eq!(storage.userStruct.len(), 0);
    assert_eq!(msgs.len(), 1);
    assert_eq!(msgs[0].channel, Channel::Report);
    assert_eq!(msgs[0].payload, "Sentence is not in string format");
    assert_eq!(verdict, Verdict::Reject);
}

#[test]
fn advance_with_malformed_payload_reports_and_rejects() {
    let mut storage = empty_storage();
    let (msgs, verdict) = handle_advance(&mut storage, "0xCaller", "0xZZ");
    assert_eq!(storage.toUpperTotal, 0);
    assert_eq!(msgs[0].payload, "Malformed payload");
    assert_eq!(verdict, Verdict::Reject);
}

#[test]
fn inspect_total_reports_the_counter() {
    let mut storage = empty_storage();
    let (msgs, verdict) = handle_inspect(&storage, &encode("total"));
    assert_eq!(msgs.len(), 1);
    assert_eq!(msgs[0].channel, Channel::Report);
    assert_eq!(msgs[0].payload, "Total upper: 0");
    assert_eq!(verdict, Verdict::Accept);
    assert_eq!(storage.toUpperTotal, 0);

    handle_advance(&mut storage, "0xCaller", &encode("one sentence"));
    let (msgs, verdict) = handle_inspect(&storage, &encode("total"));
    assert_eq!(msgs[0].payload, "Total upper: 1");
    assert_eq!(verdict, Verdict::Accept);
}

#[test]
fn inspect_list_reports_the_transformation_log() {
    let mut storage = empty_storage();
    handle_advance(&mut storage, "0xA", &encode("first"));
    handle_advance(&mut storage, "0xB", &encode("second"));
    let (msgs, verdict) = handle_inspect(&storage, &encode("list"));
    assert_eq!(
        msgs[0].payload,
        "{Sender: '0xA', Input: 'first', Output: 'FIRST'}\n{Sender: '0xB', Input: 'second', Output: 'SECOND'}\n"
    );
    assert_eq!(verdict, Verdict::Accept);
}

#[test]
fn inspect_of_unknown_query_reports_and_rejects() {
    let storage = empty_storage();
    let (msgs, verdict) = handle_inspect(&storage, &encode("everything"));
    assert_eq!(msgs[0].payload, "Function not implemented");
    assert_eq!(verdict, Verdict::Reject);
}

#[test]
fn repeated_inspect_is_byte_identical() {
    let mut storage = empty_storage();
    handle_advance(&mut storage, "0xA", &encode("a sentence"));
    let (m1, v1) = handle_inspect(&storage, &encode("total"));
    let (m2, v2) = handle_inspect(&storage, &encode("total"));
    assert_eq!(m1[0].payload, m2[0].payload);
    assert_eq!(v1, v2);
}
