use rollup_driver::codec::encode;
use rollup_driver::student::handle_advance;
use rollup_driver::student::handle_inspect;
use rollup_driver::Channel;
use rollup_driver::Student;
use rollup_driver::Verdict;

fn create_payload(name: &str, age: u64, wallet: &str) -> String {
    encode(&format!(
        "{{\"method\":\"create\",\"name\":\"{}\",\"age\":{},\"wallet_address\":\"{}\"}}",
        name, age, wallet
    ))
}

#[test]
fn create_adds_student_keyed_by_lower_cased_wallet() {
    let mut students: Vec<Student> = Vec::new();
    let payload = create_payload("Ada", 30, "0xABC");
    let (msgs, verdict) = handle_advance(&mut students, "0xCaller", &payload);
    assert_eq!(students.len(), 1);
    assert_eq!(students[0].name(), "Ada");
    assert_eq!(students[0].age(), 30);
    assert_eq!(students[0].wallet_address(), "0xabc");
    assert_eq!(students[0].attendance_count(), 0);
    assert_eq!(msgs.len(), 1);
    assert_eq!(msgs[0].channel, Channel::Notice);
    assert_eq!(msgs[0].payload, "Student created successfully");
    assert_eq!(verdict, Verdict::Accept);
}

#[test]
fn create_with_missing_field_reports_and_rejects() {
    let mut students: Vec<Student> = Vec::new();
    let payload = encode("{\"method\":\"create\",\"name\":\"Ada\"}");
    let (msgs, verdict) = handle_advance(&mut students, "0xCaller", &payload);
    assert_eq!(students.len(), 0);
    assert_eq!(msgs.len(), 1);
    assert_eq!(msgs[0].channel, Channel::Report);
    assert_eq!(msgs[0].payload, "Error creating student");
    assert_eq!(verdict, Verdict::Reject);
}

#[test]
fn create_with_oversized_age_reports_and_rejects() {
    let mut students: Vec<Student> = Vec::new();
    let payload = create_payload("Ada", 300, "0xABC");
    let (msgs, verdict) = handle_advance(&mut students, "0xCaller", &payload);
    assert_eq!(students.len(), 0);
    assert_eq!(msgs[0].payload, "Error creating student");
    assert_eq!(verdict, Verdict::Reject);
}

#[test]
fn delete_of_absent_wallet_reports_and_rejects() {
    let mut students: Vec<Student> = Vec::new();
    let payload = encode("{\"method\":\"delete\",\"wallet_address\":\"0xNOBODY\"}");
    let (msgs, verdict) = handle_advance(&mut students, "0xCaller", &payload);
    assert_eq!(students.len(), 0);
    assert_eq!(msgs.len(), 1);
    assert_eq!(msgs[0].channel, Channel::Report);
    assert_eq!(msgs[0].payload, "Error deleting student");
    assert_eq!(verdict, Verdict::Reject);
}

#[test]
fn delete_removes_matching_student() {
    let mut students: Vec<Student> = Vec::new();
    handle_advance(&mut students, "0xCaller", &create_payload("Ada", 30, "0xABC"));
    handle_advance(&mut students, "0xCaller", &create_payload("Grace", 36, "0xDEF"));
    let payload = encode("{\"method\":\"delete\",\"wallet_address\":\"0xAbC\"}");
    let (msgs, verdict) = handle_advance(&mut students, "0xCaller", &payload);
    assert_eq!(students.len(), 1);
    assert_eq!(students[0].name(), "Grace");
    assert_eq!(msgs[0].channel, Channel::Notice);
    assert_eq!(msgs[0].payload, "Student deleted successfully");
    assert_eq!(verdict, Verdict::Accept);
}

#[test]
fn sign_attendance_increments_matching_counter() {
    let mut students: Vec<Student> = Vec::new();
    handle_advance(&mut students, "0xCaller", &create_payload("Ada", 30, "0xABC"));
    let payload = encode("{\"method\":\"sign_attendance\"}");
    let (msgs, verdict) = handle_advance(&mut students, "0xABC", &payload);
    assert_eq!(students[0].attendance_count(), 1);
    assert_eq!(msgs[0].channel, Channel::Notice);
    assert_eq!(msgs[0].payload, "Attendance signed successfully");
    assert_eq!(verdict, Verdict::Accept);
}

#[test]
fn sign_attendance_by_unknown_caller_reports_and_rejects() {
    let mut students: Vec<Student> = Vec::new();
    let payload = encode("{\"method\":\"sign_attendance\"}");
    let (msgs, verdict) = handle_advance(&mut students, "0xNOBODY", &payload);
    assert_eq!(msgs[0].channel, Channel::Report);
    assert_eq!(msgs[0].payload, "Error signing attendance");
    assert_eq!(verdict, Verdict::Reject);
}

#[test]
fn unknown_method_reports_and_rejects() {
    let mut students: Vec<Student> = Vec::new();
    let payload = encode("{\"method\":\"enroll\"}");
    let (msgs, verdict) = handle_advance(&mut students, "0xCaller", &payload);
    assert_eq!(msgs[0].channel, Channel::Report);
    assert_eq!(msgs[0].payload, "Function not implemented");
    assert_eq!(verdict, Verdict::Reject);
}

#[test]
fn advance_with_malformed_hex_reports_and_rejects() {
    let mut students: Vec<Student> = Vec::new();
    let (msgs, verdict) = handle_advance(&mut students, "0xCaller", "0x686");
    assert_eq!(msgs[0].payload, "Malformed payload");
    assert_eq!(verdict, Verdict::Reject);
}

#[test]
fn advance_with_unparseable_document_reports_and_rejects() {
    let mut students: Vec<Student> = Vec::new();
    let (msgs, verdict) = handle_advance(&mut students, "0xCaller", &encode("not json"));
    assert_eq!(msgs[0].payload, "Malformed method call");
    assert_eq!(verdict, Verdict::Reject);
}

#[test]
fn inspect_lists_all_students() {
    let mut students: Vec<Student> = Vec::new();
    handle_advance(&mut students, "0xCaller", &create_payload("Ada", 30, "0xABC"));
    let (msgs, verdict) = handle_inspect(&students, &encode("all_students"));
    assert_eq!(msgs.len(), 1);
    assert_eq!(msgs[0].channel, Channel::Report);
    assert_eq!(
        msgs[0].payload,
        "[Student { name: \"Ada\", age: 30, wallet_address: \"0xabc\", attendance_count: 0 }]"
    );
    assert_eq!(verdict, Verdict::Accept);
}

#[test]
fn inspect_of_empty_roster_lists_empty() {
    let students: Vec<Student> = Vec::new();
    let (msgs, verdict) = handle_inspect(&students, &encode("all_students"));
    assert_eq!(msgs[0].payload, "[]");
    assert_eq!(verdict, Verdict::Accept);
}

#[test]
fn inspect_finds_one_student_by_wallet() {
    let mut students: Vec<Student> = Vec::new();
    handle_advance(&mut students, "0xCaller", &create_payload("Ada", 30, "0xABC"));
    let (msgs, verdict) = handle_inspect(&students, &encode("student/0xAbc"));
    assert_eq!(
        msgs[0].payload,
        "Student { name: \"Ada\", age: 30, wallet_address: \"0xabc\", attendance_count: 0 }"
    );
    assert_eq!(verdict, Verdict::Accept);
}

#[test]
fn inspect_of_unknown_wallet_reports_and_rejects() {
    let students: Vec<Student> = Vec::new();
    let (msgs, verdict) = handle_inspect(&students, &encode("student/0xNOBODY"));
    assert_eq!(msgs[0].payload, "Student not found");
    assert_eq!(verdict, Verdict::Reject);
}

#[test]
fn inspect_without_wallet_segment_reports_and_rejects() {
    let students: Vec<Student> = Vec::new();
    let (msgs, verdict) = handle_inspect(&students, &encode("student"));
    assert_eq!(msgs[0].payload, "Missing wallet address");
    assert_eq!(verdict, Verdict::Reject);
}

#[test]
fn inspect_of_unknown_route_reports_and_rejects() {
    let students: Vec<Student> = Vec::new();
    let (msgs, verdict) = handle_inspect(&students, &encode("teachers"));
    assert_eq!(msgs[0].payload, "Function not implemented");
    assert_eq!(verdict, Verdict::Reject);
}

#[test]
fn inspect_with_empty_wallet_segment_reports_not_found() {
    let mut students: Vec<Student> = Vec::new();
    handle_advance(&mut students, "0xCaller", &create_payload("Ada", 30, "0xABC"));
    let (msgs, verdict) = handle_inspect(&students, &encode("student/"));
    assert_eq!(msgs[0].payload, "Student not found");
    assert_eq!(verdict, Verdict::Reject);
}
