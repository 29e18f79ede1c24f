//! Student-roster application: mutating requests carry a JSON document with
//! a `method` field routing to create / delete / sign-attendance handlers;
//! read-only requests carry a slash-delimited path.
//!
//! Domain errors are answered with a diagnostic report and a `Reject`
//! verdict; successful mutations are confirmed with a notice and `Accept`.

use vstd::prelude::*;
use vstd::string::StrSliceExecFns;
use vstd::string::StringExecFns;

use crate::codec::hex2str;
use crate::codec::spec_hex2str;
use crate::messages::msgs_model;
use crate::messages::notice_model;
use crate::messages::notice_to;
use crate::messages::one_msg;
use crate::messages::report_model;
use crate::messages::report_to;
use crate::messages::MessageModel;
use crate::messages::OutboundMessage;
use crate::messages::Verdict;
use crate::textutil::dec_chars_of;
use crate::textutil::first_segment;
use crate::textutil::lower_of;
use crate::textutil::path_segments;
use crate::textutil::second_segment;
use crate::textutil::str_eq;
use crate::textutil::to_lowercase;
use crate::textutil::u128_to_dec;

verus! {

/// One roster entry, keyed by its lower-cased wallet address.
#[derive(Clone, Debug)]
pub struct Student {
    name: String,
    age: u8,
    wallet_address: String,
    attendance_count: u128,
}

/// Mathematical model of a roster entry.
pub ghost struct StudentModel {
    pub name: Seq<char>,
    pub age: u8,
    pub wallet_address: Seq<char>,
    pub attendance_count: u128,
}

impl View for Student {
    type V = StudentModel;

    closed spec fn view(&self) -> StudentModel {
        StudentModel {
            name: self.name@,
            age: self.age,
            wallet_address: self.wallet_address@,
            attendance_count: self.attendance_count,
        }
    }
}

impl Student {
    /// A fresh entry with no attendance yet.
    pub fn new(name: String, age: u8, wallet_address: String) -> (s: Student)
        ensures
            s@ == (StudentModel {
                name: name@,
                age: age,
                wallet_address: wallet_address@,
                attendance_count: 0,
            }),
    {
        Student { name, age, wallet_address, attendance_count: 0 }
    }

    /// Records one attendance.
    pub fn take_attendance(&mut self)
        requires
            old(self)@.attendance_count < u128::MAX,
        ensures
            final(self)@ == (StudentModel {
                attendance_count: (old(self)@.attendance_count + 1) as u128,
                ..old(self)@
            }),
    {
        self.attendance_count = self.attendance_count + 1;
    }

    /// The entry's display name.
    pub fn name(&self) -> (r: &String)
        ensures
            r@ == self@.name,
    {
        &self.name
    }

    /// The entry's age.
    pub fn age(&self) -> (r: u8)
        ensures
            r == self@.age,
    {
        self.age
    }

    /// The lower-cased wallet address keying the entry.
    pub fn wallet_address(&self) -> (r: &String)
        ensures
            r@ == self@.wallet_address,
    {
        &self.wallet_address
    }

    /// How many attendances have been recorded.
    pub fn attendance_count(&self) -> (r: u128)
        ensures
            r == self@.attendance_count,
    {
        self.attendance_count
    }
}

/// The models of the roster entries, in order.
pub open spec fn roster_model(v: Seq<Student>) -> Seq<StudentModel> {
    v.map_values(|s: Student| s@)
}

/// A method call decoded from a mutating payload: the routing token and the
/// fields the handlers read.
pub struct MethodCall {
    pub method: String,
    pub name: Option<String>,
    pub age: Option<u64>,
    pub wallet_address: Option<String>,
}

/// Mathematical model of a decoded method call.
pub ghost struct CallModel {
    pub method: Seq<char>,
    pub name: Option<Seq<char>>,
    pub age: Option<u64>,
    pub wallet_address: Option<Seq<char>>,
}

impl View for MethodCall {
    type V = CallModel;

    open spec fn view(&self) -> CallModel {
        CallModel {
            method: self.method@,
            name: if self.name is Some {
                Some(self.name.unwrap()@)
            } else {
                None
            },
            age: self.age,
            wallet_address: if self.wallet_address is Some {
                Some(self.wallet_address.unwrap()@)
            } else {
                None
            },
        }
    }
}

/// The method call a payload text denotes, or `None` when the text is not a
/// structured document with a string `method` field. Named for the outcome
/// of JSON parsing, which depends on the text alone.
pub uninterp spec fn call_of(s: Seq<char>) -> Option<CallModel>;

/// Trusted boundary: relies on `json::parse` and on `JsonValue`'s `as_str`
/// and `as_u64` accessors to read the `method`, `name`, `age` and
/// `wallet_address` fields; [`call_of`] names the outcome.
#[verifier::external_body]
fn parse_call(s: &str) -> (r: Option<MethodCall>)
    ensures
        r is Some <==> call_of(s@) is Some,
        r matches Some(c) ==> Some(c@) == call_of(s@),
{
    let doc = json::parse(s).ok()?;
    let method = doc["method"].as_str()?.to_string();
    Some(MethodCall {
        method,
        name: doc["name"].as_str().map(|v| v.to_string()),
        age: doc["age"].as_u64(),
        wallet_address: doc["wallet_address"].as_str().map(|v| v.to_string()),
    })
}

/// Index of the first roster entry whose wallet address equals `key`, or the
/// roster length when there is none.
pub open spec fn find_wallet_from(roster: Seq<StudentModel>, from: int, key: Seq<char>) -> int
    recommends
        0 <= from <= roster.len(),
    decreases roster.len() - from when 0 <= from <= roster.len()
{
    if from >= roster.len() {
        roster.len() as int
    } else if roster[from].wallet_address == key {
        from
    } else {
        find_wallet_from(roster, from + 1, key)
    }
}

/// What the create handler does: on a complete document, append an entry
/// keyed by the lower-cased wallet address; otherwise report and reject.
pub open spec fn spec_create(roster: Seq<StudentModel>, c: CallModel) -> (Seq<StudentModel>, Seq<
    MessageModel,
>, Verdict) {
    if c.name is Some && c.age is Some && c.age.unwrap() <= 255 && c.wallet_address is Some {
        (
            roster.push(
                StudentModel {
                    name: c.name.unwrap(),
                    age: c.age.unwrap() as u8,
                    wallet_address: lower_of(c.wallet_address.unwrap()),
                    attendance_count: 0,
                },
            ),
            seq![notice_model("Student created successfully"@)],
            Verdict::Accept,
        )
    } else {
        (roster, seq![report_model("Error creating student"@)], Verdict::Reject)
    }
}

/// What the delete handler does: remove the first entry matching the
/// lower-cased wallet address, or report and reject.
pub open spec fn spec_delete(roster: Seq<StudentModel>, c: CallModel) -> (Seq<StudentModel>, Seq<
    MessageModel,
>, Verdict) {
    if c.wallet_address is Some {
        let i = find_wallet_from(roster, 0, lower_of(c.wallet_address.unwrap()));
        if i < roster.len() {
            (
                roster.remove(i),
                seq![notice_model("Student deleted successfully"@)],
                Verdict::Accept,
            )
        } else {
            (roster, seq![report_model("Error deleting student"@)], Verdict::Reject)
        }
    } else {
        (roster, seq![report_model("Error deleting student"@)], Verdict::Reject)
    }
}

/// What the sign-attendance handler does: increment the attendance counter
/// of the entry matching the lower-cased caller identity, or report and
/// reject.
pub open spec fn spec_sign(roster: Seq<StudentModel>, sender: Seq<char>) -> (Seq<StudentModel>, Seq<
    MessageModel,
>, Verdict) {
    let i = find_wallet_from(roster, 0, lower_of(sender));
    if i < roster.len() && roster[i].attendance_count < u128::MAX {
        (
            roster.update(
                i,
                StudentModel {
                    attendance_count: (roster[i].attendance_count + 1) as u128,
                    ..roster[i]
                },
            ),
            seq![notice_model("Attendance signed successfully"@)],
            Verdict::Accept,
        )
    } else {
        (roster, seq![report_model("Error signing attendance"@)], Verdict::Reject)
    }
}

/// What dispatching one mutating request does: decode the payload, parse the
/// method document, and route by exact method name; every failure yields one
/// diagnostic report and a `Reject` verdict.
pub open spec fn spec_handle_advance(
    roster: Seq<StudentModel>,
    sender: Seq<char>,
    payload_hex: Seq<char>,
) -> (Seq<StudentModel>, Seq<MessageModel>, Verdict) {
    match spec_hex2str(payload_hex) {
        Err(_) => (roster, seq![report_model("Malformed payload"@)], Verdict::Reject),
        Ok(text) => match call_of(text) {
            None => (roster, seq![report_model("Malformed method call"@)], Verdict::Reject),
            Some(c) => {
                if c.method == "create"@ {
                    spec_create(roster, c)
                } else if c.method == "delete"@ {
                    spec_delete(roster, c)
                } else if c.method == "sign_attendance"@ {
                    spec_sign(roster, sender)
                } else {
                    (roster, seq![report_model("Function not implemented"@)], Verdict::Reject)
                }
            },
        },
    }
}

/// Rendering of one roster entry for query reports.
pub open spec fn render_student(m: StudentModel) -> Seq<char> {
    "Student { name: \""@ + m.name + "\", age: "@ + dec_chars_of(m.age as nat)
        + ", wallet_address: \""@ + m.wallet_address + "\", attendance_count: "@ + dec_chars_of(
        m.attendance_count as nat,
    ) + " }"@
}

/// Rendering of the roster entries after the first, each preceded by a
/// separator.
pub open spec fn render_students_tail(ms: Seq<StudentModel>, i: int) -> Seq<char>
    recommends
        0 <= i <= ms.len(),
    decreases ms.len() - i when 0 <= i <= ms.len()
{
    if i >= ms.len() {
        Seq::empty()
    } else {
        ", "@ + render_student(ms[i]) + render_students_tail(ms, i + 1)
    }
}

/// Rendering of the whole roster for query reports.
pub open spec fn render_students(ms: Seq<StudentModel>) -> Seq<char> {
    if ms.len() == 0 {
        "[]"@
    } else {
        "["@ + render_student(ms[0]) + render_students_tail(ms, 1) + "]"@
    }
}

/// What dispatching one read-only request does: decode the payload and route
/// by the first path segment; the roster is only read, never changed.
pub open spec fn spec_handle_inspect(roster: Seq<StudentModel>, payload_hex: Seq<char>) -> (Seq<
    MessageModel,
>, Verdict) {
    match spec_hex2str(payload_hex) {
        Err(_) => (seq![report_model("Malformed payload"@)], Verdict::Reject),
        Ok(text) => {
            let seg0 = first_segment(text);
            if seg0 == "all_students"@ {
                (seq![report_model(render_students(roster))], Verdict::Accept)
            } else if seg0 == "student"@ {
                match second_segment(text) {
                    None => (seq![report_model("Missing wallet address"@)], Verdict::Reject),
                    Some(w) => {
                        let i = find_wallet_from(roster, 0, lower_of(w));
                        if i < roster.len() {
                            (seq![report_model(render_student(roster[i]))], Verdict::Accept)
                        } else {
                            (seq![report_model("Student not found"@)], Verdict::Reject)
                        }
                    },
                }
            } else {
                (seq![report_model("Function not implemented"@)], Verdict::Reject)
            }
        },
    }
}

/// Index of the first roster entry whose wallet address equals `key`.
fn find_index(students: &Vec<Student>, key: &str) -> (r: usize)
    ensures
        r == find_wallet_from(roster_model(students@), 0, key@),
        r <= students@.len(),
{
    let ghost ms = roster_model(students@);
    let mut i: usize = 0;
    while i < students.len()
        invariant
            i <= students@.len(),
            ms == roster_model(students@),
            ms.len() == students@.len(),
            find_wallet_from(ms, 0, key@) == find_wallet_from(ms, i as int, key@),
        decreases students@.len() - i,
    {
        if str_eq(students[i].wallet_address.as_str(), key) {
            return i;
        }
        i += 1;
    }
    i
}

/// Creates a roster entry from a complete method document.
fn create_student(students: &mut Vec<Student>, call: &MethodCall) -> (r: (
    Vec<OutboundMessage>,
    Verdict,
))
    ensures
        ({
            let (nr, msgs, v) = spec_create(roster_model(old(students)@), call@);
            &&& roster_model(final(students)@) =~= nr
            &&& msgs_model(r.0@) =~= msgs
            &&& r.1 == v
        }),
{
    let complete = match (&call.name, &call.age, &call.wallet_address) {
        (Some(_), Some(a), Some(_)) => *a <= 255,
        _ => false,
    };
    if complete {
        let name = match &call.name {
            Some(n) => n.clone(),
            None => String::new(),
        };
        let age = match call.age {
            Some(a) => a as u8,
            None => 0,
        };
        let wallet = match &call.wallet_address {
            Some(w) => to_lowercase(w.as_str()),
            None => String::new(),
        };
        let s = Student::new(name, age, wallet);
        students.push(s);
        proof {
            assert(roster_model(students@) =~= spec_create(
                roster_model(old(students)@),
                call@,
            ).0);
        }
        (one_msg(notice_to("Student created successfully")), Verdict::Accept)
    } else {
        (one_msg(report_to("Error creating student")), Verdict::Reject)
    }
}

/// Deletes the roster entry matching the lower-cased wallet address.
fn delete_student(students: &mut Vec<Student>, call: &MethodCall) -> (r: (
    Vec<OutboundMessage>,
    Verdict,
))
    ensures
        ({
            let (nr, msgs, v) = spec_delete(roster_model(old(students)@), call@);
            &&& roster_model(final(students)@) =~= nr
            &&& msgs_model(r.0@) =~= msgs
            &&& r.1 == v
        }),
{
    match &call.wallet_address {
        Some(w) => {
            let key = to_lowercase(w.as_str());
            let i = find_index(students, key.as_str());
            if i < students.len() {
                students.remove(i);
                proof {
                    assert(roster_model(students@) =~= roster_model(old(students)@).remove(
                        i as int,
                    ));
                }
                (one_msg(notice_to("Student deleted successfully")), Verdict::Accept)
            } else {
                (one_msg(report_to("Error deleting student")), Verdict::Reject)
            }
        },
        None => (one_msg(report_to("Error deleting student")), Verdict::Reject),
    }
}

/// Increments the attendance counter of the entry matching the lower-cased
/// caller identity.
fn sign_attendance(students: &mut Vec<Student>, sender: &str) -> (r: (
    Vec<OutboundMessage>,
    Verdict,
))
    ensures
        ({
            let (nr, msgs, v) = spec_sign(roster_model(old(students)@), sender@);
            &&& roster_model(final(students)@) =~= nr
            &&& msgs_model(r.0@) =~= msgs
            &&& r.1 == v
        }),
{
    let key = to_lowercase(sender);
    let i = find_index(students, key.as_str());
    if i < students.len() && students[i].attendance_count < u128::MAX {
        let mut s = students.remove(i);
        s.take_attendance();
        students.insert(i, s);
        proof {
            assert(roster_model(students@) =~= spec_sign(
                roster_model(old(students)@),
                sender@,
            ).0);
        }
        (one_msg(notice_to("Attendance signed successfully")), Verdict::Accept)
    } else {
        (one_msg(report_to("Error signing attendance")), Verdict::Reject)
    }
}

/// Dispatches one mutating request against the roster.
pub fn handle_advance(students: &mut Vec<Student>, sender: &str, payload_hex: &str) -> (r: (
    Vec<OutboundMessage>,
    Verdict,
))
    ensures
        ({
            let (nr, msgs, v) = spec_handle_advance(
                roster_model(old(students)@),
                sender@,
                payload_hex@,
            );
            &&& roster_model(final(students)@) =~= nr
            &&& msgs_model(r.0@) =~= msgs
            &&& r.1 == v
        }),
{
    let text = match hex2str(payload_hex) {
        Ok(t) => t,
        Err(_) => {
            return (one_msg(report_to("Malformed payload")), Verdict::Reject);
        },
    };
    let call = match parse_call(text.as_str()) {
        Some(c) => c,
        None => {
            return (one_msg(report_to("Malformed method call")), Verdict::Reject);
        },
    };
    if str_eq(call.method.as_str(), "create") {
        create_student(students, &call)
    } else if str_eq(call.method.as_str(), "delete") {
        delete_student(students, &call)
    } else if str_eq(call.method.as_str(), "sign_attendance") {
        sign_attendance(students, sender)
    } else {
        (one_msg(report_to("Function not implemented")), Verdict::Reject)
    }
}

/// Renders one roster entry.
fn render_student_exec(s: &Student) -> (r: String)
    ensures
        r@ == render_student(s@),
{
    let mut out = String::from_str("Student { name: \"");
    out.append(s.name.as_str());
    out.append("\", age: ");
    let age_dec = u128_to_dec(s.age as u128);
    out.append(age_dec.as_str());
    out.append(", wallet_address: \"");
    out.append(s.wallet_address.as_str());
    out.append("\", attendance_count: ");
    let att_dec = u128_to_dec(s.attendance_count);
    out.append(att_dec.as_str());
    out.append(" }");
    out
}

/// Renders the whole roster.
fn render_students_exec(students: &Vec<Student>) -> (r: String)
    ensures
        r@ == render_students(roster_model(students@)),
{
    let ghost ms = roster_model(students@);
    if students.len() == 0 {
        return String::from_str("[]");
    }
    let mut out = String::from_str("[");
    let head = render_student_exec(&students[0]);
    out.append(head.as_str());
    let mut i: usize = 1;
    while i < students.len()
        invariant
            1 <= i <= students@.len(),
            ms == roster_model(students@),
            ms.len() == students@.len(),
            out@ + render_students_tail(ms, i as int) =~= "["@ + render_student(ms[0])
                + render_students_tail(ms, 1),
        decreases students@.len() - i,
    {
        out.append(", ");
        let piece = render_student_exec(&students[i]);
        out.append(piece.as_str());
        proof {
            assert(render_students_tail(ms, i as int) =~= ", "@ + render_student(ms[i as int])
                + render_students_tail(ms, i + 1));
            assert(out@ + render_students_tail(ms, i + 1) =~= "["@ + render_student(ms[0])
                + render_students_tail(ms, 1));
        }
        i += 1;
    }
    out.append("]");
    proof {
        assert(render_students_tail(ms, i as int) =~= Seq::<char>::empty());
        assert(out@ =~= render_students(ms));
    }
    out
}

/// Dispatches one read-only request against the roster.
pub fn handle_inspect(students: &Vec<Student>, payload_hex: &str) -> (r: (
    Vec<OutboundMessage>,
    Verdict,
))
    ensures
        ({
            let (msgs, v) = spec_handle_inspect(roster_model(students@), payload_hex@);
            &&& msgs_model(r.0@) =~= msgs
            &&& r.1 == v
        }),
{
    let text = match hex2str(payload_hex) {
        Ok(t) => t,
        Err(_) => {
            return (one_msg(report_to("Malformed payload")), Verdict::Reject);
        },
    };
    let (seg0, seg1) = path_segments(text.as_str());
    if str_eq(seg0.as_str(), "all_students") {
        let rendering = render_students_exec(students);
        (one_msg(report_to(rendering.as_str())), Verdict::Accept)
    } else if str_eq(seg0.as_str(), "student") {
        match seg1 {
            Some(w) => {
                let key = to_lowercase(w.as_str());
                let i = find_index(students, key.as_str());
                if i < students.len() {
                    let rendering = render_student_exec(&students[i]);
                    (one_msg(report_to(rendering.as_str())), Verdict::Accept)
                } else {
                    (one_msg(report_to("Student not found")), Verdict::Reject)
                }
            },
            None => (one_msg(report_to("Missing wallet address")), Verdict::Reject),
        }
    } else {
        (one_msg(report_to("Function not implemented")), Verdict::Reject)
    }
}

} // verus!
