//! The poll-loop state machine.
//!
//! The transport layer posts the pending verdict to the coordinator and
//! hands back either "no pending request" or the body of the next request
//! document. [`classify`] reads the envelope; a driver's `step` routes the
//! request to its dispatcher, collects the outbound messages for the
//! transport to send, and keeps the verdict to transmit on the next poll.
//! The initial verdict is `Accept`; an unrecognized request type skips
//! dispatch entirely and sets the verdict to `Reject`; a malformed envelope
//! is answered with a diagnostic report and `Reject`, keeping the loop
//! alive.

use vstd::prelude::*;
use vstd::string::StringExecFns;

use crate::messages::msgs_model;
use crate::messages::one_msg;
use crate::messages::report_model;
use crate::messages::report_to;
use crate::messages::MessageModel;
use crate::messages::OutboundMessage;
use crate::messages::Verdict;
use crate::student;
use crate::student::roster_model;
use crate::student::Student;
use crate::student::StudentModel;
use crate::textutil::str_eq;
use crate::upper;
use crate::upper::Storage;
use crate::upper::StorageModel;

verus! {

/// The fields of a request document that the loop reads: the declared type,
/// the hex payload, and the caller identity of a mutating request.
pub struct Envelope {
    pub request_type: String,
    pub payload: Option<String>,
    pub msg_sender: Option<String>,
}

/// Mathematical model of an envelope.
pub ghost struct EnvelopeModel {
    pub request_type: Seq<char>,
    pub payload: Option<Seq<char>>,
    pub msg_sender: Option<Seq<char>>,
}

impl View for Envelope {
    type V = EnvelopeModel;

    open spec fn view(&self) -> EnvelopeModel {
        EnvelopeModel {
            request_type: self.request_type@,
            payload: if self.payload is Some {
                Some(self.payload.unwrap()@)
            } else {
                None
            },
            msg_sender: if self.msg_sender is Some {
                Some(self.msg_sender.unwrap()@)
            } else {
                None
            },
        }
    }
}

/// The envelope a request body denotes, or `None` when the body is not a
/// structured document with a string `request_type`. Named for the outcome
/// of JSON parsing, which depends on the body text alone.
pub uninterp spec fn envelope_of(s: Seq<char>) -> Option<EnvelopeModel>;

/// Trusted boundary: relies on `json::parse` and on `JsonValue`'s `as_str`
/// accessor to read `request_type`, `data.payload` and
/// `data.metadata.msg_sender`; [`envelope_of`] names the outcome.
#[verifier::external_body]
fn parse_envelope(s: &str) -> (r: Option<Envelope>)
    ensures
        r is Some <==> envelope_of(s@) is Some,
        r matches Some(e) ==> Some(e@) == envelope_of(s@),
{
    let doc = json::parse(s).ok()?;
    let request_type = doc["request_type"].as_str()?.to_string();
    Some(Envelope {
        request_type,
        payload: doc["data"]["payload"].as_str().map(|p| p.to_string()),
        msg_sender: doc["data"]["metadata"]["msg_sender"].as_str().map(|m| m.to_string()),
    })
}

/// A request body sorted into the loop's cases.
pub enum Classified {
    /// A mutating request with its payload and caller identity.
    Advance { payload_hex: String, sender: String },
    /// A read-only request with its payload.
    Inspect { payload_hex: String },
    /// A recognizable envelope with an unrecognized request type.
    Unknown,
    /// No envelope, or one missing a field its type requires.
    Malformed,
}

/// Mathematical model of a classified request body.
pub ghost enum ClassifiedModel {
    Advance { payload_hex: Seq<char>, sender: Seq<char> },
    Inspect { payload_hex: Seq<char> },
    Unknown,
    Malformed,
}

impl View for Classified {
    type V = ClassifiedModel;

    open spec fn view(&self) -> ClassifiedModel {
        match self {
            Classified::Advance { payload_hex, sender } => ClassifiedModel::Advance {
                payload_hex: payload_hex@,
                sender: sender@,
            },
            Classified::Inspect { payload_hex } => ClassifiedModel::Inspect {
                payload_hex: payload_hex@,
            },
            Classified::Unknown => ClassifiedModel::Unknown,
            Classified::Malformed => ClassifiedModel::Malformed,
        }
    }
}

/// How a request body is classified: by its declared request type, with the
/// fields that type requires.
pub open spec fn spec_classify(s: Seq<char>) -> ClassifiedModel {
    match envelope_of(s) {
        None => ClassifiedModel::Malformed,
        Some(e) => {
            if e.request_type == "advance_state"@ {
                if e.payload is Some && e.msg_sender is Some {
                    ClassifiedModel::Advance {
                        payload_hex: e.payload.unwrap(),
                        sender: e.msg_sender.unwrap(),
                    }
                } else {
                    ClassifiedModel::Malformed
                }
            } else if e.request_type == "inspect_state"@ {
                if e.payload is Some {
                    ClassifiedModel::Inspect { payload_hex: e.payload.unwrap() }
                } else {
                    ClassifiedModel::Malformed
                }
            } else {
                ClassifiedModel::Unknown
            }
        },
    }
}

/// Sorts a request body into the loop's cases.
pub fn classify(body: &str) -> (c: Classified)
    ensures
        c@ == spec_classify(body@),
{
    let env = match parse_envelope(body) {
        Some(e) => e,
        None => {
            return Classified::Malformed;
        },
    };
    if str_eq(env.request_type.as_str(), "advance_state") {
        match (env.payload, env.msg_sender) {
            (Some(payload_hex), Some(sender)) => Classified::Advance { payload_hex, sender },
            _ => Classified::Malformed,
        }
    } else if str_eq(env.request_type.as_str(), "inspect_state") {
        match env.payload {
            Some(payload_hex) => Classified::Inspect { payload_hex },
            None => Classified::Malformed,
        }
    } else {
        Classified::Unknown
    }
}

/// What one poll call delivered: nothing pending, or a request body.
pub enum PollReply {
    NoPending,
    Request(String),
}

impl View for PollReply {
    type V = Option<Seq<char>>;

    open spec fn view(&self) -> Option<Seq<char>> {
        match self {
            PollReply::NoPending => None,
            PollReply::Request(body) => Some(body@),
        }
    }
}

/// Driver state for the student-roster application: the verdict owed to the
/// next poll and the roster.
pub struct StudentDriver {
    verdict: Verdict,
    students: Vec<Student>,
}

/// Mathematical model of the student driver.
pub ghost struct StudentDriverModel {
    pub verdict: Verdict,
    pub roster: Seq<StudentModel>,
}

impl View for StudentDriver {
    type V = StudentDriverModel;

    closed spec fn view(&self) -> StudentDriverModel {
        StudentDriverModel { verdict: self.verdict, roster: roster_model(self.students@) }
    }
}

/// What one loop step does for the student application. No pending request
/// leaves the driver unchanged; otherwise the request is classified and
/// dispatched, and the verdict it produced replaces the pending one.
pub open spec fn spec_student_step(m: StudentDriverModel, reply: Option<Seq<char>>) -> (
    StudentDriverModel,
    Seq<MessageModel>,
) {
    match reply {
        None => (m, Seq::empty()),
        Some(body) => match spec_classify(body) {
            ClassifiedModel::Malformed => (
                StudentDriverModel { verdict: Verdict::Reject, roster: m.roster },
                seq![report_model("Malformed request envelope"@)],
            ),
            ClassifiedModel::Unknown => (
                StudentDriverModel { verdict: Verdict::Reject, roster: m.roster },
                Seq::empty(),
            ),
            ClassifiedModel::Advance { payload_hex, sender } => {
                let (nr, msgs, v) = student::spec_handle_advance(m.roster, sender, payload_hex);
                (StudentDriverModel { verdict: v, roster: nr }, msgs)
            },
            ClassifiedModel::Inspect { payload_hex } => {
                let (msgs, v) = student::spec_handle_inspect(m.roster, payload_hex);
                (StudentDriverModel { verdict: v, roster: m.roster }, msgs)
            },
        },
    }
}

impl StudentDriver {
    /// A fresh driver: empty roster, initial verdict `Accept`.
    pub fn new() -> (d: StudentDriver)
        ensures
            d@ == (StudentDriverModel { verdict: Verdict::Accept, roster: Seq::empty() }),
    {
        let d = StudentDriver { verdict: Verdict::Accept, students: Vec::new() };
        proof {
            assert(roster_model(d.students@) =~= Seq::<StudentModel>::empty());
        }
        d
    }

    /// The verdict to transmit on the next poll.
    pub fn verdict(&self) -> (v: Verdict)
        ensures
            v == self@.verdict,
    {
        self.verdict
    }

    /// The current roster.
    pub fn students(&self) -> (r: &Vec<Student>)
        ensures
            roster_model(r@) == self@.roster,
    {
        &self.students
    }

    /// Advances the state machine by one poll reply and returns the messages
    /// the transport must send.
    pub fn step(&mut self, reply: PollReply) -> (msgs: Vec<OutboundMessage>)
        ensures
            final(self)@ == spec_student_step(old(self)@, reply@).0,
            msgs_model(msgs@) =~= spec_student_step(old(self)@, reply@).1,
            reply is NoPending ==> final(self)@ == old(self)@ && msgs@.len() == 0,
    {
        match reply {
            PollReply::NoPending => Vec::new(),
            PollReply::Request(body) => match classify(body.as_str()) {
                Classified::Malformed => {
                    self.verdict = Verdict::Reject;
                    one_msg(report_to("Malformed request envelope"))
                },
                Classified::Unknown => {
                    self.verdict = Verdict::Reject;
                    Vec::new()
                },
                Classified::Advance { payload_hex, sender } => {
                    let (msgs, v) = student::handle_advance(
                        &mut self.students,
                        sender.as_str(),
                        payload_hex.as_str(),
                    );
                    self.verdict = v;
                    msgs
                },
                Classified::Inspect { payload_hex } => {
                    let (msgs, v) = student::handle_inspect(&self.students, payload_hex.as_str());
                    self.verdict = v;
                    msgs
                },
            },
        }
    }
}

/// Driver state for the to-upper application.
pub struct UpperDriver {
    verdict: Verdict,
    storage: Storage,
}

/// Mathematical model of the to-upper driver.
pub ghost struct UpperDriverModel {
    pub verdict: Verdict,
    pub storage: StorageModel,
}

impl View for UpperDriver {
    type V = UpperDriverModel;

    closed spec fn view(&self) -> UpperDriverModel {
        UpperDriverModel { verdict: self.verdict, storage: self.storage@ }
    }
}

/// What one loop step does for the to-upper application.
pub open spec fn spec_upper_step(m: UpperDriverModel, reply: Option<Seq<char>>) -> (
    UpperDriverModel,
    Seq<MessageModel>,
) {
    match reply {
        None => (m, Seq::empty()),
        Some(body) => match spec_classify(body) {
            ClassifiedModel::Malformed => (
                UpperDriverModel { verdict: Verdict::Reject, storage: m.storage },
                seq![report_model("Malformed request envelope"@)],
            ),
            ClassifiedModel::Unknown => (
                UpperDriverModel { verdict: Verdict::Reject, storage: m.storage },
                Seq::empty(),
            ),
            ClassifiedModel::Advance { payload_hex, sender } => {
                let (ns, msgs, v) = upper::spec_handle_advance(m.storage, sender, payload_hex);
                (UpperDriverModel { verdict: v, storage: ns }, msgs)
            },
            ClassifiedModel::Inspect { payload_hex } => {
                let (msgs, v) = upper::spec_handle_inspect(m.storage, payload_hex);
                (UpperDriverModel { verdict: v, storage: m.storage }, msgs)
            },
        },
    }
}

impl UpperDriver {
    /// A fresh driver: zero counter, empty log, initial verdict `Accept`.
    pub fn new() -> (d: UpperDriver)
        ensures
            d@ == (UpperDriverModel {
                verdict: Verdict::Accept,
                storage: StorageModel { total: 0, users: Seq::empty() },
            }),
    {
        let d = UpperDriver {
            verdict: Verdict::Accept,
            storage: Storage { toUpperTotal: 0, userStruct: Vec::new() },
        };
        proof {
            assert(d.storage@.users =~= Seq::<crate::upper::UserModel>::empty());
        }
        d
    }

    /// The verdict to transmit on the next poll.
    pub fn verdict(&self) -> (v: Verdict)
        ensures
            v == self@.verdict,
    {
        self.verdict
    }

    /// The current application state.
    pub fn storage(&self) -> (r: &Storage)
        ensures
            r@ == self@.storage,
    {
        &self.storage
    }

    /// Advances the state machine by one poll reply and returns the messages
    /// the transport must send.
    pub fn step(&mut self, reply: PollReply) -> (msgs: Vec<OutboundMessage>)
        ensures
            final(self)@ == spec_upper_step(old(self)@, reply@).0,
            msgs_model(msgs@) =~= spec_upper_step(old(self)@, reply@).1,
            reply is NoPending ==> final(self)@ == old(self)@ && msgs@.len() == 0,
    {
        match reply {
            PollReply::NoPending => Vec::new(),
            PollReply::Request(body) => match classify(body.as_str()) {
                Classified::Malformed => {
                    self.verdict = Verdict::Reject;
                    one_msg(report_to("Malformed request envelope"))
                },
                Classified::Unknown => {
                    self.verdict = Verdict::Reject;
                    Vec::new()
                },
                Classified::Advance { payload_hex, sender } => {
                    let (msgs, v) = upper::handle_advance(
                        &mut self.storage,
                        sender.as_str(),
                        payload_hex.as_str(),
                    );
                    self.verdict = v;
                    msgs
                },
                Classified::Inspect { payload_hex } => {
                    let (msgs, v) = upper::handle_inspect(&self.storage, payload_hex.as_str());
                    self.verdict = v;
                    msgs
                },
            },
        }
    }
}

/// Determinism: with equal state and an equal poll reply, a step produces
/// the same successor state and the same outbound messages.
pub proof fn lemma_student_step_deterministic(
    m1: StudentDriverModel,
    m2: StudentDriverModel,
    r1: Option<Seq<char>>,
    r2: Option<Seq<char>>,
)
    requires
        m1 == m2,
        r1 == r2,
    ensures
        spec_student_step(m1, r1) == spec_student_step(m2, r2),
{
}

/// Determinism: with equal state and an equal poll reply, a step produces
/// the same successor state and the same outbound messages.
pub proof fn lemma_upper_step_deterministic(
    m1: UpperDriverModel,
    m2: UpperDriverModel,
    r1: Option<Seq<char>>,
    r2: Option<Seq<char>>,
)
    requires
        m1 == m2,
        r1 == r2,
    ensures
        spec_upper_step(m1, r1) == spec_upper_step(m2, r2),
{
}

/// State isolation: a read-only request never changes the roster.
pub proof fn lemma_student_inspect_isolated(m: StudentDriverModel, body: Seq<char>)
    requires
        spec_classify(body) is Inspect,
    ensures
        spec_student_step(m, Some(body)).0.roster == m.roster,
{
}

/// State isolation: a read-only request never changes the storage.
pub proof fn lemma_upper_inspect_isolated(m: UpperDriverModel, body: Seq<char>)
    requires
        spec_classify(body) is Inspect,
    ensures
        spec_upper_step(m, Some(body)).0.storage == m.storage,
{
}

/// Idempotence of read-only requests: the same read-only request issued
/// twice with no intervening mutating request yields identical report
/// batches, and the state is the same after both steps.
pub proof fn lemma_student_inspect_idempotent(m: StudentDriverModel, body: Seq<char>)
    requires
        spec_classify(body) is Inspect,
    ensures
        ({
            let (m1, msgs1) = spec_student_step(m, Some(body));
            let (m2, msgs2) = spec_student_step(m1, Some(body));
            msgs1 == msgs2 && m1.roster == m.roster && m2.roster == m.roster
        }),
{
}

/// Idempotence of read-only requests: the same read-only request issued
/// twice with no intervening mutating request yields identical report
/// batches, and the state is the same after both steps.
pub proof fn lemma_upper_inspect_idempotent(m: UpperDriverModel, body: Seq<char>)
    requires
        spec_classify(body) is Inspect,
    ensures
        ({
            let (m1, msgs1) = spec_upper_step(m, Some(body));
            let (m2, msgs2) = spec_upper_step(m1, Some(body));
            msgs1 == msgs2 && m1.storage == m.storage && m2.storage == m.storage
        }),
{
}

/// Verdict causality: after a step, the pending verdict is exactly the
/// verdict of the handler that processed the delivered request; with no
/// pending request the verdict is unchanged; an unrecognized or malformed
/// request pends `Reject` without reaching a dispatcher.
pub proof fn lemma_student_verdict_causality(m: StudentDriverModel, reply: Option<Seq<char>>)
    ensures
        reply is None ==> spec_student_step(m, reply).0.verdict == m.verdict,
        reply matches Some(body) ==> spec_student_step(m, reply).0.verdict == (
        match spec_classify(body) {
            ClassifiedModel::Advance { payload_hex, sender } => student::spec_handle_advance(
                m.roster,
                sender,
                payload_hex,
            ).2,
            ClassifiedModel::Inspect { payload_hex } => student::spec_handle_inspect(
                m.roster,
                payload_hex,
            ).1,
            ClassifiedModel::Unknown => Verdict::Reject,
            ClassifiedModel::Malformed => Verdict::Reject,
        }),
{
}

/// Verdict causality for the to-upper driver; see
/// [`lemma_student_verdict_causality`].
pub proof fn lemma_upper_verdict_causality(m: UpperDriverModel, reply: Option<Seq<char>>)
    ensures
        reply is None ==> spec_upper_step(m, reply).0.verdict == m.verdict,
        reply matches Some(body) ==> spec_upper_step(m, reply).0.verdict == (
        match spec_classify(body) {
            ClassifiedModel::Advance { payload_hex, sender } => upper::spec_handle_advance(
                m.storage,
                sender,
                payload_hex,
            ).2,
            ClassifiedModel::Inspect { payload_hex } => upper::spec_handle_inspect(
                m.storage,
                payload_hex,
            ).1,
            ClassifiedModel::Unknown => Verdict::Reject,
            ClassifiedModel::Malformed => Verdict::Reject,
        }),
{
}

} // verus!
