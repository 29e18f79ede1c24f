//! To-upper application: mutating requests carry a sentence that is
//! upper-cased and logged; read-only requests query the transformation log
//! or the mutation counter.
//!
//! A payload that parses as a number is a domain error: the handler reports
//! it and rejects without touching the state.

use vstd::prelude::*;
use vstd::string::StrSliceExecFns;
use vstd::string::StringExecFns;

use crate::codec::hex2str;
use crate::codec::spec_hex2str;
use crate::messages::msgs_model;
use crate::messages::notice_model;
use crate::messages::one_msg;
use crate::messages::report_model;
use crate::messages::report_to;
use crate::messages::Channel;
use crate::messages::MessageModel;
use crate::messages::OutboundMessage;
use crate::messages::Verdict;
use crate::numeric::is_numeric;
use crate::numeric::spec_is_numeric;
use crate::textutil::dec_chars_of;
use crate::textutil::first_segment;
use crate::textutil::path_segments;
use crate::textutil::str_eq;
use crate::textutil::to_uppercase;
use crate::textutil::u128_to_dec;
use crate::textutil::upper_of;

verus! {

/// One logged transformation: who asked, what came in, what went out.
pub struct UserStructure {
    pub sender: String,
    pub request_input: String,
    pub request_output: String,
}

/// Mathematical model of one logged transformation.
pub ghost struct UserModel {
    pub sender: Seq<char>,
    pub request_input: Seq<char>,
    pub request_output: Seq<char>,
}

impl View for UserStructure {
    type V = UserModel;

    open spec fn view(&self) -> UserModel {
        UserModel {
            sender: self.sender@,
            request_input: self.request_input@,
            request_output: self.request_output@,
        }
    }
}

/// The application state: the mutation counter and the transformation log.
#[allow(non_snake_case)]
pub struct Storage {
    pub toUpperTotal: u128,
    pub userStruct: Vec<UserStructure>,
}

/// Mathematical model of the application state.
pub ghost struct StorageModel {
    pub total: u128,
    pub users: Seq<UserModel>,
}

impl View for Storage {
    type V = StorageModel;

    open spec fn view(&self) -> StorageModel {
        StorageModel {
            total: self.toUpperTotal,
            users: self.userStruct@.map_values(|u: UserStructure| u@),
        }
    }
}

/// What dispatching one mutating request does: decode the payload; numeric
/// text is reported and rejected; otherwise the sentence is upper-cased,
/// the counter advances, the transformation is logged, and a notice carries
/// the result.
pub open spec fn spec_handle_advance(
    st: StorageModel,
    sender: Seq<char>,
    payload_hex: Seq<char>,
) -> (StorageModel, Seq<MessageModel>, Verdict) {
    match spec_hex2str(payload_hex) {
        Err(_) => (st, seq![report_model("Malformed payload"@)], Verdict::Reject),
        Ok(text) => {
            if spec_is_numeric(text) {
                (st, seq![report_model("Sentence is not in string format"@)], Verdict::Reject)
            } else if st.total == u128::MAX {
                (st, seq![report_model("Counter limit reached"@)], Verdict::Reject)
            } else {
                (
                    StorageModel {
                        total: (st.total + 1) as u128,
                        users: st.users.push(
                            UserModel {
                                sender: sender,
                                request_input: text,
                                request_output: upper_of(text),
                            },
                        ),
                    },
                    seq![notice_model(upper_of(text))],
                    Verdict::Accept,
                )
            }
        },
    }
}

/// Rendering of the transformation log entries from index `i` on.
pub open spec fn render_users_from(us: Seq<UserModel>, i: int) -> Seq<char>
    recommends
        0 <= i <= us.len(),
    decreases us.len() - i when 0 <= i <= us.len()
{
    if i >= us.len() {
        Seq::empty()
    } else {
        "{Sender: '"@ + us[i].sender + "', Input: '"@ + us[i].request_input + "', Output: '"@
            + us[i].request_output + "'}\n"@ + render_users_from(us, i + 1)
    }
}

/// What dispatching one read-only request does: route by the first path
/// segment to the log listing or the counter; the state is only read.
pub open spec fn spec_handle_inspect(st: StorageModel, payload_hex: Seq<char>) -> (Seq<
    MessageModel,
>, Verdict) {
    match spec_hex2str(payload_hex) {
        Err(_) => (seq![report_model("Malformed payload"@)], Verdict::Reject),
        Ok(text) => {
            let seg0 = first_segment(text);
            if seg0 == "list"@ {
                (seq![report_model(render_users_from(st.users, 0))], Verdict::Accept)
            } else if seg0 == "total"@ {
                (
                    seq![report_model("Total upper: "@ + dec_chars_of(st.total as nat))],
                    Verdict::Accept,
                )
            } else {
                (seq![report_model("Function not implemented"@)], Verdict::Reject)
            }
        },
    }
}

/// Dispatches one mutating request against the storage.
pub fn handle_advance(storage: &mut Storage, sender: &str, payload_hex: &str) -> (r: (
    Vec<OutboundMessage>,
    Verdict,
))
    ensures
        ({
            let (ns, msgs, v) = spec_handle_advance(old(storage)@, sender@, payload_hex@);
            &&& final(storage)@ == ns
            &&& msgs_model(r.0@) =~= msgs
            &&& r.1 == v
        }),
{
    let text = match hex2str(payload_hex) {
        Ok(t) => t,
        Err(_) => {
            return (one_msg(report_to("Malformed payload")), Verdict::Reject);
        },
    };
    if is_numeric(text.as_str()) {
        return (one_msg(report_to("Sentence is not in string format")), Verdict::Reject);
    }
    if storage.toUpperTotal == u128::MAX {
        return (one_msg(report_to("Counter limit reached")), Verdict::Reject);
    }
    let updated = to_uppercase(text.as_str());
    let notice = OutboundMessage { channel: Channel::Notice, payload: updated.clone() };
    storage.toUpperTotal = storage.toUpperTotal + 1;
    storage.userStruct.push(
        UserStructure {
            sender: String::from_str(sender),
            request_input: text,
            request_output: updated,
        },
    );
    proof {
        assert(storage@.users =~= spec_handle_advance(
            old(storage)@,
            sender@,
            payload_hex@,
        ).0.users);
    }
    (one_msg(notice), Verdict::Accept)
}

/// Renders the whole transformation log.
fn render_users_exec(storage: &Storage) -> (r: String)
    ensures
        r@ == render_users_from(storage@.users, 0),
{
    let ghost us = storage@.users;
    let mut out = String::new();
    let mut i: usize = 0;
    while i < storage.userStruct.len()
        invariant
            i <= storage.userStruct@.len(),
            us == storage@.users,
            us.len() == storage.userStruct@.len(),
            out@ + render_users_from(us, i as int) =~= render_users_from(us, 0),
        decreases storage.userStruct@.len() - i,
    {
        out.append("{Sender: '");
        out.append(storage.userStruct[i].sender.as_str());
        out.append("', Input: '");
        out.append(storage.userStruct[i].request_input.as_str());
        out.append("', Output: '");
        out.append(storage.userStruct[i].request_output.as_str());
        out.append("'}\n");
        proof {
            assert(render_users_from(us, i as int) =~= "{Sender: '"@ + us[i as int].sender
                + "', Input: '"@ + us[i as int].request_input + "', Output: '"@ + us[
                i as int
            ].request_output + "'}\n"@ + render_users_from(us, i + 1));
            assert(out@ + render_users_from(us, i + 1) =~= render_users_from(us, 0));
        }
        i += 1;
    }
    proof {
        assert(render_users_from(us, i as int) =~= Seq::<char>::empty());
        assert(out@ =~= render_users_from(us, 0));
    }
    out
}

/// Dispatches one read-only request against the storage.
pub fn handle_inspect(storage: &Storage, payload_hex: &str) -> (r: (Vec<OutboundMessage>, Verdict))
    ensures
        ({
            let (msgs, v) = spec_handle_inspect(storage@, payload_hex@);
            &&& msgs_model(r.0@) =~= msgs
            &&& r.1 == v
        }),
{
    let text = match hex2str(payload_hex) {
        Ok(t) => t,
        Err(_) => {
            return (one_msg(report_to("Malformed payload")), Verdict::Reject);
        },
    };
    let (seg0, _seg1) = path_segments(text.as_str());
    if str_eq(seg0.as_str(), "list") {
        let rendering = render_users_exec(storage);
        (one_msg(report_to(rendering.as_str())), Verdict::Accept)
    } else if str_eq(seg0.as_str(), "total") {
        let mut msg = String::from_str("Total upper: ");
        let dec = u128_to_dec(storage.toUpperTotal);
        msg.append(dec.as_str());
        (one_msg(report_to(msg.as_str())), Verdict::Accept)
    } else {
        (one_msg(report_to("Function not implemented")), Verdict::Reject)
    }
}

} // verus!
