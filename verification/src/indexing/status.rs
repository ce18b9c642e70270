//! The status that reports an error across a process boundary: a code of
//! the RPC layer and a message for people.

use vstd::prelude::*;
use vstd::string::StringExecFns;

verus! {

/// The status of the RPC layer, as the `tonic` crate holds it. Nothing here
/// looks inside one: it is read through its methods into a [`WireStatus`],
/// and built from one.
#[verifier::external_type_specification]
#[verifier::external_body]
pub struct ExRpcStatus(tonic::Status);

/// The status codes of the RPC layer, as the `tonic` crate declares them.
#[verifier::external_type_specification]
pub struct ExRpcCode(tonic::Code);

/// The code that a status of the RPC layer holds: what `tonic::Status::code`
/// returns for it.
pub uninterp spec fn rpc_code(status: tonic::Status) -> tonic::Code;

/// The message that a status of the RPC layer holds: what
/// `tonic::Status::message` returns for it.
pub uninterp spec fn rpc_message(status: tonic::Status) -> Seq<char>;

/// A status of the RPC layer as plain values: the code and the message that
/// it holds. Whatever else it holds (details, metadata, a source) plays no
/// part here.
pub open spec fn plain_view(status: tonic::Status) -> WireStatusView {
    WireStatusView { code: rpc_code(status), message: rpc_message(status) }
}

/// A wire status as plain values. The code is all that the receiving side
/// can rely on: the message is for people and is never parsed.
#[derive(Debug)]
pub struct WireStatus {
    pub code: tonic::Code,
    pub message: String,
}

/// What a [`WireStatus`] stands for.
pub struct WireStatusView {
    pub code: tonic::Code,
    pub message: Seq<char>,
}

impl View for WireStatus {
    type V = WireStatusView;

    open spec fn view(&self) -> WireStatusView {
        WireStatusView { code: self.code, message: self.message@ }
    }
}

impl WireStatus {
    /// A status with the given code and message.
    pub fn new(code: tonic::Code, message: String) -> (status: WireStatus)
        ensures
            status@ == (WireStatusView { code, message: message@ }),
    {
        WireStatus { code, message }
    }

    /// The code of the status.
    pub fn code(&self) -> (code: tonic::Code)
        ensures
            code == self@.code,
    {
        self.code
    }

    /// The message of the status.
    pub fn message(&self) -> (message: &str)
        ensures
            message@ == self@.message,
    {
        self.message.as_str()
    }

    /// Reads the code and the message of a status of the RPC layer.
    pub fn from_rpc(status: &tonic::Status) -> (plain: WireStatus)
        ensures
            plain@ == plain_view(*status),
    {
        WireStatus::new(status.code(), String::from_str(status.message()))
    }

    /// Builds the status of the RPC layer that holds the same code and the
    /// same message.
    pub fn into_rpc(self) -> (status: tonic::Status)
        ensures
            plain_view(status) == self@,
    {
        rpc_status(self.code, self.message)
    }
}

/// `tonic::Status::code` returns the code that the status holds. The
/// contract gives that code its name.
pub assume_specification[ tonic::Status::code ](status: &tonic::Status) -> (code: tonic::Code)
    ensures
        code == rpc_code(*status),
;

/// `tonic::Status::message` returns the message that the status holds. The
/// contract gives that message its name.
pub assume_specification<'a>[ tonic::Status::message ](status: &'a tonic::Status) -> (message:
    &'a str)
    ensures
        message@ == rpc_message(*status),
;

/// Makes a status with `tonic::Status::new`, which stores the code and the
/// message that it is given; the methods `code` and `message` return what
/// was stored. The contract says that the new status holds that code and
/// that message.
#[verifier::external_body]
fn rpc_status(code: tonic::Code, message: String) -> (status: tonic::Status)
    ensures
        rpc_code(status) == code,
        rpc_message(status) == message@,
{
    tonic::Status::new(code, message)
}

} // verus!
