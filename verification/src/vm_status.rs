//! How the JSON-RPC service shows the status of an executed transaction.

use crate::text::{push_upper_hex, string_push, upper_hex};
use vstd::prelude::*;

verus! {

/// A Move module: the address that published it and its name.
#[derive(Clone, Debug, PartialEq, Eq)]
pub struct ModuleId {
    pub address: [u8; 16],
    pub name: String,
}

/// Where a Move program aborted.
#[derive(Clone, Debug, PartialEq, Eq)]
pub enum AbortLocation {
    /// In a function of this module.
    Module(ModuleId),
    /// In a script.
    Script,
}

/// The status of a transaction that is kept on chain.
#[derive(Clone, Debug, PartialEq, Eq)]
pub enum KeptVMStatus {
    Executed,
    OutOfGas,
    MoveAbort(AbortLocation, u64),
    ExecutionFailure { location: AbortLocation, function: u16, code_offset: u16 },
    MiscellaneousError,
}

/// A name and a description of an error category or reason.
#[derive(Clone, Debug, PartialEq, Eq)]
pub struct ErrorDescription {
    pub code_name: String,
    pub code_description: String,
}

/// What the error map of the Move framework says of an abort code.
#[derive(Clone, Debug, PartialEq, Eq)]
pub struct ErrorContext {
    pub category: ErrorDescription,
    pub reason: ErrorDescription,
}

/// The explanation of a Move abort, as shown to clients.
#[derive(Clone, Debug, PartialEq, Eq)]
pub struct MoveAbortExplanationView {
    pub category: String,
    pub category_description: String,
    pub reason: String,
    pub reason_description: String,
}

/// A transaction status as shown to clients.
#[derive(Clone, Debug, PartialEq, Eq)]
pub enum VMStatusView {
    Executed,
    OutOfGas,
    MoveAbort { location: String, abort_code: u64, explanation: Option<MoveAbortExplanationView> },
    ExecutionFailure { location: String, function_index: u16, code_offset: u16 },
    MiscellaneousError,
}

/// The text of an abort location: "Script", or the module's address in upper-case
/// hex, "::" and the module's name.
pub open spec fn location_text(loc: AbortLocation) -> Seq<char> {
    match loc {
        AbortLocation::Script => "Script"@,
        AbortLocation::Module(id) => upper_hex(id.address@) + "::"@ + id.name@,
    }
}

/// The text of an abort location.
pub fn abort_location_text(loc: &AbortLocation) -> (res: String)
    ensures
        res@ == location_text(*loc),
{
    match loc {
        AbortLocation::Script => String::from_str("Script"),
        AbortLocation::Module(id) => {
            let mut text = String::new();
            push_upper_hex(&mut text, id.address.as_slice());
            string_push(&mut text, ':');
            string_push(&mut text, ':');
            text.append(id.name.as_str());
            proof {
                reveal_strlit("::");
                assert(text@ =~= location_text(*loc));
            }
            text
        },
    }
}

/// The explanation lookup that the view of `status` needs: the module and the
/// code of an abort in a module, and none for anything else.
pub open spec fn explanation_query(status: KeptVMStatus) -> Option<(ModuleId, u64)> {
    match status {
        KeptVMStatus::MoveAbort(AbortLocation::Module(id), code) => Some((id, code)),
        _ => None,
    }
}

/// The module and code whose explanation the view of `status` shows, if any.
pub fn abort_explanation_query(status: &KeptVMStatus) -> (res: Option<(&ModuleId, u64)>)
    ensures
        match explanation_query(*status) {
            Some((id, code)) => res matches Some((i, c)) && *i == id && c == code,
            None => res is None,
        },
{
    match status {
        KeptVMStatus::MoveAbort(AbortLocation::Module(id), code) => Some((id, *code)),
        _ => None,
    }
}

/// An explanation as text.
pub struct ExplanationText {
    pub category: Seq<char>,
    pub category_description: Seq<char>,
    pub reason: Seq<char>,
    pub reason_description: Seq<char>,
}

impl View for ErrorContext {
    type V = ExplanationText;

    /// The category's and the reason's names and descriptions.
    open spec fn view(&self) -> ExplanationText {
        ExplanationText {
            category: self.category.code_name@,
            category_description: self.category.code_description@,
            reason: self.reason.code_name@,
            reason_description: self.reason.code_description@,
        }
    }
}

impl View for MoveAbortExplanationView {
    type V = ExplanationText;

    open spec fn view(&self) -> ExplanationText {
        ExplanationText {
            category: self.category@,
            category_description: self.category_description@,
            reason: self.reason@,
            reason_description: self.reason_description@,
        }
    }
}

/// A transaction status as shown, with its texts as values.
pub enum StatusText {
    Executed,
    OutOfGas,
    MoveAbort { location: Seq<char>, abort_code: u64, explanation: Option<ExplanationText> },
    ExecutionFailure { location: Seq<char>, function_index: u16, code_offset: u16 },
    MiscellaneousError,
}

impl View for VMStatusView {
    type V = StatusText;

    open spec fn view(&self) -> StatusText {
        match self {
            VMStatusView::Executed => StatusText::Executed,
            VMStatusView::OutOfGas => StatusText::OutOfGas,
            VMStatusView::MoveAbort { location, abort_code, explanation } => StatusText::MoveAbort {
                location: location@,
                abort_code: *abort_code,
                explanation: match explanation {
                    Some(e) => Some(e@),
                    None => None,
                },
            },
            VMStatusView::ExecutionFailure { location, function_index, code_offset } => StatusText::ExecutionFailure {
                location: location@,
                function_index: *function_index,
                code_offset: *code_offset,
            },
            VMStatusView::MiscellaneousError => StatusText::MiscellaneousError,
        }
    }
}

/// The view of `status`, where `explanation` is what the error map gives for
/// `explanation_query(status)`: the statuses without a location are shown as
/// they are; a location is shown as text; an explanation is shown only for an
/// abort in a module.
pub open spec fn status_text(status: KeptVMStatus, explanation: Option<ErrorContext>) -> StatusText {
    match status {
        KeptVMStatus::Executed => StatusText::Executed,
        KeptVMStatus::OutOfGas => StatusText::OutOfGas,
        KeptVMStatus::MoveAbort(loc, abort_code) => StatusText::MoveAbort {
            location: location_text(loc),
            abort_code,
            explanation: match loc {
                AbortLocation::Module(_) => match explanation {
                    Some(c) => Some(c@),
                    None => None,
                },
                AbortLocation::Script => None,
            },
        },
        KeptVMStatus::ExecutionFailure { location, function, code_offset } => StatusText::ExecutionFailure {
            location: location_text(location),
            function_index: function,
            code_offset,
        },
        KeptVMStatus::MiscellaneousError => StatusText::MiscellaneousError,
    }
}

/// The explanation shown for an error context.
fn explanation_view(context: ErrorContext) -> (res: MoveAbortExplanationView)
    ensures
        res@ == context@,
{
    MoveAbortExplanationView {
        category: context.category.code_name,
        category_description: context.category.code_description,
        reason: context.reason.code_name,
        reason_description: context.reason.code_description,
    }
}

/// Shows a kept status to clients.  `explanation` is what the Move error map
/// gives for `abort_explanation_query(status)`, and is not read where that is
/// none.
pub fn vm_status_view_from_kept_vm_status(
    status: &KeptVMStatus,
    explanation: Option<ErrorContext>,
) -> (res: VMStatusView)
    ensures
        res@ == status_text(*status, explanation),
{
    match status {
        KeptVMStatus::Executed => VMStatusView::Executed,
        KeptVMStatus::OutOfGas => VMStatusView::OutOfGas,
        KeptVMStatus::MoveAbort(loc, abort_code) => {
            let explanation = if let AbortLocation::Module(_) = loc {
                match explanation {
                    Some(context) => Some(explanation_view(context)),
                    None => None,
                }
            } else {
                None
            };
            VMStatusView::MoveAbort {
                explanation,
                location: abort_location_text(loc),
                abort_code: *abort_code,
            }
        },
        KeptVMStatus::ExecutionFailure { location, function, code_offset } => {
            VMStatusView::ExecutionFailure {
                location: abort_location_text(location),
                function_index: *function,
                code_offset: *code_offset,
            }
        },
        KeptVMStatus::MiscellaneousError => VMStatusView::MiscellaneousError,
    }
}

/// The view keeps what the status carries: the abort code, and for an execution
/// failure the function index and the code offset, each in its own field,
/// wherever the program stopped; a script is shown as "Script" and a module as
/// its address in upper-case hex, "::" and its name; an explanation is shown
/// only for an abort in a module, and then as the error map gave it.
pub proof fn law_status_view_keeps_status_fields(status: KeptVMStatus, explanation: Option<ErrorContext>)
    ensures
        status matches KeptVMStatus::ExecutionFailure { location, function, code_offset } ==> (status_text(
            status,
            explanation,
        ) matches StatusText::ExecutionFailure { location: l, function_index: f, code_offset: c } && f
            == function && c == code_offset && l == (match location {
            AbortLocation::Script => "Script"@,
            AbortLocation::Module(id) => upper_hex(id.address@) + "::"@ + id.name@,
        })),
        status matches KeptVMStatus::MoveAbort(location, code) ==> (status_text(
            status,
            explanation,
        ) matches StatusText::MoveAbort { location: l, abort_code: a, explanation: e } && a == code && l == (
        match location {
            AbortLocation::Script => "Script"@,
            AbortLocation::Module(id) => upper_hex(id.address@) + "::"@ + id.name@,
        }) && e == (match (location, explanation) {
            (AbortLocation::Module(_), Some(c)) => Some(c@),
            _ => None,
        })),
        status is Executed ==> status_text(status, explanation) is Executed,
        status is OutOfGas ==> status_text(status, explanation) is OutOfGas,
        status is MiscellaneousError ==> status_text(status, explanation) is MiscellaneousError,
{
}

} // verus!

verus! {

/// Whether a submitted transaction executed; any other status fails the
/// submission.
pub fn transaction_executed(status: &VMStatusView) -> (res: bool)
    ensures
        res <==> status@ is Executed,
{
    match status {
        VMStatusView::Executed => true,
        _ => false,
    }
}

} // verus!
