//! Formatting of verifier and backend failures into the multi-line
//! diagnostics the pipeline surfaces to its caller: the failure message, the
//! failing instruction when one is identified, and a textual dump of the
//! function's intermediate representation.

use vstd::prelude::*;
use vstd::string::StringExecFns;

verus! {

/// The instruction a verifier failure points at: the entity's name and the
/// instruction's textual form.
pub struct InstructionLocation {
    pub entity: String,
    pub display: String,
}

/// A failure reported by the backend's verifier: its message and, when the
/// failure names an instruction, that instruction.
pub struct VerifierError {
    pub message: String,
    pub location: Option<InstructionLocation>,
}

/// A failure reported by the backend during code generation: either a
/// verification failure discovered late, or any other backend message.
pub enum BackendError {
    Verifier(VerifierError),
    Other(String),
}

/// The text `pretty_verifier_error` produces: the message, then the failing
/// instruction when one is identified, then the function dump.
pub open spec fn verifier_diagnostic(err: VerifierError, func_text: Seq<char>) -> Seq<char> {
    match err.location {
        Option::Some(loc) => err.message@ + "\n"@ + loc.entity@ + ": "@ + loc.display@ + "\n\n"@
            + func_text,
        Option::None => err.message@ + "\n"@ + func_text,
    }
}

/// The text `pretty_error` produces.
pub open spec fn backend_diagnostic(err: BackendError, func_text: Seq<char>) -> Seq<char> {
    match err {
        BackendError::Verifier(e) => verifier_diagnostic(e, func_text),
        BackendError::Other(m) => m@,
    }
}

/// Pretty-prints a verifier error: the error's message, the failing
/// instruction when the error names one, and `func_text`, the textual dump
/// of the function's intermediate representation.
pub fn pretty_verifier_error(func_text: &str, err: &VerifierError) -> (r: String)
    ensures
        r@ == verifier_diagnostic(*err, func_text@),
{
    let mut msg = String::new();
    msg.append(err.message.as_str());
    match &err.location {
        Option::Some(loc) => {
            msg.append("\n");
            msg.append(loc.entity.as_str());
            msg.append(": ");
            msg.append(loc.display.as_str());
            msg.append("\n\n");
        },
        Option::None => {
            msg.append("\n");
        },
    }
    msg.append(func_text);
    proof {
        assert(msg@ =~= verifier_diagnostic(*err, func_text@));
    }
    msg
}

/// Pretty-prints a backend error: a verification failure raised late reuses
/// the verifier-diagnostic format; any other failure is surfaced as the
/// backend's own message.
pub fn pretty_error(func_text: &str, err: &BackendError) -> (r: String)
    ensures
        r@ == backend_diagnostic(*err, func_text@),
{
    match err {
        BackendError::Verifier(e) => pretty_verifier_error(func_text, e),
        BackendError::Other(m) => String::from_str(m.as_str()),
    }
}

} // verus!
