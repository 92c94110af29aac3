//! From the outcome of a run to its result.

use crate::command::NixFlakeShowBuilder;
use crate::error::FlakeShowError;
use crate::info::{parsed, FlakeInfo};
use vstd::prelude::*;

verus! {

/// What is read of a run of the tool that came to an end.
#[derive(Debug, Clone, PartialEq, Eq)]
pub struct ToolOutput {
    /// Whether the exit status was zero.
    pub success: bool,
    /// What the tool printed on standard output.
    pub stdout: Vec<u8>,
}

impl NixFlakeShowBuilder {
    /// Decides what a run of the built command amounts to. `ran` is what
    /// running it gave: the launcher's error where the tool could not be
    /// started, else how the tool ended.
    ///
    /// A launch failure is handed on as it is. A run that ended with a
    /// non-zero status gives `Ok(None)`: nothing to report, which is no error.
    /// After a successful run the output is read, and a failure to read it is
    /// an error of its own kind.
    pub fn into_structured<E>(self, ran: Result<ToolOutput, E>) -> (result: Result<
        Option<FlakeInfo>,
        FlakeShowError<E>,
    >)
        ensures
            match ran {
                Err(e) => result == Err::<Option<FlakeInfo>, FlakeShowError<E>>(
                    FlakeShowError::Launch(e),
                ),
                Ok(output) => if !output.success {
                    result == Ok::<Option<FlakeInfo>, FlakeShowError<E>>(None)
                } else {
                    match parsed(output.stdout@) {
                        Ok(index) => result matches Ok(Some(info)) && info@ == index,
                        Err(e) => result == Err::<Option<FlakeInfo>, FlakeShowError<E>>(
                            FlakeShowError::Parse(e),
                        ),
                    }
                },
            },
    {
        let output = match ran {
            Ok(output) => output,
            Err(e) => {
                return Err(FlakeShowError::Launch(e));
            },
        };
        if !output.success {
            return Ok(None);
        }
        match FlakeInfo::from_stdout(output.stdout.as_slice()) {
            Ok(info) => Ok(Some(info)),
            Err(e) => Err(FlakeShowError::Parse(e)),
        }
    }
}

} // verus!
