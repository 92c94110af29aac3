//! Asking the tool which platform it runs on.

use crate::command::{nix_cmd, Invocation, InvocationView, StreamTarget};
use vstd::prelude::*;
use vstd::utf8::{decode_utf8, valid_utf8};

verus! {

/// The text that `bstr` shows for `bytes`: the bytes decoded as UTF-8, with
/// its replacement for what is not UTF-8.
pub uninterp spec fn lossy_text(bytes: Seq<u8>) -> Seq<char>;

/// Calls `bstr::ByteSlice::as_bstr` and the `to_string` of the `BStr`. The
/// contract gives the text a name, and says that bytes which are UTF-8 come
/// out as the text they encode.
#[verifier::external_body]
fn show_bytes(bytes: &[u8]) -> (text: String)
    ensures
        text@ == lossy_text(bytes@),
        valid_utf8(bytes@) ==> text@ == decode_utf8(bytes@),
{
    bstr::ByteSlice::as_bstr(bytes).to_string()
}

/// The arguments that make the tool print the platform it runs on.
pub open spec fn current_system_arguments() -> Seq<Seq<char>> {
    seq!["eval"@, "--impure"@, "--raw"@, "--expr"@, "builtins.currentSystem"@]
}

/// The command that prints the platform the tool runs on. Its streams are
/// left unset.
pub fn current_nix_system_query() -> (cmd: Invocation)
    ensures
        cmd@ == (InvocationView {
            program: crate::command::nix_program(),
            args: current_system_arguments(),
            stdout: StreamTarget::Unset,
            stderr: StreamTarget::Unset,
        }),
{
    let mut cmd = nix_cmd();
    let mut args: Vec<String> = Vec::new();
    args.push("eval".to_owned());
    args.push("--impure".to_owned());
    args.push("--raw".to_owned());
    args.push("--expr".to_owned());
    args.push("builtins.currentSystem".to_owned());
    assert(args.deep_view() =~= current_system_arguments());
    cmd.args = args;
    cmd
}

/// The platform's name, from what [`current_nix_system_query`] printed on
/// standard output.
pub fn current_nix_system(stdout: &[u8]) -> (system: String)
    ensures
        system@ == lossy_text(stdout@),
        valid_utf8(stdout@) ==> system@ == decode_utf8(stdout@),
{
    show_bytes(stdout)
}

} // verus!
