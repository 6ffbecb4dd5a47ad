//! The policy on the coverage tools: the profile merger must be present on
//! disk where the toolchain says it is.

use vstd::prelude::*;
use vstd::string::*;

verus! {

/// The error given when the profile merger is not installed.
pub open spec fn missing_merger_message() -> Seq<char> {
    "We couldn't find llvm-profdata. Try installing the llvm-tools component with `rustup component add llvm-tools-preview`."@
}

/// Where the profile merger is, given where the toolchain resolved it
/// (`resolved`) and whether that path exists on disk (`exists`, which only
/// counts when resolution succeeded). When the merger cannot be resolved
/// the error is the installation hint followed by the resolver's error; when
/// the resolved path does not exist it is the installation hint alone.
pub fn merger_location(resolved: Result<String, String>, exists: bool) -> (r: Result<String, String>)
    ensures
        match resolved {
            Err(e) => r matches Err(m) && m@ == missing_merger_message() + "\n"@ + e@,
            Ok(p) => if exists {
                r == Ok::<String, String>(p)
            } else {
                r matches Err(e) && e@ == missing_merger_message()
            },
        },
{
    match resolved {
        Err(e) => {
            let mut msg = String::from_str(
                "We couldn't find llvm-profdata. Try installing the llvm-tools component with `rustup component add llvm-tools-preview`.",
            );
            msg.append("\n");
            msg.append(e.as_str());
            Err(msg)
        },
        Ok(p) => {
            if exists {
                Ok(p)
            } else {
                Err(
                    String::from_str(
                        "We couldn't find llvm-profdata. Try installing the llvm-tools component with `rustup component add llvm-tools-preview`.",
                    ),
                )
            }
        },
    }
}

} // verus!
