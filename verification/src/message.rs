//! The confirmation message reported after a package has been created. It
//! embeds the literal program name and the target path; any terminal
//! emphasis (bolding, dimming) is cosmetic and left to the caller.

use vstd::prelude::*;

verus! {

/// The confirmation line: a checkmark indicator, the quoted name, and the
/// quoted target path.
pub open spec fn success_message_spec(name: Seq<char>, path: Seq<char>) -> Seq<char> {
    "✅ Created an Aleo program '"@ + name + "' (in \""@ + path + "\")"@
}

/// Formats the confirmation message for a created package.
pub fn success_message(name: &str, path: &str) -> (r: String)
    ensures
        r@ == success_message_spec(name@, path@),
{
    String::from_str("✅ Created an Aleo program '")
        .concat(name)
        .concat("' (in \"")
        .concat(path)
        .concat("\")")
}

} // verus!
