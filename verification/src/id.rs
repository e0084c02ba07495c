//! Construction and validation of the network-scoped program identifier
//! token, of the form `{name}.{network-suffix}` with the fixed suffix
//! `aleo`.

use vstd::prelude::*;

verus! {

/// The identifier token derived from a program name: the name followed by
/// the literal network suffix `.aleo`.
pub open spec fn id_token_spec(name: Seq<char>) -> Seq<char> {
    name + ".aleo"@
}

/// Whether a token parses as a well-formed network-scoped program
/// identifier. The grammar (identifier characters, reserved words, length
/// limit) is owned entirely by the network's identifier parser; this name
/// stands for its verdict, which depends on the token's characters alone.
pub uninterp spec fn program_id_token_valid(token: Seq<char>) -> bool;

/// Relies on snarkvm's `ProgramID::<MainnetV0>::from_str`, which parses a
/// `{name}.{network}` token: the outcome is deterministic in the token's
/// characters (identifier grammar, reserved words and the length limit are
/// fixed by the network type).
#[verifier::external_body]
pub(crate) fn id_token_is_valid(token: &str) -> (r: bool)
    ensures
        r == program_id_token_valid(token@),
{
    <snarkvm::prelude::ProgramID<snarkvm::prelude::MainnetV0> as core::str::FromStr>::from_str(
        token,
    ).is_ok()
}

/// Builds the identifier token for a program name by appending the fixed
/// network suffix.
pub fn id_token(name: &str) -> (r: String)
    ensures
        r@ == id_token_spec(name@),
{
    String::from_str(name).concat(".aleo")
}

} // verus!
