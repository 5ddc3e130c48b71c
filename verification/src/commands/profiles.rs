//! The profiles command: looks up one public profile by wallet address.
//!
//! The address is validated here, before any network call is made; an
//! invalid address yields the fixed error message and no fetch happens.

use vstd::prelude::*;
use vstd::string::*;

verus! {

/// Arguments of the profiles command.
pub struct ProfilesArgs {
    pub command: ProfilesCommand,
}

/// The actions the profiles command offers.
pub enum ProfilesCommand {
    Get { address: String },
}

/// Whether a character is a hexadecimal digit.
pub open spec fn is_hex_digit(c: char) -> bool {
    (48 <= c as int && c as int <= 57) || (97 <= c as int && c as int <= 102) || (65 <= c as int
        && c as int <= 70)
}

/// Whether text is a well-formed wallet address: the 0x prefix followed by
/// exactly forty hexadecimal digits.
pub open spec fn spec_valid_address(s: Seq<char>) -> bool {
    s.len() == 42 && s[0] == '0' && s[1] == 'x' && (forall|i: int|
        2 <= i < 42 ==> is_hex_digit(#[trigger] s[i]))
}

/// Checks whether text is a well-formed wallet address.
pub fn validate_address(s: &str) -> (r: bool)
    ensures
        r == spec_valid_address(s@),
{
    let n = s.unicode_len();
    if n != 42 {
        return false;
    }
    if s.get_char(0) != '0' || s.get_char(1) != 'x' {
        return false;
    }
    let mut i: usize = 2;
    while i < 42
        invariant
            2 <= i <= 42,
            s@.len() == 42,
            forall|j: int| 2 <= j < i ==> is_hex_digit(#[trigger] s@[j]),
        decreases 42 - i,
    {
        let c = s.get_char(i);
        let code = c as u32;
        let ok = (48 <= code && code <= 57) || (97 <= code && code <= 102) || (65 <= code && code
            <= 70);
        if !ok {
            return false;
        }
        i += 1;
    }
    true
}

/// What the profiles command decides before its one network call: a valid
/// address is handed on unchanged for the fetch, an invalid one fails with
/// the fixed message and no fetch is attempted.
pub fn profiles_plan(args: &ProfilesArgs) -> (r: Result<String, String>)
    ensures
        (match args.command {
            ProfilesCommand::Get { address } => spec_valid_address(address@) ==> (r is Ok
                && r->Ok_0@ == address@),
        }),
        (match args.command {
            ProfilesCommand::Get { address } => !spec_valid_address(address@) ==> (r is Err
                && r->Err_0@ == "Invalid address: must be a 0x-prefixed hex address"@),
        }),
{
    match &args.command {
        ProfilesCommand::Get { address } => {
            if validate_address(address.as_str()) {
                Ok(address.clone())
            } else {
                Err("Invalid address: must be a 0x-prefixed hex address".to_owned())
            }
        },
    }
}

} // verus!
