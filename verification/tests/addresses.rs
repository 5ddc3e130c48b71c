use polymarket_cli::commands::profiles::{ProfilesArgs, ProfilesCommand, profiles_plan,
    validate_address};

#[test]
fn well_formed_addresses_pass() {
    let addr = format!("0x{}", "a1B2c3D4e5".repeat(4));
    assert_eq!(addr.len(), 42);
    assert!(validate_address(&addr));
}

#[test]
fn malformed_addresses_fail() {
    assert!(!validate_address(""));
    assert!(!validate_address("0x"));
    let no_prefix = "a".repeat(42);
    assert!(!validate_address(&no_prefix));
    let short = format!("0x{}", "a".repeat(39));
    assert!(!validate_address(&short));
    let long = format!("0x{}", "a".repeat(41));
    assert!(!validate_address(&long));
    let bad_digit = format!("0x{}g", "a".repeat(39));
    assert!(!validate_address(&bad_digit));
}

#[test]
fn invalid_address_fails_before_any_fetch() {
    let args = ProfilesArgs {
        command: ProfilesCommand::Get { address: "not-an-address".to_string() },
    };
    let planned = profiles_plan(&args);
    assert_eq!(
        planned,
        Err("Invalid address: must be a 0x-prefixed hex address".to_string())
    );
}

#[test]
fn valid_address_is_handed_on_unchanged() {
    let addr = format!("0x{}", "0123456789abcdefABCD".repeat(2));
    let args = ProfilesArgs { command: ProfilesCommand::Get { address: addr.clone() } };
    assert_eq!(profiles_plan(&args), Ok(addr));
}
