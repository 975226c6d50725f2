use sealbox::endpoint::{
    check_streams, dash_count, is_dash, resolve, resolve_optional, token_or_default, Endpoint,
    Plan, Request,
};
use sealbox::error::{Direction, Error};

fn request<'a>(
    key: Option<&'a str>,
    input: Option<&'a str>,
    output: Option<&'a str>,
    use_nonce: Option<&'a str>,
    write_nonce: Option<&'a str>,
) -> Request<'a> {
    Request { key, input, output, use_nonce, write_nonce }
}

#[test]
fn is_dash_accepts_only_the_single_dash() {
    assert!(is_dash("-"));
    assert!(!is_dash(""));
    assert!(!is_dash("--"));
    assert!(!is_dash("-a"));
    assert!(!is_dash("a"));
    assert!(!is_dash(" -"));
    assert!(!is_dash("\u{2212}"));
    assert!(!is_dash("./-"));
}

#[test]
fn dash_count_of_nothing_is_zero() {
    assert_eq!(dash_count(&[]), 0);
}

#[test]
fn dash_count_ignores_absent_tokens_and_paths() {
    assert_eq!(dash_count(&[None, None]), 0);
    assert_eq!(dash_count(&[Some("key.bin"), None, Some("--")]), 0);
}

#[test]
fn dash_count_counts_each_sentinel() {
    assert_eq!(dash_count(&[Some("-")]), 1);
    assert_eq!(dash_count(&[Some("-"), Some("in.txt"), None]), 1);
    assert_eq!(dash_count(&[Some("-"), Some("-"), None]), 2);
    assert_eq!(dash_count(&[Some("-"), Some("-"), Some("-")]), 3);
    assert_eq!(dash_count(&[None, Some("x"), Some("-"), Some("y"), Some("-")]), 2);
}

#[test]
fn check_streams_passes_one_claim_per_direction() {
    assert_eq!(check_streams(&[Some("-"), Some("k"), None], &[Some("-"), None]), Ok(()));
    assert_eq!(check_streams(&[], &[]), Ok(()));
}

#[test]
fn check_streams_judges_inputs_before_outputs() {
    let input = Err(Error::AmbiguousStandardStream(Direction::Input));
    let output = Err(Error::AmbiguousStandardStream(Direction::Output));
    assert_eq!(check_streams(&[Some("-"), Some("-")], &[Some("o")]), input);
    assert_eq!(check_streams(&[Some("-"), Some("k")], &[Some("-"), Some("-")]), output);
    assert_eq!(check_streams(&[Some("-"), Some("-")], &[Some("-"), Some("-")]), input);
}

#[test]
fn resolve_maps_the_sentinel_to_the_standard_stream() {
    assert_eq!(resolve("-"), Endpoint::StandardStream);
}

#[test]
fn resolve_maps_other_text_to_a_path() {
    assert_eq!(resolve("out.bin"), Endpoint::File("out.bin".to_string()));
    assert_eq!(resolve("--"), Endpoint::File("--".to_string()));
    assert_eq!(resolve(""), Endpoint::File(String::new()));
    assert_eq!(resolve("dir/-"), Endpoint::File("dir/-".to_string()));
}

#[test]
fn resolve_optional_keeps_absence() {
    assert_eq!(resolve_optional(None), None);
    assert_eq!(resolve_optional(Some("-")), Some(Endpoint::StandardStream));
    assert_eq!(resolve_optional(Some("n.bin")), Some(Endpoint::File("n.bin".to_string())));
}

#[test]
fn token_or_default_falls_back_to_the_sentinel() {
    assert_eq!(token_or_default(None), "-");
    assert_eq!(token_or_default(Some("file")), "file");
    assert_eq!(token_or_default(Some("-")), "-");
}

#[test]
fn plan_resolves_every_role() {
    let plan = request(Some("k"), Some("in"), Some("out"), Some("n"), Some("-")).plan();
    assert_eq!(
        plan,
        Ok(Plan {
            key: Endpoint::File("k".to_string()),
            input: Endpoint::File("in".to_string()),
            output: Endpoint::File("out".to_string()),
            use_nonce: Some(Endpoint::File("n".to_string())),
            write_nonce: Some(Endpoint::StandardStream),
        })
    );
}

#[test]
fn plan_defaults_payload_and_output_to_the_standard_streams() {
    let plan = request(Some("k"), None, None, None, None).plan();
    assert_eq!(
        plan,
        Ok(Plan {
            key: Endpoint::File("k".to_string()),
            input: Endpoint::StandardStream,
            output: Endpoint::StandardStream,
            use_nonce: None,
            write_nonce: None,
        })
    );
}

#[test]
fn plan_rejects_two_claims_on_standard_input() {
    let conflict = Err(Error::AmbiguousStandardStream(Direction::Input));
    assert_eq!(request(Some("-"), Some("-"), Some("o"), None, None).plan(), conflict);
    assert_eq!(request(Some("-"), Some("in"), Some("o"), Some("-"), None).plan(), conflict);
    assert_eq!(request(Some("k"), Some("-"), Some("o"), Some("-"), None).plan(), conflict);
    assert_eq!(request(Some("-"), Some("-"), Some("o"), Some("-"), None).plan(), conflict);
}

#[test]
fn plan_counts_an_absent_defaulting_token_as_a_claim() {
    let conflict = Err(Error::AmbiguousStandardStream(Direction::Input));
    assert_eq!(request(Some("-"), None, Some("o"), None, None).plan(), conflict);
    assert_eq!(request(None, None, Some("o"), None, None).plan(), conflict);
    assert_eq!(request(None, Some("in"), Some("o"), Some("-"), None).plan(), conflict);
    assert_eq!(request(Some("k"), None, Some("o"), Some("-"), None).plan(), conflict);
}

#[test]
fn plan_rejects_two_claims_on_standard_output() {
    let conflict = Err(Error::AmbiguousStandardStream(Direction::Output));
    assert_eq!(request(Some("k"), Some("in"), Some("-"), None, Some("-")).plan(), conflict);
    assert_eq!(request(Some("k"), Some("in"), None, None, Some("-")).plan(), conflict);
}

#[test]
fn plan_reports_the_input_conflict_first() {
    assert_eq!(
        request(Some("-"), Some("-"), Some("-"), None, Some("-")).plan(),
        Err(Error::AmbiguousStandardStream(Direction::Input))
    );
}

#[test]
fn plan_allows_one_claim_in_each_direction() {
    let plan = request(Some("-"), Some("in"), Some("-"), Some("n"), Some("w")).plan().unwrap();
    assert_eq!(plan.key, Endpoint::StandardStream);
    assert_eq!(plan.output, Endpoint::StandardStream);
    assert_eq!(plan.input, Endpoint::File("in".to_string()));
}

#[test]
fn messages_are_single_lines() {
    assert_eq!(
        Error::AmbiguousStandardStream(Direction::Input).message(),
        "Only one input source can be from STDIN"
    );
    assert_eq!(
        Error::AmbiguousStandardStream(Direction::Output).message(),
        "Only one output source can be to STDOUT"
    );
    assert_eq!(
        Error::EndpointUnavailable(Direction::Input, "not found".to_string()).message(),
        "Cannot open input file: not found"
    );
    assert_eq!(
        Error::EndpointUnavailable(Direction::Output, "denied".to_string()).message(),
        "Cannot open output file: denied"
    );
    assert_eq!(
        Error::InvalidKeyLength { actual: 3 }.message(),
        "Incorrect length for key provided"
    );
    assert_eq!(
        Error::InvalidNonceLength { actual: 3 }.message(),
        "Incorrect length for nonce provided"
    );
    assert_eq!(Error::IoFailure("broken pipe".to_string()).message(), "broken pipe");
    assert_eq!(
        Error::AuthenticationFailure.message(),
        "Authentication failed: wrong key, wrong nonce or altered data"
    );
    assert_eq!(Error::UnknownCommand.message(), "Unknown command or missing options");
}
