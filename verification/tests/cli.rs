use lobster_waku_gateway::cli::{cli_missing_for_body, parse_cli_address, CliAddress};
use lobster_waku_gateway::records::{ConversationId, IdentityId};

#[test]
fn cli_address_parser_accepts_user_agent_and_room() {
    let user = parse_cli_address("user:rsaga").expect("user address should parse");
    assert_eq!(user, CliAddress::User(IdentityId("rsaga".into())));

    let agent = parse_cli_address("agent:codex").expect("agent address should parse");
    assert_eq!(agent, CliAddress::Agent(IdentityId("codex".into())));

    let room = parse_cli_address("room:city:core-harbor:lobby").expect("room address should parse");
    assert_eq!(
        room,
        CliAddress::Room(ConversationId("room:city:core-harbor:lobby".into()))
    );
}

#[test]
fn cli_address_parser_rejects_invalid_prefix() {
    let error = parse_cli_address("foo:bar").expect_err("invalid prefix should fail");
    assert!(error.contains("unsupported cli address"));
}

#[test]
fn cli_address_parser_rejects_empty_ids() {
    assert_eq!(
        parse_cli_address("user:").expect_err("empty user"),
        "unsupported cli address: user:"
    );
    assert!(parse_cli_address("agent:").is_err());
    assert!(parse_cli_address("room:").is_err());
    assert!(parse_cli_address("").is_err());
}

#[test]
fn cli_missing_for_body_uses_message_shape() {
    assert_eq!(cli_missing_for_body(), "{\"message\":\"missing for\"}");
}
