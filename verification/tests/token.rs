use tart_oauth::token::{conclude, ExchangeError, ExchangeReply, TokenPair};

fn reply_from_json(text: &str) -> ExchangeReply {
    let value: serde_json::Value = match serde_json::from_str(text) {
        Ok(value) => value,
        Err(error) => return ExchangeReply::Malformed(error.to_string()),
    };
    let access = value.get("access_token").and_then(|v| v.as_str());
    let refresh = value.get("refresh_token").and_then(|v| v.as_str());
    match (access, refresh) {
        (Some(access), Some(refresh)) => ExchangeReply::Tokens {
            access_token: access.to_string(),
            refresh_token: refresh.to_string(),
        },
        _ => ExchangeReply::Malformed("missing field".to_string()),
    }
}

#[test]
fn empty_access_token_fails() {
    let reply = reply_from_json("{\"access_token\":\"\", \"refresh_token\":\"r\"}");
    assert_eq!(conclude(reply), Err(ExchangeError::EmptyAccessToken));
}

#[test]
fn tokens_are_returned() {
    let reply = reply_from_json("{\"access_token\":\"a\",\"refresh_token\":\"r\"}");
    assert_eq!(
        conclude(reply),
        Ok(TokenPair { access_token: "a".to_string(), refresh_token: "r".to_string() })
    );
}

#[test]
fn empty_refresh_token_is_accepted() {
    let reply = ExchangeReply::Tokens {
        access_token: "a".to_string(),
        refresh_token: String::new(),
    };
    assert_eq!(
        conclude(reply),
        Ok(TokenPair { access_token: "a".to_string(), refresh_token: String::new() })
    );
}

#[test]
fn other_shapes_are_parse_failures() {
    let reply = reply_from_json("{\"access_token\":\"a\"}");
    assert_eq!(conclude(reply), Err(ExchangeError::Parse("missing field".to_string())));
    let reply = reply_from_json("{\"access_token\":1,\"refresh_token\":\"r\"}");
    assert_eq!(conclude(reply), Err(ExchangeError::Parse("missing field".to_string())));
    assert!(matches!(conclude(reply_from_json("[")), Err(ExchangeError::Parse(_))));
}

#[test]
fn transport_failure_is_its_own_error() {
    let reply = ExchangeReply::TransportFailed("connection refused".to_string());
    assert_eq!(
        conclude(reply),
        Err(ExchangeError::Transport("connection refused".to_string()))
    );
}
