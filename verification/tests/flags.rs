use std::path::PathBuf;
use tart_oauth::address::{IpAddress, SocketAddress};
use tart_oauth::flags::{Args, ArgsCmd, Draft, Error};
use tart_oauth::{SpecKind, TokenSpec};

fn args() -> Args {
    Args {
        login_name: "streamer".to_string(),
        token: None,
        app_id: Some("id".to_string()),
        app_secret: Some("secret".to_string()),
        address: Some("http://localhost:8080".to_string()),
        subcommand: ArgsCmd::GetRewards,
    }
}

#[test]
fn token_settles_everything() {
    let draft = Args {
        token: Some("tok".to_string()),
        app_id: None,
        app_secret: None,
        address: None,
        subcommand: ArgsCmd::ModifyRewards { lua: PathBuf::from("mods.lua") },
        ..args()
    }
    .to_spec();
    match draft {
        Ok(Draft::Ready(spec)) => {
            assert_eq!(spec.login_name, "streamer");
            assert!(matches!(spec.token_spec, TokenSpec::Token(ref t) if t == "tok"));
            match spec.kind {
                SpecKind::ModifyRewards(path) => assert_eq!(path, PathBuf::from("mods.lua")),
                SpecKind::GetRewards => panic!("expected ModifyRewards"),
            }
        }
        _ => panic!("expected a finished job"),
    }
}

#[test]
fn missing_flags_are_reported_in_order() {
    let none = Args { app_id: None, app_secret: None, address: None, ..args() };
    assert!(matches!(none.to_spec(), Err(Error::AppIdMissing)));
    let no_secret = Args { app_secret: None, address: None, ..args() };
    assert!(matches!(no_secret.to_spec(), Err(Error::AppSecretMissing)));
    let no_address = Args { address: None, ..args() };
    assert!(matches!(no_address.to_spec(), Err(Error::AddressMissing)));
}

#[test]
fn complete_flags_wait_for_the_address() {
    let pending = match args().to_spec() {
        Ok(Draft::NeedsAddress(pending)) => pending,
        _ => panic!("expected a pending job"),
    };
    assert_eq!(pending.address, "http://localhost:8080");
    assert_eq!(pending.app_id, "id");
    assert_eq!(pending.app_secret, "secret");
    assert_eq!(pending.login_name, "streamer");
    assert!(matches!(pending.kind, SpecKind::GetRewards));
    let addr = SocketAddress { ip: IpAddress::V6([0, 0, 0, 0, 0, 0, 0, 0, 0, 0, 0, 0, 0, 0, 0, 1]), port: 8080 };
    let spec = pending.resolved(addr);
    assert_eq!(spec.login_name, "streamer");
    assert!(matches!(spec.kind, SpecKind::GetRewards));
    match spec.token_spec {
        TokenSpec::Auth(auth) => {
            assert_eq!(auth.addr, addr);
            assert_eq!(auth.addr_string, "http://localhost:8080");
            assert_eq!(auth.app_id, "id");
            assert_eq!(auth.app_secret, "secret");
        }
        TokenSpec::Token(_) => panic!("expected a flow"),
    }
}

#[test]
fn error_messages() {
    assert_eq!(Error::AppIdMissing.message(), "--app_id flag missing");
    assert_eq!(Error::AppSecretMissing.message(), "--app_secret flag missing");
    assert_eq!(Error::AddressMissing.message(), "--address flag missing");
    assert_eq!(
        Error::InvalidAddress("nope".to_string()).message(),
        "\"nope\" is not a valid address."
    );
    assert_eq!(Error::UrlParse(url::ParseError::EmptyHost).message(), "Url parse error");
    let io = std::io::Error::new(std::io::ErrorKind::Other, "x");
    assert_eq!(Error::Io(io).message(), "I/O error");
}

#[test]
fn errors_that_wrap_a_cause() {
    assert!(!Error::AppIdMissing.has_source());
    assert!(!Error::AppSecretMissing.has_source());
    assert!(!Error::AddressMissing.has_source());
    assert!(!Error::InvalidAddress("nope".to_string()).has_source());
    assert!(Error::UrlParse(url::ParseError::EmptyHost).has_source());
    let io = std::io::Error::new(std::io::ErrorKind::Other, "x");
    assert!(Error::Io(io).has_source());
}
