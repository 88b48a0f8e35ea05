use kiosk_browser::cli::Cli;
use kiosk_browser::download::download_file_name;
use kiosk_browser::keys::resolve_blocked_keys;
use kiosk_browser::keys::blocked_key_warnings;
use kiosk_browser::launch::{target_url, LaunchError};
use kiosk_browser::key_set::KeySet;
use kiosk_browser::keys::BlockableKey;
use kiosk_browser::window::{close_url, is_close_request, refuses_close};

#[test]
fn download_names() {
    assert_eq!(download_file_name("https://host/files/report.pdf"), Some("report.pdf".to_string()));
    assert_eq!(download_file_name("https://host/files/"), None);
    assert_eq!(download_file_name("plain"), Some("plain".to_string()));
    assert_eq!(download_file_name(""), None);
    assert_eq!(download_file_name("/"), None);
    assert_eq!(download_file_name("a/b/c?x=1"), Some("c?x=1".to_string()));
}

#[test]
fn valid_target_url() {
    let url = target_url("https://dashboard.local/").ok().unwrap();
    assert_eq!(url.as_str(), "https://dashboard.local/");
    let other = target_url("HTTPS://Example.COM/a/../b").ok().unwrap();
    assert_eq!(other, url::Url::parse("HTTPS://Example.COM/a/../b").unwrap());
    assert_eq!(other.as_str(), "https://example.com/b");
}

#[test]
fn invalid_target_url() {
    match target_url("not a url") {
        Err(LaunchError::InvalidUrl { input, reason }) => {
            assert_eq!(input, "not a url");
            assert_eq!(reason, url::ParseError::RelativeUrlWithoutBase);
        }
        Ok(_) => panic!("accepted an invalid URL"),
    }
}

#[test]
fn cli_fields_drive_resolution() {
    let cli = Cli {
        url: "https://my-app.local/".to_string(),
        fullscreen: false,
        block_keys: Some(vec!["win".to_string(), "alt+tab".to_string(), "alt+f4".to_string()]),
        block_keys_preset: None,
    };
    let keys = resolve_blocked_keys(&cli.block_keys, &cli.block_keys_preset);
    assert_eq!(keys.to_vec().len(), 3);
    assert!(!cli.fullscreen);
    assert_eq!(cli.url, "https://my-app.local/");
}

#[test]
fn warnings_for_unknown_names() {
    let names = Some(vec!["win".to_string(), " Bogus ".to_string(), "alt+tab".to_string(), "x".to_string()]);
    assert_eq!(
        blocked_key_warnings(&names, &None),
        vec!["Unknown key: 'bogus'".to_string(), "Unknown key: 'x'".to_string()]
    );
    assert!(blocked_key_warnings(&names, &Some("kiosk".to_string())).is_empty());
    assert!(blocked_key_warnings(&None, &None).is_empty());
}

#[test]
fn close_request_address() {
    assert_eq!(close_url(), "kiosk://close");
    assert!(is_close_request("kiosk://close"));
    assert!(!is_close_request("kiosk://close/"));
    assert!(!is_close_request("https://kiosk/close"));
    let parsed = url::Url::parse("kiosk://close").unwrap();
    assert!(is_close_request(parsed.as_str()));
}

#[test]
fn close_refused_only_with_alt_f4() {
    let mut keys = KeySet::new();
    assert!(!refuses_close(&keys));
    keys.insert(BlockableKey::AltTab);
    assert!(!refuses_close(&keys));
    keys.insert(BlockableKey::AltF4);
    assert!(refuses_close(&keys));
}
