use openvpn3_gui_rs::auth::{classify_auth_uri, AuthUriVerdict};

/// The scheme of an address: a letter, then letters, digits and `+-.`, up to a
/// colon.
fn scheme_of(uri: &str) -> Option<String> {
    let (scheme, _) = uri.trim().split_once(':')?;
    let well_formed = scheme.starts_with(|c: char| c.is_ascii_alphabetic())
        && scheme.chars().all(|c| c.is_ascii_alphanumeric() || "+-.".contains(c));
    well_formed.then_some(scheme.to_string())
}

fn verdict(message: &str) -> AuthUriVerdict {
    classify_auth_uri(message, &scheme_of(message))
}

#[test]
fn auth_uri_allows_http_and_https() {
    assert_eq!(
        verdict("https://vpn.example.com/auth?token=abc"),
        AuthUriVerdict::Launchable
    );
    assert_eq!(
        verdict("http://vpn.example.com/auth"),
        AuthUriVerdict::Launchable
    );
    assert_eq!(
        verdict("HTTPS://vpn.example.com/auth"),
        AuthUriVerdict::Launchable
    );
    assert_eq!(
        verdict("  https://vpn.example.com/auth\n"),
        AuthUriVerdict::Launchable
    );
}

#[test]
fn auth_uri_blocks_dangerous_schemes() {
    for hostile in [
        "file:///etc/passwd",
        "file://~/.ssh/id_rsa",
        "javascript:alert(1)",
        "JavaScript:alert(1)",
        "data:text/html,<script>alert(1)</script>",
        "smb://attacker/share",
        "ms-msdt:/id",
        "vnc://attacker:5900",
        "ssh://attacker",
        "vpn.example.com/auth",
        "/etc/passwd",
    ] {
        assert_eq!(
            verdict(hostile),
            AuthUriVerdict::Blocked,
            "{hostile} must not be launched"
        );
    }
}

#[test]
fn auth_uri_empty_message_is_generic_prompt() {
    assert_eq!(verdict(""), AuthUriVerdict::Empty);
    assert_eq!(verdict("   \n"), AuthUriVerdict::Empty);
}
