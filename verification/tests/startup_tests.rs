use noirtty::startup::{
    detect_hostname, insert_host, normalize_hostname, parse_tls_args, usable_hostname, TlsEnv,
    TlsOptions,
};

fn s(text: &str) -> String {
    text.to_string()
}

fn strings(items: &[&str]) -> Vec<String> {
    items.iter().map(|s| s.to_string()).collect()
}

fn no_env() -> TlsEnv {
    TlsEnv { insecure: None, https: None, reset_auth: None, host: None, cert_hosts: None }
}

#[test]
fn host_names_get_a_domain() {
    assert_eq!(normalize_hostname(s("laptop")), "laptop.local");
    assert_eq!(normalize_hostname(s("laptop.lan")), "laptop.lan");
    assert_eq!(normalize_hostname(s("a.b.c")), "a.b.c");
    assert_eq!(normalize_hostname(s(".")), ".");
    assert_eq!(normalize_hostname(s("")), ".local");
}

#[test]
fn unusable_host_names() {
    assert_eq!(usable_hostname("  laptop \n"), Some(s("laptop.local")));
    assert_eq!(usable_hostname("box.example.org"), Some(s("box.example.org")));
    assert_eq!(usable_hostname(""), None);
    assert_eq!(usable_hostname(" \t"), None);
    assert_eq!(usable_hostname("localhost"), None);
    assert_eq!(usable_hostname(" LocalHost "), None);
    assert_eq!(usable_hostname("localhost.localdomain"), Some(s("localhost.localdomain")));
}

#[test]
fn first_set_variable_decides_alone() {
    assert_eq!(detect_hostname(Some(s("a")), Some(s("b")), Some(s("c")), "d"), Some(s("a.local")));
    assert_eq!(detect_hostname(None, Some(s("b")), Some(s("c")), "d"), Some(s("b.local")));
    assert_eq!(detect_hostname(None, None, Some(s("c")), "d"), Some(s("c.local")));
    assert_eq!(detect_hostname(None, None, None, "d"), Some(s("d.local")));
    // A variable that is set but names nothing usable is not passed over.
    assert_eq!(detect_hostname(Some(s("localhost")), Some(s("b")), None, "d"), None);
    assert_eq!(detect_hostname(Some(s("")), None, None, "d"), None);
    assert_eq!(detect_hostname(None, None, None, " localhost"), None);
}

#[test]
fn hosts_are_kept_in_order_without_repeats() {
    let mut hosts = Vec::new();
    for name in ["m", "b", "z", "b", "a", "m", "ab", "", "B"] {
        insert_host(&mut hosts, s(name));
    }
    assert_eq!(hosts, strings(&["", "B", "a", "ab", "b", "m", "z"]));
    let mut expected = hosts.clone();
    expected.sort();
    expected.dedup();
    assert_eq!(hosts, expected);
    // The order is that of the standard library's strings.
    let mut mixed = Vec::new();
    for name in ["é", "z", "e", "\u{10000}", "\u{ffff}", "Z", "~", "e\u{301}"] {
        insert_host(&mut mixed, s(name));
    }
    let mut sorted = mixed.clone();
    sorted.sort();
    assert_eq!(mixed, sorted);
    assert_eq!(mixed.len(), 8);
}

#[test]
fn defaults() {
    let options = parse_tls_args(no_env(), &Vec::new(), None);
    assert_eq!(
        options,
        TlsOptions {
            use_https: true,
            cert_hosts: strings(&["127.0.0.1", "::1", "localhost"]),
            reset_auth: false,
            rp_host: None,
        }
    );
}

#[test]
fn environment_is_read() {
    let env = TlsEnv {
        insecure: Some(s("TRUE")),
        https: None,
        reset_auth: Some(s("1")),
        host: Some(s("term.example.org")),
        cert_hosts: Some(s(" a.example.org , ,b.example.org,localhost")),
    };
    let options = parse_tls_args(env, &Vec::new(), Some(s("box.local")));
    assert_eq!(
        options,
        TlsOptions {
            use_https: false,
            cert_hosts: strings(&[
                "127.0.0.1",
                "::1",
                "a.example.org",
                "b.example.org",
                "localhost",
                "term.example.org"
            ]),
            reset_auth: true,
            rp_host: Some(s("term.example.org")),
        }
    );
    for (insecure, https, expected) in [
        (Some("1"), None, false),
        (Some("true"), None, false),
        (Some("yes"), None, true),
        (Some("0"), None, true),
        (Some(""), None, true),
        (None, Some("0"), false),
        (None, Some("False"), false),
        (None, Some("1"), true),
        (None, Some("off"), true),
        (Some("0"), Some("0"), false),
    ] {
        let env = TlsEnv { insecure: insecure.map(s), https: https.map(s), ..no_env() };
        assert_eq!(parse_tls_args(env, &Vec::new(), None).use_https, expected, "{:?} {:?}", insecure, https);
    }
    for (value, expected) in [("1", true), ("tRuE", true), ("0", false), ("yes", false), ("", false)] {
        let env = TlsEnv { reset_auth: Some(s(value)), ..no_env() };
        assert_eq!(parse_tls_args(env, &Vec::new(), None).reset_auth, expected);
    }
}

#[test]
fn arguments_are_read_in_order() {
    let args = strings(&[
        "--verbose",
        "--host=first.example.org",
        "--cert-hosts=x.example.org, y.example.org ,,",
        "--http",
        "--host=second.example.org",
        "--reset-auth",
        "--host",
        "-v",
    ]);
    let options = parse_tls_args(no_env(), &args, Some(s("box.local")));
    assert_eq!(
        options,
        TlsOptions {
            use_https: false,
            cert_hosts: strings(&[
                "127.0.0.1",
                "::1",
                "first.example.org",
                "localhost",
                "second.example.org",
                "x.example.org",
                "y.example.org"
            ]),
            reset_auth: true,
            rp_host: Some(s("second.example.org")),
        }
    );
    let options = parse_tls_args(no_env(), &strings(&["--insecure"]), None);
    assert!(!options.use_https);
    // An argument wins over the environment, whatever the argument's value.
    let env = TlsEnv { host: Some(s("env.example.org")), ..no_env() };
    let options = parse_tls_args(env, &strings(&["--host="]), None);
    assert_eq!(options.rp_host, Some(String::new()));
    assert_eq!(options.cert_hosts, strings(&["", "127.0.0.1", "::1", "env.example.org", "localhost"]));
}

#[test]
fn host_falls_back_to_the_machine_then_to_the_list() {
    let options = parse_tls_args(no_env(), &Vec::new(), Some(s("box.local")));
    assert_eq!(options.rp_host, Some(s("box.local")));
    assert_eq!(options.cert_hosts, strings(&["127.0.0.1", "::1", "box.local", "localhost"]));
    // No host name: the first listed name that is not local.
    let options = parse_tls_args(no_env(), &strings(&["--cert-hosts=zeta.example.org,10.0.0.5"]), None);
    assert_eq!(options.rp_host, Some(s("10.0.0.5")));
    let options = parse_tls_args(no_env(), &strings(&["--cert-hosts=localhost, ::1"]), None);
    assert_eq!(options.rp_host, None);
    // A named host keeps the machine's name out of the list.
    let options = parse_tls_args(no_env(), &strings(&["--host=named.example.org"]), Some(s("box.local")));
    assert_eq!(options.cert_hosts, strings(&["127.0.0.1", "::1", "localhost", "named.example.org"]));
}
