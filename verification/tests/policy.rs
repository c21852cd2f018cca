use termcolor::{Buffer, ColorChoice, Environment, Platform, TermValue, WriteColor};

fn env(platform: Platform, term: Option<&str>, no_color: bool) -> Environment {
    Environment {
        platform,
        term: match term {
            Some(t) => TermValue::Text(t.to_string()),
            None => TermValue::Unset,
        },
        no_color,
    }
}

const CHOICES: [ColorChoice; 4] =
    [ColorChoice::Always, ColorChoice::AlwaysAnsi, ColorChoice::Auto, ColorChoice::Never];

#[test]
fn always_and_never_ignore_the_environment() {
    for platform in [Platform::Unix, Platform::Windows] {
        for term in [None, Some("dumb"), Some("xterm"), Some("cygwin")] {
            for no_color in [false, true] {
                let e = env(platform, term, no_color);
                assert!(ColorChoice::Always.should_attempt_color(&e));
                assert!(ColorChoice::AlwaysAnsi.should_attempt_color(&e));
                assert!(!ColorChoice::Never.should_attempt_color(&e));
            }
        }
    }
}

#[test]
fn no_color_wins_over_auto() {
    for platform in [Platform::Unix, Platform::Windows] {
        for term in [None, Some("dumb"), Some("xterm"), Some("xterm-256color"), Some("cygwin")] {
            let e = env(platform, term, true);
            assert!(!ColorChoice::Auto.should_attempt_color(&e));
            assert!(ColorChoice::Always.should_attempt_color(&e));
        }
        let e = Environment { platform, term: TermValue::NotUnicode, no_color: true };
        assert!(!ColorChoice::Auto.should_attempt_color(&e));
    }
}

#[test]
fn auto_on_unix() {
    assert!(ColorChoice::Auto.should_attempt_color(&env(Platform::Unix, Some("xterm"), false)));
    assert!(ColorChoice::Auto.should_attempt_color(&env(Platform::Unix, Some(""), false)));
    assert!(ColorChoice::Auto.should_attempt_color(&env(Platform::Unix, Some("DUMB"), false)));
    assert!(!ColorChoice::Auto.should_attempt_color(&env(Platform::Unix, Some("dumb"), false)));
    assert!(!ColorChoice::Auto.should_attempt_color(&env(Platform::Unix, None, false)));
    let odd = Environment { platform: Platform::Unix, term: TermValue::NotUnicode, no_color: false };
    assert!(ColorChoice::Auto.should_attempt_color(&odd));
}

#[test]
fn auto_on_windows() {
    assert!(ColorChoice::Auto.should_attempt_color(&env(Platform::Windows, Some("xterm"), false)));
    assert!(ColorChoice::Auto.should_attempt_color(&env(Platform::Windows, None, false)));
    assert!(!ColorChoice::Auto.should_attempt_color(&env(Platform::Windows, Some("dumb"), false)));
}

#[test]
fn forcing_ansi() {
    let xterm = env(Platform::Windows, Some("xterm"), false);
    let dumb = env(Platform::Windows, Some("dumb"), false);
    let cygwin = env(Platform::Windows, Some("cygwin"), false);
    let unset = env(Platform::Windows, None, false);
    let odd =
        Environment { platform: Platform::Windows, term: TermValue::NotUnicode, no_color: false };
    assert!(ColorChoice::AlwaysAnsi.should_force_ansi(&unset));
    assert!(!ColorChoice::Always.should_force_ansi(&xterm));
    assert!(!ColorChoice::Never.should_force_ansi(&xterm));
    assert!(ColorChoice::Auto.should_force_ansi(&xterm));
    assert!(!ColorChoice::Auto.should_force_ansi(&dumb));
    assert!(!ColorChoice::Auto.should_force_ansi(&cygwin));
    assert!(!ColorChoice::Auto.should_force_ansi(&unset));
    assert!(!ColorChoice::Auto.should_force_ansi(&odd));
    for choice in CHOICES {
        assert!(!choice.should_force_ansi(&env(Platform::Unix, Some("xterm"), false)));
    }
}

#[test]
fn negotiation_only_on_windows_and_only_for_colors() {
    for choice in CHOICES {
        assert!(!choice.should_negotiate(&env(Platform::Unix, Some("xterm"), false)));
    }
    let e = env(Platform::Windows, None, false);
    assert!(ColorChoice::Always.should_negotiate(&e));
    assert!(ColorChoice::AlwaysAnsi.should_negotiate(&e));
    assert!(ColorChoice::Auto.should_negotiate(&e));
    assert!(!ColorChoice::Never.should_negotiate(&e));
    assert!(!ColorChoice::Auto.should_negotiate(&env(Platform::Windows, None, true)));
}

#[test]
fn device_strategy() {
    let unix = env(Platform::Unix, Some("xterm"), false);
    assert!(ColorChoice::Auto.use_ansi_on_device(&unix, false));
    assert!(ColorChoice::Always.use_ansi_on_device(&unix, false));
    assert!(!ColorChoice::Never.use_ansi_on_device(&unix, true));
    let win = env(Platform::Windows, None, false);
    assert!(ColorChoice::Always.use_ansi_on_device(&win, true));
    assert!(!ColorChoice::Always.use_ansi_on_device(&win, false));
    assert!(ColorChoice::AlwaysAnsi.use_ansi_on_device(&win, false));
    assert!(!ColorChoice::Auto.use_ansi_on_device(&win, false));
    assert!(ColorChoice::Auto.use_ansi_on_device(&win, true));
    let win_xterm = env(Platform::Windows, Some("xterm"), false);
    assert!(ColorChoice::Auto.use_ansi_on_device(&win_xterm, false));
    let win_cygwin = env(Platform::Windows, Some("cygwin"), false);
    assert!(!ColorChoice::Auto.use_ansi_on_device(&win_cygwin, false));
    assert!(!ColorChoice::Never.use_ansi_on_device(&win_xterm, true));
}

#[test]
fn buffer_strategy() {
    let unix = env(Platform::Unix, Some("xterm"), false);
    assert!(Buffer::new(ColorChoice::Auto, &unix).supports_color());
    assert!(Buffer::new(ColorChoice::Always, &unix).supports_color());
    assert!(!Buffer::new(ColorChoice::Never, &unix).supports_color());
    assert!(!Buffer::new(ColorChoice::Auto, &env(Platform::Unix, None, false)).supports_color());
    let win = env(Platform::Windows, None, false);
    assert!(!Buffer::new(ColorChoice::Always, &win).supports_color());
    assert!(Buffer::new(ColorChoice::AlwaysAnsi, &win).supports_color());
    assert!(!Buffer::new(ColorChoice::Auto, &win).supports_color());
    let win_xterm = env(Platform::Windows, Some("xterm"), false);
    assert!(Buffer::new(ColorChoice::Auto, &win_xterm).supports_color());
    assert!(Buffer::new(ColorChoice::Auto, &win_xterm).is_empty());
}

#[test]
fn term_values() {
    assert!(TermValue::Text("dumb".to_string()).is_dumb());
    assert!(!TermValue::Text("dumber".to_string()).is_dumb());
    assert!(!TermValue::Text("dum".to_string()).is_dumb());
    assert!(!TermValue::Unset.is_dumb());
    assert!(!TermValue::NotUnicode.is_dumb());
    assert!(TermValue::Text("cygwin".to_string()).is_cygwin());
    assert!(!TermValue::Text("Cygwin".to_string()).is_cygwin());
    assert!(TermValue::Text("vt100".to_string()).is(&['v', 't', '1', '0', '0']));
}

#[test]
fn resolved_once() {
    let win = env(Platform::Windows, Some("xterm"), false);
    assert_eq!(ColorChoice::Auto.resolve(&win), (true, true));
    assert_eq!(ColorChoice::Always.resolve(&win), (true, false));
    assert_eq!(ColorChoice::AlwaysAnsi.resolve(&win), (true, true));
    assert_eq!(ColorChoice::Never.resolve(&win), (false, false));
    let unix = env(Platform::Unix, Some("xterm"), true);
    assert_eq!(ColorChoice::Auto.resolve(&unix), (false, false));
    assert_eq!(ColorChoice::AlwaysAnsi.resolve(&unix), (true, false));
    assert!(ColorChoice::Auto.env_allows_color(&env(Platform::Unix, Some("xterm"), false)));
    assert!(!ColorChoice::Never.env_allows_color(&env(Platform::Unix, None, false)));
}
