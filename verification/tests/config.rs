use imap_notify::config::{
    CommandLine, Config, ConfigData, ConfigError, Persistence, CONFIG_FILE, DEFAULT_MAILBOX,
};

fn text(s: &str) -> Option<String> {
    Some(s.to_string())
}

fn no_args() -> CommandLine {
    CommandLine { config: None, domain: None, user: None, password: None, monitor: false, mailboxes: None }
}

fn full_args() -> CommandLine {
    CommandLine {
        config: None,
        domain: text("imap.example.org"),
        user: text("alice"),
        password: text("secret"),
        monitor: false,
        mailboxes: None,
    }
}

fn stored() -> ConfigData {
    ConfigData {
        domain: "mail.example.com".to_string(),
        user: "bob".to_string(),
        password: "hunter2".to_string(),
        wait_idle: None,
        mbox: vec!["INBOX".to_string(), "Work".to_string()],
    }
}

#[test]
fn file_alone_is_taken_as_it_is() {
    let config = Config::new(no_args(), Some(stored()), false).unwrap();
    assert_eq!(*config, stored());
}

#[test]
fn command_line_overrides_each_field_of_the_file() {
    let mut args = no_args();
    args.domain = text("imap.example.org");
    let config = Config::new(args, Some(stored()), false).unwrap();
    assert_eq!(config.domain, "imap.example.org");
    assert_eq!(config.user, "bob");
    assert_eq!(config.password, "hunter2");

    let mut args = no_args();
    args.user = text("alice");
    let config = Config::new(args, Some(stored()), false).unwrap();
    assert_eq!(config.domain, "mail.example.com");
    assert_eq!(config.user, "alice");
    assert_eq!(config.password, "hunter2");

    let mut args = no_args();
    args.password = text("secret");
    let config = Config::new(args, Some(stored()), false).unwrap();
    assert_eq!(config.domain, "mail.example.com");
    assert_eq!(config.user, "bob");
    assert_eq!(config.password, "secret");
}

#[test]
fn command_line_alone_is_enough() {
    let config = Config::new(full_args(), None, false).unwrap();
    assert_eq!(config.domain, "imap.example.org");
    assert_eq!(config.user, "alice");
    assert_eq!(config.password, "secret");
    assert_eq!(config.wait_idle, None);
    assert_eq!(config.mbox, vec!["INBOX".to_string()]);
}

#[test]
fn mailbox_defaults_to_inbox() {
    let config = Config::new(full_args(), None, true).unwrap();
    assert_eq!(config.mbox, vec!["INBOX".to_string()]);
    assert_eq!(config.mbox.len(), 1);
    assert_eq!(DEFAULT_MAILBOX, "INBOX");
}

#[test]
fn mailbox_defaults_to_inbox_when_the_file_lists_none() {
    let mut file = stored();
    file.mbox = Vec::new();
    let config = Config::new(no_args(), Some(file), false).unwrap();
    assert_eq!(config.mbox, vec!["INBOX".to_string()]);
}

#[test]
fn mailboxes_of_the_file_are_kept_in_order() {
    let mut file = stored();
    file.mbox = vec!["Lists".to_string(), "INBOX".to_string(), "Work".to_string()];
    let config = Config::new(no_args(), Some(file), false).unwrap();
    assert_eq!(
        config.mbox,
        vec!["Lists".to_string(), "INBOX".to_string(), "Work".to_string()]
    );
}

#[test]
fn mailboxes_on_the_command_line_replace_those_of_the_file() {
    let mut args = no_args();
    args.mailboxes = text("Lists Drafts");
    let config = Config::new(args, Some(stored()), false).unwrap();
    assert_eq!(config.mbox, vec!["Lists".to_string(), "Drafts".to_string()]);
}

#[test]
fn mailboxes_beside_a_file_are_separated_by_spaces() {
    let mut args = no_args();
    args.mailboxes = text("a,b c");
    let config = Config::new(args, Some(stored()), false).unwrap();
    assert_eq!(config.mbox, vec!["a,b".to_string(), "c".to_string()]);
}

#[test]
fn mailboxes_without_a_file_are_separated_by_commas() {
    let mut args = full_args();
    args.mailboxes = text("a,b c");
    let config = Config::new(args, None, false).unwrap();
    assert_eq!(config.mbox, vec!["a".to_string(), "b c".to_string()]);
}

#[test]
fn missing_domain_is_reported() {
    let mut args = full_args();
    args.domain = None;
    assert_eq!(Config::new(args, None, false).unwrap_err(), ConfigError::MissingDomain);
}

#[test]
fn missing_user_is_reported() {
    let mut args = full_args();
    args.user = None;
    assert_eq!(Config::new(args, None, false).unwrap_err(), ConfigError::MissingUser);
}

#[test]
fn missing_password_is_reported() {
    let mut args = full_args();
    args.password = None;
    assert_eq!(Config::new(args, None, true).unwrap_err(), ConfigError::MissingPassword);
}

#[test]
fn the_first_missing_field_is_reported() {
    assert_eq!(Config::new(no_args(), None, false).unwrap_err(), ConfigError::MissingDomain);
    let mut args = no_args();
    args.domain = text("imap.example.org");
    assert_eq!(Config::new(args, None, false).unwrap_err(), ConfigError::MissingUser);
}

#[test]
fn nothing_is_missing_beside_a_file() {
    assert!(Config::new(no_args(), Some(stored()), true).is_ok());
}

#[test]
fn errors_have_messages() {
    assert_eq!(ConfigError::MissingDomain.message(), "no IMAP domain given");
    assert_eq!(ConfigError::MissingUser.message(), "no IMAP user given");
    assert_eq!(ConfigError::MissingPassword.message(), "no IMAP password given");
}

#[test]
fn monitor_resolves_to_forced() {
    for interactive in [false, true] {
        for raw in [None, Some(false), Some(true)] {
            let mut args = no_args();
            args.monitor = true;
            let mut file = stored();
            file.wait_idle = raw;
            let config = Config::new(args, Some(file), interactive).unwrap();
            assert_eq!(config.wait_idle, Some(true));
            assert_eq!(config.persistence(), Persistence::Forced);
        }
        let mut args = full_args();
        args.monitor = true;
        let config = Config::new(args, None, interactive).unwrap();
        assert_eq!(config.persistence(), Persistence::Forced);
    }
}

#[test]
fn interactive_terminal_resolves_to_one_shot() {
    for raw in [None, Some(false), Some(true)] {
        let mut file = stored();
        file.wait_idle = raw;
        let config = Config::new(no_args(), Some(file), true).unwrap();
        assert_eq!(config.wait_idle, Some(false));
        assert_eq!(config.persistence(), Persistence::OneShot);
    }
    let config = Config::new(full_args(), None, true).unwrap();
    assert_eq!(config.persistence(), Persistence::OneShot);
}

#[test]
fn batch_run_resolves_to_auto() {
    let config = Config::new(full_args(), None, false).unwrap();
    assert_eq!(config.wait_idle, None);
    assert_eq!(config.persistence(), Persistence::Auto);
    let config = Config::new(no_args(), Some(stored()), false).unwrap();
    assert_eq!(config.persistence(), Persistence::Auto);
}

#[test]
fn batch_run_keeps_the_setting_of_the_file() {
    let mut file = stored();
    file.wait_idle = Some(false);
    let config = Config::new(no_args(), Some(file), false).unwrap();
    assert_eq!(config.persistence(), Persistence::OneShot);
    let mut file = stored();
    file.wait_idle = Some(true);
    let config = Config::new(no_args(), Some(file), false).unwrap();
    assert_eq!(config.persistence(), Persistence::Forced);
}

#[test]
fn chosen_config_path_wins() {
    let mut args = no_args();
    args.config = text("/etc/imap-notify.yml");
    assert_eq!(args.config_path(Some("/home/alice")), text("/etc/imap-notify.yml"));
    assert_eq!(args.config_path(None), text("/etc/imap-notify.yml"));
}

#[test]
fn config_path_defaults_to_the_home_directory() {
    assert_eq!(no_args().config_path(Some("/home/alice")), text("/home/alice/.imap-notify.yml"));
    assert_eq!(CONFIG_FILE, ".imap-notify.yml");
}

#[test]
fn no_config_path_without_home() {
    assert_eq!(no_args().config_path(None), None);
}
