//! The watcher's configuration and how it is put together from a
//! configuration file and the command line.

use vstd::prelude::*;
use vstd::string::*;
use crate::text::{split, split_on, texts, lemma_split_nonempty};

verus! {

/// Name of the configuration file looked up in the home directory.
pub const CONFIG_FILE: &'static str = ".imap-notify.yml";

/// The mailbox watched when none is configured.
pub const DEFAULT_MAILBOX: &'static str = "INBOX";

/// How long a watcher goes on after its first look at a mailbox.
#[derive(Clone, Copy, Debug, PartialEq, Eq, Structural)]
pub enum Persistence {
    /// Monitoring was asked for: wait for news after every look.
    Forced,
    /// Look once, report, and stop.
    OneShot,
    /// Nothing was decided: wait for news, as `Forced` does.
    Auto,
}

/// Why no configuration could be put together.
#[derive(Clone, Copy, Debug, PartialEq, Eq, Structural)]
pub enum ConfigError {
    /// Neither the file nor the command line names the server.
    MissingDomain,
    /// Neither the file nor the command line names the user.
    MissingUser,
    /// Neither the file nor the command line gives the password.
    MissingPassword,
}

/// The settings as a configuration file holds them.
#[derive(Debug, PartialEq, Eq)]
pub struct ConfigData {
    pub domain: String,
    pub user: String,
    pub password: String,
    pub wait_idle: Option<bool>,
    pub mbox: Vec<String>,
}

/// What was given on the command line.
#[derive(Debug, PartialEq, Eq)]
pub struct CommandLine {
    /// Path of the configuration file to read.
    pub config: Option<String>,
    pub domain: Option<String>,
    pub user: Option<String>,
    pub password: Option<String>,
    /// Whether monitoring was asked for.
    pub monitor: bool,
    /// The mailboxes to watch, in one string.
    pub mailboxes: Option<String>,
}

/// The resolved configuration. It always names at least one mailbox.
#[derive(Debug)]
pub struct Config(Box<ConfigData>);

/// Mathematical content of a [`ConfigData`].
pub struct ConfigModel {
    pub domain: Seq<char>,
    pub user: Seq<char>,
    pub password: Seq<char>,
    pub wait_idle: Option<bool>,
    pub mbox: Seq<Seq<char>>,
}

/// Mathematical content of a [`CommandLine`].
pub struct CommandLineModel {
    pub config: Option<Seq<char>>,
    pub domain: Option<Seq<char>>,
    pub user: Option<Seq<char>>,
    pub password: Option<Seq<char>>,
    pub monitor: bool,
    pub mailboxes: Option<Seq<char>>,
}

impl View for ConfigData {
    type V = ConfigModel;

    open spec fn view(&self) -> ConfigModel {
        ConfigModel {
            domain: self.domain@,
            user: self.user@,
            password: self.password@,
            wait_idle: self.wait_idle,
            mbox: texts(self.mbox@),
        }
    }
}

impl View for CommandLine {
    type V = CommandLineModel;

    open spec fn view(&self) -> CommandLineModel {
        CommandLineModel {
            config: self.config.deep_view(),
            domain: self.domain.deep_view(),
            user: self.user.deep_view(),
            password: self.password.deep_view(),
            monitor: self.monitor,
            mailboxes: self.mailboxes.deep_view(),
        }
    }
}

impl View for Config {
    type V = ConfigModel;

    closed spec fn view(&self) -> ConfigModel {
        self.0@
    }
}

/// What was read from the configuration file, if anything was.
pub open spec fn file_model(file: Option<ConfigData>) -> Option<ConfigModel> {
    match file {
        Some(stored) => Some(stored@),
        None => None,
    }
}

/// The persistence that a raw `wait_idle` setting stands for.
pub open spec fn persistence_of(wait_idle: Option<bool>) -> Persistence {
    match wait_idle {
        Some(true) => Persistence::Forced,
        Some(false) => Persistence::OneShot,
        None => Persistence::Auto,
    }
}

/// The `wait_idle` setting after the command line and the terminal had
/// their say: a request to monitor wins, then an interactive terminal
/// asks for a single look, and otherwise the setting stays as it was.
pub open spec fn resolved_wait_idle(raw: Option<bool>, monitor: bool, interactive: bool) -> Option<
    bool,
> {
    if monitor {
        Some(true)
    } else if interactive {
        Some(false)
    } else {
        raw
    }
}

/// A value from the command line, or else the one from the file.
pub open spec fn overridden(given: Option<Seq<char>>, stored: Seq<char>) -> Seq<char> {
    match given {
        Some(value) => value,
        None => stored,
    }
}

/// The list of mailboxes, or the default mailbox where the list is empty.
pub open spec fn or_default_mailbox(mbox: Seq<Seq<char>>) -> Seq<Seq<char>> {
    if mbox.len() == 0 {
        seq![DEFAULT_MAILBOX@]
    } else {
        mbox
    }
}

/// The configuration that results from a configuration file, where one
/// was read.
///
/// Every field of the file gives way to its counterpart on the command
/// line. Mailboxes named on the command line are separated by spaces.
pub open spec fn configured_from_file(
    args: CommandLineModel,
    file: ConfigModel,
    interactive: bool,
) -> ConfigModel {
    ConfigModel {
        domain: overridden(args.domain, file.domain),
        user: overridden(args.user, file.user),
        password: overridden(args.password, file.password),
        wait_idle: resolved_wait_idle(file.wait_idle, args.monitor, interactive),
        mbox: or_default_mailbox(
            match args.mailboxes {
                Some(list) => split(list, ' '),
                None => file.mbox,
            },
        ),
    }
}

/// The configuration that results from the command line alone.
///
/// Server, user and password must all be given. Mailboxes are separated
/// by commas.
pub open spec fn configured_from_args(args: CommandLineModel, interactive: bool) -> Result<
    ConfigModel,
    ConfigError,
> {
    if args.domain is None {
        Err(ConfigError::MissingDomain)
    } else if args.user is None {
        Err(ConfigError::MissingUser)
    } else if args.password is None {
        Err(ConfigError::MissingPassword)
    } else {
        Ok(
            ConfigModel {
                domain: args.domain->0,
                user: args.user->0,
                password: args.password->0,
                wait_idle: resolved_wait_idle(None, args.monitor, interactive),
                mbox: or_default_mailbox(
                    match args.mailboxes {
                        Some(list) => split(list, ','),
                        None => Seq::empty(),
                    },
                ),
            },
        )
    }
}

/// The configuration that results from the command line, the content of
/// the configuration file if one could be read, and whether standard
/// input is a terminal.
pub open spec fn configured(
    args: CommandLineModel,
    file: Option<ConfigModel>,
    interactive: bool,
) -> Result<ConfigModel, ConfigError> {
    match file {
        Some(stored) => Ok(configured_from_file(args, stored, interactive)),
        None => configured_from_args(args, interactive),
    }
}

/// The path of the configuration file: the one chosen on the command
/// line, or else the default file in the home directory, if there is one.
pub open spec fn config_path_of(chosen: Option<Seq<char>>, home: Option<Seq<char>>) -> Option<
    Seq<char>,
> {
    match chosen {
        Some(path) => Some(path),
        None => match home {
            Some(dir) => Some(dir + seq!['/'] + CONFIG_FILE@),
            None => None,
        },
    }
}

impl ConfigError {
    /// A sentence for the user.
    pub fn message(&self) -> (text: String)
        ensures
            text@ == match *self {
                ConfigError::MissingDomain => "no IMAP domain given"@,
                ConfigError::MissingUser => "no IMAP user given"@,
                ConfigError::MissingPassword => "no IMAP password given"@,
            },
    {
        match self {
            ConfigError::MissingDomain => String::from_str("no IMAP domain given"),
            ConfigError::MissingUser => String::from_str("no IMAP user given"),
            ConfigError::MissingPassword => String::from_str("no IMAP password given"),
        }
    }
}

impl CommandLine {
    /// Where to look for the configuration file, given the home directory
    /// if there is one.
    pub fn config_path(&self, home: Option<&str>) -> (path: Option<String>)
        ensures
            path.deep_view() == config_path_of(self@.config, home.deep_view()),
    {
        match &self.config {
            Some(path) => Some(path.clone()),
            None => match home {
                Some(dir) => {
                    let mut path = String::from_str(dir);
                    proof {
                        reveal_strlit("/");
                        assert("/"@ == seq!['/']);
                    }
                    path.append("/");
                    path.append(CONFIG_FILE);
                    Some(path)
                },
                None => None,
            },
        }
    }
}

fn or_given(given: Option<String>, stored: String) -> (value: String)
    ensures
        value@ == overridden(given.deep_view(), stored@),
{
    match given {
        Some(value) => value,
        None => stored,
    }
}

fn mailboxes_or_default(mbox: Vec<String>) -> (list: Vec<String>)
    ensures
        texts(list@) == or_default_mailbox(texts(mbox@)),
        list@.len() > 0,
{
    if mbox.len() == 0 {
        let mut list: Vec<String> = Vec::new();
        list.push(String::from_str(DEFAULT_MAILBOX));
        assert(texts(list@) == seq![DEFAULT_MAILBOX@]);
        list
    } else {
        mbox
    }
}

fn resolve_wait_idle(raw: Option<bool>, monitor: bool, interactive: bool) -> (wait_idle: Option<
    bool,
>)
    ensures
        wait_idle == resolved_wait_idle(raw, monitor, interactive),
{
    if monitor {
        Some(true)
    } else if interactive {
        Some(false)
    } else {
        raw
    }
}

impl Config {
    /// Puts the configuration together.
    ///
    /// `file` is the content of the configuration file, if one was found and
    /// could be read; `interactive` says whether standard input is a
    /// terminal. With a file, each of its fields gives way to the command
    /// line. Without one, the command line has to name server, user and
    /// password. Either way at least one mailbox results: `INBOX` where
    /// none is named.
    pub fn new(args: CommandLine, file: Option<ConfigData>, interactive: bool) -> (result: Result<
        Config,
        ConfigError,
    >)
        ensures
            result matches Ok(config) ==> configured(args@, file_model(file), interactive) == Ok::<
                ConfigModel,
                ConfigError,
            >(config@),
            result matches Err(error) ==> configured(args@, file_model(file), interactive) == Err::<
                ConfigModel,
                ConfigError,
            >(error),
    {
        match file {
            Some(stored) => {
                let listed = match args.mailboxes {
                    Some(list) => split_on(list.as_str(), ' '),
                    None => stored.mbox,
                };
                let data = ConfigData {
                    domain: or_given(args.domain, stored.domain),
                    user: or_given(args.user, stored.user),
                    password: or_given(args.password, stored.password),
                    wait_idle: resolve_wait_idle(stored.wait_idle, args.monitor, interactive),
                    mbox: mailboxes_or_default(listed),
                };
                Ok(Config(Box::new(data)))
            },
            None => {
                let Some(domain) = args.domain else {
                    return Err(ConfigError::MissingDomain);
                };
                let Some(user) = args.user else {
                    return Err(ConfigError::MissingUser);
                };
                let Some(password) = args.password else {
                    return Err(ConfigError::MissingPassword);
                };
                let listed = match args.mailboxes {
                    Some(list) => split_on(list.as_str(), ','),
                    None => Vec::new(),
                };
                proof {
                    assert(texts(Seq::<String>::empty()) == Seq::<Seq<char>>::empty());
                }
                let data = ConfigData {
                    domain,
                    user,
                    password,
                    wait_idle: resolve_wait_idle(None, args.monitor, interactive),
                    mbox: mailboxes_or_default(listed),
                };
                Ok(Config(Box::new(data)))
            },
        }
    }

    #[verifier::type_invariant]
    spec fn names_a_mailbox(self) -> bool {
        self.0.mbox@.len() > 0
    }

    /// How long the watchers go on.
    pub fn persistence(&self) -> (persistence: Persistence)
        ensures
            persistence == persistence_of(self@.wait_idle),
    {
        match self.0.wait_idle {
            Some(true) => Persistence::Forced,
            Some(false) => Persistence::OneShot,
            None => Persistence::Auto,
        }
    }
}

impl std::ops::Deref for Config {
    type Target = ConfigData;

    /// The settings.
    fn deref(&self) -> (data: &ConfigData)
        ensures
            data@ == self@,
            data.mbox@.len() > 0,
    {
        proof {
            use_type_invariant(self);
        }
        &*self.0
    }
}

/// Where neither the command line nor the file names a mailbox, the
/// configuration names exactly one: `INBOX`.
pub proof fn lemma_mailbox_defaults_to_inbox(
    args: CommandLineModel,
    file: Option<ConfigModel>,
    interactive: bool,
)
    requires
        args.mailboxes is None,
        file matches Some(stored) ==> stored.mbox.len() == 0,
        configured(args, file, interactive) is Ok,
    ensures
        configured(args, file, interactive)->Ok_0.mbox == seq![DEFAULT_MAILBOX@],
        configured(args, file, interactive)->Ok_0.mbox.len() == 1,
{
}

/// Every configuration names at least one mailbox.
pub proof fn lemma_configured_names_a_mailbox(
    args: CommandLineModel,
    file: Option<ConfigModel>,
    interactive: bool,
)
    requires
        configured(args, file, interactive) is Ok,
    ensures
        configured(args, file, interactive)->Ok_0.mbox.len() >= 1,
{
    match args.mailboxes {
        Some(list) => {
            lemma_split_nonempty(list, ' ');
            lemma_split_nonempty(list, ',');
        },
        None => {},
    }
}

/// A request to monitor always resolves to `Forced`; without one, an
/// interactive terminal always resolves to `OneShot`; and with neither and
/// no setting in a file, the persistence is `Auto`.
pub proof fn lemma_persistence_resolution(raw: Option<bool>, monitor: bool, interactive: bool)
    ensures
        monitor ==> persistence_of(resolved_wait_idle(raw, monitor, interactive))
            == Persistence::Forced,
        !monitor && interactive ==> persistence_of(resolved_wait_idle(raw, monitor, interactive))
            == Persistence::OneShot,
        !monitor && !interactive ==> persistence_of(resolved_wait_idle(raw, monitor, interactive))
            == persistence_of(raw),
        !monitor && !interactive && raw is None ==> persistence_of(
            resolved_wait_idle(raw, monitor, interactive),
        ) == Persistence::Auto,
{
}

} // verus!
