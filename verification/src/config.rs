//! The settings of a run.

use crate::text::{decimal, decimal_text};
use vstd::prelude::*;
use vstd::string::*;

verus! {

/// The network that the nodes belong to. It decides the port at which a
/// node is looked for when none is given.
#[derive(Debug, Clone, Copy, PartialEq, Eq, PartialOrd, Ord, Structural)]
pub enum Net {
    MainNet,
    TestNet,
    RegTest,
    SigNet,
}

/// The port at which a node of this network listens unless told otherwise.
pub open spec fn default_port(net: Net) -> u16 {
    match net {
        Net::MainNet => 8332,
        Net::TestNet => 18332,
        Net::SigNet => 38332,
        Net::RegTest => 18443,
    }
}

impl Net {
    /// The port at which a node of this network listens unless told
    /// otherwise.
    pub fn port(self) -> (port: u16)
        ensures
            port == default_port(self),
    {
        match self {
            Net::MainNet => 8332,
            Net::TestNet => 18332,
            Net::SigNet => 38332,
            Net::RegTest => 18443,
        }
    }
}

/// A path of the file system as the settings hold it: its text, or nothing
/// where the path cannot be written as text.
#[derive(Debug, PartialEq, Eq)]
pub struct PathText {
    pub text: Option<String>,
}

/// A text between double quotes, with the characters that cannot stand
/// there as they are written as escapes: what `{:?}` makes of a string.
pub uninterp spec fn quoted(text: Seq<char>) -> Seq<char>;

/// Formats a string slice with `{:?}`, that is with the `Debug`
/// implementation that the standard library has for `str`. The contract
/// gives the result the name `quoted`; it claims nothing else of it.
#[verifier::external_body]
fn debug_text(text: &str) -> (quoted_text: String)
    ensures
        quoted_text@ == quoted(text@),
{
    format!("{:?}", text)
}

/// The line that shows a path, given the path's text in quotes: that text,
/// or `None` where there is none, and a line feed.
pub open spec fn path_line(quoted_path: Option<Seq<char>>) -> Seq<char> {
    match quoted_path {
        Some(text) => text + "\n"@,
        None => "None\n"@,
    }
}

/// The text of a path that is given and can be written as text.
pub open spec fn path_text(path_buff: Option<PathText>) -> Option<Seq<char>> {
    match path_buff {
        Some(PathText { text: Some(text) }) => Some(text@),
        _ => None,
    }
}

/// Writes the line that shows a path, given the path's text in quotes.
pub fn path_line_text(quoted_path: Option<String>) -> (line: String)
    ensures
        line@ == path_line(
            match quoted_path {
                Some(text) => Some(text@),
                None => None,
            },
        ),
{
    match quoted_path {
        Some(text) => {
            let mut line = text;
            line.append("\n");
            line
        },
        None => String::from_str("None\n"),
    }
}

/// Writes the line that shows a path: its text in quotes, or `None` where
/// no path is given or the path cannot be written as text.
pub fn print_pathbuffer(path_buff: &Option<PathText>) -> (line: String)
    ensures
        line@ == path_line(
            match path_text(*path_buff) {
                Some(text) => Some(quoted(text)),
                None => None,
            },
        ),
{
    let quoted_path = match path_buff {
        Some(path) => match &path.text {
            Some(text) => Some(debug_text(text.as_str())),
            None => None,
        },
        None => None,
    };
    path_line_text(quoted_path)
}

/// The settings of a run, as the command line and the settings file give
/// them.
#[derive(Debug, PartialEq, Eq)]
pub struct Config {
    /// Where the source node is reached.
    pub source_ip_addr: String,
    /// Where the destination node is reached.
    pub dest_ip_addr: String,
    /// The cookie file of the source node.
    pub source_cookie_auth_path: Option<PathText>,
    /// The cookie file of the destination node.
    pub dest_cookie_auth_path: Option<PathText>,
    pub source_user: Option<String>,
    pub source_passwd: Option<String>,
    pub source_port: Option<u16>,
    pub dest_user: Option<String>,
    pub dest_passwd: Option<String>,
    pub dest_port: Option<u16>,
    pub net: Net,
    /// The address of the live feed; without one the run has no listener.
    pub zmq_address: Option<String>,
    /// Take the snapshot in one call.
    pub fast_mode: bool,
    /// Show the settings, the layers and the failures.
    pub verbose: bool,
    /// The settings come from the settings file at its usual place.
    pub use_config: bool,
    /// The settings come from the settings file at this place.
    pub use_config_path: Option<PathText>,
}

/// The text of an optional text.
pub open spec fn text_of(text: Option<String>) -> Option<Seq<char>> {
    match text {
        Some(text) => Some(text@),
        None => None,
    }
}

/// The address that a text stands for, written out in full, where the
/// text is an address: what `Url::parse` makes of the text, as `Url::as_str`
/// gives it back.
pub uninterp spec fn url_text(text: Seq<char>) -> Option<Seq<char>>;

/// Parses a text with `Url::parse` of the crate `url`, and writes the
/// address back with `Url::as_str`; a text that does not parse gives
/// nothing. The contract gives the result the name `url_text`; it claims
/// nothing else of it.
#[verifier::external_body]
fn parse_url(text: &str) -> (address: Option<String>)
    ensures
        text_of(address) == url_text(text@),
{
    match url::Url::parse(text) {
        Ok(address) => Some(String::from(address.as_str())),
        Err(_) => None,
    }
}

/// Whether the settings are those of two nodes on this machine, on the main
/// network, with nothing else said.
pub open spec fn is_local(cfg: Config) -> bool {
    &&& cfg.source_ip_addr@ == "127.0.0.1"@
    &&& cfg.dest_ip_addr@ == "127.0.0.1"@
    &&& cfg.source_cookie_auth_path is None
    &&& cfg.dest_cookie_auth_path is None
    &&& cfg.source_user is None
    &&& cfg.source_passwd is None
    &&& cfg.source_port is None
    &&& cfg.dest_user is None
    &&& cfg.dest_passwd is None
    &&& cfg.dest_port is None
    &&& cfg.net == Net::MainNet
    &&& !cfg.fast_mode
    &&& !cfg.verbose
    &&& !cfg.use_config
    &&& cfg.use_config_path is None
}

impl Default for Config {
    /// Two nodes on this machine, on the main network, with the feed at
    /// port 29000.
    fn default() -> (cfg: Config)
        ensures
            is_local(cfg),
            text_of(cfg.zmq_address) == url_text("tcp://127.0.0.1:29000"@),
    {
        Config::local_at("tcp://127.0.0.1:29000")
    }
}

/// A port that is given, or else the port of the network.
pub open spec fn port_or_default(port: Option<u16>, net: Net) -> Option<u16> {
    match port {
        Some(port) => Some(port),
        None => Some(default_port(net)),
    }
}

/// The settings with both ports decided.
pub open spec fn with_ports(cfg: Config) -> Config {
    Config {
        source_port: port_or_default(cfg.source_port, cfg.net),
        dest_port: port_or_default(cfg.dest_port, cfg.net),
        ..cfg
    }
}

/// What is asked of the user where the settings leave it open.
#[derive(Debug, Clone, Copy, PartialEq, Eq, Structural)]
pub enum Credential {
    SourceUser,
    SourcePassword,
    DestUser,
    DestPassword,
}

/// What the caller is to do next while the settings are put together.
#[derive(Debug, Clone, Copy, PartialEq, Eq, Structural)]
pub enum LoadAction {
    /// Read the settings file at its usual place.
    ReadDefaultFile,
    /// Read the settings file at the place that the settings name.
    ReadFileAt,
    /// Ask the user.
    Prompt(Credential),
    /// Nothing more.
    Done,
}

/// What the caller has read or been told.
#[derive(Debug, PartialEq, Eq)]
pub enum LoadAnswer {
    /// The settings that a file holds.
    File(Config),
    /// What the user typed, or nothing where the question failed.
    Secret(Option<String>),
}

/// Settings that are being put together. Six questions are gone through
/// in order: the two files, then the four credentials. `stage` is the
/// number of questions that are settled.
#[derive(Debug, PartialEq, Eq)]
pub struct Loading {
    pub cfg: Config,
    pub stage: u8,
}

/// Whether a question is open.
///
/// A file is read where the settings ask for it. A credential is asked
/// for where the node has no cookie file and the settings do not hold the
/// credential.
pub open spec fn wanted(cfg: Config, stage: int) -> bool {
    if stage == 0 {
        cfg.use_config
    } else if stage == 1 {
        cfg.use_config_path is Some
    } else if stage == 2 {
        cfg.source_cookie_auth_path is None && cfg.source_user is None
    } else if stage == 3 {
        cfg.source_cookie_auth_path is None && cfg.source_passwd is None
    } else if stage == 4 {
        cfg.dest_cookie_auth_path is None && cfg.dest_user is None
    } else if stage == 5 {
        cfg.dest_cookie_auth_path is None && cfg.dest_passwd is None
    } else {
        false
    }
}

/// The first open question from `stage` on; six where none is open.
pub open spec fn first_wanted(cfg: Config, stage: int) -> int
    decreases 6 - stage,
{
    if stage >= 6 {
        6
    } else if wanted(cfg, stage) {
        stage
    } else {
        first_wanted(cfg, stage + 1)
    }
}

/// What a question asks the caller to do.
pub open spec fn action_of(stage: int) -> LoadAction {
    if stage == 0 {
        LoadAction::ReadDefaultFile
    } else if stage == 1 {
        LoadAction::ReadFileAt
    } else if stage == 2 {
        LoadAction::Prompt(Credential::SourceUser)
    } else if stage == 3 {
        LoadAction::Prompt(Credential::SourcePassword)
    } else if stage == 4 {
        LoadAction::Prompt(Credential::DestUser)
    } else if stage == 5 {
        LoadAction::Prompt(Credential::DestPassword)
    } else {
        LoadAction::Done
    }
}

/// The settings after an answer to the first open question.
///
/// The file at the usual place replaces the settings, which remember that
/// they came from it. The file at a named place replaces them too, and they
/// keep the name of the place. A credential takes what the user typed. An
/// answer of the wrong kind, or one that nothing asked for, changes nothing.
pub open spec fn supplied(loading: Loading, answer: LoadAnswer) -> Loading {
    let at = first_wanted(loading.cfg, loading.stage as int);
    let cfg = loading.cfg;
    match answer {
        LoadAnswer::File(file) => if at == 0 {
            Loading { cfg: Config { use_config: true, ..file }, stage: 1 }
        } else if at == 1 {
            Loading { cfg: Config { use_config_path: cfg.use_config_path, ..file }, stage: 2 }
        } else {
            loading
        },
        LoadAnswer::Secret(secret) => if at == 2 {
            Loading { cfg: Config { source_user: secret, ..cfg }, stage: 3 }
        } else if at == 3 {
            Loading { cfg: Config { source_passwd: secret, ..cfg }, stage: 4 }
        } else if at == 4 {
            Loading { cfg: Config { dest_user: secret, ..cfg }, stage: 5 }
        } else if at == 5 {
            Loading { cfg: Config { dest_passwd: secret, ..cfg }, stage: 6 }
        } else {
            loading
        },
    }
}

/// The question that the user reads.
pub open spec fn prompt_text(credential: Credential) -> Seq<char> {
    match credential {
        Credential::SourceUser => "Source bitcoind node user: "@,
        Credential::SourcePassword => "Source bitcoind node password: "@,
        Credential::DestUser => "Destination bitcoind node user: "@,
        Credential::DestPassword => "Destination bitcoind node password: "@,
    }
}

impl Credential {
    /// The question that the user reads.
    pub fn prompt(self) -> (text: &'static str)
        ensures
            text@ == prompt_text(self),
    {
        match self {
            Credential::SourceUser => "Source bitcoind node user: ",
            Credential::SourcePassword => "Source bitcoind node password: ",
            Credential::DestUser => "Destination bitcoind node user: ",
            Credential::DestPassword => "Destination bitcoind node password: ",
        }
    }
}

fn is_wanted(cfg: &Config, stage: u8) -> (b: bool)
    ensures
        b == wanted(*cfg, stage as int),
{
    if stage == 0 {
        cfg.use_config
    } else if stage == 1 {
        cfg.use_config_path.is_some()
    } else if stage == 2 {
        cfg.source_cookie_auth_path.is_none() && cfg.source_user.is_none()
    } else if stage == 3 {
        cfg.source_cookie_auth_path.is_none() && cfg.source_passwd.is_none()
    } else if stage == 4 {
        cfg.dest_cookie_auth_path.is_none() && cfg.dest_user.is_none()
    } else if stage == 5 {
        cfg.dest_cookie_auth_path.is_none() && cfg.dest_passwd.is_none()
    } else {
        false
    }
}

impl Loading {
    fn open_question(&self) -> (at: u8)
        ensures
            at == first_wanted(self.cfg, self.stage as int),
            at <= 6,
    {
        let mut at: u8 = self.stage;
        while at < 6 && !is_wanted(&self.cfg, at)
            invariant
                first_wanted(self.cfg, at as int) == first_wanted(self.cfg, self.stage as int),
            decreases 6 - at,
        {
            at += 1;
        }
        if at > 6 {
            6
        } else {
            at
        }
    }

    /// What the caller is to do next.
    pub fn pending(&self) -> (action: LoadAction)
        ensures
            action == action_of(first_wanted(self.cfg, self.stage as int)),
    {
        let at = self.open_question();
        if at == 0 {
            LoadAction::ReadDefaultFile
        } else if at == 1 {
            LoadAction::ReadFileAt
        } else if at == 2 {
            LoadAction::Prompt(Credential::SourceUser)
        } else if at == 3 {
            LoadAction::Prompt(Credential::SourcePassword)
        } else if at == 4 {
            LoadAction::Prompt(Credential::DestUser)
        } else if at == 5 {
            LoadAction::Prompt(Credential::DestPassword)
        } else {
            LoadAction::Done
        }
    }

    /// Takes the answer to the first open question.
    pub fn supply(self, answer: LoadAnswer) -> (next: Loading)
        ensures
            next == supplied(self, answer),
    {
        let at = self.open_question();
        let mut loading = self;
        match answer {
            LoadAnswer::File(file) => {
                if at == 0 {
                    let mut cfg = file;
                    cfg.use_config = true;
                    Loading { cfg, stage: 1 }
                } else if at == 1 {
                    let mut cfg = file;
                    cfg.use_config_path = loading.cfg.use_config_path;
                    Loading { cfg, stage: 2 }
                } else {
                    loading
                }
            },
            LoadAnswer::Secret(secret) => {
                if at == 2 {
                    loading.cfg.source_user = secret;
                    loading.stage = 3;
                } else if at == 3 {
                    loading.cfg.source_passwd = secret;
                    loading.stage = 4;
                } else if at == 4 {
                    loading.cfg.dest_user = secret;
                    loading.stage = 5;
                } else if at == 5 {
                    loading.cfg.dest_passwd = secret;
                    loading.stage = 6;
                }
                loading
            },
        }
    }

    /// The settings as they stand, with both ports decided.
    pub fn finish(self) -> (cfg: Config)
        ensures
            cfg == with_ports(self.cfg),
    {
        self.cfg.with_default_ports()
    }
}

/// How a node is to be told who asks.
#[derive(Debug, PartialEq, Eq)]
pub enum Auth {
    /// By the cookie file that the settings name for the node.
    CookieFile,
    /// By a user name and a password.
    UserPass(String, String),
}

/// How a node is to be told who asks: by its cookie file where one is
/// named, else by user name and password where both are known, else not at
/// all.
pub open spec fn auth_of(
    cookie: Option<PathText>,
    user: Option<String>,
    passwd: Option<String>,
) -> Option<Auth> {
    if cookie is Some {
        Some(Auth::CookieFile)
    } else {
        match (user, passwd) {
            (Some(user), Some(passwd)) => Some(Auth::UserPass(user, passwd)),
            _ => None,
        }
    }
}

fn auth_for(cookie: &Option<PathText>, user: &Option<String>, passwd: &Option<String>) -> (auth:
    Option<Auth>)
    ensures
        auth == auth_of(*cookie, *user, *passwd),
{
    if cookie.is_some() {
        Some(Auth::CookieFile)
    } else {
        match (user, passwd) {
            (Some(user), Some(passwd)) => Some(Auth::UserPass(user.clone(), passwd.clone())),
            _ => None,
        }
    }
}

/// Says how each of the two nodes is to be told who asks, the source node
/// first. There is an answer only where there is one for both.
pub fn get_clients(cfg: &Config) -> (auths: Option<(Auth, Auth)>)
    ensures
        auths == match (
            auth_of(cfg.source_cookie_auth_path, cfg.source_user, cfg.source_passwd),
            auth_of(cfg.dest_cookie_auth_path, cfg.dest_user, cfg.dest_passwd),
        ) {
            (Some(source), Some(dest)) => Some((source, dest)),
            _ => None,
        },
{
    let source = auth_for(&cfg.source_cookie_auth_path, &cfg.source_user, &cfg.source_passwd);
    let dest = auth_for(&cfg.dest_cookie_auth_path, &cfg.dest_user, &cfg.dest_passwd);
    match (source, dest) {
        (Some(source), Some(dest)) => Some((source, dest)),
        _ => None,
    }
}

/// The name of the settings file that was used.
pub open spec fn file_used(cfg: Config) -> Seq<char> {
    if cfg.use_config {
        "~/.config/default_config"@
    } else {
        match cfg.use_config_path {
            Some(PathText { text: Some(text) }) => text@,
            _ => "None"@,
        }
    }
}

/// Whether the settings can be shown: both ports are decided, and the place
/// of the settings file, where one is named, can be written as text.
pub open spec fn showable(cfg: Config) -> bool {
    &&& cfg.source_port is Some
    &&& cfg.dest_port is Some
    &&& (!cfg.use_config ==> !(cfg.use_config_path matches Some(PathText { text: None })))
}

impl Config {
    /// Two nodes on this machine, on the main network, with the feed at
    /// the address given.
    pub fn local(zmq_address: Option<String>) -> (cfg: Config)
        ensures
            is_local(cfg),
            cfg.zmq_address == zmq_address,
    {
        Config {
            source_ip_addr: String::from_str("127.0.0.1"),
            source_user: None,
            source_passwd: None,
            source_port: None,
            dest_ip_addr: String::from_str("127.0.0.1"),
            dest_user: None,
            dest_passwd: None,
            dest_port: None,
            source_cookie_auth_path: None,
            dest_cookie_auth_path: None,
            net: Net::MainNet,
            zmq_address,
            fast_mode: false,
            use_config: false,
            use_config_path: None,
            verbose: false,
        }
    }

    /// Two nodes on this machine, on the main network, with the feed at
    /// the address that the text stands for; without a feed where the text
    /// is no address.
    pub fn local_at(feed: &str) -> (cfg: Config)
        ensures
            is_local(cfg),
            text_of(cfg.zmq_address) == url_text(feed@),
    {
        Config::local(parse_url(feed))
    }

    /// Starts to put the settings together from what the command line gave.
    pub fn load(command_line: Config) -> (loading: Loading)
        ensures
            loading == (Loading { cfg: command_line, stage: 0 }),
    {
        Loading { cfg: command_line, stage: 0 }
    }

    /// Decides both ports: a port that is not given is the port of the
    /// network.
    pub fn with_default_ports(self) -> (cfg: Config)
        ensures
            cfg == with_ports(self),
    {
        let mut cfg = self;
        let port = cfg.net.port();
        cfg.source_port = Some(
            match cfg.source_port {
                Some(given) => given,
                None => port,
            },
        );
        cfg.dest_port = Some(
            match cfg.dest_port {
                Some(given) => given,
                None => port,
            },
        );
        cfg
    }

    /// The name of the settings file that was used: the usual place, the
    /// place that the settings name, or `None`.
    pub fn config_file_used(&self) -> (name: String)
        requires
            !self.use_config ==> !(self.use_config_path matches Some(PathText { text: None })),
        ensures
            name@ == file_used(*self),
    {
        if self.use_config {
            String::from_str("~/.config/default_config")
        } else {
            match &self.use_config_path {
                Some(path) => match &path.text {
                    Some(text) => text.clone(),
                    None => String::from_str("None"),
                },
                None => String::from_str("None"),
            }
        }
    }
}

/// The name of a network.
pub open spec fn net_name(net: Net) -> Seq<char> {
    match net {
        Net::MainNet => "MainNet"@,
        Net::TestNet => "TestNet"@,
        Net::SigNet => "SigNet"@,
        Net::RegTest => "RegTest"@,
    }
}

/// A truth value in words.
pub open spec fn bool_name(b: bool) -> Seq<char> {
    if b {
        "true"@
    } else {
        "false"@
    }
}

/// A text, or `None` where there is none.
pub open spec fn or_none(text: Option<Seq<char>>) -> Seq<char> {
    match text {
        Some(text) => text,
        None => "None"@,
    }
}

/// The settings as the user sees them, given in quotes the texts that are
/// shown in quotes: the two cookie files, the address of the feed and the
/// name of the settings file. The credentials are not shown.
pub open spec fn shown(
    cfg: Config,
    source_path: Option<Seq<char>>,
    dest_path: Option<Seq<char>>,
    zmq_address: Option<Seq<char>>,
    file: Seq<char>,
) -> Seq<char> {
    "Effective configuration:\n"@ + "  Source ip: "@ + cfg.source_ip_addr@ + "\n"@
        + "  Source port: "@ + decimal(cfg.source_port.unwrap() as nat) + "\n"@
        + "  Source user name: ****\n"@ + "  Source password: ****\n"@ + "  Destination ip: "@
        + cfg.dest_ip_addr@ + "\n"@ + "  Destination port: "@ + decimal(
        cfg.dest_port.unwrap() as nat,
    ) + "\n"@ + "  Destination user name: ****\n"@ + "  Destination password: ****\n"@
        + "  Source cookie auth path: "@ + path_line(source_path) + "  Dest cookie auth path: "@
        + path_line(dest_path) + "\n  Network: "@ + net_name(cfg.net) + "\n"@ + "  ZMQ Address: "@
        + or_none(zmq_address) + "\n  Fast Mode: "@ + bool_name(cfg.fast_mode) + "\n"@
        + "  Verbose: "@ + bool_name(cfg.verbose) + "\n"@ + "  Config file used: "@ + file + "\n"@
}

/// A text in quotes, where there is one.
pub open spec fn quoted_if(text: Option<Seq<char>>) -> Option<Seq<char>> {
    match text {
        Some(text) => Some(quoted(text)),
        None => None,
    }
}

impl Net {
    /// The name of the network.
    pub fn name(self) -> (text: &'static str)
        ensures
            text@ == net_name(self),
    {
        match self {
            Net::MainNet => "MainNet",
            Net::TestNet => "TestNet",
            Net::SigNet => "SigNet",
            Net::RegTest => "RegTest",
        }
    }
}

fn bool_text(b: bool) -> (text: &'static str)
    ensures
        text@ == bool_name(b),
{
    if b {
        "true"
    } else {
        "false"
    }
}

fn quoted_path(path_buff: &Option<PathText>) -> (text: Option<String>)
    ensures
        text_of(text) == quoted_if(path_text(*path_buff)),
{
    match path_buff {
        Some(path) => match &path.text {
            Some(text) => Some(debug_text(text.as_str())),
            None => None,
        },
        None => None,
    }
}

impl Config {
    /// Writes the settings as the user sees them, given in quotes the
    /// texts that are shown in quotes.
    pub fn display_with(
        &self,
        source_path: Option<String>,
        dest_path: Option<String>,
        zmq_address: Option<String>,
        file: &str,
    ) -> (text: String)
        requires
            self.source_port is Some,
            self.dest_port is Some,
        ensures
            text@ == shown(
                *self,
                text_of(source_path),
                text_of(dest_path),
                text_of(zmq_address),
                file@,
            ),
    {
        let source_port: u16 = match self.source_port {
            Some(port) => port,
            None => 0,
        };
        let dest_port: u16 = match self.dest_port {
            Some(port) => port,
            None => 0,
        };
        let mut text = String::from_str("Effective configuration:\n");
        text.append("  Source ip: ");
        text.append(self.source_ip_addr.as_str());
        text.append("\n");
        text.append("  Source port: ");
        text.append(decimal_text(source_port as usize).as_str());
        text.append("\n");
        text.append("  Source user name: ****\n");
        text.append("  Source password: ****\n");
        text.append("  Destination ip: ");
        text.append(self.dest_ip_addr.as_str());
        text.append("\n");
        text.append("  Destination port: ");
        text.append(decimal_text(dest_port as usize).as_str());
        text.append("\n");
        text.append("  Destination user name: ****\n");
        text.append("  Destination password: ****\n");
        text.append("  Source cookie auth path: ");
        text.append(path_line_text(source_path).as_str());
        text.append("  Dest cookie auth path: ");
        text.append(path_line_text(dest_path).as_str());
        text.append("\n  Network: ");
        text.append(self.net.name());
        text.append("\n");
        text.append("  ZMQ Address: ");
        match zmq_address {
            Some(address) => text.append(address.as_str()),
            None => text.append("None"),
        }
        text.append("\n  Fast Mode: ");
        text.append(bool_text(self.fast_mode));
        text.append("\n");
        text.append("  Verbose: ");
        text.append(bool_text(self.verbose));
        text.append("\n");
        text.append("  Config file used: ");
        text.append(file);
        text.append("\n");
        text
    }

    /// Writes the settings as the user sees them. The credentials are not
    /// shown.
    pub fn display(&self) -> (text: String)
        requires
            showable(*self),
        ensures
            text@ == shown(
                *self,
                quoted_if(path_text(self.source_cookie_auth_path)),
                quoted_if(path_text(self.dest_cookie_auth_path)),
                quoted_if(text_of(self.zmq_address)),
                quoted(file_used(*self)),
            ),
    {
        let source_path = quoted_path(&self.source_cookie_auth_path);
        let dest_path = quoted_path(&self.dest_cookie_auth_path);
        let zmq_address = match &self.zmq_address {
            Some(address) => Some(debug_text(address.as_str())),
            None => None,
        };
        let file = debug_text(self.config_file_used().as_str());
        self.display_with(source_path, dest_path, zmq_address, file.as_str())
    }
}

} // verus!
