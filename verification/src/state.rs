use vstd::prelude::*;

use crate::path::FsPath;

verus! {

/// The contents given to a not-found file that does not exist yet.
pub const DEFAULT_NOT_FOUND_FILE: &'static str = "
<!DOCTYPE html>
<html>
    <head>
        <title>Not found</title>
    </head>
    <body>
        Oops! That page wasn't found on this server.
    </body>
</html>
";

/// The possible modes of authorization.
#[derive(Clone, Debug)]
pub enum AuthMode {
    /// HTTP Basic Authentication, with the username and password to check for.
    Basic { username: String, password: String },
    /// No security is applied.
    NoAuth,
}

impl AuthMode {
    /// An `AuthMode` that makes the server require the given `username` and
    /// `password` upon accessing assets.
    pub fn basic(username: String, password: String) -> (mode: AuthMode)
        ensures
            mode == (AuthMode::Basic { username, password }),
    {
        AuthMode::Basic { username, password }
    }

    /// An `AuthMode` that applies no authentication; the default.
    pub fn none() -> (mode: AuthMode)
        ensures
            mode is NoAuth,
    {
        AuthMode::NoAuth
    }

    /// Whether this is `AuthMode::Basic`.
    pub fn is_basic(&self) -> (b: bool)
        ensures
            b == (self is Basic),
    {
        match self {
            AuthMode::Basic { .. } => true,
            AuthMode::NoAuth => false,
        }
    }

    /// Whether this is `AuthMode::NoAuth`.
    pub fn is_none(&self) -> (b: bool)
        ensures
            b == (self is NoAuth),
    {
        match self {
            AuthMode::Basic { .. } => false,
            AuthMode::NoAuth => true,
        }
    }
}

/// The context in which requests are served.
#[derive(Debug)]
pub struct Context {
    /// A name sent back by the server in responses.
    pub name: &'static str,
    /// A version sent back by the server in responses.
    pub version: &'static str,
    /// Where the site files are.
    pub site: FsPath,
    /// The file sent back when a file is not found.
    pub not_found_file: FsPath,
    /// The security applied to the site.
    pub auth: AuthMode,
}

/// The bytes of `www`.
pub open spec fn www_bytes() -> Seq<u8> {
    seq![119u8, 119u8, 119u8]
}

/// The bytes of `not_found.html`.
pub open spec fn not_found_html_bytes() -> Seq<u8> {
    seq![110u8, 111, 116, 95, 102, 111, 117, 110, 100, 46, 104, 116, 109, 108]
}

/// The components of `./www`.
pub open spec fn default_site() -> Seq<Seq<u8>> {
    seq![seq![46u8], www_bytes()]
}

/// The components of `./www/not_found.html`.
pub open spec fn default_not_found_file() -> Seq<Seq<u8>> {
    seq![seq![46u8], www_bytes(), not_found_html_bytes()]
}

impl Context {
    /// The value of the `Server` header sent with each file: `name/version`.
    pub fn server_header(&self) -> (header: String)
        ensures
            header@ == self.name@ + seq!['/'] + self.version@,
    {
        let mut header = String::from_str(self.name);
        let slash = "/";
        proof {
            reveal_strlit("/");
        }
        header.append(slash);
        header.append(self.version);
        header
    }
}

/// The bytes of `www`.
fn www() -> (out: Vec<u8>)
    ensures
        out@ == www_bytes(),
{
    let out: Vec<u8> = vec![119u8, 119u8, 119u8];
    assert(out@ =~= www_bytes());
    out
}

/// The components of `./www`.
fn default_site_path() -> (p: FsPath)
    ensures
        p@ == default_site(),
{
    let dot: Vec<u8> = vec![46u8];
    assert(dot@ =~= seq![46u8]);
    let p = FsPath::new(vec![dot, www()]);
    assert(p.components@.len() == 2);
    assert(p@ =~= default_site());
    p
}

/// The components of `./www/not_found.html`.
fn default_not_found_path() -> (p: FsPath)
    ensures
        p@ == default_not_found_file(),
{
    let file: Vec<u8> = vec![110u8, 111, 116, 95, 102, 111, 117, 110, 100, 46, 104, 116, 109, 108];
    assert(file@ =~= not_found_html_bytes());
    let dot: Vec<u8> = vec![46u8];
    assert(dot@ =~= seq![46u8]);
    let p = FsPath::new(vec![dot, www(), file]);
    assert(p.components@.len() == 3);
    assert(p@ =~= default_not_found_file());
    p
}

/// Errors in loading the configuration; each names the path it concerns.
#[derive(Debug)]
pub enum Error {
    /// Failed to open the config file.
    ConfigOpen { path: FsPath },
    /// Failed to read and parse the config file.
    ConfigParse { path: FsPath },
    /// Failed to create a default config file.
    ConfigCreate { path: FsPath },
    /// Failed to write to the default config file.
    ConfigWrite { path: FsPath },
    /// Failed to create a default not-found file.
    NotFoundFileCreate { path: FsPath },
    /// Failed to canonicalize the site directory path.
    SiteDirCanonicalize { path: FsPath },
    /// Failed to create the site directory.
    SiteDirCreate { path: FsPath },
}

/// Loads a `Context` from a YAML config file, one filesystem operation at a time.
///
/// The caller performs each `ConfigAction` that `start` and `advance` hand out and
/// reports how it went with a `ConfigEvent`, until a `Finished` action comes out.
pub struct ConfigLoader {
    /// The name injected into the loaded context.
    pub name: &'static str,
    /// The version injected into the loaded context.
    pub version: &'static str,
    /// The path of the config file.
    pub path: FsPath,
}

/// What the caller of a `ConfigLoader` does next.
pub enum ConfigAction {
    /// Open the config file.
    Open,
    /// Create the config file, which did not exist, to hold `config`.
    CreateDefault { config: Context },
    /// Write `config` as YAML to the config file just created.
    WriteDefault { config: Context },
    /// Read and parse the opened config file as YAML.
    Parse,
    /// Tell whether the site directory of `config` exists.
    CheckSite { config: Context },
    /// Create the site directory of `config`, parents included.
    CreateSite { config: Context },
    /// Resolve the site directory of `config` to its canonical, absolute form.
    CanonicalizeSite { config: Context },
    /// Tell whether the not-found file of `config` exists.
    CheckNotFoundFile { config: Context },
    /// Write `contents` to the not-found file of `config`.
    WriteNotFoundFile { config: Context, contents: &'static str },
    /// Loading is over, with this result.
    Finished { result: Result<Context, Error> },
}

/// How the last `ConfigAction` went.
pub enum ConfigEvent {
    /// It succeeded (opening, creating, writing).
    Succeeded,
    /// Opening failed because the file does not exist.
    Missing,
    /// It failed for another reason.
    Failed,
    /// The answer to a question of existence.
    Exists(bool),
    /// The file parsed into this context.
    Parsed(Context),
    /// The canonical form of the path.
    Canonical(FsPath),
}

/// A rank of the actions that every step from an unfinished action raises.
pub open spec fn config_rank(action: ConfigAction) -> nat {
    match action {
        ConfigAction::Open => 0,
        ConfigAction::CreateDefault { .. } => 1,
        ConfigAction::Parse => 1,
        ConfigAction::WriteDefault { .. } => 2,
        ConfigAction::CheckSite { .. } => 3,
        ConfigAction::CreateSite { .. } => 4,
        ConfigAction::CanonicalizeSite { .. } => 5,
        ConfigAction::CheckNotFoundFile { .. } => 6,
        ConfigAction::WriteNotFoundFile { .. } => 7,
        ConfigAction::Finished { .. } => 8,
    }
}

impl ConfigLoader {
    /// `config` is the default configuration: site `./www`, not-found file
    /// `./www/not_found.html`, no authentication, and this loader's name and version.
    pub open spec fn is_default_config(self, config: Context) -> bool {
        &&& config.name == self.name
        &&& config.version == self.version
        &&& config.site@ == default_site()
        &&& config.not_found_file@ == default_not_found_file()
        &&& config.auth is NoAuth
    }

    /// `config` with this loader's name and version put in.
    pub open spec fn named(self, config: Context) -> Context {
        Context {
            name: self.name,
            version: self.version,
            site: config.site,
            not_found_file: config.not_found_file,
            auth: config.auth,
        }
    }

    /// What holds of every action that a run of this loader reaches: the default
    /// configuration is the one written, the default page is the not-found file
    /// written, and a loaded context carries the loader's name and version.
    pub open spec fn reachable(self, action: ConfigAction) -> bool {
        match action {
            ConfigAction::CreateDefault { config } => self.is_default_config(config),
            ConfigAction::WriteDefault { config } => self.is_default_config(config),
            ConfigAction::Finished { result: Ok(config) } => config.name == self.name
                && config.version == self.version,
            ConfigAction::WriteNotFoundFile { contents, .. } => contents == DEFAULT_NOT_FOUND_FILE,
            _ => true,
        }
    }

    /// The step from `action` on `event` to `next`.
    pub open spec fn step(self, action: ConfigAction, event: ConfigEvent, next: ConfigAction) -> bool {
        match action {
            ConfigAction::Open => match event {
                ConfigEvent::Succeeded => next is Parse,
                ConfigEvent::Missing => next matches ConfigAction::CreateDefault { config }
                    && self.is_default_config(config),
                _ => next matches ConfigAction::Finished { result: Err(Error::ConfigOpen { path }) }
                    && path@ == self.path@,
            },
            ConfigAction::CreateDefault { config } => match event {
                ConfigEvent::Succeeded => next == ConfigAction::WriteDefault { config },
                _ => next matches ConfigAction::Finished {
                    result: Err(Error::ConfigCreate { path }),
                } && path@ == self.path@,
            },
            ConfigAction::WriteDefault { config } => match event {
                ConfigEvent::Succeeded => next == ConfigAction::CheckSite { config },
                _ => next matches ConfigAction::Finished {
                    result: Err(Error::ConfigWrite { path }),
                } && path@ == self.path@,
            },
            ConfigAction::Parse => match event {
                ConfigEvent::Parsed(config) => next == ConfigAction::CheckSite { config },
                _ => next matches ConfigAction::Finished {
                    result: Err(Error::ConfigParse { path }),
                } && path@ == self.path@,
            },
            ConfigAction::CheckSite { config } => match event {
                ConfigEvent::Exists(true) => next == ConfigAction::CanonicalizeSite { config },
                _ => next == ConfigAction::CreateSite { config },
            },
            ConfigAction::CreateSite { config } => match event {
                ConfigEvent::Succeeded => next == ConfigAction::CanonicalizeSite { config },
                _ => next == ConfigAction::Finished {
                    result: Err(Error::SiteDirCreate { path: config.site }),
                },
            },
            ConfigAction::CanonicalizeSite { config } => match event {
                ConfigEvent::Canonical(site) => next == ConfigAction::CheckNotFoundFile {
                    config: Context {
                        name: config.name,
                        version: config.version,
                        site,
                        not_found_file: config.not_found_file,
                        auth: config.auth,
                    },
                },
                _ => next == ConfigAction::Finished {
                    result: Err(Error::SiteDirCanonicalize { path: config.site }),
                },
            },
            ConfigAction::CheckNotFoundFile { config } => match event {
                ConfigEvent::Exists(true) => next == ConfigAction::Finished {
                    result: Ok(self.named(config)),
                },
                _ => next == ConfigAction::WriteNotFoundFile {
                    config,
                    contents: DEFAULT_NOT_FOUND_FILE,
                },
            },
            ConfigAction::WriteNotFoundFile { config, .. } => match event {
                ConfigEvent::Succeeded => next == ConfigAction::Finished {
                    result: Ok(self.named(config)),
                },
                _ => next == ConfigAction::Finished {
                    result: Err(Error::NotFoundFileCreate { path: config.not_found_file }),
                },
            },
            ConfigAction::Finished { .. } => next == action,
        }
    }

    /// A loader for the config file at `path`, which injects `name` and `version`
    /// into the context it loads.
    pub fn new(name: &'static str, version: &'static str, path: FsPath) -> (loader: ConfigLoader)
        ensures
            loader.name == name,
            loader.version == version,
            loader.path == path,
    {
        ConfigLoader { name, version, path }
    }

    /// The first action: open the config file.
    pub fn start(&self) -> (action: ConfigAction)
        ensures
            action is Open,
            self.reachable(action),
    {
        ConfigAction::Open
    }

    /// The action that follows `action` when it went as `event` says.
    pub fn advance(&self, action: ConfigAction, event: ConfigEvent) -> (next: ConfigAction)
        ensures
            self.step(action, event, next),
            self.reachable(action) ==> self.reachable(next),
            !(action is Finished) ==> config_rank(next) > config_rank(action),
    {
        match action {
            ConfigAction::Open => match event {
                ConfigEvent::Succeeded => ConfigAction::Parse,
                ConfigEvent::Missing => ConfigAction::CreateDefault {
                    config: Context {
                        name: self.name,
                        version: self.version,
                        site: default_site_path(),
                        not_found_file: default_not_found_path(),
                        auth: AuthMode::NoAuth,
                    },
                },
                _ => ConfigAction::Finished {
                    result: Err(Error::ConfigOpen { path: self.path.duplicate() }),
                },
            },
            ConfigAction::CreateDefault { config } => match event {
                ConfigEvent::Succeeded => ConfigAction::WriteDefault { config },
                _ => ConfigAction::Finished {
                    result: Err(Error::ConfigCreate { path: self.path.duplicate() }),
                },
            },
            ConfigAction::WriteDefault { config } => match event {
                ConfigEvent::Succeeded => ConfigAction::CheckSite { config },
                _ => ConfigAction::Finished {
                    result: Err(Error::ConfigWrite { path: self.path.duplicate() }),
                },
            },
            ConfigAction::Parse => match event {
                ConfigEvent::Parsed(config) => ConfigAction::CheckSite { config },
                _ => ConfigAction::Finished {
                    result: Err(Error::ConfigParse { path: self.path.duplicate() }),
                },
            },
            ConfigAction::CheckSite { config } => match event {
                ConfigEvent::Exists(true) => ConfigAction::CanonicalizeSite { config },
                _ => ConfigAction::CreateSite { config },
            },
            ConfigAction::CreateSite { config } => match event {
                ConfigEvent::Succeeded => ConfigAction::CanonicalizeSite { config },
                _ => ConfigAction::Finished {
                    result: Err(Error::SiteDirCreate { path: config.site }),
                },
            },
            ConfigAction::CanonicalizeSite { config } => match event {
                ConfigEvent::Canonical(site) => ConfigAction::CheckNotFoundFile {
                    config: Context {
                        name: config.name,
                        version: config.version,
                        site,
                        not_found_file: config.not_found_file,
                        auth: config.auth,
                    },
                },
                _ => ConfigAction::Finished {
                    result: Err(Error::SiteDirCanonicalize { path: config.site }),
                },
            },
            ConfigAction::CheckNotFoundFile { config } => match event {
                ConfigEvent::Exists(true) => ConfigAction::Finished {
                    result: Ok(self.inject_identity(config)),
                },
                _ => ConfigAction::WriteNotFoundFile { config, contents: DEFAULT_NOT_FOUND_FILE },
            },
            ConfigAction::WriteNotFoundFile { config, .. } => match event {
                ConfigEvent::Succeeded => ConfigAction::Finished {
                    result: Ok(self.inject_identity(config)),
                },
                _ => ConfigAction::Finished {
                    result: Err(Error::NotFoundFileCreate { path: config.not_found_file }),
                },
            },
            ConfigAction::Finished { result } => ConfigAction::Finished { result },
        }
    }

    /// `config` with this loader's name and version put in.
    fn inject_identity(&self, config: Context) -> (named: Context)
        ensures
            named == self.named(config),
    {
        Context {
            name: self.name,
            version: self.version,
            site: config.site,
            not_found_file: config.not_found_file,
            auth: config.auth,
        }
    }
}

/// Each step of a load keeps what holds of reachable actions, and moves an
/// unfinished load forward.
pub proof fn lemma_config_step(loader: ConfigLoader, action: ConfigAction, event: ConfigEvent, next: ConfigAction)
    requires
        loader.reachable(action),
        loader.step(action, event, next),
    ensures
        loader.reachable(next),
        !(action is Finished) ==> config_rank(next) > config_rank(action),
        action is Finished ==> next == action,
{
}

/// Whatever the filesystem answers, a load started with `start` writes only the
/// default configuration (site `./www`, not-found file `./www/not_found.html`, no
/// authentication) when the config file is missing, writes only
/// `DEFAULT_NOT_FOUND_FILE` to a missing not-found file, every context it loads
/// carries the loader's name and version, and it is over after at most eight steps.
pub proof fn lemma_config_load(loader: ConfigLoader, trace: Seq<ConfigAction>, events: Seq<ConfigEvent>)
    requires
        trace.len() == events.len() + 1,
        trace[0] is Open,
        forall|i: int| 0 <= i < events.len() ==> loader.step(trace[i], events[i], trace[i + 1]),
    ensures
        forall|i: int| 0 <= i < trace.len() ==> loader.reachable(#[trigger] trace[i]),
        forall|i: int| 8 <= i < trace.len() ==> #[trigger] trace[i] is Finished,
{
    lemma_config_prefix(loader, trace, events, trace.len() as int);
}

/// The first `n` actions of a load are reachable ones, and those from the eighth on
/// finished.
proof fn lemma_config_prefix(
    loader: ConfigLoader,
    trace: Seq<ConfigAction>,
    events: Seq<ConfigEvent>,
    n: int,
)
    requires
        1 <= n <= trace.len(),
        trace.len() == events.len() + 1,
        trace[0] is Open,
        forall|i: int| 0 <= i < events.len() ==> loader.step(trace[i], events[i], trace[i + 1]),
    ensures
        forall|i: int| 0 <= i < n ==> loader.reachable(#[trigger] trace[i]),
        forall|i: int| 0 <= i < n ==> (#[trigger] trace[i] is Finished || config_rank(trace[i]) >= i),
    decreases n,
{
    if n > 1 {
        lemma_config_prefix(loader, trace, events, n - 1);
        assert(loader.step(trace[n - 2], events[n - 2], trace[n - 1]));
        lemma_config_step(loader, trace[n - 2], events[n - 2], trace[n - 1]);
    }
}

/// The context that an action carries: the configuration being loaded, or the
/// one loaded.
pub open spec fn carried(action: ConfigAction) -> Option<Context> {
    match action {
        ConfigAction::CreateDefault { config } => Some(config),
        ConfigAction::WriteDefault { config } => Some(config),
        ConfigAction::CheckSite { config } => Some(config),
        ConfigAction::CreateSite { config } => Some(config),
        ConfigAction::CanonicalizeSite { config } => Some(config),
        ConfigAction::CheckNotFoundFile { config } => Some(config),
        ConfigAction::WriteNotFoundFile { config, .. } => Some(config),
        ConfigAction::Finished { result: Ok(config) } => Some(config),
        _ => None,
    }
}

/// Loading keeps the settings it was given: a step from an action that carries a
/// context to one that carries a context keeps its authentication and its
/// not-found file, and its site directory unless the step canonicalized it, in
/// which case the site is the canonical path found; and a parse hands on the
/// parsed context as it is.
pub proof fn lemma_config_step_keeps_settings(
    loader: ConfigLoader,
    action: ConfigAction,
    event: ConfigEvent,
    next: ConfigAction,
)
    requires
        loader.step(action, event, next),
    ensures
        carried(action) is Some && carried(next) is Some ==> carried(next)->0.auth == carried(
            action,
        )->0.auth && carried(next)->0.not_found_file == carried(action)->0.not_found_file,
        carried(action) is Some && carried(next) is Some && !(action is CanonicalizeSite)
            ==> carried(next)->0.site == carried(action)->0.site,
        action is CanonicalizeSite && event is Canonical && carried(next) is Some
            ==> carried(next)->0.site == event->Canonical_0,
        action is Parse && event is Parsed ==> carried(next) == Some(event->Parsed_0),
{
}

/// Whatever the filesystem answers, a context loaded from a parsed config file has
/// the authentication and not-found file of that file, and the loader's name and
/// version.
pub proof fn lemma_loaded_context_keeps_parsed_settings(
    loader: ConfigLoader,
    parsed: Context,
    trace: Seq<ConfigAction>,
    events: Seq<ConfigEvent>,
)
    requires
        trace.len() == events.len() + 1,
        events.len() >= 1,
        trace[0] is Parse,
        events[0] == ConfigEvent::Parsed(parsed),
        forall|i: int| 0 <= i < events.len() ==> loader.step(trace[i], events[i], trace[i + 1]),
    ensures
        forall|i: int|
            1 <= i < trace.len() ==> (carried(#[trigger] trace[i]) matches Some(c) ==> (c.auth
                == parsed.auth && c.not_found_file == parsed.not_found_file)),
        trace.last() matches ConfigAction::Finished { result: Ok(c) } ==> (c.auth == parsed.auth
            && c.not_found_file == parsed.not_found_file && c.name == loader.name && c.version
            == loader.version),
{
    lemma_parsed_prefix(loader, parsed, trace, events, trace.len() as int);
    assert(trace.last() == trace[trace.len() - 1]);
}

/// The first `n` actions after a parse carry the parsed settings.
proof fn lemma_parsed_prefix(
    loader: ConfigLoader,
    parsed: Context,
    trace: Seq<ConfigAction>,
    events: Seq<ConfigEvent>,
    n: int,
)
    requires
        1 <= n <= trace.len(),
        trace.len() == events.len() + 1,
        events.len() >= 1,
        trace[0] is Parse,
        events[0] == ConfigEvent::Parsed(parsed),
        forall|i: int| 0 <= i < events.len() ==> loader.step(trace[i], events[i], trace[i + 1]),
    ensures
        forall|i: int|
            1 <= i < n ==> (carried(#[trigger] trace[i]) matches Some(c) ==> (c.auth
                == parsed.auth && c.not_found_file == parsed.not_found_file)),
        n >= 2 ==> carried(trace[1]) == Some(parsed),
        forall|i: int| 0 <= i < n ==> loader.reachable(#[trigger] trace[i]),
        forall|i: int| 1 <= i < n ==> !(#[trigger] trace[i] is Open) && !(trace[i] is Parse),
    decreases n,
{
    if n > 1 {
        lemma_parsed_prefix(loader, parsed, trace, events, n - 1);
        assert(loader.step(trace[n - 2], events[n - 2], trace[n - 1]));
        lemma_config_step_keeps_settings(loader, trace[n - 2], events[n - 2], trace[n - 1]);
        lemma_config_step(loader, trace[n - 2], events[n - 2], trace[n - 1]);
    }
}

} // verus!
