//! Daemon and runner configuration.
//!
//! The values are plain strings; reading them from a configuration file is
//! the embedding process's job, which builds these structures through the
//! constructors here. The identity-provider section also derives the three
//! URLs of the ticket-validation exchange, stated exactly over the
//! configured endpoint and callback.

use vstd::prelude::*;

verus! {

use vstd::string::StringExecFns;

/// What `urlencoding::encode` returns for a given string; the result is a
/// function of the input characters alone.
pub uninterp spec fn url_encoded(s: Seq<char>) -> Seq<char>;

/// Relies on `urlencoding::encode`: percent-encodes every byte except the
/// ASCII alphanumerics and `-`, `_`, `.`, `~`, and depends on the input
/// characters alone.
#[verifier::external_body]
fn url_encode(s: &str) -> (r: String)
    ensures
        r@ == url_encoded(s@),
{
    urlencoding::encode(s).into_owned()
}

/// The listening half of the daemon configuration.
pub struct DaemonServerConfig {
    bind: String,
    hostname: String,
    scheme: String,
}

/// The abstract value of a [`DaemonServerConfig`].
pub struct DaemonServerConfigView {
    pub bind: Seq<char>,
    pub hostname: Seq<char>,
    pub scheme: Seq<char>,
}

impl View for DaemonServerConfig {
    type V = DaemonServerConfigView;

    closed spec fn view(&self) -> DaemonServerConfigView {
        DaemonServerConfigView { bind: self.bind@, hostname: self.hostname@, scheme: self.scheme@ }
    }
}

impl DaemonServerConfig {
    pub fn new(bind: String, hostname: String, scheme: String) -> (r: Self)
        ensures
            r@ == (DaemonServerConfigView {
                bind: bind@,
                hostname: hostname@,
                scheme: scheme@,
            }),
    {
        DaemonServerConfig { bind, hostname, scheme }
    }

    /// The address the management server binds to.
    pub fn bind(&self) -> (r: &str)
        ensures
            r@ == self@.bind,
    {
        self.bind.as_str()
    }

    /// The hostname callers reach the daemon under.
    pub fn hostname(&self) -> (r: &str)
        ensures
            r@ == self@.hostname,
    {
        self.hostname.as_str()
    }

    /// The URL scheme callers reach the daemon under.
    pub fn scheme(&self) -> (r: &str)
        ensures
            r@ == self@.scheme,
    {
        self.scheme.as_str()
    }
}

impl Default for DaemonServerConfig {
    fn default() -> (r: Self)
        ensures
            r@.bind == "[::]:80"@,
            r@.hostname == "localhost"@,
            r@.scheme == "http"@,
    {
        DaemonServerConfig {
            bind: String::from_str("[::]:80"),
            hostname: String::from_str("localhost"),
            scheme: String::from_str("http"),
        }
    }
}

/// Where the runner reaches its controller.
pub struct ControllerConfig {
    path: String,
}

impl View for ControllerConfig {
    type V = Seq<char>;

    closed spec fn view(&self) -> Seq<char> {
        self.path@
    }
}

impl ControllerConfig {
    pub fn new(path: String) -> (r: Self)
        ensures
            r@ == path@,
    {
        ControllerConfig { path }
    }

    /// The controller socket path.
    pub fn path(&self) -> (r: &str)
        ensures
            r@ == self@,
    {
        self.path.as_str()
    }
}

impl Default for ControllerConfig {
    fn default() -> (r: Self)
        ensures
            r@ == "/var/run/ssh-containerd.sock"@,
    {
        ControllerConfig { path: String::from_str("/var/run/ssh-containerd.sock") }
    }
}

/// The identity-provider section: the provider's endpoint and the callback
/// this daemon registers for the ticket leg of the exchange.
pub struct CasConfig {
    endpoint: String,
    callback: String,
}

/// The abstract value of a [`CasConfig`].
pub struct CasConfigView {
    pub endpoint: Seq<char>,
    pub callback: Seq<char>,
}

impl View for CasConfig {
    type V = CasConfigView;

    closed spec fn view(&self) -> CasConfigView {
        CasConfigView { endpoint: self.endpoint@, callback: self.callback@ }
    }
}

/// The callback URL carrying a given challenge.
pub open spec fn callback_url_of(c: CasConfigView, challenge: Seq<char>) -> Seq<char> {
    c.callback + "?challenge="@ + challenge
}

/// The provider's login URL for a given challenge.
pub open spec fn auth_url_of(c: CasConfigView, challenge: Seq<char>) -> Seq<char> {
    c.endpoint + "/login?service="@ + url_encoded(callback_url_of(c, challenge))
}

/// The provider's ticket-validation URL for a given challenge and ticket.
pub open spec fn request_url_of(c: CasConfigView, challenge: Seq<char>, ticket: Seq<char>) -> Seq<
    char,
> {
    c.endpoint + "/p3/serviceValidate?service="@ + url_encoded(callback_url_of(c, challenge))
        + "&format=json&ticket="@ + ticket
}

impl CasConfig {
    pub fn new(endpoint: String, callback: String) -> (r: Self)
        ensures
            r@ == (CasConfigView { endpoint: endpoint@, callback: callback@ }),
    {
        CasConfig { endpoint, callback }
    }

    /// The identity provider's endpoint.
    pub fn endpoint(&self) -> (r: &str)
        ensures
            r@ == self@.endpoint,
    {
        self.endpoint.as_str()
    }

    /// The callback URL that carries `challenge` back to this daemon.
    pub fn gen_callback(&self, challenge: &str) -> (r: String)
        ensures
            r@ == callback_url_of(self@, challenge@),
    {
        let mut r = self.callback.clone();
        r.append("?challenge=");
        r.append(challenge);
        r
    }

    /// The login URL a caller is sent to for `challenge`.
    pub fn gen_auth_url(&self, challenge: &str) -> (r: String)
        ensures
            r@ == auth_url_of(self@, challenge@),
    {
        let service = url_encode(self.gen_callback(challenge).as_str());
        let mut r = self.endpoint.clone();
        r.append("/login?service=");
        r.append(service.as_str());
        r
    }

    /// The ticket-validation URL for `challenge` and `ticket`.
    pub fn gen_request_url(&self, challenge: &str, ticket: &str) -> (r: String)
        ensures
            r@ == request_url_of(self@, challenge@, ticket@),
    {
        let service = url_encode(self.gen_callback(challenge).as_str());
        let mut r = self.endpoint.clone();
        r.append("/p3/serviceValidate?service=");
        r.append(service.as_str());
        r.append("&format=json&ticket=");
        r.append(ticket);
        r
    }
}

/// The authentication section; absent when no identity provider is set up.
pub struct AuthConfig {
    cas: Option<CasConfig>,
}

impl View for AuthConfig {
    type V = Option<CasConfigView>;

    closed spec fn view(&self) -> Option<CasConfigView> {
        match self.cas {
            Some(c) => Some(c@),
            None => None,
        }
    }
}

impl AuthConfig {
    pub fn new(cas: Option<CasConfig>) -> (r: Self)
        ensures
            cas matches Some(cc) ==> r@ == Some(cc@),
            cas is None ==> r@ is None,
    {
        AuthConfig { cas }
    }

    /// The identity-provider section, if one is configured.
    pub fn cas(&self) -> (r: Option<&CasConfig>)
        ensures
            r matches Some(c) ==> self@ == Some(c@),
            r is None ==> self@ is None,
    {
        match &self.cas {
            Some(c) => Some(c),
            None => None,
        }
    }
}

/// The daemon's configuration.
pub struct DaemonConfig {
    server: DaemonServerConfig,
    auth: AuthConfig,
}

/// The abstract value of a [`DaemonConfig`].
pub struct DaemonConfigView {
    pub server: DaemonServerConfigView,
    pub auth: Option<CasConfigView>,
}

impl View for DaemonConfig {
    type V = DaemonConfigView;

    closed spec fn view(&self) -> DaemonConfigView {
        DaemonConfigView { server: self.server@, auth: self.auth@ }
    }
}

impl DaemonConfig {
    pub fn new(server: DaemonServerConfig, auth: AuthConfig) -> (r: Self)
        ensures
            r@ == (DaemonConfigView { server: server@, auth: auth@ }),
    {
        DaemonConfig { server, auth }
    }

    /// The listening half of the configuration.
    pub fn server(&self) -> (r: &DaemonServerConfig)
        ensures
            r@ == self@.server,
    {
        &self.server
    }

    /// The authentication half of the configuration.
    pub fn auth(&self) -> (r: &AuthConfig)
        ensures
            r@ == self@.auth,
    {
        &self.auth
    }
}

/// The runner's configuration.
pub struct RunnerConfig {
    controller: ControllerConfig,
}

impl View for RunnerConfig {
    type V = Seq<char>;

    closed spec fn view(&self) -> Seq<char> {
        self.controller@
    }
}

impl RunnerConfig {
    pub fn new(controller: ControllerConfig) -> (r: Self)
        ensures
            r@ == controller@,
    {
        RunnerConfig { controller }
    }

    /// Where the runner reaches its controller.
    pub fn controller(&self) -> (r: &ControllerConfig)
        ensures
            r@ == self@,
    {
        &self.controller
    }
}

} // verus!
