//! Runtime configuration, read from the environment at startup.

use vstd::prelude::*;
use vstd::string::*;

use crate::error::{joined, result_view, AppError, ErrorView};
use crate::http::optional_text;
use crate::text::{lemma_pieces_nonempty, pieces, same_text, split, trim, trimmed};

verus! {

/// Default base URL when `BRAVE_SEARCH_API_BASE_URL` is unset.
pub const DEFAULT_BRAVE_SEARCH_API_BASE_URL: &'static str = "https://api.search.brave.com";

/// What the environment says of one variable.
pub enum Variable {
    /// It is not set.
    Absent,
    /// It is set to something that is not Unicode.
    NotUnicode,
    /// It is set to this text.
    Value(String),
}

/// The mathematical value of a [`Variable`].
#[verifier::ext_equal]
pub enum VariableView {
    Absent,
    NotUnicode,
    Value(Seq<char>),
}

impl View for Variable {
    type V = VariableView;

    open spec fn view(&self) -> VariableView {
        match self {
            Variable::Absent => VariableView::Absent,
            Variable::NotUnicode => VariableView::NotUnicode,
            Variable::Value(text) => VariableView::Value(text@),
        }
    }
}

/// One variable and what the environment says of it.
pub struct Setting {
    pub name: String,
    pub variable: Variable,
}

/// The process environment, as far as it was read. A variable that is not listed is not
/// set.
pub struct Environment {
    pub settings: Vec<Setting>,
}

impl View for Environment {
    type V = Seq<(Seq<char>, VariableView)>;

    open spec fn view(&self) -> Seq<(Seq<char>, VariableView)> {
        Seq::new(
            self.settings@.len(),
            |i: int| (self.settings@[i].name@, self.settings@[i].variable@),
        )
    }
}

/// What an environment says of `name`.
pub open spec fn variable(env: Seq<(Seq<char>, VariableView)>, name: Seq<char>) -> VariableView
    decreases env.len(),
{
    if env.len() == 0 {
        VariableView::Absent
    } else if env[0].0 == name {
        env[0].1
    } else {
        variable(env.drop_first(), name)
    }
}

impl Environment {
    /// What the environment says of `name`.
    pub fn var(&self, name: &str) -> (found: &Variable)
        ensures
            found@ == variable(self@, name@),
    {
        let mut i: usize = 0;
        assert(self@.subrange(0, self@.len() as int) == self@);
        while i < self.settings.len()
            invariant
                i <= self.settings@.len() == self@.len(),
                variable(self@, name@) == variable(
                    self@.subrange(i as int, self@.len() as int),
                    name@,
                ),
            decreases self.settings@.len() - i,
        {
            let setting = &self.settings[i];
            assert(self@[i as int] == (setting.name@, setting.variable@));
            assert(self@.subrange(i as int, self@.len() as int).drop_first() == self@.subrange(
                i + 1,
                self@.len() as int,
            ));
            if same_text(&setting.name, name) {
                return &setting.variable;
            }
            i = i + 1;
        }
        &Variable::Absent
    }
}

/// Which payment rails the deployment turns on. This is the deployment-level toggle from
/// `ENABLED_RAILS`, not the rail that one request pays on.
#[derive(Debug, Clone, Copy, PartialEq, Eq, Structural)]
pub struct EnabledRails {
    pub x402: bool,
    pub mpp: bool,
}

/// What `Debug` writes for a text.
pub uninterp spec fn debug_form(text: Seq<char>) -> Seq<char>;

/// `str`'s `Debug`: the text in quotes, with what would not print escaped. Claims that the
/// result depends on the text alone.
#[verifier::external_body]
fn debug_text(text: &str) -> (out: String)
    ensures
        out@ == debug_form(text@),
{
    format!("{text:?}")
}

/// The rail names that an `ENABLED_RAILS` value lists.
pub open spec fn listed(value: Seq<char>) -> Seq<Seq<char>> {
    let tokens = pieces(trimmed(value), ',');
    Seq::new(tokens.len(), |i: int| trimmed(tokens[i]))
}

/// Whether `name` names a rail.
pub open spec fn is_rail(name: Seq<char>) -> bool {
    name == "x402"@ || name == "mpp"@
}

/// The first name that names no rail.
pub open spec fn first_unknown(names: Seq<Seq<char>>) -> Option<Seq<char>>
    decreases names.len(),
{
    if names.len() == 0 {
        None
    } else if !is_rail(names[0]) {
        Some(names[0])
    } else {
        first_unknown(names.drop_first())
    }
}

/// What an `ENABLED_RAILS` value means: a comma-separated list of rail names, each `x402`
/// or `mpp`. Anything else is refused, so a typo can never silently disable a rail.
pub open spec fn parsed_rails(value: Seq<char>) -> Result<EnabledRails, ErrorView> {
    if trimmed(value).len() == 0 {
        Err(
            ErrorView::InvalidConfig(
                "ENABLED_RAILS: empty; unset it to enable both rails, or list a subset of x402,mpp"@,
            ),
        )
    } else {
        match first_unknown(listed(value)) {
            Some(other) => Err(
                ErrorView::InvalidConfig(
                    "ENABLED_RAILS: unknown rail "@ + debug_form(other)
                        + ", expected a comma-separated subset of x402,mpp"@,
                ),
            ),
            None => Ok(
                EnabledRails {
                    x402: listed(value).contains("x402"@),
                    mpp: listed(value).contains("mpp"@),
                },
            ),
        }
    }
}

/// Which rails an environment turns on. Unset enables both rails.
pub open spec fn rails(env: Seq<(Seq<char>, VariableView)>) -> Result<EnabledRails, ErrorView> {
    match variable(env, "ENABLED_RAILS"@) {
        VariableView::Value(value) => parsed_rails(value),
        VariableView::Absent => Ok(EnabledRails { x402: true, mpp: true }),
        VariableView::NotUnicode => Err(
            ErrorView::InvalidConfig("ENABLED_RAILS: not valid Unicode"@),
        ),
    }
}

/// Parse an `ENABLED_RAILS` value.
pub fn parse_enabled_rails(value: &str) -> (parsed: Result<EnabledRails, AppError>)
    ensures
        result_view(parsed) == parsed_rails(value@),
{
    let whole = trim(value);
    if whole.as_str().is_empty() {
        return Err(
            AppError::InvalidConfig(
                "ENABLED_RAILS: empty; unset it to enable both rails, or list a subset of x402,mpp".to_owned(),
            ),
        );
    }
    let tokens = split(&whole, ',');
    let ghost names = listed(value@);
    let mut x402: bool = false;
    let mut mpp: bool = false;
    let mut i: usize = 0;
    assert(names.subrange(0, names.len() as int) == names);
    while i < tokens.len()
        invariant
            i <= tokens@.len() == names.len(),
            names == listed(value@),
            trimmed(value@).len() > 0,
            forall|k: int|
                0 <= k < tokens@.len() ==> trimmed((#[trigger] tokens@[k])@) == names[k],
            first_unknown(names) == first_unknown(names.subrange(i as int, names.len() as int)),
            x402 == names.subrange(0, i as int).contains("x402"@),
            mpp == names.subrange(0, i as int).contains("mpp"@),
        decreases tokens@.len() - i,
    {
        let token = trim(&tokens[i]);
        assert(token@ == names[i as int]);
        assert(names.subrange(i as int, names.len() as int).drop_first() == names.subrange(
            i + 1,
            names.len() as int,
        ));
        assert(names.subrange(0, i + 1) == names.subrange(0, i as int).push(token@));
        proof {
            reveal_strlit("x402");
            reveal_strlit("mpp");
            lemma_push_contains(names.subrange(0, i as int), token@, "x402"@);
            lemma_push_contains(names.subrange(0, i as int), token@, "mpp"@);
        }
        if same_text(&token, "x402") {
            x402 = true;
        } else if same_text(&token, "mpp") {
            mpp = true;
        } else {
            let mut message = joined("ENABLED_RAILS: unknown rail ", &debug_text(&token));
            message.append(", expected a comma-separated subset of x402,mpp");
            return Err(AppError::InvalidConfig(message));
        }
        i = i + 1;
    }
    assert(names.subrange(0, i as int) == names);
    Ok(EnabledRails { x402, mpp })
}

proof fn lemma_push_contains(names: Seq<Seq<char>>, last: Seq<char>, name: Seq<char>)
    ensures
        names.push(last).contains(name) == (names.contains(name) || last == name),
{
    if names.contains(name) {
        let k = choose|k: int| 0 <= k < names.len() && names[k] == name;
        assert(names.push(last)[k] == name);
    }
    if last == name {
        assert(names.push(last)[names.len() as int] == name);
    }
}

/// Read `ENABLED_RAILS`. Unset enables both rails.
pub fn enabled_rails(env: &Environment) -> (read: Result<EnabledRails, AppError>)
    ensures
        result_view(read) == rails(env@),
{
    match env.var("ENABLED_RAILS") {
        Variable::Value(value) => parse_enabled_rails(value),
        Variable::Absent => Ok(EnabledRails { x402: true, mpp: true }),
        Variable::NotUnicode => Err(
            AppError::InvalidConfig("ENABLED_RAILS: not valid Unicode".to_owned()),
        ),
    }
}

/// What reading a required variable gives: absent and not Unicode are told apart.
pub open spec fn required(env: Seq<(Seq<char>, VariableView)>, name: Seq<char>) -> Result<
    Seq<char>,
    ErrorView,
> {
    match variable(env, name) {
        VariableView::Value(text) => Ok(text),
        VariableView::Absent => Err(ErrorView::MissingConfig(name)),
        VariableView::NotUnicode => Err(
            ErrorView::InvalidConfig(name + ": not valid Unicode"@),
        ),
    }
}

/// Read a required environment variable, distinguishing the two ways it can fail: absent
/// is [`AppError::MissingConfig`], present but non-Unicode is [`AppError::InvalidConfig`].
pub fn require_var(env: &Environment, name: &'static str) -> (read: Result<String, AppError>)
    ensures
        match read {
            Ok(text) => required(env@, name@) == Ok::<Seq<char>, ErrorView>(text@),
            Err(err) => required(env@, name@) == Err::<Seq<char>, ErrorView>(err@),
        },
{
    match env.var(name) {
        Variable::Value(text) => Ok(text.clone()),
        Variable::Absent => Err(AppError::MissingConfig(name)),
        Variable::NotUnicode => Err(AppError::InvalidConfig(joined(name, ": not valid Unicode"))),
    }
}

/// Settings for the x402 rail.
#[derive(Debug)]
pub struct X402Config {
    /// Base URL of the x402 facilitator that verifies and settles payments.
    /// Docs: <https://docs.x402.org/core-concepts/facilitator>
    pub facilitator_url: String,
}

/// Settings for the MPP rail.
#[derive(Debug)]
pub struct MppConfig {
    /// Tempo RPC endpoint the MPP rail verifies and settles payments against. The chain is
    /// discovered by querying the endpoint at startup. Testnet chains require
    /// `ALLOW_TESTNET`.
    pub rpc_url: String,
    /// Secret that marks MPP challenges as ours. Challenge ids are HMACs under this key,
    /// so only a credential answering a challenge this service issued verifies.
    pub secret_key: String,
}

/// Runtime configuration, read once from the environment at startup.
#[derive(Debug)]
pub struct Config {
    /// Brave Search API key, forwarded upstream as `X-Subscription-Token`.
    pub brave_search_api_key: String,
    /// Base URL of the Brave Search API. Overridable so tests can point at a mock server;
    /// defaults to the public endpoint.
    pub brave_search_api_base_url: String,
    /// Settings for the x402 rail. `None` when `ENABLED_RAILS` leaves the rail out.
    pub x402: Option<X402Config>,
    /// Settings for the MPP rail. `None` when `ENABLED_RAILS` leaves the rail out.
    pub mpp: Option<MppConfig>,
    /// S3 bucket holding the restricted-address list. `None` turns screening off, the
    /// default for local and testnet runs.
    pub restricted_address_s3_bucket: Option<String>,
    /// Accept testnet networks. Off in production, so faucet-money rails never pay for
    /// real API traffic there.
    pub allow_testnet: bool,
}

/// The mathematical value of a [`MppConfig`].
#[verifier::ext_equal]
pub struct MppConfigView {
    pub rpc_url: Seq<char>,
    pub secret_key: Seq<char>,
}

/// The mathematical value of a [`Config`]; of the x402 settings, the facilitator's URL.
#[verifier::ext_equal]
pub struct ConfigView {
    pub brave_search_api_key: Seq<char>,
    pub brave_search_api_base_url: Seq<char>,
    pub x402: Option<Seq<char>>,
    pub mpp: Option<MppConfigView>,
    pub restricted_address_s3_bucket: Option<Seq<char>>,
    pub allow_testnet: bool,
}

impl View for MppConfig {
    type V = MppConfigView;

    open spec fn view(&self) -> MppConfigView {
        MppConfigView { rpc_url: self.rpc_url@, secret_key: self.secret_key@ }
    }
}

impl View for Config {
    type V = ConfigView;

    open spec fn view(&self) -> ConfigView {
        ConfigView {
            brave_search_api_key: self.brave_search_api_key@,
            brave_search_api_base_url: self.brave_search_api_base_url@,
            x402: match self.x402 {
                Some(rail) => Some(rail.facilitator_url@),
                None => None,
            },
            mpp: match self.mpp {
                Some(rail) => Some(rail@),
                None => None,
            },
            restricted_address_s3_bucket: optional_text(self.restricted_address_s3_bucket),
            allow_testnet: self.allow_testnet,
        }
    }
}

/// The x402 settings an environment gives, where the rail is on.
pub open spec fn x402_settings(env: Seq<(Seq<char>, VariableView)>, on: bool) -> Result<
    Option<Seq<char>>,
    ErrorView,
> {
    if !on {
        Ok(None)
    } else {
        match required(env, "X402_FACILITATOR_URL"@) {
            Ok(url) => Ok(Some(url)),
            Err(err) => Err(err),
        }
    }
}

/// The MPP settings an environment gives, where the rail is on.
pub open spec fn mpp_settings(env: Seq<(Seq<char>, VariableView)>, on: bool) -> Result<
    Option<MppConfigView>,
    ErrorView,
> {
    if !on {
        Ok(None)
    } else {
        match required(env, "MPP_RPC_URL"@) {
            Err(err) => Err(err),
            Ok(rpc_url) => match required(env, "MPP_SECRET_KEY"@) {
                Err(err) => Err(err),
                Ok(secret_key) => Ok(Some(MppConfigView { rpc_url, secret_key })),
            },
        }
    }
}

/// The configuration an environment gives. Of several faults the first tells: the API key,
/// then `ENABLED_RAILS`, then the x402 rail's variable, then the MPP rail's.
pub open spec fn configured(env: Seq<(Seq<char>, VariableView)>) -> Result<
    ConfigView,
    ErrorView,
> {
    match required(env, "BRAVE_SEARCH_API_KEY"@) {
        Err(err) => Err(err),
        Ok(brave_search_api_key) => match rails(env) {
            Err(err) => Err(err),
            Ok(on) => match x402_settings(env, on.x402) {
                Err(err) => Err(err),
                Ok(x402) => match mpp_settings(env, on.mpp) {
                    Err(err) => Err(err),
                    Ok(mpp) => Ok(
                        ConfigView {
                            brave_search_api_key,
                            brave_search_api_base_url: match variable(
                                env,
                                "BRAVE_SEARCH_API_BASE_URL"@,
                            ) {
                                VariableView::Value(url) => url,
                                _ => DEFAULT_BRAVE_SEARCH_API_BASE_URL@,
                            },
                            x402,
                            mpp,
                            restricted_address_s3_bucket: match variable(
                                env,
                                "RESTRICTED_ADDRESS_S3_BUCKET"@,
                            ) {
                                VariableView::Value(bucket) => if bucket.len() > 0 {
                                    Some(bucket)
                                } else {
                                    None
                                },
                                _ => None,
                            },
                            allow_testnet: variable(env, "ALLOW_TESTNET"@) == VariableView::Value(
                                "true"@,
                            ),
                        },
                    ),
                },
            },
        },
    }
}

impl Config {
    /// The variables [`Config::from_env`] may read.
    pub fn variables() -> (names: Vec<&'static str>)
        ensures
            names@.len() == 8,
            names@[0]@ == "BRAVE_SEARCH_API_KEY"@,
            names@[1]@ == "BRAVE_SEARCH_API_BASE_URL"@,
            names@[2]@ == "ENABLED_RAILS"@,
            names@[3]@ == "X402_FACILITATOR_URL"@,
            names@[4]@ == "MPP_RPC_URL"@,
            names@[5]@ == "MPP_SECRET_KEY"@,
            names@[6]@ == "RESTRICTED_ADDRESS_S3_BUCKET"@,
            names@[7]@ == "ALLOW_TESTNET"@,
    {
        vec![
            "BRAVE_SEARCH_API_KEY",
            "BRAVE_SEARCH_API_BASE_URL",
            "ENABLED_RAILS",
            "X402_FACILITATOR_URL",
            "MPP_RPC_URL",
            "MPP_SECRET_KEY",
            "RESTRICTED_ADDRESS_S3_BUCKET",
            "ALLOW_TESTNET",
        ]
    }

    /// Read configuration from the environment:
    ///
    /// * `BRAVE_SEARCH_API_KEY` (required): forwarded upstream as `X-Subscription-Token`.
    /// * `ENABLED_RAILS` (optional): comma-separated subset of `x402,mpp` naming the rails
    ///   to serve; unset enables both. A disabled rail's variables are not read.
    /// * `X402_FACILITATOR_URL` (required when the x402 rail is enabled): base URL of the
    ///   x402 facilitator.
    /// * `MPP_RPC_URL` (required when the MPP rail is enabled): Tempo RPC endpoint for the
    ///   MPP rail.
    /// * `MPP_SECRET_KEY` (required when the MPP rail is enabled): HMAC secret binding MPP
    ///   challenges to this service.
    /// * `BRAVE_SEARCH_API_BASE_URL` (optional): defaults to the public Brave Search API
    ///   endpoint.
    /// * `RESTRICTED_ADDRESS_S3_BUCKET` (optional): unset or empty turns screening off.
    /// * `ALLOW_TESTNET` (optional): `true` permits testnet networks, with each rail
    ///   deciding what that admits.
    ///
    /// An absent required variable yields [`AppError::MissingConfig`]; a present but
    /// non-Unicode one yields [`AppError::InvalidConfig`].
    pub fn from_env(env: &Environment) -> (read: Result<Config, AppError>)
        ensures
            match read {
                Ok(config) => configured(env@) == Ok::<ConfigView, ErrorView>(config@),
                Err(err) => configured(env@) == Err::<ConfigView, ErrorView>(err@),
            },
    {
        let brave_search_api_key = require_var(env, "BRAVE_SEARCH_API_KEY")?;
        let brave_search_api_base_url = match env.var("BRAVE_SEARCH_API_BASE_URL") {
            Variable::Value(url) => url.clone(),
            _ => DEFAULT_BRAVE_SEARCH_API_BASE_URL.to_owned(),
        };
        let rails = enabled_rails(env)?;
        let x402 = if rails.x402 {
            Some(X402Config { facilitator_url: require_var(env, "X402_FACILITATOR_URL")? })
        } else {
            None
        };
        let mpp = if rails.mpp {
            Some(
                MppConfig {
                    rpc_url: require_var(env, "MPP_RPC_URL")?,
                    secret_key: require_var(env, "MPP_SECRET_KEY")?,
                },
            )
        } else {
            None
        };
        let restricted_address_s3_bucket = match env.var("RESTRICTED_ADDRESS_S3_BUCKET") {
            Variable::Value(bucket) => if bucket.as_str().is_empty() {
                None
            } else {
                Some(bucket.clone())
            },
            _ => None,
        };
        let allow_testnet = match env.var("ALLOW_TESTNET") {
            Variable::Value(value) => same_text(value, "true"),
            _ => false,
        };
        Ok(
            Config {
                brave_search_api_key,
                brave_search_api_base_url,
                x402,
                mpp,
                restricted_address_s3_bucket,
                allow_testnet,
            },
        )
    }

    /// A config whose every endpoint is parseable but unreachable; each test overrides the
    /// fields it exercises.
    pub fn for_tests() -> (config: Config)
        ensures
            config@ == (ConfigView {
                brave_search_api_key: "secret-key"@,
                brave_search_api_base_url: "http://upstream.invalid"@,
                x402: Some("http://facilitator.invalid"@),
                mpp: Some(
                    MppConfigView { rpc_url: "http://tempo.invalid"@, secret_key: "test-secret"@ },
                ),
                restricted_address_s3_bucket: None,
                allow_testnet: true,
            }),
    {
        Config {
            brave_search_api_key: "secret-key".to_owned(),
            brave_search_api_base_url: "http://upstream.invalid".to_owned(),
            x402: Some(X402Config { facilitator_url: "http://facilitator.invalid".to_owned() }),
            mpp: Some(
                MppConfig {
                    rpc_url: "http://tempo.invalid".to_owned(),
                    secret_key: "test-secret".to_owned(),
                },
            ),
            restricted_address_s3_bucket: None,
            allow_testnet: true,
        }
    }

    /// The x402 rail of a config that enables it.
    pub fn x402_rail(&self) -> (rail: &X402Config)
        requires
            self.x402 is Some,
        ensures
            Some(*rail) == self.x402,
    {
        self.x402.as_ref().unwrap()
    }

    /// The MPP rail of a config that enables it.
    pub fn mpp_rail(&self) -> (rail: &MppConfig)
        requires
            self.mpp is Some,
        ensures
            Some(*rail) == self.mpp,
    {
        self.mpp.as_ref().unwrap()
    }

    /// The same config with the x402 facilitator pointed at `url`.
    pub fn with_facilitator_url(self, url: String) -> (config: Config)
        ensures
            config@ == (ConfigView { x402: Some(url@), ..self@ }),
    {
        Config { x402: Some(X402Config { facilitator_url: url }), ..self }
    }

    /// The same config with the MPP rail pointed at `url`.
    pub fn with_mpp_rpc_url(self, url: String) -> (config: Config)
        requires
            self.mpp is Some,
        ensures
            config@ == (ConfigView {
                mpp: Some(MppConfigView { rpc_url: url@, ..self@.mpp->0 }),
                ..self@
            }),
    {
        let mut config = self;
        match config.mpp {
            Some(rail) => {
                config.mpp = Some(MppConfig { rpc_url: url, secret_key: rail.secret_key });
            },
            None => {},
        }
        config
    }

    /// The same config with the x402 rail disabled.
    pub fn without_x402(self) -> (config: Config)
        ensures
            config@ == (ConfigView { x402: None, ..self@ }),
    {
        Config { x402: None, ..self }
    }

    /// The same config with the MPP rail disabled.
    pub fn without_mpp(self) -> (config: Config)
        ensures
            config@ == (ConfigView { mpp: None, ..self@ }),
    {
        Config { mpp: None, ..self }
    }
}

/// A rail that `ENABLED_RAILS` leaves out has its variables not read: whatever they hold,
/// the configuration is the same.
pub proof fn disabled_rail_is_not_read(
    env: Seq<(Seq<char>, VariableView)>,
    other: Seq<(Seq<char>, VariableView)>,
)
    requires
        rails(env) is Ok,
        forall|name: Seq<char>|
            !(!rails(env)->Ok_0.x402 && name == "X402_FACILITATOR_URL"@) && !(
            !rails(env)->Ok_0.mpp && (name == "MPP_RPC_URL"@ || name == "MPP_SECRET_KEY"@))
                ==> #[trigger] variable(env, name) == variable(other, name),
    ensures
        configured(env) == configured(other),
{
    reveal_strlit("BRAVE_SEARCH_API_KEY");
    reveal_strlit("BRAVE_SEARCH_API_BASE_URL");
    reveal_strlit("ENABLED_RAILS");
    reveal_strlit("X402_FACILITATOR_URL");
    reveal_strlit("MPP_RPC_URL");
    reveal_strlit("MPP_SECRET_KEY");
    reveal_strlit("RESTRICTED_ADDRESS_S3_BUCKET");
    reveal_strlit("ALLOW_TESTNET");
    assert("ENABLED_RAILS"@.len() == 13);
    assert("MPP_RPC_URL"@.len() == 11);
    assert("MPP_SECRET_KEY"@.len() == 14);
    assert("X402_FACILITATOR_URL"@.len() == 20);
    assert("BRAVE_SEARCH_API_KEY"@.len() == 20);
    assert("BRAVE_SEARCH_API_KEY"@[0] == 'B' && "X402_FACILITATOR_URL"@[0] == 'X');
    assert(variable(env, "ENABLED_RAILS"@) == variable(other, "ENABLED_RAILS"@));
    assert(variable(env, "BRAVE_SEARCH_API_KEY"@) == variable(other, "BRAVE_SEARCH_API_KEY"@));
    assert(variable(env, "BRAVE_SEARCH_API_BASE_URL"@) == variable(
        other,
        "BRAVE_SEARCH_API_BASE_URL"@,
    ));
    assert(variable(env, "RESTRICTED_ADDRESS_S3_BUCKET"@) == variable(
        other,
        "RESTRICTED_ADDRESS_S3_BUCKET"@,
    ));
    assert("ALLOW_TESTNET"@[0] == 'A');
    assert("MPP_SECRET_KEY"@[0] == 'M');
    assert(variable(env, "ALLOW_TESTNET"@) == variable(other, "ALLOW_TESTNET"@));
}

/// A configuration that was read serves a rail exactly where `ENABLED_RAILS` turns it on,
/// and at least one rail is on.
pub proof fn configured_serves_the_enabled_rails(env: Seq<(Seq<char>, VariableView)>)
    requires
        configured(env) is Ok,
    ensures
        rails(env) is Ok,
        configured(env)->Ok_0.x402 is Some == rails(env)->Ok_0.x402,
        configured(env)->Ok_0.mpp is Some == rails(env)->Ok_0.mpp,
        rails(env)->Ok_0.x402 || rails(env)->Ok_0.mpp,
{
    if let VariableView::Value(value) = variable(env, "ENABLED_RAILS"@) {
        lemma_pieces_nonempty(trimmed(value), ',');
        assert(is_rail(listed(value)[0]));
        assert(listed(value).contains(listed(value)[0]));
    }
}

} // verus!
