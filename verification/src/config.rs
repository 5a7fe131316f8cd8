use crate::error::Error;
use crate::hex::key_bytes;
use crate::hex::valid_hex_key;
use crate::hex::Pubkey;
use crate::host::host_parse;
use crate::host::parse_hostname;
use crate::host::Hostname;
use crate::level::level_of_name;
use crate::level::resolve_level;
use crate::level::resolved_level;
use crate::level::LogLevel;
use vstd::prelude::*;

verus! {

/// The loosely-typed configuration surface an external loader fills in
/// (from a file, the environment, or the documented defaults). Every
/// field is independently defaulted, so the record is always
/// constructible without external input.
#[derive(Clone, Debug)]
pub struct FriendlyConfig {
    pub data_directory: String,
    pub ip_address: String,
    pub port: u16,
    pub hostname: String,
    pub use_tls: bool,
    pub certchain_pem_path: String,
    pub key_pem_path: String,
    pub name: Option<String>,
    pub description: Option<String>,
    pub contact: Option<String>,
    pub public_key_hex: Option<String>,
    pub user_hex_keys: Vec<String>,
    pub verify_events: bool,
    pub allow_scraping: bool,
    pub max_subscriptions: usize,
    pub serve_ephemeral: bool,
    pub serve_relay_lists: bool,
    pub server_log_level: String,
    pub library_log_level: String,
    pub client_log_level: String,
}

/// The mathematical model of a friendly configuration: each string as
/// its character sequence.
#[verifier::ext_equal]
pub struct FriendlyConfigView {
    pub data_directory: Seq<char>,
    pub ip_address: Seq<char>,
    pub port: u16,
    pub hostname: Seq<char>,
    pub use_tls: bool,
    pub certchain_pem_path: Seq<char>,
    pub key_pem_path: Seq<char>,
    pub name: Option<Seq<char>>,
    pub description: Option<Seq<char>>,
    pub contact: Option<Seq<char>>,
    pub public_key_hex: Option<Seq<char>>,
    pub user_hex_keys: Seq<Seq<char>>,
    pub verify_events: bool,
    pub allow_scraping: bool,
    pub max_subscriptions: usize,
    pub serve_ephemeral: bool,
    pub serve_relay_lists: bool,
    pub server_log_level: Seq<char>,
    pub library_log_level: Seq<char>,
    pub client_log_level: Seq<char>,
}

impl View for FriendlyConfig {
    type V = FriendlyConfigView;

    open spec fn view(&self) -> FriendlyConfigView {
        FriendlyConfigView {
            data_directory: self.data_directory@,
            ip_address: self.ip_address@,
            port: self.port,
            hostname: self.hostname@,
            use_tls: self.use_tls,
            certchain_pem_path: self.certchain_pem_path@,
            key_pem_path: self.key_pem_path@,
            name: self.name.deep_view(),
            description: self.description.deep_view(),
            contact: self.contact.deep_view(),
            public_key_hex: self.public_key_hex.deep_view(),
            user_hex_keys: self.user_hex_keys.deep_view(),
            verify_events: self.verify_events,
            allow_scraping: self.allow_scraping,
            max_subscriptions: self.max_subscriptions,
            serve_ephemeral: self.serve_ephemeral,
            serve_relay_lists: self.serve_relay_lists,
            server_log_level: self.server_log_level@,
            library_log_level: self.library_log_level@,
            client_log_level: self.client_log_level@,
        }
    }
}

/// The strictly-typed configuration the relay runtime trusts: the
/// hostname is a parsed host, the keys are decoded 32-byte values, and
/// the log levels are enumerated severities. It is constructed once, at
/// startup, by `FriendlyConfig::into_config`, and never mutated.
#[derive(Clone, Debug)]
pub struct Config {
    pub data_directory: String,
    pub ip_address: String,
    pub port: u16,
    pub hostname: Hostname,
    pub use_tls: bool,
    pub certchain_pem_path: String,
    pub key_pem_path: String,
    pub name: Option<String>,
    pub description: Option<String>,
    pub contact: Option<String>,
    pub public_key: Option<Pubkey>,
    pub user_keys: Vec<Pubkey>,
    pub user_hex_keys: Vec<String>,
    pub verify_events: bool,
    pub allow_scraping: bool,
    pub max_subscriptions: usize,
    pub serve_ephemeral: bool,
    pub serve_relay_lists: bool,
    pub server_log_level: LogLevel,
    pub library_log_level: LogLevel,
    pub client_log_level: LogLevel,
}

/// The mathematical model of a validated configuration.
#[verifier::ext_equal]
pub struct ConfigView {
    pub data_directory: Seq<char>,
    pub ip_address: Seq<char>,
    pub port: u16,
    pub hostname: Seq<char>,
    pub use_tls: bool,
    pub certchain_pem_path: Seq<char>,
    pub key_pem_path: Seq<char>,
    pub name: Option<Seq<char>>,
    pub description: Option<Seq<char>>,
    pub contact: Option<Seq<char>>,
    pub public_key: Option<Seq<u8>>,
    pub user_keys: Seq<Seq<u8>>,
    pub user_hex_keys: Seq<Seq<char>>,
    pub verify_events: bool,
    pub allow_scraping: bool,
    pub max_subscriptions: usize,
    pub serve_ephemeral: bool,
    pub serve_relay_lists: bool,
    pub server_log_level: LogLevel,
    pub library_log_level: LogLevel,
    pub client_log_level: LogLevel,
}

impl View for Config {
    type V = ConfigView;

    open spec fn view(&self) -> ConfigView {
        ConfigView {
            data_directory: self.data_directory@,
            ip_address: self.ip_address@,
            port: self.port,
            hostname: self.hostname@,
            use_tls: self.use_tls,
            certchain_pem_path: self.certchain_pem_path@,
            key_pem_path: self.key_pem_path@,
            name: self.name.deep_view(),
            description: self.description.deep_view(),
            contact: self.contact.deep_view(),
            public_key: self.public_key.deep_view(),
            user_keys: self.user_keys.deep_view(),
            user_hex_keys: self.user_hex_keys.deep_view(),
            verify_events: self.verify_events,
            allow_scraping: self.allow_scraping,
            max_subscriptions: self.max_subscriptions,
            serve_ephemeral: self.serve_ephemeral,
            serve_relay_lists: self.serve_relay_lists,
            server_log_level: self.server_log_level,
            library_log_level: self.library_log_level,
            client_log_level: self.client_log_level,
        }
    }
}

impl Config {
    /// Well-formedness: the hostname came out of the host parser and
    /// every key holds exactly 32 bytes. The conversion establishes
    /// this and no field is mutated afterwards.
    pub open spec fn wf(&self) -> bool {
        &&& self.hostname.wf()
        &&& match self.public_key {
            Some(k) => k.wf(),
            None => true,
        }
        &&& forall|i: int| 0 <= i < self.user_keys@.len() ==> (#[trigger] self.user_keys@[i]).wf()
    }
}

/// Every entry of a user key allow-list is a well-formed hex key.
pub open spec fn all_user_keys_valid(keys: Seq<Seq<char>>) -> bool {
    forall|i: int| 0 <= i < keys.len() ==> valid_hex_key(#[trigger] keys[i])
}

/// The whole validation policy as one total function, the reference for
/// `FriendlyConfig::into_config`. The operator key is checked first,
/// then the user key allow-list in input order, then the hostname; the
/// first failure decides the error. Log levels never fail: an
/// unrecognized name falls back to its scope's default severity
/// (server Error, library Warn, client Info).
pub open spec fn spec_into_config(f: FriendlyConfigView) -> Result<ConfigView, Error> {
    if f.public_key_hex is Some && !valid_hex_key(f.public_key_hex.unwrap()) {
        Err(Error::InvalidPublicKey)
    } else if !all_user_keys_valid(f.user_hex_keys) {
        Err(Error::InvalidPublicKey)
    } else if host_parse(f.hostname) is None {
        Err(Error::InvalidHostname)
    } else {
        Ok(
            ConfigView {
                data_directory: f.data_directory,
                ip_address: f.ip_address,
                port: f.port,
                hostname: host_parse(f.hostname).unwrap(),
                use_tls: f.use_tls,
                certchain_pem_path: f.certchain_pem_path,
                key_pem_path: f.key_pem_path,
                name: f.name,
                description: f.description,
                contact: f.contact,
                public_key: match f.public_key_hex {
                    Some(h) => Some(key_bytes(h)),
                    None => None,
                },
                user_keys: f.user_hex_keys.map_values(|h: Seq<char>| key_bytes(h)),
                user_hex_keys: f.user_hex_keys,
                verify_events: f.verify_events,
                allow_scraping: f.allow_scraping,
                max_subscriptions: f.max_subscriptions,
                serve_ephemeral: f.serve_ephemeral,
                serve_relay_lists: f.serve_relay_lists,
                server_log_level: resolved_level(f.server_log_level, LogLevel::Error),
                library_log_level: resolved_level(f.library_log_level, LogLevel::Warn),
                client_log_level: resolved_level(f.client_log_level, LogLevel::Info),
            },
        )
    }
}

/// The documented defaults: scratch data directory, loopback bind
/// address on port 80, hostname "localhost", TLS off with conventional
/// certificate paths, no identity, an empty allow-list, and Info /
/// Warn / Error logging for the server, library and client scopes.
pub open spec fn spec_default() -> FriendlyConfigView {
    FriendlyConfigView {
        data_directory: "/tmp"@,
        ip_address: "127.0.0.1"@,
        port: 80,
        hostname: "localhost"@,
        use_tls: false,
        certchain_pem_path: "./tls/fullchain.pem"@,
        key_pem_path: "./tls/privkey.pem"@,
        name: None,
        description: None,
        contact: None,
        public_key_hex: None,
        user_hex_keys: Seq::empty(),
        verify_events: true,
        allow_scraping: false,
        max_subscriptions: 32,
        serve_ephemeral: true,
        serve_relay_lists: true,
        server_log_level: "Info"@,
        library_log_level: "Warn"@,
        client_log_level: "Error"@,
    }
}

impl Default for FriendlyConfig {
    /// Always succeeds and yields exactly the documented defaults.
    fn default() -> (c: FriendlyConfig)
        ensures
            c@ == spec_default(),
    {
        let c = FriendlyConfig {
            data_directory: "/tmp".to_owned(),
            ip_address: "127.0.0.1".to_owned(),
            port: 80,
            hostname: "localhost".to_owned(),
            use_tls: false,
            certchain_pem_path: "./tls/fullchain.pem".to_owned(),
            key_pem_path: "./tls/privkey.pem".to_owned(),
            name: None,
            description: None,
            contact: None,
            public_key_hex: None,
            user_hex_keys: Vec::new(),
            verify_events: true,
            allow_scraping: false,
            max_subscriptions: 32,
            serve_ephemeral: true,
            serve_relay_lists: true,
            server_log_level: "Info".to_owned(),
            library_log_level: "Warn".to_owned(),
            client_log_level: "Error".to_owned(),
        };
        proof {
            assert(c@ =~~= spec_default());
        }
        c
    }
}

impl FriendlyConfig {
    /// The single authoritative validation gate between the two
    /// representations. It returns exactly what `spec_into_config`
    /// prescribes: fail-fast on a malformed operator or user key
    /// (`InvalidPublicKey`) or hostname (`InvalidHostname`), silent
    /// per-scope fallback for the log levels, every other field copied
    /// through unchanged.
    pub fn into_config(self) -> (r: Result<Config, Error>)
        ensures
            r is Ok <==> spec_into_config(self@) is Ok,
            r is Ok ==> r.unwrap()@ == spec_into_config(self@).unwrap() && r.unwrap().wf(),
            r is Err ==> spec_into_config(self@) is Err && r.unwrap_err() == spec_into_config(
                self@,
            )->Err_0,
    {
        let FriendlyConfig {
            data_directory,
            ip_address,
            port,
            hostname,
            use_tls,
            certchain_pem_path,
            key_pem_path,
            name,
            description,
            contact,
            public_key_hex,
            user_hex_keys,
            verify_events,
            allow_scraping,
            max_subscriptions,
            serve_ephemeral,
            serve_relay_lists,
            server_log_level,
            library_log_level,
            client_log_level,
        } = self;

        let mut public_key: Option<Pubkey> = None;
        if let Some(pkh) = &public_key_hex {
            match Pubkey::read_hex(pkh.as_str()) {
                Ok(k) => public_key = Some(k),
                Err(e) => {
                    return Err(e);
                },
            }
        }

        let mut user_keys: Vec<Pubkey> = Vec::new();
        let mut i: usize = 0;
        while i < user_hex_keys.len()
            invariant
                0 <= i <= user_hex_keys@.len(),
                user_keys@.len() == i,
                user_hex_keys.deep_view() == self@.user_hex_keys,
                self@.public_key_hex is Some ==> valid_hex_key(self@.public_key_hex.unwrap()),
                forall|j: int| 0 <= j < i ==> valid_hex_key(#[trigger] user_hex_keys.deep_view()[j]),
                forall|j: int|
                    0 <= j < i ==> (#[trigger] user_keys@[j])@ == key_bytes(
                        user_hex_keys.deep_view()[j],
                    ) && user_keys@[j].wf(),
            decreases user_hex_keys@.len() - i,
        {
            match Pubkey::read_hex(user_hex_keys[i].as_str()) {
                Ok(k) => user_keys.push(k),
                Err(e) => {
                    proof {
                        assert(!valid_hex_key(self@.user_hex_keys[i as int]));
                        assert(!all_user_keys_valid(self@.user_hex_keys));
                    }
                    return Err(e);
                },
            }
            i += 1;
        }

        let hostname = match parse_hostname(hostname.as_str()) {
            Ok(h) => h,
            Err(e) => {
                return Err(e);
            },
        };

        let server_log_level = resolve_level(server_log_level.as_str(), LogLevel::Error);
        let library_log_level = resolve_level(library_log_level.as_str(), LogLevel::Warn);
        let client_log_level = resolve_level(client_log_level.as_str(), LogLevel::Info);

        let c = Config {
            data_directory,
            ip_address,
            port,
            hostname,
            use_tls,
            certchain_pem_path,
            key_pem_path,
            name,
            description,
            contact,
            public_key,
            user_keys,
            user_hex_keys,
            verify_events,
            allow_scraping,
            max_subscriptions,
            serve_ephemeral,
            serve_relay_lists,
            server_log_level,
            library_log_level,
            client_log_level,
        };
        proof {
            assert(c@ =~~= spec_into_config(self@).unwrap());
        }
        Ok(c)
    }
}

/// Builds the validated configuration the documented defaults describe.
/// Default validity: converting the default friendly configuration
/// always succeeds, and — the conversion being a function of the input
/// record alone — deterministically so.
pub fn default_config() -> (r: Config)
    ensures
        spec_into_config(spec_default()) is Ok,
        r@ == spec_into_config(spec_default()).unwrap(),
        r.wf(),
{
    let f = FriendlyConfig::default();
    // The default hostname always parses, which rules the hostname
    // error out of the conversion below; the default record has no
    // operator key and no user keys, so no key error is possible.
    let _ok = parse_hostname("localhost");
    proof {
        assert(all_user_keys_valid(spec_default().user_hex_keys));
        assert(spec_into_config(spec_default()) is Ok);
    }
    match f.into_config() {
        Ok(c) => c,
        Err(_) => vstd::pervasive::unreached(),
    }
}

/// Default validity, determinism: two separately constructed default
/// records convert to the same validated configuration.
pub proof fn lemma_default_deterministic(a: FriendlyConfig, b: FriendlyConfig)
    requires
        a@ == spec_default(),
        b@ == spec_default(),
    ensures
        spec_into_config(a@) == spec_into_config(b@),
{
}

/// Operator key fail-fast: a malformed optional operator key fails the
/// whole conversion with `InvalidPublicKey`; no partial validated
/// configuration is produced.
pub proof fn lemma_operator_key_fail_fast(f: FriendlyConfigView)
    requires
        f.public_key_hex is Some,
        !valid_hex_key(f.public_key_hex.unwrap()),
    ensures
        spec_into_config(f) == Err::<ConfigView, Error>(Error::InvalidPublicKey),
{
}

/// User key list fail-fast: one malformed entry anywhere in the
/// allow-list fails the whole conversion with `InvalidPublicKey`; no
/// partial validated configuration is produced.
pub proof fn lemma_user_key_fail_fast(f: FriendlyConfigView, i: int)
    requires
        0 <= i < f.user_hex_keys.len(),
        !valid_hex_key(f.user_hex_keys[i]),
    ensures
        spec_into_config(f) == Err::<ConfigView, Error>(Error::InvalidPublicKey),
{
    assert(!all_user_keys_valid(f.user_hex_keys));
}

/// User key list ordering: a successful conversion decodes one key per
/// allow-list entry, in input order, and retains the hex strings
/// positionally unchanged.
pub proof fn lemma_user_key_order(f: FriendlyConfigView)
    requires
        spec_into_config(f) is Ok,
    ensures
        spec_into_config(f).unwrap().user_keys.len() == f.user_hex_keys.len(),
        forall|i: int|
            0 <= i < f.user_hex_keys.len() ==> spec_into_config(f).unwrap().user_keys[i]
                == key_bytes(#[trigger] f.user_hex_keys[i]),
        spec_into_config(f).unwrap().user_hex_keys == f.user_hex_keys,
{
}

/// Log levels never decide success: two friendly configurations that
/// differ only in their three log-level names convert with the same
/// outcome and the same error, if any.
pub proof fn lemma_log_levels_never_fail(f: FriendlyConfigView, g: FriendlyConfigView)
    requires
        g == (FriendlyConfigView {
            server_log_level: g.server_log_level,
            library_log_level: g.library_log_level,
            client_log_level: g.client_log_level,
            ..f
        }),
    ensures
        spec_into_config(f) is Ok <==> spec_into_config(g) is Ok,
        spec_into_config(f) is Err ==> spec_into_config(f)->Err_0 == spec_into_config(
            g,
        )->Err_0,
{
}

/// Log-level fallback: in a successful conversion each recognized
/// level name resolves to its exact severity, and each unrecognized
/// one silently falls back to its scope's default — server Error,
/// library Warn, client Info.
pub proof fn lemma_log_level_fallback(f: FriendlyConfigView)
    requires
        spec_into_config(f) is Ok,
    ensures
        level_of_name(f.server_log_level) is Some ==> spec_into_config(f).unwrap().server_log_level
            == level_of_name(f.server_log_level).unwrap(),
        level_of_name(f.server_log_level) is None ==> spec_into_config(f).unwrap().server_log_level
            == LogLevel::Error,
        level_of_name(f.library_log_level) is Some ==> spec_into_config(
            f,
        ).unwrap().library_log_level == level_of_name(f.library_log_level).unwrap(),
        level_of_name(f.library_log_level) is None ==> spec_into_config(
            f,
        ).unwrap().library_log_level == LogLevel::Warn,
        level_of_name(f.client_log_level) is Some ==> spec_into_config(f).unwrap().client_log_level
            == level_of_name(f.client_log_level).unwrap(),
        level_of_name(f.client_log_level) is None ==> spec_into_config(f).unwrap().client_log_level
            == LogLevel::Info,
{
}

} // verus!
