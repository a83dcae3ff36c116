//! What the service is configured with.

use vstd::prelude::*;
use vstd::string::*;
use crate::error::{AppError, AppErrorView};
use crate::password::{bcrypt_cost, bcrypt_cost_of, bcrypt_error_text, bcrypt_hash};

verus! {

/// The settings of the service, as read at start.
#[derive(Debug)]
pub struct Config {
    pub database_url: String,
    pub redis_url: String,
    pub server_address: String,
    pub jwt_secret: String,
    pub admin_login: String,
    pub admin_password: String,
}

pub ghost struct ConfigView {
    pub database_url: Seq<char>,
    pub redis_url: Seq<char>,
    pub server_address: Seq<char>,
    pub jwt_secret: Seq<char>,
    pub admin_login: Seq<char>,
    pub admin_password: Seq<char>,
}

impl View for Config {
    type V = ConfigView;

    open spec fn view(&self) -> ConfigView {
        ConfigView {
            database_url: self.database_url@,
            redis_url: self.redis_url@,
            server_address: self.server_address@,
            jwt_secret: self.jwt_secret@,
            admin_login: self.admin_login@,
            admin_password: self.admin_password@,
        }
    }
}

/// The view of a setting that may be missing.
pub open spec fn setting(value: Option<String>) -> Option<Seq<char>> {
    match value {
        Some(s) => Some(s@),
        None => None,
    }
}

/// A setting, or what stands for it where it is missing.
pub open spec fn setting_or(value: Option<Seq<char>>, default: Seq<char>) -> Seq<char> {
    match value {
        Some(s) => s,
        None => default,
    }
}

/// The configuration that six settings make. The address of the store and
/// the address to listen on have defaults; the others must be there, and
/// the first of them that is missing is reported.
pub open spec fn config_of(
    database_url: Option<Seq<char>>,
    redis_url: Option<Seq<char>>,
    server_address: Option<Seq<char>>,
    jwt_secret: Option<Seq<char>>,
    admin_password: Option<Seq<char>>,
    admin_login: Option<Seq<char>>,
) -> Result<ConfigView, AppErrorView> {
    if database_url is None {
        Err(AppErrorView::EnvError("DATABASE_URL must be set"@))
    } else if jwt_secret is None || admin_password is None || admin_login is None {
        Err(AppErrorView::EnvError("environment variable not found"@))
    } else {
        Ok(
            ConfigView {
                database_url: database_url->0,
                redis_url: setting_or(redis_url, "redis://127.0.0.1/"@),
                server_address: setting_or(server_address, "127.0.0.1:3000"@),
                jwt_secret: jwt_secret->0,
                admin_login: admin_login->0,
                admin_password: admin_password->0,
            },
        )
    }
}

impl Config {
    /// The configuration from the values of `DATABASE_URL`, `REDIS_URL`,
    /// `SERVER_ADDRESS`, `JWT_SECRET`, `ADMIN_PASSWORD` and `ADMIN_LOGIN`,
    /// each `None` where it is not set.
    pub fn from_env(
        database_url: Option<String>,
        redis_url: Option<String>,
        server_address: Option<String>,
        jwt_secret: Option<String>,
        admin_password: Option<String>,
        admin_login: Option<String>,
    ) -> (r: Result<Config, AppError>)
        ensures
            crate::error::outcome_view(r) == config_of(
                setting(database_url),
                setting(redis_url),
                setting(server_address),
                setting(jwt_secret),
                setting(admin_password),
                setting(admin_login),
            ),
    {
        let database_url = match database_url {
            Some(s) => s,
            None => {
                return Err(AppError::EnvError(String::from_str("DATABASE_URL must be set")));
            },
        };
        let redis_url = match redis_url {
            Some(s) => s,
            None => String::from_str("redis://127.0.0.1/"),
        };
        let server_address = match server_address {
            Some(s) => s,
            None => String::from_str("127.0.0.1:3000"),
        };
        match (jwt_secret, admin_password, admin_login) {
            (Some(jwt_secret), Some(admin_password), Some(admin_login)) => Ok(
                Config {
                    database_url,
                    redis_url,
                    server_address,
                    jwt_secret,
                    admin_login,
                    admin_password,
                },
            ),
            _ => Err(AppError::EnvError(String::from_str("environment variable not found"))),
        }
    }
}

/// What every request is served with: the secret that signs tokens, the
/// admin's name and password hash, and a decoy hash of the same cost, for
/// the password check of a login under another name.
pub struct AppState {
    jwt_secret: String,
    admin_username: String,
    admin_password_hash: String,
    decoy_hash: String,
}

pub ghost struct AppStateView {
    pub jwt_secret: Seq<char>,
    pub admin_username: Seq<char>,
    pub admin_password_hash: Seq<char>,
    pub decoy_hash: Seq<char>,
}

impl AppStateView {
    /// Both hashes can be read and cost the same to check.
    pub open spec fn balanced(self) -> bool {
        bcrypt_cost(self.admin_password_hash) is Some && bcrypt_cost(self.decoy_hash)
            == bcrypt_cost(self.admin_password_hash)
    }
}

impl View for AppState {
    type V = AppStateView;

    closed spec fn view(&self) -> AppStateView {
        AppStateView {
            jwt_secret: self.jwt_secret@,
            admin_username: self.admin_username@,
            admin_password_hash: self.admin_password_hash@,
            decoy_hash: self.decoy_hash@,
        }
    }
}

/// The state that three settings and a decoy make, if the decoy fits.
pub open spec fn state_of(
    jwt_secret: Seq<char>,
    admin_username: Seq<char>,
    admin_password_hash: Seq<char>,
    decoy_hash: Seq<char>,
) -> Result<AppStateView, AppErrorView> {
    let state = AppStateView { jwt_secret, admin_username, admin_password_hash, decoy_hash };
    if state.balanced() {
        Ok(state)
    } else {
        Err(AppErrorView::BcryptError)
    }
}

/// Whether two hashes whose costs were read cost the same to check.
pub open spec fn costs_agree(cost: Option<u32>, decoy_cost: Option<u32>) -> bool {
    cost is Some && decoy_cost == cost
}

/// Whether two hashes whose costs were read cost the same to check.
pub fn same_cost(cost: Option<u32>, decoy_cost: Option<u32>) -> (b: bool)
    ensures
        b == costs_agree(cost, decoy_cost),
{
    match (cost, decoy_cost) {
        (Some(a), Some(b)) => a == b,
        _ => false,
    }
}

impl AppState {
    #[verifier::type_invariant]
    spec fn well_formed(self) -> bool {
        self@.balanced()
    }

    /// The state for an admin, with a decoy hash made for it.
    ///
    /// Fails where the admin's hash is no bcrypt hash, and where no decoy
    /// of its cost could be made.
    pub fn new(jwt_secret: String, admin_username: String, admin_password_hash: String) -> (r:
        Result<AppState, AppError>)
        ensures
            match r {
                Ok(state) => state@.jwt_secret == jwt_secret@ && state@.admin_username
                    == admin_username@ && state@.admin_password_hash == admin_password_hash@
                    && state@.balanced(),
                Err(e) => e@ == AppErrorView::BcryptError,
            },
            bcrypt_cost(admin_password_hash@) is None ==> r is Err,
    {
        let cost = match bcrypt_cost_of(admin_password_hash.as_str()) {
            Ok(cost) => cost,
            Err(e) => {
                return Err(AppError::BcryptError(bcrypt_error_text(&e)));
            },
        };
        match bcrypt_hash("", cost) {
            Ok(decoy) => AppState::with_decoy(jwt_secret, admin_username, admin_password_hash, decoy),
            Err(e) => Err(AppError::BcryptError(bcrypt_error_text(&e))),
        }
    }

    /// The state for an admin with the decoy hash given: accepted if both
    /// hashes can be read and cost the same to check.
    pub fn with_decoy(
        jwt_secret: String,
        admin_username: String,
        admin_password_hash: String,
        decoy_hash: String,
    ) -> (r: Result<AppState, AppError>)
        ensures
            crate::error::outcome_view(r) == state_of(
                jwt_secret@,
                admin_username@,
                admin_password_hash@,
                decoy_hash@,
            ),
    {
        let cost = match bcrypt_cost_of(admin_password_hash.as_str()) {
            Ok(cost) => cost,
            Err(e) => {
                return Err(AppError::BcryptError(bcrypt_error_text(&e)));
            },
        };
        let decoy_cost = match bcrypt_cost_of(decoy_hash.as_str()) {
            Ok(decoy_cost) => decoy_cost,
            Err(e) => {
                return Err(AppError::BcryptError(bcrypt_error_text(&e)));
            },
        };
        if same_cost(Some(cost), Some(decoy_cost)) {
            Ok(AppState { jwt_secret, admin_username, admin_password_hash, decoy_hash })
        } else {
            Err(AppError::BcryptError(String::from_str("decoy hash and password hash differ in cost")))
        }
    }

    pub fn jwt_secret(&self) -> (s: &str)
        ensures
            s@ == self@.jwt_secret,
    {
        self.jwt_secret.as_str()
    }

    pub fn admin_username(&self) -> (s: &str)
        ensures
            s@ == self@.admin_username,
    {
        self.admin_username.as_str()
    }

    pub fn admin_password_hash(&self) -> (s: &str)
        ensures
            s@ == self@.admin_password_hash,
    {
        self.admin_password_hash.as_str()
    }

    /// The hash that a password is checked against where the user name is
    /// not the admin's. It costs what the admin's hash costs.
    pub fn decoy_hash(&self) -> (s: &str)
        ensures
            s@ == self@.decoy_hash,
            self@.balanced(),
    {
        proof {
            use_type_invariant(self);
        }
        self.decoy_hash.as_str()
    }
}

/// The state that a configuration asks for.
pub fn setup_app_state(config: &Config) -> (r: Result<AppState, AppError>)
    ensures
        match r {
            Ok(state) => state@.jwt_secret == config@.jwt_secret && state@.admin_username
                == config@.admin_login && state@.admin_password_hash == config@.admin_password
                && state@.balanced(),
            Err(e) => e@ == AppErrorView::BcryptError,
        },
        bcrypt_cost(config@.admin_password) is None ==> r is Err,
{
    AppState::new(
        config.jwt_secret.clone(),
        config.admin_login.clone(),
        config.admin_password.clone(),
    )
}

} // verus!
