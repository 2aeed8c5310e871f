//! Matrix bot configuration: homeserver, authentication, command prefix and
//! session options.
use vstd::prelude::*;

use crate::common::error::BotError;
use crate::text::{opt_view, to_owned};

verus! {

/// Authentication options for Matrix.
#[derive(Debug, Clone)]
pub enum MatrixAuth {
    /// Username and password login.
    Password {
        /// Matrix user ID (e.g., "@bot:matrix.org").
        user_id: String,
        /// Password.
        password: String,
    },
    /// Access token, for pre-authenticated sessions.
    AccessToken {
        /// Matrix user ID.
        user_id: String,
        /// Access token.
        access_token: String,
        /// Device ID (required for E2EE).
        device_id: String,
    },
}

/// [`MatrixAuth`] by its characters.
pub enum AuthView {
    Password { user_id: Seq<char>, password: Seq<char> },
    AccessToken { user_id: Seq<char>, access_token: Seq<char>, device_id: Seq<char> },
}

impl View for MatrixAuth {
    type V = AuthView;

    open spec fn view(&self) -> AuthView {
        match self {
            MatrixAuth::Password { user_id, password } => AuthView::Password {
                user_id: user_id@,
                password: password@,
            },
            MatrixAuth::AccessToken { user_id, access_token, device_id } => AuthView::AccessToken {
                user_id: user_id@,
                access_token: access_token@,
                device_id: device_id@,
            },
        }
    }
}

/// How the bot signs in, once the configuration is checked.
#[derive(Debug)]
pub enum LoginPlan {
    /// Log in with user id and password, naming the device when a name is set.
    Password { user_id: String, password: String, device_name: Option<String> },
    /// Restore a session from an access token.
    Restore { user_id: String, access_token: String, device_id: String },
}

/// The refusal for a configuration whose credentials were never set.
pub open spec fn no_credentials_message() -> Seq<char> {
    "no credentials configured; call password_auth or access_token_auth"@
}

/// Matrix bot configuration.
///
/// ```ignore
/// let config = MatrixConfig::new("https://matrix.org")
///     .password_auth("@bot:matrix.org", "password")
///     .command_prefix("!")
///     .auto_join_rooms(true);
/// ```
#[derive(Debug, Clone)]
pub struct MatrixConfig {
    /// Homeserver URL (e.g., "https://matrix.org").
    pub(crate) homeserver_url: String,
    /// Authentication method.
    pub(crate) auth: MatrixAuth,
    /// Command prefix for parsing commands from messages.
    pub(crate) command_prefix: String,
    /// Device display name for this bot session.
    pub(crate) device_name: Option<String>,
    /// State store path for persistence (session restore, E2EE keys).
    pub(crate) state_store_path: Option<String>,
    /// Whether to auto-join rooms when invited.
    pub(crate) auto_join_rooms: bool,
}

/// A [`MatrixConfig`] by its parts.
pub struct ConfigView {
    pub homeserver_url: Seq<char>,
    pub auth: AuthView,
    pub command_prefix: Seq<char>,
    pub device_name: Option<Seq<char>>,
    pub state_store_path: Option<Seq<char>>,
    pub auto_join_rooms: bool,
}

impl View for MatrixConfig {
    type V = ConfigView;

    closed spec fn view(&self) -> ConfigView {
        ConfigView {
            homeserver_url: self.homeserver_url@,
            auth: self.auth@,
            command_prefix: self.command_prefix@,
            device_name: opt_view(self.device_name),
            state_store_path: opt_view(self.state_store_path),
            auto_join_rooms: self.auto_join_rooms,
        }
    }
}

impl MatrixConfig {
    /// A configuration for `homeserver_url` with the defaults: password
    /// authentication with empty credentials (set them before building the
    /// bot), command prefix `!`, no device name, no state store, no auto-join.
    pub fn new(homeserver_url: &str) -> (r: Self)
        ensures
            r@ == (ConfigView {
                homeserver_url: homeserver_url@,
                auth: AuthView::Password { user_id: Seq::empty(), password: Seq::empty() },
                command_prefix: "!"@,
                device_name: None,
                state_store_path: None,
                auto_join_rooms: false,
            }),
    {
        MatrixConfig {
            homeserver_url: to_owned(homeserver_url),
            auth: MatrixAuth::Password { user_id: String::new(), password: String::new() },
            command_prefix: to_owned("!"),
            device_name: None,
            state_store_path: None,
            auto_join_rooms: false,
        }
    }

    /// Log in with a user id and password.
    pub fn password_auth(self, user_id: &str, password: &str) -> (r: Self)
        ensures
            r@ == (ConfigView {
                auth: AuthView::Password { user_id: user_id@, password: password@ },
                ..self@
            }),
    {
        MatrixConfig {
            auth: MatrixAuth::Password { user_id: to_owned(user_id), password: to_owned(password) },
            ..self
        }
    }

    /// Restore a session from an access token for `user_id` on `device_id`.
    pub fn access_token_auth(self, user_id: &str, access_token: &str, device_id: &str) -> (r: Self)
        ensures
            r@ == (ConfigView {
                auth: AuthView::AccessToken {
                    user_id: user_id@,
                    access_token: access_token@,
                    device_id: device_id@,
                },
                ..self@
            }),
    {
        MatrixConfig {
            auth: MatrixAuth::AccessToken {
                user_id: to_owned(user_id),
                access_token: to_owned(access_token),
                device_id: to_owned(device_id),
            },
            ..self
        }
    }

    /// The prefix that marks a message as a command.
    pub fn command_prefix(self, prefix: &str) -> (r: Self)
        ensures
            r@ == (ConfigView { command_prefix: prefix@, ..self@ }),
    {
        MatrixConfig { command_prefix: to_owned(prefix), ..self }
    }

    /// The device display name for this bot session.
    pub fn device_name(self, name: &str) -> (r: Self)
        ensures
            r@ == (ConfigView { device_name: Some(name@), ..self@ }),
    {
        MatrixConfig { device_name: Some(to_owned(name)), ..self }
    }

    /// Persist session state (and E2EE keys) under `path`.
    pub fn state_store_path(self, path: &str) -> (r: Self)
        ensures
            r@ == (ConfigView { state_store_path: Some(path@), ..self@ }),
    {
        MatrixConfig { state_store_path: Some(to_owned(path)), ..self }
    }

    /// Join rooms automatically when invited.
    pub fn auto_join_rooms(self, enabled: bool) -> (r: Self)
        ensures
            r@ == (ConfigView { auto_join_rooms: enabled, ..self@ }),
    {
        MatrixConfig { auto_join_rooms: enabled, ..self }
    }

    /// The homeserver URL.
    pub fn homeserver(&self) -> (r: &str)
        ensures
            r@ == self@.homeserver_url,
    {
        self.homeserver_url.as_str()
    }

    /// How the bot authenticates.
    pub fn authentication(&self) -> (r: &MatrixAuth)
        ensures
            r@ == self@.auth,
    {
        &self.auth
    }

    /// The command prefix.
    pub fn prefix(&self) -> (r: &str)
        ensures
            r@ == self@.command_prefix,
    {
        self.command_prefix.as_str()
    }

    /// How to sign in: a password login (naming the device when a name is
    /// set) or a session restore; a password login without a user id means
    /// no credentials were configured, an authentication error.
    pub fn login_plan(&self) -> (r: Result<LoginPlan, BotError>)
        ensures
            match self@.auth {
                AuthView::Password { user_id, password } => if user_id.len() == 0 {
                    r matches Err(BotError::Auth(m)) && m@ == no_credentials_message()
                } else {
                    r matches Ok(LoginPlan::Password { user_id: u, password: p, device_name: d }) && u@
                        == user_id && p@ == password && opt_view(d) == self@.device_name
                },
                AuthView::AccessToken { user_id, access_token, device_id } => r matches Ok(
                    LoginPlan::Restore { user_id: u, access_token: t, device_id: d },
                ) && u@ == user_id && t@ == access_token && d@ == device_id,
            },
    {
        match &self.auth {
            MatrixAuth::Password { user_id, password } => {
                if user_id.as_str().is_empty() {
                    return Err(
                        BotError::Auth(to_owned("no credentials configured; call password_auth or access_token_auth")),
                    );
                }
                Ok(
                    LoginPlan::Password {
                        user_id: user_id.clone(),
                        password: password.clone(),
                        device_name: self.device_name.clone(),
                    },
                )
            },
            MatrixAuth::AccessToken { user_id, access_token, device_id } => Ok(
                LoginPlan::Restore {
                    user_id: user_id.clone(),
                    access_token: access_token.clone(),
                    device_id: device_id.clone(),
                },
            ),
        }
    }

    /// Whether invitations are accepted automatically.
    pub fn joins_automatically(&self) -> (r: bool)
        ensures
            r == self@.auto_join_rooms,
    {
        self.auto_join_rooms
    }
}

} // verus!
