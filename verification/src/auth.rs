//! What the application knows of the user's session with the service.
//!
//! Tokens are acquired and refreshed elsewhere. Here it is decided whether
//! a token is still good, and when it is time to look at it again.

use vstd::prelude::*;
use crate::clock::elapsed_ms;
use crate::navigation::AppScreen;

verus! {

/// The default time between two looks at the token, in milliseconds.
pub const DEFAULT_TOKEN_CHECK_INTERVAL_MS: u64 = 300_000;

/// The time between two looks at the token while the player runs, in
/// seconds.
pub const TOKEN_CHECK_INTERVAL_SECS: u64 = 60;

/// The address that the sign-in comes back to.
pub const OAUTH_REDIRECT_URI: &'static str = "http://localhost:3000/callback";

/// A token and the second, counted from the epoch, at which it runs out.
#[derive(Debug)]
pub struct TokenData {
    pub access_token: String,
    pub expires_at: u64,
}

/// The state of the user's session.
#[derive(Debug)]
pub struct AuthState {
    pub is_authenticating: bool,
    pub login_message_shown: bool,
    pub refresh_attempted: bool,
    pub token_check_done: bool,
    pub refresh_in_progress: bool,
    pub user_avatar_url: Option<String>,
    pub user_username: Option<String>,
    pub show_user_menu: bool,
    /// The wall-clock reading of the last look at the token.
    pub last_token_check_ms: Option<u64>,
    pub token_check_interval_ms: u64,
}

/// True if `token` is there and has not run out at second `now_secs`.
pub open spec fn token_is_good(token: Option<TokenData>, now_secs: u64) -> bool {
    token matches Some(data) && now_secs < data.expires_at
}

impl AuthState {
    /// True if it is time to look at the token again at `now`.
    pub open spec fn check_is_due(&self, now: u64) -> bool {
        match self.last_token_check_ms {
            Some(last) => elapsed_ms(last, now) >= self.token_check_interval_ms,
            None => true,
        }
    }

    /// Nobody signed in, nothing looked at yet.
    pub fn new(token_check_interval_ms: u64) -> (a: AuthState)
        ensures
            !a.is_authenticating,
            !a.login_message_shown,
            !a.refresh_attempted,
            !a.token_check_done,
            !a.refresh_in_progress,
            a.user_avatar_url is None,
            a.user_username is None,
            !a.show_user_menu,
            a.last_token_check_ms is None,
            a.token_check_interval_ms == token_check_interval_ms,
    {
        AuthState {
            is_authenticating: false,
            login_message_shown: false,
            refresh_attempted: false,
            token_check_done: false,
            refresh_in_progress: false,
            user_avatar_url: None,
            user_username: None,
            show_user_menu: false,
            last_token_check_ms: None,
            token_check_interval_ms,
        }
    }

    /// Whether the user is signed in: there is a token, and it has not run
    /// out at second `now_secs`.
    pub fn is_authenticated(&self, token: &Option<TokenData>, now_secs: u64) -> (ok: bool)
        ensures
            ok == token_is_good(*token, now_secs),
    {
        match token {
            Some(data) => now_secs < data.expires_at,
            None => false,
        }
    }

    /// The access token, if there is one that has not run out at second
    /// `now_secs`.
    pub fn get_token(&self, token: &Option<TokenData>, now_secs: u64) -> (access: Option<String>)
        ensures
            access == (if token_is_good(*token, now_secs) {
                Some(token->0.access_token)
            } else {
                None
            }),
    {
        match token {
            Some(data) => {
                if now_secs < data.expires_at {
                    Some(data.access_token.clone())
                } else {
                    None
                }
            },
            None => None,
        }
    }

    /// Forgets the user, at logout.
    pub fn clear_session(&mut self)
        ensures
            final(self).user_avatar_url is None,
            final(self).user_username is None,
            !final(self).is_authenticating,
            !final(self).login_message_shown,
            !final(self).refresh_attempted,
            !final(self).token_check_done,
            !final(self).refresh_in_progress,
            final(self).show_user_menu == old(self).show_user_menu,
            final(self).last_token_check_ms == old(self).last_token_check_ms,
            final(self).token_check_interval_ms == old(self).token_check_interval_ms,
    {
        self.user_avatar_url = None;
        self.user_username = None;
        self.is_authenticating = false;
        self.login_message_shown = false;
        self.refresh_attempted = false;
        self.token_check_done = false;
        self.refresh_in_progress = false;
    }

    /// Looks whether the token is to be refreshed now. A look is due once
    /// per interval. It leads to a refresh on the main screen, with
    /// somebody signed in, unless a refresh is under way. Returns whether
    /// a refresh is to be started.
    pub fn check_token_expiry(&mut self, now_ms: u64, screen: AppScreen, signed_in: bool) -> (refresh:
        bool)
        ensures
            refresh == (old(self).check_is_due(now_ms) && screen == AppScreen::Main && signed_in
                && !old(self).refresh_in_progress),
            final(self).last_token_check_ms == (if old(self).check_is_due(now_ms) {
                Some(now_ms)
            } else {
                old(self).last_token_check_ms
            }),
            final(self).refresh_in_progress == (old(self).refresh_in_progress || refresh),
            final(self).token_check_interval_ms == old(self).token_check_interval_ms,
            final(self).user_username == old(self).user_username,
            final(self).user_avatar_url == old(self).user_avatar_url,
            final(self).token_check_done == old(self).token_check_done,
            final(self).is_authenticating == old(self).is_authenticating,
            final(self).login_message_shown == old(self).login_message_shown,
            final(self).refresh_attempted == old(self).refresh_attempted,
            final(self).show_user_menu == old(self).show_user_menu,
    {
        match self.last_token_check_ms {
            Some(last) => {
                if now_ms.saturating_sub(last) < self.token_check_interval_ms {
                    return false;
                }
            },
            None => {},
        }
        self.last_token_check_ms = Some(now_ms);
        match screen {
            AppScreen::Main => {},
            AppScreen::Splash => {
                return false;
            },
        }
        if !signed_in {
            return false;
        }
        if self.refresh_in_progress {
            return false;
        }
        self.refresh_in_progress = true;
        true
    }
}

} // verus!
