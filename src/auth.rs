//! The manager's public face: credentials, request forms, and the flow driver.
use vstd::prelude::*;
use crate::flow::{Action, AuthError, Event, Phase, next, spec_step};

verus! {

pub const DEVICE_CODE_URL: &'static str = "https://oauth2.googleapis.com/device/code";

pub const TOKEN_URL: &'static str = "https://oauth2.googleapis.com/token";

pub const PROBE_URL: &'static str = "https://www.googleapis.com/youtube/v3/channels?part=snippet&mine=true";

pub const SCOPE: &'static str = "https://www.googleapis.com/auth/youtube.readonly";

pub const DEVICE_GRANT: &'static str = "urn:ietf:params:oauth:grant-type:device_code";

pub const REFRESH_GRANT: &'static str = "refresh_token";

/// The view of a form-encoded body: its key/value pairs in order.
pub open spec fn form_view(f: Seq<(String, String)>) -> Seq<(Seq<char>, Seq<char>)> {
    f.map_values(|p: (String, String)| (p.0@, p.1@))
}

/// The application's credentials, both non-empty.
pub struct AuthClient {
    client_id: String,
    client_secret: String,
}

impl AuthClient {
    pub closed spec fn id(&self) -> Seq<char> {
        self.client_id@
    }

    pub closed spec fn secret(&self) -> Seq<char> {
        self.client_secret@
    }

    /// Credentials are required: an empty one is a configuration error.
    pub fn new(client_id: String, client_secret: String) -> (r: Result<AuthClient, AuthError>)
        ensures
            r is Ok <==> client_id@.len() > 0 && client_secret@.len() > 0,
            r is Ok ==> r->Ok_0.id() == client_id@ && r->Ok_0.secret() == client_secret@,
            r is Err ==> r->Err_0 is ConfigurationError,
    {
        if client_id.as_str().is_empty() {
            Err(AuthError::ConfigurationError("client identifier not set".to_owned()))
        } else if client_secret.as_str().is_empty() {
            Err(AuthError::ConfigurationError("client secret not set".to_owned()))
        } else {
            Ok(AuthClient { client_id, client_secret })
        }
    }

    /// A flow that reuses the stored record when it is valid, refreshes it
    /// when it can, and runs the device flow otherwise.
    pub fn get_access_token(&self) -> (r: AuthFlow)
        ensures
            r.phase is Start,
    {
        AuthFlow { phase: Phase::Start }
    }

    /// A flow that runs the device flow unconditionally.
    pub fn authenticate(&self) -> (r: AuthFlow)
        ensures
            r.phase is Fresh,
    {
        AuthFlow { phase: Phase::Fresh }
    }

    /// Body of the device-code request.
    pub fn device_code_form(&self) -> (r: Vec<(String, String)>)
        ensures
            form_view(r@) == seq![("client_id"@, self.id()), ("scope"@, SCOPE@)],
    {
        let r = vec![
            ("client_id".to_owned(), self.client_id.clone()),
            ("scope".to_owned(), SCOPE.to_owned()),
        ];
        assert(form_view(r@) =~= seq![("client_id"@, self.id()), ("scope"@, SCOPE@)]);
        r
    }

    /// Body of one poll of the token endpoint.
    pub fn poll_form(&self, device_code: &str) -> (r: Vec<(String, String)>)
        ensures
            form_view(r@) == seq![
                ("client_id"@, self.id()),
                ("client_secret"@, self.secret()),
                ("device_code"@, device_code@),
                ("grant_type"@, DEVICE_GRANT@),
            ],
    {
        let r = vec![
            ("client_id".to_owned(), self.client_id.clone()),
            ("client_secret".to_owned(), self.client_secret.clone()),
            ("device_code".to_owned(), device_code.to_owned()),
            ("grant_type".to_owned(), DEVICE_GRANT.to_owned()),
        ];
        assert(form_view(r@) =~= seq![
            ("client_id"@, self.id()),
            ("client_secret"@, self.secret()),
            ("device_code"@, device_code@),
            ("grant_type"@, DEVICE_GRANT@),
        ]);
        r
    }

    /// Body of the refresh grant.
    pub fn refresh_form(&self, refresh_token: &str) -> (r: Vec<(String, String)>)
        ensures
            form_view(r@) == seq![
                ("client_id"@, self.id()),
                ("client_secret"@, self.secret()),
                ("refresh_token"@, refresh_token@),
                ("grant_type"@, REFRESH_GRANT@),
            ],
    {
        let r = vec![
            ("client_id".to_owned(), self.client_id.clone()),
            ("client_secret".to_owned(), self.client_secret.clone()),
            ("refresh_token".to_owned(), refresh_token.to_owned()),
            ("grant_type".to_owned(), REFRESH_GRANT.to_owned()),
        ];
        assert(form_view(r@) =~= seq![
            ("client_id"@, self.id()),
            ("client_secret"@, self.secret()),
            ("refresh_token"@, refresh_token@),
            ("grant_type"@, REFRESH_GRANT@),
        ]);
        r
    }
}

/// One call of `get_access_token` or `authenticate` in progress.
pub struct AuthFlow {
    pub phase: Phase,
}

impl AuthFlow {
    /// Feeds the answer to the previous action, read at clock `now`, and
    /// returns the next action.
    pub fn step(&mut self, event: Event, now: u64) -> (a: Action)
        ensures
            (final(self).phase, a) == spec_step(old(self).phase, event, now),
    {
        let mut phase = Phase::Finished;
        std::mem::swap(&mut phase, &mut self.phase);
        let (p, a) = next(phase, event, now);
        self.phase = p;
        a
    }

    pub fn is_finished(&self) -> (r: bool)
        ensures
            r == (self.phase is Finished),
    {
        match self.phase {
            Phase::Finished => true,
            _ => false,
        }
    }
}

} // verus!
