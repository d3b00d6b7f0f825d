//! Registration of an app with a service instance, up to the issue of
//! an access token.
//!
//! A registration starts out fresh, becomes registered when the service
//! has issued a client id and secret, and ends when an access token is
//! exchanged for a client. Each step that needs the service comes as a
//! pair: the request to send, and the function that takes the decoded
//! reply.

use vstd::prelude::*;
use vstd::string::*;
use crate::apps::{AppBuilder, AppCredentials, OAuthToken, Scope};
use crate::client::{Data, Mastodon};
use crate::error::Error;
use crate::outside::{encode_form, form_encoded, pairs_view, parse_url, parsed_url};
use crate::request::{push_pair, Body, BodyView, Method, Request, RequestView};

verus! {

/// How far a registration has come.
#[derive(Clone, Copy, Debug, PartialEq, Eq, Structural)]
pub enum Stage {
    /// Nothing was issued yet.
    Fresh,
    /// The service issued a client id and secret.
    AppRegistered,
}

/// The registration of one app with one service instance.
#[derive(Clone, Debug, PartialEq, Eq)]
pub struct Registration {
    /// The origin of the service instance.
    pub base: String,
    pub client_id: Option<String>,
    pub client_secret: Option<String>,
    /// The redirect URI that the service recorded; empty while fresh.
    pub redirect: String,
    /// The permissions that the app asked for.
    pub scopes: Scope,
}

/// The query parameters of the page on which the user authorizes the
/// app, in wire order.
pub open spec fn authorise_params(client_id: Seq<char>, redirect: Seq<char>, scopes: Scope) -> Seq<
    (Seq<char>, Seq<char>),
> {
    seq![
        ("client_id"@, client_id),
        ("redirect_uri"@, redirect),
        ("scope"@, scopes.wire()),
        ("response_type"@, "code"@),
    ]
}

/// The form fields that exchange an authorization code for a token, in
/// wire order.
pub open spec fn token_fields(
    client_id: Seq<char>,
    client_secret: Seq<char>,
    code: Seq<char>,
    redirect: Seq<char>,
) -> Seq<(Seq<char>, Seq<char>)> {
    seq![
        ("client_id"@, client_id),
        ("client_secret"@, client_secret),
        ("code"@, code),
        ("grant_type"@, "authorization_code"@),
        ("redirect_uri"@, redirect),
    ]
}

impl Registration {
    /// The stage of the registration: registered once both the client
    /// id and the client secret are there.
    pub open spec fn stage(&self) -> Stage {
        if self.client_id is Some && self.client_secret is Some {
            Stage::AppRegistered
        } else {
            Stage::Fresh
        }
    }

    /// The client id and the client secret are there together or not
    /// at all.
    pub open spec fn wf(&self) -> bool {
        self.client_id is Some <==> self.client_secret is Some
    }

    /// The error that an operation on an unregistered app fails with,
    /// if any: the missing client id comes before the missing secret.
    pub open spec fn missing(&self) -> Option<Error> {
        if self.client_id is None {
            Some(Error::ClientIdRequired)
        } else if self.client_secret is None {
            Some(Error::ClientSecretRequired)
        } else {
            None
        }
    }

    /// Starts a registration with the instance at `base`. Fails with a
    /// URL error exactly where `base` is no absolute URL.
    pub fn new(base: &str) -> (r: Result<Registration, Error>)
        ensures
            parsed_url(base@) is Some ==> r is Ok && r->Ok_0.base@ == base@
                && r->Ok_0.client_id is None && r->Ok_0.client_secret is None
                && r->Ok_0.redirect@.len() == 0 && r->Ok_0.scopes == Scope::Read
                && r->Ok_0.stage() == Stage::Fresh && r->Ok_0.wf(),
            parsed_url(base@) is None ==> r is Err && r->Err_0 is Url,
    {
        match parse_url(base) {
            Ok(_) => Ok(
                Registration {
                    base: String::from_str(base),
                    client_id: None,
                    client_secret: None,
                    redirect: String::new(),
                    scopes: Scope::Read,
                },
            ),
            Err(e) => Err(Error::Url(e)),
        }
    }

    /// An unauthenticated `POST` of an encoded form to `path` on the
    /// instance.
    pub fn post_form(&self, path: &str, form: String) -> (r: Request)
        ensures
            r@ == (RequestView {
                method: Method::Post,
                url: self.base@ + path@,
                authorization: None,
                body: BodyView::Form(form@),
            }),
    {
        let mut url = self.base.clone();
        url.append(path);
        Request { method: Method::Post, url, authorization: None, body: Body::Form(form) }
    }

    /// The address of the authorization page with the encoded `query`.
    pub fn authorise_url(&self, query: &str) -> (r: String)
        ensures
            r@ == self.base@ + "/oauth/authorize?"@ + query@,
    {
        let mut url = self.base.clone();
        url.append("/oauth/authorize?");
        url.append(query);
        url
    }

    /// The request that registers `app`: its descriptor, as a form,
    /// posted to the apps endpoint without authorization.
    pub fn register_request(&self, app: &AppBuilder) -> (r: Request)
        ensures
            r@ == (RequestView {
                method: Method::Post,
                url: self.base@ + "/api/v1/apps"@,
                authorization: None,
                body: BodyView::Form(form_encoded(app.fields())),
            }),
    {
        let fields = app.form_fields();
        self.post_form("/api/v1/apps", encode_form(&fields))
    }

    /// Records what the service issued for `app`. The registration is
    /// registered from then on.
    pub fn register(&mut self, app: &AppBuilder, issued: AppCredentials)
        ensures
            final(self).base == old(self).base,
            final(self).client_id == Some(issued.client_id),
            final(self).client_secret == Some(issued.client_secret),
            final(self).redirect == issued.redirect_uri,
            final(self).scopes == app.scopes,
            final(self).stage() == Stage::AppRegistered,
            final(self).wf(),
    {
        self.client_id = Some(issued.client_id);
        self.client_secret = Some(issued.client_secret);
        self.redirect = issued.redirect_uri;
        self.scopes = app.scopes;
    }

    /// The URL of the page on which the user authorizes the app. Fails
    /// with `ClientIdRequired` exactly where no client id was issued.
    pub fn authorise(&self) -> (r: Result<String, Error>)
        ensures
            match self.client_id {
                None => r == Err::<String, Error>(Error::ClientIdRequired),
                Some(id) => r is Ok && r->Ok_0@ == self.base@ + "/oauth/authorize?"@
                    + form_encoded(authorise_params(id@, self.redirect@, self.scopes)),
            },
    {
        match &self.client_id {
            None => Err(Error::ClientIdRequired),
            Some(id) => {
                let mut params: Vec<(String, String)> = Vec::new();
                push_pair(&mut params, "client_id", id.as_str());
                push_pair(&mut params, "redirect_uri", self.redirect.as_str());
                push_pair(&mut params, "scope", self.scopes.as_str());
                push_pair(&mut params, "response_type", "code");
                assert(pairs_view(params@) =~= authorise_params(
                    id@,
                    self.redirect@,
                    self.scopes,
                ));
                Ok(self.authorise_url(encode_form(&params).as_str()))
            },
        }
    }

    /// The request that exchanges the authorization code for an access
    /// token. Fails with `ClientIdRequired` where no client id was
    /// issued, else with `ClientSecretRequired` where no secret was.
    pub fn create_access_token(&self, code: &str) -> (r: Result<Request, Error>)
        ensures
            match self.missing() {
                Some(e) => r == Err::<Request, Error>(e),
                None => r is Ok && r->Ok_0@ == (RequestView {
                    method: Method::Post,
                    url: self.base@ + "/oauth/token"@,
                    authorization: None,
                    body: BodyView::Form(
                        form_encoded(
                            token_fields(
                                self.client_id->Some_0@,
                                self.client_secret->Some_0@,
                                code@,
                                self.redirect@,
                            ),
                        ),
                    ),
                }),
            },
    {
        match (&self.client_id, &self.client_secret) {
            (None, _) => Err(Error::ClientIdRequired),
            (Some(_), None) => Err(Error::ClientSecretRequired),
            (Some(id), Some(secret)) => {
                let mut fields: Vec<(String, String)> = Vec::new();
                push_pair(&mut fields, "client_id", id.as_str());
                push_pair(&mut fields, "client_secret", secret.as_str());
                push_pair(&mut fields, "code", code);
                push_pair(&mut fields, "grant_type", "authorization_code");
                push_pair(&mut fields, "redirect_uri", self.redirect.as_str());
                assert(pairs_view(fields@) =~= token_fields(
                    id@,
                    secret@,
                    code@,
                    self.redirect@,
                ));
                Ok(self.post_form("/oauth/token", encode_form(&fields)))
            },
        }
    }

    /// Ends the registration with the token that the service issued:
    /// the client of a bundle that holds the base, what was issued to
    /// the app, and the access token. Fails as `create_access_token`
    /// does where the app is not registered.
    pub fn access_token_issued(self, token: OAuthToken) -> (r: Result<Mastodon, Error>)
        ensures
            match self.missing() {
                Some(e) => r == Err::<Mastodon, Error>(e),
                None => r is Ok && r->Ok_0.data == (Data {
                    base: self.base,
                    client_id: self.client_id->Some_0,
                    client_secret: self.client_secret->Some_0,
                    redirect: self.redirect,
                    token: token.access_token,
                }),
            },
    {
        match (self.client_id, self.client_secret) {
            (None, _) => Err(Error::ClientIdRequired),
            (Some(_), None) => Err(Error::ClientSecretRequired),
            (Some(id), Some(secret)) => Ok(
                Mastodon::from_registration(
                    self.base,
                    id,
                    secret,
                    self.redirect,
                    token.access_token,
                ),
            ),
        }
    }
}

/// A registration that came from `new` and was not registered since is
/// fresh, and every attempt at an exchange on it is refused for want
/// of a client id.
pub proof fn lemma_fresh_refuses_exchange(registration: Registration)
    requires
        registration.wf(),
        registration.stage() == Stage::Fresh,
    ensures
        registration.missing() == Some(Error::ClientIdRequired),
{
}

} // verus!
