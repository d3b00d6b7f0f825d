//! The authenticated client: a credential bundle, and the request that
//! each endpoint of the service is called with.

use vstd::prelude::*;
use vstd::string::*;
use crate::error::Error;
use crate::outside::{
    encode_form, form_encoded, pairs_view, parse_url, parsed_url,
};
use crate::request::{
    api_url, array_pairs, array_query, bearer, flag, id_path, optional, push_array, push_flag,
    push_pair, query_suffix, render_array_query, Body, BodyView, Method, Request, RequestView,
};
use crate::status_builder::StatusBuilder;
use crate::text::{decimal, render_i64, render_u64, signed_decimal};

verus! {

/// The credential bundle of a registered app: what has to be kept to
/// call the service again without registering anew.
#[derive(Clone, Debug, PartialEq, Eq)]
pub struct Data {
    /// The origin of the service instance, without a trailing slash.
    pub base: String,
    pub client_id: String,
    pub client_secret: String,
    pub redirect: String,
    /// The bearer token; empty until an authorization code was exchanged.
    pub token: String,
}

/// A client of one service instance, acting for one credential bundle.
#[derive(Clone, Debug, PartialEq, Eq)]
pub struct Mastodon {
    /// Raw data about the app and its token.
    pub data: Data,
}

/// The query that restricts a timeline to local statuses, or nothing.
pub open spec fn local_query(local: bool) -> Seq<char> {
    if local {
        "?local=1"@
    } else {
        Seq::empty()
    }
}

/// The query parameters of an account's statuses, in wire order.
pub open spec fn statuses_params(
    only_media: bool,
    exclude_replies: bool,
    since_id: Option<i64>,
) -> Seq<(Seq<char>, Seq<char>)> {
    flag("only_media"@, only_media) + flag("exclude_replies"@, exclude_replies) + optional(
        "since_id"@,
        match since_id {
            Some(id) => Some(signed_decimal(id as int)),
            None => None,
        },
    )
}

/// The query parameters of an account search, in wire order.
pub open spec fn search_params(query: Seq<char>, limit: Option<u64>) -> Seq<
    (Seq<char>, Seq<char>),
> {
    seq![("q"@, query)] + optional(
        "limit"@,
        match limit {
            Some(n) => Some(decimal(n as nat)),
            None => None,
        },
    )
}

/// The query of a relationships lookup: nothing for no id, otherwise
/// `?` and the ids as an array parameter named `id`.
pub open spec fn relationships_query(ids: Seq<u64>) -> Seq<char> {
    if ids.len() == 0 {
        Seq::empty()
    } else {
        "?"@ + array_query("id"@, ids)
    }
}

/// The form fields of a report, in wire order.
pub open spec fn report_fields(account_id: u64, status_ids: Seq<u64>, comment: Seq<char>) -> Seq<
    (Seq<char>, Seq<char>),
> {
    (seq![("account_id"@, decimal(account_id as nat))] + array_pairs(
        "status_ids"@,
        status_ids,
    )).push(("comment"@, comment))
}

/// The form fields of a search, in wire order.
pub open spec fn search_fields(q: Seq<char>, resolve: bool) -> Seq<(Seq<char>, Seq<char>)> {
    seq![
        ("q"@, q),
        (
            "resolve"@,
            if resolve {
                "true"@
            } else {
                "false"@
            },
        ),
    ]
}

impl Mastodon {
    /// What every authenticated call returns for a given method, URL
    /// and body: `AccessTokenRequired` where the bundle holds no token,
    /// otherwise the request with these three and with the bundle's
    /// token as its one bearer authorization.
    pub open spec fn sends(
        &self,
        r: Result<Request, Error>,
        method: Method,
        url: Seq<char>,
        body: BodyView,
    ) -> bool {
        if self.data.token@.len() == 0 {
            r == Err::<Request, Error>(Error::AccessTokenRequired)
        } else {
            r is Ok && r->Ok_0@ == (RequestView {
                method,
                url,
                authorization: Some(bearer(self.data.token@)),
                body,
            })
        }
    }

    /// What a call with query parameters returns:
    /// `AccessTokenRequired` where the bundle holds no token, a URL
    /// error where `address` is no absolute URL, otherwise a `GET` of
    /// `address` as it stands, followed by the parameters where there
    /// are any.
    pub open spec fn sends_query(
        &self,
        r: Result<Request, Error>,
        address: Seq<char>,
        params: Seq<(Seq<char>, Seq<char>)>,
    ) -> bool {
        if self.data.token@.len() == 0 {
            r == Err::<Request, Error>(Error::AccessTokenRequired)
        } else if parsed_url(address) is None {
            r is Err && r->Err_0 is Url
        } else {
            self.sends(r, Method::Get, address + query_suffix(params), BodyView::Empty)
        }
    }

    /// Builds the client of a freshly issued token.
    pub fn from_registration(
        base: String,
        client_id: String,
        client_secret: String,
        redirect: String,
        token: String,
    ) -> (r: Mastodon)
        ensures
            r.data.base == base,
            r.data.client_id == client_id,
            r.data.client_secret == client_secret,
            r.data.redirect == redirect,
            r.data.token == token,
    {
        Mastodon { data: Data { base, client_id, client_secret, redirect, token } }
    }

    /// Creates a client from a stored credential bundle. This always
    /// succeeds; a bundle without a token is refused by each call.
    pub fn from_data(data: Data) -> (r: Result<Mastodon, Error>)
        ensures
            r is Ok,
            r->Ok_0.data == data,
    {
        Ok(Mastodon { data })
    }

    /// The base followed by `url`.
    pub fn route(&self, url: &str) -> (r: String)
        ensures
            r@ == self.data.base@ + url@,
    {
        let mut s = self.data.base.clone();
        s.append(url);
        s
    }

    /// The URL of the endpoint at `path`.
    pub fn endpoint(&self, path: &str) -> (r: String)
        ensures
            r@ == api_url(self.data.base@, path@),
    {
        let mut s = self.route("/api/v1/");
        s.append(path);
        s
    }

    /// The value of the `Authorization` header of every call.
    pub fn authorization(&self) -> (r: String)
        ensures
            r@ == bearer(self.data.token@),
    {
        let mut s = String::from_str("Bearer ");
        s.append(self.data.token.as_str());
        s
    }

    /// The one place where a request is made: checks for the token and
    /// attaches it.
    pub fn request(&self, method: Method, url: String, body: Body) -> (r: Result<Request, Error>)
        ensures
            self.sends(r, method, url@, body@),
    {
        if self.data.token.as_str().is_empty() {
            Err(Error::AccessTokenRequired)
        } else {
            Ok(Request { method, url, authorization: Some(self.authorization()), body })
        }
    }

    /// A call without parameters on the endpoint at `path`.
    pub fn plain(&self, method: Method, path: &str) -> (r: Result<Request, Error>)
        ensures
            self.sends(r, method, api_url(self.data.base@, path@), BodyView::Empty),
    {
        self.request(method, self.endpoint(path), Body::Empty)
    }

    /// A call on an endpoint whose path holds one numeric id.
    pub fn with_id(&self, method: Method, before: &str, id: u64, after: &str) -> (r: Result<
        Request,
        Error,
    >)
        ensures
            self.sends(
                r,
                method,
                api_url(self.data.base@, id_path(before@, id, after@)),
                BodyView::Empty,
            ),
    {
        let mut path = String::from_str(before);
        path.append(render_u64(id).as_str());
        path.append(after);
        self.plain(method, path.as_str())
    }

    /// A `POST` of form fields to the endpoint at `path`.
    pub fn form(&self, path: &str, fields: &Vec<(String, String)>) -> (r: Result<Request, Error>)
        ensures
            self.sends(
                r,
                Method::Post,
                api_url(self.data.base@, path@),
                BodyView::Form(form_encoded(pairs_view(fields@))),
            ),
    {
        self.request(Method::Post, self.endpoint(path), Body::Form(encode_form(fields)))
    }

    /// A `GET` of `address` with `params` as its query. The address
    /// is sent as it stands; the URL parser only accepts or rejects it.
    /// Without parameters nothing is appended, not even `?`.
    pub fn query(&self, address: &str, params: &Vec<(String, String)>) -> (r: Result<
        Request,
        Error,
    >)
        ensures
            self.sends_query(r, address@, pairs_view(params@)),
            r is Ok <==> self.data.token@.len() > 0 && parsed_url(address@) is Some,
    {
        if self.data.token.as_str().is_empty() {
            return Err(Error::AccessTokenRequired);
        }
        match parse_url(address) {
            Ok(_) => {
                let mut url = String::from_str(address);
                if params.len() > 0 {
                    url.append("?");
                    url.append(encode_form(params).as_str());
                }
                assert(url@ =~= address@ + query_suffix(pairs_view(params@)));
                self.request(Method::Get, url, Body::Empty)
            },
            Err(e) => Err(Error::Url(e)),
        }
    }

    /// The account that the token belongs to.
    pub fn verify(&self) -> (r: Result<Request, Error>)
        ensures
            self.sends(r, Method::Get, api_url(self.data.base@, "accounts/verify_credentials"@), BodyView::Empty),
    {
        self.plain(Method::Get, "accounts/verify_credentials")
    }

    /// The accounts that the user blocks.
    pub fn blocks(&self) -> (r: Result<Request, Error>)
        ensures
            self.sends(r, Method::Get, api_url(self.data.base@, "blocks"@), BodyView::Empty),
    {
        self.plain(Method::Get, "blocks")
    }

    /// The accounts that asked to follow the user.
    pub fn follow_requests(&self) -> (r: Result<Request, Error>)
        ensures
            self.sends(r, Method::Get, api_url(self.data.base@, "follow_requests"@), BodyView::Empty),
    {
        self.plain(Method::Get, "follow_requests")
    }

    /// The accounts that the user mutes.
    pub fn mutes(&self) -> (r: Result<Request, Error>)
        ensures
            self.sends(r, Method::Get, api_url(self.data.base@, "mutes"@), BodyView::Empty),
    {
        self.plain(Method::Get, "mutes")
    }

    /// The user's notifications.
    pub fn notifications(&self) -> (r: Result<Request, Error>)
        ensures
            self.sends(r, Method::Get, api_url(self.data.base@, "notifications"@), BodyView::Empty),
    {
        self.plain(Method::Get, "notifications")
    }

    /// The reports that the user made.
    pub fn reports(&self) -> (r: Result<Request, Error>)
        ensures
            self.sends(r, Method::Get, api_url(self.data.base@, "reports"@), BodyView::Empty),
    {
        self.plain(Method::Get, "reports")
    }

    /// The user's home timeline.
    pub fn get_home_timeline(&self) -> (r: Result<Request, Error>)
        ensures
            self.sends(r, Method::Get, api_url(self.data.base@, "timelines/home"@), BodyView::Empty),
    {
        self.plain(Method::Get, "timelines/home")
    }

    /// Deletes all of the user's notifications.
    pub fn clear_notifications(&self) -> (r: Result<Request, Error>)
        ensures
            self.sends(r, Method::Post, api_url(self.data.base@, "notifications/clear"@), BodyView::Empty),
    {
        self.plain(Method::Post, "notifications/clear")
    }

    /// Information about the instance.
    pub fn instance(&self) -> (r: Result<Request, Error>)
        ensures
            self.sends(r, Method::Get, api_url(self.data.base@, "instance"@), BodyView::Empty),
    {
        self.plain(Method::Get, "instance")
    }

    /// An account.
    pub fn get_account(&self, id: u64) -> (r: Result<Request, Error>)
        ensures
            self.sends(
                r,
                Method::Get,
                api_url(self.data.base@, id_path("accounts/"@, id, ""@)),
                BodyView::Empty,
            ),
    {
        self.with_id(Method::Get, "accounts/", id, "")
    }

    /// The followers of an account.
    pub fn followers(&self, id: u64) -> (r: Result<Request, Error>)
        ensures
            self.sends(
                r,
                Method::Get,
                api_url(self.data.base@, id_path("accounts/"@, id, "/followers"@)),
                BodyView::Empty,
            ),
    {
        self.with_id(Method::Get, "accounts/", id, "/followers")
    }

    /// The accounts that an account follows.
    pub fn following(&self, id: u64) -> (r: Result<Request, Error>)
        ensures
            self.sends(
                r,
                Method::Get,
                api_url(self.data.base@, id_path("accounts/"@, id, "/following"@)),
                BodyView::Empty,
            ),
    {
        self.with_id(Method::Get, "accounts/", id, "/following")
    }

    /// Follows an account.
    pub fn follow(&self, id: u64) -> (r: Result<Request, Error>)
        ensures
            self.sends(
                r,
                Method::Get,
                api_url(self.data.base@, id_path("accounts/"@, id, "/follow"@)),
                BodyView::Empty,
            ),
    {
        self.with_id(Method::Get, "accounts/", id, "/follow")
    }

    /// Stops following an account.
    pub fn unfollow(&self, id: u64) -> (r: Result<Request, Error>)
        ensures
            self.sends(
                r,
                Method::Get,
                api_url(self.data.base@, id_path("accounts/"@, id, "/unfollow"@)),
                BodyView::Empty,
            ),
    {
        self.with_id(Method::Get, "accounts/", id, "/unfollow")
    }

    /// Blocks an account.
    pub fn block(&self, id: u64) -> (r: Result<Request, Error>)
        ensures
            self.sends(
                r,
                Method::Get,
                api_url(self.data.base@, id_path("accounts/"@, id, "/block"@)),
                BodyView::Empty,
            ),
    {
        self.with_id(Method::Get, "accounts/", id, "/block")
    }

    /// Lifts the block of an account.
    pub fn unblock(&self, id: u64) -> (r: Result<Request, Error>)
        ensures
            self.sends(
                r,
                Method::Get,
                api_url(self.data.base@, id_path("accounts/"@, id, "/unblock"@)),
                BodyView::Empty,
            ),
    {
        self.with_id(Method::Get, "accounts/", id, "/unblock")
    }

    /// Mutes an account.
    pub fn mute(&self, id: u64) -> (r: Result<Request, Error>)
        ensures
            self.sends(
                r,
                Method::Get,
                api_url(self.data.base@, id_path("accounts/"@, id, "/mute"@)),
                BodyView::Empty,
            ),
    {
        self.with_id(Method::Get, "accounts/", id, "/mute")
    }

    /// Lifts the mute of an account.
    pub fn unmute(&self, id: u64) -> (r: Result<Request, Error>)
        ensures
            self.sends(
                r,
                Method::Get,
                api_url(self.data.base@, id_path("accounts/"@, id, "/unmute"@)),
                BodyView::Empty,
            ),
    {
        self.with_id(Method::Get, "accounts/", id, "/unmute")
    }

    /// One notification.
    pub fn get_notification(&self, id: u64) -> (r: Result<Request, Error>)
        ensures
            self.sends(
                r,
                Method::Get,
                api_url(self.data.base@, id_path("notifications/"@, id, ""@)),
                BodyView::Empty,
            ),
    {
        self.with_id(Method::Get, "notifications/", id, "")
    }

    /// One status.
    pub fn get_status(&self, id: u64) -> (r: Result<Request, Error>)
        ensures
            self.sends(
                r,
                Method::Get,
                api_url(self.data.base@, id_path("statuses/"@, id, ""@)),
                BodyView::Empty,
            ),
    {
        self.with_id(Method::Get, "statuses/", id, "")
    }

    /// The ancestors and descendants of a status.
    pub fn get_context(&self, id: u64) -> (r: Result<Request, Error>)
        ensures
            self.sends(
                r,
                Method::Get,
                api_url(self.data.base@, id_path("statuses/"@, id, "/context"@)),
                BodyView::Empty,
            ),
    {
        self.with_id(Method::Get, "statuses/", id, "/context")
    }

    /// The card of a status.
    pub fn get_card(&self, id: u64) -> (r: Result<Request, Error>)
        ensures
            self.sends(
                r,
                Method::Get,
                api_url(self.data.base@, id_path("statuses/"@, id, "/card"@)),
                BodyView::Empty,
            ),
    {
        self.with_id(Method::Get, "statuses/", id, "/card")
    }

    /// The accounts that reblogged a status.
    pub fn reblogged_by(&self, id: u64) -> (r: Result<Request, Error>)
        ensures
            self.sends(
                r,
                Method::Get,
                api_url(self.data.base@, id_path("statuses/"@, id, "/reblogged_by"@)),
                BodyView::Empty,
            ),
    {
        self.with_id(Method::Get, "statuses/", id, "/reblogged_by")
    }

    /// The accounts that favourited a status.
    pub fn favourited_by(&self, id: u64) -> (r: Result<Request, Error>)
        ensures
            self.sends(
                r,
                Method::Get,
                api_url(self.data.base@, id_path("statuses/"@, id, "/favourited_by"@)),
                BodyView::Empty,
            ),
    {
        self.with_id(Method::Get, "statuses/", id, "/favourited_by")
    }

    /// Reblogs a status.
    pub fn reblog(&self, id: u64) -> (r: Result<Request, Error>)
        ensures
            self.sends(
                r,
                Method::Post,
                api_url(self.data.base@, id_path("statuses/"@, id, "/reblog"@)),
                BodyView::Empty,
            ),
    {
        self.with_id(Method::Post, "statuses/", id, "/reblog")
    }

    /// Withdraws the reblog of a status.
    pub fn unreblog(&self, id: u64) -> (r: Result<Request, Error>)
        ensures
            self.sends(
                r,
                Method::Post,
                api_url(self.data.base@, id_path("statuses/"@, id, "/unreblog"@)),
                BodyView::Empty,
            ),
    {
        self.with_id(Method::Post, "statuses/", id, "/unreblog")
    }

    /// Favourites a status.
    pub fn favourite(&self, id: u64) -> (r: Result<Request, Error>)
        ensures
            self.sends(
                r,
                Method::Post,
                api_url(self.data.base@, id_path("statuses/"@, id, "/favourite"@)),
                BodyView::Empty,
            ),
    {
        self.with_id(Method::Post, "statuses/", id, "/favourite")
    }

    /// Withdraws the favourite of a status.
    pub fn unfavourite(&self, id: u64) -> (r: Result<Request, Error>)
        ensures
            self.sends(
                r,
                Method::Post,
                api_url(self.data.base@, id_path("statuses/"@, id, "/unfavourite"@)),
                BodyView::Empty,
            ),
    {
        self.with_id(Method::Post, "statuses/", id, "/unfavourite")
    }

    /// Deletes a status.
    pub fn delete_status(&self, id: u64) -> (r: Result<Request, Error>)
        ensures
            self.sends(
                r,
                Method::Delete,
                api_url(self.data.base@, id_path("statuses/"@, id, ""@)),
                BodyView::Empty,
            ),
    {
        self.with_id(Method::Delete, "statuses/", id, "")
    }

    /// Grants the follow request of an account.
    pub fn allow_follow_request(&self, id: u64) -> (r: Result<Request, Error>)
        ensures
            self.sends(
                r,
                Method::Post,
                api_url(self.data.base@, "accounts/follow_requests/authorize"@),
                BodyView::Form(form_encoded(seq![("id"@, decimal(id as nat))])),
            ),
    {
        let mut fields: Vec<(String, String)> = Vec::new();
        push_pair(&mut fields, "id", render_u64(id).as_str());
        assert(pairs_view(fields@) =~= seq![("id"@, decimal(id as nat))]);
        self.form("accounts/follow_requests/authorize", &fields)
    }

    /// Rejects the follow request of an account.
    pub fn reject_follow_request(&self, id: u64) -> (r: Result<Request, Error>)
        ensures
            self.sends(
                r,
                Method::Post,
                api_url(self.data.base@, "accounts/follow_requests/reject"@),
                BodyView::Form(form_encoded(seq![("id"@, decimal(id as nat))])),
            ),
    {
        let mut fields: Vec<(String, String)> = Vec::new();
        push_pair(&mut fields, "id", render_u64(id).as_str());
        assert(pairs_view(fields@) =~= seq![("id"@, decimal(id as nat))]);
        self.form("accounts/follow_requests/reject", &fields)
    }

    /// Follows a remote account, given as `user@domain`.
    pub fn follows(&self, uri: String) -> (r: Result<Request, Error>)
        ensures
            self.sends(
                r,
                Method::Post,
                api_url(self.data.base@, "follows"@),
                BodyView::Form(form_encoded(seq![("uri"@, uri@)])),
            ),
    {
        let mut fields: Vec<(String, String)> = Vec::new();
        push_pair(&mut fields, "uri", uri.as_str());
        assert(pairs_view(fields@) =~= seq![("uri"@, uri@)]);
        self.form("follows", &fields)
    }

    /// Uploads a file as a media attachment.
    pub fn media(&self, file: Vec<u8>) -> (r: Result<Request, Error>)
        ensures
            self.sends(
                r,
                Method::Post,
                api_url(self.data.base@, "media"@),
                BodyView::Multipart(file@),
            ),
    {
        self.request(Method::Post, self.endpoint("media"), Body::Multipart(file))
    }

    /// Reports statuses of an account.
    pub fn report(&self, account_id: u64, status_ids: Vec<u64>, comment: String) -> (r: Result<
        Request,
        Error,
    >)
        ensures
            self.sends(
                r,
                Method::Post,
                api_url(self.data.base@, "reports"@),
                BodyView::Form(form_encoded(report_fields(account_id, status_ids@, comment@))),
            ),
    {
        let mut fields: Vec<(String, String)> = Vec::new();
        push_pair(&mut fields, "account_id", render_u64(account_id).as_str());
        push_array(&mut fields, "status_ids", &status_ids);
        push_pair(&mut fields, "comment", comment.as_str());
        assert(pairs_view(fields@) =~= report_fields(account_id, status_ids@, comment@));
        self.form("reports", &fields)
    }

    /// Searches for accounts, statuses and hashtags.
    pub fn search(&self, q: String, resolve: bool) -> (r: Result<Request, Error>)
        ensures
            self.sends(
                r,
                Method::Post,
                api_url(self.data.base@, "search"@),
                BodyView::Form(form_encoded(search_fields(q@, resolve))),
            ),
    {
        let mut fields: Vec<(String, String)> = Vec::new();
        push_pair(&mut fields, "q", q.as_str());
        push_pair(
            &mut fields,
            "resolve",
            if resolve {
                "true"
            } else {
                "false"
            },
        );
        assert(pairs_view(fields@) =~= search_fields(q@, resolve));
        self.form("search", &fields)
    }

    /// Posts a new status, as JSON.
    pub fn new_status(&self, status: StatusBuilder) -> (r: Result<Request, Error>)
        ensures
            self.sends(
                r,
                Method::Post,
                api_url(self.data.base@, "statuses"@),
                BodyView::Json(status.json()),
            ),
    {
        if self.data.token.as_str().is_empty() {
            return Err(Error::AccessTokenRequired);
        }
        match status.to_json() {
            Ok(text) => self.request(Method::Post, self.endpoint("statuses"), Body::Json(text)),
            Err(e) => Err(e),
        }
    }

    /// The public timeline, restricted to local statuses on demand.
    pub fn get_public_timeline(&self, local: bool) -> (r: Result<Request, Error>)
        ensures
            self.sends(
                r,
                Method::Get,
                api_url(self.data.base@, "timelines/public"@) + local_query(local),
                BodyView::Empty,
            ),
    {
        let mut url = self.endpoint("timelines/public");
        if local {
            url.append("?local=1");
        }
        assert(url@ =~= api_url(self.data.base@, "timelines/public"@) + local_query(local));
        self.request(Method::Get, url, Body::Empty)
    }

    /// The timeline of a hashtag, restricted to local statuses on
    /// demand. The hashtag enters the path as it is given.
    pub fn get_tagged_timeline(&self, hashtag: String, local: bool) -> (r: Result<Request, Error>)
        ensures
            self.sends(
                r,
                Method::Get,
                api_url(self.data.base@, "timelines/tag/"@ + hashtag@) + local_query(local),
                BodyView::Empty,
            ),
    {
        let mut url = self.endpoint("timelines/tag/");
        url.append(hashtag.as_str());
        if local {
            url.append("?local=1");
        }
        assert(url@ =~= api_url(self.data.base@, "timelines/tag/"@ + hashtag@) + local_query(
            local,
        ));
        self.request(Method::Get, url, Body::Empty)
    }

    /// The statuses of an account. A flag that is clear and an absent
    /// `since_id` send no parameter.
    pub fn statuses(
        &self,
        id: u64,
        only_media: bool,
        exclude_replies: bool,
        since_id: Option<i64>,
    ) -> (r: Result<Request, Error>)
        ensures
            self.sends_query(
                r,
                api_url(self.data.base@, id_path("accounts/"@, id, "/statuses"@)),
                statuses_params(only_media, exclude_replies, since_id),
            ),
            r is Ok <==> self.data.token@.len() > 0 && parsed_url(
                api_url(self.data.base@, id_path("accounts/"@, id, "/statuses"@)),
            ) is Some,
    {
        let mut params: Vec<(String, String)> = Vec::new();
        assert(pairs_view(params@) =~= Seq::empty());
        push_flag(&mut params, "only_media", only_media);
        push_flag(&mut params, "exclude_replies", exclude_replies);
        match since_id {
            Some(since) => {
                push_pair(&mut params, "since_id", render_i64(since).as_str());
            },
            None => {},
        }
        assert(pairs_view(params@) =~= statuses_params(only_media, exclude_replies, since_id));
        let mut path = String::from_str("accounts/");
        path.append(render_u64(id).as_str());
        path.append("/statuses");
        let address = self.endpoint(path.as_str());
        self.query(address.as_str(), &params)
    }

    /// The relationships of the user to the given accounts.
    pub fn relationships(&self, ids: &Vec<u64>) -> (r: Result<Request, Error>)
        ensures
            self.sends(
                r,
                Method::Get,
                api_url(self.data.base@, "accounts/relationships"@) + relationships_query(ids@),
                BodyView::Empty,
            ),
    {
        let mut url = self.endpoint("accounts/relationships");
        if ids.len() > 0 {
            url.append("?");
            url.append(render_array_query("id", ids).as_str());
        }
        assert(url@ =~= api_url(self.data.base@, "accounts/relationships"@)
            + relationships_query(ids@));
        self.request(Method::Get, url, Body::Empty)
    }

    /// Searches for accounts by name, with an optional limit on the
    /// number of results.
    pub fn search_accounts(&self, query: &str, limit: Option<u64>) -> (r: Result<Request, Error>)
        ensures
            self.sends_query(
                r,
                api_url(self.data.base@, "accounts/search"@),
                search_params(query@, limit),
            ),
            r is Ok <==> self.data.token@.len() > 0 && parsed_url(
                api_url(self.data.base@, "accounts/search"@),
            ) is Some,
    {
        let mut params: Vec<(String, String)> = Vec::new();
        assert(pairs_view(params@) =~= Seq::empty());
        push_pair(&mut params, "q", query);
        match limit {
            Some(n) => {
                push_pair(&mut params, "limit", render_u64(n).as_str());
            },
            None => {},
        }
        assert(pairs_view(params@) =~= search_params(query@, limit));
        let address = self.endpoint("accounts/search");
        self.query(address.as_str(), &params)
    }
}

/// Every request that an authenticated call issues carries the
/// bundle's token, which is not empty, as its bearer authorization;
/// and a bundle without a token issues no request at all.
pub proof fn lemma_requests_are_authorized(
    client: Mastodon,
    r: Result<Request, Error>,
    method: Method,
    url: Seq<char>,
    body: BodyView,
)
    requires
        client.sends(r, method, url, body),
    ensures
        r is Ok <==> client.data.token@.len() > 0,
        r is Ok ==> r->Ok_0@.authorization == Some("Bearer "@ + client.data.token@),
        r is Ok ==> r->Ok_0@.method == method && r->Ok_0@.url == url && r->Ok_0@.body == body,
        r is Err ==> r->Err_0 == Error::AccessTokenRequired,
{
}

/// Where both flags are clear and there is no `since_id`, the statuses
/// of an account are asked for at the endpoint's address and nothing
/// more: no parameter and no `?`.
pub proof fn lemma_absent_parameters_add_nothing(address: Seq<char>)
    ensures
        statuses_params(false, false, None).len() == 0,
        address + query_suffix(statuses_params(false, false, None)) == address,
{
    assert(address + query_suffix(statuses_params(false, false, None)) =~= address);
}

/// The parameters of an account's statuses name no flag that is
/// clear: a pair named `only_media` or `exclude_replies` is there only
/// where that flag is set, and then its value is `1`.
pub proof fn lemma_clear_flags_are_absent(
    only_media: bool,
    exclude_replies: bool,
    since_id: Option<i64>,
    i: int,
)
    requires
        0 <= i < statuses_params(only_media, exclude_replies, since_id).len(),
    ensures
        statuses_params(only_media, exclude_replies, since_id)[i].0 == "only_media"@ ==> only_media
            && statuses_params(only_media, exclude_replies, since_id)[i].1 == seq!['1'],
        statuses_params(only_media, exclude_replies, since_id)[i].0 == "exclude_replies"@
            ==> exclude_replies && statuses_params(only_media, exclude_replies, since_id)[i].1
            == seq!['1'],
        statuses_params(only_media, exclude_replies, since_id)[i].0 == "since_id"@
            ==> since_id is Some,
{
    reveal_strlit("only_media");
    reveal_strlit("exclude_replies");
    reveal_strlit("since_id");
    reveal_strlit("1");
    assert("1"@ =~= seq!['1']);
    assert("only_media"@.len() != "exclude_replies"@.len());
    assert("only_media"@.len() != "since_id"@.len());
    assert("since_id"@.len() != "exclude_replies"@.len());
}

} // verus!
