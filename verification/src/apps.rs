//! What an app sends to register itself, and what the service issues.

use vstd::prelude::*;
use vstd::string::*;
use crate::outside::pairs_view;
use crate::request::{optional, push_pair};

verus! {

/// The permissions that an app asks for.
#[derive(Clone, Copy, Debug, PartialEq, Eq, Structural)]
pub enum Scope {
    Read,
    Write,
    Follow,
    ReadWrite,
    ReadFollow,
    WriteFollow,
    ReadWriteFollow,
}

/// `list` with `token` added, behind a space where `list` holds a
/// token already; `list` itself where the token is not wanted.
pub open spec fn with_token(list: Seq<char>, token: Seq<char>, wanted: bool) -> Seq<char> {
    if !wanted {
        list
    } else if list.len() == 0 {
        token
    } else {
        list + seq![' '] + token
    }
}

impl Scope {
    /// Whether the scope lets the app read.
    pub open spec fn reads(self) -> bool {
        self == Scope::Read || self == Scope::ReadWrite || self == Scope::ReadFollow || self
            == Scope::ReadWriteFollow
    }

    /// Whether the scope lets the app write.
    pub open spec fn writes(self) -> bool {
        self == Scope::Write || self == Scope::ReadWrite || self == Scope::WriteFollow || self
            == Scope::ReadWriteFollow
    }

    /// Whether the scope lets the app follow and block.
    pub open spec fn follows(self) -> bool {
        self == Scope::Follow || self == Scope::ReadFollow || self == Scope::WriteFollow || self
            == Scope::ReadWriteFollow
    }

    /// The scope on the wire: the tokens `read`, `write`, `follow`, in
    /// this order, those that the scope includes, separated by a space.
    pub open spec fn wire(self) -> Seq<char> {
        with_token(
            with_token(
                with_token(Seq::empty(), seq!['r', 'e', 'a', 'd'], self.reads()),
                seq!['w', 'r', 'i', 't', 'e'],
                self.writes(),
            ),
            seq!['f', 'o', 'l', 'l', 'o', 'w'],
            self.follows(),
        )
    }

    /// The scope on the wire.
    pub fn as_str(&self) -> (r: &'static str)
        ensures
            r@ == self.wire(),
    {
        proof {
            reveal_strlit("read");
            reveal_strlit("write");
            reveal_strlit("follow");
            reveal_strlit("read write");
            reveal_strlit("read follow");
            reveal_strlit("write follow");
            reveal_strlit("read write follow");
        }
        let r = match self {
            Scope::Read => "read",
            Scope::Write => "write",
            Scope::Follow => "follow",
            Scope::ReadWrite => "read write",
            Scope::ReadFollow => "read follow",
            Scope::WriteFollow => "write follow",
            Scope::ReadWriteFollow => "read write follow",
        };
        assert(r@ =~= self.wire());
        r
    }
}

/// What an app says of itself when it registers.
#[derive(Clone, Debug, PartialEq, Eq)]
pub struct AppBuilder {
    /// The name shown to the user.
    pub client_name: String,
    /// Where the user is sent back to, several joined by commas.
    pub redirect_uris: String,
    /// The permissions asked for.
    pub scopes: Scope,
    /// The app's public URL.
    pub website: Option<String>,
}

/// What the service issues to a registered app.
#[derive(Clone, Debug, PartialEq, Eq)]
pub struct AppCredentials {
    pub client_id: String,
    pub client_secret: String,
    pub redirect_uri: String,
}

/// What the service issues in exchange for an authorization code.
#[derive(Clone, Debug, PartialEq, Eq)]
pub struct OAuthToken {
    pub access_token: String,
    pub token_type: String,
    pub scope: String,
    pub created_at: u64,
}

impl AppBuilder {
    /// The form fields of the registration, in wire order; the website
    /// only where there is one.
    pub open spec fn fields(&self) -> Seq<(Seq<char>, Seq<char>)> {
        seq![
            ("client_name"@, self.client_name@),
            ("redirect_uris"@, self.redirect_uris@),
            ("scopes"@, self.scopes.wire()),
        ] + optional(
            "website"@,
            match self.website {
                Some(w) => Some(w@),
                None => None,
            },
        )
    }

    /// The form fields of the registration.
    pub fn form_fields(&self) -> (r: Vec<(String, String)>)
        ensures
            pairs_view(r@) == self.fields(),
    {
        let mut fields: Vec<(String, String)> = Vec::new();
        push_pair(&mut fields, "client_name", self.client_name.as_str());
        push_pair(&mut fields, "redirect_uris", self.redirect_uris.as_str());
        push_pair(&mut fields, "scopes", self.scopes.as_str());
        match &self.website {
            Some(w) => {
                push_pair(&mut fields, "website", w.as_str());
            },
            None => {},
        }
        assert(pairs_view(fields@) =~= self.fields());
        fields
    }
}

} // verus!
