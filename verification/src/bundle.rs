//! The credential bundle as it is kept between runs: a JSON object of
//! five texts.

use vstd::prelude::*;
use vstd::string::*;
use crate::client::Data;
use crate::error::Error;
use crate::outside::{json_string, json_text_map, pairs_view, parse_text_map, quote_json};

verus! {

/// The value of the first pair named `name`, if there is one.
pub open spec fn value_of(pairs: Seq<(Seq<char>, Seq<char>)>, name: Seq<char>) -> Option<
    Seq<char>,
>
    decreases pairs.len(),
{
    if pairs.len() == 0 {
        None
    } else if pairs[0].0 == name {
        Some(pairs[0].1)
    } else {
        value_of(pairs.drop_first(), name)
    }
}

/// Looks up the value of the first pair named `name`.
pub fn lookup(pairs: &Vec<(String, String)>, name: &str) -> (r: Option<String>)
    ensures
        r is Some <==> value_of(pairs_view(pairs@), name@) is Some,
        r is Some ==> r->Some_0@ == value_of(pairs_view(pairs@), name@)->Some_0,
{
    let wanted = String::from_str(name);
    let mut i: usize = 0;
    assert(pairs_view(pairs@).skip(0) =~= pairs_view(pairs@));
    while i < pairs.len()
        invariant
            i <= pairs.len(),
            wanted@ == name@,
            value_of(pairs_view(pairs@), name@) == value_of(
                pairs_view(pairs@).skip(i as int),
                name@,
            ),
        decreases pairs.len() - i,
    {
        let ghost rest = pairs_view(pairs@).skip(i as int);
        proof {
            assert(rest[0] == (pairs@[i as int].0@, pairs@[i as int].1@));
            assert(rest.drop_first() =~= pairs_view(pairs@).skip(i + 1));
        }
        if pairs[i].0 == wanted {
            return Some(pairs[i].1.clone());
        }
        i += 1;
    }
    None
}

/// The JSON object of a bundle, given the JSON literals of its five
/// texts: the members in declaration order, no white space.
pub open spec fn framed_bundle(
    base: Seq<char>,
    client_id: Seq<char>,
    client_secret: Seq<char>,
    redirect: Seq<char>,
    token: Seq<char>,
) -> Seq<char> {
    "{\"base\":"@ + base + ",\"client_id\":"@ + client_id + ",\"client_secret\":"@ + client_secret
        + ",\"redirect\":"@ + redirect + ",\"token\":"@ + token + "}"@
}

/// Frames a bundle as a JSON object around the JSON literals of its
/// five texts.
pub fn frame_bundle(
    base: &str,
    client_id: &str,
    client_secret: &str,
    redirect: &str,
    token: &str,
) -> (r: String)
    ensures
        r@ == framed_bundle(base@, client_id@, client_secret@, redirect@, token@),
{
    let mut out = String::from_str("{\"base\":");
    out.append(base);
    out.append(",\"client_id\":");
    out.append(client_id);
    out.append(",\"client_secret\":");
    out.append(client_secret);
    out.append(",\"redirect\":");
    out.append(redirect);
    out.append(",\"token\":");
    out.append(token);
    out.append("}");
    out
}

impl Data {
    /// The JSON text of the bundle.
    pub open spec fn json(&self) -> Seq<char> {
        framed_bundle(
            json_string(self.base@),
            json_string(self.client_id@),
            json_string(self.client_secret@),
            json_string(self.redirect@),
            json_string(self.token@),
        )
    }

    /// Whether `pairs` names all five fields of a bundle.
    pub open spec fn complete(pairs: Seq<(Seq<char>, Seq<char>)>) -> bool {
        value_of(pairs, "base"@) is Some && value_of(pairs, "client_id"@) is Some && value_of(
            pairs,
            "client_secret"@,
        ) is Some && value_of(pairs, "redirect"@) is Some && value_of(pairs, "token"@) is Some
    }

    /// Whether the bundle holds the five fields that `pairs` names.
    pub open spec fn holds(&self, pairs: Seq<(Seq<char>, Seq<char>)>) -> bool {
        value_of(pairs, "base"@) == Some(self.base@) && value_of(pairs, "client_id"@) == Some(
            self.client_id@,
        ) && value_of(pairs, "client_secret"@) == Some(self.client_secret@) && value_of(
            pairs,
            "redirect"@,
        ) == Some(self.redirect@) && value_of(pairs, "token"@) == Some(self.token@)
    }

    /// The JSON text of the bundle, for keeping. Writing it never
    /// fails.
    pub fn to_json(&self) -> (r: Result<String, Error>)
        ensures
            r is Ok,
            r->Ok_0@ == self.json(),
    {
        let base = match quote_json(self.base.as_str()) {
            Ok(literal) => literal,
            Err(detail) => {
                return Err(Error::Serde(detail));
            },
        };
        let client_id = match quote_json(self.client_id.as_str()) {
            Ok(literal) => literal,
            Err(detail) => {
                return Err(Error::Serde(detail));
            },
        };
        let client_secret = match quote_json(self.client_secret.as_str()) {
            Ok(literal) => literal,
            Err(detail) => {
                return Err(Error::Serde(detail));
            },
        };
        let redirect = match quote_json(self.redirect.as_str()) {
            Ok(literal) => literal,
            Err(detail) => {
                return Err(Error::Serde(detail));
            },
        };
        let token = match quote_json(self.token.as_str()) {
            Ok(literal) => literal,
            Err(detail) => {
                return Err(Error::Serde(detail));
            },
        };
        Ok(
            frame_bundle(
                base.as_str(),
                client_id.as_str(),
                client_secret.as_str(),
                redirect.as_str(),
                token.as_str(),
            ),
        )
    }

    /// Takes a bundle out of the members of a JSON object. Fails with
    /// `Serde` exactly where one of the five fields is not named.
    pub fn from_members(members: &Vec<(String, String)>) -> (r: Result<Data, Error>)
        ensures
            Data::complete(pairs_view(members@)) ==> r is Ok && r->Ok_0.holds(
                pairs_view(members@),
            ),
            !Data::complete(pairs_view(members@)) ==> r is Err && r->Err_0 is Serde,
    {
        let base = match lookup(members, "base") {
            Some(value) => value,
            None => {
                return Err(Error::Serde(String::from_str("missing field `base`")));
            },
        };
        let client_id = match lookup(members, "client_id") {
            Some(value) => value,
            None => {
                return Err(Error::Serde(String::from_str("missing field `client_id`")));
            },
        };
        let client_secret = match lookup(members, "client_secret") {
            Some(value) => value,
            None => {
                return Err(Error::Serde(String::from_str("missing field `client_secret`")));
            },
        };
        let redirect = match lookup(members, "redirect") {
            Some(value) => value,
            None => {
                return Err(Error::Serde(String::from_str("missing field `redirect`")));
            },
        };
        let token = match lookup(members, "token") {
            Some(value) => value,
            None => {
                return Err(Error::Serde(String::from_str("missing field `token`")));
            },
        };
        Ok(Data { base, client_id, client_secret, redirect, token })
    }

    /// Reads a bundle from its JSON text: an object whose members are
    /// all texts and that names the five fields. Fails with `Serde`
    /// where the text is no such object.
    pub fn from_json(text: &str) -> (r: Result<Data, Error>)
        ensures
            match json_text_map(text@) {
                Some(members) => if Data::complete(members) {
                    r is Ok && r->Ok_0.holds(members)
                } else {
                    r is Err && r->Err_0 is Serde
                },
                None => r is Err && r->Err_0 is Serde,
            },
    {
        match parse_text_map(text) {
            Ok(members) => Data::from_members(&members),
            Err(detail) => Err(Error::Serde(detail)),
        }
    }
}

/// The five members that name the fields of `bundle`, in declaration
/// order.
pub open spec fn members_of(bundle: Data) -> Seq<(Seq<char>, Seq<char>)> {
    seq![
        ("base"@, bundle.base@),
        ("client_id"@, bundle.client_id@),
        ("client_secret"@, bundle.client_secret@),
        ("redirect"@, bundle.redirect@),
        ("token"@, bundle.token@),
    ]
}

/// The members of a bundle name all five fields, and every bundle that
/// is taken out of them again holds the same five texts.
pub proof fn lemma_members_give_the_bundle_back(bundle: Data, back: Data)
    requires
        back.holds(members_of(bundle)),
    ensures
        Data::complete(members_of(bundle)),
        bundle.holds(members_of(bundle)),
        back.base@ == bundle.base@,
        back.client_id@ == bundle.client_id@,
        back.client_secret@ == bundle.client_secret@,
        back.redirect@ == bundle.redirect@,
        back.token@ == bundle.token@,
{
    reveal_strlit("base");
    reveal_strlit("client_id");
    reveal_strlit("client_secret");
    reveal_strlit("redirect");
    reveal_strlit("token");
    let m = members_of(bundle);
    let m1 = m.drop_first();
    let m2 = m1.drop_first();
    let m3 = m2.drop_first();
    let m4 = m3.drop_first();
    assert("base"@.len() == 4 && "client_id"@.len() == 9 && "client_secret"@.len() == 13
        && "redirect"@.len() == 8 && "token"@.len() == 5);
    assert(m1[0] == m[1] && m2[0] == m[2] && m3[0] == m[3] && m4[0] == m[4]);
    assert(value_of(m, "base"@) == Some(bundle.base@));
    assert(value_of(m4, "token"@) == Some(bundle.token@));
    assert(value_of(m3, "redirect"@) == Some(bundle.redirect@));
    assert(value_of(m3, "token"@) == Some(bundle.token@));
    assert(value_of(m2, "client_secret"@) == Some(bundle.client_secret@));
    assert(value_of(m2, "redirect"@) == Some(bundle.redirect@));
    assert(value_of(m2, "token"@) == Some(bundle.token@));
    assert(value_of(m1, "client_id"@) == Some(bundle.client_id@));
    assert(value_of(m1, "client_secret"@) == Some(bundle.client_secret@));
    assert(value_of(m1, "redirect"@) == Some(bundle.redirect@));
    assert(value_of(m1, "token"@) == Some(bundle.token@));
}

/// Two bundles that hold the fields named by the same members are the
/// same in all five texts, and are written as the same JSON text. So a
/// bundle that is read from members that name the fields of another
/// is written byte for byte as that other one.
pub proof fn lemma_same_members_same_text(
    first: Data,
    second: Data,
    members: Seq<(Seq<char>, Seq<char>)>,
)
    requires
        first.holds(members),
        second.holds(members),
    ensures
        Data::complete(members),
        first.base@ == second.base@,
        first.client_id@ == second.client_id@,
        first.client_secret@ == second.client_secret@,
        first.redirect@ == second.redirect@,
        first.token@ == second.token@,
        first.json() == second.json(),
{
}

} // verus!
