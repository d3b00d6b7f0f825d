//! The payload of a new status, and its JSON text.

use vstd::prelude::*;
use vstd::string::*;
use crate::error::Error;
use crate::json::{append_member, json_array, json_bool, member, render_json_array};
use crate::outside::{json_string, quote_json};
use crate::text::{decimal, render_u64, same_text};

verus! {

/// Who may see a status.
#[derive(Clone, Copy, Debug, PartialEq, Eq, Structural)]
pub enum Visibility {
    Direct,
    Private,
    Unlisted,
    Public,
}

impl Visibility {
    /// The name of the visibility on the wire: the variant in lower case.
    pub open spec fn wire(self) -> Seq<char> {
        match self {
            Visibility::Direct => "direct"@,
            Visibility::Private => "private"@,
            Visibility::Unlisted => "unlisted"@,
            Visibility::Public => "public"@,
        }
    }

    /// The name of the visibility on the wire.
    pub fn as_str(&self) -> (r: &'static str)
        ensures
            r@ == self.wire(),
    {
        match self {
            Visibility::Direct => "direct",
            Visibility::Private => "private",
            Visibility::Unlisted => "unlisted",
            Visibility::Public => "public",
        }
    }
}

/// The visibility that a name on the wire stands for, if any.
pub open spec fn visibility_named(name: Seq<char>) -> Option<Visibility> {
    if name == "direct"@ {
        Some(Visibility::Direct)
    } else if name == "private"@ {
        Some(Visibility::Private)
    } else if name == "unlisted"@ {
        Some(Visibility::Unlisted)
    } else if name == "public"@ {
        Some(Visibility::Public)
    } else {
        None
    }
}

impl Visibility {
    /// Reads a visibility from its name on the wire; any other text
    /// is refused.
    pub fn from_wire(name: &str) -> (r: Option<Visibility>)
        ensures
            r == visibility_named(name@),
    {
        if same_text(name, "direct") {
            Some(Visibility::Direct)
        } else if same_text(name, "private") {
            Some(Visibility::Private)
        } else if same_text(name, "unlisted") {
            Some(Visibility::Unlisted)
        } else if same_text(name, "public") {
            Some(Visibility::Public)
        } else {
            None
        }
    }
}

/// A name on the wire stands for a visibility exactly where it is that
/// visibility's own name.
pub proof fn lemma_visibility_names(v: Visibility, name: Seq<char>)
    ensures
        visibility_named(v.wire()) == Some(v),
        visibility_named(name) == Some(v) <==> name == v.wire(),
{
    reveal_strlit("direct");
    reveal_strlit("private");
    reveal_strlit("unlisted");
    reveal_strlit("public");
    assert("direct"@[0] != "public"@[0]);
    assert("direct"@.len() == 6 && "private"@.len() == 7 && "unlisted"@.len() == 8
        && "public"@.len() == 6);
}

/// The payload of a new status. Absent fields are not sent.
#[derive(Clone, Debug, PartialEq, Eq)]
pub struct StatusBuilder {
    /// The text of the status.
    pub status: String,
    /// The id of the status that this one replies to.
    pub in_reply_to_id: Option<u64>,
    /// The ids of the media to attach.
    pub media_ids: Option<Vec<u64>>,
    /// Whether the media are to be marked as sensitive.
    pub sensitive: Option<bool>,
    /// The text shown as a warning before the status.
    pub spoiler_text: Option<String>,
    /// Who may see the status.
    pub visibility: Option<Visibility>,
}

impl StatusBuilder {
    /// A payload that holds the text alone.
    pub fn new(status: String) -> (r: StatusBuilder)
        ensures
            r.status == status,
            r.in_reply_to_id is None,
            r.media_ids is None,
            r.sensitive is None,
            r.spoiler_text is None,
            r.visibility is None,
    {
        StatusBuilder {
            status,
            in_reply_to_id: None,
            media_ids: None,
            sensitive: None,
            spoiler_text: None,
            visibility: None,
        }
    }

    /// The JSON object of the payload, given the JSON literals of its
    /// two texts: the members in declaration order, absent ones left
    /// out, no white space.
    pub open spec fn framed(&self, status: Seq<char>, spoiler: Option<Seq<char>>) -> Seq<char> {
        "{\"status\":"@ + status + member(
            ",\"in_reply_to_id\":"@,
            match self.in_reply_to_id {
                Some(id) => Some(decimal(id as nat)),
                None => None,
            },
        ) + member(
            ",\"media_ids\":"@,
            match self.media_ids {
                Some(ids) => Some(json_array(ids@)),
                None => None,
            },
        ) + member(
            ",\"sensitive\":"@,
            match self.sensitive {
                Some(b) => Some(json_bool(b)),
                None => None,
            },
        ) + member(",\"spoiler_text\":"@, spoiler) + member(
            ",\"visibility\":"@,
            match self.visibility {
                Some(v) => Some("\""@ + v.wire() + "\""@),
                None => None,
            },
        ) + "}"@
    }

    /// The JSON text of the payload.
    pub open spec fn json(&self) -> Seq<char> {
        self.framed(
            json_string(self.status@),
            match self.spoiler_text {
                Some(text) => Some(json_string(text@)),
                None => None,
            },
        )
    }

    /// Frames the payload as a JSON object around the JSON literals of
    /// its two texts.
    pub fn frame(&self, status: &str, spoiler: Option<&str>) -> (r: String)
        ensures
            r@ == self.framed(
                status@,
                match spoiler {
                    Some(s) => Some(s@),
                    None => None,
                },
            ),
    {
        let mut out = String::from_str("{\"status\":");
        out.append(status);
        match self.in_reply_to_id {
            Some(id) => append_member(
                &mut out,
                ",\"in_reply_to_id\":",
                Some(render_u64(id).as_str()),
            ),
            None => append_member(&mut out, ",\"in_reply_to_id\":", None),
        }
        match &self.media_ids {
            Some(ids) => append_member(
                &mut out,
                ",\"media_ids\":",
                Some(render_json_array(ids).as_str()),
            ),
            None => append_member(&mut out, ",\"media_ids\":", None),
        }
        match self.sensitive {
            Some(true) => append_member(&mut out, ",\"sensitive\":", Some("true")),
            Some(false) => append_member(&mut out, ",\"sensitive\":", Some("false")),
            None => append_member(&mut out, ",\"sensitive\":", None),
        }
        append_member(&mut out, ",\"spoiler_text\":", spoiler);
        match self.visibility {
            Some(v) => {
                let mut quoted = String::from_str("\"");
                quoted.append(v.as_str());
                quoted.append("\"");
                append_member(&mut out, ",\"visibility\":", Some(quoted.as_str()))
            },
            None => append_member(&mut out, ",\"visibility\":", None),
        }
        out.append("}");
        out
    }

    /// The JSON text of the payload. Writing it never fails.
    pub fn to_json(&self) -> (r: Result<String, Error>)
        ensures
            r is Ok,
            r->Ok_0@ == self.json(),
    {
        let status = match quote_json(self.status.as_str()) {
            Ok(literal) => literal,
            Err(detail) => {
                return Err(Error::Serde(detail));
            },
        };
        match &self.spoiler_text {
            None => Ok(self.frame(status.as_str(), None)),
            Some(text) => match quote_json(text.as_str()) {
                Ok(spoiler) => Ok(self.frame(status.as_str(), Some(spoiler.as_str()))),
                Err(detail) => Err(Error::Serde(detail)),
            },
        }
    }
}

} // verus!
