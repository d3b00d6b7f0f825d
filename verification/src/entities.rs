//! The enumerations of the entity model, as they are named on the wire.

use vstd::prelude::*;
use crate::text::same_text;

verus! {

/// What a notification tells of.
#[derive(Clone, Copy, Debug, PartialEq, Eq, Structural)]
pub enum NotificationType {
    Mention,
    Reblog,
    Favourite,
    Follow,
}

/// The kind of a media attachment.
#[derive(Clone, Copy, Debug, PartialEq, Eq, Structural)]
pub enum AttachmentType {
    Image,
    Video,
    Gifv,
    /// Any kind that this library does not know.
    Unknown,
}

/// The notification type that a name on the wire stands for, if any.
pub open spec fn notification_named(name: Seq<char>) -> Option<NotificationType> {
    if name == "mention"@ {
        Some(NotificationType::Mention)
    } else if name == "reblog"@ {
        Some(NotificationType::Reblog)
    } else if name == "favourite"@ {
        Some(NotificationType::Favourite)
    } else if name == "follow"@ {
        Some(NotificationType::Follow)
    } else {
        None
    }
}

/// The attachment type that a name on the wire stands for: `Unknown`
/// for every name but those of the three known kinds.
pub open spec fn attachment_named(name: Seq<char>) -> AttachmentType {
    if name == "image"@ {
        AttachmentType::Image
    } else if name == "video"@ {
        AttachmentType::Video
    } else if name == "gifv"@ {
        AttachmentType::Gifv
    } else {
        AttachmentType::Unknown
    }
}

impl NotificationType {
    /// The name of the type on the wire: the variant in lower case.
    pub open spec fn wire(self) -> Seq<char> {
        match self {
            NotificationType::Mention => "mention"@,
            NotificationType::Reblog => "reblog"@,
            NotificationType::Favourite => "favourite"@,
            NotificationType::Follow => "follow"@,
        }
    }

    /// The name of the type on the wire.
    pub fn as_str(&self) -> (r: &'static str)
        ensures
            r@ == self.wire(),
    {
        match self {
            NotificationType::Mention => "mention",
            NotificationType::Reblog => "reblog",
            NotificationType::Favourite => "favourite",
            NotificationType::Follow => "follow",
        }
    }

    /// Reads a notification type from its name on the wire; any other
    /// text is refused.
    pub fn from_wire(name: &str) -> (r: Option<NotificationType>)
        ensures
            r == notification_named(name@),
    {
        if same_text(name, "mention") {
            Some(NotificationType::Mention)
        } else if same_text(name, "reblog") {
            Some(NotificationType::Reblog)
        } else if same_text(name, "favourite") {
            Some(NotificationType::Favourite)
        } else if same_text(name, "follow") {
            Some(NotificationType::Follow)
        } else {
            None
        }
    }
}

impl AttachmentType {
    /// The name of the kind on the wire: the variant in lower case.
    pub open spec fn wire(self) -> Seq<char> {
        match self {
            AttachmentType::Image => "image"@,
            AttachmentType::Video => "video"@,
            AttachmentType::Gifv => "gifv"@,
            AttachmentType::Unknown => "unknown"@,
        }
    }

    /// The name of the kind on the wire.
    pub fn as_str(&self) -> (r: &'static str)
        ensures
            r@ == self.wire(),
    {
        match self {
            AttachmentType::Image => "image",
            AttachmentType::Video => "video",
            AttachmentType::Gifv => "gifv",
            AttachmentType::Unknown => "unknown",
        }
    }

    /// Reads the kind of an attachment from its name on the wire; a
    /// name that is none of the known ones gives `Unknown`.
    pub fn from_wire(name: &str) -> (r: AttachmentType)
        ensures
            r == attachment_named(name@),
    {
        if same_text(name, "image") {
            AttachmentType::Image
        } else if same_text(name, "video") {
            AttachmentType::Video
        } else if same_text(name, "gifv") {
            AttachmentType::Gifv
        } else {
            AttachmentType::Unknown
        }
    }
}

/// A name on the wire stands for a notification type exactly where it
/// is that type's own name.
pub proof fn lemma_notification_names(t: NotificationType, name: Seq<char>)
    ensures
        notification_named(t.wire()) == Some(t),
        notification_named(name) == Some(t) <==> name == t.wire(),
{
    reveal_strlit("mention");
    reveal_strlit("reblog");
    reveal_strlit("favourite");
    reveal_strlit("follow");
    assert("reblog"@[0] != "follow"@[0]);
    assert("mention"@.len() == 7 && "reblog"@.len() == 6 && "favourite"@.len() == 9
        && "follow"@.len() == 6);
}

/// Every kind of attachment is read back from its own name, and a name
/// stands for a known kind only where it is that kind's own name.
pub proof fn lemma_attachment_names(t: AttachmentType, name: Seq<char>)
    ensures
        attachment_named(t.wire()) == t,
        t != AttachmentType::Unknown ==> (attachment_named(name) == t <==> name == t.wire()),
{
    reveal_strlit("image");
    reveal_strlit("video");
    reveal_strlit("gifv");
    reveal_strlit("unknown");
    assert("image"@[0] != "video"@[0]);
    assert("image"@.len() == 5 && "video"@.len() == 5 && "gifv"@.len() == 4 && "unknown"@.len()
        == 7);
}

} // verus!
