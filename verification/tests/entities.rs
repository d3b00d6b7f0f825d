use mammut::entities::{AttachmentType, NotificationType};
use mammut::status_builder::Visibility;
use mammut::text::same_text;

#[test]
fn visibility_reads_its_own_names_only() {
    assert_eq!(Visibility::from_wire("direct"), Some(Visibility::Direct));
    assert_eq!(Visibility::from_wire("private"), Some(Visibility::Private));
    assert_eq!(Visibility::from_wire("unlisted"), Some(Visibility::Unlisted));
    assert_eq!(Visibility::from_wire("public"), Some(Visibility::Public));
    assert_eq!(Visibility::from_wire("Public"), None);
    assert_eq!(Visibility::from_wire(""), None);
    for v in [Visibility::Direct, Visibility::Private, Visibility::Unlisted, Visibility::Public] {
        assert_eq!(Visibility::from_wire(v.as_str()), Some(v));
    }
}

#[test]
fn notification_type_reads_its_own_names_only() {
    assert_eq!(NotificationType::from_wire("mention"), Some(NotificationType::Mention));
    assert_eq!(NotificationType::from_wire("reblog"), Some(NotificationType::Reblog));
    assert_eq!(NotificationType::from_wire("favourite"), Some(NotificationType::Favourite));
    assert_eq!(NotificationType::from_wire("follow"), Some(NotificationType::Follow));
    assert_eq!(NotificationType::from_wire("poll"), None);
    assert_eq!(NotificationType::Favourite.as_str(), "favourite");
}

#[test]
fn attachment_type_falls_back_to_unknown() {
    assert_eq!(AttachmentType::from_wire("image"), AttachmentType::Image);
    assert_eq!(AttachmentType::from_wire("video"), AttachmentType::Video);
    assert_eq!(AttachmentType::from_wire("gifv"), AttachmentType::Gifv);
    assert_eq!(AttachmentType::from_wire("unknown"), AttachmentType::Unknown);
    assert_eq!(AttachmentType::from_wire("audio"), AttachmentType::Unknown);
    assert_eq!(AttachmentType::from_wire(""), AttachmentType::Unknown);
    assert_eq!(AttachmentType::Gifv.as_str(), "gifv");
}

#[test]
fn texts_compare_by_content() {
    assert!(same_text("a", "a"));
    assert!(same_text("", ""));
    assert!(!same_text("a", "A"));
    assert!(!same_text("a", "ab"));
}
