use foreground_service::notification::{
    channel_required, service_channel, service_notification, CHANNEL_API_LEVEL, CHANNEL_ID,
    NOTIFICATION_ID,
};

#[test]
fn notification_identifier() {
    assert_eq!(NOTIFICATION_ID, 1337);
}

#[test]
fn channels_exist_from_level_26() {
    assert_eq!(CHANNEL_API_LEVEL, 26);
    assert!(!channel_required(25));
    assert!(channel_required(26));
    assert!(channel_required(27));
    assert!(channel_required(34));
}

#[test]
fn channel_decision_at_the_ends_of_the_range() {
    assert!(!channel_required(i32::MIN));
    assert!(!channel_required(-1));
    assert!(!channel_required(0));
    assert!(channel_required(i32::MAX));
}

#[test]
fn channel_text() {
    let channel = service_channel();
    assert_eq!(CHANNEL_ID, "my_channel_id");
    assert_eq!(channel.id, "my_channel_id");
    assert_eq!(channel.name, "Multimedia playback");
    assert_eq!(channel.description, "Channel for important notifications.");
}

#[test]
fn notification_fields() {
    let notification = service_notification();
    assert_eq!(notification.title, "Now Playing");
    assert_eq!(notification.body, "Song Title - Artist Name");
    assert_eq!(notification.icon.name, "ic_launcher");
    assert_eq!(notification.icon.kind, "drawable");
    assert!(notification.ongoing);
    assert!(notification.media_style);
}

#[test]
fn notification_is_posted_on_the_service_channel() {
    assert_eq!(service_notification().channel_id, service_channel().id);
}
