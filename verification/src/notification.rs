//! What the service shows while it is in the foreground: one notification
//! channel and one ongoing media notification, described as plain values.
//! The embedding program turns them into platform objects.

use vstd::prelude::*;

verus! {

/// The identifier under which the notification is posted when the service
/// enters the foreground.
pub const NOTIFICATION_ID: i32 = 1337;

/// The first platform level that has notification channels.
pub const CHANNEL_API_LEVEL: i32 = 26;

/// Whether a platform of the given level needs the channel to be created
/// before a notification can be posted. Older platforms have no channels,
/// and the step is skipped there.
pub fn channel_required(api_level: i32) -> (required: bool)
    ensures
        required <==> api_level >= CHANNEL_API_LEVEL,
{
    api_level >= CHANNEL_API_LEVEL
}

/// A notification channel, as the user sees it in the system settings.
#[derive(Clone, Copy, Debug)]
pub struct ChannelDescription {
    /// The name by which notifications refer to the channel.
    pub id: &'static str,
    /// The title shown to the user.
    pub name: &'static str,
    /// The explanation shown to the user.
    pub description: &'static str,
}

/// A resource of the application package, looked up by name and kind.
#[derive(Clone, Copy, Debug)]
pub struct IconReference {
    /// The resource's name.
    pub name: &'static str,
    /// The kind of resource, which is the directory it is packaged in.
    pub kind: &'static str,
}

/// The notification of the running service.
#[derive(Clone, Copy, Debug)]
pub struct MediaNotification {
    /// The channel on which it is posted.
    pub channel_id: &'static str,
    /// The first line.
    pub title: &'static str,
    /// The second line.
    pub body: &'static str,
    /// The small icon.
    pub icon: IconReference,
    /// Whether the user is kept from dismissing it.
    pub ongoing: bool,
    /// Whether it is laid out as a media notification.
    pub media_style: bool,
}

/// The name of the service's channel.
pub const CHANNEL_ID: &'static str = "my_channel_id";

/// The channel of the service.
pub fn service_channel() -> (channel: ChannelDescription)
    ensures
        channel.id@ == CHANNEL_ID@,
        channel.name@ == "Multimedia playback"@,
        channel.description@ == "Channel for important notifications."@,
{
    ChannelDescription {
        id: CHANNEL_ID,
        name: "Multimedia playback",
        description: "Channel for important notifications.",
    }
}

/// The notification that the service shows while it runs: posted on the
/// service's own channel, ongoing, and in media style.
pub fn service_notification() -> (notification: MediaNotification)
    ensures
        notification.channel_id@ == CHANNEL_ID@,
        notification.title@ == "Now Playing"@,
        notification.body@ == "Song Title - Artist Name"@,
        notification.icon.name@ == "ic_launcher"@,
        notification.icon.kind@ == "drawable"@,
        notification.ongoing,
        notification.media_style,
{
    MediaNotification {
        channel_id: CHANNEL_ID,
        title: "Now Playing",
        body: "Song Title - Artist Name",
        icon: IconReference { name: "ic_launcher", kind: "drawable" },
        ongoing: true,
        media_style: true,
    }
}

} // verus!
