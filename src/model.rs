//! The session payload that the media server sends back on a successful login.
use vstd::prelude::*;

verus! {

/// The decoded answer of a successful login: profile, session, and the access token that the server issued.
#[derive(Default, Debug, Clone, PartialEq)]
pub struct ClientData {
    pub user: User,
    pub session_info: SessionInfo,
    pub access_token: Option<String>,
    pub server_id: Option<String>,
}

/// The profile of the user who logged in.
#[derive(Default, Debug, Clone, PartialEq)]
pub struct User {
    pub name: Option<String>,
    pub server_id: Option<String>,
    pub server_name: Option<String>,
    pub id: String,
    pub primary_image_tag: Option<String>,
    pub has_password: bool,
    pub has_configured_password: bool,
    pub has_configured_easy_password: bool,
    pub enable_auto_login: Option<bool>,
    pub last_login_date: Option<String>,
    pub last_activity_date: Option<String>,
    pub configuration: Option<Configuration>,
    pub policy: Option<Policy>,
}

/// Playback and display preferences of a user.
#[derive(Default, Debug, Clone, PartialEq)]
pub struct Configuration {
    pub audio_language_preference: Option<String>,
    pub play_default_audio_track: bool,
    pub subtitle_language_preference: Option<String>,
    pub display_missing_episodes: bool,
    pub grouped_folders: Vec<String>,
    pub subtitle_mode: SubtitleMode,
    pub display_collections_view: bool,
    pub enable_local_password: bool,
    pub ordered_views: Vec<String>,
    pub latest_items_excludes: Vec<String>,
    pub my_media_excludes: Vec<String>,
    pub hide_played_in_latest: bool,
    pub remember_audio_selections: bool,
    pub remember_subtitle_selections: bool,
    pub enable_next_episode_auto_play: bool,
}

/// When subtitles are shown.
#[derive(Default, Debug, Clone, PartialEq)]
pub enum SubtitleMode {
    /// The server's default behaviour.
    #[default]
    Default,
    /// Always shown.
    Always,
    /// Only forced subtitles are shown.
    OnlyForced,
    /// Never shown; the server writes this mode as `None`.
    Never,
    /// Shown when the audio is in another language.
    Smart,
}

/// What a user is permitted to do on the server.
#[derive(Default, Debug, Clone, PartialEq)]
pub struct Policy {
    pub is_administrator: bool,
    pub is_hidden: bool,
    pub is_disabled: bool,
    pub blocked_tags: Vec<String>,
    pub enable_user_preference_access: bool,
    pub max_parental_rating: Option<i32>,
    pub access_schedules: Vec<String>,
    pub block_unrated_items: Vec<String>,
    pub enable_remote_control_of_other_users: bool,
    pub enable_shared_device_control: bool,
    pub enable_remote_access: bool,
    pub enable_live_tv_management: bool,
    pub enable_live_tv_access: bool,
    pub enable_media_playback: bool,
    pub enable_audio_playback_transcoding: bool,
    pub enable_video_playback_transcoding: bool,
    pub enable_playback_remuxing: bool,
    pub force_remote_source_transcoding: bool,
    pub enable_content_deletion: bool,
    pub enable_content_deletion_from_folders: Vec<String>,
    pub enable_content_downloading: bool,
    pub enable_sync_transcoding: bool,
    pub enable_media_conversion: bool,
    pub enabled_devices: Option<Vec<String>>,
    pub enable_all_devices: bool,
    pub enabled_channels: Option<Vec<String>>,
    pub enable_all_channels: bool,
    pub enabled_folders: Option<Vec<String>>,
    pub enable_all_folders: bool,
    pub invalid_login_attempt_count: i64,
    pub login_attempts_before_lockout: i64,
    pub max_active_sessions: i64,
    pub enable_public_sharing: bool,
    pub blocked_media_folders: Option<Vec<String>>,
    pub blocked_channels: Option<Vec<String>>,
    pub remote_client_bitrate_limit: i64,
    pub authentication_provider_id: Option<String>,
    pub password_reset_provider_id: Option<String>,
    pub sync_play_access: String,
}

/// The session that a login opened: device, client and playback state.
#[derive(Default, Debug, Clone, PartialEq)]
pub struct SessionInfo {
    pub play_state: Option<PlayState>,
    pub additional_users: Vec<AdditionalUser>,
    pub capabilities: Option<Capabilities>,
    pub remote_end_point: Option<String>,
    pub playable_media_types: Option<Vec<String>>,
    pub id: Option<String>,
    pub user_id: String,
    pub user_name: Option<String>,
    pub client: Option<String>,
    pub last_activity_date: String,
    pub last_playback_check_in: String,
    pub device_name: Option<String>,
    pub device_type: Option<String>,
    pub now_playing_item: Option<BaseItemDto>,
    pub full_now_playing_item: Option<BaseItem>,
    pub now_viewing_item: Option<BaseItemDto>,
    pub device_id: Option<String>,
    pub application_version: Option<String>,
    pub transcoding_info: Option<TranscodingInfo>,
    pub is_active: bool,
    pub supports_media_control: bool,
    pub supports_remote_control: bool,
    pub now_playing_queue: Option<Vec<QueueItem>>,
    pub now_playing_queue_full_items: Option<BaseItemDto>,
    pub has_custom_device_name: bool,
    pub playlist_item_id: Option<String>,
    pub server_id: Option<String>,
    pub user_primary_image_tag: Option<String>,
    pub supported_commands: Option<Vec<GeneralCommandType>>,
}

/// Playback state of a session.
#[derive(Default, Debug, Clone, PartialEq)]
pub struct PlayState {
    pub can_seek: bool,
    pub is_paused: bool,
    pub is_muted: bool,
    pub repeat_mode: String,
}

/// What the client of a session can do.
#[derive(Default, Debug, Clone, PartialEq)]
pub struct Capabilities {
    pub playable_media_types: Option<Vec<String>>,
    pub supported_commands: Option<Vec<GeneralCommandType>>,
    pub supports_media_control: bool,
    pub supports_content_uploading: bool,
    pub message_callback_url: Option<String>,
    pub supports_sync: bool,
    pub supports_persistent_identifier: bool,
    pub device_profile: Option<DeviceProfile>,
    pub app_store_url: Option<String>,
    pub icon_url: Option<String>,
}

/// A media item; its fields are not read.
#[derive(Default, Debug, Clone, PartialEq)]
pub struct BaseItem {}

/// A media item as the server sends it; its fields are not read.
#[derive(Default, Debug, Clone, PartialEq)]
pub struct BaseItemDto {}

/// Transcoding state of a session; its fields are not read.
#[derive(Default, Debug, Clone, PartialEq)]
pub struct TranscodingInfo {}

/// An entry of the play queue; its fields are not read.
#[derive(Default, Debug, Clone, PartialEq)]
pub struct QueueItem {}

/// Playback profile of a device; its fields are not read.
#[derive(Default, Debug, Clone, PartialEq)]
pub struct DeviceProfile {}

/// Another user who shares a session.
#[derive(Default, Debug, Clone, PartialEq)]
pub struct AdditionalUser {
    pub user_id: String,
    pub user_name: Option<String>,
}

/// A remote command that a client supports.
#[derive(Debug, Clone, PartialEq)]
pub enum GeneralCommandType {
    MoveUp,
    MoveDown,
    MoveLeft,
    MoveRight,
    PageUp,
    PageDown,
    PreviousLetter,
    NextLetter,
    ToggleOsd,
    ToggleContextMenu,
    Select,
    Back,
    TakeScreenshot,
    SendKey,
    SendString,
    GoHome,
    GoToSettings,
    VolumeUp,
    VolumeDown,
    Mute,
    Unmute,
    ToggleMute,
    SetVolume,
    SetAudioStreamIndex,
    SetSubtitleStreamIndex,
    ToggleFullscreen,
    DisplayContent,
    GoToSearch,
    DisplayMessage,
    SetRepeatMode,
    ChannelUp,
    ChannelDown,
    Guide,
    ToggleStats,
    PlayMediaSource,
    PlayTrailers,
    SetShuffleQueue,
    PlayState,
    PlayNext,
    ToggleOsdMenu,
    Play,
    SetMaxStreamingBitrate,
}

} // verus!
