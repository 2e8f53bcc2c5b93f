use vstd::prelude::*;
use crate::encoding::text_eq;

verus! {

/// A wire name that matches no value of the enum it was read as.
#[derive(Clone, Debug)]
pub struct Unrecognized(pub String);

impl Unrecognized {
    /// The text that was not recognized.
    pub open spec fn text(self) -> Seq<char> {
        self.0@
    }

    /// The message that describes the error.
    pub fn message(&self) -> (r: String)
        ensures
            r@ == "unrecognized enum value "@ + self.0@,
    {
        let mut m = String::from_str("unrecognized enum value ");
        m.append(self.0.as_str());
        m
    }
}

/// Album type: `album`, `single`, `appears_on` or `compilation`.
#[derive(Clone, Copy, Debug, PartialEq, Eq, Structural)]
pub enum AlbumType {
    Album,
    Single,
    AppearsOn,
    Compilation,
}

impl AlbumType {
    /// The wire name of the value.
    pub open spec fn name(self) -> Seq<char> {
        match self {
            AlbumType::Album => "album"@,
            AlbumType::Single => "single"@,
            AlbumType::AppearsOn => "appears_on"@,
            AlbumType::Compilation => "compilation"@,
        }
    }

    pub fn as_str(&self) -> (r: &str)
        ensures
            r@ == self.name(),
    {
        match *self {
            AlbumType::Album => "album",
            AlbumType::Single => "single",
            AlbumType::AppearsOn => "appears_on",
            AlbumType::Compilation => "compilation",
        }
    }

    /// The value whose wire name is `s`; an error that holds `s` when there is
    /// none.
    pub fn from_name(s: &str) -> (r: Result<AlbumType, Unrecognized>)
        ensures
            r is Ok ==> r->Ok_0.name() == s@,
            r is Err ==> (forall|v: AlbumType| v.name() != s@),
            r is Err ==> r->Err_0.text() == s@,
    {
        if text_eq(s, "album") {
            Ok(AlbumType::Album)
        } else if text_eq(s, "single") {
            Ok(AlbumType::Single)
        } else if text_eq(s, "appears_on") {
            Ok(AlbumType::AppearsOn)
        } else if text_eq(s, "compilation") {
            Ok(AlbumType::Compilation)
        } else {
            assert forall|v: AlbumType| v.name() != s@ by {
                match v {
                    AlbumType::Album => {},
                    AlbumType::Single => {},
                    AlbumType::AppearsOn => {},
                    AlbumType::Compilation => {},
                }
            }
            Err(Unrecognized(s.to_owned()))
        }
    }
}

impl std::str::FromStr for AlbumType {
    type Err = Unrecognized;

    fn from_str(s: &str) -> Result<AlbumType, Unrecognized> {
        AlbumType::from_name(s)
    }
}

/// Object type: `artist`, `album`, `track`, `playlist`, `user`, `show` or `episode`.
#[derive(Clone, Copy, Debug, PartialEq, Eq, Structural)]
pub enum Type {
    Artist,
    Album,
    Track,
    Playlist,
    User,
    Show,
    Episode,
}

impl Type {
    /// The wire name of the value.
    pub open spec fn name(self) -> Seq<char> {
        match self {
            Type::Artist => "artist"@,
            Type::Album => "album"@,
            Type::Track => "track"@,
            Type::Playlist => "playlist"@,
            Type::User => "user"@,
            Type::Show => "show"@,
            Type::Episode => "episode"@,
        }
    }

    pub fn as_str(&self) -> (r: &str)
        ensures
            r@ == self.name(),
    {
        match *self {
            Type::Artist => "artist",
            Type::Album => "album",
            Type::Track => "track",
            Type::Playlist => "playlist",
            Type::User => "user",
            Type::Show => "show",
            Type::Episode => "episode",
        }
    }

    /// The value whose wire name is `s`; an error that holds `s` when there is
    /// none.
    pub fn from_name(s: &str) -> (r: Result<Type, Unrecognized>)
        ensures
            r is Ok ==> r->Ok_0.name() == s@,
            r is Err ==> (forall|v: Type| v.name() != s@),
            r is Err ==> r->Err_0.text() == s@,
    {
        if text_eq(s, "artist") {
            Ok(Type::Artist)
        } else if text_eq(s, "album") {
            Ok(Type::Album)
        } else if text_eq(s, "track") {
            Ok(Type::Track)
        } else if text_eq(s, "playlist") {
            Ok(Type::Playlist)
        } else if text_eq(s, "user") {
            Ok(Type::User)
        } else if text_eq(s, "show") {
            Ok(Type::Show)
        } else if text_eq(s, "episode") {
            Ok(Type::Episode)
        } else {
            assert forall|v: Type| v.name() != s@ by {
                match v {
                    Type::Artist => {},
                    Type::Album => {},
                    Type::Track => {},
                    Type::Playlist => {},
                    Type::User => {},
                    Type::Show => {},
                    Type::Episode => {},
                }
            }
            Err(Unrecognized(s.to_owned()))
        }
    }
}

impl std::str::FromStr for Type {
    type Err = Unrecognized;

    fn from_str(s: &str) -> Result<Type, Unrecognized> {
        Type::from_name(s)
    }
}

/// Additional item type: `track` or `episode`.
#[derive(Clone, Copy, Debug, PartialEq, Eq, Structural)]
pub enum AdditionalType {
    Track,
    Episode,
}

impl AdditionalType {
    /// The wire name of the value.
    pub open spec fn name(self) -> Seq<char> {
        match self {
            AdditionalType::Track => "track"@,
            AdditionalType::Episode => "episode"@,
        }
    }

    pub fn as_str(&self) -> (r: &str)
        ensures
            r@ == self.name(),
    {
        match *self {
            AdditionalType::Track => "track",
            AdditionalType::Episode => "episode",
        }
    }

    /// The value whose wire name is `s`; an error that holds `s` when there is
    /// none.
    pub fn from_name(s: &str) -> (r: Result<AdditionalType, Unrecognized>)
        ensures
            r is Ok ==> r->Ok_0.name() == s@,
            r is Err ==> (forall|v: AdditionalType| v.name() != s@),
            r is Err ==> r->Err_0.text() == s@,
    {
        if text_eq(s, "track") {
            Ok(AdditionalType::Track)
        } else if text_eq(s, "episode") {
            Ok(AdditionalType::Episode)
        } else {
            assert forall|v: AdditionalType| v.name() != s@ by {
                match v {
                    AdditionalType::Track => {},
                    AdditionalType::Episode => {},
                }
            }
            Err(Unrecognized(s.to_owned()))
        }
    }
}

impl std::str::FromStr for AdditionalType {
    type Err = Unrecognized;

    fn from_str(s: &str) -> Result<AdditionalType, Unrecognized> {
        AdditionalType::from_name(s)
    }
}

/// What is playing: `track`, `episode`, `ad` or `unknown`.
#[derive(Clone, Copy, Debug, PartialEq, Eq, Structural)]
pub enum CurrentlyPlayingType {
    Track,
    Episode,
    Advertisement,
    Unknown,
}

impl CurrentlyPlayingType {
    /// The wire name of the value.
    pub open spec fn name(self) -> Seq<char> {
        match self {
            CurrentlyPlayingType::Track => "track"@,
            CurrentlyPlayingType::Episode => "episode"@,
            CurrentlyPlayingType::Advertisement => "ad"@,
            CurrentlyPlayingType::Unknown => "unknown"@,
        }
    }

    pub fn as_str(&self) -> (r: &str)
        ensures
            r@ == self.name(),
    {
        match *self {
            CurrentlyPlayingType::Track => "track",
            CurrentlyPlayingType::Episode => "episode",
            CurrentlyPlayingType::Advertisement => "ad",
            CurrentlyPlayingType::Unknown => "unknown",
        }
    }

    /// The value whose wire name is `s`; an error that holds `s` when there is
    /// none.
    pub fn from_name(s: &str) -> (r: Result<CurrentlyPlayingType, Unrecognized>)
        ensures
            r is Ok ==> r->Ok_0.name() == s@,
            r is Err ==> (forall|v: CurrentlyPlayingType| v.name() != s@),
            r is Err ==> r->Err_0.text() == s@,
    {
        if text_eq(s, "track") {
            Ok(CurrentlyPlayingType::Track)
        } else if text_eq(s, "episode") {
            Ok(CurrentlyPlayingType::Episode)
        } else if text_eq(s, "ad") {
            Ok(CurrentlyPlayingType::Advertisement)
        } else if text_eq(s, "unknown") {
            Ok(CurrentlyPlayingType::Unknown)
        } else {
            assert forall|v: CurrentlyPlayingType| v.name() != s@ by {
                match v {
                    CurrentlyPlayingType::Track => {},
                    CurrentlyPlayingType::Episode => {},
                    CurrentlyPlayingType::Advertisement => {},
                    CurrentlyPlayingType::Unknown => {},
                }
            }
            Err(Unrecognized(s.to_owned()))
        }
    }
}

impl std::str::FromStr for CurrentlyPlayingType {
    type Err = Unrecognized;

    fn from_str(s: &str) -> Result<CurrentlyPlayingType, Unrecognized> {
        CurrentlyPlayingType::from_name(s)
    }
}

/// An action that playback may disallow.
#[derive(Clone, Copy, Debug, PartialEq, Eq, Structural, Hash)]
pub enum DisallowKey {
    InterruptingPlayback,
    Pausing,
    Resuming,
    Seeking,
    SkippingNext,
    SkippingPrev,
    TogglingRepeatContext,
    TogglingShuffle,
    TogglingRepeatTrack,
    TransferringPlayback,
}

impl DisallowKey {
    /// The wire name of the value.
    pub open spec fn name(self) -> Seq<char> {
        match self {
            DisallowKey::InterruptingPlayback => "interrupting_playback"@,
            DisallowKey::Pausing => "pausing"@,
            DisallowKey::Resuming => "resuming"@,
            DisallowKey::Seeking => "seeking"@,
            DisallowKey::SkippingNext => "skipping_next"@,
            DisallowKey::SkippingPrev => "skipping_prev"@,
            DisallowKey::TogglingRepeatContext => "toggling_repeat_context"@,
            DisallowKey::TogglingShuffle => "toggling_shuffle"@,
            DisallowKey::TogglingRepeatTrack => "toggling_repeat_track"@,
            DisallowKey::TransferringPlayback => "transferring_playback"@,
        }
    }

    pub fn as_str(&self) -> (r: &str)
        ensures
            r@ == self.name(),
    {
        match *self {
            DisallowKey::InterruptingPlayback => "interrupting_playback",
            DisallowKey::Pausing => "pausing",
            DisallowKey::Resuming => "resuming",
            DisallowKey::Seeking => "seeking",
            DisallowKey::SkippingNext => "skipping_next",
            DisallowKey::SkippingPrev => "skipping_prev",
            DisallowKey::TogglingRepeatContext => "toggling_repeat_context",
            DisallowKey::TogglingShuffle => "toggling_shuffle",
            DisallowKey::TogglingRepeatTrack => "toggling_repeat_track",
            DisallowKey::TransferringPlayback => "transferring_playback",
        }
    }

    /// The value whose wire name is `s`; an error that holds `s` when there is
    /// none.
    pub fn from_name(s: &str) -> (r: Result<DisallowKey, Unrecognized>)
        ensures
            r is Ok ==> r->Ok_0.name() == s@,
            r is Err ==> (forall|v: DisallowKey| v.name() != s@),
            r is Err ==> r->Err_0.text() == s@,
    {
        if text_eq(s, "interrupting_playback") {
            Ok(DisallowKey::InterruptingPlayback)
        } else if text_eq(s, "pausing") {
            Ok(DisallowKey::Pausing)
        } else if text_eq(s, "resuming") {
            Ok(DisallowKey::Resuming)
        } else if text_eq(s, "seeking") {
            Ok(DisallowKey::Seeking)
        } else if text_eq(s, "skipping_next") {
            Ok(DisallowKey::SkippingNext)
        } else if text_eq(s, "skipping_prev") {
            Ok(DisallowKey::SkippingPrev)
        } else if text_eq(s, "toggling_repeat_context") {
            Ok(DisallowKey::TogglingRepeatContext)
        } else if text_eq(s, "toggling_shuffle") {
            Ok(DisallowKey::TogglingShuffle)
        } else if text_eq(s, "toggling_repeat_track") {
            Ok(DisallowKey::TogglingRepeatTrack)
        } else if text_eq(s, "transferring_playback") {
            Ok(DisallowKey::TransferringPlayback)
        } else {
            assert forall|v: DisallowKey| v.name() != s@ by {
                match v {
                    DisallowKey::InterruptingPlayback => {},
                    DisallowKey::Pausing => {},
                    DisallowKey::Resuming => {},
                    DisallowKey::Seeking => {},
                    DisallowKey::SkippingNext => {},
                    DisallowKey::SkippingPrev => {},
                    DisallowKey::TogglingRepeatContext => {},
                    DisallowKey::TogglingShuffle => {},
                    DisallowKey::TogglingRepeatTrack => {},
                    DisallowKey::TransferringPlayback => {},
                }
            }
            Err(Unrecognized(s.to_owned()))
        }
    }
}

impl std::str::FromStr for DisallowKey {
    type Err = Unrecognized;

    fn from_str(s: &str) -> Result<DisallowKey, Unrecognized> {
        DisallowKey::from_name(s)
    }
}

/// Time range of listening history: `long_term`, `medium_term` or `short_term`.
#[derive(Clone, Copy, Debug, PartialEq, Eq, Structural)]
pub enum TimeRange {
    LongTerm,
    MediumTerm,
    ShortTerm,
}

impl TimeRange {
    /// The wire name of the value.
    pub open spec fn name(self) -> Seq<char> {
        match self {
            TimeRange::LongTerm => "long_term"@,
            TimeRange::MediumTerm => "medium_term"@,
            TimeRange::ShortTerm => "short_term"@,
        }
    }

    pub fn as_str(&self) -> (r: &str)
        ensures
            r@ == self.name(),
    {
        match *self {
            TimeRange::LongTerm => "long_term",
            TimeRange::MediumTerm => "medium_term",
            TimeRange::ShortTerm => "short_term",
        }
    }

    /// The value whose wire name is `s`; an error that holds `s` when there is
    /// none.
    pub fn from_name(s: &str) -> (r: Result<TimeRange, Unrecognized>)
        ensures
            r is Ok ==> r->Ok_0.name() == s@,
            r is Err ==> (forall|v: TimeRange| v.name() != s@),
            r is Err ==> r->Err_0.text() == s@,
    {
        if text_eq(s, "long_term") {
            Ok(TimeRange::LongTerm)
        } else if text_eq(s, "medium_term") {
            Ok(TimeRange::MediumTerm)
        } else if text_eq(s, "short_term") {
            Ok(TimeRange::ShortTerm)
        } else {
            assert forall|v: TimeRange| v.name() != s@ by {
                match v {
                    TimeRange::LongTerm => {},
                    TimeRange::MediumTerm => {},
                    TimeRange::ShortTerm => {},
                }
            }
            Err(Unrecognized(s.to_owned()))
        }
    }
}

impl std::str::FromStr for TimeRange {
    type Err = Unrecognized;

    fn from_str(s: &str) -> Result<TimeRange, Unrecognized> {
        TimeRange::from_name(s)
    }
}

/// Repeat mode: `off`, `track` (repeat the current track) or `context` (repeat the
/// current context).
#[derive(Clone, Copy, Debug, PartialEq, Eq, Structural)]
pub enum RepeatState {
    Off,
    Track,
    Context,
}

impl RepeatState {
    /// The wire name of the value.
    pub open spec fn name(self) -> Seq<char> {
        match self {
            RepeatState::Off => "off"@,
            RepeatState::Track => "track"@,
            RepeatState::Context => "context"@,
        }
    }

    pub fn as_str(&self) -> (r: &str)
        ensures
            r@ == self.name(),
    {
        match *self {
            RepeatState::Off => "off",
            RepeatState::Track => "track",
            RepeatState::Context => "context",
        }
    }

    /// The value whose wire name is `s`; an error that holds `s` when there is
    /// none.
    pub fn from_name(s: &str) -> (r: Result<RepeatState, Unrecognized>)
        ensures
            r is Ok ==> r->Ok_0.name() == s@,
            r is Err ==> (forall|v: RepeatState| v.name() != s@),
            r is Err ==> r->Err_0.text() == s@,
    {
        if text_eq(s, "off") {
            Ok(RepeatState::Off)
        } else if text_eq(s, "track") {
            Ok(RepeatState::Track)
        } else if text_eq(s, "context") {
            Ok(RepeatState::Context)
        } else {
            assert forall|v: RepeatState| v.name() != s@ by {
                match v {
                    RepeatState::Off => {},
                    RepeatState::Track => {},
                    RepeatState::Context => {},
                }
            }
            Err(Unrecognized(s.to_owned()))
        }
    }
}

impl std::str::FromStr for RepeatState {
    type Err = Unrecognized;

    fn from_str(s: &str) -> Result<RepeatState, Unrecognized> {
        RepeatState::from_name(s)
    }
}

/// Value of `include_external`: `audio`.
#[derive(Clone, Copy, Debug, PartialEq, Eq, Structural)]
pub enum IncludeExternal {
    Audio,
}

impl IncludeExternal {
    /// The wire name of the value.
    pub open spec fn name(self) -> Seq<char> {
        match self {
            IncludeExternal::Audio => "audio"@,
        }
    }

    pub fn as_str(&self) -> (r: &str)
        ensures
            r@ == self.name(),
    {
        match *self {
            IncludeExternal::Audio => "audio",
        }
    }

    /// The value whose wire name is `s`; an error that holds `s` when there is
    /// none.
    pub fn from_name(s: &str) -> (r: Result<IncludeExternal, Unrecognized>)
        ensures
            r is Ok ==> r->Ok_0.name() == s@,
            r is Err ==> (forall|v: IncludeExternal| v.name() != s@),
            r is Err ==> r->Err_0.text() == s@,
    {
        if text_eq(s, "audio") {
            Ok(IncludeExternal::Audio)
        } else {
            assert forall|v: IncludeExternal| v.name() != s@ by {
                match v {
                    IncludeExternal::Audio => {},
                }
            }
            Err(Unrecognized(s.to_owned()))
        }
    }
}

impl std::str::FromStr for IncludeExternal {
    type Err = Unrecognized;

    fn from_str(s: &str) -> Result<IncludeExternal, Unrecognized> {
        IncludeExternal::from_name(s)
    }
}

/// Searchable object type: `artist`, `album`, `track`, `playlist`, `show` or
/// `episode`.
#[derive(Clone, Copy, Debug, PartialEq, Eq, Structural)]
pub enum SearchType {
    Artist,
    Album,
    Track,
    Playlist,
    Show,
    Episode,
}

impl SearchType {
    /// The wire name of the value.
    pub open spec fn name(self) -> Seq<char> {
        match self {
            SearchType::Artist => "artist"@,
            SearchType::Album => "album"@,
            SearchType::Track => "track"@,
            SearchType::Playlist => "playlist"@,
            SearchType::Show => "show"@,
            SearchType::Episode => "episode"@,
        }
    }

    pub fn as_str(&self) -> (r: &str)
        ensures
            r@ == self.name(),
    {
        match *self {
            SearchType::Artist => "artist",
            SearchType::Album => "album",
            SearchType::Track => "track",
            SearchType::Playlist => "playlist",
            SearchType::Show => "show",
            SearchType::Episode => "episode",
        }
    }

    /// The value whose wire name is `s`; an error that holds `s` when there is
    /// none.
    pub fn from_name(s: &str) -> (r: Result<SearchType, Unrecognized>)
        ensures
            r is Ok ==> r->Ok_0.name() == s@,
            r is Err ==> (forall|v: SearchType| v.name() != s@),
            r is Err ==> r->Err_0.text() == s@,
    {
        if text_eq(s, "artist") {
            Ok(SearchType::Artist)
        } else if text_eq(s, "album") {
            Ok(SearchType::Album)
        } else if text_eq(s, "track") {
            Ok(SearchType::Track)
        } else if text_eq(s, "playlist") {
            Ok(SearchType::Playlist)
        } else if text_eq(s, "show") {
            Ok(SearchType::Show)
        } else if text_eq(s, "episode") {
            Ok(SearchType::Episode)
        } else {
            assert forall|v: SearchType| v.name() != s@ by {
                match v {
                    SearchType::Artist => {},
                    SearchType::Album => {},
                    SearchType::Track => {},
                    SearchType::Playlist => {},
                    SearchType::Show => {},
                    SearchType::Episode => {},
                }
            }
            Err(Unrecognized(s.to_owned()))
        }
    }
}

impl std::str::FromStr for SearchType {
    type Err = Unrecognized;

    fn from_str(s: &str) -> Result<SearchType, Unrecognized> {
        SearchType::from_name(s)
    }
}

/// Kind of playback device.
#[derive(Clone, Copy, Debug, PartialEq, Eq, Structural)]
pub enum DeviceType {
    Computer,
    Tablet,
    Smartphone,
    Speaker,
    TV,
    AVR,
    STB,
    AudioDongle,
    GameConsole,
    CastVideo,
    CastAudio,
    Automobile,
    Unknown,
}

/// An authorization scope that an application may ask for.
#[derive(Clone, Copy, Debug, PartialEq, Eq, Structural)]
pub enum Scope {
    AppRemoteControl,
    PlaylistModifyPrivate,
    PlaylistModifyPublic,
    PlaylistReadCollaborative,
    PlaylistReadPrivate,
    Streaming,
    UgcImageUpload,
    UserFollowRead,
    UserLibraryModify,
    UserLibraryRead,
    UserFollowModify,
    UserModifyPlaybackState,
    UserReadCurrentlyPlaying,
    UserReadEmail,
    UserReadPlaybackState,
    UserReadPlaybackPosition,
    UserReadPrivate,
    UserReadRecentlyPlayed,
    UserTopRead,
}

impl Scope {
    /// The wire name of the scope.
    pub open spec fn name(self) -> Seq<char> {
        match self {
            Scope::AppRemoteControl => "app-remote-control"@,
            Scope::PlaylistModifyPrivate => "playlist-modify-private"@,
            Scope::PlaylistModifyPublic => "playlist-modify-public"@,
            Scope::PlaylistReadCollaborative => "playlist-read-collaborative"@,
            Scope::PlaylistReadPrivate => "playlist-read-private"@,
            Scope::Streaming => "streaming"@,
            Scope::UgcImageUpload => "ugc-image-upload"@,
            Scope::UserFollowRead => "user-follow-read"@,
            Scope::UserLibraryModify => "user-library-modify"@,
            Scope::UserLibraryRead => "user-library-read"@,
            Scope::UserFollowModify => "user-follow-modify"@,
            Scope::UserModifyPlaybackState => "user-modify-playback-state"@,
            Scope::UserReadCurrentlyPlaying => "user-read-currently-playing"@,
            Scope::UserReadEmail => "user-read-email"@,
            Scope::UserReadPlaybackState => "user-read-playback-state"@,
            Scope::UserReadPlaybackPosition => "user-read-playback-position"@,
            Scope::UserReadPrivate => "user-read-private"@,
            Scope::UserReadRecentlyPlayed => "user-read-recently-played"@,
            Scope::UserTopRead => "user-top-read"@,
        }
    }

    pub fn as_str(&self) -> (r: &'static str)
        ensures
            r@ == self.name(),
    {
        match *self {
            Scope::AppRemoteControl => "app-remote-control",
            Scope::PlaylistModifyPrivate => "playlist-modify-private",
            Scope::PlaylistModifyPublic => "playlist-modify-public",
            Scope::PlaylistReadCollaborative => "playlist-read-collaborative",
            Scope::PlaylistReadPrivate => "playlist-read-private",
            Scope::Streaming => "streaming",
            Scope::UgcImageUpload => "ugc-image-upload",
            Scope::UserFollowRead => "user-follow-read",
            Scope::UserLibraryModify => "user-library-modify",
            Scope::UserLibraryRead => "user-library-read",
            Scope::UserFollowModify => "user-follow-modify",
            Scope::UserModifyPlaybackState => "user-modify-playback-state",
            Scope::UserReadCurrentlyPlaying => "user-read-currently-playing",
            Scope::UserReadEmail => "user-read-email",
            Scope::UserReadPlaybackState => "user-read-playback-state",
            Scope::UserReadPlaybackPosition => "user-read-playback-position",
            Scope::UserReadPrivate => "user-read-private",
            Scope::UserReadRecentlyPlayed => "user-read-recently-played",
            Scope::UserTopRead => "user-top-read",
        }
    }
}

impl AsRef<str> for Scope {
    fn as_ref(&self) -> &str {
        self.as_str()
    }
}

} // verus!
