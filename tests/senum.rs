use std::str::FromStr;

use spotify_api::model::senum::{
    AdditionalType, AlbumType, CurrentlyPlayingType, DisallowKey, IncludeExternal, RepeatState,
    Scope, SearchType, TimeRange, Type,
};
use spotify_api::model::artist::SimplifiedArtist;
use spotify_api::model::senum::DeviceType;
use spotify_api::senum;

#[test]
fn album_type_round_trips() {
    for v in [AlbumType::Album, AlbumType::Single, AlbumType::AppearsOn, AlbumType::Compilation] {
        assert_eq!(AlbumType::from_str(v.as_str()).unwrap(), v);
    }
    assert_eq!(AlbumType::AppearsOn.as_str(), "appears_on");
}

#[test]
fn album_type_rejects_unknown_name() {
    let e = AlbumType::from_str("albums").unwrap_err();
    assert_eq!(e.0, "albums");
    assert_eq!(e.message(), "unrecognized enum value albums");
}

#[test]
fn type_names() {
    assert_eq!(Type::from_str("user").unwrap(), Type::User);
    assert_eq!(Type::Episode.as_str(), "episode");
    assert!(Type::from_str("Artist").is_err());
}

#[test]
fn currently_playing_type_ad() {
    assert_eq!(CurrentlyPlayingType::from_str("ad").unwrap(), CurrentlyPlayingType::Advertisement);
    assert_eq!(CurrentlyPlayingType::Advertisement.as_str(), "ad");
}

#[test]
fn disallow_key_names() {
    assert_eq!(DisallowKey::TogglingRepeatContext.as_str(), "toggling_repeat_context");
    assert_eq!("skipping_prev".parse::<DisallowKey>().unwrap(), DisallowKey::SkippingPrev);
    assert!("".parse::<DisallowKey>().is_err());
}

#[test]
fn other_enum_names() {
    assert_eq!(TimeRange::from_str("medium_term").unwrap(), TimeRange::MediumTerm);
    assert_eq!(RepeatState::Context.as_str(), "context");
    assert_eq!(IncludeExternal::from_str("audio").unwrap(), IncludeExternal::Audio);
    assert_eq!(SearchType::from_str("show").unwrap(), SearchType::Show);
    assert_eq!(AdditionalType::from_str("episode").unwrap(), AdditionalType::Episode);
    assert!(IncludeExternal::from_str("video").is_err());
}

#[test]
fn scope_names() {
    assert_eq!(Scope::UgcImageUpload.as_str(), "ugc-image-upload");
    assert_eq!(Scope::UserTopRead.as_str(), "user-top-read");
}

#[test]
fn legacy_enum_error_holds_text() {
    let e = senum::SearchType::from_str("nope").unwrap_err();
    assert!(matches!(e.kind(), senum::ErrorKind::NoEnum(s) if s == "nope"));
    assert_eq!(e.description(), "no proper enum was found");
    assert_eq!(senum::SearchType::from_str("track").unwrap(), senum::SearchType::Track);
    assert_eq!(senum::AlbumType::Compilation.as_str(), "compilation");
}

#[test]
fn scope_as_ref_is_wire_name() {
    let s: &str = Scope::PlaylistReadCollaborative.as_ref();
    assert_eq!(s, "playlist-read-collaborative");
}

#[test]
fn device_type_values_compare() {
    assert_eq!(DeviceType::TV, DeviceType::TV);
    assert_ne!(DeviceType::AVR, DeviceType::STB);
}

#[test]
fn simplified_artist_holds_type() {
    let a = SimplifiedArtist {
        external_urls: std::collections::HashMap::new(),
        href: None,
        id: Some("1".to_string()),
        name: "n".to_string(),
        type_: Type::Artist,
        uri: None,
    };
    assert_eq!(a.type_.as_str(), "artist");
}
