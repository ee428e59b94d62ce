use spt::uri_helper::{
    get_id_from_uri, get_uri_from_id, get_uri_type, get_url_from_uri, split_uris, UriType,
};

#[test]
fn uri_kinds() {
    assert_eq!(get_uri_type("spotify:track:abc"), UriType::Track);
    assert_eq!(get_uri_type("spotify:album:abc"), UriType::Album);
    assert_eq!(get_uri_type("spotify:artist:abc"), UriType::Artist);
    assert_eq!(get_uri_type("spotify:playlist:abc"), UriType::Playlist);
    assert_eq!(get_uri_type("spotify:show:abc"), UriType::Unknown);
    assert_eq!(get_uri_type(""), UriType::Unknown);
}

#[test]
fn ids_from_uris() {
    assert_eq!(get_id_from_uri("spotify:track:4uLU6hMCjMI75M1A2tKUQC"), Some("4uLU6hMCjMI75M1A2tKUQC".to_string()));
    assert_eq!(get_id_from_uri("spotify:track"), None);
    assert_eq!(get_id_from_uri("a:b:c:d"), Some("c".to_string()));
}

#[test]
fn uris_from_ids() {
    assert_eq!(get_uri_from_id(&UriType::Track, "x1"), Some("spotify:track:x1".to_string()));
    assert_eq!(get_uri_from_id(&UriType::Playlist, "p"), Some("spotify:playlist:p".to_string()));
    assert_eq!(get_uri_from_id(&UriType::Unknown, "x1"), None);
}

#[test]
fn urls_from_uris() {
    assert_eq!(
        get_url_from_uri("spotify:album:xyz"),
        Some("https://open.spotify.com/album/xyz".to_string())
    );
    assert_eq!(get_url_from_uri("spotify"), None);
}

#[test]
fn splits_uri_lists() {
    assert_eq!(
        split_uris("  spotify:track:a , spotify:track:b,spotify:track:c "),
        vec!["spotify:track:a", "spotify:track:b", "spotify:track:c"]
    );
    assert_eq!(split_uris(""), vec![""]);
}
