use crate::text::{has_prefix, split_char, split_on, starts_with, strings_view, trim, trim_str};
use vstd::prelude::*;

verus! {

/// The kind of item that a resource URI names.
#[derive(Debug, Clone, Copy, PartialEq, Eq, Structural)]
pub enum UriType {
    Track,
    Album,
    Artist,
    Playlist,
    Unknown,
}

/// The kind of item a URI names, by its prefix.
pub open spec fn uri_type_of(uri: Seq<char>) -> UriType {
    if has_prefix(uri, "spotify:track"@) {
        UriType::Track
    } else if has_prefix(uri, "spotify:album"@) {
        UriType::Album
    } else if has_prefix(uri, "spotify:artist"@) {
        UriType::Artist
    } else if has_prefix(uri, "spotify:playlist"@) {
        UriType::Playlist
    } else {
        UriType::Unknown
    }
}

/// The URI prefix of a kind of item, up to and including the colon before the id.
pub open spec fn uri_prefix(t: UriType) -> Option<Seq<char>> {
    match t {
        UriType::Track => Some("spotify:track:"@),
        UriType::Album => Some("spotify:album:"@),
        UriType::Artist => Some("spotify:artist:"@),
        UriType::Playlist => Some("spotify:playlist:"@),
        UriType::Unknown => None,
    }
}

/// The kind of item that a URI names.
pub fn get_uri_type(uri: &str) -> (r: UriType)
    ensures
        r == uri_type_of(uri@),
{
    if starts_with(uri, "spotify:track") {
        UriType::Track
    } else if starts_with(uri, "spotify:album") {
        UriType::Album
    } else if starts_with(uri, "spotify:artist") {
        UriType::Artist
    } else if starts_with(uri, "spotify:playlist") {
        UriType::Playlist
    } else {
        UriType::Unknown
    }
}

/// The id of a URI: its third colon-separated piece, if it has one.
pub fn get_id_from_uri(uri: &str) -> (r: Option<String>)
    ensures
        match r {
            Some(id) => split_on(uri@, ':').len() >= 3 && id@ == split_on(uri@, ':')[2],
            None => split_on(uri@, ':').len() < 3,
        },
{
    let parts = split_char(uri, ':');
    if parts.len() < 3 {
        return None;
    }
    let id = parts[2].clone();
    assert(strings_view(parts@)[2] == parts@[2]@);
    Some(id)
}

/// The URI of an item of a known kind with the given id.
pub fn get_uri_from_id(uri_type: &UriType, id: &str) -> (r: Option<String>)
    ensures
        match uri_prefix(*uri_type) {
            Some(p) => r is Some && r->0@ == p + id@,
            None => r is None,
        },
{
    let prefix = match uri_type {
        UriType::Track => "spotify:track:",
        UriType::Album => "spotify:album:",
        UriType::Artist => "spotify:artist:",
        UriType::Playlist => "spotify:playlist:",
        UriType::Unknown => return None,
    };
    Some(String::from_str(prefix).concat(id))
}

/// The web page of a URI: the site, then its second and third colon-separated
/// pieces as path segments, if it has them.
pub fn get_url_from_uri(uri: &str) -> (r: Option<String>)
    ensures
        match r {
            Some(url) => split_on(uri@, ':').len() >= 3 && url@ == "https://open.spotify.com/"@
                + split_on(uri@, ':')[1] + "/"@ + split_on(uri@, ':')[2],
            None => split_on(uri@, ':').len() < 3,
        },
{
    let parts = split_char(uri, ':');
    if parts.len() < 3 {
        return None;
    }
    assert(strings_view(parts@)[1] == parts@[1]@);
    assert(strings_view(parts@)[2] == parts@[2]@);
    Some(
        String::from_str("https://open.spotify.com/").concat(parts[1].as_str()).concat("/").concat(
            parts[2].as_str(),
        ),
    )
}

/// The URIs of a comma-separated list, each without surrounding white space.
pub fn split_uris(uris: &str) -> (r: Vec<String>)
    ensures
        strings_view(r@) == split_on(trim(uris@), ',').map_values(|p: Seq<char>| trim(p)),
{
    let whole = trim_str(uris);
    let parts = split_char(whole.as_str(), ',');
    let mut out: Vec<String> = Vec::new();
    let mut i: usize = 0;
    while i < parts.len()
        invariant
            0 <= i <= parts@.len(),
            strings_view(parts@) == split_on(trim(uris@), ','),
            strings_view(out@) == strings_view(parts@).subrange(0, i as int).map_values(
                |p: Seq<char>| trim(p),
            ),
        decreases parts@.len() - i,
    {
        let t = trim_str(parts[i].as_str());
        let ghost before = out@;
        out.push(t);
        assert(strings_view(parts@)[i as int] == parts@[i as int]@);
        assert(strings_view(out@) =~= strings_view(parts@).subrange(0, i + 1).map_values(
            |p: Seq<char>| trim(p),
        )) by {
            assert(strings_view(out@) =~= strings_view(before).push(t@));
        }
        i = i + 1;
    }
    assert(strings_view(parts@).subrange(0, parts@.len() as int) =~= strings_view(parts@));
    out
}

} // verus!
