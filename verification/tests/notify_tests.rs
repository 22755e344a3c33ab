use vibe::notify::{find_first, find_last, notification_body, Tag, TagKey};

fn tag(key: TagKey, value: &str) -> Tag {
    Tag { key, value: value.to_string() }
}

#[test]
fn track_without_title_is_not_announced() {
    assert_eq!(notification_body(&vec![]), None);
    assert_eq!(notification_body(&vec![tag(TagKey::Artist, "Nina Simone"), tag(TagKey::Album, "Pastel Blues")]), None);
}

#[test]
fn title_alone() {
    assert_eq!(notification_body(&vec![tag(TagKey::TrackTitle, "Sinnerman")]), Some("<b>Sinnerman</b>".to_string()));
}

#[test]
fn title_artist_album_and_year() {
    let tags = vec![
        tag(TagKey::Album, "Pastel Blues"),
        tag(TagKey::Year, "1965"),
        tag(TagKey::Other, "ignored"),
        tag(TagKey::TrackTitle, "Sinnerman"),
        tag(TagKey::Artist, "Nina Simone"),
    ];
    assert_eq!(
        notification_body(&tags),
        Some("<b>Sinnerman</b> by <b>Nina Simone</b> from <b>Pastel Blues</b> (1965)".to_string())
    );
}

#[test]
fn parts_without_a_tag_are_left_out() {
    let tags = vec![tag(TagKey::TrackTitle, "Sinnerman"), tag(TagKey::Year, "1965")];
    assert_eq!(notification_body(&tags), Some("<b>Sinnerman</b> (1965)".to_string()));
    let tags = vec![tag(TagKey::TrackTitle, "Sinnerman"), tag(TagKey::Album, "Pastel Blues")];
    assert_eq!(notification_body(&tags), Some("<b>Sinnerman</b> from <b>Pastel Blues</b>".to_string()));
}

#[test]
fn album_artist_wins_over_artist() {
    let tags = vec![
        tag(TagKey::TrackTitle, "T"),
        tag(TagKey::Artist, "first"),
        tag(TagKey::AlbumArtist, "various"),
        tag(TagKey::Artist, "second"),
    ];
    assert_eq!(notification_body(&tags), Some("<b>T</b> by <b>various</b>".to_string()));
    let tags = vec![tag(TagKey::AlbumArtist, "one"), tag(TagKey::TrackTitle, "T"), tag(TagKey::AlbumArtist, "two")];
    assert_eq!(notification_body(&tags), Some("<b>T</b> by <b>two</b>".to_string()));
}

#[test]
fn first_artist_and_last_of_the_rest() {
    let tags = vec![
        tag(TagKey::TrackTitle, "old title"),
        tag(TagKey::Artist, "first"),
        tag(TagKey::Artist, "second"),
        tag(TagKey::Album, "old album"),
        tag(TagKey::Album, "new album"),
        tag(TagKey::Year, "1999"),
        tag(TagKey::Year, "2001"),
        tag(TagKey::TrackTitle, "new title"),
    ];
    assert_eq!(
        notification_body(&tags),
        Some("<b>new title</b> by <b>first</b> from <b>new album</b> (2001)".to_string())
    );
    assert_eq!(find_first(&tags, TagKey::Artist), Some("first".to_string()));
    assert_eq!(find_last(&tags, TagKey::Artist), Some("second".to_string()));
    assert_eq!(find_first(&tags, TagKey::AlbumArtist), None);
    assert_eq!(find_last(&tags, TagKey::Other), None);
}
