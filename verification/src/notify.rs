//! The text of the notification that announces a track.

use vstd::prelude::*;
use vstd::string::*;

verus! {

/// What a metadata tag is about.
#[derive(Clone, Copy, Debug, PartialEq, Eq, Structural)]
pub enum TagKey {
    Artist,
    AlbumArtist,
    Album,
    TrackTitle,
    /// A year of release or of recording.
    Year,
    /// Anything that the notification does not show.
    Other,
}

/// One metadata tag of a track.
#[derive(Clone, Debug, PartialEq, Eq)]
pub struct Tag {
    pub key: TagKey,
    pub value: String,
}

/// The value of the first tag about `key`.
pub open spec fn first_with(tags: Seq<Tag>, key: TagKey) -> Option<String>
    decreases tags.len(),
{
    if tags.len() == 0 {
        None
    } else if tags[0].key == key {
        Some(tags[0].value)
    } else {
        first_with(tags.drop_first(), key)
    }
}

/// The value of the last tag about `key`.
pub open spec fn last_with(tags: Seq<Tag>, key: TagKey) -> Option<String>
    decreases tags.len(),
{
    if tags.len() == 0 {
        None
    } else if tags.last().key == key {
        Some(tags.last().value)
    } else {
        last_with(tags.drop_last(), key)
    }
}

/// The artist to show: the last album artist, else the first artist.
pub open spec fn spec_artist(tags: Seq<Tag>) -> Option<String> {
    match last_with(tags, TagKey::AlbumArtist) {
        Some(artist) => Some(artist),
        None => first_with(tags, TagKey::Artist),
    }
}

/// `value` between `before` and `after`, or nothing without a value.
pub open spec fn spec_part(before: Seq<char>, value: Option<String>, after: Seq<char>) -> Seq<
    char,
> {
    match value {
        Some(v) => before + v@ + after,
        None => Seq::<char>::empty(),
    }
}

/// The body of the notification for a track with these tags: the title in
/// bold, then the artist, the album and the year as far as they are known.
/// A track without a title is not announced.
pub open spec fn spec_notification_body(tags: Seq<Tag>) -> Option<Seq<char>> {
    match last_with(tags, TagKey::TrackTitle) {
        Some(track) => Some(
            "<b>"@ + track@ + "</b>"@ + spec_part(" by <b>"@, spec_artist(tags), "</b>"@)
                + spec_part(" from <b>"@, last_with(tags, TagKey::Album), "</b>"@) + spec_part(
                " ("@,
                last_with(tags, TagKey::Year),
                ")"@,
            ),
        ),
        None => None,
    }
}

/// Find the value of the first tag about `key`.
pub fn find_first(tags: &Vec<Tag>, key: TagKey) -> (found: Option<String>)
    ensures
        found == first_with(tags@, key),
{
    let mut i: usize = tags.len();
    let mut found: Option<String> = None;
    proof {
        assert(tags@.skip(tags.len() as int).len() == 0);
    }
    while i > 0
        invariant
            i <= tags.len(),
            found == first_with(tags@.skip(i as int), key),
        decreases i,
    {
        i = i - 1;
        proof {
            let longer = tags@.skip(i as int);
            assert(longer.drop_first() =~= tags@.skip(i + 1));
            assert(longer[0] == tags@[i as int]);
        }
        if tags[i].key == key {
            found = Some(tags[i].value.clone());
        }
    }
    proof {
        assert(tags@.skip(0) =~= tags@);
    }
    found
}

/// Find the value of the last tag about `key`.
pub fn find_last(tags: &Vec<Tag>, key: TagKey) -> (found: Option<String>)
    ensures
        found == last_with(tags@, key),
{
    let mut i: usize = 0;
    let mut found: Option<String> = None;
    proof {
        assert(tags@.take(0).len() == 0);
    }
    while i < tags.len()
        invariant
            i <= tags.len(),
            found == last_with(tags@.take(i as int), key),
        decreases tags.len() - i,
    {
        proof {
            let longer = tags@.take(i + 1);
            assert(longer.drop_last() =~= tags@.take(i as int));
            assert(longer.last() == tags@[i as int]);
        }
        if tags[i].key == key {
            found = Some(tags[i].value.clone());
        }
        i = i + 1;
    }
    proof {
        assert(tags@.take(tags.len() as int) =~= tags@);
    }
    found
}

/// Append `value` between `before` and `after`, if there is a value.
fn push_part(body: &mut String, before: &str, value: Option<String>, after: &str)
    ensures
        final(body)@ == old(body)@ + spec_part(before@, value, after@),
{
    match value {
        Some(v) => {
            body.append(before);
            body.append(v.as_str());
            body.append(after);
            assert(body@ =~= old(body)@ + spec_part(before@, value, after@));
        },
        None => {
            assert(body@ =~= old(body)@ + spec_part(before@, value, after@));
        },
    }
}

/// Build the body of the notification that announces a track.
pub fn notification_body(tags: &Vec<Tag>) -> (body: Option<String>)
    ensures
        body is Some == spec_notification_body(tags@) is Some,
        body matches Some(text) ==> Some(text@) == spec_notification_body(tags@),
{
    match find_last(tags, TagKey::TrackTitle) {
        Some(track) => {
            let artist = match find_last(tags, TagKey::AlbumArtist) {
                Some(artist) => Some(artist),
                None => find_first(tags, TagKey::Artist),
            };
            let mut body = String::new();
            push_part(&mut body, "<b>", Some(track), "</b>");
            assert(body@ =~= "<b>"@ + track@ + "</b>"@);
            push_part(&mut body, " by <b>", artist, "</b>");
            push_part(&mut body, " from <b>", find_last(tags, TagKey::Album), "</b>");
            push_part(&mut body, " (", find_last(tags, TagKey::Year), ")");
            Some(body)
        },
        None => None,
    }
}

} // verus!
