//! The tag mutator: rewrites the five tracked metadata fields of one audio
//! file's record. The record models what the tag-codec reads from a file: an
//! optional string value for each tracked field.

use crate::translit::{conv_seq, convert_str};
use vstd::prelude::*;
use vstd::string::*;

verus! {

/// The five tracked metadata fields.
pub enum FieldId {
    TrackTitle,
    TrackArtist,
    AlbumTitle,
    AlbumArtist,
    Genre,
}

/// The in-memory view of one audio file's textual metadata: a value for
/// each tracked field where the file carries one.
pub struct MediaRecord {
    pub track_title: Option<String>,
    pub track_artist: Option<String>,
    pub album_title: Option<String>,
    pub album_artist: Option<String>,
    pub genre: Option<String>,
}

/// The textual content of one optional field.
pub open spec fn field_view(o: Option<String>) -> Option<Seq<char>> {
    match o {
        Option::None => Option::None,
        Option::Some(s) => Option::Some(s@),
    }
}

/// The transliteration of one optional field: an absent field stays absent.
pub open spec fn conv_field(o: Option<Seq<char>>) -> Option<Seq<char>> {
    match o {
        Option::None => Option::None,
        Option::Some(s) => Option::Some(conv_seq(s)),
    }
}

/// Transliterates one optional field value in place.
fn apply_opt(o: &mut Option<String>) -> (changed: bool)
    ensures
        field_view(*final(o)) == conv_field(field_view(*old(o))),
        changed == (conv_field(field_view(*old(o))) != field_view(*old(o))),
{
    match o {
        Option::None => false,
        Option::Some(s) => {
            let c = convert_str(s.as_str());
            if c == *s {
                false
            } else {
                *s = c;
                true
            }
        },
    }
}

impl MediaRecord {
    /// The content of the given field.
    pub open spec fn spec_field(self, f: FieldId) -> Option<Seq<char>> {
        match f {
            FieldId::TrackTitle => field_view(self.track_title),
            FieldId::TrackArtist => field_view(self.track_artist),
            FieldId::AlbumTitle => field_view(self.album_title),
            FieldId::AlbumArtist => field_view(self.album_artist),
            FieldId::Genre => field_view(self.genre),
        }
    }

    /// True where transliterating the given field would change it.
    pub open spec fn field_changes(self, f: FieldId) -> bool {
        conv_field(self.spec_field(f)) != self.spec_field(f)
    }

    /// True where transliterating at least one of the five tracked fields
    /// would change it: exactly the "this file needs saving" flag.
    pub open spec fn any_field_changes(self) -> bool {
        ||| self.field_changes(FieldId::TrackTitle)
        ||| self.field_changes(FieldId::TrackArtist)
        ||| self.field_changes(FieldId::AlbumTitle)
        ||| self.field_changes(FieldId::AlbumArtist)
        ||| self.field_changes(FieldId::Genre)
    }

    /// One step of the tag mutator: an absent field is left alone; a
    /// present one is rewritten exactly where the transliteration changes
    /// it. All other fields keep their values.
    pub fn apply(&mut self, f: FieldId) -> (changed: bool)
        ensures
            final(self).spec_field(f) == conv_field(old(self).spec_field(f)),
            changed == old(self).field_changes(f),
            forall|g: FieldId| g != f ==> #[trigger] final(self).spec_field(g) == old(
                self,
            ).spec_field(g),
    {
        match f {
            FieldId::TrackTitle => apply_opt(&mut self.track_title),
            FieldId::TrackArtist => apply_opt(&mut self.track_artist),
            FieldId::AlbumTitle => apply_opt(&mut self.album_title),
            FieldId::AlbumArtist => apply_opt(&mut self.album_artist),
            FieldId::Genre => apply_opt(&mut self.genre),
        }
    }

    /// Transliterates the five tracked fields, in the fixed field order,
    /// and reports whether any of them changed.
    pub fn convert_fields(&mut self) -> (changed: bool)
        ensures
            forall|f: FieldId| #[trigger] final(self).spec_field(f) == conv_field(
                old(self).spec_field(f),
            ),
            changed == old(self).any_field_changes(),
    {
        let c1 = self.apply(FieldId::TrackArtist);
        let c2 = self.apply(FieldId::TrackTitle);
        let c3 = self.apply(FieldId::AlbumArtist);
        let c4 = self.apply(FieldId::AlbumTitle);
        let c5 = self.apply(FieldId::Genre);
        c1 || c2 || c3 || c4 || c5
    }
}

} // verus!
