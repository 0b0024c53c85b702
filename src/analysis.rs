use vstd::prelude::*;
use crate::error::AtiumError;
use crate::json::{JsonValue, entry_of, json_of_text, parse_json, position_of};
use crate::text::is_part_before_dot;

verus! {

/// The tracks of an analysis, in the order the tool gave them: track 0
/// describes the whole file, the others one stream each. A track maps field
/// names to values.
pub struct Media {
    pub track: Vec<Vec<(String, JsonValue)>>,
}

/// An analysis as the analysis tool writes it in JSON:
/// `{"media": {"track": [ {field: value, ...}, ... ]}}`.
pub struct AnalysisOutput {
    pub media: Media,
}

/// The text that a field value is read as: a JSON string gives its
/// characters, any other value the empty text.
pub open spec fn text_of(v: JsonValue) -> Seq<char> {
    match v {
        JsonValue::Text(s) => s@,
        _ => Seq::empty(),
    }
}

/// The tracks that a JSON value holds, where it has the shape of an analysis.
pub open spec fn analysis_tracks(v: JsonValue) -> Option<Seq<Vec<(String, JsonValue)>>> {
    match v {
        JsonValue::Object(root) => match entry_of(root@, "media"@) {
            Some(JsonValue::Object(media)) => match entry_of(media@, "track"@) {
                Some(JsonValue::Array(items)) => if forall|i: int|
                    0 <= i < items@.len() ==> #[trigger] items@[i] is Object {
                    Some(items@.map_values(|t: JsonValue| t->Object_0))
                } else {
                    None
                },
                _ => None,
            },
            _ => None,
        },
        _ => None,
    }
}

/// The outcome of looking up `field_name` in track `track_number`.
pub open spec fn field_lookup(
    tracks: Seq<Vec<(String, JsonValue)>>,
    track_number: int,
    field_name: Seq<char>,
) -> Result<Seq<char>, AtiumError> {
    if track_number < 0 || track_number >= tracks.len() {
        Err(AtiumError::TrackNotFound)
    } else {
        match entry_of(tracks[track_number]@, field_name) {
            Some(v) => Ok(text_of(v)),
            None => Err(AtiumError::FieldNotFound),
        }
    }
}

/// The text of a field value: a string's characters, else the empty text.
fn parse_string_value(value: &JsonValue) -> (r: String)
    ensures
        r@ == text_of(*value),
{
    match value {
        JsonValue::Text(s) => s.clone(),
        _ => String::new(),
    }
}

impl AnalysisOutput {
    pub open spec fn tracks(&self) -> Seq<Vec<(String, JsonValue)>> {
        self.media.track@
    }

    /// Reads field `field_name` of track `track_number` as text.
    pub fn extract_field_from_track(&self, track_number: usize, field_name: &String) -> (r: Result<
        String,
        AtiumError,
    >)
        ensures
            match field_lookup(self.tracks(), track_number as int, field_name@) {
                Ok(t) => r is Ok && r->Ok_0@ == t,
                Err(e) => r == Err::<String, AtiumError>(e),
            },
    {
        if track_number >= self.media.track.len() {
            return Err(AtiumError::TrackNotFound);
        }
        let track = &self.media.track[track_number];
        match position_of(track, field_name) {
            Some(i) => Ok(parse_string_value(&track[i].1)),
            None => Err(AtiumError::FieldNotFound),
        }
    }

    /// The media's duration in `hh:mm:ss` form: field `Duration_String3` of
    /// track 0 up to its first `.`, or `default_duration` where the field
    /// cannot be read.
    pub fn duration_or(&self, default_duration: &String) -> (r: String)
        ensures
            match field_lookup(self.tracks(), 0, "Duration_String3"@) {
                Ok(t) => is_part_before_dot(t, r@),
                Err(_) => r@ == default_duration@,
            },
    {
        match self.extract_field_from_track(0, &String::from_str("Duration_String3")) {
            Ok(field) => crate::text::part_before_dot(field.as_str()),
            Err(_) => default_duration.clone(),
        }
    }
}

/// Takes the analysis out of a JSON value: the root must be an object whose
/// `media` entry is an object whose `track` entry is an array of objects.
pub fn analysis_from_json(value: JsonValue) -> (r: Result<AnalysisOutput, AtiumError>)
    ensures
        match analysis_tracks(value) {
            Some(tracks) => r is Ok && r->Ok_0.tracks() == tracks,
            None => r == Err::<AnalysisOutput, AtiumError>(AtiumError::MalformedAnalysis),
        },
{
    let ghost whole = value;
    let mut root = match value {
        JsonValue::Object(root) => root,
        _ => return Err(AtiumError::MalformedAnalysis),
    };
    assert(whole == JsonValue::Object(root));
    let media_key = String::from_str("media");
    let mut media = match position_of(&root, &media_key) {
        Some(i) => {
            let ghost entry = root@[i as int].1;
            match root.remove(i).1 {
                JsonValue::Object(m) => {
                    assert(entry == JsonValue::Object(m));
                    m
                },
                _ => return Err(AtiumError::MalformedAnalysis),
            }
        },
        None => return Err(AtiumError::MalformedAnalysis),
    };
    assert(entry_of(whole->Object_0@, "media"@) == Some(JsonValue::Object(media)));
    let ghost media0 = media;
    let track_key = String::from_str("track");
    let items = match position_of(&media, &track_key) {
        Some(i) => {
            let ghost entry = media@[i as int].1;
            match media.remove(i).1 {
                JsonValue::Array(items) => {
                    assert(entry == JsonValue::Array(items));
                    items
                },
                _ => return Err(AtiumError::MalformedAnalysis),
            }
        },
        None => return Err(AtiumError::MalformedAnalysis),
    };
    assert(entry_of(media0@, "track"@) == Some(JsonValue::Array(items)));
    let ghost all = items@;
    let ghost items0 = items;
    let mut rest = items;
    let mut tracks: Vec<Vec<(String, JsonValue)>> = Vec::new();
    assert(rest@ =~= all.subrange(0, all.len() as int));
    while rest.len() > 0
        invariant
            whole == value,
            all == items0@,
            whole is Object,
            entry_of(whole->Object_0@, "media"@) == Some(JsonValue::Object(media0)),
            entry_of(media0@, "track"@) == Some(JsonValue::Array(items0)),
            tracks@.len() + rest@.len() == all.len(),
            rest@ == all.subrange(tracks@.len() as int, all.len() as int),
            forall|j: int| 0 <= j < tracks@.len() ==> #[trigger] all[j] is Object,
            tracks@ == all.subrange(0, tracks@.len() as int).map_values(|t: JsonValue| t->Object_0),
        decreases rest@.len(),
    {
        let ghost k = tracks@.len() as int;
        assert(rest@[0] == all[k]);
        let item = rest.remove(0);
        let fields = match item {
            JsonValue::Object(fields) => fields,
            _ => {
                assert(!(forall|i: int| 0 <= i < items0@.len() ==> #[trigger] items0@[i] is Object));
                assert(analysis_tracks(whole) == None::<Seq<Vec<(String, JsonValue)>>>);
                return Err(AtiumError::MalformedAnalysis);
            },
        };
        tracks.push(fields);
        assert(tracks@ =~= all.subrange(0, tracks@.len() as int).map_values(|t: JsonValue| t->Object_0));
        assert(rest@ =~= all.subrange(tracks@.len() as int, all.len() as int));
    }
    assert(all.subrange(0, all.len() as int) =~= all);
    assert(analysis_tracks(whole) == Some(tracks@));
    Ok(AnalysisOutput { media: Media { track: tracks } })
}

/// The analysis that a text holds, where it is JSON of the expected shape.
pub open spec fn analysis_of_text(s: Seq<char>) -> Option<Seq<Vec<(String, JsonValue)>>> {
    match json_of_text(s) {
        Some(v) => analysis_tracks(v),
        None => None,
    }
}

/// Reads analyses from the analysis tool's JSON output.
pub struct MediaInfoJsonLoader {}

impl MediaInfoJsonLoader {
    /// Reads an analysis from JSON text; text that is not JSON, or JSON of
    /// another shape, fails.
    pub fn load_json_from_string(&self, input: &String) -> (r: Result<AnalysisOutput, AtiumError>)
        ensures
            match analysis_of_text(input@) {
                Some(tracks) => r is Ok && r->Ok_0.tracks() == tracks,
                None => r == Err::<AnalysisOutput, AtiumError>(AtiumError::MalformedAnalysis),
            },
    {
        match parse_json(input.as_str()) {
            Some(value) => analysis_from_json(value),
            None => Err(AtiumError::MalformedAnalysis),
        }
    }
}

} // verus!
