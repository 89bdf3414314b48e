//! Stations, programs and on-air tracks, built from flattened feed entries.

use vstd::prelude::*;
use crate::fields::FieldMap;
use crate::markup::{convert_fragment, render, wrapped, xml_tree_of};
use crate::text::{decimal_i64, decimal_u64, nfkc_of, normalize, opt_view, parse_i64, parse_u64};
use crate::time::{feed_instant, format_utc, parse_feed_time, parse_rfc3339, rfc3339_instant, utc_text_of};
use crate::text::{decimal_text, u64_text};

verus! {

/// How long a program record is kept after its end: 14 days, in seconds.
pub const RETENTION_SECONDS: i64 = 1209600;

/// How long after its end a program is still worth keeping in a fetch
/// cycle: 4 hours, in seconds.
pub const RECENT_SECONDS: i64 = 14400;

/// A required field of a feed entry.
#[derive(Clone, Copy, Debug, PartialEq, Eq, Structural)]
pub enum Field {
    Id,
    Name,
    Banner,
    AreaId,
    Start,
    End,
    Duration,
    Title,
}

/// Why a feed entry did not become a record.
#[derive(Clone, Copy, Debug, PartialEq, Eq, Structural)]
pub enum BuildError {
    /// The entry holds no text under the field's key.
    MissingField(Field),
    /// The field's text is not a number or timestamp of the expected form.
    ParseFailure(Field),
    /// The end time is so late that the retention mark cannot be represented.
    ExpiryOutOfRange,
}

#[derive(Clone, Debug)]
/// A broadcast station.
pub struct StationChannel {
    pub id: String,
    /// Display name, in NFKC.
    pub name: String,
    pub banner_url: String,
    pub area_id: String,
}

#[derive(Clone, Debug)]
/// A music cue played during a program.
pub struct OnAirTrack {
    pub artist_name: String,
    pub track_title: String,
    pub artwork_url: String,
    /// Seconds from the program's start to the cue's displayed start.
    pub offset_seconds: i64,
}

#[derive(Clone, Debug)]
/// One scheduled broadcast slot of one station. Instants are seconds since
/// the Unix epoch.
pub struct ProgramRecord {
    pub station: StationChannel,
    pub id: u64,
    pub start_time: i64,
    pub end_time: i64,
    /// Length in seconds, as the feed states it.
    pub duration: i64,
    pub title: String,
    pub image_url: Option<String>,
    pub info: Option<String>,
    pub description: Option<String>,
    pub performers: Option<String>,
    pub on_air_tracks: Vec<OnAirTrack>,
    /// The retention mark, derived from the end time (see `wf`).
    pub expire_at: i64,
}

/// The rendered, normalized text of an optional markup fragment.
pub open spec fn converted(o: Option<Seq<char>>) -> Option<Seq<char>> {
    match o {
        Some(s) => Some(nfkc_of(render(xml_tree_of(wrapped(s))))),
        None => None,
    }
}

/// The normalized text of an optional plain string.
pub open spec fn normalized(o: Option<Seq<char>>) -> Option<Seq<char>> {
    match o {
        Some(s) => Some(nfkc_of(s)),
        None => None,
    }
}

/// The first required station field that is missing, in the order id,
/// name, banner, area id.
pub open spec fn station_failure(f: FieldMap) -> Option<BuildError> {
    if f.value_of("id"@) is None {
        Some(BuildError::MissingField(Field::Id))
    } else if f.value_of("name"@) is None {
        Some(BuildError::MissingField(Field::Name))
    } else if f.value_of("banner"@) is None {
        Some(BuildError::MissingField(Field::Banner))
    } else if f.value_of("area_id"@) is None {
        Some(BuildError::MissingField(Field::AreaId))
    } else {
        None
    }
}

/// The first failure of a program entry, checking in order the id, the
/// start, the end, the duration, the title and the retention mark.
pub open spec fn program_failure(f: FieldMap) -> Option<BuildError> {
    if f.value_of("id"@) is None {
        Some(BuildError::MissingField(Field::Id))
    } else if decimal_u64(f.value_of("id"@)->0) is None {
        Some(BuildError::ParseFailure(Field::Id))
    } else if f.value_of("ft"@) is None {
        Some(BuildError::MissingField(Field::Start))
    } else if feed_instant(f.value_of("ft"@)->0) is None {
        Some(BuildError::ParseFailure(Field::Start))
    } else if f.value_of("to"@) is None {
        Some(BuildError::MissingField(Field::End))
    } else if feed_instant(f.value_of("to"@)->0) is None {
        Some(BuildError::ParseFailure(Field::End))
    } else if f.value_of("dur"@) is None {
        Some(BuildError::MissingField(Field::Duration))
    } else if decimal_i64(f.value_of("dur"@)->0) is None {
        Some(BuildError::ParseFailure(Field::Duration))
    } else if f.value_of("title"@) is None {
        Some(BuildError::MissingField(Field::Title))
    } else if feed_instant(f.value_of("to"@)->0)->0 + RETENTION_SECONDS > i64::MAX {
        Some(BuildError::ExpiryOutOfRange)
    } else {
        None
    }
}

fn convert_optional(v: Option<&String>) -> (r: Option<String>)
    ensures
        opt_view(r) == converted(
            match v {
                Some(s) => Some(s@),
                None => None,
            },
        ),
{
    match v {
        Some(s) => {
            let text = convert_fragment(s.as_str());
            Some(normalize(text.as_str()))
        },
        None => None,
    }
}

fn normalize_optional(v: Option<&String>) -> (r: Option<String>)
    ensures
        opt_view(r) == normalized(
            match v {
                Some(s) => Some(s@),
                None => None,
            },
        ),
{
    match v {
        Some(s) => Some(normalize(s.as_str())),
        None => None,
    }
}

impl StationChannel {
    /// Builds a station from the fields `id`, `name`, `banner` and `area_id`;
    /// the name is normalized to NFKC.
    pub fn from_fields(fields: &FieldMap) -> (r: Result<StationChannel, BuildError>)
        ensures
            r is Err <==> station_failure(*fields) is Some,
            r matches Err(e) ==> station_failure(*fields) == Some(e),
            r matches Ok(c) ==> {
                &&& fields.value_of("id"@) == Some(c.id@)
                &&& c.name@ == nfkc_of(fields.value_of("name"@)->0)
                &&& fields.value_of("banner"@) == Some(c.banner_url@)
                &&& fields.value_of("area_id"@) == Some(c.area_id@)
            },
    {
        let id = match fields.get("id") {
            Some(v) => v.clone(),
            None => return Err(BuildError::MissingField(Field::Id)),
        };
        let name = match fields.get("name") {
            Some(v) => normalize(v.as_str()),
            None => return Err(BuildError::MissingField(Field::Name)),
        };
        let banner_url = match fields.get("banner") {
            Some(v) => v.clone(),
            None => return Err(BuildError::MissingField(Field::Banner)),
        };
        let area_id = match fields.get("area_id") {
            Some(v) => v.clone(),
            None => return Err(BuildError::MissingField(Field::AreaId)),
        };
        Ok(StationChannel { id, name, banner_url, area_id })
    }
}

impl OnAirTrack {
    /// A track from a music cue: the artist and title normalized to NFKC,
    /// the artwork URL as it is, and the offset of the cue's displayed start
    /// (RFC 3339) from the program's start. `None` where the displayed start
    /// does not parse, or the offset does not fit in an `i64`.
    pub fn from_cue(
        artist_name: &str,
        track_title: &str,
        artwork_url: &str,
        displayed_start: &str,
        program_start: i64,
    ) -> (r: Option<OnAirTrack>)
        ensures
            r is Some <==> (rfc3339_instant(displayed_start@) matches Some(t) && i64::MIN <= t
                - program_start <= i64::MAX),
            r matches Some(track) ==> {
                &&& track.artist_name@ == nfkc_of(artist_name@)
                &&& track.track_title@ == nfkc_of(track_title@)
                &&& track.artwork_url@ == artwork_url@
                &&& track.offset_seconds == rfc3339_instant(displayed_start@)->0 - program_start
            },
    {
        let shown = match parse_rfc3339(displayed_start) {
            Some(t) => t,
            None => return None,
        };
        let offset_seconds = match shown.checked_sub(program_start) {
            Some(d) => d,
            None => return None,
        };
        Some(
            OnAirTrack {
                artist_name: normalize(artist_name),
                track_title: normalize(track_title),
                artwork_url: String::from_str(artwork_url),
                offset_seconds,
            },
        )
    }
}

/// The deep link for a program of station `station_id` that starts at the
/// text `start` and has id `id`.
pub open spec fn deep_link(station_id: Seq<char>, start: Seq<char>, id: u64) -> Seq<char> {
    "radiko://radiko.onelink.me/?deep_link_sub1="@ + station_id + "&deep_link_sub2="@ + start
        + "&deep_link_value="@ + decimal_text(id as nat)
}

impl ProgramRecord {
    /// On-air tracks are looked up only once a program has ended, that is
    /// when its end is not after `now`.
    pub fn tracks_due(&self, now: i64) -> (r: bool)
        ensures
            r == (self.end_time <= now),
    {
        self.end_time <= now
    }

    /// A program is kept in a fetch cycle unless it ended more than four
    /// hours before `now`.
    pub fn is_recent(&self, now: i64) -> (r: bool)
        ensures
            r == (self.end_time >= now - RECENT_SECONDS),
    {
        if now < i64::MIN + RECENT_SECONDS {
            true
        } else {
            self.end_time >= now - RECENT_SECONDS
        }
    }

    /// The app link for the program: station id, start time as
    /// `YYYYMMDDHHMMSS` in UTC, and program id. `None` where the start time is
    /// outside the range that can be formatted.
    pub fn app_url_scheme(&self) -> (r: Option<String>)
        ensures
            match utc_text_of(self.start_time, "%Y%m%d%H%M%S"@) {
                Some(t) => opt_view(r) == Some(deep_link(self.station.id@, t, self.id)),
                None => r is None,
            },
    {
        let start = match format_utc(self.start_time, "%Y%m%d%H%M%S") {
            Some(t) => t,
            None => return None,
        };
        let mut link = String::from_str("radiko://radiko.onelink.me/?deep_link_sub1=");
        link.append(self.station.id.as_str());
        link.append("&deep_link_sub2=");
        link.append(start.as_str());
        link.append("&deep_link_value=");
        link.append(u64_text(self.id).as_str());
        Some(link)
    }

    /// The record's invariant: the retention mark is the end time plus
    /// fourteen days.
    pub open spec fn wf(&self) -> bool {
        self.expire_at == self.end_time + RETENTION_SECONDS
    }

    /// Builds a program of `station` from a feed entry. Required: `id` (an
    /// unsigned integer), `ft` and `to` (timestamps `YYYYMMDDHHMMSS` at UTC+9;
    /// the end time is required, since the retention mark derives from it),
    /// `dur` (signed seconds) and `title`. Optional: `img`, `info`, `desc`,
    /// `pfm`; `info` and `desc` are rendered from markup, and every text but
    /// the image URL is normalized to NFKC. An absent optional field stays
    /// absent.
    pub fn from_fields(fields: &FieldMap, station: StationChannel) -> (r: Result<
        ProgramRecord,
        BuildError,
    >)
        ensures
            r is Err <==> program_failure(*fields) is Some,
            r matches Err(e) ==> program_failure(*fields) == Some(e),
            r matches Ok(p) ==> {
                &&& p.station == station
                &&& p.id == decimal_u64(fields.value_of("id"@)->0)->0
                &&& p.start_time == feed_instant(fields.value_of("ft"@)->0)->0
                &&& p.end_time == feed_instant(fields.value_of("to"@)->0)->0
                &&& p.duration == decimal_i64(fields.value_of("dur"@)->0)->0
                &&& p.title@ == nfkc_of(fields.value_of("title"@)->0)
                &&& opt_view(p.image_url) == fields.value_of("img"@)
                &&& opt_view(p.info) == converted(fields.value_of("info"@))
                &&& opt_view(p.description) == converted(fields.value_of("desc"@))
                &&& opt_view(p.performers) == normalized(fields.value_of("pfm"@))
                &&& p.on_air_tracks@.len() == 0
                &&& p.wf()
            },
            r matches Ok(p) ==> {
                &&& fields.value_of("img"@) is None ==> p.image_url is None
                &&& fields.value_of("info"@) is None ==> p.info is None
                &&& fields.value_of("desc"@) is None ==> p.description is None
                &&& fields.value_of("pfm"@) is None ==> p.performers is None
            },
    {
        let id = match fields.get("id") {
            Some(v) => match parse_u64(v.as_str()) {
                Some(n) => n,
                None => return Err(BuildError::ParseFailure(Field::Id)),
            },
            None => return Err(BuildError::MissingField(Field::Id)),
        };
        let start_time = match fields.get("ft") {
            Some(v) => match parse_feed_time(v.as_str()) {
                Some(t) => t,
                None => return Err(BuildError::ParseFailure(Field::Start)),
            },
            None => return Err(BuildError::MissingField(Field::Start)),
        };
        let end_time = match fields.get("to") {
            Some(v) => match parse_feed_time(v.as_str()) {
                Some(t) => t,
                None => return Err(BuildError::ParseFailure(Field::End)),
            },
            None => return Err(BuildError::MissingField(Field::End)),
        };
        let duration = match fields.get("dur") {
            Some(v) => match parse_i64(v.as_str()) {
                Some(d) => d,
                None => return Err(BuildError::ParseFailure(Field::Duration)),
            },
            None => return Err(BuildError::MissingField(Field::Duration)),
        };
        let title = match fields.get("title") {
            Some(v) => normalize(v.as_str()),
            None => return Err(BuildError::MissingField(Field::Title)),
        };
        let expire_at = match end_time.checked_add(RETENTION_SECONDS) {
            Some(t) => t,
            None => return Err(BuildError::ExpiryOutOfRange),
        };
        let image_url = match fields.get("img") {
            Some(v) => Some(v.clone()),
            None => None,
        };
        let info = convert_optional(fields.get("info"));
        let description = convert_optional(fields.get("desc"));
        let performers = normalize_optional(fields.get("pfm"));
        Ok(ProgramRecord {
            station,
            id,
            start_time,
            end_time,
            duration,
            title,
            image_url,
            info,
            description,
            performers,
            on_air_tracks: Vec::new(),
            expire_at,
        })
    }
}

} // verus!
