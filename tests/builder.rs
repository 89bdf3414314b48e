use hello_radiko::fields::FieldMap;
use hello_radiko::program::{BuildError, Field, OnAirTrack, ProgramRecord, StationChannel};

fn station() -> StationChannel {
    StationChannel {
        id: "TBS".to_string(),
        name: "TBSラジオ".to_string(),
        banner_url: "https://example.invalid/b.png".to_string(),
        area_id: "JP13".to_string(),
    }
}

fn base_fields() -> FieldMap {
    let mut m = FieldMap::new();
    m.insert("title".to_string(), Some("ＡＢＣ radio".to_string()));
    m.insert("id".to_string(), Some("42".to_string()));
    m.insert("ft".to_string(), Some("20240101090000".to_string()));
    m.insert("to".to_string(), Some("20240101093000".to_string()));
    m.insert("dur".to_string(), Some("1800".to_string()));
    m
}

#[test]
fn builds_full_record() {
    let p = ProgramRecord::from_fields(&base_fields(), station()).unwrap();
    assert_eq!(p.id, 42);
    assert_eq!(p.start_time, 1704067200);
    assert_eq!(p.end_time, 1704069000);
    assert_eq!(p.duration, 1800);
    assert_eq!(p.duration / 60, 30);
    assert_eq!(p.expire_at, 1704069000 + 14 * 24 * 3600);
    assert_eq!(p.title, "ABC radio");
    assert!(p.on_air_tracks.is_empty());
    assert_eq!(p.station.id, "TBS");
}

#[test]
fn missing_title_is_reported() {
    let mut m = FieldMap::new();
    m.insert("id".to_string(), Some("42".to_string()));
    m.insert("ft".to_string(), Some("20240101090000".to_string()));
    m.insert("to".to_string(), Some("20240101093000".to_string()));
    m.insert("dur".to_string(), Some("1800".to_string()));
    let r = ProgramRecord::from_fields(&m, station());
    assert!(matches!(r, Err(BuildError::MissingField(Field::Title))));
}

#[test]
fn title_without_text_is_missing() {
    let mut m = base_fields();
    m.insert("title".to_string(), None);
    let r = ProgramRecord::from_fields(&m, station());
    assert!(matches!(r, Err(BuildError::MissingField(Field::Title))));
}

#[test]
fn each_required_field_is_checked() {
    for (key, field) in [
        ("id", Field::Id),
        ("ft", Field::Start),
        ("to", Field::End),
        ("dur", Field::Duration),
    ] {
        let mut m = base_fields();
        m.insert(key.to_string(), None);
        let r = ProgramRecord::from_fields(&m, station());
        assert!(matches!(r, Err(BuildError::MissingField(f)) if f == field));
    }
}

#[test]
fn malformed_values_are_rejected() {
    for (key, value, field) in [
        ("id", "x42", Field::Id),
        ("id", "-1", Field::Id),
        ("ft", "2024-01-01", Field::Start),
        ("to", "20241301000000", Field::End),
        ("dur", "30m", Field::Duration),
    ] {
        let mut m = base_fields();
        m.insert(key.to_string(), Some(value.to_string()));
        let r = ProgramRecord::from_fields(&m, station());
        assert!(matches!(r, Err(BuildError::ParseFailure(f)) if f == field));
    }
}

#[test]
fn later_entry_takes_precedence() {
    let mut m = base_fields();
    m.insert("id".to_string(), Some("7".to_string()));
    assert_eq!(m.get("id").unwrap(), "7");
    let p = ProgramRecord::from_fields(&m, station()).unwrap();
    assert_eq!(p.id, 7);
}

#[test]
fn absent_optionals_stay_absent() {
    let p = ProgramRecord::from_fields(&base_fields(), station()).unwrap();
    assert!(p.info.is_none());
    assert!(p.description.is_none());
    assert!(p.performers.is_none());
    assert!(p.image_url.is_none());
}

#[test]
fn optional_texts_are_converted_and_normalized() {
    let mut m = base_fields();
    m.insert("info".to_string(), Some("<p>Ｘ</p><b>y</b>".to_string()));
    m.insert("desc".to_string(), Some("<a href=\"http://x\">t</a>".to_string()));
    m.insert("pfm".to_string(), Some("ｱｲ".to_string()));
    m.insert("img".to_string(), Some("https://example.invalid/ｉ.png".to_string()));
    let p = ProgramRecord::from_fields(&m, station()).unwrap();
    assert_eq!(p.info.as_deref(), Some("X\n**y**"));
    assert_eq!(p.description.as_deref(), Some("[t](http://x)"));
    assert_eq!(p.performers.as_deref(), Some("アイ"));
    assert_eq!(p.image_url.as_deref(), Some("https://example.invalid/ｉ.png"));
}

#[test]
fn station_from_fields() {
    let mut m = FieldMap::new();
    m.insert("id".to_string(), Some("QRR".to_string()));
    m.insert("name".to_string(), Some("文化放送".to_string()));
    m.insert("banner".to_string(), Some("b".to_string()));
    m.insert("area_id".to_string(), Some("JP13".to_string()));
    let s = StationChannel::from_fields(&m).unwrap();
    assert_eq!(s.id, "QRR");
    assert_eq!(s.area_id, "JP13");
    let mut n = FieldMap::new();
    n.insert("id".to_string(), Some("QRR".to_string()));
    n.insert("name".to_string(), Some("ＡＢ".to_string()));
    n.insert("area_id".to_string(), Some("JP13".to_string()));
    assert!(matches!(StationChannel::from_fields(&n), Err(BuildError::MissingField(Field::Banner))));
    m.insert("name".to_string(), Some("ＡＢ".to_string()));
    assert_eq!(StationChannel::from_fields(&m).unwrap().name, "AB");
}

#[test]
fn deep_link_uses_utc_start() {
    let p = ProgramRecord::from_fields(&base_fields(), station()).unwrap();
    assert_eq!(
        p.app_url_scheme().unwrap(),
        "radiko://radiko.onelink.me/?deep_link_sub1=TBS&deep_link_sub2=20240101000000&deep_link_value=42"
    );
}

#[test]
fn time_decisions() {
    let p = ProgramRecord::from_fields(&base_fields(), station()).unwrap();
    assert!(!p.tracks_due(1704068999));
    assert!(p.tracks_due(1704069000));
    assert!(p.is_recent(1704069000 + 4 * 3600));
    assert!(!p.is_recent(1704069000 + 4 * 3600 + 1));
    assert!(p.is_recent(i64::MIN));
}

#[test]
fn track_from_cue() {
    let t = OnAirTrack::from_cue("ＡＢ", "ｿﾝｸﾞ", "https://a/ｉ", "2024-01-01T09:05:00+09:00", 1704067200)
        .unwrap();
    assert_eq!(t.artist_name, "AB");
    assert_eq!(t.track_title, "ソング");
    assert_eq!(t.artwork_url, "https://a/ｉ");
    assert_eq!(t.offset_seconds, 300);
    assert!(OnAirTrack::from_cue("a", "b", "c", "yesterday", 0).is_none());
}

#[test]
fn integer_edge_cases() {
    let cases: [(&str, &str, Option<i128>); 8] = [
        ("dur", "-30", Some(-30)),
        ("dur", "+30", Some(30)),
        ("dur", "", None),
        ("dur", "9223372036854775808", None),
        ("id", "+5", Some(5)),
        ("id", "18446744073709551615", Some(18446744073709551615)),
        ("id", "18446744073709551616", None),
        ("id", " 5", None),
    ];
    for (key, value, expected) in cases {
        let mut m = base_fields();
        m.insert(key.to_string(), Some(value.to_string()));
        let r = ProgramRecord::from_fields(&m, station());
        match expected {
            Some(v) if key == "dur" => assert_eq!(r.unwrap().duration as i128, v),
            Some(v) => assert_eq!(r.unwrap().id as i128, v),
            None => assert!(matches!(r, Err(BuildError::ParseFailure(_)))),
        }
    }
}

#[test]
fn first_failure_in_order() {
    let mut m = FieldMap::new();
    m.insert("title".to_string(), Some("t".to_string()));
    m.insert("ft".to_string(), Some("bad".to_string()));
    assert!(matches!(
        ProgramRecord::from_fields(&m, station()),
        Err(BuildError::MissingField(Field::Id))
    ));
    m.insert("id".to_string(), Some("1".to_string()));
    assert!(matches!(
        ProgramRecord::from_fields(&m, station()),
        Err(BuildError::ParseFailure(Field::Start))
    ));
}
