use hello_radiko::fields::FieldMap;
use hello_radiko::matcher::{search_artist, Roster, RosterGroup, RosterMember};
use hello_radiko::program::{ProgramRecord, StationChannel};

fn program(title: &str, desc: Option<&str>, pfm: Option<&str>) -> ProgramRecord {
    let mut m = FieldMap::new();
    m.insert("id".to_string(), Some("1".to_string()));
    m.insert("ft".to_string(), Some("20240101090000".to_string()));
    m.insert("to".to_string(), Some("20240101093000".to_string()));
    m.insert("dur".to_string(), Some("1800".to_string()));
    m.insert("title".to_string(), Some(title.to_string()));
    if let Some(d) = desc {
        m.insert("desc".to_string(), Some(d.to_string()));
    }
    if let Some(p) = pfm {
        m.insert("pfm".to_string(), Some(p.to_string()));
    }
    let station = StationChannel {
        id: "S".to_string(),
        name: "S".to_string(),
        banner_url: String::new(),
        area_id: "JP13".to_string(),
    };
    ProgramRecord::from_fields(&m, station).unwrap()
}

fn roster(groups: Vec<(&str, Vec<(&str, Vec<&str>)>)>) -> Roster {
    Roster {
        groups: groups
            .into_iter()
            .map(|(g, ms)| RosterGroup {
                name: g.to_string(),
                members: ms
                    .into_iter()
                    .map(|(m, aliases)| RosterMember {
                        name: m.to_string(),
                        aliases: aliases.into_iter().map(|a| a.to_string()).collect(),
                    })
                    .collect(),
            })
            .collect(),
    }
}

#[test]
fn member_alias_matches_without_group() {
    let r = roster(vec![("GroupA", vec![("Mem1", vec!["mem1alias"])])]);
    let found = search_artist(&program("mem1alias live", None, None), &r);
    assert_eq!(found, vec!["Mem1".to_string()]);
    assert!(!found.contains(&"GroupA".to_string()));
}

#[test]
fn group_then_members_in_order() {
    let r = roster(vec![
        ("GroupA", vec![("Mem1", vec!["m1"]), ("Mem2", vec!["m2", "mem2"])]),
        ("GroupB", vec![("Mem3", vec!["m3"])]),
    ]);
    let found = search_artist(&program("GroupA special", Some("with mem2"), Some("m3")), &r);
    assert_eq!(found, vec!["GroupA".to_string(), "Mem2".to_string(), "Mem3".to_string()]);
}

#[test]
fn guarded_member_skipped_on_collision() {
    let r = roster(vec![("G", vec![("高橋愛", vec!["愛"])])]);
    let found = search_artist(&program("高橋愛子の番組", None, None), &r);
    assert!(found.is_empty());
    let found = search_artist(&program("高橋愛の番組", None, None), &r);
    assert_eq!(found, vec!["高橋愛".to_string()]);
}

#[test]
fn collision_does_not_affect_other_members() {
    let r = roster(vec![("G", vec![("愛ちゃん", vec!["愛"])])]);
    let found = search_artist(&program("高橋愛子の番組", None, None), &r);
    assert_eq!(found, vec!["愛ちゃん".to_string()]);
}

#[test]
fn reserved_group_never_listed() {
    let r = roster(vec![("OG", vec![("Old", vec!["old"])])]);
    let found = search_artist(&program("OG old friends", None, None), &r);
    assert_eq!(found, vec!["Old".to_string()]);
}

#[test]
fn absent_fields_do_not_match() {
    let r = roster(vec![("G", vec![("M", vec!["zzz"])])]);
    assert!(search_artist(&program("title", None, None), &r).is_empty());
    assert!(search_artist(&program("title", Some("zzz"), None), &r) == vec!["M".to_string()]);
}
