use hello_radiko::feed::{get_below_string, schedule_entries, station_list_entries};
use hello_radiko::markup::MarkupNode;
use hello_radiko::program::{ProgramRecord, StationChannel};

const STATIONS: &str = "<region><stations><station><id>TBS</id><name>ＴＢＳラジオ</name><banner>b.png</banner><area_id>JP13</area_id><other>x</other></station></stations></region>";

const SCHEDULE: &str = "<radiko><stations><station id=\"TBS\"><progs><prog id=\"99\" ft=\"20240101090000\" to=\"20240101100000\" dur=\"3600\"><title>朝の番組</title><info>&lt;p&gt;hi&lt;/p&gt;</info><pfm>Ａ</pfm><desc/></prog></progs></station></stations></radiko>";

#[test]
fn stations_are_flattened() {
    let entries = station_list_entries(STATIONS);
    assert_eq!(entries.len(), 1);
    assert_eq!(entries[0].get("id").unwrap(), "TBS");
    assert!(entries[0].get("other").is_none());
    let s = StationChannel::from_fields(&entries[0]).unwrap();
    assert_eq!(s.name, "TBSラジオ");
    assert_eq!(s.banner_url, "b.png");
}

#[test]
fn programs_are_flattened_with_attributes() {
    let entries = schedule_entries(SCHEDULE);
    assert_eq!(entries.len(), 1);
    assert_eq!(entries[0].get("id").unwrap(), "99");
    assert!(entries[0].get("desc").is_none());
    let station = StationChannel {
        id: "TBS".to_string(),
        name: "TBS".to_string(),
        banner_url: String::new(),
        area_id: "JP13".to_string(),
    };
    let p = ProgramRecord::from_fields(&entries[0], station).unwrap();
    assert_eq!(p.id, 99);
    assert_eq!(p.duration, 3600);
    assert_eq!(p.title, "朝の番組");
    assert_eq!(p.info.as_deref(), Some("hi\n"));
    assert_eq!(p.performers.as_deref(), Some("A"));
    assert!(p.description.is_none());
}

#[test]
fn below_string_reads_first_text_child() {
    let text = |t: &str| MarkupNode::Text { text: t.to_string() };
    let element = |children: Vec<MarkupNode>| MarkupNode::Element {
        name: "x".to_string(),
        attrs: vec![],
        children,
    };
    let first_text = element(vec![text("v"), element(vec![])]);
    assert_eq!(get_below_string(&first_text).as_deref(), Some("v"));
    let first_element = element(vec![element(vec![]), text("v")]);
    assert!(get_below_string(&first_element).is_none());
    assert!(get_below_string(&element(vec![])).is_none());
    assert!(get_below_string(&text("v")).is_none());
}

#[test]
fn entries_outside_the_path_are_ignored() {
    let xml = "<region><station><id>A</id></station><stations><station><id>B</id></station></stations></region>";
    let entries = station_list_entries(xml);
    assert_eq!(entries.len(), 1);
    assert_eq!(entries[0].get("id").unwrap(), "B");
    assert!(matches!(
        StationChannel::from_fields(&entries[0]),
        Err(hello_radiko::program::BuildError::MissingField(hello_radiko::program::Field::Name))
    ));
}

#[test]
fn attribute_overrides_child_of_same_name() {
    let xml = "<radiko><stations><station><progs><prog title=\"attr\"><title>child</title></prog></progs></station></stations></radiko>";
    let entries = schedule_entries(xml);
    assert_eq!(entries[0].get("title").unwrap(), "attr");
}
