use mobus_operandi::components::Status as StatusLine;
use mobus_operandi::markdown::Markdown;
use mobus_operandi::mob::Id;
use mobus_operandi::status::{Description, Legend, Status, StatusIndicator};

fn md(s: &str) -> Markdown {
    Markdown::from(s.to_string())
}

#[test]
fn descriptions_are_first_doc_lines() {
    assert_eq!(
        Status::description("Short").as_str(),
        " This mob is not active yet because it needs more members."
    );
    assert_eq!(
        Status::description("Open").as_str(),
        " This mob is taking applications for new participants."
    );
    assert_eq!(
        Status::description("Full").as_str(),
        " This mob is not currently taking applications."
    );
    assert_eq!(
        Status::description("Public").as_str(),
        " This mob's sessions are open for anyone to join."
    );
}

#[test]
fn indicators_of_variants() {
    assert_eq!(Status::indicator_for_ident("Short").map(|i| i.as_char()), Some('\u{1F331}'));
    assert_eq!(Status::indicator_for_ident("Open").map(|i| i.as_char()), Some('\u{1F450}'));
    assert_eq!(Status::indicator_for_ident("Full").map(|i| i.as_char()), None);
    assert_eq!(Status::indicator_for_ident("Public").map(|i| i.as_char()), Some('\u{26F2}'));
}

#[test]
fn indicator_of_a_status_matches_its_declaration() {
    let statuses = [
        Status::Short(md("a")),
        Status::Open(md("b")),
        Status::Full(None),
        Status::Full(Some(md("c"))),
        Status::Public(md("d")),
    ];
    for status in statuses.iter() {
        let from_value = status.indicator().map(|i| i.as_char());
        let from_declaration = Status::indicator_for_ident(status.variant_name()).map(|i| i.as_char());
        assert_eq!(from_value, from_declaration);
    }
}

#[test]
fn variant_names_in_order() {
    assert_eq!(Status::variants(), vec!["Short", "Open", "Full", "Public", "Renamed", "Terminated"]);
    assert_eq!(Status::Terminated(md("t")).variant_name(), "Terminated");
    assert_eq!(Status::Renamed(Id::new("new".to_string())).variant_name(), "Renamed");
    assert_eq!(Status::Full(None).variant_name(), "Full");
}

#[test]
fn legend_is_ordered_by_indicator() {
    let legend = Status::legend();
    let entries: Vec<(char, String)> = legend
        .entries()
        .iter()
        .map(|(i, d)| (i.as_char(), d.as_str().to_string()))
        .collect();
    assert_eq!(
        entries,
        vec![
            ('\u{26F2}', " This mob's sessions are open for anyone to join.".to_string()),
            ('\u{1F331}', " This mob is not active yet because it needs more members.".to_string()),
            ('\u{1F450}', " This mob is taking applications for new participants.".to_string()),
        ]
    );
}

fn entry(status: &str) -> (StatusIndicator, Description) {
    (Status::indicator_for_ident(status).unwrap(), Status::description(status))
}

#[test]
fn legend_later_entry_replaces_earlier() {
    let open = Status::indicator_for_ident("Open").unwrap();
    let legend = Legend::from_entries(vec![
        entry("Open"),
        entry("Public"),
        (open, Status::description("Full")),
        entry("Short"),
    ]);
    let entries: Vec<(char, String)> = legend
        .entries()
        .iter()
        .map(|(i, d)| (i.as_char(), d.as_str().to_string()))
        .collect();
    assert_eq!(entries.len(), 3);
    assert_eq!(entries[0].0, '\u{26F2}');
    assert_eq!(entries[1].0, '\u{1F331}');
    assert_eq!(
        entries[2],
        ('\u{1F450}', " This mob is not currently taking applications.".to_string())
    );
}

#[test]
fn empty_legend() {
    let legend = Legend::from_entries(vec![]);
    assert!(legend.entries().is_empty());
    assert_eq!(legend.render(), "Legend:<dl class=\"grid grid-cols-[auto_auto_1fr]\"></dl>");
}

#[test]
fn legend_renders_entries() {
    let legend = Legend::from_entries(vec![entry("Short")]);
    assert_eq!(
        legend.render(),
        "Legend:<dl class=\"grid grid-cols-[auto_auto_1fr]\"><dt class=\"text-2xl\">\u{1F331}</dt>\u{A0}\u{2014}\u{A0}<dd> This mob is not active yet because it needs more members.</dd></dl>"
    );
}

#[test]
fn status_line_emphasizes_current_status() {
    let line = StatusLine::new(Status::Open(md("x")));
    assert_eq!(
        line.render(),
        "<div class=\"flex flex-col items-center gap-1 text-lg\"><div class=\"flex gap-4 uppercase tracking-widest\"><s class=\"opacity-70\">short</s><span>open</span><s class=\"opacity-70\">full</s><s class=\"opacity-70\">public</s><s class=\"opacity-70\">terminated</s></div><p class=\"tracking-wide\"> This mob is taking applications for new participants.</p></div>"
    );
    let full = StatusLine::new(Status::Full(None)).render();
    assert!(full.contains("<span>full</span>"));
    assert!(full.contains("<s class=\"opacity-70\">short</s>"));
    for label in ["short", "open", "public", "terminated"] {
        assert!(!full.contains(&format!("<span>{label}</span>")));
        assert!(full.contains(&format!(">{label}</s>")));
    }
    assert!(full.contains("This mob is not currently taking applications."));
    let terminated = StatusLine::new(Status::Terminated(md("gone"))).render();
    assert!(terminated.contains("<span>terminated</span>"));
    assert!(terminated.contains("<s class=\"opacity-70\">full</s>"));
    assert!(terminated.contains(" This mob no longer meets."));
}

#[test]
fn statuses_without_indicator() {
    assert_eq!(Status::indicator_for_ident("Renamed").map(|i| i.as_char()), None);
    assert_eq!(Status::indicator_for_ident("Terminated").map(|i| i.as_char()), None);
    assert!(Status::Terminated(md("t")).indicator().is_none());
    assert!(Status::Renamed(Id::new("x".to_string())).indicator().is_none());
}

#[test]
fn join_content_of_statuses() {
    assert_eq!(Status::Short(md("apply")).join_content().map(|m| m.as_str()), Some("apply"));
    assert_eq!(Status::Open(md("o")).join_content().map(|m| m.as_str()), Some("o"));
    assert_eq!(Status::Full(None).join_content().map(|m| m.as_str()), None);
    assert_eq!(Status::Full(Some(md("f"))).join_content().map(|m| m.as_str()), Some("f"));
    assert_eq!(Status::Public(md("p")).join_content().map(|m| m.as_str()), Some("p"));
    assert_eq!(Status::Terminated(md("why")).join_content().map(|m| m.as_str()), Some("why"));
    assert!(Status::Renamed(Id::new("new".to_string())).join_content().is_none());
}
