use mobus_operandi::components::{
    avatars, calendar, calendar_input, links_section, participants_section, CalendarClasses,
    CalendarEvent, CalendarStyle,
};
use mobus_operandi::expected_files::ExpectedFiles;
use mobus_operandi::link::Link;
use mobus_operandi::markdown::Markdown;
use mobus_operandi::mob::{Id, Minutes, Mob, Session, Title};
use mobus_operandi::pages::{
    add_page_content, add_page_frame, get_all_participants, home_calendar_events,
    home_page_content, index_page, mob_event_content, mob_page, mob_page_content, mob_page_frame,
    page, try_mob_page, HomePage, MobPageBody,
};
use mobus_operandi::participant::{Participant, Person};
use mobus_operandi::status::Status;

fn md(s: &str) -> Markdown {
    Markdown::from(s.to_string())
}

fn person(name: &str, avatar: Option<&str>) -> Person {
    Person::new(name.to_string(), format!("https://x.org/{name}"), avatar.map(|a| a.to_string()))
}

fn mob(id: &str, title: &str, status: Status, sessions: &[(u16, u16)], participants: Vec<Participant>) -> Mob {
    Mob {
        id: Id::new(id.to_string()),
        title: Title::new(title.to_string()),
        subtitle: None,
        participants,
        schedule: sessions
            .iter()
            .map(|(start, minutes)| Session::new("\"RRULE:FREQ=WEEKLY\"".to_string(), *start, Minutes::new(*minutes)))
            .collect(),
        freeform_copy: md("free"),
        background_color: "\"#000000\"".to_string(),
        text_color: "\"#ffffff\"".to_string(),
        links: vec![],
        status,
    }
}

fn style() -> CalendarStyle {
    CalendarStyle {
        text_color: "white".to_string(),
        button_classes: "btn".to_string(),
        button_gap: "2".to_string(),
    }
}

fn classes() -> CalendarClasses {
    CalendarClasses {
        container: "c".to_string(),
        date_range: "d".to_string(),
        timezone: "t".to_string(),
        button_prev: "p".to_string(),
        button_next: "n".to_string(),
        button_today: "y".to_string(),
    }
}

#[test]
fn listed_statuses() {
    assert!(Status::Short(md("a")).is_listed());
    assert!(Status::Open(md("a")).is_listed());
    assert!(Status::Full(None).is_listed());
    assert!(Status::Public(md("a")).is_listed());
    assert!(!Status::Terminated(md("a")).is_listed());
    assert!(!Status::Renamed(Id::new("b".to_string())).is_listed());
}

#[test]
fn redirect_targets() {
    assert_eq!(
        Status::Renamed(Id::new("new-mob".to_string())).redirect_target().as_deref(),
        Some("/mobs/new-mob.html")
    );
    assert_eq!(Status::Terminated(md("a")).redirect_target(), None);
    assert_eq!(Status::Open(md("a")).redirect_target(), None);
}

#[test]
fn mob_page_frames() {
    let title = Title::new("Mob Seattle".to_string());
    let frame = mob_page_frame(&title, Some("Weekly"));
    assert_eq!(frame.title.as_deref(), Some("Mob Seattle"));
    assert_eq!(frame.head, None);
    assert_eq!(frame.classes, "flex flex-col gap-6");
    assert_eq!(frame.description, "Mob Seattle, Weekly; description, schedule and more on Mobus Operandi");
}

#[test]
fn add_page_file() {
    let mut ef = ExpectedFiles::new();
    ef.insert("/style.css".to_string());
    let spec = page("<p>é</p>", ef);
    assert_eq!(spec.path(), "/add.html");
    let contents = spec.into_source();
    assert_eq!(contents.bytes(), &"<p>é</p>".as_bytes().to_vec());
    assert!(contents.expected_files().unwrap().contains("/style.css"));
}

#[test]
fn participants_and_links_sections() {
    let ada = Person::new("Ada & co".to_string(), "https://x.org/ada".to_string(), Some("/ada.png".to_string()));
    let bob = Person::new("Bob".to_string(), "https://x.org/bob".to_string(), None);
    let section = participants_section(&vec![Participant::Public(ada), Participant::Hidden]);
    assert_eq!(
        section,
        "<div class=\"py-12\"><h2>Participants</h2><div class=\"font-bold\"><a class=\"block\" href=\"https://x.org/ada\">Ada &amp; co</a><div>(Anonymous participant)</div></div></div>"
    );
    let ada = Person::new("Ada".to_string(), "https://x.org/ada".to_string(), Some("/ada.png".to_string()));
    assert_eq!(
        avatars(&vec![ada, bob]),
        "<div class=\"flex flex-wrap\"><a href=\"https://x.org/ada\" class=\"w-20\"><img alt=\"Ada\" src=\"/ada.png\"></a></div>"
    );
    assert_eq!(links_section(&vec![]), "");
    let mut ef = ExpectedFiles::new();
    let element = mobus_operandi::link::LinkElement::from_link(Link::YouTube("@m".to_string()), &mut ef);
    assert_eq!(
        links_section(&vec![element]),
        "<div class=\"flex sm:flex-col justify-center gap-2\"><a href=\"https://www.youtube.com/@m\"><img class=\"h-8\" alt=\"YouTube\" src=\"/youtube_logo.svg\"></a></div>"
    );
}

#[test]
fn home_and_add_page_contents() {
    assert_eq!(
        home_page_content("<cal>", "4", "btn", "/add.html", &vec![]),
        "<cal><div class=\"flex flex-wrap gap-x-4\"><a class=\"btn\" href=\"/add.html\">Add your mob!</a></div><div class=\"flex flex-wrap\"></div>"
    );
    let add = add_page_content("prose", "gap-4", &vec!["<b>T</b>".to_string(), "U".to_string()]);
    assert!(add.starts_with("<div class=\"prose\"><h1>Add a mob</h1><p>Mobs are specified in files in <a href=\"https://github.com/mobusoperandi/website/tree/master/mobs\">the <code>mobs</code> directory.</a>"));
    assert!(add.ends_with("<ol class=\"flex flex-col gap-4\"><li><b>T</b></li><li>U</li></ol>"));
    let frame = add_page_frame("gap-4");
    assert_eq!(frame.title.as_deref(), Some("Add"));
    assert_eq!(frame.classes, "flex flex-col gap-4");
    assert_eq!(frame.description, "How to add your mob to Mobus Operandi");
}

#[test]
fn mob_event_times() {
    assert_eq!(mob_event_content(9 * 60, &Minutes::new(90)), " 9:00\u{2013}10:30 UTC");
    assert_eq!(mob_event_content(23 * 60 + 30, &Minutes::new(60)), "23:30\u{2013} 0:30 UTC");
    assert_eq!(mob_event_content(0, &Minutes::new(5)), " 0:00\u{2013} 0:05 UTC");
    assert_eq!(mob_event_content(600, &Minutes::new(3000)), "10:00\u{2013}12:00 UTC");
}
#[test]
fn home_events_skip_terminated_and_renamed_mobs() {
    let mobs = vec![
        mob("a", "A", Status::Open(md("x")), &[(600, 90), (720, 60)], vec![]),
        mob("gone", "Gone", Status::Terminated(md("x")), &[(0, 30)], vec![]),
        mob("old", "Old", Status::Renamed(Id::new("a".to_string())), &[(0, 30)], vec![]),
        mob("b", "B", Status::Full(None), &[(0, 120)], vec![]),
        mob("quiet", "Quiet", Status::Full(None), &[], vec![]),
    ];
    let mut ef = ExpectedFiles::default();
    let events = home_calendar_events(&mobs, &mut ef);
    assert_eq!(events.len(), 3);
    assert_eq!(
        events[0].content,
        "<div class=\"h-full break-words\"><a class=\"no-underline block h-full\" href=\"/mobs/a.html\">A <span class=\"[text-shadow:_-1px_-1px_3px_black,_-1px_1px_3px_black,_1px_-1px_3px_black,_1px_1px_3px_black]\">\u{1F450}</span></a></div>"
    );
    assert_eq!(events[0].duration.get(), 90);
    assert_eq!(events[0].recurrence, "\"RRULE:FREQ=WEEKLY\"");
    assert_eq!(events[0].background_color, "\"#000000\"");
    assert_eq!(events[1].duration.get(), 60);
    assert_eq!(
        events[2].content,
        "<div class=\"h-full break-words\"><a class=\"no-underline block h-full\" href=\"/mobs/b.html\">B</a></div>"
    );
    assert!(ef.contains("/mobs/a.html"));
    assert!(ef.contains("/mobs/b.html"));
    assert!(!ef.contains("/mobs/gone.html"));
    assert!(!ef.contains("/mobs/old.html"));
    assert!(!ef.contains("/mobs/quiet.html"));
}

#[test]
fn participants_of_all_mobs() {
    let mobs = vec![
        mob("a", "A", Status::Open(md("x")), &[], vec![Participant::Public(person("ada", Some("/a.png"))), Participant::Hidden]),
        mob("gone", "Gone", Status::Terminated(md("x")), &[], vec![Participant::Public(person("bob", None)), Participant::Public(person("ada", Some("/a.png")))]),
    ];
    let people = get_all_participants(&mobs);
    let names: Vec<&str> = people.iter().map(|p| p.name()).collect();
    assert_eq!(names, vec!["ada", "bob"]);
}

#[test]
fn home_page_of_mobs() {
    let mobs = vec![mob("a", "A", Status::Public(md("x")), &[(60, 60)], vec![Participant::Public(person("ada", Some("/a.png")))])];
    let file = index_page(&mobs);
    assert_eq!(file.path, "/index.html");
    let home = &file.page;
    assert_eq!(home.events.len(), 1);
    assert_eq!(home.participants.len(), 1);
    assert_eq!(home.add_page_path, "/add.html");
    assert_eq!(home.fullcalendar_path, "/fullcalendar.js");
    assert_eq!(home.rrule_path, "/rrule.js");
    assert_eq!(home.fullcalendar_rrule_path, "/fullcalendar_rrule.js");
    assert_eq!(home.status_legend.entries().len(), 3);
    for path in ["/mobs/a.html", "/add.html", "/fullcalendar.js", "/rrule.js", "/fullcalendar_rrule.js"] {
        assert!(file.expected_files.contains(path));
    }
    assert!(!file.expected_files.contains("/index.html"));
    let frame = HomePage::frame();
    assert_eq!(frame.title, None);
    assert_eq!(frame.head, None);
    assert_eq!(frame.classes, "flex flex-col gap-1");
    assert_eq!(frame.description, "A mob programming community");
    let html = home.content(&style(), &classes(), "run");
    assert!(html.contains("Legend:"));
    assert!(html.contains("<script defer src=\"/fullcalendar.js\"></script><script defer src=\"/rrule.js\"></script><script defer src=\"/fullcalendar_rrule.js\"></script>"));
    assert!(html.contains("&quot;eventContent&quot;:&quot;&lt;div class=\\&quot;h-full break-words\\&quot;&gt;"));
    assert!(html.contains("<a class=\"btn\" href=\"/add.html\">Add your mob!</a>"));
    assert!(html.ends_with("<div class=\"flex flex-wrap\"><a href=\"https://x.org/ada\" class=\"w-20\"><img alt=\"ada\" src=\"/a.png\"></a></div>"));
}

#[test]
fn own_mob_page() {
    let mut m = mob("seattle", "Mob Seattle", Status::Terminated(md("ended")), &[(540, 90)], vec![Participant::Hidden]);
    m.links = vec![Link::YouTube("@mobseattle".to_string())];
    let file = mob_page(m);
    assert_eq!(file.path, "/mobs/seattle.html");
    for path in ["/youtube_logo.svg", "/fullcalendar.js", "/rrule.js", "/fullcalendar_rrule.js"] {
        assert!(file.expected_files.contains(path));
    }
    match file.body {
        MobPageBody::Page(page) => {
            assert_eq!(page.title.as_str(), "Mob Seattle");
            assert_eq!(page.links.len(), 1);
            assert!(page.links[0].render().contains("src=\"/youtube_logo.svg\""));
            assert_eq!(page.events.len(), 1);
            assert_eq!(page.events[0].content, "<div class=\"h-full break-words\"> 9:00\u{2013}10:30 UTC</div>");
            assert_eq!(page.fullcalendar_path, "/fullcalendar.js");
            assert_eq!(page.rrule_path, "/rrule.js");
            assert_eq!(page.fullcalendar_rrule_path, "/fullcalendar_rrule.js");
            assert_eq!(page.frame().description, "Mob Seattle; description, schedule and more on Mobus Operandi");
            let html = page.content(&style(), &classes(), "prose", "run");
            assert!(html.starts_with("<div class=\"flex flex-col sm:flex-row sm:justify-around text-center tracking-wide\"><div class=\"py-12\"><h1 class=\"text-4xl\">Mob Seattle</h1></div><div class=\"flex sm:flex-col justify-center gap-2\">"));
            assert!(html.contains("<div>(Anonymous participant)</div>"));
            assert!(html.contains("<span>terminated</span>"));
            assert!(html.contains("<div class=\"prose\"><p>free</p>\n</div><div class=\"prose\"><p>ended</p>\n</div></div><hr>"));
            assert!(!html.contains("Legend:"));
            assert!(html.contains("9:00\u{2013}10:30 UTC"));
        }
        MobPageBody::Redirect(_) => panic!("a terminated mob keeps its page"),
    }
}

#[test]
fn renamed_mob_page_redirects() {
    let file = mob_page(mob("old", "Old", Status::Renamed(Id::new("new".to_string())), &[(0, 30)], vec![]));
    assert_eq!(file.path, "/mobs/old.html");
    assert!(!file.expected_files.contains("/fullcalendar.js"));
    assert!(!file.expected_files.contains("/youtube_logo.svg"));
    match file.body {
        MobPageBody::Redirect(page) => {
            assert_eq!(page.description(), "Redirect to /mobs/new.html...");
            assert_eq!(page.frame().classes, "flex justify-center items-center");
        }
        MobPageBody::Page(_) => panic!("a renamed mob's page redirects"),
    }
}

#[test]
fn mob_page_checked_links() {
    let mut m = mob("m", "M", Status::Open(md("x")), &[], vec![]);
    m.links = vec![Link::YouTube("@m".to_string())];
    let ok = try_mob_page(m).unwrap();
    assert_eq!(ok.path, "/mobs/m.html");
    assert!(Link::YouTube("@m".to_string()).has_valid_url());
    assert_eq!(Link::YouTube("@m".to_string()).url_text(), "https://www.youtube.com/@m");
}

#[test]
fn mob_page_content_layout() {
    let title = Title::new("Mob".to_string());
    let html = mob_page_content(&title, Some("<p>sub</p>"), &vec![], &vec![], &Status::Full(None), &md("free"), "prose", "<cal>");
    assert!(html.starts_with("<div class=\"flex flex-col sm:flex-row sm:justify-around text-center tracking-wide\"><div class=\"py-12\"><h1 class=\"text-4xl\">Mob</h1><p>sub</p></div><div class=\"py-12\"><h2>Participants</h2>"));
    assert!(html.contains("<span>full</span>"));
    assert!(html.contains("<div class=\"prose\"><p>free</p>\n</div><div class=\"prose\"></div></div><hr><cal>"));
    let open = mob_page_content(&title, None, &vec![], &vec![], &Status::Open(md("apply")), &md("free"), "p", "");
    assert!(open.contains("<div class=\"p\"><p>apply</p>\n</div></div><hr>"));
}

#[test]
fn calendar_markup() {
    let legend = Status::legend();
    let events = vec![CalendarEvent {
        recurrence: "\"R\"".to_string(),
        duration: Minutes::new(90),
        content: "<b>\"x\"\n</b>".to_string(),
        background_color: "\"#111111\"".to_string(),
        text_color: "\"#222222\"".to_string(),
    }];
    assert_eq!(
        calendar_input(&events, &classes()),
        "{\"events\":[{\"backgroundColor\":\"#111111\",\"duration\":\"01:30\",\"eventContent\":\"<b>\\\"x\\\"\\n</b>\",\"rrule\":\"R\",\"textColor\":\"#222222\"}],\"selectors\":{\"buttonNext\":\".n\",\"buttonPrev\":\".p\",\"buttonToday\":\".y\",\"calendarContainer\":\".c\",\"dateRange\":\".d\",\"timezone\":\".t\"}}"
    );
    assert_eq!(calendar_input(&vec![], &classes()).as_str(), "{\"events\":[],\"selectors\":{\"buttonNext\":\".n\",\"buttonPrev\":\".p\",\"buttonToday\":\".y\",\"calendarContainer\":\".c\",\"dateRange\":\".d\",\"timezone\":\".t\"}}");
    let html = calendar(&style(), &classes(), &vec![], Some(&legend), "/fc.js", "/rr.js", "/fcr.js", "run");
    assert!(html.starts_with("<div class=\"flex justify-between items-center flex-wrap gap-x-2\"><div class=\"flex flex-wrap gap-x-[1ch] whitespace-nowrap flex-1\"><p class=\"t\"></p><p class=\"d\"></p></div><div class=\"flex gap-x-2\"><div class=\"btn p\"><svg xmlns=\"http://www.w3.org/2000/svg\" viewBox=\"0 0 32 32\" class=\"w-[1em] fill-white\">"));
    assert!(html.contains("class=\"w-[1em] fill-white rotate-180\""));
    assert!(html.contains("<button class=\"btn y\">Today</button></div></div>Legend:"));
    assert!(html.contains("<div class=\"c [--fc-page-bg-color:transparent]\"></div><script defer src=\"/fc.js\"></script><script defer src=\"/rr.js\"></script><script defer src=\"/fcr.js\"></script><script data-input=\"{&quot;events&quot;:[],&quot;selectors&quot;:{&quot;buttonNext&quot;:&quot;.n&quot;,"));
    assert!(html.ends_with("\n                    run(input)\n                </script>"));
    let without = calendar(&style(), &classes(), &vec![], None, "/fc.js", "/rr.js", "/fcr.js", "run");
    assert!(!without.contains("Legend:"));
}

#[test]
fn json_control_characters() {
    let events = vec![CalendarEvent {
        recurrence: "null".to_string(),
        duration: Minutes::new(5),
        content: "\u{1}\t\\\u{7f}é".to_string(),
        background_color: "null".to_string(),
        text_color: "null".to_string(),
    }];
    let json = calendar_input(&events, &classes());
    assert!(json.contains("\"eventContent\":\"\\u0001\\t\\\\\u{7f}é\""));
}

