use std::collections::BTreeSet;

use mobus_operandi::components::{calendar_event_content, home_event_content, RedirectPage};
use mobus_operandi::expected_files::ExpectedFiles;
use mobus_operandi::driver::EprintlnDriver;
use mobus_operandi::file_spec::{graphic_file_specs, library_file_specs, FailedFiles, FileSpec};
use mobus_operandi::font::{all, vollkorn, TrueTypeFont};
use mobus_operandi::link::{Link, LinkElement};
use mobus_operandi::markdown::Markdown;
use mobus_operandi::mob::{mob_page_description, mob_page_path, Id, Minutes, Title};
use mobus_operandi::status::Status;

static FONT: &[u8] = &[1, 2, 3];
static LOGO: &[u8] = &[9];

#[test]
fn mob_paths() {
    assert_eq!(mob_page_path("seattle"), "/mobs/seattle.html");
    assert_eq!(mob_page_path(""), "/mobs/.html");
    let id = Id::new("agile-mob".to_string());
    assert_eq!(mob_page_path(id.as_str()), "/mobs/agile-mob.html");
}

#[test]
fn mob_page_descriptions() {
    let title = Title::new("Mob Seattle".to_string());
    assert_eq!(
        mob_page_description(&title, Some("Weekly")),
        "Mob Seattle, Weekly; description, schedule and more on Mobus Operandi"
    );
    assert_eq!(
        mob_page_description(&title, None),
        "Mob Seattle; description, schedule and more on Mobus Operandi"
    );
}

#[test]
fn titles_render_raw() {
    let title = Title::new("<b>Mob</b>".to_string());
    assert_eq!(title.as_str(), "<b>Mob</b>");
    assert_eq!(title.render(), "<b>Mob</b>");
}

#[test]
fn minutes() {
    assert_eq!(Minutes::new(180).get(), 180);
}

#[test]
fn file_specs() {
    let spec = FileSpec::new("/index.html".to_string(), 5u8);
    assert_eq!(spec.path(), "/index.html");
    assert_eq!(spec.into_source(), 5);
    let specs = graphic_file_specs(LOGO, LOGO, LOGO, LOGO);
    let paths: Vec<&str> = specs.iter().map(|s| s.path().as_str()).collect();
    assert_eq!(
        paths,
        vec!["/favicon.ico", "/twitter_logo.svg", "/zulip_logo.svg", "/inverticat.svg", "/youtube_logo.svg"]
    );
    let libraries = library_file_specs(LOGO, LOGO, LOGO);
    let paths: Vec<&str> = libraries.iter().map(|s| s.path().as_str()).collect();
    assert_eq!(paths, vec!["/fullcalendar.js", "/rrule.js", "/fullcalendar_rrule.js"]);
    let mut specs = graphic_file_specs(LOGO, LOGO, LOGO, LOGO);
    assert!(specs.remove(0).into_source().is_empty());
}

#[test]
fn failed_files() {
    let set: BTreeSet<String> = ["/a.html".to_string()].into_iter().collect();
    let failed = FailedFiles::new(set.clone());
    assert_eq!(failed.paths(), &set);
}

#[test]
fn fonts() {
    let font = TrueTypeFont::new(FONT, "Vollkorn");
    assert_eq!(font.family(), "Vollkorn");
    assert_eq!(font.bytes(), FONT);
    assert_eq!(font.filename(), "vollkorn.ttf");
    assert_eq!(
        font.render(),
        "\n            @font-face {\n                font-family: 'Vollkorn';\n                src: url('/vollkorn.ttf') format('truetype');\n            }"
    );
    let specs = all(FONT);
    assert_eq!(specs.len(), 1);
    assert_eq!(specs[0].path(), "/vollkorn.ttf");
    assert_eq!(vollkorn(FONT).family(), "Vollkorn");
}

#[test]
fn redirect_page() {
    let page = RedirectPage::new((), "/mobs/<new>.html".to_string());
    assert_eq!(page.title(), "Redirecting...");
    assert_eq!(page.head_html(), "<meta http-equiv=\"refresh\" content=\"5; url=/mobs/&lt;new&gt;.html\">");
    assert_eq!(page.content_html(), "<p>Redirecting to<code>/mobs/&lt;new&gt;.html</code>...</p>");
    assert_eq!(page.description(), "Redirect to /mobs/<new>.html...");
    let frame = page.frame();
    assert_eq!(frame.title.as_deref(), Some("Redirecting..."));
    assert_eq!(frame.head, Some(page.head_html()));
    assert_eq!(frame.classes, "flex justify-center items-center");
    assert_eq!(frame.description, "Redirect to /mobs/<new>.html...");
}

#[test]
fn home_event_contents() {
    let title = Title::new("Mob".to_string());
    let id = Id::new("m".to_string());
    let mut ef = ExpectedFiles::default();
    let with_indicator = home_event_content(&mut ef, &id, &title, &Status::Public(Markdown::from("x".to_string())));
    assert_eq!(
        with_indicator,
        "<a class=\"no-underline block h-full\" href=\"/mobs/m.html\">Mob <span class=\"[text-shadow:_-1px_-1px_3px_black,_-1px_1px_3px_black,_1px_-1px_3px_black,_1px_1px_3px_black]\">\u{26F2}</span></a>"
    );
    assert!(ef.contains("/mobs/m.html"));
    assert!(!ef.contains("/mobs/n.html"));
    let without = home_event_content(&mut ef, &id, &title, &Status::Full(None));
    assert_eq!(without, "<a class=\"no-underline block h-full\" href=\"/mobs/m.html\">Mob</a>");
    assert_eq!(calendar_event_content("<b>x</b>"), "<div class=\"h-full break-words\"><b>x</b></div>");
}

#[test]
fn youtube_links() {
    let mut ef = ExpectedFiles::default();
    assert!(!ef.contains("/youtube_logo.svg"));
    let element = LinkElement::try_from_link(Link::YouTube("@mobseattle".to_string()), &mut ef).unwrap();
    let s = element.render();
    assert_eq!(
        s,
        "<a href=\"https://www.youtube.com/@mobseattle\"><img class=\"h-8\" alt=\"YouTube\" src=\"/youtube_logo.svg\"></a>"
    );
    assert!(s.contains("href=\"https://www.youtube.com/@mobseattle\""));
    assert!(s.contains("alt=\"YouTube\""));
    assert!(s.contains("src=\"/youtube_logo.svg\""));
    assert!(ef.contains("/youtube_logo.svg"));
    let spaced = LinkElement::from_link(Link::YouTube("a b".to_string()), &mut ef);
    assert!(spaced.render().starts_with("<a href=\"https://www.youtube.com/a%20b\">"));
    let plain = LinkElement::new("https://x.org/".to_string(), "X", "/x.svg".to_string());
    assert_eq!(plain.render(), "<a href=\"https://x.org/\"><img class=\"h-8\" alt=\"X\" src=\"/x.svg\"></a>");
}

#[test]
fn expected_files_set() {
    let mut ef = ExpectedFiles::new();
    assert!(!ef.contains("/a.html"));
    assert_eq!(ef.insert("/a.html".to_string()), "/a.html");
    assert_eq!(ef.insert("/a.html".to_string()), "/a.html");
    assert!(ef.contains("/a.html"));
    assert!(!ef.contains("/b.html"));
}

#[test]
fn durations_from_minutes() {
    assert_eq!(Minutes::new(90).duration_text(), "01:30");
    assert_eq!(Minutes::new(180).duration_text(), "03:00");
    assert_eq!(Minutes::new(45).duration_text(), "00:45");
    assert_eq!(Minutes::new(6000).duration_text(), "100:00");
}

#[test]
fn eprintln_driver() {
    let (EprintlnDriver, ()) = EprintlnDriver::new();
}
