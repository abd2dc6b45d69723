//! HTML of the page components: the status line of a mob's page, the legend
//! of the status indicators, a redirecting page, the events of the home
//! page's calendar, the sections of a mob's page, the avatars of the home
//! page and the calendar itself.
//!
//! Class lists are written space separated, in the order the components
//! give them.

use vstd::prelude::*;

use crate::status::{sorted_entries, status_description_text, variant_name_of, Legend};
use crate::expected_files::ExpectedFiles;
use crate::json::{json_items, json_string, push_json_string};
use crate::link::{link_element_html, LinkElement};
use crate::participant::{Participant, Person};
use crate::mob::{
    duration_text_spec, Minutes, indicator_text_shadow_class, indicator_text_shadow_class_spec, mob_page_path,
    mob_page_path_spec, Id, Title,
};
use crate::text::{html_escaped, push_char, push_escaped};

verus! {

/// The HTML of one status label: the current status plain, the others struck
/// through and faded.
pub open spec fn status_label_html(current: bool, label: Seq<char>) -> Seq<char> {
    if current {
        "<span>"@ + html_escaped(label) + "</span>"@
    } else {
        "<s class=\"opacity-70\">"@ + html_escaped(label) + "</s>"@
    }
}

/// The HTML of the status line of a mob's page: every status's label, the
/// mob's own one emphasized, and the description of the mob's status.
pub open spec fn status_line_html(status: crate::status::Status) -> Seq<char> {
    "<div class=\"flex flex-col items-center gap-1 text-lg\"><div class=\"flex gap-4 uppercase tracking-widest\">"@
        + status_label_html(status is Short, "short"@) + status_label_html(status is Open, "open"@)
        + status_label_html(status is Full, "full"@) + status_label_html(status is Public, "public"@)
        + status_label_html(status is Terminated, "terminated"@) + "</div><p class=\"tracking-wide\">"@ + html_escaped(
        status_description_text(variant_name_of(status)),
    ) + "</p></div>"@
}

/// The label of a status on the status line: its variant's name in lower
/// case.
pub open spec fn status_label(status: crate::status::Status) -> Seq<char> {
    match status {
        crate::status::Status::Short(_) => "short"@,
        crate::status::Status::Open(_) => "open"@,
        crate::status::Status::Full(_) => "full"@,
        crate::status::Status::Public(_) => "public"@,
        crate::status::Status::Renamed(_) => "renamed"@,
        crate::status::Status::Terminated(_) => "terminated"@,
    }
}

/// The labels of the status line, in order, with the one named `current`
/// emphasized and every other one struck through.
pub open spec fn labels_with_current(current: Seq<char>) -> Seq<char> {
    status_label_html(current == "short"@, "short"@) + status_label_html(current == "open"@, "open"@)
        + status_label_html(current == "full"@, "full"@) + status_label_html(
        current == "public"@,
        "public"@,
    ) + status_label_html(current == "terminated"@, "terminated"@)
}

/// The status line of a mob emphasizes exactly the label named after the
/// mob's own status and strikes through the four others, and ends with the
/// description of that status; the labels of different statuses differ.
pub proof fn lemma_status_line_emphasizes_own_status(status: crate::status::Status, other: crate::status::Status)
    requires
        !(status is Renamed),
    ensures
        status_line_html(status) == "<div class=\"flex flex-col items-center gap-1 text-lg\"><div class=\"flex gap-4 uppercase tracking-widest\">"@
            + labels_with_current(status_label(status)) + "</div><p class=\"tracking-wide\">"@
            + html_escaped(status_description_text(variant_name_of(status))) + "</p></div>"@,
        variant_name_of(status) != variant_name_of(other) ==> status_label(status) != status_label(other),
{
    reveal_strlit("short");
    reveal_strlit("open");
    reveal_strlit("full");
    reveal_strlit("public");
    reveal_strlit("renamed");
    reveal_strlit("terminated");
    assert("open"@[0] != "full"@[0]);
    assert("short"@[0] != "renamed"@[0]);
}

fn push_status_label(out: &mut String, current: bool, label: &str)
    ensures
        final(out)@ == old(out)@ + status_label_html(current, label@),
{
    if current {
        out.append("<span>");
        push_escaped(out, label);
        out.append("</span>");
    } else {
        out.append("<s class=\"opacity-70\">");
        push_escaped(out, label);
        out.append("</s>");
    }
}

/// The status line of a mob's page.
pub struct Status(crate::status::Status);

impl Status {
    /// The status line of a mob with the given status.
    pub fn new(status: crate::status::Status) -> (s: Self)
        ensures
            s.spec_status() == status,
    {
        Status(status)
    }

    /// The status the line shows.
    pub closed spec fn spec_status(&self) -> crate::status::Status {
        self.0
    }

    /// The status the line shows.
    pub fn status(&self) -> (status: &crate::status::Status)
        ensures
            *status == self.spec_status(),
    {
        &self.0
    }

    /// The HTML of the status line.
    ///
    /// A renamed mob has no page of its own, so it has no status line.
    pub fn render(&self) -> (html: String)
        requires
            !(self.spec_status() is Renamed),
        ensures
            html@ == status_line_html(self.spec_status()),
    {
        status_line(&self.0)
    }
}

/// The status line of a mob with the given status.
pub fn status_line(status: &crate::status::Status) -> (html: String)
    requires
        !(*status is Renamed),
    ensures
        html@ == status_line_html(*status),
{
    let mut out = String::from_str(
        "<div class=\"flex flex-col items-center gap-1 text-lg\"><div class=\"flex gap-4 uppercase tracking-widest\">",
    );
    let (short, open, full, public, terminated) = match status {
        crate::status::Status::Short(_) => (true, false, false, false, false),
        crate::status::Status::Open(_) => (false, true, false, false, false),
        crate::status::Status::Full(_) => (false, false, true, false, false),
        crate::status::Status::Public(_) => (false, false, false, true, false),
        crate::status::Status::Renamed(_) => (false, false, false, false, false),
        crate::status::Status::Terminated(_) => (false, false, false, false, true),
    };
    push_status_label(&mut out, short, "short");
    push_status_label(&mut out, open, "open");
    push_status_label(&mut out, full, "full");
    push_status_label(&mut out, public, "public");
    push_status_label(&mut out, terminated, "terminated");
    out.append("</div><p class=\"tracking-wide\">");
    let description = crate::status::Status::description(status.variant_name());
    push_escaped(&mut out, description.as_str());
    out.append("</p></div>");
    out
}

/// The HTML of one legend entry: the indicator, a dash between no-break
/// spaces, and the description.
pub open spec fn legend_entry_html(indicator: char, description: Seq<char>) -> Seq<char> {
    "<dt class=\"text-2xl\">"@ + html_escaped(seq![indicator]) + "</dt>\u{A0}\u{2014}\u{A0}<dd>"@
        + html_escaped(description) + "</dd>"@
}

/// The HTML of the entries of a legend, in order.
pub open spec fn legend_entries_html(entries: Seq<(char, Seq<char>)>) -> Seq<char>
    decreases entries.len(),
{
    if entries.len() == 0 {
        Seq::empty()
    } else {
        legend_entries_html(entries.drop_last()) + legend_entry_html(
            entries.last().0,
            entries.last().1,
        )
    }
}

/// The HTML of a legend: a title and a definition list of its entries.
pub open spec fn legend_html(entries: Seq<(char, Seq<char>)>) -> Seq<char> {
    "Legend:<dl class=\"grid grid-cols-[auto_auto_1fr]\">"@ + legend_entries_html(entries)
        + "</dl>"@
}

impl Legend {
    /// The HTML of the legend: its entries, ordered by indicator.
    pub fn render(&self) -> (html: String)
        ensures
            html@ == legend_html(sorted_entries(self@)),
    {
        let mut out = String::from_str("Legend:<dl class=\"grid grid-cols-[auto_auto_1fr]\">");
        let ghost start = out@;
        let entries = self.entries();
        let ghost ev = sorted_entries(self@);
        let n = entries.len();
        let mut i: usize = 0;
        while i < n
            invariant
                n == ev.len(),
                crate::status::pairs_view(entries@) == ev,
                i <= n,
                out@ == start + legend_entries_html(ev.take(i as int)),
            decreases n - i,
        {
            let (indicator, description) = &entries[i];
            let c = indicator.as_char();
            let mut symbol = String::new();
            push_char(&mut symbol, c);
            out.append("<dt class=\"text-2xl\">");
            push_escaped(&mut out, symbol.as_str());
            out.append("</dt>\u{A0}\u{2014}\u{A0}<dd>");
            push_escaped(&mut out, description.as_str());
            out.append("</dd>");
            proof {
                assert(symbol@ =~= seq![c]);
                assert(ev.take(i + 1).drop_last() =~= ev.take(i as int));
                assert(ev.take(i + 1).last() == ev[i as int]);
                assert(ev[i as int] == (indicator.spec_char(), description.spec_text()));
            }
            i = i + 1;
        }
        assert(ev.take(n as int) =~= ev);
        out.append("</dl>");
        out
    }
}

/// What a page hands to the base it is laid out on, besides its content:
/// its title, what goes in its head, the classes of its content (space
/// separated, as the class attribute holds them) and its description.
pub struct PageFrame {
    pub title: Option<String>,
    pub head: Option<String>,
    pub classes: String,
    pub description: String,
}

/// The text of an optional string.
pub open spec fn opt_text(s: Option<String>) -> Option<Seq<char>> {
    match s {
        Some(s) => Some(s@),
        None => None,
    }
}

/// Whether `frame` holds the given title, head, classes and description.
pub open spec fn frame_is(
    frame: PageFrame,
    title: Option<Seq<char>>,
    head: Option<Seq<char>>,
    classes: Seq<char>,
    description: Seq<char>,
) -> bool {
    &&& opt_text(frame.title) == title
    &&& opt_text(frame.head) == head
    &&& frame.classes@ == classes
    &&& frame.description@ == description
}

/// A page that sends its visitor to another address.
///
/// `B` is the base that the page is laid out on.
pub struct RedirectPage<B> {
    base: B,
    target: String,
}

/// The refresh instruction of a redirecting page: after five seconds, go to
/// the target.
pub open spec fn redirect_refresh_spec(target: Seq<char>) -> Seq<char> {
    "5; url="@ + target
}

/// The HTML of the head of a redirecting page.
pub open spec fn redirect_head_html(target: Seq<char>) -> Seq<char> {
    "<meta http-equiv=\"refresh\" content=\""@ + html_escaped(redirect_refresh_spec(target))
        + "\">"@
}

/// The HTML of the content of a redirecting page.
pub open spec fn redirect_content_html(target: Seq<char>) -> Seq<char> {
    "<p>Redirecting to<code>"@ + html_escaped(target) + "</code>...</p>"@
}

/// The description of a redirecting page.
pub open spec fn redirect_description_spec(target: Seq<char>) -> Seq<char> {
    "Redirect to "@ + target + "..."@
}

impl<B> RedirectPage<B> {
    /// The page's target address.
    pub closed spec fn spec_target(&self) -> Seq<char> {
        self.target@
    }

    /// The page's base.
    pub closed spec fn spec_base(&self) -> B {
        self.base
    }

    /// A page on `base` that redirects to `target`.
    pub fn new(base: B, target: String) -> (page: Self)
        ensures
            page.spec_base() == base,
            page.spec_target() == target@,
    {
        RedirectPage { base, target }
    }

    /// The page's base.
    pub fn base(&self) -> (base: &B)
        ensures
            *base == self.spec_base(),
    {
        &self.base
    }

    /// The page's title.
    pub fn title(&self) -> (title: String)
        ensures
            title@ == "Redirecting..."@,
    {
        String::from_str("Redirecting...")
    }

    /// The HTML that goes in the page's head.
    pub fn head_html(&self) -> (html: String)
        ensures
            html@ == redirect_head_html(self.spec_target()),
    {
        let mut refresh = String::from_str("5; url=");
        refresh.append(self.target.as_str());
        let mut out = String::from_str("<meta http-equiv=\"refresh\" content=\"");
        push_escaped(&mut out, refresh.as_str());
        out.append("\">");
        out
    }

    /// The HTML of the page's content.
    pub fn content_html(&self) -> (html: String)
        ensures
            html@ == redirect_content_html(self.spec_target()),
    {
        let mut out = String::from_str("<p>Redirecting to<code>");
        push_escaped(&mut out, self.target.as_str());
        out.append("</code>...</p>");
        out
    }

    /// What the page hands to its base: the title "Redirecting...", the
    /// refresh instruction in its head, its content centered both ways, and
    /// its description.
    pub fn frame(&self) -> (frame: PageFrame)
        ensures
            frame_is(
                frame,
                Some("Redirecting..."@),
                Some(redirect_head_html(self.spec_target())),
                "flex justify-center items-center"@,
                redirect_description_spec(self.spec_target()),
            ),
    {
        PageFrame {
            title: Some(self.title()),
            head: Some(self.head_html()),
            classes: String::from_str("flex justify-center items-center"),
            description: self.description(),
        }
    }

    /// The page's description.
    pub fn description(&self) -> (d: String)
        ensures
            d@ == redirect_description_spec(self.spec_target()),
    {
        let mut d = String::from_str("Redirect to ");
        d.append(self.target.as_str());
        d.append("...");
        d
    }
}


/// The HTML of a mob's event on the home page's calendar: a link to the
/// mob's page showing its title, followed by its status indicator, outlined,
/// when the status has one.
pub open spec fn home_event_html(path: Seq<char>, title: Seq<char>, indicator: Option<char>) -> Seq<char> {
    "<a class=\"no-underline block h-full\" href=\""@ + html_escaped(path) + "\">"@ + title
        + match indicator {
        Some(c) => " <span class=\""@ + html_escaped(indicator_text_shadow_class_spec())
            + "\">"@ + html_escaped(seq![c]) + "</span>"@,
        None => Seq::empty(),
    } + "</a>"@
}

/// The content of a mob's event on the home page's calendar, linking to the
/// mob's page, whose file is recorded in `expected_files`.
pub fn home_event_content(
    expected_files: &mut ExpectedFiles,
    id: &Id,
    title: &Title,
    status: &crate::status::Status,
) -> (html: String)
    ensures
        html@ == home_event_html(
            mob_page_path_spec(id.spec_text()),
            title.spec_text(),
            crate::status::indicator_of_status(*status),
        ),
        final(expected_files)@ == old(expected_files)@.insert(mob_page_path_spec(id.spec_text())),
{
    let path = expected_files.insert(mob_page_path(id.as_str()));
    let path = path.as_str();
    let mut out = String::from_str("<a class=\"no-underline block h-full\" href=\"");
    push_escaped(&mut out, path);
    out.append("\">");
    let title_html = title.render();
    out.append(title_html.as_str());
    match status.indicator() {
        Some(indicator) => {
            out.append(" <span class=\"");
            let class = indicator_text_shadow_class();
            push_escaped(&mut out, class.as_str());
            out.append("\">");
            let mut symbol = String::new();
            push_char(&mut symbol, indicator.as_char());
            assert(symbol@ =~= seq![indicator.spec_char()]);
            push_escaped(&mut out, symbol.as_str());
            out.append("</span>");
        },
        None => {},
    }
    out.append("</a>");
    out
}

/// The HTML that wraps an event's content in the calendar.
pub open spec fn calendar_event_html(content: Seq<char>) -> Seq<char> {
    "<div class=\"h-full break-words\">"@ + content + "</div>"@
}

/// Wraps an event's content, which is HTML already, for the calendar.
pub fn calendar_event_content(content: &str) -> (html: String)
    ensures
        html@ == calendar_event_html(content@),
{
    let mut out = String::from_str("<div class=\"h-full break-words\">");
    out.append(content);
    out.append("</div>");
    out
}

/// The HTML of a sequence of items, each written by `html`, one after the
/// other.
pub open spec fn concat_html<T>(items: Seq<T>, html: spec_fn(T) -> Seq<char>) -> Seq<char>
    decreases items.len(),
{
    if items.len() == 0 {
        Seq::empty()
    } else {
        concat_html(items.drop_last(), html) + html(items.last())
    }
}

pub(crate) proof fn lemma_concat_html_step<T>(items: Seq<T>, i: int, html: spec_fn(T) -> Seq<char>)
    requires
        0 <= i < items.len(),
    ensures
        concat_html(items.take(i + 1), html) == concat_html(items.take(i), html) + html(items[i]),
{
    assert(items.take(i + 1).drop_last() =~= items.take(i));
    assert(items.take(i + 1).last() == items[i]);
}

/// The HTML of one participant on a mob's page: a public person's name,
/// linking to their social profile, or a note for an anonymous one.
pub open spec fn participant_html(participant: Participant) -> Seq<char> {
    match participant {
        Participant::Hidden => "<div>(Anonymous participant)</div>"@,
        Participant::Public(person) => "<a class=\"block\" href=\""@ + html_escaped(
            person.spec_social_url(),
        ) + "\">"@ + html_escaped(person.spec_name()) + "</a>"@,
    }
}

/// The HTML of the participants section of a mob's page: every
/// participant, in order.
pub open spec fn participants_section_html(participants: Seq<Participant>) -> Seq<char> {
    "<div class=\"py-12\"><h2>Participants</h2><div class=\"font-bold\">"@ + concat_html(
        participants,
        |p: Participant| participant_html(p),
    ) + "</div></div>"@
}

/// The participants section of a mob's page.
pub fn participants_section(participants: &Vec<Participant>) -> (html: String)
    ensures
        html@ == participants_section_html(participants@),
{
    let mut out = String::from_str(
        "<div class=\"py-12\"><h2>Participants</h2><div class=\"font-bold\">",
    );
    let ghost start = out@;
    let ghost f = |p: Participant| participant_html(p);
    let n = participants.len();
    let mut i: usize = 0;
    assert(participants@.take(0) =~= Seq::<Participant>::empty());
    while i < n
        invariant
            n == participants@.len(),
            i <= n,
            f == (|p: Participant| participant_html(p)),
            out@ == start + concat_html(participants@.take(i as int), f),
        decreases n - i,
    {
        match &participants[i] {
            Participant::Hidden => {
                out.append("<div>(Anonymous participant)</div>");
            },
            Participant::Public(person) => {
                out.append("<a class=\"block\" href=\"");
                push_escaped(&mut out, person.social_url());
                out.append("\">");
                push_escaped(&mut out, person.name());
                out.append("</a>");
            },
        }
        proof {
            lemma_concat_html_step(participants@, i as int, f);
        }
        i = i + 1;
    }
    assert(participants@.take(n as int) =~= participants@);
    out.append("</div></div>");
    out
}

/// The HTML of the links section of a mob's page: nothing when the mob has
/// no link, else every link's element, in order.
pub open spec fn links_section_html(links: Seq<LinkElement>) -> Seq<char> {
    if links.len() == 0 {
        Seq::empty()
    } else {
        "<div class=\"flex sm:flex-col justify-center gap-2\">"@ + concat_html(
            links,
            |e: LinkElement| link_element_html(e.spec_url(), e.spec_alt(), e.spec_image_path()),
        ) + "</div>"@
    }
}

/// The links section of a mob's page.
pub fn links_section(links: &Vec<LinkElement>) -> (html: String)
    ensures
        html@ == links_section_html(links@),
{
    let n = links.len();
    if n == 0 {
        return String::new();
    }
    let mut out = String::from_str("<div class=\"flex sm:flex-col justify-center gap-2\">");
    let ghost start = out@;
    let ghost f = |e: LinkElement| link_element_html(e.spec_url(), e.spec_alt(), e.spec_image_path());
    let mut i: usize = 0;
    assert(links@.take(0) =~= Seq::<LinkElement>::empty());
    while i < n
        invariant
            n == links@.len(),
            i <= n,
            f == (|e: LinkElement| link_element_html(e.spec_url(), e.spec_alt(), e.spec_image_path())),
            out@ == start + concat_html(links@.take(i as int), f),
        decreases n - i,
    {
        let element = links[i].render();
        out.append(element.as_str());
        proof {
            lemma_concat_html_step(links@, i as int, f);
        }
        i = i + 1;
    }
    assert(links@.take(n as int) =~= links@);
    out.append("</div>");
    out
}

/// The HTML of a person's avatar on the home page, linking to their social
/// profile; nothing for a person without an avatar.
pub open spec fn avatar_html(person: Person) -> Seq<char> {
    match person.spec_avatar_url() {
        Some(avatar) => "<a href=\""@ + html_escaped(person.spec_social_url())
            + "\" class=\"w-20\"><img alt=\""@ + html_escaped(person.spec_name()) + "\" src=\""@
            + html_escaped(avatar) + "\"></a>"@,
        None => Seq::empty(),
    }
}

/// The HTML of the avatars of the home page: those of the given people, in
/// order.
pub open spec fn avatars_html(people: Seq<Person>) -> Seq<char> {
    "<div class=\"flex flex-wrap\">"@ + concat_html(people, |p: Person| avatar_html(p)) + "</div>"@
}

/// The avatars of the home page.
pub fn avatars(people: &Vec<Person>) -> (html: String)
    ensures
        html@ == avatars_html(people@),
{
    let mut out = String::from_str("<div class=\"flex flex-wrap\">");
    let ghost start = out@;
    let ghost f = |p: Person| avatar_html(p);
    let n = people.len();
    let mut i: usize = 0;
    assert(people@.take(0) =~= Seq::<Person>::empty());
    while i < n
        invariant
            n == people@.len(),
            i <= n,
            f == (|p: Person| avatar_html(p)),
            out@ == start + concat_html(people@.take(i as int), f),
        decreases n - i,
    {
        let person = &people[i];
        match person.avatar_url() {
            Some(avatar) => {
                out.append("<a href=\"");
                push_escaped(&mut out, person.social_url());
                out.append("\" class=\"w-20\"><img alt=\"");
                push_escaped(&mut out, person.name());
                out.append("\" src=\"");
                push_escaped(&mut out, avatar);
                out.append("\"></a>");
            },
            None => {},
        }
        proof {
            lemma_concat_html_step(people@, i as int, f);
        }
        i = i + 1;
    }
    assert(people@.take(n as int) =~= people@);
    out.append("</div>");
    out
}

/// What the calendar takes from the site's style: the text color, the
/// classes of a button and the gap between buttons.
pub struct CalendarStyle {
    pub text_color: String,
    pub button_classes: String,
    pub button_gap: String,
}

/// The classes by which the calendar's script finds its parts: the
/// container, the date range, the time zone and the three buttons.
pub struct CalendarClasses {
    pub container: String,
    pub date_range: String,
    pub timezone: String,
    pub button_prev: String,
    pub button_next: String,
    pub button_today: String,
}

/// An event of a calendar, as the calendar's script reads it: its
/// recurrence rule, its length, its content (HTML) and its colors. The rule
/// and the colors are JSON values, as their own serializers write them.
pub struct CalendarEvent {
    pub recurrence: String,
    pub duration: Minutes,
    pub content: String,
    pub background_color: String,
    pub text_color: String,
}

/// An event as a JSON object, its keys in order.
pub open spec fn event_json(e: CalendarEvent) -> Seq<char> {
    "{\"backgroundColor\":"@ + e.background_color@ + ",\"duration\":"@ + json_string(
        duration_text_spec(e.duration.spec_minutes() as int / 60, e.duration.spec_minutes() as int),
    ) + ",\"eventContent\":"@ + json_string(e.content@) + ",\"rrule\":"@ + e.recurrence@
        + ",\"textColor\":"@ + e.text_color@ + "}"@
}

/// The selectors by which the calendar's script finds its parts, as a JSON
/// object, its keys in order.
pub open spec fn selectors_json(c: CalendarClasses) -> Seq<char> {
    "{\"buttonNext\":"@ + json_string("."@ + c.button_next@) + ",\"buttonPrev\":"@ + json_string(
        "."@ + c.button_prev@,
    ) + ",\"buttonToday\":"@ + json_string("."@ + c.button_today@) + ",\"calendarContainer\":"@
        + json_string("."@ + c.container@) + ",\"dateRange\":"@ + json_string("."@ + c.date_range@)
        + ",\"timezone\":"@ + json_string("."@ + c.timezone@) + "}"@
}

/// The input of the calendar's script: its events and its selectors, as a
/// JSON object.
pub open spec fn calendar_input_json(events: Seq<CalendarEvent>, classes: CalendarClasses) -> Seq<char> {
    "{\"events\":["@ + json_items(events.map_values(|e: CalendarEvent| event_json(e)))
        + "],\"selectors\":"@ + selectors_json(classes) + "}"@
}

fn push_event_json(out: &mut String, e: &CalendarEvent)
    ensures
        final(out)@ == old(out)@ + event_json(*e),
{
    let ghost start = out@;
    out.append("{\"backgroundColor\":");
    out.append(e.background_color.as_str());
    out.append(",\"duration\":");
    push_json_string(out, e.duration.duration_text().as_str());
    out.append(",\"eventContent\":");
    push_json_string(out, e.content.as_str());
    out.append(",\"rrule\":");
    out.append(e.recurrence.as_str());
    out.append(",\"textColor\":");
    out.append(e.text_color.as_str());
    out.append("}");
    assert(out@ =~= start + event_json(*e));
}

fn push_selector(out: &mut String, class: &str)
    ensures
        final(out)@ == old(out)@ + json_string("."@ + class@),
{
    let mut selector = String::from_str(".");
    selector.append(class);
    push_json_string(out, selector.as_str());
}

fn push_selectors_json(out: &mut String, c: &CalendarClasses)
    ensures
        final(out)@ == old(out)@ + selectors_json(*c),
{
    let ghost start = out@;
    out.append("{\"buttonNext\":");
    push_selector(out, c.button_next.as_str());
    out.append(",\"buttonPrev\":");
    push_selector(out, c.button_prev.as_str());
    out.append(",\"buttonToday\":");
    push_selector(out, c.button_today.as_str());
    out.append(",\"calendarContainer\":");
    push_selector(out, c.container.as_str());
    out.append(",\"dateRange\":");
    push_selector(out, c.date_range.as_str());
    out.append(",\"timezone\":");
    push_selector(out, c.timezone.as_str());
    out.append("}");
    assert(out@ =~= start + selectors_json(*c));
}

/// The input of the calendar's script, as JSON.
pub fn calendar_input(events: &Vec<CalendarEvent>, classes: &CalendarClasses) -> (json: String)
    ensures
        json@ == calendar_input_json(events@, *classes),
{
    let mut out = String::from_str("{\"events\":[");
    let ghost start = out@;
    let ghost items = events@.map_values(|e: CalendarEvent| event_json(e));
    let n = events.len();
    let mut i: usize = 0;
    assert(items.take(0) =~= Seq::<Seq<char>>::empty());
    while i < n
        invariant
            n == events@.len(),
            items == events@.map_values(|e: CalendarEvent| event_json(e)),
            i <= n,
            out@ == start + json_items(items.take(i as int)),
        decreases n - i,
    {
        proof {
            crate::json::lemma_json_items_step(items, i as int);
        }
        if i > 0 {
            out.append(",");
        }
        push_event_json(&mut out, &events[i]);
        assert(items[i as int] == event_json(events@[i as int]));
        i = i + 1;
    }
    assert(items.take(n as int) =~= items);
    out.append("],\"selectors\":");
    push_selectors_json(&mut out, classes);
    out.append("}");
    out
}

/// The HTML of an arrow of the calendar, pointing left, or right when
/// `right` holds.
pub open spec fn calendar_arrow_html(text_color: Seq<char>, right: bool) -> Seq<char> {
    "<svg xmlns=\"http://www.w3.org/2000/svg\" viewBox=\"0 0 32 32\" class=\"w-[1em] fill-"@
        + html_escaped(text_color) + if right {
        " rotate-180"@
    } else {
        Seq::empty()
    } + "\"><path d=\"M13,25.6c-0.5,0-1-0.2-1.4-0.6l-8.3-8.3c-0.4-0.4-0.4-1,0-1.4L11.6,7c0.6-0.6,1.4-0.7,2.2-0.4c0.8,0.3,1.2,1,1.2,1.8V12h12 c1.1,0,2,0.9,2,2v4c0,1.1-0.9,2-2,2H15v3.6c0,0.8-0.5,1.5-1.2,1.8C13.5,25.5,13.3,25.6,13,25.6z\"></path></svg>"@
}

/// The HTML of the top of the calendar: the time zone and the date range,
/// then the buttons to the previous and next ranges and to today.
pub open spec fn calendar_top_html(style: CalendarStyle, classes: CalendarClasses) -> Seq<char> {
    "<div class=\"flex justify-between items-center flex-wrap gap-x-"@ + html_escaped(
        style.button_gap@,
    ) + "\"><div class=\"flex flex-wrap gap-x-[1ch] whitespace-nowrap flex-1\"><p class=\""@
        + html_escaped(classes.timezone@) + "\"></p><p class=\""@ + html_escaped(
        classes.date_range@,
    ) + "\"></p></div><div class=\"flex gap-x-"@ + html_escaped(style.button_gap@)
        + "\"><div class=\""@ + html_escaped(style.button_classes@) + " "@ + html_escaped(
        classes.button_prev@,
    ) + "\">"@ + calendar_arrow_html(style.text_color@, false) + "</div><div class=\""@
        + html_escaped(style.button_classes@) + " "@ + html_escaped(classes.button_next@) + "\">"@
        + calendar_arrow_html(style.text_color@, true) + "</div><button class=\""@ + html_escaped(
        style.button_classes@,
    ) + " "@ + html_escaped(classes.button_today@) + "\">Today</button></div></div>"@
}

/// The HTML of the calendar's scripts: the three libraries, then the
/// calendar's own script, which reads its input, JSON in the `data-input`
/// attribute, and hands it to `snippet`.
pub open spec fn calendar_scripts_html(
    fullcalendar_path: Seq<char>,
    rrule_path: Seq<char>,
    fullcalendar_rrule_path: Seq<char>,
    input_json: Seq<char>,
    snippet: Seq<char>,
) -> Seq<char> {
    "<script defer src=\""@ + html_escaped(fullcalendar_path) + "\"></script><script defer src=\""@
        + html_escaped(rrule_path) + "\"></script><script defer src=\""@ + html_escaped(
        fullcalendar_rrule_path,
    ) + "\"></script><script data-input=\""@ + html_escaped(input_json) + "\">"@
        + "\n                    const input = JSON.parse(document.querySelector('[data-input]').getAttribute('data-input'))\n                    "@ + snippet + "(input)\n                "@ + "</script>"@
}

/// The HTML of a calendar of `events`: its top, the legend when there is
/// one, the container the script fills, and the scripts, the calendar's
/// own one reading the events and the selectors.
pub open spec fn calendar_html(
    style: CalendarStyle,
    classes: CalendarClasses,
    events: Seq<CalendarEvent>,
    legend: Option<Map<char, Seq<char>>>,
    fullcalendar_path: Seq<char>,
    rrule_path: Seq<char>,
    fullcalendar_rrule_path: Seq<char>,
    snippet: Seq<char>,
) -> Seq<char> {
    calendar_top_html(style, classes) + match legend {
        Some(entries) => legend_html(sorted_entries(entries)),
        None => Seq::empty(),
    } + "<div class=\""@ + html_escaped(classes.container@)
        + " [--fc-page-bg-color:transparent]\"></div>"@ + calendar_scripts_html(
        fullcalendar_path,
        rrule_path,
        fullcalendar_rrule_path,
        calendar_input_json(events, classes),
        snippet,
    )
}

fn push_calendar_arrow(out: &mut String, text_color: &str, right: bool)
    ensures
        final(out)@ == old(out)@ + calendar_arrow_html(text_color@, right),
{
    out.append("<svg xmlns=\"http://www.w3.org/2000/svg\" viewBox=\"0 0 32 32\" class=\"w-[1em] fill-");
    push_escaped(out, text_color);
    if right {
        out.append(" rotate-180");
    }
    out.append("\"><path d=\"M13,25.6c-0.5,0-1-0.2-1.4-0.6l-8.3-8.3c-0.4-0.4-0.4-1,0-1.4L11.6,7c0.6-0.6,1.4-0.7,2.2-0.4c0.8,0.3,1.2,1,1.2,1.8V12h12 c1.1,0,2,0.9,2,2v4c0,1.1-0.9,2-2,2H15v3.6c0,0.8-0.5,1.5-1.2,1.8C13.5,25.5,13.3,25.6,13,25.6z\"></path></svg>");
}

fn push_button_classes(out: &mut String, button_classes: &str, own: &str)
    ensures
        final(out)@ == old(out)@ + html_escaped(button_classes@) + " "@ + html_escaped(own@),
{
    push_escaped(out, button_classes);
    out.append(" ");
    push_escaped(out, own);
}

#[verifier::rlimit(40)]
fn push_calendar_top(out: &mut String, style: &CalendarStyle, classes: &CalendarClasses)
    ensures
        final(out)@ == old(out)@ + calendar_top_html(*style, *classes),
{
    let ghost start = out@;
    out.append("<div class=\"flex justify-between items-center flex-wrap gap-x-");
    push_escaped(out, style.button_gap.as_str());
    out.append("\"><div class=\"flex flex-wrap gap-x-[1ch] whitespace-nowrap flex-1\"><p class=\"");
    push_escaped(out, classes.timezone.as_str());
    out.append("\"></p><p class=\"");
    push_escaped(out, classes.date_range.as_str());
    out.append("\"></p></div><div class=\"flex gap-x-");
    push_escaped(out, style.button_gap.as_str());
    out.append("\"><div class=\"");
    push_button_classes(out, style.button_classes.as_str(), classes.button_prev.as_str());
    out.append("\">");
    push_calendar_arrow(out, style.text_color.as_str(), false);
    out.append("</div><div class=\"");
    push_button_classes(out, style.button_classes.as_str(), classes.button_next.as_str());
    out.append("\">");
    push_calendar_arrow(out, style.text_color.as_str(), true);
    out.append("</div><button class=\"");
    push_button_classes(out, style.button_classes.as_str(), classes.button_today.as_str());
    out.append("\">Today</button></div></div>");
    assert(out@ =~= start + calendar_top_html(*style, *classes));
}

fn push_calendar_scripts(
    out: &mut String,
    fullcalendar_path: &str,
    rrule_path: &str,
    fullcalendar_rrule_path: &str,
    input_json: &str,
    snippet: &str,
)
    ensures
        final(out)@ == old(out)@ + calendar_scripts_html(
            fullcalendar_path@,
            rrule_path@,
            fullcalendar_rrule_path@,
            input_json@,
            snippet@,
        ),
{
    let ghost start = out@;
    out.append("<script defer src=\"");
    push_escaped(out, fullcalendar_path);
    out.append("\"></script><script defer src=\"");
    push_escaped(out, rrule_path);
    out.append("\"></script><script defer src=\"");
    push_escaped(out, fullcalendar_rrule_path);
    out.append("\"></script><script data-input=\"");
    push_escaped(out, input_json);
    out.append("\">");
    out.append("\n                    const input = JSON.parse(document.querySelector('[data-input]').getAttribute('data-input'))\n                    ");
    out.append(snippet);
    out.append("(input)\n                ");
    out.append("</script>");
    assert(out@ =~= start + calendar_scripts_html(
        fullcalendar_path@,
        rrule_path@,
        fullcalendar_rrule_path@,
        input_json@,
        snippet@,
    ));
}

/// The HTML of a calendar of `events`. The script's function comes from
/// the caller.
pub fn calendar(
    style: &CalendarStyle,
    classes: &CalendarClasses,
    events: &Vec<CalendarEvent>,
    legend: Option<&Legend>,
    fullcalendar_path: &str,
    rrule_path: &str,
    fullcalendar_rrule_path: &str,
    snippet: &str,
) -> (html: String)
    ensures
        html@ == calendar_html(
            *style,
            *classes,
            events@,
            match legend {
                Some(l) => Some(l@),
                None => None,
            },
            fullcalendar_path@,
            rrule_path@,
            fullcalendar_rrule_path@,
            snippet@,
        ),
{
    let input_json = calendar_input(events, classes);
    let input_json = input_json.as_str();
    let mut out = String::new();
    push_calendar_top(&mut out, style, classes);
    match legend {
        Some(l) => out.append(l.render().as_str()),
        None => {},
    }
    out.append("<div class=\"");
    push_escaped(&mut out, classes.container.as_str());
    out.append(" [--fc-page-bg-color:transparent]\"></div>");
    push_calendar_scripts(&mut out, fullcalendar_path, rrule_path, fullcalendar_rrule_path, input_json, snippet);
    out
}

} // verus!
