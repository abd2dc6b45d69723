//! The pages of the site: which mobs the home page's calendar shows and
//! the events it shows of them, what each mob's page holds and the events
//! of its own calendar, the content of the home page, of a mob's page and
//! of the page for adding a mob, and the files that each page refers to.
//!
//! Each page is laid out on a base that gives every page its frame; what a
//! page hands to its base is a `PageFrame`, and the files that the base
//! itself refers to are not part of the sets recorded here. Where the
//! markup uses the site's style (the prose classes, a button's classes, the
//! gaps), the caller gives it.

use vstd::prelude::*;

use crate::components::{
    avatars, avatars_html, calendar, calendar_event_content, calendar_event_html, calendar_html,
    concat_html, frame_is, home_event_content, home_event_html, lemma_concat_html_step,
    links_section, links_section_html, opt_text, participants_section, participants_section_html,
    status_line, status_line_html, CalendarClasses, CalendarEvent, CalendarStyle, PageFrame,
    RedirectPage,
};
use crate::expected_files::ExpectedFiles;
use crate::file_spec::{FileContents, FileSpec};
use crate::link::{is_element_of, link_image_path, link_url_text, Link, LinkElement};
use crate::markdown::{comrak_html, Markdown};
use crate::mob::{
    duration_text_spec, mob_page_description, mob_page_description_spec, mob_page_path,
    mob_page_path_spec, site_name, Id, Minutes, Mob, Session, Title,
};
use crate::participant::{Participant, Person};
use crate::status::{indicator_of_status, Legend, Status};
use crate::text::{
    decimal, html_escaped, push_char, push_decimal, push_escaped, push_zero_padded2, zero_padded2,
};
use crate::url::url_serialization;

verus! {

/// Whether a mob with the given status is on the home page's calendar: a
/// terminated or renamed mob is not.
pub open spec fn is_listed(status: Status) -> bool {
    !(status is Terminated || status is Renamed)
}

/// The plain values of a calendar event: its recurrence rule, its length
/// in minutes, its content and its colors.
pub open spec fn event_view(e: CalendarEvent) -> (Seq<char>, u16, Seq<char>, Seq<char>, Seq<char>) {
    (e.recurrence@, e.duration.spec_minutes(), e.content@, e.background_color@, e.text_color@)
}

/// The plain values of a sequence of events.
pub open spec fn events_view(events: Seq<CalendarEvent>) -> Seq<
    (Seq<char>, u16, Seq<char>, Seq<char>, Seq<char>),
> {
    events.map_values(|e: CalendarEvent| event_view(e))
}

/// The event of one session of `mob` whose content is `content`: the
/// session's rule and length, and the mob's colors.
pub open spec fn session_event(mob: Mob, session: Session, content: Seq<char>) -> (
    Seq<char>,
    u16,
    Seq<char>,
    Seq<char>,
    Seq<char>,
) {
    (
        session.spec_recurrence(),
        session.spec_duration(),
        calendar_event_html(content),
        mob.background_color@,
        mob.text_color@,
    )
}

/// The event of one session of `mob` on the home page's calendar: a link to
/// the mob's page with its title and status indicator.
pub open spec fn home_event_view(mob: Mob, session: Session) -> (
    Seq<char>,
    u16,
    Seq<char>,
    Seq<char>,
    Seq<char>,
) {
    session_event(
        mob,
        session,
        home_event_html(
            mob_page_path_spec(mob.id.spec_text()),
            mob.title.spec_text(),
            indicator_of_status(mob.status),
        ),
    )
}

/// The home page's events of one mob, one per session, in order.
pub open spec fn mob_home_events(mob: Mob) -> Seq<(Seq<char>, u16, Seq<char>, Seq<char>, Seq<char>)> {
    mob.schedule@.map_values(|s: Session| home_event_view(mob, s))
}

/// The home page's events: those of every listed mob, mob after mob.
pub open spec fn home_events(mobs: Seq<Mob>) -> Seq<(Seq<char>, u16, Seq<char>, Seq<char>, Seq<char>)>
    decreases mobs.len(),
{
    if mobs.len() == 0 {
        Seq::empty()
    } else {
        home_events(mobs.drop_last()) + if is_listed(mobs.last().status) {
            mob_home_events(mobs.last())
        } else {
            Seq::empty()
        }
    }
}

/// The mob pages that the home page's events link to: those of the listed
/// mobs that have a session.
pub open spec fn home_linked_pages(mobs: Seq<Mob>) -> Set<Seq<char>> {
    Set::new(
        |p: Seq<char>|
            exists|i: int|
                0 <= i < mobs.len() && is_listed(#[trigger] mobs[i].status) && mobs[i].schedule@.len()
                    > 0 && p == mob_page_path_spec(mobs[i].id.spec_text()),
    )
}

/// The pages that the events of `mob` link to.
pub open spec fn mob_linked_pages(mob: Mob) -> Set<Seq<char>> {
    if is_listed(mob.status) && mob.schedule@.len() > 0 {
        set![mob_page_path_spec(mob.id.spec_text())]
    } else {
        Set::empty()
    }
}

proof fn lemma_linked_pages_step(mobs: Seq<Mob>, i: int)
    requires
        0 <= i < mobs.len(),
    ensures
        home_linked_pages(mobs.take(i + 1)) == home_linked_pages(mobs.take(i)).union(
            mob_linked_pages(mobs[i]),
        ),
{
    let before = mobs.take(i);
    let after = mobs.take(i + 1);
    assert forall|p: Seq<char>|
        #[trigger] home_linked_pages(after).contains(p) == home_linked_pages(before).union(
            mob_linked_pages(mobs[i]),
        ).contains(p) by {
        if home_linked_pages(after).contains(p) {
            let k = choose|k: int|
                0 <= k < after.len() && is_listed(#[trigger] after[k].status) && after[k].schedule@.len()
                    > 0 && p == mob_page_path_spec(after[k].id.spec_text());
            if k < i {
                assert(before[k] == after[k]);
            }
        }
        if home_linked_pages(before).contains(p) {
            let k = choose|k: int|
                0 <= k < before.len() && is_listed(#[trigger] before[k].status) && before[k].schedule@.len()
                    > 0 && p == mob_page_path_spec(before[k].id.spec_text());
            assert(after[k] == before[k]);
        }
        if mob_linked_pages(mobs[i]).contains(p) {
            assert(after[i] == mobs[i]);
        }
    }
    assert(home_linked_pages(after) =~= home_linked_pages(before).union(mob_linked_pages(mobs[i])));
}

/// The event of a session of `mob` with the given content, already HTML.
fn make_session_event(mob: &Mob, session: &Session, content: &str) -> (e: CalendarEvent)
    ensures
        event_view(e) == session_event(*mob, *session, content@),
{
    CalendarEvent {
        recurrence: String::from_str(session.recurrence()),
        duration: Minutes::new(session.duration()),
        content: calendar_event_content(content),
        background_color: String::from_str(mob.background_color.as_str()),
        text_color: String::from_str(mob.text_color.as_str()),
    }
}

/// The events of the home page's calendar, for every session of every
/// listed mob, in order; the page of each mob that has one is recorded in
/// `expected_files`.
pub fn home_calendar_events(mobs: &Vec<Mob>, expected_files: &mut ExpectedFiles) -> (events: Vec<
    CalendarEvent,
>)
    ensures
        events_view(events@) == home_events(mobs@),
        final(expected_files)@ == old(expected_files)@.union(home_linked_pages(mobs@)),
{
    let n = mobs.len();
    let mut events: Vec<CalendarEvent> = Vec::new();
    let mut i: usize = 0;
    proof {
        assert(mobs@.take(0) =~= Seq::<Mob>::empty());
        assert(home_linked_pages(mobs@.take(0)) =~= Set::<Seq<char>>::empty());
        assert(events_view(events@) =~= Seq::empty());
    }
    while i < n
        invariant
            n == mobs@.len(),
            i <= n,
            events_view(events@) == home_events(mobs@.take(i as int)),
            expected_files@ == old(expected_files)@.union(home_linked_pages(mobs@.take(i as int))),
        decreases n - i,
    {
        let mob = &mobs[i];
        let ghost start_events = events_view(events@);
        let ghost start_files = expected_files@;
        if mob.status.is_listed() {
            let m = mob.schedule.len();
            let mut j: usize = 0;
            proof {
                assert(mob_home_events(*mob).take(0) =~= Seq::empty());
                assert(start_events + mob_home_events(*mob).take(0) =~= start_events);
            }
            while j < m
                invariant
                    m == mob.schedule@.len(),
                    j <= m,
                    is_listed(mob.status),
                    events_view(events@) == start_events + mob_home_events(*mob).take(j as int),
                    j == 0 ==> expected_files@ == start_files,
                    j > 0 ==> expected_files@ == start_files.insert(
                        mob_page_path_spec(mob.id.spec_text()),
                    ),
                decreases m - j,
            {
                let link = home_event_content(expected_files, &mob.id, &mob.title, &mob.status);
                let event = make_session_event(mob, &mob.schedule[j], link.as_str());
                let ghost before = events@;
                events.push(event);
                proof {
                    assert(events_view(events@) =~= events_view(before).push(
                        home_event_view(*mob, mob.schedule@[j as int]),
                    ));
                    assert(mob_home_events(*mob).take(j + 1) =~= mob_home_events(*mob).take(
                        j as int,
                    ).push(home_event_view(*mob, mob.schedule@[j as int])));
                    assert(start_events + mob_home_events(*mob).take(j + 1) =~= (start_events
                        + mob_home_events(*mob).take(j as int)).push(
                        home_event_view(*mob, mob.schedule@[j as int]),
                    ));
                }
                j = j + 1;
            }
            proof {
                assert(mob_home_events(*mob).take(m as int) =~= mob_home_events(*mob));
                if m > 0 {
                    assert(start_files.insert(mob_page_path_spec(mob.id.spec_text()))
                        =~= start_files.union(mob_linked_pages(*mob)));
                } else {
                    assert(start_files =~= start_files.union(mob_linked_pages(*mob)));
                }
            }
        } else {
            proof {
                assert(start_events + Seq::empty() =~= start_events);
                assert(start_files =~= start_files.union(mob_linked_pages(*mob)));
            }
        }
        proof {
            let taken = mobs@.take(i + 1);
            assert(taken.drop_last() =~= mobs@.take(i as int));
            assert(taken.last() == mobs@[i as int]);
            lemma_linked_pages_step(mobs@, i as int);
            assert(old(expected_files)@.union(home_linked_pages(mobs@.take(i as int))).union(
                mob_linked_pages(*mob),
            ) =~= old(expected_files)@.union(home_linked_pages(taken)));
        }
        i = i + 1;
    }
    assert(mobs@.take(n as int) =~= mobs@);
    events
}

/// The plain values of a person: name, profile address and avatar.
pub open spec fn person_view(p: Person) -> (Seq<char>, Seq<char>, Option<Seq<char>>) {
    (p.spec_name(), p.spec_social_url(), p.spec_avatar_url())
}

/// The people among some participants who are shown publicly, in order.
pub open spec fn public_people(participants: Seq<Participant>) -> Seq<
    (Seq<char>, Seq<char>, Option<Seq<char>>),
>
    decreases participants.len(),
{
    if participants.len() == 0 {
        Seq::empty()
    } else {
        public_people(participants.drop_last()) + match participants.last() {
            Participant::Public(person) => seq![person_view(person)],
            Participant::Hidden => Seq::empty(),
        }
    }
}

/// The people shown publicly among the participants of all mobs, mob after
/// mob, terminated and renamed mobs included.
pub open spec fn all_public_people(mobs: Seq<Mob>) -> Seq<(Seq<char>, Seq<char>, Option<Seq<char>>)>
    decreases mobs.len(),
{
    if mobs.len() == 0 {
        Seq::empty()
    } else {
        all_public_people(mobs.drop_last()) + public_people(mobs.last().participants@)
    }
}

/// A sequence without its repetitions: each value where it first occurs.
pub open spec fn first_occurrences<T>(s: Seq<T>) -> Seq<T>
    decreases s.len(),
{
    if s.len() == 0 {
        Seq::empty()
    } else if first_occurrences(s.drop_last()).contains(s.last()) {
        first_occurrences(s.drop_last())
    } else {
        first_occurrences(s.drop_last()).push(s.last())
    }
}

fn same_person(a: &Person, b: &Person) -> (same: bool)
    ensures
        same == (person_view(*a) == person_view(*b)),
{
    if !crate::text::text_eq(a.name(), b.name()) || !crate::text::text_eq(a.social_url(), b.social_url()) {
        return false;
    }
    match (a.avatar_url(), b.avatar_url()) {
        (Some(x), Some(y)) => crate::text::text_eq(x, y),
        (None, None) => true,
        _ => false,
    }
}

fn copy_person(p: &Person) -> (q: Person)
    ensures
        person_view(q) == person_view(*p),
{
    let avatar = match p.avatar_url() {
        Some(a) => Some(String::from_str(a)),
        None => None,
    };
    Person::new(String::from_str(p.name()), String::from_str(p.social_url()), avatar)
}

/// Adds a person to a list of distinct people unless they are in it.
fn add_person(people: &mut Vec<Person>, person: &Person)
    ensures
        final(people)@.map_values(|p: Person| person_view(p)) == if old(people)@.map_values(
            |p: Person| person_view(p),
        ).contains(person_view(*person)) {
            old(people)@.map_values(|p: Person| person_view(p))
        } else {
            old(people)@.map_values(|p: Person| person_view(p)).push(person_view(*person))
        },
{
    let ghost views = people@.map_values(|p: Person| person_view(p));
    let n = people.len();
    let mut k: usize = 0;
    while k < n
        invariant
            n == people@.len(),
            views == people@.map_values(|p: Person| person_view(p)),
            views == old(people)@.map_values(|p: Person| person_view(p)),
            k <= n,
            forall|j: int| 0 <= j < k ==> views[j] != person_view(*person),
        decreases n - k,
    {
        if same_person(&people[k], person) {
            assert(views[k as int] == person_view(*person));
            return;
        }
        k = k + 1;
    }
    assert(!views.contains(person_view(*person)));
    people.push(copy_person(person));
    assert(people@.map_values(|p: Person| person_view(p)) =~= views.push(person_view(*person)));
}

/// The people shown publicly among the participants of all the given mobs,
/// each once, where they first occur.
pub fn get_all_participants(mobs: &Vec<Mob>) -> (people: Vec<Person>)
    ensures
        people@.map_values(|p: Person| person_view(p)) == first_occurrences(all_public_people(mobs@)),
{
    let mut people: Vec<Person> = Vec::new();
    let n = mobs.len();
    let mut i: usize = 0;
    assert(mobs@.take(0) =~= Seq::<Mob>::empty());
    assert(people@.map_values(|p: Person| person_view(p)) =~= Seq::empty());
    while i < n
        invariant
            n == mobs@.len(),
            i <= n,
            people@.map_values(|p: Person| person_view(p)) == first_occurrences(
                all_public_people(mobs@.take(i as int)),
            ),
        decreases n - i,
    {
        let participants = &mobs[i].participants;
        let ghost before = all_public_people(mobs@.take(i as int));
        let m = participants.len();
        let mut j: usize = 0;
        assert(before + public_people(participants@.take(0)) =~= before);
        while j < m
            invariant
                m == participants@.len(),
                j <= m,
                people@.map_values(|p: Person| person_view(p)) == first_occurrences(
                    before + public_people(participants@.take(j as int)),
                ),
            decreases m - j,
        {
            let ghost prefix = before + public_people(participants@.take(j as int));
            proof {
                assert(participants@.take(j + 1).drop_last() =~= participants@.take(j as int));
                assert(participants@.take(j + 1).last() == participants@[j as int]);
            }
            match &participants[j] {
                Participant::Public(person) => {
                    add_person(&mut people, person);
                    proof {
                        let next = before + public_people(participants@.take(j + 1));
                        assert(next =~= prefix.push(person_view(*person)));
                        assert(next.drop_last() =~= prefix);
                    }
                },
                Participant::Hidden => {
                    assert(before + public_people(participants@.take(j + 1)) =~= prefix);
                },
            }
            j = j + 1;
        }
        proof {
            assert(participants@.take(m as int) =~= participants@);
            assert(mobs@.take(i + 1).drop_last() =~= mobs@.take(i as int));
            assert(mobs@.take(i + 1).last() == mobs@[i as int]);
        }
        i = i + 1;
    }
    assert(mobs@.take(n as int) =~= mobs@);
    people
}

/// The files that the home page refers to, besides those of its base: the
/// pages of the mobs its events link to, the page for adding a mob, and the
/// calendar's scripts.
pub open spec fn home_page_files(mobs: Seq<Mob>) -> Set<Seq<char>> {
    home_linked_pages(mobs).union(
        set!["/add.html"@, "/fullcalendar.js"@, "/rrule.js"@, "/fullcalendar_rrule.js"@],
    )
}

/// The home page: the people shown publicly among all participants, the
/// legend of the status indicators, the events of its calendar, and the
/// paths of the page for adding a mob and of the calendar's scripts.
pub struct HomePage {
    pub participants: Vec<Person>,
    pub status_legend: Legend,
    pub events: Vec<CalendarEvent>,
    pub add_page_path: String,
    pub fullcalendar_path: String,
    pub rrule_path: String,
    pub fullcalendar_rrule_path: String,
}

impl HomePage {
    /// What the home page hands to its base: no title of its own, its
    /// content in a column, and the community's description.
    pub fn frame() -> (frame: PageFrame)
        ensures
            frame_is(frame, None, None, "flex flex-col gap-1"@, "A mob programming community"@),
    {
        PageFrame {
            title: None,
            head: None,
            classes: String::from_str("flex flex-col gap-1"),
            description: String::from_str("A mob programming community"),
        }
    }

    /// The content of the home page: the calendar of its events with the
    /// legend, the button to the page for adding a mob, and the avatars of
    /// its participants. The calendar's classes and script come from the
    /// caller.
    pub fn content(&self, style: &CalendarStyle, classes: &CalendarClasses, snippet: &str) -> (html:
        String)
        ensures
            html@ == home_page_content_html(
                calendar_html(
                    *style,
                    *classes,
                    self.events@,
                    Some(self.status_legend@),
                    self.fullcalendar_path@,
                    self.rrule_path@,
                    self.fullcalendar_rrule_path@,
                    snippet@,
                ),
                style.button_gap@,
                style.button_classes@,
                self.add_page_path@,
                self.participants@,
            ),
    {
        let calendar_html = calendar(
            style,
            classes,
            &self.events,
            Some(&self.status_legend),
            self.fullcalendar_path.as_str(),
            self.rrule_path.as_str(),
            self.fullcalendar_rrule_path.as_str(),
            snippet,
        );
        home_page_content(
            calendar_html.as_str(),
            style.button_gap.as_str(),
            style.button_classes.as_str(),
            self.add_page_path.as_str(),
            &self.participants,
        )
    }
}

/// The home page's file: its path and page, and the files it refers to.
pub struct HomePageFile {
    pub path: String,
    pub page: HomePage,
    pub expected_files: ExpectedFiles,
}

/// The home page of the given mobs, at `/index.html`: the people of all
/// mobs, the legend, the events of the listed mobs, and the files it
/// refers to: the pages its events link to, the page for adding a mob and
/// the calendar's scripts.
pub fn index_page(mobs: &Vec<Mob>) -> (file: HomePageFile)
    ensures
        file.path@ == "/index.html"@,
        file.page.participants@.map_values(|p: Person| person_view(p)) == first_occurrences(
            all_public_people(mobs@),
        ),
        file.page.status_legend@ == crate::status::status_legend_map(),
        events_view(file.page.events@) == home_events(mobs@),
        file.page.add_page_path@ == "/add.html"@,
        file.page.fullcalendar_path@ == "/fullcalendar.js"@,
        file.page.rrule_path@ == "/rrule.js"@,
        file.page.fullcalendar_rrule_path@ == "/fullcalendar_rrule.js"@,
        file.expected_files@ == home_page_files(mobs@),
{
    let mut expected_files = ExpectedFiles::new();
    let participants = get_all_participants(mobs);
    let events = home_calendar_events(mobs, &mut expected_files);
    let add_page_path = expected_files.insert(String::from_str("/add.html"));
    let fullcalendar_path = expected_files.insert(String::from_str("/fullcalendar.js"));
    let rrule_path = expected_files.insert(String::from_str("/rrule.js"));
    let fullcalendar_rrule_path = expected_files.insert(String::from_str("/fullcalendar_rrule.js"));
    let page = HomePage {
        participants,
        status_legend: Status::legend(),
        events,
        add_page_path,
        fullcalendar_path,
        rrule_path,
        fullcalendar_rrule_path,
    };
    assert(expected_files@ =~= home_page_files(mobs@));
    HomePageFile { path: String::from_str("/index.html"), page, expected_files }
}

/// The logos that the elements of `links` show.
pub open spec fn link_logos(links: Seq<Link>) -> Set<Seq<char>> {
    Set::new(|p: Seq<char>| exists|i: int| 0 <= i < links.len() && p == link_image_path(#[trigger] links[i]))
}

/// The calendar's scripts, which every mob's own page loads.
pub open spec fn calendar_scripts() -> Set<Seq<char>> {
    set!["/fullcalendar.js"@, "/rrule.js"@, "/fullcalendar_rrule.js"@]
}

/// The elements of a mob's links, in order; the logo of each is recorded in
/// `expected_files`.
pub(crate) fn link_elements(links: Vec<Link>, expected_files: &mut ExpectedFiles) -> (elements: Vec<
    LinkElement,
>)
    requires
        forall|i: int| 0 <= i < links@.len() ==> url_serialization(link_url_text(#[trigger] links@[i])) is Some,
    ensures
        elements@.len() == links@.len(),
        forall|i: int| 0 <= i < links@.len() ==> is_element_of(#[trigger] elements@[i], links@[i]),
        final(expected_files)@ == old(expected_files)@.union(link_logos(links@)),
{
    let ghost all = links@;
    let mut rest = links;
    let mut elements: Vec<LinkElement> = Vec::new();
    proof {
        assert(all.subrange(0, all.len() as int) =~= all);
        assert(link_logos(all.take(0)) =~= Set::<Seq<char>>::empty());
    }
    while rest.len() > 0
        invariant
            elements@.len() + rest@.len() == all.len(),
            rest@ == all.subrange(elements@.len() as int, all.len() as int),
            forall|i: int| 0 <= i < all.len() ==> url_serialization(link_url_text(#[trigger] all[i])) is Some,
            forall|i: int| 0 <= i < elements@.len() ==> is_element_of(#[trigger] elements@[i], all[i]),
            expected_files@ == old(expected_files)@.union(link_logos(all.take(elements@.len() as int))),
        decreases rest@.len(),
    {
        let k = elements.len();
        let link = rest.remove(0);
        assert(link == all[k as int]);
        let ghost files_before = expected_files@;
        let element = LinkElement::from_link(link, expected_files);
        elements.push(element);
        proof {
            assert(rest@ =~= all.subrange(k + 1, all.len() as int));
            assert forall|p: Seq<char>| #[trigger] link_logos(all.take(k + 1)).contains(p) == link_logos(
                all.take(k as int),
            ).insert(link_image_path(all[k as int])).contains(p) by {
                if link_logos(all.take(k + 1)).contains(p) {
                    let j = choose|j: int| 0 <= j < k + 1 && p == link_image_path(#[trigger] all.take(k + 1)[j]);
                    if j < k {
                        assert(all.take(k as int)[j] == all.take(k + 1)[j]);
                    }
                }
                if link_logos(all.take(k as int)).contains(p) {
                    let j = choose|j: int| 0 <= j < k && p == link_image_path(#[trigger] all.take(k as int)[j]);
                    assert(all.take(k as int)[j] == all.take(k + 1)[j]);
                }
                if p == link_image_path(all[k as int]) {
                    assert(all.take(k + 1)[k as int] == all[k as int]);
                }
            }
            assert(link_logos(all.take(k + 1)) =~= link_logos(all.take(k as int)).insert(
                link_image_path(all[k as int]),
            ));
            assert(expected_files@ =~= old(expected_files)@.union(link_logos(all.take(k + 1))));
        }
    }
    assert(all.take(all.len() as int) =~= all);
    elements
}

/// The event of one session of `mob` on the mob's own calendar: the times
/// at which the session starts and ends.
pub open spec fn mob_event_view(mob: Mob, session: Session) -> (
    Seq<char>,
    u16,
    Seq<char>,
    Seq<char>,
    Seq<char>,
) {
    session_event(mob, session, mob_event_text(session.spec_start() as int, session.spec_duration() as int))
}

/// The events of a mob's own calendar, one per session, in order.
pub open spec fn mob_page_events(mob: Mob) -> Seq<(Seq<char>, u16, Seq<char>, Seq<char>, Seq<char>)> {
    mob.schedule@.map_values(|s: Session| mob_event_view(mob, s))
}

/// The events of a mob's own calendar.
pub fn mob_calendar_events(mob: &Mob) -> (events: Vec<CalendarEvent>)
    ensures
        events_view(events@) == mob_page_events(*mob),
{
    let mut events: Vec<CalendarEvent> = Vec::new();
    let m = mob.schedule.len();
    let mut j: usize = 0;
    assert(events_view(events@) =~= mob_page_events(*mob).take(0));
    while j < m
        invariant
            m == mob.schedule@.len(),
            j <= m,
            events_view(events@) == mob_page_events(*mob).take(j as int),
        decreases m - j,
    {
        let session = &mob.schedule[j];
        let times = mob_event_content(session.start(), &Minutes::new(session.duration()));
        let event = make_session_event(mob, session, times.as_str());
        let ghost before = events@;
        events.push(event);
        proof {
            assert(events_view(events@) =~= events_view(before).push(
                mob_event_view(*mob, mob.schedule@[j as int]),
            ));
            assert(mob_page_events(*mob).take(j + 1) =~= mob_page_events(*mob).take(j as int).push(
                mob_event_view(*mob, mob.schedule@[j as int]),
            ));
        }
        j = j + 1;
    }
    assert(mob_page_events(*mob).take(m as int) =~= mob_page_events(*mob));
    events
}

/// The own page of a mob that was not renamed: the mob's title, subtitle,
/// participants, free-form copy and status, the elements of its links, the
/// events of its calendar, and the paths of the calendar's scripts.
pub struct MobPage {
    pub title: Title,
    pub subtitle: Option<String>,
    pub participants: Vec<Participant>,
    pub freeform_copy: Markdown,
    pub status: Status,
    pub links: Vec<LinkElement>,
    pub events: Vec<CalendarEvent>,
    pub fullcalendar_path: String,
    pub rrule_path: String,
    pub fullcalendar_rrule_path: String,
}

/// What a mob's page holds.
pub enum MobPageBody {
    /// The page of a renamed mob, which redirects to the page of its new
    /// identifier.
    Redirect(RedirectPage<()>),
    /// The mob's own page.
    Page(MobPage),
}

/// A mob's page: its path, what it holds, and the files it refers to
/// besides those of its base.
pub struct MobPageFile {
    pub path: String,
    pub body: MobPageBody,
    pub expected_files: ExpectedFiles,
}

/// Whether `file` is the page of `mob`: at `/mobs/ID.html`, a redirect to
/// the page of the new identifier exactly when the mob was renamed, else
/// the mob's own page with its title, subtitle, participants, copy and
/// status, the elements of its links, the events of its calendar and the
/// calendar's scripts; it refers to the logos of the links, and to the
/// scripts on the mob's own page.
pub open spec fn is_mob_page(file: MobPageFile, mob: Mob) -> bool {
    &&& file.path@ == mob_page_path_spec(mob.id.spec_text())
    &&& (file.body is Redirect <==> mob.status is Renamed)
    &&& (file.body matches MobPageBody::Redirect(r) ==> mob.status matches Status::Renamed(new_id)
        && r.spec_target() == mob_page_path_spec(new_id.spec_text()))
    &&& (file.body matches MobPageBody::Page(p) ==> {
        &&& p.title == mob.title
        &&& p.subtitle == mob.subtitle
        &&& p.participants == mob.participants
        &&& p.freeform_copy == mob.freeform_copy
        &&& p.status == mob.status
        &&& p.links@.len() == mob.links@.len()
        &&& forall|i: int|
            0 <= i < mob.links@.len() ==> is_element_of(#[trigger] p.links@[i], mob.links@[i])
        &&& events_view(p.events@) == mob_page_events(mob)
        &&& p.fullcalendar_path@ == "/fullcalendar.js"@
        &&& p.rrule_path@ == "/rrule.js"@
        &&& p.fullcalendar_rrule_path@ == "/fullcalendar_rrule.js"@
    })
    &&& file.expected_files@ == if mob.status is Renamed {
        link_logos(mob.links@)
    } else {
        link_logos(mob.links@).union(calendar_scripts())
    }
}

/// What a mob's page hands to its base: the mob's title, its content in a
/// column, and the description of the page.
pub fn mob_page_frame(title: &Title, subtitle: Option<&str>) -> (frame: PageFrame)
    ensures
        frame_is(
            frame,
            Some(title.spec_text()),
            None,
            "flex flex-col gap-6"@,
            mob_page_description_spec(title.spec_text(), match subtitle {
                Some(s) => Some(s@),
                None => None,
            }),
        ),
{
    PageFrame {
        title: Some(String::from_str(title.as_str())),
        head: None,
        classes: String::from_str("flex flex-col gap-6"),
        description: mob_page_description(title, subtitle),
    }
}

impl MobPage {
    /// What the page hands to its base.
    pub fn frame(&self) -> (frame: PageFrame)
        ensures
            frame_is(
                frame,
                Some(self.title.spec_text()),
                None,
                "flex flex-col gap-6"@,
                mob_page_description_spec(self.title.spec_text(), opt_text(self.subtitle)),
            ),
    {
        let subtitle = match &self.subtitle {
            Some(s) => Some(s.as_str()),
            None => None,
        };
        mob_page_frame(&self.title, subtitle)
    }

    /// The content of the page: its heading, links and participants, its
    /// status line, its copy and join column, and the calendar of its
    /// events without a legend. The subtitle goes in as it is, as the title
    /// does. The style, the calendar's classes and its script come from the
    /// caller.
    pub fn content(
        &self,
        style: &CalendarStyle,
        classes: &CalendarClasses,
        prose_classes: &str,
        snippet: &str,
    ) -> (html: String)
        requires
            !(self.status is Renamed),
        ensures
            html@ == mob_page_content_html(
                self.title.spec_text(),
                opt_text(self.subtitle),
                self.links@,
                self.participants@,
                self.status,
                self.freeform_copy.spec_source(),
                prose_classes@,
                calendar_html(
                    *style,
                    *classes,
                    self.events@,
                    None,
                    self.fullcalendar_path@,
                    self.rrule_path@,
                    self.fullcalendar_rrule_path@,
                    snippet@,
                ),
            ),
    {
        let calendar_html = calendar(
            style,
            classes,
            &self.events,
            None,
            self.fullcalendar_path.as_str(),
            self.rrule_path.as_str(),
            self.fullcalendar_rrule_path.as_str(),
            snippet,
        );
        let subtitle = match &self.subtitle {
            Some(s) => Some(s.as_str()),
            None => None,
        };
        mob_page_content(
            &self.title,
            subtitle,
            &self.links,
            &self.participants,
            &self.status,
            &self.freeform_copy,
            prose_classes,
            calendar_html.as_str(),
        )
    }
}

/// The page of `mob`, at `/mobs/ID.html`: a redirect to the page of the new
/// identifier when the mob was renamed, else the mob's own page. The logos
/// of the links are recorded either way; the calendar's scripts only for
/// the mob's own page.
pub fn mob_page(mob: Mob) -> (file: MobPageFile)
    requires
        forall|i: int|
            0 <= i < mob.links@.len() ==> url_serialization(link_url_text(#[trigger] mob.links@[i])) is Some,
    ensures
        is_mob_page(file, mob),
{
    let ghost whole = mob;
    let path = mob_page_path(mob.id.as_str());
    let events = mob_calendar_events(&mob);
    let Mob {
        id: _,
        title,
        subtitle,
        participants,
        schedule: _,
        freeform_copy,
        background_color: _,
        text_color: _,
        links,
        status,
    } = mob;
    let mut expected_files = ExpectedFiles::new();
    let ghost link_seq = links@;
    let elements = link_elements(links, &mut expected_files);
    assert(expected_files@ =~= link_logos(link_seq));
    let body = match status.redirect_target() {
        Some(target) => MobPageBody::Redirect(RedirectPage::new((), target)),
        None => {
            let fullcalendar_path = expected_files.insert(String::from_str("/fullcalendar.js"));
            let rrule_path = expected_files.insert(String::from_str("/rrule.js"));
            let fullcalendar_rrule_path = expected_files.insert(
                String::from_str("/fullcalendar_rrule.js"),
            );
            assert(expected_files@ =~= link_logos(link_seq).union(calendar_scripts()));
            MobPageBody::Page(
                MobPage {
                    title,
                    subtitle,
                    participants,
                    freeform_copy,
                    status,
                    links: elements,
                    events,
                    fullcalendar_path,
                    rrule_path,
                    fullcalendar_rrule_path,
                },
            )
        },
    };
    MobPageFile { path, body, expected_files }
}

/// The file of the page for adding a mob, `/add.html`: the page's HTML as
/// UTF-8 bytes, referring to `expected_files`.
pub fn page(html: &str, expected_files: ExpectedFiles) -> (spec: FileSpec<FileContents>)
    ensures
        spec.spec_path() == "/add.html"@,
        spec.spec_source().spec_bytes() == vstd::utf8::encode_utf8(html@),
        spec.spec_source().spec_expected_files() == Some(expected_files@),
{
    let bytes = vstd::slice::slice_to_vec(html.as_bytes());
    FileSpec::from_str_path("/add.html", FileContents::new(bytes, Some(expected_files)))
}

/// The page of a listed mob that has a session is linked from the home
/// page's calendar, and it is the mob's own page, not a redirect.
pub proof fn lemma_listed_mob_page_is_linked(mobs: Seq<Mob>, i: int, file: MobPageFile)
    requires
        0 <= i < mobs.len(),
        is_listed(mobs[i].status),
        mobs[i].schedule@.len() > 0,
        is_mob_page(file, mobs[i]),
    ensures
        home_linked_pages(mobs).contains(file.path@),
        file.body is Page,
{
}

/// The page of `mob`, as `mob_page` makes it, or `None` when the address of
/// one of its links is not a valid URL.
pub fn try_mob_page(mob: Mob) -> (file: Option<MobPageFile>)
    ensures
        file is Some <==> forall|i: int|
            0 <= i < mob.links@.len() ==> url_serialization(link_url_text(#[trigger] mob.links@[i])) is Some,
        file matches Some(file) ==> is_mob_page(file, mob),
{
    let n = mob.links.len();
    let mut i: usize = 0;
    while i < n
        invariant
            n == mob.links@.len(),
            i <= n,
            forall|j: int| 0 <= j < i ==> url_serialization(link_url_text(#[trigger] mob.links@[j])) is Some,
        decreases n - i,
    {
        if !mob.links[i].has_valid_url() {
            return None;
        }
        i = i + 1;
    }
    Some(mob_page(mob))
}

/// The Markdown that a status carries for the join column of a mob's page,
/// as `Status::join_content` gives it.
pub open spec fn join_markdown(status: Status) -> Option<Seq<char>> {
    match status {
        Status::Short(m) => Some(m.spec_source()),
        Status::Open(m) => Some(m.spec_source()),
        Status::Full(m) => match m {
            Some(m) => Some(m.spec_source()),
            None => None,
        },
        Status::Public(m) => Some(m.spec_source()),
        Status::Renamed(_) => None,
        Status::Terminated(m) => Some(m.spec_source()),
    }
}

/// The HTML of the content of a mob's own page: the title, the subtitle's
/// HTML when there is one, the links and the participants side by side;
/// the status line; the free-form copy and the join column, each in the
/// prose classes; a rule; and the calendar's HTML.
pub open spec fn mob_page_content_html(
    title: Seq<char>,
    subtitle_html: Option<Seq<char>>,
    links: Seq<LinkElement>,
    participants: Seq<Participant>,
    status: Status,
    freeform: Seq<char>,
    prose_classes: Seq<char>,
    calendar_html: Seq<char>,
) -> Seq<char> {
    "<div class=\"flex flex-col sm:flex-row sm:justify-around text-center tracking-wide\"><div class=\"py-12\"><h1 class=\"text-4xl\">"@
        + title + "</h1>"@ + match subtitle_html {
        Some(s) => s,
        None => Seq::empty(),
    } + "</div>"@ + links_section_html(links) + participants_section_html(participants)
        + "</div>"@ + status_line_html(status)
        + "<div class=\"grid grid-flow-row sm:grid-flow-col auto-cols-fr gap-[1.25em]\"><div class=\""@
        + html_escaped(prose_classes) + "\">"@ + comrak_html(freeform) + "</div><div class=\""@
        + html_escaped(prose_classes) + "\">"@ + match join_markdown(status) {
        Some(m) => comrak_html(m),
        None => Seq::empty(),
    } + "</div></div><hr>"@ + calendar_html
}

/// The content of a mob's own page. The subtitle's HTML, the prose classes
/// and the calendar's HTML come from the caller.
pub fn mob_page_content(
    title: &Title,
    subtitle_html: Option<&str>,
    links: &Vec<LinkElement>,
    participants: &Vec<Participant>,
    status: &Status,
    freeform: &Markdown,
    prose_classes: &str,
    calendar_html: &str,
) -> (html: String)
    requires
        !(*status is Renamed),
    ensures
        html@ == mob_page_content_html(
            title.spec_text(),
            match subtitle_html {
                Some(s) => Some(s@),
                None => None,
            },
            links@,
            participants@,
            *status,
            freeform.spec_source(),
            prose_classes@,
            calendar_html@,
        ),
{
    let mut out = String::from_str(
        "<div class=\"flex flex-col sm:flex-row sm:justify-around text-center tracking-wide\"><div class=\"py-12\"><h1 class=\"text-4xl\">",
    );
    out.append(title.render().as_str());
    out.append("</h1>");
    match subtitle_html {
        Some(s) => out.append(s),
        None => {},
    }
    out.append("</div>");
    out.append(links_section(links).as_str());
    out.append(participants_section(participants).as_str());
    out.append("</div>");
    out.append(status_line(status).as_str());
    out.append("<div class=\"grid grid-flow-row sm:grid-flow-col auto-cols-fr gap-[1.25em]\"><div class=\"");
    push_escaped(&mut out, prose_classes);
    out.append("\">");
    out.append(freeform.to_html().as_str());
    out.append("</div><div class=\"");
    push_escaped(&mut out, prose_classes);
    out.append("\">");
    match status.join_content() {
        Some(m) => out.append(m.to_html().as_str()),
        None => {},
    }
    out.append("</div></div><hr>");
    out.append(calendar_html);
    out
}

/// The HTML of the content of the home page: the calendar's HTML, a button
/// to the page for adding a mob, and the avatars of the participants. The
/// gap between buttons and the classes of a button come from the caller.
pub open spec fn home_page_content_html(
    calendar_html: Seq<char>,
    button_gap: Seq<char>,
    button_classes: Seq<char>,
    add_page_path: Seq<char>,
    people: Seq<Person>,
) -> Seq<char> {
    calendar_html + "<div class=\"flex flex-wrap gap-x-"@ + html_escaped(button_gap)
        + "\"><a class=\""@ + html_escaped(button_classes) + "\" href=\""@ + html_escaped(
        add_page_path,
    ) + "\">Add your mob!</a></div>"@ + avatars_html(people)
}

/// The content of the home page.
pub fn home_page_content(
    calendar_html: &str,
    button_gap: &str,
    button_classes: &str,
    add_page_path: &str,
    people: &Vec<Person>,
) -> (html: String)
    ensures
        html@ == home_page_content_html(
            calendar_html@,
            button_gap@,
            button_classes@,
            add_page_path@,
            people@,
        ),
{
    let mut out = String::from_str(calendar_html);
    out.append("<div class=\"flex flex-wrap gap-x-");
    push_escaped(&mut out, button_gap);
    out.append("\"><a class=\"");
    push_escaped(&mut out, button_classes);
    out.append("\" href=\"");
    push_escaped(&mut out, add_page_path);
    out.append("\">Add your mob!</a></div>");
    out.append(avatars(people).as_str());
    out
}

/// Where the files of the existing mobs are: the `mobs` directory of the
/// site's repository on its default branch.
pub open spec fn existing_mobs_url() -> Seq<char> {
    "https://github.com/mobusoperandi/website/tree/master/mobs"@
}

/// GitHub's documentation of pull requests.
pub open spec fn pull_requests_url() -> Seq<char> {
    "https://docs.github.com/en/pull-requests/collaborating-with-pull-requests/proposing-changes-to-your-work-with-pull-requests/about-pull-requests"@
}

/// The HTML of the content of the page for adding a mob: how mobs are
/// specified and added, then the documentation of each type of a mob's
/// file, in order. The prose classes, the vertical gap and the HTML of each
/// type come from the caller.
pub open spec fn add_page_content_html(
    prose_classes: Seq<char>,
    vertical_gap: Seq<char>,
    types_html: Seq<Seq<char>>,
) -> Seq<char> {
    "<div class=\""@ + html_escaped(prose_classes)
        + "\"><h1>Add a mob</h1><p>Mobs are specified in files in <a href=\""@ + html_escaped(
        existing_mobs_url(),
    ) + "\">the <code>mobs</code> directory.</a> Take a look at some of those files for examples.</p><p>To add a mob, submit a <a href=\""@
        + html_escaped(pull_requests_url())
        + "\">pull request</a> that adds a mob file.</p></div><ol class=\"flex flex-col "@
        + html_escaped(vertical_gap) + "\">"@ + concat_html(
        types_html,
        |t: Seq<char>| "<li>"@ + t + "</li>"@,
    ) + "</ol>"@
}

/// The content of the page for adding a mob.
pub fn add_page_content(prose_classes: &str, vertical_gap: &str, types_html: &Vec<String>) -> (html:
    String)
    ensures
        html@ == add_page_content_html(
            prose_classes@,
            vertical_gap@,
            types_html@.map_values(|t: String| t@),
        ),
{
    let mut out = String::from_str("<div class=\"");
    push_escaped(&mut out, prose_classes);
    out.append("\"><h1>Add a mob</h1><p>Mobs are specified in files in <a href=\"");
    push_escaped(&mut out, "https://github.com/mobusoperandi/website/tree/master/mobs");
    out.append(
        "\">the <code>mobs</code> directory.</a> Take a look at some of those files for examples.</p><p>To add a mob, submit a <a href=\"",
    );
    push_escaped(
        &mut out,
        "https://docs.github.com/en/pull-requests/collaborating-with-pull-requests/proposing-changes-to-your-work-with-pull-requests/about-pull-requests",
    );
    out.append("\">pull request</a> that adds a mob file.</p></div><ol class=\"flex flex-col ");
    push_escaped(&mut out, vertical_gap);
    out.append("\">");
    let ghost start = out@;
    let ghost types = types_html@.map_values(|t: String| t@);
    let ghost f = |t: Seq<char>| "<li>"@ + t + "</li>"@;
    let n = types_html.len();
    let mut i: usize = 0;
    assert(types.take(0) =~= Seq::<Seq<char>>::empty());
    while i < n
        invariant
            n == types_html@.len(),
            types == types_html@.map_values(|t: String| t@),
            f == (|t: Seq<char>| "<li>"@ + t + "</li>"@),
            i <= n,
            out@ == start + concat_html(types.take(i as int), f),
        decreases n - i,
    {
        out.append("<li>");
        out.append(types_html[i].as_str());
        out.append("</li>");
        proof {
            lemma_concat_html_step(types, i as int, f);
            assert(types[i as int] == types_html@[i as int]@);
        }
        i = i + 1;
    }
    assert(types.take(n as int) =~= types);
    out.append("</ol>");
    out
}

/// What the page for adding a mob hands to its base: the title "Add", its
/// content in a column with the given vertical gap, and its description.
pub fn add_page_frame(vertical_gap: &str) -> (frame: PageFrame)
    ensures
        frame_is(
            frame,
            Some("Add"@),
            None,
            "flex flex-col "@ + vertical_gap@,
            "How to add your mob to "@ + site_name(),
        ),
{
    let mut classes = String::from_str("flex flex-col ");
    classes.append(vertical_gap);
    let mut description = String::from_str("How to add your mob to ");
    description.append("Mobus Operandi");
    PageFrame { title: Some(String::from_str("Add")), head: None, classes, description }
}

/// A time of day as `%k:%M` writes it: the hour space-padded to two
/// characters, a colon, and the minute zero-padded to two digits.
pub open spec fn clock_text(hour: int, minute: int) -> Seq<char> {
    (if 0 <= hour < 10 {
        seq![' '] + decimal(hour)
    } else {
        decimal(hour)
    }) + ":"@ + zero_padded2(minute)
}

/// The content of an event of a mob's own calendar: the times of day, in
/// UTC, at which a session that starts `start` minutes after midnight and
/// lasts `duration` minutes starts and ends.
pub open spec fn mob_event_text(start: int, duration: int) -> Seq<char> {
    clock_text(start / 60, start % 60) + "\u{2013}"@ + clock_text(
        ((start + duration) % 1440) / 60,
        (start + duration) % 60,
    ) + " UTC"@
}

fn push_clock(out: &mut String, hour: i64, minute: i64)
    requires
        0 <= hour < 24,
        0 <= minute < 60,
    ensures
        final(out)@ == old(out)@ + clock_text(hour as int, minute as int),
{
    let ghost start = out@;
    if hour < 10 {
        push_char(out, ' ');
    }
    push_decimal(out, hour);
    out.append(":");
    push_zero_padded2(out, minute);
    assert(out@ =~= start + clock_text(hour as int, minute as int));
}

/// The content of an event of a mob's own calendar, for a session that
/// starts `start` minutes after midnight, UTC, and lasts `duration`.
pub fn mob_event_content(start: u16, duration: &Minutes) -> (text: String)
    requires
        start < 1440,
    ensures
        text@ == mob_event_text(start as int, duration.spec_minutes() as int),
{
    let start = start as i64;
    let end = start + duration.get() as i64;
    let mut text = String::new();
    push_clock(&mut text, start / 60, start % 60);
    text.append("\u{2013}");
    let end_of_day = end % 1440;
    assert(end_of_day % 60 == end % 60) by (nonlinear_arith)
        requires
            end_of_day == end % 1440,
            end >= 0,
    ;
    push_clock(&mut text, end_of_day / 60, end % 60);
    text.append(" UTC");
    text
}

/// Every event of a mob's own calendar carries the rule and the length of
/// its session and the mob's own colors, one event per session, in order.
pub proof fn lemma_mob_events_carry_mob_colors(mob: Mob)
    ensures
        mob_page_events(mob).len() == mob.schedule@.len(),
        forall|k: int|
            0 <= k < mob.schedule@.len() ==> {
                let e = #[trigger] mob_page_events(mob)[k];
                &&& e.0 == mob.schedule@[k].spec_recurrence()
                &&& e.1 == mob.schedule@[k].spec_duration()
                &&& e.3 == mob.background_color@
                &&& e.4 == mob.text_color@
            },
{
}

/// The event that the home page shows for a session of a mob links to the
/// mob's page with its title and status indicator, and carries the
/// session's rule and length and the mob's own colors.
pub proof fn lemma_home_event_of_session(mob: Mob, session: Session)
    ensures
        home_event_view(mob, session) == (
            session.spec_recurrence(),
            session.spec_duration(),
            calendar_event_html(
                home_event_html(
                    mob_page_path_spec(mob.id.spec_text()),
                    mob.title.spec_text(),
                    indicator_of_status(mob.status),
                ),
            ),
            mob.background_color@,
            mob.text_color@,
        ),
{
}

/// Whether `event` is the home page's event of a session of a listed mob
/// among `mobs`.
pub open spec fn has_source_session(
    mobs: Seq<Mob>,
    event: (Seq<char>, u16, Seq<char>, Seq<char>, Seq<char>),
) -> bool {
    exists|i: int, j: int|
        #![trigger mobs[i].schedule@[j]]
        0 <= i < mobs.len() && is_listed(mobs[i].status) && 0 <= j < mobs[i].schedule@.len() && event
            == home_event_view(mobs[i], mobs[i].schedule@[j])
}

/// Every event of the home page's calendar is the event of a session of a
/// listed mob (see `lemma_home_event_of_session` for what that event holds).
pub proof fn lemma_home_events_come_from_listed_mobs(mobs: Seq<Mob>)
    ensures
        forall|k: int|
            #![trigger home_events(mobs)[k]]
            0 <= k < home_events(mobs).len() ==> has_source_session(mobs, home_events(mobs)[k]),
    decreases mobs.len(),
{
    if mobs.len() > 0 {
        let rest = mobs.drop_last();
        let last = mobs.last();
        lemma_home_events_come_from_listed_mobs(rest);
        let prefix = home_events(rest);
        let tail = if is_listed(last.status) {
            mob_home_events(last)
        } else {
            Seq::empty()
        };
        assert(home_events(mobs) == prefix + tail);
        assert forall|k: int|
            #![trigger home_events(mobs)[k]]
            0 <= k < home_events(mobs).len() implies has_source_session(mobs, home_events(mobs)[k]) by {
            if k < prefix.len() {
                assert(home_events(mobs)[k] == prefix[k]);
                assert(has_source_session(rest, prefix[k]));
                let (i, j) = choose|i: int, j: int|
                    #![trigger rest[i].schedule@[j]]
                    0 <= i < rest.len() && is_listed(rest[i].status) && 0 <= j < rest[i].schedule@.len()
                        && prefix[k] == home_event_view(rest[i], rest[i].schedule@[j]);
                assert(rest[i] == mobs[i]);
                assert(mobs[i].schedule@[j] == rest[i].schedule@[j]);
                assert(home_events(mobs)[k] == home_event_view(mobs[i], mobs[i].schedule@[j]));
                assert(0 <= i < mobs.len() && is_listed(mobs[i].status) && 0 <= j < mobs[i].schedule@.len());
            } else {
                let j = k - prefix.len();
                assert(home_events(mobs)[k] == tail[j]);
                let n = mobs.len() - 1;
                assert(mobs[n] == last);
                assert(tail[j] == home_event_view(last, last.schedule@[j]));
                assert(mobs[n].schedule@[j] == last.schedule@[j]);
                assert(is_listed(last.status));
                assert(home_events(mobs)[k] == home_event_view(mobs[n], mobs[n].schedule@[j]));
                assert(0 <= n < mobs.len() && is_listed(mobs[n].status) && 0 <= j < mobs[n].schedule@.len());
            }
        }
    } else {
        assert(home_events(mobs).len() == 0);
    }
}

} // verus!
