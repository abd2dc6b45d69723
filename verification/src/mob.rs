//! The parts of a mob that the pages are made of: its identifier and title,
//! the path of its page, the description of its page, its calendar events'
//! durations and the shadow of its status indicator.

use vstd::prelude::*;

use crate::markdown::Markdown;
use crate::status::Status;
use crate::text::{
    decimal, join_with, push_decimal, push_zero_padded2, replace_char, replaced_char,
    zero_padded2,
};

verus! {

/// The name of the community.
pub open spec fn site_name() -> Seq<char> {
    "Mobus Operandi"@
}

/// A mob's identifier: the stem of its file's name.
pub struct Id(String);

impl Id {
    /// The identifier's text.
    pub closed spec fn spec_text(&self) -> Seq<char> {
        self.0@
    }

    /// The identifier with the given text.
    pub fn new(id: String) -> (i: Self)
        ensures
            i.spec_text() == id@,
    {
        Id(id)
    }

    /// The identifier's text.
    pub fn as_str(&self) -> (s: &str)
        ensures
            s@ == self.spec_text(),
    {
        self.0.as_str()
    }
}

/// A mob's title.
pub struct Title(String);

impl Title {
    /// The title's text.
    pub closed spec fn spec_text(&self) -> Seq<char> {
        self.0@
    }

    /// The title with the given text.
    pub fn new(title: String) -> (t: Self)
        ensures
            t.spec_text() == title@,
    {
        Title(title)
    }

    /// The title's text.
    pub fn as_str(&self) -> (s: &str)
        ensures
            s@ == self.spec_text(),
    {
        self.0.as_str()
    }

    /// The title's HTML: the text as it is, without escaping.
    pub fn render(&self) -> (html: String)
        ensures
            html@ == self.spec_text(),
    {
        self.0.clone()
    }
}

/// The path of a mob's page: `/mobs/ID.html`.
pub open spec fn mob_page_path_spec(id: Seq<char>) -> Seq<char> {
    "/mobs/"@ + id + ".html"@
}

/// The path of the page of the mob with the given identifier; a renamed
/// mob's page redirects to this path of its new identifier.
pub fn mob_page_path(id: &str) -> (path: String)
    ensures
        path@ == mob_page_path_spec(id@),
{
    let mut path = String::from_str("/mobs/");
    path.append(id);
    path.append(".html");
    path
}

/// The description of a mob's page: its title, its subtitle after a comma
/// when it has one, and where the page is.
pub open spec fn mob_page_description_spec(title: Seq<char>, subtitle: Option<Seq<char>>) -> Seq<char> {
    title + match subtitle {
        Some(s) => ", "@ + s,
        None => Seq::empty(),
    } + "; description, schedule and more on "@ + site_name()
}

/// The description of a mob's page.
pub fn mob_page_description(title: &Title, subtitle: Option<&str>) -> (d: String)
    ensures
        d@ == mob_page_description_spec(title.spec_text(), match subtitle {
            Some(s) => Some(s@),
            None => None,
        }),
{
    let mut d = String::from_str(title.as_str());
    match subtitle {
        Some(s) => {
            d.append(", ");
            d.append(s);
        },
        None => {},
    }
    d.append("; description, schedule and more on ");
    d.append("Mobus Operandi");
    d
}

impl Status {
    /// What a visitor needs to join the mob, as the status tells it: how to
    /// apply for a short or open mob, the optional note of a full mob, how
    /// to join a public mob, why a terminated mob ended; a renamed mob has
    /// none.
    pub fn join_content(&self) -> (content: Option<&Markdown>)
        ensures
            content == match *self {
                Status::Short(m) => Some(&m),
                Status::Open(m) => Some(&m),
                Status::Full(m) => match m {
                    Some(m) => Some(&m),
                    None => None,
                },
                Status::Public(m) => Some(&m),
                Status::Renamed(_) => None,
                Status::Terminated(m) => Some(&m),
            },
    {
        match self {
            Status::Short(join_content) | Status::Open(join_content) => Some(join_content),
            Status::Full(join_content) => match join_content {
                Some(m) => Some(m),
                None => None,
            },
            Status::Public(join_content) => Some(join_content),
            Status::Renamed(_) => None,
            Status::Terminated(join_content) => Some(join_content),
        }
    }
}

impl Status {
    /// Whether a mob with this status is on the home page's calendar: a
    /// terminated or renamed mob is not.
    pub fn is_listed(&self) -> (listed: bool)
        ensures
            listed == !(*self is Terminated || *self is Renamed),
    {
        match self {
            Status::Terminated(_) | Status::Renamed(_) => false,
            _ => true,
        }
    }

    /// Where the page of a renamed mob sends its visitors: the page of the
    /// new identifier; `None` for any other status, whose mob keeps a page
    /// of its own.
    pub fn redirect_target(&self) -> (target: Option<String>)
        ensures
            target matches Some(t) ==> *self matches Status::Renamed(id) && t@ == mob_page_path_spec(
                id.spec_text(),
            ),
            target is None <==> !(*self is Renamed),
    {
        match self {
            Status::Renamed(id) => Some(mob_page_path(id.as_str())),
            _ => None,
        }
    }
}

/// A session's length in minutes, as a mob's file gives it.
pub struct Minutes(u16);

impl Minutes {
    /// The number of minutes.
    pub closed spec fn spec_minutes(&self) -> u16 {
        self.0
    }

    /// The given number of minutes.
    pub fn new(minutes: u16) -> (m: Self)
        ensures
            m.spec_minutes() == minutes,
    {
        Minutes(minutes)
    }

    /// The number of minutes.
    pub fn get(&self) -> (minutes: u16)
        ensures
            minutes == self.spec_minutes(),
    {
        self.0
    }

    /// The calendar's text for this duration: its whole hours and the
    /// minutes left over, `HH:MM`.
    pub fn duration_text(&self) -> (s: String)
        ensures
            s@ == duration_text_spec(self.spec_minutes() as int / 60, self.spec_minutes() as int),
    {
        let in_minutes = self.0 as i64;
        let in_whole_hours = in_minutes / 60;
        duration_text(in_whole_hours, in_minutes)
    }
}

/// How the calendar is told an event's duration: `HH:MM`, the whole hours
/// and the minutes left over, each at least two digits wide.
pub open spec fn duration_text_spec(in_whole_hours: int, in_minutes: int) -> Seq<char> {
    zero_padded2(in_whole_hours) + ":"@ + zero_padded2(in_minutes - in_whole_hours * 60)
}

/// The calendar's text for a duration of `in_minutes` whole minutes, of
/// which `in_whole_hours` are whole hours.
pub fn duration_text(in_whole_hours: i64, in_minutes: i64) -> (s: String)
    requires
        i64::MIN <= in_whole_hours * 60 <= i64::MAX,
        i64::MIN <= in_minutes - in_whole_hours * 60 <= i64::MAX,
    ensures
        s@ == duration_text_spec(in_whole_hours as int, in_minutes as int),
{
    let hour_remainder_in_minutes = in_minutes - in_whole_hours * 60;
    let mut s = String::new();
    push_zero_padded2(&mut s, in_whole_hours);
    s.append(":");
    push_zero_padded2(&mut s, hour_remainder_in_minutes);
    s
}

/// One shadow of the status indicator: offsets in pixels, a blur of three
/// pixels, black.
pub open spec fn shadow_spec(x: int, y: int) -> Seq<char> {
    decimal(x) + "px "@ + decimal(y) + "px 3px black"@
}

/// The shadows of the status indicator: one per pair of offsets from
/// `[-1, 1]`, in the order of their cartesian product.
pub open spec fn shadows_spec() -> Seq<Seq<char>> {
    seq![shadow_spec(-1, -1), shadow_spec(-1, 1), shadow_spec(1, -1), shadow_spec(1, 1)]
}

/// The class that outlines the status indicator: `[text-shadow: ...]` with
/// the shadows joined by `, `, and every space turned into `_`.
pub open spec fn indicator_text_shadow_class_spec() -> Seq<char> {
    replace_char("[text-shadow: "@ + join_with(shadows_spec(), ", "@) + "]"@, ' ', '_')
}

/// The class that outlines the status indicator of a mob in the calendar.
pub fn indicator_text_shadow_class() -> (class: String)
    ensures
        class@ == indicator_text_shadow_class_spec(),
{
    let offsets: [i64; 2] = [-1, 1];
    let mut value = String::from_str("[text-shadow: ");
    let ghost start = value@;
    let mut count: usize = 0;
    let mut i: usize = 0;
    while i < 2
        invariant
            offsets@ == seq![-1i64, 1i64],
            i <= 2,
            count == 2 * i,
            value@ == start + join_with(shadows_spec().take(count as int), ", "@),
        decreases 2 - i,
    {
        let mut j: usize = 0;
        while j < 2
            invariant
                offsets@ == seq![-1i64, 1i64],
                i < 2,
                j <= 2,
                count == 2 * i + j,
                value@ == start + join_with(shadows_spec().take(count as int), ", "@),
            decreases 2 - j,
        {
            let x = offsets[i];
            let y = offsets[j];
            let ghost before = value@;
            if count > 0 {
                value.append(", ");
            }
            push_decimal(&mut value, x);
            value.append("px ");
            push_decimal(&mut value, y);
            value.append("px 3px black");
            proof {
                let parts = shadows_spec().take(count + 1);
                assert(parts.drop_last() =~= shadows_spec().take(count as int));
                assert(parts.last() == shadow_spec(x as int, y as int));
                if count == 0 {
                    assert(parts =~= seq![shadow_spec(x as int, y as int)]);
                }
            }
            count = count + 1;
            j = j + 1;
        }
        i = i + 1;
    }
    assert(shadows_spec().take(4) =~= shadows_spec());
    value.append("]");
    replaced_char(value.as_str(), ' ', '_')
}

/// A recurring session of a mob: its recurrence rule, as the JSON that the
/// rule's serializer writes; the time of day at which it starts, in minutes
/// after midnight, UTC; and its length.
pub struct Session {
    recurrence: String,
    start: u16,
    duration: Minutes,
}

impl Session {
    /// A session starts within its day.
    #[verifier::type_invariant]
    closed spec fn starts_within_day(self) -> bool {
        self.start < 1440
    }

    /// The recurrence rule, as JSON.
    pub closed spec fn spec_recurrence(&self) -> Seq<char> {
        self.recurrence@
    }

    /// The time of day at which the session starts, in minutes after
    /// midnight, UTC.
    pub closed spec fn spec_start(&self) -> u16 {
        self.start
    }

    /// The session's length in minutes.
    pub closed spec fn spec_duration(&self) -> u16 {
        self.duration.spec_minutes()
    }

    /// The session with the given recurrence rule, start and length.
    pub fn new(recurrence: String, start: u16, duration: Minutes) -> (s: Self)
        requires
            start < 1440,
        ensures
            s.spec_recurrence() == recurrence@,
            s.spec_start() == start,
            s.spec_duration() == duration.spec_minutes(),
    {
        Session { recurrence, start, duration }
    }

    /// The recurrence rule, as JSON.
    pub fn recurrence(&self) -> (r: &str)
        ensures
            r@ == self.spec_recurrence(),
    {
        self.recurrence.as_str()
    }

    /// The time of day at which the session starts.
    pub fn start(&self) -> (start: u16)
        ensures
            start == self.spec_start(),
            start < 1440,
    {
        proof {
            use_type_invariant(self);
        }
        self.start
    }

    /// The session's length in minutes.
    pub fn duration(&self) -> (minutes: u16)
        ensures
            minutes == self.spec_duration(),
    {
        self.duration.get()
    }
}

/// A mob: its identifier, title and optional subtitle, its participants,
/// its recurring sessions, the free-form copy of its page, the colors of
/// its events (JSON values, as the colors' serializer writes them), its
/// links and its status.
pub struct Mob {
    pub id: Id,
    pub title: Title,
    pub subtitle: Option<String>,
    pub participants: Vec<crate::participant::Participant>,
    pub schedule: Vec<Session>,
    pub freeform_copy: Markdown,
    pub background_color: String,
    pub text_color: String,
    pub links: Vec<crate::link::Link>,
    pub status: Status,
}

} // verus!
