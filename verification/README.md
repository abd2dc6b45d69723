# mobus_operandi

The verified core of the Mobus Operandi website and of its development
server, written in Verus.

- `src/dev.rs`: the development loop's state machine. It runs the site
  builder as a child process, kills a stale build when the sources change and
  runs the builder again once the kill is confirmed. Its proof functions show
  that only one builder is alive at a time, that no builder process is lost,
  and that every failure ends the loop as an error.
- `src/status.rs`: a mob's status, its indicator and description as declared
  on the status variants, and the legend ordered by indicator.
- `src/schema.rs`: identifiers, doc comments and the classification of field
  types for the documentation of the mob file format.
- `src/components.rs`, `src/link.rs`, `src/mob.rs`, `src/participant.rs`,
  `src/font.rs`: the HTML and text fragments the pages are made of: the
  status line, the legend, the calendar, the links and participants of a
  mob, the redirect of a renamed mob.
- `src/pages.rs`, `src/expected_files.rs`: the pages themselves, built from
  the mobs: the home page at `/index.html` with the people of all mobs, the
  legend and the events of the listed mobs; each mob's page with the events
  of its sessions, or its redirect; the content of each page, calendar
  included; and the set of files that each page refers to.
- `src/json.rs`: JSON strings and lists, for the calendar's input.
- `src/file_spec.rs`: the files of the site, each a path and a source.
- `src/key_order.rs`: the order in which a map keyed by integers hands out
  its entries, for the legend.
- `src/text.rs`, `src/url.rs`, `src/markdown.rs`: decimal formatting, HTML
  escaping, URL parsing and Markdown rendering.
- `app/`: the command-line development server, which performs the I/O that
  the state machine asks for.
