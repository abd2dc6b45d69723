//! What the site generator writes: files, each a path and the source of its
//! content.

use vstd::prelude::*;

use std::collections::BTreeSet;

use crate::expected_files::ExpectedFiles;

verus! {

/// A file of the site: where it goes and where its content comes from.
///
/// `S` is the source of the content.
pub struct FileSpec<S> {
    source: S,
    path: String,
}

impl<S> FileSpec<S> {
    /// The file's path in the site.
    pub closed spec fn spec_path(&self) -> Seq<char> {
        self.path@
    }

    /// The source of the file's content.
    pub closed spec fn spec_source(&self) -> S {
        self.source
    }

    /// The file at `path` whose content comes from `source`.
    pub fn new(path: String, source: S) -> (spec: Self)
        ensures
            spec.spec_path() == path@,
            spec.spec_source() == source,
    {
        FileSpec { source, path }
    }

    /// The file at `path` whose content comes from `source`.
    pub fn from_str_path(path: &str, source: S) -> (spec: Self)
        ensures
            spec.spec_path() == path@,
            spec.spec_source() == source,
    {
        FileSpec { source, path: String::from_str(path) }
    }

    /// The file's path in the site.
    pub fn path(&self) -> (path: &String)
        ensures
            path@ == self.spec_path(),
    {
        &self.path
    }

    /// The source of the file's content.
    pub fn into_source(self) -> (source: S)
        ensures
            source == self.spec_source(),
    {
        self.source
    }
}

/// The content of a generated file: its bytes, and the files it refers to
/// when it is a page.
pub struct FileContents {
    bytes: Vec<u8>,
    expected_files: Option<ExpectedFiles>,
}

impl FileContents {
    /// The bytes of the file.
    pub closed spec fn spec_bytes(&self) -> Seq<u8> {
        self.bytes@
    }

    /// The paths of the files that the file refers to, when it names them.
    pub closed spec fn spec_expected_files(&self) -> Option<Set<Seq<char>>> {
        match self.expected_files {
            Some(files) => Some(files@),
            None => None,
        }
    }

    /// The content made of `bytes`, referring to `expected_files`.
    pub fn new(bytes: Vec<u8>, expected_files: Option<ExpectedFiles>) -> (c: Self)
        ensures
            c.spec_bytes() == bytes@,
            c.spec_expected_files() == match expected_files {
                Some(files) => Some(files@),
                None => None,
            },
    {
        FileContents { bytes, expected_files }
    }

    /// The bytes of the file.
    pub fn bytes(&self) -> (bytes: &Vec<u8>)
        ensures
            bytes@ == self.spec_bytes(),
    {
        &self.bytes
    }

    /// The files that the file refers to, when it names them.
    pub fn expected_files(&self) -> (files: Option<&ExpectedFiles>)
        ensures
            match files {
                Some(f) => self.spec_expected_files() == Some(f@),
                None => self.spec_expected_files() is None,
            },
    {
        match &self.expected_files {
            Some(files) => Some(files),
            None => None,
        }
    }
}

/// The files that could not be written.
pub struct FailedFiles(BTreeSet<String>);

impl FailedFiles {
    /// The paths of the files.
    pub closed spec fn spec_paths(&self) -> Set<String> {
        self.0@
    }

    /// The files with the given paths.
    pub fn new(failed_files: BTreeSet<String>) -> (f: Self)
        ensures
            f.spec_paths() == failed_files@,
    {
        FailedFiles(failed_files)
    }

    /// The paths of the files.
    pub fn paths(&self) -> (paths: &BTreeSet<String>)
        ensures
            paths@ == self.spec_paths(),
    {
        &self.0
    }
}

/// The graphics of the site: an empty favicon and the logos of Twitter,
/// Zulip, GitHub (the inverted Octocat) and YouTube, with the given content.
pub fn graphic_file_specs(
    twitter_logo: &'static [u8],
    zulip_logo: &'static [u8],
    inverticat_logo: &'static [u8],
    youtube_logo: &'static [u8],
) -> (specs: Vec<FileSpec<&'static [u8]>>)
    ensures
        specs@.len() == 5,
        specs@[0].spec_path() == "/favicon.ico"@,
        specs@[0].spec_source()@.len() == 0,
        specs@[1].spec_path() == "/twitter_logo.svg"@,
        specs@[1].spec_source() == twitter_logo,
        specs@[2].spec_path() == "/zulip_logo.svg"@,
        specs@[2].spec_source() == zulip_logo,
        specs@[3].spec_path() == "/inverticat.svg"@,
        specs@[3].spec_source() == inverticat_logo,
        specs@[4].spec_path() == "/youtube_logo.svg"@,
        specs@[4].spec_source() == youtube_logo,
{
    let favicon: &'static [u8] = &[];
    let mut specs: Vec<FileSpec<&'static [u8]>> = Vec::new();
    specs.push(FileSpec::from_str_path("/favicon.ico", favicon));
    specs.push(FileSpec::from_str_path("/twitter_logo.svg", twitter_logo));
    specs.push(FileSpec::from_str_path("/zulip_logo.svg", zulip_logo));
    specs.push(FileSpec::from_str_path("/inverticat.svg", inverticat_logo));
    specs.push(FileSpec::from_str_path("/youtube_logo.svg", youtube_logo));
    specs
}

/// The calendar libraries that the pages load: FullCalendar, rrule and
/// FullCalendar's rrule plugin, with the given content.
pub fn library_file_specs(
    fullcalendar: &'static [u8],
    rrule: &'static [u8],
    fullcalendar_rrule: &'static [u8],
) -> (specs: Vec<FileSpec<&'static [u8]>>)
    ensures
        specs@.len() == 3,
        specs@[0].spec_path() == "/fullcalendar.js"@,
        specs@[0].spec_source() == fullcalendar,
        specs@[1].spec_path() == "/rrule.js"@,
        specs@[1].spec_source() == rrule,
        specs@[2].spec_path() == "/fullcalendar_rrule.js"@,
        specs@[2].spec_source() == fullcalendar_rrule,
{
    let mut specs: Vec<FileSpec<&'static [u8]>> = Vec::new();
    specs.push(FileSpec::from_str_path("/fullcalendar.js", fullcalendar));
    specs.push(FileSpec::from_str_path("/rrule.js", rrule));
    specs.push(FileSpec::from_str_path("/fullcalendar_rrule.js", fullcalendar_rrule));
    specs
}

} // verus!
