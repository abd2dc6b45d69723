//! The people who take part in a mob.

use vstd::prelude::*;

verus! {

/// A person who takes part in a mob and is shown publicly.
pub struct Person {
    name: String,
    social_url: String,
    avatar_url: Option<String>,
}

impl Person {
    /// The person's name.
    pub closed spec fn spec_name(&self) -> Seq<char> {
        self.name@
    }

    /// The address of the person's social profile, as text.
    pub closed spec fn spec_social_url(&self) -> Seq<char> {
        self.social_url@
    }

    /// The address of the person's avatar, as text, when there is one.
    pub closed spec fn spec_avatar_url(&self) -> Option<Seq<char>> {
        match self.avatar_url {
            Some(url) => Some(url@),
            None => None,
        }
    }

    /// The person named `name`, with a social profile at `social_url` and,
    /// when given, an avatar at `avatar_url`.
    pub fn new(name: String, social_url: String, avatar_url: Option<String>) -> (p: Self)
        ensures
            p.spec_name() == name@,
            p.spec_social_url() == social_url@,
            p.spec_avatar_url() == match avatar_url {
                Some(url) => Some(url@),
                None => None,
            },
    {
        Person { name, social_url, avatar_url }
    }

    /// The person's name.
    pub fn name(&self) -> (name: &str)
        ensures
            name@ == self.spec_name(),
    {
        self.name.as_str()
    }

    /// The address of the person's social profile.
    pub fn social_url(&self) -> (url: &str)
        ensures
            url@ == self.spec_social_url(),
    {
        self.social_url.as_str()
    }

    /// The address of the person's avatar, when there is one.
    pub fn avatar_url(&self) -> (url: Option<&str>)
        ensures
            match url {
                Some(u) => self.spec_avatar_url() == Some(u@),
                None => self.spec_avatar_url() is None,
            },
    {
        match &self.avatar_url {
            Some(url) => Some(url.as_str()),
            None => None,
        }
    }
}

/// A participant of a mob: a person shown publicly, or one who stays
/// anonymous.
pub enum Participant {
    Hidden,
    Public(Person),
}

} // verus!
