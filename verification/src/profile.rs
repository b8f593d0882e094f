//! Configuration profiles and the merge of a profile with the one it
//! inherits from.

use vstd::prelude::*;

verus! {

/// Configuration settings of one email campaign.
///
/// Every field is optional, because a value may arrive through inheritance.
/// `doc` marks a profile as callable and is what a listing shows; `inherit`
/// names the profile to inherit from.
#[derive(Clone, Debug, PartialEq, Eq)]
pub struct Profile {
    pub date_spec: Option<String>,
    pub event_file: Option<String>,
    pub format: Option<String>,
    pub server: Option<String>,
    pub port: Option<u16>,
    pub user: Option<String>,
    pub password: Option<String>,
    pub from: Option<String>,
    pub to: Option<Vec<String>>,
    pub subject: Option<String>,
    pub body: Option<String>,
    pub doc: Option<String>,
    pub inherit: Option<String>,
}

/// The mathematical value of a [`Profile`]: every text as a sequence of
/// characters.
pub ghost struct ProfileView {
    pub date_spec: Option<Seq<char>>,
    pub event_file: Option<Seq<char>>,
    pub format: Option<Seq<char>>,
    pub server: Option<Seq<char>>,
    pub port: Option<u16>,
    pub user: Option<Seq<char>>,
    pub password: Option<Seq<char>>,
    pub from: Option<Seq<char>>,
    pub to: Option<Seq<Seq<char>>>,
    pub subject: Option<Seq<char>>,
    pub body: Option<Seq<char>>,
    pub doc: Option<Seq<char>>,
    pub inherit: Option<Seq<char>>,
}

impl View for Profile {
    type V = ProfileView;

    open spec fn view(&self) -> ProfileView {
        ProfileView {
            date_spec: self.date_spec.deep_view(),
            event_file: self.event_file.deep_view(),
            format: self.format.deep_view(),
            server: self.server.deep_view(),
            port: self.port,
            user: self.user.deep_view(),
            password: self.password.deep_view(),
            from: self.from.deep_view(),
            to: self.to.deep_view(),
            subject: self.subject.deep_view(),
            body: self.body.deep_view(),
            doc: self.doc.deep_view(),
            inherit: self.inherit.deep_view(),
        }
    }
}

/// The first of two optional values that is set.
pub open spec fn first_set<T>(own: Option<T>, inherited: Option<T>) -> Option<T> {
    if own is Some {
        own
    } else {
        inherited
    }
}

/// The merge of `child` with the profile `parent` that it inherits from.
///
/// A field that the child has set keeps the child's value, an unset one takes
/// the parent's. Two fields are not merged: `doc` is cleared, and `inherit`
/// is the parent's, so that the next ancestor can be found.
pub open spec fn merged(child: ProfileView, parent: ProfileView) -> ProfileView {
    ProfileView {
        date_spec: first_set(child.date_spec, parent.date_spec),
        event_file: first_set(child.event_file, parent.event_file),
        format: first_set(child.format, parent.format),
        server: first_set(child.server, parent.server),
        port: first_set(child.port, parent.port),
        user: first_set(child.user, parent.user),
        password: first_set(child.password, parent.password),
        from: first_set(child.from, parent.from),
        to: first_set(child.to, parent.to),
        subject: first_set(child.subject, parent.subject),
        body: first_set(child.body, parent.body),
        doc: None,
        inherit: parent.inherit,
    }
}

impl Default for Profile {
    fn default() -> (r: Profile)
        ensures
            r@ == Profile::empty(),
    {
        Profile::new()
    }
}

fn or_else<T: DeepView>(own: Option<T>, inherited: Option<T>) -> (r: Option<T>)
    ensures
        r == first_set(own, inherited),
        r.deep_view() == first_set(own.deep_view(), inherited.deep_view()),
{
    match own {
        Some(value) => Some(value),
        None => inherited,
    }
}

impl Profile {
    /// A profile with no field set.
    pub fn new() -> (r: Profile)
        ensures
            r@ == Profile::empty(),
    {
        Profile {
            date_spec: None,
            event_file: None,
            format: None,
            server: None,
            port: None,
            user: None,
            password: None,
            from: None,
            to: None,
            subject: None,
            body: None,
            doc: None,
            inherit: None,
        }
    }

    /// The value of a profile with no field set.
    pub open spec fn empty() -> ProfileView {
        ProfileView {
            date_spec: None,
            event_file: None,
            format: None,
            server: None,
            port: None,
            user: None,
            password: None,
            from: None,
            to: None,
            subject: None,
            body: None,
            doc: None,
            inherit: None,
        }
    }

    /// Inherits from `input` every value that `self` has not set.
    ///
    /// No field that is set is overwritten, with two exceptions: `inherit`
    /// becomes that of `input`, and `doc` is cleared.
    pub fn inherit_from(self, input: Profile) -> (r: Profile)
        ensures
            r@ == merged(self@, input@),
    {
        Profile {
            date_spec: or_else(self.date_spec, input.date_spec),
            event_file: or_else(self.event_file, input.event_file),
            format: or_else(self.format, input.format),
            server: or_else(self.server, input.server),
            port: or_else(self.port, input.port),
            user: or_else(self.user, input.user),
            password: or_else(self.password, input.password),
            from: or_else(self.from, input.from),
            to: or_else(self.to, input.to),
            subject: or_else(self.subject, input.subject),
            body: or_else(self.body, input.body),
            doc: None,
            inherit: input.inherit,
        }
    }
}

/// Inheritance overwrites nothing: whatever the parent holds, each field that
/// the child has set is the child's in the merged profile. The two fields
/// that are not merged stand apart: `doc` is cleared and `inherit` is the
/// parent's.
pub proof fn lemma_merged_keeps_child_fields(child: ProfileView, parent: ProfileView)
    ensures
        child.date_spec is Some ==> merged(child, parent).date_spec == child.date_spec,
        child.event_file is Some ==> merged(child, parent).event_file == child.event_file,
        child.format is Some ==> merged(child, parent).format == child.format,
        child.server is Some ==> merged(child, parent).server == child.server,
        child.port is Some ==> merged(child, parent).port == child.port,
        child.user is Some ==> merged(child, parent).user == child.user,
        child.password is Some ==> merged(child, parent).password == child.password,
        child.from is Some ==> merged(child, parent).from == child.from,
        child.to is Some ==> merged(child, parent).to == child.to,
        child.subject is Some ==> merged(child, parent).subject == child.subject,
        child.body is Some ==> merged(child, parent).body == child.body,
        merged(child, parent).doc is None,
        merged(child, parent).inherit == parent.inherit,
{
}

} // verus!
