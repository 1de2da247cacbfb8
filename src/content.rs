//! Reviewable subjects (websites and the organizations behind them) and the
//! comments attached to them.
use vstd::prelude::*;
use crate::clock::{new_id, now_timestamp};
use crate::session::{opt_view, User};

verus! {

/// The legal form of an organization.
#[derive(Debug, Clone, Copy, PartialEq, Eq, Structural)]
pub enum LegalForm {
    /// Limited liability company.
    Sro,
    /// Joint stock company.
    As,
    /// General partnership.
    Vos,
    /// Registered association.
    Spolek,
    /// Foundation.
    Nadace,
    /// Cooperative.
    Druzstvo,
}

impl LegalForm {
    /// The form's full name.
    pub fn name(&self) -> (r: &'static str)
        ensures
            *self == LegalForm::Sro ==> r@ == "Společnost s ručením omezením"@,
            *self == LegalForm::As ==> r@ == "Akciová společnost"@,
            *self == LegalForm::Vos ==> r@ == "Veřejná obchodní společnost"@,
            *self == LegalForm::Spolek ==> r@ == "Zapsaný spolek"@,
            *self == LegalForm::Nadace ==> r@ == "Nadace"@,
            *self == LegalForm::Druzstvo ==> r@ == "Družstvo"@,
    {
        match self {
            LegalForm::Sro => "Společnost s ručením omezením",
            LegalForm::As => "Akciová společnost",
            LegalForm::Vos => "Veřejná obchodní společnost",
            LegalForm::Spolek => "Zapsaný spolek",
            LegalForm::Nadace => "Nadace",
            LegalForm::Druzstvo => "Družstvo",
        }
    }
}

/// The reputation counters of a subject.
#[derive(Debug, Clone, Copy, PartialEq, Eq, Structural)]
pub struct Karma {
    pub amount: i16,
    pub reviews: i16,
    pub age: i16,
    pub popularity: i16,
}

impl Karma {
    /// All counters at zero.
    pub fn new() -> (r: Karma)
        ensures
            r == (Karma { amount: 0, reviews: 0, age: 0, popularity: 0 }),
    {
        Karma { amount: 0, reviews: 0, age: 0, popularity: 0 }
    }
}

/// An organization that runs reviewable subjects.
#[derive(Debug, Clone)]
pub struct Organization {
    pub id: String,
    pub name: String,
    pub form: LegalForm,
    pub user: Option<User>,
    /// Seconds since the Unix epoch.
    pub created_at: i64,
    /// Seconds since the Unix epoch.
    pub updated_at: i64,
}

impl Organization {
    /// A new organization with a fresh identifier, created and updated now.
    pub fn new(name: String, form: LegalForm, user: Option<User>) -> (r: Organization)
        ensures
            r.id@.len() == 26,
            r.name@ == name@,
            r.form == form,
            r.user == user,
            0 <= r.created_at,
            r.updated_at == r.created_at,
    {
        let now = now_timestamp();
        Organization { id: new_id(), name, form, user, created_at: now, updated_at: now }
    }
}

/// Something that comments can be attached to.
pub trait Commentable {
    fn id(&self) -> &String;
}

/// A commentable subject that has a table of comments.
pub trait CommentParent: Commentable {
}

/// A reviewed website.
#[derive(Debug, Clone)]
pub struct Website {
    pub id: String,
    pub karma: Karma,
    pub organization: Option<Organization>,
    pub name: String,
    pub domain_name: String,
    pub description: Option<String>,
}

impl Website {
    /// A new website with a fresh identifier and zero karma.
    pub fn new(name: String, domain_name: String, description: Option<String>, organization: Option<Organization>) -> (r: Website)
        ensures
            r.id@.len() == 26,
            r.karma == (Karma { amount: 0, reviews: 0, age: 0, popularity: 0 }),
            r.organization == organization,
            r.name@ == name@,
            r.domain_name@ == domain_name@,
            opt_view(r.description) == opt_view(description),
    {
        Website { id: new_id(), karma: Karma::new(), organization, name, domain_name, description }
    }

    /// The same website, run by `organization`.
    pub fn with_organization(self, organization: Organization) -> (r: Website)
        ensures
            r.organization == Some(organization),
            r.id == self.id,
            r.karma == self.karma,
            r.name == self.name,
            r.domain_name == self.domain_name,
            r.description == self.description,
    {
        Website { organization: Some(organization), ..self }
    }
}

impl Commentable for Website {
    fn id(&self) -> &String {
        &self.id
    }
}

impl CommentParent for Website {
}

/// The kinds of subject that carry comments, each with a fixed table.
#[derive(Debug, Clone, Copy, PartialEq, Eq, Structural)]
pub enum CommentParentKind {
    Website,
    User,
}

impl CommentParentKind {
    /// The kind named `name` ("website" or "user").
    pub fn parse(name: &str) -> (r: Option<CommentParentKind>)
        ensures
            name@ == "website"@ <==> r == Some(CommentParentKind::Website),
            name@ == "user"@ <==> r == Some(CommentParentKind::User),
    {
        proof {
            reveal_strlit("website");
            reveal_strlit("user");
            assert("website"@.len() != "user"@.len());
        }
        let n = String::from_str(name);
        let website = String::from_str("website");
        let user = String::from_str("user");
        if n.eq(&website) {
            Some(CommentParentKind::Website)
        } else if n.eq(&user) {
            Some(CommentParentKind::User)
        } else {
            None
        }
    }

    /// The kind's name, as [`CommentParentKind::parse`] reads it.
    pub fn name(&self) -> (r: &'static str)
        ensures
            *self == CommentParentKind::Website ==> r@ == "website"@,
            *self == CommentParentKind::User ==> r@ == "user"@,
    {
        match self {
            CommentParentKind::Website => "website",
            CommentParentKind::User => "user",
        }
    }

    /// The schema-qualified table that holds comments on this kind.
    pub fn table(&self) -> (r: &'static str)
        ensures
            *self == CommentParentKind::Website ==> r@ == "comment.website"@,
            *self == CommentParentKind::User ==> r@ == "comment.user"@,
    {
        match self {
            CommentParentKind::Website => "comment.website",
            CommentParentKind::User => "comment.user",
        }
    }
}

/// The most comments or subjects one page lists.
pub const MAX_PAGE_SIZE: i64 = 20;

/// A requested page size, capped at [`MAX_PAGE_SIZE`].
pub fn page_limit(limit: i64) -> (r: i64)
    ensures
        r == if limit < MAX_PAGE_SIZE { limit } else { MAX_PAGE_SIZE },
{
    if limit < MAX_PAGE_SIZE { limit } else { MAX_PAGE_SIZE }
}

/// A comment by a user on a subject.
#[derive(Debug, Clone)]
pub struct Comment {
    pub id: String,
    pub parent_type: CommentParentKind,
    pub parent_id: String,
    pub user: User,
    pub text: String,
    /// Seconds since the Unix epoch.
    pub created_at: i64,
    /// Seconds since the Unix epoch.
    pub updated_at: i64,
}

impl Comment {
    /// A new comment with a fresh identifier, created and updated now.
    pub fn new(parent_type: CommentParentKind, parent_id: String, text: String, user: User) -> (r: Comment)
        ensures
            r.id@.len() == 26,
            r.parent_type == parent_type,
            r.parent_id@ == parent_id@,
            r.text@ == text@,
            r.user@ == user@,
            0 <= r.created_at,
            r.updated_at == r.created_at,
    {
        let now = now_timestamp();
        Comment { id: new_id(), parent_type, parent_id, user, text, created_at: now, updated_at: now }
    }
}

} // verus!
