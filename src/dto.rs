use vstd::prelude::*;
use crate::contributor::Id as ContributorId;

verus! {

/// The value of a UUID written as text, if the text is one, in any of the
/// forms the `uuid` crate reads (hyphenated, simple, URN, braced).
pub uninterp spec fn parsed_uuid(text: Seq<char>) -> Option<u128>;

/// Relies on `uuid::Uuid::parse_str`: reads a UUID from text, or fails; the
/// result depends on the text alone. The value is the UUID's 128 bits.
#[verifier::external_body]
fn parse_uuid(text: &str) -> (r: Option<u128>)
    ensures
        r == parsed_uuid(text@),
{
    match uuid::Uuid::parse_str(text) {
        Ok(u) => Some(u.as_u128()),
        Err(_) => None,
    }
}

/// A path parameter that is not a UUID.
#[derive(Clone, Copy, Debug, PartialEq, Eq)]
pub struct InvalidUuid;

/// A UUID given as a path parameter, held as its 128-bit value.
#[derive(Clone, Copy, Debug, PartialEq, Eq)]
pub struct UuidParam {
    pub value: u128,
}

impl UuidParam {
    /// Reads the parameter; fails exactly when it is not a UUID.
    pub fn from_param(param: &str) -> (r: Result<UuidParam, InvalidUuid>)
        ensures
            r is Ok <==> parsed_uuid(param@) is Some,
            r matches Ok(p) ==> parsed_uuid(param@) == Some(p.value),
    {
        match parse_uuid(param) {
            Some(value) => Ok(UuidParam { value }),
            None => Err(InvalidUuid),
        }
    }
}

/// Body of a request to apply to a contribution.
#[derive(Clone, Copy, Debug, PartialEq, Eq)]
pub struct ApplyDto {
    pub contributor_id: ContributorId,
}

/// A contribution as the listing endpoints return it.
#[derive(Clone, Debug, PartialEq, Eq, Default)]
pub struct Contribution {
    pub id: String,
    pub title: Option<String>,
    pub description: Option<String>,
    pub status: String,
    pub gate: u8,
}

/// A project and its contributions, as the listing endpoints return it.
#[derive(Clone, Debug, PartialEq, Eq, Default)]
pub struct Project {
    pub id: String,
    pub title: String,
    pub description: Option<String>,
    pub github_link: String,
    pub contributions: Vec<Contribution>,
}

/// The first project with this title.
pub fn find_project_by_title<'a>(projects: &'a [Project], title: &str) -> (r: Option<&'a Project>)
    ensures
        r matches Some(p) ==> exists|i: int|
            0 <= i < projects@.len() && projects@[i] == *p && p.title@ == title@ && forall|j: int|
                0 <= j < i ==> (#[trigger] projects@[j]).title@ != title@,
        r is None ==> forall|j: int| 0 <= j < projects@.len() ==> (#[trigger] projects@[j]).title@ != title@,
{
    let wanted = String::from_str(title);
    let mut i: usize = 0;
    while i < projects.len()
        invariant
            0 <= i <= projects@.len(),
            wanted@ == title@,
            forall|j: int| 0 <= j < i ==> (#[trigger] projects@[j]).title@ != title@,
        decreases projects@.len() - i,
    {
        if projects[i].title == wanted {
            return Some(&projects[i]);
        }
        i = i + 1;
    }
    None
}

/// The character of a decimal digit.
pub open spec fn digit_char(d: nat) -> char {
    ((d + 48) as u8) as char
}

/// The decimal digits of `n`, without leading zeros.
pub open spec fn decimal_digits(n: nat) -> Seq<char>
    decreases n,
{
    if n < 10 {
        seq![digit_char(n)]
    } else {
        decimal_digits(n / 10).push(digit_char(n % 10))
    }
}

/// `v` written in decimal, with a minus sign when negative.
pub open spec fn decimal_text(v: int) -> Seq<char> {
    if v < 0 {
        seq!['-'] + decimal_digits((-v) as nat)
    } else {
        decimal_digits(v as nat)
    }
}

/// Relies on `i64::to_string` (through `Display`): the decimal form of the
/// value, with a minus sign when negative.
#[verifier::external_body]
fn decimal(v: i64) -> (r: String)
    ensures
        r@ == decimal_text(v as int),
{
    v.to_string()
}

/// The first contribution of the project whose id is `contribution_id`
/// written in decimal.
pub fn find_contribution_by_id(project: &Project, contribution_id: i64) -> (r: Option<&Contribution>)
    ensures
        r matches Some(c) ==> exists|i: int|
            0 <= i < project.contributions@.len() && project.contributions@[i] == *c && c.id@
                == decimal_text(contribution_id as int) && forall|j: int|
                0 <= j < i ==> (#[trigger] project.contributions@[j]).id@ != decimal_text(
                    contribution_id as int,
                ),
        r is None ==> forall|j: int|
            0 <= j < project.contributions@.len() ==> (#[trigger] project.contributions@[j]).id@
                != decimal_text(contribution_id as int),
{
    let wanted = decimal(contribution_id);
    let mut i: usize = 0;
    while i < project.contributions.len()
        invariant
            0 <= i <= project.contributions@.len(),
            wanted@ == decimal_text(contribution_id as int),
            forall|j: int|
                0 <= j < i ==> (#[trigger] project.contributions@[j]).id@ != decimal_text(
                    contribution_id as int,
                ),
        decreases project.contributions@.len() - i,
    {
        if project.contributions[i].id == wanted {
            return Some(&project.contributions[i]);
        }
        i = i + 1;
    }
    None
}

} // verus!
