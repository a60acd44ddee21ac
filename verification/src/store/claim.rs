//! Giving conversations to the users that they belong to.
//!
//! Conversations were once owned by invitation codes. A code that has become a
//! user hands its conversations over. Whose the others are cannot be known; they
//! go to somebody only where that was said.

use vstd::prelude::*;
use crate::text;
use crate::text::same;

verus! {

/// What is known of the codes: the user that each has become, empty where it has
/// become none, and the code that each conversation was owned by.
#[derive(Debug)]
pub struct AccessFile {
    pub users: Vec<(String, String)>,
    pub owner: Vec<(String, String)>,
}

/// What came of it: how many conversations were given to users, those that belong
/// to nobody known, how many had a user before, and those whose code has not
/// become a user.
#[derive(Debug)]
pub struct ClaimReport {
    pub claimed: usize,
    pub unowned: Vec<String>,
    pub already: usize,
    pub missing_user: Vec<String>,
}

/// A conversation and the user that it is given to.
#[derive(Debug)]
pub struct Claim {
    pub session: String,
    pub user: String,
}

/// What stands beside a key, from the `k`-th pair on.
pub open spec fn found_from(v: Seq<(String, String)>, key: Seq<char>, k: int) -> Option<Seq<char>>
    decreases v.len() - k,
{
    if k < 0 || k >= v.len() {
        None
    } else if v[k].0@ == key {
        Some(v[k].1@)
    } else {
        found_from(v, key, k + 1)
    }
}

fn find<'a>(v: &'a Vec<(String, String)>, key: &str) -> (r: Option<&'a str>)
    ensures
        match r {
            Some(s) => found_from(v@, key@, 0) == Some(s@),
            None => found_from(v@, key@, 0) is None,
        },
{
    let mut k: usize = 0;
    while k < v.len()
        invariant
            k <= v@.len(),
            found_from(v@, key@, 0) == found_from(v@, key@, k as int),
        decreases v@.len() - k,
    {
        if same(v[k].0.as_str(), key) {
            return Some(v[k].1.as_str());
        }
        k = k + 1;
    }
    None
}

/// What becomes of a conversation.
#[derive(Debug)]
pub enum Fate {
    /// It has a user, and keeps it.
    Owned,
    /// It is given to a user.
    Given(String),
    /// Its code has not become a user.
    NoUser,
    /// It belongs to nobody known.
    Nobody,
}

/// What becomes of a conversation.
pub enum FateView {
    Owned,
    Given(Seq<char>),
    NoUser,
    Nobody,
}

impl Fate {
    pub open spec fn view(&self) -> FateView {
        match self {
            Fate::Owned => FateView::Owned,
            Fate::Given(u) => FateView::Given(u@),
            Fate::NoUser => FateView::NoUser,
            Fate::Nobody => FateView::Nobody,
        }
    }
}

/// The user that a code has become.
pub open spec fn user_of(access: AccessFile, code: Seq<char>) -> Option<Seq<char>> {
    match found_from(access.users@, code, 0) {
        Some(u) => if u.len() == 0 {
            None
        } else {
            Some(u)
        },
        None => None,
    }
}

/// What becomes of a conversation that has, or has not, a user. `unowned` is whom
/// those without a code are given to.
pub open spec fn fate(
    access: AccessFile,
    unowned: Option<Seq<char>>,
    session: Seq<char>,
    user: Option<Seq<char>>,
) -> FateView {
    match user {
        Some(_) => FateView::Owned,
        None => match found_from(access.owner@, session, 0) {
            Some(code) => match user_of(access, code) {
                Some(u) => FateView::Given(u),
                None => FateView::NoUser,
            },
            None => match unowned {
                Some(u) => FateView::Given(u),
                None => FateView::Nobody,
            },
        },
    }
}

/// What becomes of a conversation.
pub fn fate_of(access: &AccessFile, unowned: Option<&str>, session: &str, user: &Option<String>) -> (r:
    Fate)
    ensures
        r@ == fate(
            *access,
            match unowned {
                Some(u) => Some(u@),
                None => None,
            },
            session@,
            text::opt(*user),
        ),
{
    if user.is_some() {
        return Fate::Owned;
    }
    match find(&access.owner, session) {
        Some(code) => match find(&access.users, code) {
            Some(u) => if u.is_empty() {
                Fate::NoUser
            } else {
                Fate::Given(u.to_owned())
            },
            None => Fate::NoUser,
        },
        None => match unowned {
            Some(u) => Fate::Given(u.to_owned()),
            None => Fate::Nobody,
        },
    }
}

/// What becomes of the conversations, and what has to be stored.
#[derive(Debug)]
pub struct Claims {
    pub report: ClaimReport,
    pub claims: Vec<Claim>,
}

/// A conversation with its user, where it has one.
pub open spec fn row_fate(
    access: AccessFile,
    unowned: Option<Seq<char>>,
    row: (String, Option<String>),
) -> FateView {
    fate(access, unowned, row.0@, text::opt(row.1))
}

/// The conversations among the first `n` that come to a fate, in their order.
pub open spec fn sessions_with(
    access: AccessFile,
    unowned: Option<Seq<char>>,
    rows: Seq<(String, Option<String>)>,
    f: FateView,
    n: int,
) -> Seq<Seq<char>>
    decreases n,
{
    if n <= 0 || n > rows.len() {
        seq![]
    } else if row_fate(access, unowned, rows[n - 1]) == f {
        sessions_with(access, unowned, rows, f, n - 1).push(rows[n - 1].0@)
    } else {
        sessions_with(access, unowned, rows, f, n - 1)
    }
}

/// The conversations among the first `n` that are given to users, with the users.
pub open spec fn given_to(
    access: AccessFile,
    unowned: Option<Seq<char>>,
    rows: Seq<(String, Option<String>)>,
    n: int,
) -> Seq<(Seq<char>, Seq<char>)>
    decreases n,
{
    if n <= 0 || n > rows.len() {
        seq![]
    } else {
        match row_fate(access, unowned, rows[n - 1]) {
            FateView::Given(u) => given_to(access, unowned, rows, n - 1).push((rows[n - 1].0@, u)),
            _ => given_to(access, unowned, rows, n - 1),
        }
    }
}

/// What claims say.
pub open spec fn claims_view(v: Seq<Claim>) -> Seq<(Seq<char>, Seq<char>)> {
    Seq::new(v.len(), |i: int| (v[i].session@, v[i].user@))
}

/// Decides what becomes of conversations. All of it has to be stored, or nothing.
pub fn claim(rows: &Vec<(String, Option<String>)>, access: &AccessFile, unowned: Option<&str>) -> (r:
    Claims)
    ensures
        ({
            let u = match unowned {
                Some(u) => Some(u@),
                None => None,
            };
            let n = rows@.len() as int;
            &&& claims_view(r.claims@) == given_to(*access, u, rows@, n)
            &&& r.report.claimed == r.claims@.len()
            &&& r.report.already == sessions_with(*access, u, rows@, FateView::Owned, n).len()
            &&& text::texts(r.report.missing_user@) == sessions_with(
                *access,
                u,
                rows@,
                FateView::NoUser,
                n,
            )
            &&& text::texts(r.report.unowned@) == sessions_with(
                *access,
                u,
                rows@,
                FateView::Nobody,
                n,
            )
        }),
{
    let ghost u = match unowned {
        Some(u) => Some(u@),
        None => None,
    };
    let mut claims: Vec<Claim> = Vec::new();
    let mut missing: Vec<String> = Vec::new();
    let mut nobody: Vec<String> = Vec::new();
    let mut already: usize = 0;
    let mut i: usize = 0;
    assert(claims_view(claims@) =~= given_to(*access, u, rows@, 0));
    assert(text::texts(missing@) =~= seq![]);
    assert(text::texts(nobody@) =~= seq![]);
    while i < rows.len()
        invariant
            i <= rows@.len(),
            u == (match unowned {
                Some(u) => Some(u@),
                None => None,
            }),
            already <= i,
            claims_view(claims@) == given_to(*access, u, rows@, i as int),
            already == sessions_with(*access, u, rows@, FateView::Owned, i as int).len(),
            text::texts(missing@) == sessions_with(
                *access,
                u,
                rows@,
                FateView::NoUser,
                i as int,
            ),
            text::texts(nobody@) == sessions_with(*access, u, rows@, FateView::Nobody, i as int),
        decreases rows@.len() - i,
    {
        let session = rows[i].0.as_str();
        let ghost (c0, m0, n0) = (
            claims_view(claims@),
            text::texts(missing@),
            text::texts(nobody@),
        );
        match fate_of(access, unowned, session, &rows[i].1) {
            Fate::Owned => {
                already = already + 1;
            },
            Fate::Given(user) => {
                claims.push(Claim { session: session.to_owned(), user });
                assert(claims_view(claims@) =~= c0.push((session@, user@)));
            },
            Fate::NoUser => {
                missing.push(session.to_owned());
                assert(text::texts(missing@) =~= m0.push(session@));
            },
            Fate::Nobody => {
                nobody.push(session.to_owned());
                assert(text::texts(nobody@) =~= n0.push(session@));
            },
        }
        i = i + 1;
    }
    let claimed: usize = claims.len();
    Claims {
        report: ClaimReport { claimed, unowned: nobody, already, missing_user: missing },
        claims,
    }
}

/// A conversation that has a user is never given to another.
pub proof fn law_owners_stay(
    access: AccessFile,
    unowned: Option<Seq<char>>,
    session: Seq<char>,
    user: Seq<char>,
)
    ensures
        fate(access, unowned, session, Some(user)) == FateView::Owned,
{
}

/// Every conversation comes to exactly one of the four ends.
pub proof fn law_all_are_accounted_for(
    access: AccessFile,
    unowned: Option<Seq<char>>,
    rows: Seq<(String, Option<String>)>,
    n: int,
)
    requires
        0 <= n <= rows.len(),
    ensures
        given_to(access, unowned, rows, n).len() + sessions_with(
            access,
            unowned,
            rows,
            FateView::Owned,
            n,
        ).len() + sessions_with(access, unowned, rows, FateView::NoUser, n).len() + sessions_with(
            access,
            unowned,
            rows,
            FateView::Nobody,
            n,
        ).len() == n,
    decreases n,
{
    if n > 0 {
        law_all_are_accounted_for(access, unowned, rows, n - 1);
    }
}

/// Where nobody was named for them, conversations without a code stay as they
/// are.
pub proof fn law_nobody_is_guessed(access: AccessFile, session: Seq<char>)
    requires
        found_from(access.owner@, session, 0) is None,
    ensures
        fate(access, None, session, None) == FateView::Nobody,
{
}

} // verus!
