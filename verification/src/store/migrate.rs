//! Versions of the database.
//!
//! One command brings the database to the version that the program wants; every
//! other only checks that it is there. A database that was in use before versions
//! were counted has the tables of the first version already.

use vstd::prelude::*;
use crate::error::{ClipKnowError, Result};
use crate::text;
use crate::text::i64_text;

verus! {

/// The version that the program wants.
pub fn expected_version() -> (r: i64)
    ensures
        r == 2,
{
    2
}

/// The name of a version.
pub open spec fn version_name(v: int) -> Seq<char> {
    if v == 1 {
        "baseline"@
    } else {
        "multi_user"@
    }
}

/// The version of a database: the highest that was noted in it; none was where
/// there is no table of versions, or nothing in it.
pub fn current_version(has_table: bool, highest: Option<i64>) -> (r: i64)
    ensures
        r == (match highest {
            Some(n) => if has_table {
                n as int
            } else {
                0
            },
            None => 0,
        }),
{
    if !has_table {
        return 0;
    }
    match highest {
        Some(n) => n,
        None => 0,
    }
}

/// Whether a database was in use before versions were counted: there are
/// conversations in it, and no version.
pub fn is_legacy(has_sessions: bool, current: i64) -> (r: bool)
    ensures
        r == (has_sessions && current == 0),
{
    has_sessions && current == 0
}

/// A version that a database has to be brought to.
#[derive(Debug, PartialEq, Eq)]
pub struct Due {
    pub version: i64,
    pub name: &'static str,
    /// Whether anything has to be done for it, or it is only noted.
    pub runs: bool,
}

/// Whether `r` is a version that has to be brought about.
pub open spec fn is_due(r: Due, version: int, legacy: bool) -> bool {
    r.version as int == version && r.name@ == version_name(version) && r.runs == !(legacy && version
        == 1)
}

/// The versions that a database has to be brought to, one after another.
pub fn pending(current: i64, legacy: bool) -> (r: Vec<Due>)
    ensures
        r@.len() == (if current >= 2 {
            0int
        } else if current >= 1 {
            1int
        } else {
            2int
        }),
        forall|i: int|
            0 <= i < r@.len() ==> is_due(#[trigger] r@[i], 3 - r@.len() + i, legacy) && current
                < r@[i].version,
        current < 2 ==> r@.len() > 0 && r@.last().version == 2,
{
    let mut r: Vec<Due> = Vec::new();
    if current < 1 {
        r.push(Due { version: 1, name: "baseline", runs: !legacy });
    }
    if current < 2 {
        r.push(Due { version: 2, name: "multi_user", runs: true });
    }
    r
}

/// What is wrong with the version of a database.
pub open spec fn mismatch(have: int) -> Option<Seq<char>> {
    if have == 2 {
        None
    } else if have < 2 {
        Some(
            "数据库还停在第 "@ + text::int_text(have) + " 版，代码要第 "@ + text::int_text(2)
                + " 版。先跑一次：clipknow migrate"@,
        )
    } else {
        Some(
            "数据库是第 "@ + text::int_text(have) + " 版，比这个程序（第 "@ + text::int_text(2)
                + " 版）还新。多半是回退了代码却没回退库——用对应版本的程序，或者从备份恢复。"@,
        )
    }
}

/// Whether a database has the version that the program wants. An older one says
/// how to change that, and a newer one that the program is too old.
pub fn check(have: i64) -> (r: Result<()>)
    ensures
        match mismatch(have as int) {
            None => r is Ok,
            Some(t) => r matches Err(ClipKnowError::BadRequest(m)) && m@ == t,
        },
{
    let want: i64 = expected_version();
    if have == want {
        return Ok(());
    }
    let m = if have < want {
        "数据库还停在第 ".to_owned().concat(i64_text(have).as_str()).concat(
            " 版，代码要第 ",
        ).concat(i64_text(want).as_str()).concat(" 版。先跑一次：clipknow migrate")
    } else {
        "数据库是第 ".to_owned().concat(i64_text(have).as_str()).concat(
            " 版，比这个程序（第 ",
        ).concat(i64_text(want).as_str()).concat(
            " 版）还新。多半是回退了代码却没回退库——用对应版本的程序，或者从备份恢复。",
        )
    };
    Err(ClipKnowError::BadRequest(m))
}

} // verus!
