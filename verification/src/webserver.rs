//! The status page of the web server.
use vstd::prelude::*;
use crate::text::{decimal, push_int};

verus! {

/// The status page with the totals of paws and users and the commit the
/// bot runs.
pub open spec fn root_page_text(total_paws: int, total_users: int, commit: Seq<char>) -> Seq<char> {
    "<h1>Waterwolf Pawbot</h1>"@ + decimal(total_paws) + " total paws<br />"@ + decimal(total_users)
        + " total users<br />commit "@ + commit
}

/// The HTML of the status page.
pub fn root_page(total_paws: i64, total_users: i64, commit: &str) -> (html: String)
    ensures
        html@ == root_page_text(total_paws as int, total_users as int, commit@),
{
    let mut s = String::new();
    s.append("<h1>Waterwolf Pawbot</h1>");
    push_int(&mut s, total_paws);
    s.append(" total paws<br />");
    push_int(&mut s, total_users);
    s.append(" total users<br />commit ");
    s.append(commit);
    assert(s@ =~= root_page_text(total_paws as int, total_users as int, commit@));
    s
}

} // verus!
