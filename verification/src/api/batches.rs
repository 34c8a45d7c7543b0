//! Listing batch jobs page by page.

use vstd::prelude::*;
use crate::text::{decimal_digits, decimal_text};

verus! {

/// The query that asks for one page of a list: `after` names the entry
/// that the page follows, `limit` how many entries it may hold, written in
/// decimal. What is not given is left out.
pub open spec fn list_query(after: Option<Seq<char>>, limit: Option<u32>) -> Seq<
    (Seq<char>, Seq<char>),
> {
    let first = match after {
        Some(id) => seq![("after"@, id)],
        None => Seq::empty(),
    };
    let second = match limit {
        Some(n) => seq![("limit"@, decimal_digits(n as nat))],
        None => Seq::empty(),
    };
    first + second
}

/// Builds the query that asks for one page of a list.
pub fn list_params(after: Option<String>, limit: Option<u32>) -> (r: Vec<(String, String)>)
    ensures
        r@.map_values(|p: (String, String)| (p.0@, p.1@)) == list_query(
            match after {
                Some(id) => Some(id@),
                None => None,
            },
            limit,
        ),
{
    let mut params: Vec<(String, String)> = Vec::new();
    if let Some(id) = after {
        params.push(("after".to_owned(), id));
    }
    if let Some(n) = limit {
        params.push(("limit".to_owned(), decimal_text(n as u64)));
    }
    assert(params@.map_values(|p: (String, String)| (p.0@, p.1@)) =~= list_query(
        match after {
            Some(id) => Some(id@),
            None => None,
        },
        limit,
    ));
    params
}

} // verus!
