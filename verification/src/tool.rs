//! The parameters of the tools that the program offers.

use vstd::prelude::*;
use crate::text::{trim, trimmed};

verus! {

/// The parameters of the tool that executes a query.
#[derive(Debug, PartialEq, Eq)]
pub struct ExecuteQueryParams {
    query: String,
}

impl View for ExecuteQueryParams {
    type V = Seq<char>;

    closed spec fn view(&self) -> Seq<char> {
        self.query@
    }
}

impl ExecuteQueryParams {
    /// The parameters that ask for `query` to be executed.
    pub fn new(query: String) -> (params: ExecuteQueryParams)
        ensures
            params@ == query@,
    {
        ExecuteQueryParams { query }
    }

    /// The query as it was given.
    pub fn query(&self) -> (query: &String)
        ensures
            query@ == self@,
    {
        &self.query
    }

    /// The statement to execute: the query without the white space around it.
    pub fn statement(&self) -> (statement: String)
        ensures
            statement@ == trimmed(self@),
    {
        trim(self.query.as_str())
    }
}

} // verus!
