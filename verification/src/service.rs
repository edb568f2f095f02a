//! The step that a proxy service takes for one statement between receiving
//! it from a client and sending it on to a backend. Transport, framing and
//! the choice of a backend are the caller's.

use vstd::prelude::*;
use crate::context::Context;
use crate::context::RenderContext;
use crate::rewrite::WriteError;
use crate::statement::Statement;
use crate::statement::statement_text;
use crate::statement::statement_wf;
use crate::statement::write_statement;

verus! {

broadcast use crate::text::group_sink;

/// A service that stands between clients and backends.
pub trait Service {
    /// The SQL text that the service sends on for `stmt` under `ctx`.
    spec fn forwarded(&self, stmt: Statement, ctx: Context) -> Seq<char>;

    /// Serves one statement: returns the SQL text to send on to the backend.
    fn serve(&self, stmt: &Statement, ctx: &RenderContext) -> (r: Result<String, WriteError>)
        requires
            statement_wf(*stmt),
        ensures
            r matches Ok(sql) && sql@ == self.forwarded(*stmt, ctx@),
    ;
}

/// The service for the MySQL protocol: it sends on the statement's own text,
/// with the identifiers that the context replaces.
#[derive(Debug, Clone, Copy, PartialEq, Eq)]
pub struct MySQLService {}

impl Service for MySQLService {
    open spec fn forwarded(&self, stmt: Statement, ctx: Context) -> Seq<char> {
        statement_text(stmt, ctx)
    }

    fn serve(&self, stmt: &Statement, ctx: &RenderContext) -> (r: Result<String, WriteError>) {
        let mut sql = String::new();
        write_statement(stmt, &mut sql, ctx);
        Ok(sql)
    }
}

/// The service that this proxy runs: the one for the MySQL protocol.
pub fn new_service() -> (s: Box<&'static dyn Service>)
    ensures
        forall|stmt: Statement, ctx: Context| #[trigger]
            s.forwarded(stmt, ctx) == statement_text(stmt, ctx),
{
    Box::new(&MySQLService {  })
}
} // verus!
