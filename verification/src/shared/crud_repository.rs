//! Putting a stored-procedure call together.
//!
//! Every data operation is a call of a named procedure with positional
//! parameters. A repository says which procedure, which parameters and which
//! of the four answer shapes it expects; the text of the statement follows
//! from the name and the number of parameters.

use vstd::prelude::*;
use vstd::string::StringExecFns;
use crate::shared::db::mysql::{FromSqlRow, GenericRepository};
use crate::shared::db::param::{MySqlParam, MySqlParamView};

verus! {

/// What a procedure is known to answer with.
#[derive(Debug, Clone, Copy, PartialEq, Eq, Structural)]
pub enum CallShape {
    /// Nothing: the call only has an effect.
    Execute,
    /// At most one row; none means that nothing matched.
    FetchOptional,
    /// Exactly one row.
    FetchOne,
    /// Any number of rows.
    FetchList,
}

/// A procedure call, ready to be run: the statement with one placeholder per
/// parameter, the parameters in binding order, and the expected answer.
#[derive(Debug, Clone, PartialEq, Eq)]
pub struct ProcedureCall {
    pub query: String,
    pub params: Vec<MySqlParam>,
    pub shape: CallShape,
}

/// What a [`ProcedureCall`] stands for.
pub struct ProcedureCallView {
    pub query: Seq<char>,
    pub params: Seq<MySqlParamView>,
    pub shape: CallShape,
}

impl DeepView for ProcedureCall {
    type V = ProcedureCallView;

    open spec fn deep_view(&self) -> ProcedureCallView {
        ProcedureCallView {
            query: self.query@,
            params: self.params.deep_view(),
            shape: self.shape,
        }
    }
}

impl View for ProcedureCall {
    type V = ProcedureCallView;

    open spec fn view(&self) -> ProcedureCallView {
        self.deep_view()
    }
}

impl ProcedureCall {
    /// A copy of the call.
    pub fn replicate(&self) -> (r: ProcedureCall)
        ensures
            r@ == self@,
    {
        let mut params: Vec<MySqlParam> = Vec::with_capacity(self.params.len());
        let mut i: usize = 0;
        while i < self.params.len()
            invariant
                i <= self.params.len(),
                params.len() == i,
                forall|j: int| 0 <= j < i ==> params[j]@ == self.params[j]@,
            decreases self.params.len() - i,
        {
            params.push(self.params[i].replicate());
            i += 1;
        }
        assert(params.deep_view() =~= self.params.deep_view());
        ProcedureCall { query: self.query.clone(), params, shape: self.shape }
    }
}

/// `n` placeholders, separated by a comma and a space.
pub open spec fn placeholders(n: nat) -> Seq<char>
    decreases n,
{
    if n == 0 {
        Seq::empty()
    } else if n == 1 {
        "?"@
    } else {
        placeholders((n - 1) as nat) + ", ?"@
    }
}

/// The statement that calls `procedure_name` with `n` parameters.
pub open spec fn call_statement(procedure_name: Seq<char>, n: nat) -> Seq<char> {
    "CALL "@ + procedure_name + "("@ + placeholders(n) + ")"@
}

/// The call of `procedure_name` with `params`, expecting `shape`.
pub open spec fn procedure_call(
    procedure_name: Seq<char>,
    params: Seq<MySqlParamView>,
    shape: CallShape,
) -> ProcedureCallView {
    ProcedureCallView { query: call_statement(procedure_name, params.len()), params, shape }
}

/// Whether a call ends with the identity of the acting user: sixteen bytes,
/// or null where nobody is named.
pub open spec fn stamped(call: ProcedureCallView, meta_user: Option<Seq<u8>>) -> bool {
    call.params.len() > 0 && call.params.last() == MySqlParamView::OptBytes(meta_user)
}

/// Writes the statement that calls `procedure_name` with `n` parameters.
pub fn build_call_statement(procedure_name: &str, n: usize) -> (query: String)
    ensures
        query@ == call_statement(procedure_name@, n as nat),
{
    let mut query = String::from_str("CALL ");
    query.append(procedure_name);
    query.append("(");
    let ghost head = "CALL "@ + procedure_name@ + "("@;
    let mut i: usize = 0;
    assert(query@ =~= head + placeholders(0));
    while i < n
        invariant
            i <= n,
            query@ == head + placeholders(i as nat),
        decreases n - i,
    {
        if i > 0 {
            query.append(", ");
        }
        query.append("?");
        proof {
            reveal_strlit(", ?");
            reveal_strlit(", ");
            reveal_strlit("?");
            assert(", "@ + "?"@ =~= ", ?"@);
            assert(query@ =~= head + placeholders((i + 1) as nat));
        }
        i += 1;
    }
    query.append(")");
    query
}

/// The calling half of a repository: each function fixes the shape of the
/// answer that the procedure is known to give.
pub trait CrudRepository<T: FromSqlRow>: GenericRepository<T> {
    /// A call that only has an effect, such as a delete.
    fn call_procedure(&self, procedure_name: &str, params: Vec<MySqlParam>) -> (call:
        ProcedureCall)
        ensures
            call@ == procedure_call(procedure_name@, params.deep_view(), CallShape::Execute),
    {
        let query = build_call_statement(procedure_name, params.len());
        ProcedureCall { query, params, shape: CallShape::Execute }
    }

    /// A call that answers with at most one row.
    fn call_procedure_for_optional(&self, procedure_name: &str, params: Vec<MySqlParam>) -> (call:
        ProcedureCall)
        ensures
            call@ == procedure_call(procedure_name@, params.deep_view(), CallShape::FetchOptional),
    {
        let query = build_call_statement(procedure_name, params.len());
        ProcedureCall { query, params, shape: CallShape::FetchOptional }
    }

    /// A call that answers with exactly one row, such as an insert that
    /// returns what it stored.
    fn call_procedure_for_one(&self, procedure_name: &str, params: Vec<MySqlParam>) -> (call:
        ProcedureCall)
        ensures
            call@ == procedure_call(procedure_name@, params.deep_view(), CallShape::FetchOne),
    {
        let query = build_call_statement(procedure_name, params.len());
        ProcedureCall { query, params, shape: CallShape::FetchOne }
    }

    /// A call that answers with any number of rows.
    fn call_procedure_for_list(&self, procedure_name: &str, params: Vec<MySqlParam>) -> (call:
        ProcedureCall)
        ensures
            call@ == procedure_call(procedure_name@, params.deep_view(), CallShape::FetchList),
    {
        let query = build_call_statement(procedure_name, params.len());
        ProcedureCall { query, params, shape: CallShape::FetchList }
    }
}

impl<T: FromSqlRow, U: GenericRepository<T>> CrudRepository<T> for U {
}

} // verus!
