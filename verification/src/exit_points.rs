//! The second pass: the fragment output goes back to the host in the host's
//! channel order, on every way out of `main`.
//!
//! For an output variable `o` the statement `o = o.argb;` is put immediately
//! before every `return` in the body of `main`, at any depth, and once more at
//! the end of the body. A `return` that stands alone as the body of an `if` or
//! of a loop has no list to be inserted into: it becomes the block
//! `{ o = o.argb; return; }`.
//!
//! Each `*_exits(name, a, b)` says that `b` is `a` after this pass for the
//! output variable `name`.

use vstd::prelude::*;
use glsl::syntax::{
    AssignmentOp, CompoundStatement, Expr, Identifier, IterationStatement, JumpStatement,
    SelectionRestStatement, SelectionStatement, SimpleStatement, Statement, SwitchStatement,
};
use crate::channels::{write_order, write_order_name};
use crate::preprocessing::EntryPointExitSwizzler;

verus! {

/// Whether `s` is the statement `name = name.argb;`.
pub open spec fn is_exit_swizzle(s: Statement, name: Seq<char>) -> bool {
    s matches Statement::Simple(simple) && (*simple matches SimpleStatement::Expression(
        Some(Expr::Assignment(target, op, value)),
    ) && op is Equal && (*target matches Expr::Variable(t) && t.0@ == name) && (
    *value matches Expr::Dot(inner, order) && order.0@ == write_order() && (
    *inner matches Expr::Variable(v) && v.0@ == name)))
}

/// Whether `s` is a `return`, with or without a value.
pub open spec fn is_return(s: Statement) -> bool {
    s matches Statement::Simple(simple) && *simple matches SimpleStatement::Jump(
        JumpStatement::Return(_),
    )
}

/// `b` is the first `n` statements of the list `a` after the pass: each
/// `return` with the exit statement before it, every other statement
/// rewritten inside.
pub open spec fn prefix_exits(name: Seq<char>, a: Seq<Statement>, n: int, b: Seq<Statement>) -> bool
    decreases a, n,
{
    if n <= 0 || n > a.len() {
        b.len() == 0
    } else if is_return(a[n - 1]) {
        &&& b.len() >= 2
        &&& b[b.len() - 1] == a[n - 1]
        &&& is_exit_swizzle(b[b.len() - 2], name)
        &&& prefix_exits(name, a, n - 1, b.take(b.len() - 2))
    } else {
        &&& b.len() >= 1
        &&& statement_exits(name, a[n - 1], b[b.len() - 1])
        &&& prefix_exits(name, a, n - 1, b.take(b.len() - 1))
    }
}

/// `b` is the whole statement list `a` after the pass.
pub open spec fn list_exits(name: Seq<char>, a: Seq<Statement>, b: Seq<Statement>) -> bool
    decreases a, a.len() + 1,
{
    prefix_exits(name, a, a.len() as int, b)
}

/// `b` is `a` after the pass, for a statement `a` of a list that is no
/// `return`: only what is nested in it changes.
pub open spec fn statement_exits(name: Seq<char>, a: Statement, b: Statement) -> bool
    decreases a, 0int,
{
    match a {
        Statement::Compound(c) => b matches Statement::Compound(c2) && compound_exits(
            name,
            *c,
            *c2,
        ),
        Statement::Simple(s) => b matches Statement::Simple(s2) && simple_exits(name, *s, *s2),
    }
}

/// `b` is `a` after the pass, for a statement `a` that is the whole body of a
/// branch or of a loop.
pub open spec fn body_exits(name: Seq<char>, a: Statement, b: Statement) -> bool
    decreases a, 1int,
{
    if is_return(a) {
        b matches Statement::Compound(c) && c.statement_list@.len() == 2 && is_exit_swizzle(
            c.statement_list@[0],
            name,
        ) && c.statement_list@[1] == a
    } else {
        statement_exits(name, a, b)
    }
}

/// `b` is the block `a` after the pass.
pub open spec fn compound_exits(name: Seq<char>, a: CompoundStatement, b: CompoundStatement) -> bool
    decreases a, 0int,
{
    list_exits(name, a.statement_list@, b.statement_list@)
}

/// `b` is the simple statement `a` after the pass: an `if`, a `switch` or a
/// loop changes inside, anything else stays.
pub open spec fn simple_exits(name: Seq<char>, a: SimpleStatement, b: SimpleStatement) -> bool
    decreases a, 0int,
{
    match a {
        SimpleStatement::Selection(s) => b matches SimpleStatement::Selection(s2)
            && selection_exits(name, s, s2),
        SimpleStatement::Switch(s) => b matches SimpleStatement::Switch(s2) && switch_exits(
            name,
            s,
            s2,
        ),
        SimpleStatement::Iteration(i) => b matches SimpleStatement::Iteration(i2)
            && iteration_exits(name, i, i2),
        _ => b == a,
    }
}

/// `b` is the `if` statement `a` after the pass: its branches change, its
/// condition stays.
pub open spec fn selection_exits(name: Seq<char>, a: SelectionStatement, b: SelectionStatement) -> bool
    decreases a, 0int,
{
    &&& b.cond == a.cond
    &&& match a.rest {
        SelectionRestStatement::Statement(s) => b.rest matches SelectionRestStatement::Statement(
            s2,
        ) && body_exits(name, *s, *s2),
        SelectionRestStatement::Else(s, t) => b.rest matches SelectionRestStatement::Else(s2, t2)
            && body_exits(name, *s, *s2) && body_exits(name, *t, *t2),
    }
}

/// `b` is the `switch` statement `a` after the pass: its body changes, its
/// head stays.
pub open spec fn switch_exits(name: Seq<char>, a: SwitchStatement, b: SwitchStatement) -> bool
    decreases a, 0int,
{
    &&& b.head == a.head
    &&& list_exits(name, a.body@, b.body@)
}

/// `b` is the loop `a` after the pass: its body changes, the rest stays.
pub open spec fn iteration_exits(name: Seq<char>, a: IterationStatement, b: IterationStatement) -> bool
    decreases a, 0int,
{
    match a {
        IterationStatement::While(c, s) => b matches IterationStatement::While(c2, s2) && c2 == c
            && body_exits(name, *s, *s2),
        IterationStatement::DoWhile(s, e) => b matches IterationStatement::DoWhile(s2, e2) && e2
            == e && body_exits(name, *s, *s2),
        IterationStatement::For(i, r, s) => b matches IterationStatement::For(i2, r2, s2) && i2
            == i && r2 == r && body_exits(name, *s, *s2),
    }
}

/// `b` is the body `a` of `main` after the pass: the list rewritten, and the
/// exit statement once more at its end.
pub open spec fn entry_point_exits(name: Seq<char>, a: CompoundStatement, b: CompoundStatement) -> bool {
    &&& b.statement_list@.len() >= 1
    &&& is_exit_swizzle(b.statement_list@[b.statement_list@.len() - 1], name)
    &&& list_exits(
        name,
        a.statement_list@,
        b.statement_list@.take(b.statement_list@.len() - 1),
    )
}

/// Whether a statement is a `return`.
pub fn statement_is_return(s: &Statement) -> (r: bool)
    ensures
        r == is_return(*s),
{
    match s {
        Statement::Simple(simple) => match &**simple {
            SimpleStatement::Jump(JumpStatement::Return(_)) => true,
            _ => false,
        },
        _ => false,
    }
}

impl EntryPointExitSwizzler {
    /// The name of the output variable, as text.
    pub open spec fn name(&self) -> Seq<char> {
        self.out_var@
    }

    /// The statement `o = o.argb;` for the output variable `o`.
    pub fn exit_statement(&self) -> (r: Statement)
        ensures
            is_exit_swizzle(r, self.name()),
    {
        let target = Expr::Variable(Identifier(self.out_var.clone()));
        let source = Expr::Variable(Identifier(self.out_var.clone()));
        let value = Expr::Dot(Box::new(source), Identifier(write_order_name()));
        let assignment = Expr::Assignment(Box::new(target), AssignmentOp::Equal, Box::new(value));
        Statement::Simple(Box::new(SimpleStatement::Expression(Some(assignment))))
    }

    /// Rewrites a list of statements: the exit statement before each `return`
    /// of the list, and the pass on what the other statements hold.
    pub fn visit_statements(&self, v: Vec<Statement>) -> (r: Vec<Statement>)
        ensures
            list_exits(self.name(), v@, r@),
        decreases v@, v@.len() + 1,
    {
        let mut out: Vec<Statement> = Vec::new();
        for x in it: v.into_iter()
            invariant
                it.seq() == v@,
                prefix_exits(self.name(), v@, it.index() as int, out@),
        {
            let ghost before = out@;
            if statement_is_return(&x) {
                out.push(self.exit_statement());
                out.push(x);
                assert(out@.take(out@.len() - 2) == before);
            } else {
                let y = self.visit_statement(x);
                out.push(y);
                assert(out@.take(out@.len() - 1) == before);
            }
        }
        out
    }

    /// Rewrites what a statement of a list holds.
    pub fn visit_statement(&self, stmt: Statement) -> (r: Statement)
        ensures
            statement_exits(self.name(), stmt, r),
        decreases stmt, 0int,
    {
        match stmt {
            Statement::Compound(c) => Statement::Compound(
                Box::new(self.visit_compound_statement(*c)),
            ),
            Statement::Simple(s) => Statement::Simple(Box::new(self.visit_simple(*s))),
        }
    }

    /// Rewrites the body of a branch or of a loop; a lone `return` becomes a
    /// block of the exit statement and the `return`.
    pub fn visit_body(&self, stmt: Statement) -> (r: Statement)
        ensures
            body_exits(self.name(), stmt, r),
        decreases stmt, 1int,
    {
        if statement_is_return(&stmt) {
            let mut list: Vec<Statement> = Vec::new();
            list.push(self.exit_statement());
            list.push(stmt);
            Statement::Compound(Box::new(CompoundStatement { statement_list: list }))
        } else {
            self.visit_statement(stmt)
        }
    }

    /// Rewrites a block: see `visit_statements`.
    pub fn visit_compound_statement(&self, block: CompoundStatement) -> (r: CompoundStatement)
        ensures
            compound_exits(self.name(), block, r),
        decreases block, 0int,
    {
        let CompoundStatement { statement_list } = block;
        CompoundStatement { statement_list: self.visit_statements(statement_list) }
    }

    /// Rewrites what an `if`, a `switch` or a loop holds; any other simple
    /// statement is handed back.
    pub fn visit_simple(&self, stmt: SimpleStatement) -> (r: SimpleStatement)
        ensures
            simple_exits(self.name(), stmt, r),
        decreases stmt, 0int,
    {
        match stmt {
            SimpleStatement::Selection(s) => SimpleStatement::Selection(self.visit_selection(s)),
            SimpleStatement::Switch(s) => SimpleStatement::Switch(self.visit_switch(s)),
            SimpleStatement::Iteration(i) => SimpleStatement::Iteration(self.visit_iteration(i)),
            other => other,
        }
    }

    /// Rewrites the branches of an `if`.
    pub fn visit_selection(&self, sel: SelectionStatement) -> (r: SelectionStatement)
        ensures
            selection_exits(self.name(), sel, r),
        decreases sel, 0int,
    {
        let SelectionStatement { cond, rest } = sel;
        let rest = match rest {
            SelectionRestStatement::Statement(s) => SelectionRestStatement::Statement(
                Box::new(self.visit_body(*s)),
            ),
            SelectionRestStatement::Else(s, t) => SelectionRestStatement::Else(
                Box::new(self.visit_body(*s)),
                Box::new(self.visit_body(*t)),
            ),
        };
        SelectionStatement { cond, rest }
    }

    /// Rewrites the body of a `switch`.
    pub fn visit_switch(&self, sw: SwitchStatement) -> (r: SwitchStatement)
        ensures
            switch_exits(self.name(), sw, r),
        decreases sw, 0int,
    {
        let SwitchStatement { head, body } = sw;
        SwitchStatement { head, body: self.visit_statements(body) }
    }

    /// Rewrites the body of a loop.
    pub fn visit_iteration(&self, iter: IterationStatement) -> (r: IterationStatement)
        ensures
            iteration_exits(self.name(), iter, r),
        decreases iter, 0int,
    {
        match iter {
            IterationStatement::While(c, s) => IterationStatement::While(
                c,
                Box::new(self.visit_body(*s)),
            ),
            IterationStatement::DoWhile(s, e) => IterationStatement::DoWhile(
                Box::new(self.visit_body(*s)),
                e,
            ),
            IterationStatement::For(i, r, s) => IterationStatement::For(
                i,
                r,
                Box::new(self.visit_body(*s)),
            ),
        }
    }

    /// Rewrites the body of `main`: the pass on its statements, and the exit
    /// statement at the end.
    pub fn visit_entry_point(&self, body: CompoundStatement) -> (r: CompoundStatement)
        ensures
            entry_point_exits(self.name(), body, r),
    {
        let CompoundStatement { statement_list } = body;
        let mut list = self.visit_statements(statement_list);
        let ghost before = list@;
        list.push(self.exit_statement());
        assert(list@.take(list@.len() - 1) == before);
        CompoundStatement { statement_list: list }
    }
}

} // verus!
