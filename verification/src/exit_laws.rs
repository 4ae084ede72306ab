//! What holds of the second pass: it adds one exit statement for each
//! `return` of the body and one for its end, it adds or removes no `return`,
//! and it leaves no `return` without an exit statement immediately before it.

use vstd::prelude::*;
use glsl::syntax::{
    CompoundStatement, IterationStatement, SelectionRestStatement, SelectionStatement,
    SimpleStatement, Statement, SwitchStatement,
};
use crate::exit_points::{
    body_exits, entry_point_exits, is_exit_swizzle, is_return, list_exits, prefix_exits,
    simple_exits, statement_exits,
};

verus! {

/// What is counted in a body: its `return`s, or the exit statements of one
/// output variable.
pub enum Counted {
    Returns,
    Exits(Seq<char>),
}

impl Counted {
    /// Whether the statement `s` itself is one of the counted.
    pub open spec fn holds(self, s: Statement) -> bool {
        match self {
            Counted::Returns => is_return(s),
            Counted::Exits(name) => is_exit_swizzle(s, name),
        }
    }
}

/// How many of the counted are among the first `n` statements of `a` and
/// inside them.
pub open spec fn count_in_list(kind: Counted, a: Seq<Statement>, n: int) -> nat
    decreases a, n,
{
    if n <= 0 || n > a.len() {
        0
    } else {
        count_in_list(kind, a, n - 1) + count_in_statement(kind, a[n - 1])
    }
}

/// How many of the counted `s` is and holds.
pub open spec fn count_in_statement(kind: Counted, s: Statement) -> nat
    decreases s, 0int,
{
    let own: nat = if kind.holds(s) {
        1
    } else {
        0
    };
    own + match s {
        Statement::Compound(c) => count_in_compound(kind, *c),
        Statement::Simple(x) => count_in_simple(kind, *x),
    }
}

/// How many of the counted a block holds.
pub open spec fn count_in_compound(kind: Counted, c: CompoundStatement) -> nat
    decreases c, 0int,
{
    count_in_list(kind, c.statement_list@, c.statement_list@.len() as int)
}

/// How many of the counted a simple statement holds: those in its branches,
/// in its cases or in its loop body.
pub open spec fn count_in_simple(kind: Counted, x: SimpleStatement) -> nat
    decreases x, 0int,
{
    match x {
        SimpleStatement::Selection(s) => count_in_selection(kind, s),
        SimpleStatement::Switch(s) => count_in_switch(kind, s),
        SimpleStatement::Iteration(i) => count_in_iteration(kind, i),
        _ => 0,
    }
}

/// How many of the counted the branches of an `if` are and hold.
pub open spec fn count_in_selection(kind: Counted, s: SelectionStatement) -> nat
    decreases s, 0int,
{
    match s.rest {
        SelectionRestStatement::Statement(t) => count_in_statement(kind, *t),
        SelectionRestStatement::Else(t, e) => count_in_statement(kind, *t) + count_in_statement(
            kind,
            *e,
        ),
    }
}

/// How many of the counted the body of a `switch` holds.
pub open spec fn count_in_switch(kind: Counted, s: SwitchStatement) -> nat
    decreases s, 0int,
{
    count_in_list(kind, s.body@, s.body@.len() as int)
}

/// How many of the counted the body of a loop is and holds.
pub open spec fn count_in_iteration(kind: Counted, i: IterationStatement) -> nat
    decreases i, 0int,
{
    match i {
        IterationStatement::While(_, s) => count_in_statement(kind, *s),
        IterationStatement::DoWhile(s, _) => count_in_statement(kind, *s),
        IterationStatement::For(_, _, s) => count_in_statement(kind, *s),
    }
}

/// What the pass for `name` adds to a count, given the `return`s that it
/// found: one exit statement of `name` for each, and nothing else.
pub open spec fn added(kind: Counted, name: Seq<char>, returns: nat) -> nat {
    if kind == Counted::Exits(name) {
        returns
    } else {
        0
    }
}

/// A count over the first statements of a list does not look past them.
pub proof fn lemma_count_of_prefix(kind: Counted, a: Seq<Statement>, m: int, n: int)
    requires
        0 <= n <= m <= a.len(),
    ensures
        count_in_list(kind, a.take(m), n) == count_in_list(kind, a, n),
    decreases n,
{
    if n > 0 {
        lemma_count_of_prefix(kind, a, m, n - 1);
        assert(a.take(m)[n - 1] == a[n - 1]);
    }
}

/// An exit statement and a `return` are different statements, and neither
/// holds a statement.
pub proof fn lemma_counted_statements(kind: Counted, name: Seq<char>, s: Statement)
    ensures
        is_exit_swizzle(s, name) ==> count_in_statement(kind, s) == added(kind, name, 1),
        is_return(s) ==> count_in_statement(kind, s) == (if kind is Returns {
            1nat
        } else {
            0nat
        }),
{
    if is_exit_swizzle(s, name) || is_return(s) {
        match s {
            Statement::Simple(x) => {
                assert(count_in_simple(kind, *x) == 0);
            },
            _ => {},
        }
    }
}

/// The pass adds to the first statements of a list one exit statement for
/// each `return` among them and in them.
pub proof fn lemma_prefix_counts(
    kind: Counted,
    name: Seq<char>,
    a: Seq<Statement>,
    n: int,
    b: Seq<Statement>,
)
    requires
        0 <= n <= a.len(),
        prefix_exits(name, a, n, b),
    ensures
        count_in_list(kind, b, b.len() as int) == count_in_list(kind, a, n) + added(
            kind,
            name,
            count_in_list(Counted::Returns, a, n),
        ),
    decreases a, n,
{
    if n > 0 {
        let len = b.len() as int;
        if is_return(a[n - 1]) {
            let rest = b.take(len - 2);
            lemma_prefix_counts(kind, name, a, n - 1, rest);
            lemma_count_of_prefix(kind, b, len - 2, len - 2);
            lemma_counted_statements(kind, name, b[len - 2]);
            lemma_counted_statements(kind, name, a[n - 1]);
            lemma_counted_statements(Counted::Returns, name, a[n - 1]);
            assert(count_in_list(kind, b, len) == count_in_list(kind, b, len - 1)
                + count_in_statement(kind, b[len - 1]));
            assert(count_in_list(kind, b, len - 1) == count_in_list(kind, b, len - 2)
                + count_in_statement(kind, b[len - 2]));
        } else {
            let rest = b.take(len - 1);
            lemma_prefix_counts(kind, name, a, n - 1, rest);
            lemma_count_of_prefix(kind, b, len - 1, len - 1);
            lemma_statement_counts(kind, name, a[n - 1], b[len - 1]);
            lemma_statement_counts(Counted::Returns, name, a[n - 1], b[len - 1]);
        }
    }
}

/// The pass adds to a list one exit statement for each `return` in it.
pub proof fn lemma_list_counts(kind: Counted, name: Seq<char>, a: Seq<Statement>, b: Seq<Statement>)
    requires
        list_exits(name, a, b),
    ensures
        count_in_list(kind, b, b.len() as int) == count_in_list(kind, a, a.len() as int) + added(
            kind,
            name,
            count_in_list(Counted::Returns, a, a.len() as int),
        ),
    decreases a, a.len() + 1,
{
    lemma_prefix_counts(kind, name, a, a.len() as int, b);
}

/// The pass adds to a statement that is no `return` one exit statement for
/// each `return` in it.
pub proof fn lemma_statement_counts(kind: Counted, name: Seq<char>, a: Statement, b: Statement)
    requires
        statement_exits(name, a, b),
        !is_return(a),
    ensures
        count_in_statement(kind, b) == count_in_statement(kind, a) + added(
            kind,
            name,
            count_in_statement(Counted::Returns, a),
        ),
    decreases a, 0int,
{
    match (a, b) {
        (Statement::Compound(c), Statement::Compound(c2)) => {
            lemma_list_counts(kind, name, c.statement_list@, c2.statement_list@);
        },
        (Statement::Simple(s), Statement::Simple(s2)) => {
            lemma_simple_counts(kind, name, *s, *s2);
            assert(kind.holds(a) == kind.holds(b));
        },
        _ => {},
    }
}

/// The pass adds to the body of a branch or a loop one exit statement for
/// each `return` that the body is or holds.
pub proof fn lemma_body_counts(kind: Counted, name: Seq<char>, a: Statement, b: Statement)
    requires
        body_exits(name, a, b),
    ensures
        count_in_statement(kind, b) == count_in_statement(kind, a) + added(
            kind,
            name,
            count_in_statement(Counted::Returns, a),
        ),
    decreases a, 1int,
{
    if is_return(a) {
        let list = match b {
            Statement::Compound(c) => c.statement_list@,
            _ => Seq::empty(),
        };
        lemma_counted_statements(kind, name, list[0]);
        lemma_counted_statements(kind, name, a);
        lemma_counted_statements(Counted::Returns, name, a);
        assert(count_in_list(kind, list, 2) == count_in_list(kind, list, 1) + count_in_statement(
            kind,
            list[1],
        ));
        assert(count_in_list(kind, list, 1) == count_in_list(kind, list, 0) + count_in_statement(
            kind,
            list[0],
        ));
    } else {
        lemma_statement_counts(kind, name, a, b);
    }
}

/// The pass adds to a simple statement one exit statement for each `return`
/// in it, and changes no statement that holds none.
pub proof fn lemma_simple_counts(
    kind: Counted,
    name: Seq<char>,
    a: SimpleStatement,
    b: SimpleStatement,
)
    requires
        simple_exits(name, a, b),
    ensures
        count_in_simple(kind, b) == count_in_simple(kind, a) + added(
            kind,
            name,
            count_in_simple(Counted::Returns, a),
        ),
        a is Selection || a is Switch || a is Iteration || b == a,
        b is Selection == a is Selection,
        b is Switch == a is Switch,
        b is Iteration == a is Iteration,
    decreases a, 0int,
{
    match (a, b) {
        (SimpleStatement::Selection(s), SimpleStatement::Selection(s2)) => {
            match (s.rest, s2.rest) {
                (
                    SelectionRestStatement::Statement(t),
                    SelectionRestStatement::Statement(t2),
                ) => {
                    lemma_body_counts(kind, name, *t, *t2);
                },
                (SelectionRestStatement::Else(t, e), SelectionRestStatement::Else(t2, e2)) => {
                    lemma_body_counts(kind, name, *t, *t2);
                    lemma_body_counts(kind, name, *e, *e2);
                },
                _ => {},
            }
        },
        (SimpleStatement::Switch(s), SimpleStatement::Switch(s2)) => {
            lemma_list_counts(kind, name, s.body@, s2.body@);
        },
        (SimpleStatement::Iteration(i), SimpleStatement::Iteration(i2)) => {
            match (i, i2) {
                (IterationStatement::While(_, s), IterationStatement::While(_, s2)) => {
                    lemma_body_counts(kind, name, *s, *s2);
                },
                (IterationStatement::DoWhile(s, _), IterationStatement::DoWhile(s2, _)) => {
                    lemma_body_counts(kind, name, *s, *s2);
                },
                (IterationStatement::For(_, _, s), IterationStatement::For(_, _, s2)) => {
                    lemma_body_counts(kind, name, *s, *s2);
                },
                _ => {},
            }
        },
        _ => {},
    }
}

/// The pass turns no statement of a list into a `return`.
pub proof fn lemma_no_return_made(name: Seq<char>, a: Statement, b: Statement)
    requires
        statement_exits(name, a, b),
        !is_return(a),
    ensures
        !is_return(b),
{
    match (a, b) {
        (Statement::Simple(s), Statement::Simple(s2)) => {
            assert(simple_exits(name, *s, *s2));
        },
        _ => {},
    }
}

/// In a rewritten list every `return` stands immediately behind an exit
/// statement.
pub proof fn lemma_exit_before_every_return(
    name: Seq<char>,
    a: Seq<Statement>,
    n: int,
    b: Seq<Statement>,
    j: int,
)
    requires
        0 <= n <= a.len(),
        prefix_exits(name, a, n, b),
        0 <= j < b.len(),
        is_return(b[j]),
    ensures
        j > 0 && is_exit_swizzle(b[j - 1], name),
    decreases n,
{
    let len = b.len() as int;
    if is_return(a[n - 1]) {
        if j < len - 2 {
            lemma_exit_before_every_return(name, a, n - 1, b.take(len - 2), j);
        }
    } else {
        lemma_no_return_made(name, a[n - 1], b[len - 1]);
        lemma_exit_before_every_return(name, a, n - 1, b.take(len - 1), j);
    }
}

/// The rewritten body of a branch or of a loop is no lone `return`.
pub proof fn lemma_no_lone_return(name: Seq<char>, a: Statement, b: Statement)
    requires
        body_exits(name, a, b),
    ensures
        !is_return(b),
{
    if !is_return(a) {
        lemma_no_return_made(name, a, b);
    }
}

/// The second pass leaves in the body of `main` one exit statement more than
/// the `return`s it found there, beside those that the body held already, and
/// as many `return`s as before.
pub proof fn lemma_one_exit_per_way_out(name: Seq<char>, a: CompoundStatement, b: CompoundStatement)
    requires
        entry_point_exits(name, a, b),
    ensures
        count_in_compound(Counted::Exits(name), b) == count_in_compound(Counted::Exits(name), a)
            + count_in_compound(Counted::Returns, a) + 1,
        count_in_compound(Counted::Returns, b) == count_in_compound(Counted::Returns, a),
{
    let list = b.statement_list@;
    let len = list.len() as int;
    let rest = list.take(len - 1);
    lemma_list_counts(Counted::Exits(name), name, a.statement_list@, rest);
    lemma_list_counts(Counted::Returns, name, a.statement_list@, rest);
    lemma_count_of_prefix(Counted::Exits(name), list, len - 1, len - 1);
    lemma_count_of_prefix(Counted::Returns, list, len - 1, len - 1);
    lemma_counted_statements(Counted::Exits(name), name, list[len - 1]);
    lemma_counted_statements(Counted::Returns, name, list[len - 1]);
}

} // verus!
