//! The first pass over statements, function definitions and the whole shader.

use vstd::prelude::*;
use glsl::syntax::{
    CaseLabel, CompoundStatement, Condition, ExternalDeclaration, ForInitStatement,
    ForRestStatement, FunctionDefinition, IterationStatement, JumpStatement, NonEmpty,
    SelectionRestStatement, SelectionStatement, SimpleStatement, Statement, SwitchStatement,
    TranslationUnit,
};
use crate::texture_calls::declarations::{
    declaration_swizzled, initializer_swizzled, prototype_swizzled, swizzle_declaration,
    swizzle_initializer, swizzle_prototype,
};
use crate::texture_calls::exprs::{
    boxed_expr_swizzled, expr_swizzled, opt_expr_swizzled, swizzle_boxed_expr, swizzle_expr,
    swizzle_opt_expr,
};
use crate::texture_calls::type_specs::{full_type_swizzled, swizzle_full_type};

verus! {

/// `b` is the loop condition `a` after the pass.
pub open spec fn condition_swizzled(a: Condition, b: Condition) -> bool {
    match a {
        Condition::Expr(e) => b matches Condition::Expr(e2) && expr_swizzled(*e, *e2),
        Condition::Assignment(t, name, init) => b matches Condition::Assignment(t2, name2, init2)
            && full_type_swizzled(t, t2) && name2 == name && initializer_swizzled(init, init2),
    }
}

/// `b` is the optional loop condition `a` after the pass.
pub open spec fn opt_condition_swizzled(a: Option<Condition>, b: Option<Condition>) -> bool {
    match a {
        Some(c) => b matches Some(c2) && condition_swizzled(c, c2),
        None => b is None,
    }
}

/// `b` is the first clause of a `for` `a` after the pass.
pub open spec fn for_init_swizzled(a: ForInitStatement, b: ForInitStatement) -> bool {
    match a {
        ForInitStatement::Expression(e) => b matches ForInitStatement::Expression(e2)
            && opt_expr_swizzled(e, e2),
        ForInitStatement::Declaration(d) => b matches ForInitStatement::Declaration(d2)
            && declaration_swizzled(*d, *d2),
    }
}

/// `b` is the second and third clause of a `for` `a` after the pass.
pub open spec fn for_rest_swizzled(a: ForRestStatement, b: ForRestStatement) -> bool {
    &&& opt_condition_swizzled(a.condition, b.condition)
    &&& boxed_expr_swizzled(a.post_expr, b.post_expr)
}

/// `b` is the case label `a` after the pass.
pub open spec fn case_label_swizzled(a: CaseLabel, b: CaseLabel) -> bool {
    match a {
        CaseLabel::Case(e) => b matches CaseLabel::Case(e2) && expr_swizzled(*e, *e2),
        CaseLabel::Def => b is Def,
    }
}

/// `b` is the jump `a` after the pass.
pub open spec fn jump_swizzled(a: JumpStatement, b: JumpStatement) -> bool {
    match a {
        JumpStatement::Return(e) => b matches JumpStatement::Return(e2) && boxed_expr_swizzled(
            e,
            e2,
        ),
        _ => b == a,
    }
}

/// `b` is the statement list `a`, each statement rewritten.
pub open spec fn statements_swizzled(a: Vec<Statement>, b: Vec<Statement>) -> bool
    decreases a,
{
    &&& b@.len() == a@.len()
    &&& forall|i: int| 0 <= i < a@.len() ==> statement_swizzled(a@[i], #[trigger] b@[i])
}

/// `b` is the statement `a` after the pass.
pub open spec fn statement_swizzled(a: Statement, b: Statement) -> bool
    decreases a,
{
    match a {
        Statement::Compound(c) => b matches Statement::Compound(c2) && compound_swizzled(*c, *c2),
        Statement::Simple(s) => b matches Statement::Simple(s2) && simple_swizzled(*s, *s2),
    }
}

/// `b` is the block `a` after the pass.
pub open spec fn compound_swizzled(a: CompoundStatement, b: CompoundStatement) -> bool
    decreases a,
{
    statements_swizzled(a.statement_list, b.statement_list)
}

/// `b` is the simple statement `a` after the pass.
pub open spec fn simple_swizzled(a: SimpleStatement, b: SimpleStatement) -> bool
    decreases a,
{
    match a {
        SimpleStatement::Declaration(d) => b matches SimpleStatement::Declaration(d2)
            && declaration_swizzled(d, d2),
        SimpleStatement::Expression(e) => b matches SimpleStatement::Expression(e2)
            && opt_expr_swizzled(e, e2),
        SimpleStatement::Selection(s) => b matches SimpleStatement::Selection(s2)
            && selection_swizzled(s, s2),
        SimpleStatement::Switch(s) => b matches SimpleStatement::Switch(s2) && switch_swizzled(
            s,
            s2,
        ),
        SimpleStatement::CaseLabel(l) => b matches SimpleStatement::CaseLabel(l2)
            && case_label_swizzled(l, l2),
        SimpleStatement::Iteration(i) => b matches SimpleStatement::Iteration(i2)
            && iteration_swizzled(i, i2),
        SimpleStatement::Jump(j) => b matches SimpleStatement::Jump(j2) && jump_swizzled(j, j2),
    }
}

/// `b` is the `if` statement `a` after the pass.
pub open spec fn selection_swizzled(a: SelectionStatement, b: SelectionStatement) -> bool
    decreases a,
{
    &&& expr_swizzled(*a.cond, *b.cond)
    &&& selection_rest_swizzled(a.rest, b.rest)
}

/// `b` is the branches of an `if` `a` after the pass.
pub open spec fn selection_rest_swizzled(a: SelectionRestStatement, b: SelectionRestStatement) -> bool
    decreases a,
{
    match a {
        SelectionRestStatement::Statement(s) => b matches SelectionRestStatement::Statement(s2)
            && statement_swizzled(*s, *s2),
        SelectionRestStatement::Else(s, t) => b matches SelectionRestStatement::Else(s2, t2)
            && statement_swizzled(*s, *s2) && statement_swizzled(*t, *t2),
    }
}

/// `b` is the `switch` statement `a` after the pass.
pub open spec fn switch_swizzled(a: SwitchStatement, b: SwitchStatement) -> bool
    decreases a,
{
    &&& expr_swizzled(*a.head, *b.head)
    &&& statements_swizzled(a.body, b.body)
}

/// `b` is the loop `a` after the pass.
pub open spec fn iteration_swizzled(a: IterationStatement, b: IterationStatement) -> bool
    decreases a,
{
    match a {
        IterationStatement::While(c, s) => b matches IterationStatement::While(c2, s2)
            && condition_swizzled(c, c2) && statement_swizzled(*s, *s2),
        IterationStatement::DoWhile(s, e) => b matches IterationStatement::DoWhile(s2, e2)
            && statement_swizzled(*s, *s2) && expr_swizzled(*e, *e2),
        IterationStatement::For(i, r, s) => b matches IterationStatement::For(i2, r2, s2)
            && for_init_swizzled(i, i2) && for_rest_swizzled(r, r2) && statement_swizzled(
            *s,
            *s2,
        ),
    }
}

/// `b` is the function definition `a` after the pass.
pub open spec fn function_swizzled(a: FunctionDefinition, b: FunctionDefinition) -> bool {
    &&& prototype_swizzled(a.prototype, b.prototype)
    &&& compound_swizzled(a.statement, b.statement)
}

/// `b` is the top-level item `a` after the pass.
pub open spec fn external_swizzled(a: ExternalDeclaration, b: ExternalDeclaration) -> bool {
    match a {
        ExternalDeclaration::Preprocessor(_) => b == a,
        ExternalDeclaration::FunctionDefinition(f) => b matches ExternalDeclaration::FunctionDefinition(
            f2,
        ) && function_swizzled(f, f2),
        ExternalDeclaration::Declaration(d) => b matches ExternalDeclaration::Declaration(d2)
            && declaration_swizzled(d, d2),
    }
}

/// `b` is the shader `a` after the first pass.
pub open spec fn unit_swizzled(a: TranslationUnit, b: TranslationUnit) -> bool {
    &&& b.0.0@.len() == a.0.0@.len()
    &&& forall|i: int| 0 <= i < a.0.0@.len() ==> external_swizzled(a.0.0@[i], #[trigger] b.0.0@[i])
}

/// Rewrites a loop condition.
pub fn swizzle_condition(cond: Condition) -> (r: Condition)
    ensures
        condition_swizzled(cond, r),
{
    match cond {
        Condition::Expr(e) => Condition::Expr(Box::new(swizzle_expr(*e))),
        Condition::Assignment(t, name, init) => Condition::Assignment(
            swizzle_full_type(t),
            name,
            swizzle_initializer(init),
        ),
    }
}

/// Rewrites an optional loop condition.
pub fn swizzle_opt_condition(cond: Option<Condition>) -> (r: Option<Condition>)
    ensures
        opt_condition_swizzled(cond, r),
{
    match cond {
        Some(c) => Some(swizzle_condition(c)),
        None => None,
    }
}

/// Rewrites a first clause of a `for`.
pub fn swizzle_for_init(init: ForInitStatement) -> (r: ForInitStatement)
    ensures
        for_init_swizzled(init, r),
{
    match init {
        ForInitStatement::Expression(e) => ForInitStatement::Expression(swizzle_opt_expr(e)),
        ForInitStatement::Declaration(d) => ForInitStatement::Declaration(
            Box::new(swizzle_declaration(*d)),
        ),
    }
}

/// Rewrites a second and third clause of a `for`.
pub fn swizzle_for_rest(rest: ForRestStatement) -> (r: ForRestStatement)
    ensures
        for_rest_swizzled(rest, r),
{
    let ForRestStatement { condition, post_expr } = rest;
    ForRestStatement {
        condition: swizzle_opt_condition(condition),
        post_expr: swizzle_boxed_expr(post_expr),
    }
}

/// Rewrites a case label.
pub fn swizzle_case_label(label: CaseLabel) -> (r: CaseLabel)
    ensures
        case_label_swizzled(label, r),
{
    match label {
        CaseLabel::Case(e) => CaseLabel::Case(Box::new(swizzle_expr(*e))),
        CaseLabel::Def => CaseLabel::Def,
    }
}

/// Rewrites a jump.
pub fn swizzle_jump(jump: JumpStatement) -> (r: JumpStatement)
    ensures
        jump_swizzled(jump, r),
{
    match jump {
        JumpStatement::Return(e) => JumpStatement::Return(swizzle_boxed_expr(e)),
        other => other,
    }
}

/// Rewrites a statement list.
pub fn swizzle_statements(v: Vec<Statement>) -> (r: Vec<Statement>)
    ensures
        statements_swizzled(v, r),
    decreases v,
{
    let mut out: Vec<Statement> = Vec::new();
    for x in it: v.into_iter()
        invariant
            it.seq() == v@,
            out@.len() == it.index(),
            forall|j: int| 0 <= j < out@.len() ==> statement_swizzled(v@[j], #[trigger] out@[j]),
    {
        let y = swizzle_statement(x);
        out.push(y);
    }
    out
}

/// Rewrites a statement.
pub fn swizzle_statement(stmt: Statement) -> (r: Statement)
    ensures
        statement_swizzled(stmt, r),
    decreases stmt,
{
    match stmt {
        Statement::Compound(c) => Statement::Compound(Box::new(swizzle_compound(*c))),
        Statement::Simple(s) => Statement::Simple(Box::new(swizzle_simple(*s))),
    }
}

/// Rewrites a block.
pub fn swizzle_compound(block: CompoundStatement) -> (r: CompoundStatement)
    ensures
        compound_swizzled(block, r),
    decreases block,
{
    let CompoundStatement { statement_list } = block;
    CompoundStatement { statement_list: swizzle_statements(statement_list) }
}

/// Rewrites a simple statement.
pub fn swizzle_simple(stmt: SimpleStatement) -> (r: SimpleStatement)
    ensures
        simple_swizzled(stmt, r),
    decreases stmt,
{
    match stmt {
        SimpleStatement::Declaration(d) => SimpleStatement::Declaration(swizzle_declaration(d)),
        SimpleStatement::Expression(e) => SimpleStatement::Expression(swizzle_opt_expr(e)),
        SimpleStatement::Selection(s) => SimpleStatement::Selection(swizzle_selection(s)),
        SimpleStatement::Switch(s) => SimpleStatement::Switch(swizzle_switch(s)),
        SimpleStatement::CaseLabel(l) => SimpleStatement::CaseLabel(swizzle_case_label(l)),
        SimpleStatement::Iteration(i) => SimpleStatement::Iteration(swizzle_iteration(i)),
        SimpleStatement::Jump(j) => SimpleStatement::Jump(swizzle_jump(j)),
    }
}

/// Rewrites an `if` statement.
pub fn swizzle_selection(sel: SelectionStatement) -> (r: SelectionStatement)
    ensures
        selection_swizzled(sel, r),
    decreases sel,
{
    let SelectionStatement { cond, rest } = sel;
    SelectionStatement { cond: Box::new(swizzle_expr(*cond)), rest: swizzle_selection_rest(rest) }
}

/// Rewrites a branches of an `if`.
pub fn swizzle_selection_rest(rest: SelectionRestStatement) -> (r: SelectionRestStatement)
    ensures
        selection_rest_swizzled(rest, r),
    decreases rest,
{
    match rest {
        SelectionRestStatement::Statement(s) => SelectionRestStatement::Statement(
            Box::new(swizzle_statement(*s)),
        ),
        SelectionRestStatement::Else(s, t) => SelectionRestStatement::Else(
            Box::new(swizzle_statement(*s)),
            Box::new(swizzle_statement(*t)),
        ),
    }
}

/// Rewrites a `switch` statement.
pub fn swizzle_switch(sw: SwitchStatement) -> (r: SwitchStatement)
    ensures
        switch_swizzled(sw, r),
    decreases sw,
{
    let SwitchStatement { head, body } = sw;
    SwitchStatement { head: Box::new(swizzle_expr(*head)), body: swizzle_statements(body) }
}

/// Rewrites a loop.
pub fn swizzle_iteration(iter: IterationStatement) -> (r: IterationStatement)
    ensures
        iteration_swizzled(iter, r),
    decreases iter,
{
    match iter {
        IterationStatement::While(c, s) => IterationStatement::While(
            swizzle_condition(c),
            Box::new(swizzle_statement(*s)),
        ),
        IterationStatement::DoWhile(s, e) => IterationStatement::DoWhile(
            Box::new(swizzle_statement(*s)),
            Box::new(swizzle_expr(*e)),
        ),
        IterationStatement::For(i, r, s) => IterationStatement::For(
            swizzle_for_init(i),
            swizzle_for_rest(r),
            Box::new(swizzle_statement(*s)),
        ),
    }
}

/// Rewrites a function definition.
pub fn swizzle_function(def: FunctionDefinition) -> (r: FunctionDefinition)
    ensures
        function_swizzled(def, r),
{
    let FunctionDefinition { prototype, statement } = def;
    FunctionDefinition {
        prototype: swizzle_prototype(prototype),
        statement: swizzle_compound(statement),
    }
}

/// Rewrites a top-level item.
pub fn swizzle_external(decl: ExternalDeclaration) -> (r: ExternalDeclaration)
    ensures
        external_swizzled(decl, r),
{
    match decl {
        ExternalDeclaration::Preprocessor(p) => ExternalDeclaration::Preprocessor(p),
        ExternalDeclaration::FunctionDefinition(f) => ExternalDeclaration::FunctionDefinition(
            swizzle_function(f),
        ),
        ExternalDeclaration::Declaration(d) => ExternalDeclaration::Declaration(
            swizzle_declaration(d),
        ),
    }
}

/// Rewrites a shader.
pub fn swizzle_unit(unit: TranslationUnit) -> (r: TranslationUnit)
    ensures
        unit_swizzled(unit, r),
{
    let TranslationUnit(NonEmpty(v)) = unit;
    let mut out: Vec<ExternalDeclaration> = Vec::new();
    for x in it: v.into_iter()
        invariant
            it.seq() == v@,
            out@.len() == it.index(),
            forall|j: int| 0 <= j < out@.len() ==> external_swizzled(v@[j], #[trigger] out@[j]),
    {
        let y = swizzle_external(x);
        out.push(y);
    }
    TranslationUnit(NonEmpty(out))
}

} // verus!
