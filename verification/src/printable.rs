//! Which trees the printer can print.
//!
//! The printer writes the first element of four kinds of list without asking
//! whether there is one: the qualifiers of a type, the arguments of a
//! `layout`, the names of a struct field, and the items of an initializer
//! list. The parser builds the second and the fourth from sources such as
//! `layout()` and `= {}`. A tree is printable when none of these lists in it
//! is empty; expressions hold none of them.

use vstd::prelude::*;
use glsl::syntax::{
    Block, CompoundStatement, Condition, Declaration, ExternalDeclaration, ForInitStatement,
    ForRestStatement, FullySpecifiedType, FunctionDefinition, FunctionParameterDeclaration,
    FunctionPrototype, InitDeclaratorList, Initializer, IterationStatement,
    SelectionRestStatement, SelectionStatement, SimpleStatement, SingleDeclaration,
    SingleDeclarationNoType, Statement, StructFieldSpecifier, StructSpecifier, SwitchStatement,
    TranslationUnit, TypeQualifier, TypeQualifierSpec, TypeSpecifier, TypeSpecifierNonArray,
};

verus! {

/// A qualifier is printable unless it is a `layout` without arguments.
pub open spec fn printable_qualifier_spec(q: TypeQualifierSpec) -> bool {
    q matches TypeQualifierSpec::Layout(l) ==> l.ids.0@.len() > 0
}

/// A list of qualifiers is printable when it has a qualifier and each of them
/// is printable.
pub open spec fn printable_qualifier(q: TypeQualifier) -> bool {
    &&& q.qualifiers.0@.len() > 0
    &&& forall|i: int|
        0 <= i < q.qualifiers.0@.len() ==> printable_qualifier_spec(#[trigger] q.qualifiers.0@[i])
}

/// Whether the printer can print the optional list of qualifiers.
pub open spec fn printable_opt_qualifier(q: Option<TypeQualifier>) -> bool {
    q matches Some(x) ==> printable_qualifier(x)
}

/// Whether the printer can print the type.
pub open spec fn printable_type(t: TypeSpecifier) -> bool
    decreases t,
{
    printable_non_array(t.ty)
}

/// Whether the printer can print the element type.
pub open spec fn printable_non_array(t: TypeSpecifierNonArray) -> bool
    decreases t,
{
    t matches TypeSpecifierNonArray::Struct(s) ==> printable_struct(s)
}

/// Whether the printer can print the struct.
pub open spec fn printable_struct(s: StructSpecifier) -> bool
    decreases s,
{
    printable_fields(s.fields.0)
}

/// Each field of the list is printable.
pub open spec fn printable_fields(v: Vec<StructFieldSpecifier>) -> bool
    decreases v,
{
    forall|i: int| 0 <= i < v@.len() ==> printable_field(#[trigger] v@[i])
}

/// A struct field is printable when it names something, and its qualifiers
/// and its type are printable.
pub open spec fn printable_field(f: StructFieldSpecifier) -> bool
    decreases f,
{
    &&& f.identifiers.0@.len() > 0
    &&& printable_opt_qualifier(f.qualifier)
    &&& printable_type(f.ty)
}

/// Whether the printer can print the qualified type.
pub open spec fn printable_full_type(t: FullySpecifiedType) -> bool {
    printable_opt_qualifier(t.qualifier) && printable_type(t.ty)
}

/// An initializer is printable unless it is, or holds, a list without items.
pub open spec fn printable_initializer(i: Initializer) -> bool
    decreases i,
{
    i matches Initializer::List(items) ==> items.0@.len() > 0 && forall|k: int|
        0 <= k < items.0@.len() ==> printable_initializer(#[trigger] items.0@[k])
}

/// Whether the printer can print the optional initializer.
pub open spec fn printable_opt_initializer(i: Option<Initializer>) -> bool {
    i matches Some(x) ==> printable_initializer(x)
}

/// Whether the printer can print the first declarator.
pub open spec fn printable_single(d: SingleDeclaration) -> bool {
    printable_full_type(d.ty) && printable_opt_initializer(d.initializer)
}

/// Whether the printer can print the further declarator.
pub open spec fn printable_single_no_type(d: SingleDeclarationNoType) -> bool {
    printable_opt_initializer(d.initializer)
}

/// Whether the printer can print the variable declaration.
pub open spec fn printable_init_list(l: InitDeclaratorList) -> bool {
    &&& printable_single(l.head)
    &&& forall|i: int| 0 <= i < l.tail@.len() ==> printable_single_no_type(#[trigger] l.tail@[i])
}

/// Whether the printer can print the parameter.
pub open spec fn printable_parameter(p: FunctionParameterDeclaration) -> bool {
    match p {
        FunctionParameterDeclaration::Named(q, d) => printable_opt_qualifier(q) && printable_type(
            d.ty,
        ),
        FunctionParameterDeclaration::Unnamed(q, t) => printable_opt_qualifier(q)
            && printable_type(t),
    }
}

/// Whether the printer can print the function prototype.
pub open spec fn printable_prototype(p: FunctionPrototype) -> bool {
    &&& printable_full_type(p.ty)
    &&& forall|i: int|
        0 <= i < p.parameters@.len() ==> printable_parameter(#[trigger] p.parameters@[i])
}

/// Whether the printer can print the interface block.
pub open spec fn printable_block(b: Block) -> bool {
    printable_qualifier(b.qualifier) && printable_fields(b.fields)
}

/// Whether the printer can print the declaration.
pub open spec fn printable_declaration(d: Declaration) -> bool {
    match d {
        Declaration::FunctionPrototype(p) => printable_prototype(p),
        Declaration::InitDeclaratorList(l) => printable_init_list(l),
        Declaration::Precision(_, t) => printable_type(t),
        Declaration::Block(b) => printable_block(b),
        Declaration::Global(q, _) => printable_qualifier(q),
    }
}

/// Whether the printer can print the loop condition.
pub open spec fn printable_condition(c: Condition) -> bool {
    c matches Condition::Assignment(t, _, i) ==> printable_full_type(t) && printable_initializer(i)
}

/// Whether the printer can print the first clause of a `for`.
pub open spec fn printable_for_init(i: ForInitStatement) -> bool {
    i matches ForInitStatement::Declaration(d) ==> printable_declaration(*d)
}

/// Whether the printer can print the second and third clause of a `for`.
pub open spec fn printable_for_rest(r: ForRestStatement) -> bool {
    r.condition matches Some(c) ==> printable_condition(c)
}

/// Each statement of the list is printable.
pub open spec fn printable_statements(v: Vec<Statement>) -> bool
    decreases v,
{
    forall|i: int| 0 <= i < v@.len() ==> printable_statement(#[trigger] v@[i])
}

/// Whether the printer can print the statement.
pub open spec fn printable_statement(s: Statement) -> bool
    decreases s,
{
    match s {
        Statement::Compound(c) => printable_compound(*c),
        Statement::Simple(x) => printable_simple(*x),
    }
}

/// Whether the printer can print the block.
pub open spec fn printable_compound(c: CompoundStatement) -> bool
    decreases c,
{
    printable_statements(c.statement_list)
}

/// Whether the printer can print the simple statement.
pub open spec fn printable_simple(s: SimpleStatement) -> bool
    decreases s,
{
    match s {
        SimpleStatement::Declaration(d) => printable_declaration(d),
        SimpleStatement::Selection(x) => printable_selection(x),
        SimpleStatement::Switch(x) => printable_switch(x),
        SimpleStatement::Iteration(x) => printable_iteration(x),
        _ => true,
    }
}

/// Whether the printer can print the `if` statement.
pub open spec fn printable_selection(s: SelectionStatement) -> bool
    decreases s,
{
    match s.rest {
        SelectionRestStatement::Statement(t) => printable_statement(*t),
        SelectionRestStatement::Else(t, e) => printable_statement(*t) && printable_statement(*e),
    }
}

/// Whether the printer can print the `switch` statement.
pub open spec fn printable_switch(s: SwitchStatement) -> bool
    decreases s,
{
    printable_statements(s.body)
}

/// Whether the printer can print the loop.
pub open spec fn printable_iteration(i: IterationStatement) -> bool
    decreases i,
{
    match i {
        IterationStatement::While(c, s) => printable_condition(c) && printable_statement(*s),
        IterationStatement::DoWhile(s, _) => printable_statement(*s),
        IterationStatement::For(i, r, s) => printable_for_init(i) && printable_for_rest(r)
            && printable_statement(*s),
    }
}

/// Whether the printer can print the function definition.
pub open spec fn printable_function(f: FunctionDefinition) -> bool {
    printable_prototype(f.prototype) && printable_compound(f.statement)
}

/// Whether the printer can print the top-level item.
pub open spec fn printable_external(d: ExternalDeclaration) -> bool {
    match d {
        ExternalDeclaration::Preprocessor(_) => true,
        ExternalDeclaration::FunctionDefinition(f) => printable_function(f),
        ExternalDeclaration::Declaration(x) => printable_declaration(x),
    }
}

/// A shader is printable when each of its items is.
pub open spec fn printable(unit: TranslationUnit) -> bool {
    forall|i: int| 0 <= i < unit.0.0@.len() ==> printable_external(#[trigger] unit.0.0@[i])
}

/// Whether the printer can print the list of qualifiers.
pub fn can_print_qualifier(q: &TypeQualifier) -> (r: bool)
    ensures
        r == printable_qualifier(*q),
{
    let n = q.qualifiers.0.len();
    if n == 0 {
        return false;
    }
    for i in 0..n
        invariant
            n == q.qualifiers.0@.len(),
            forall|j: int| 0 <= j < i ==> printable_qualifier_spec(#[trigger] q.qualifiers.0@[j]),
    {
        match &q.qualifiers.0[i] {
            TypeQualifierSpec::Layout(l) => {
                if l.ids.0.len() == 0 {
                    return false;
                }
            },
            _ => {},
        }
    }
    true
}

/// Whether the printer can print the optional list of qualifiers.
pub fn can_print_opt_qualifier(q: &Option<TypeQualifier>) -> (r: bool)
    ensures
        r == printable_opt_qualifier(*q),
{
    match q {
        Some(x) => can_print_qualifier(x),
        None => true,
    }
}

/// Whether the printer can print the type.
pub fn can_print_type(t: &TypeSpecifier) -> (r: bool)
    ensures
        r == printable_type(*t),
    decreases *t,
{
    match &t.ty {
        TypeSpecifierNonArray::Struct(s) => can_print_fields(&s.fields.0),
        _ => true,
    }
}

/// Whether the printer can print the list of struct fields.
pub fn can_print_fields(v: &Vec<StructFieldSpecifier>) -> (r: bool)
    ensures
        r == printable_fields(*v),
    decreases *v,
{
    let n = v.len();
    for i in 0..n
        invariant
            n == v@.len(),
            forall|j: int| 0 <= j < i ==> printable_field(#[trigger] v@[j]),
    {
        if !can_print_field(&v[i]) {
            return false;
        }
    }
    true
}

/// Whether the printer can print the struct field.
pub fn can_print_field(f: &StructFieldSpecifier) -> (r: bool)
    ensures
        r == printable_field(*f),
    decreases *f,
{
    f.identifiers.0.len() > 0 && can_print_opt_qualifier(&f.qualifier) && can_print_type(&f.ty)
}

/// Whether the printer can print the qualified type.
pub fn can_print_full_type(t: &FullySpecifiedType) -> (r: bool)
    ensures
        r == printable_full_type(*t),
{
    can_print_opt_qualifier(&t.qualifier) && can_print_type(&t.ty)
}

/// Whether the printer can print the initializer.
pub fn can_print_initializer(i: &Initializer) -> (r: bool)
    ensures
        r == printable_initializer(*i),
    decreases *i,
{
    match i {
        Initializer::Simple(_) => true,
        Initializer::List(items) => {
            let n = items.0.len();
            if n == 0 {
                return false;
            }
            for k in 0..n
                invariant
                    *i matches Initializer::List(l) && l == *items,
                    n == items.0@.len(),
                    forall|j: int| 0 <= j < k ==> printable_initializer(#[trigger] items.0@[j]),
            {
                if !can_print_initializer(&items.0[k]) {
                    return false;
                }
            }
            true
        },
    }
}

/// Whether the printer can print the optional initializer.
pub fn can_print_opt_initializer(i: &Option<Initializer>) -> (r: bool)
    ensures
        r == printable_opt_initializer(*i),
{
    match i {
        Some(x) => can_print_initializer(x),
        None => true,
    }
}

/// Whether the printer can print the first declarator.
pub fn can_print_single(d: &SingleDeclaration) -> (r: bool)
    ensures
        r == printable_single(*d),
{
    can_print_full_type(&d.ty) && can_print_opt_initializer(&d.initializer)
}

/// Whether the printer can print the variable declaration.
pub fn can_print_init_list(l: &InitDeclaratorList) -> (r: bool)
    ensures
        r == printable_init_list(*l),
{
    if !can_print_single(&l.head) {
        return false;
    }
    let n = l.tail.len();
    for i in 0..n
        invariant
            n == l.tail@.len(),
            forall|j: int| 0 <= j < i ==> printable_single_no_type(#[trigger] l.tail@[j]),
    {
        if !can_print_opt_initializer(&l.tail[i].initializer) {
            return false;
        }
    }
    true
}

/// Whether the printer can print the parameter.
pub fn can_print_parameter(p: &FunctionParameterDeclaration) -> (r: bool)
    ensures
        r == printable_parameter(*p),
{
    match p {
        FunctionParameterDeclaration::Named(q, d) => can_print_opt_qualifier(q) && can_print_type(
            &d.ty,
        ),
        FunctionParameterDeclaration::Unnamed(q, t) => can_print_opt_qualifier(q)
            && can_print_type(t),
    }
}

/// Whether the printer can print the function prototype.
pub fn can_print_prototype(p: &FunctionPrototype) -> (r: bool)
    ensures
        r == printable_prototype(*p),
{
    if !can_print_full_type(&p.ty) {
        return false;
    }
    let n = p.parameters.len();
    for i in 0..n
        invariant
            n == p.parameters@.len(),
            forall|j: int| 0 <= j < i ==> printable_parameter(#[trigger] p.parameters@[j]),
    {
        if !can_print_parameter(&p.parameters[i]) {
            return false;
        }
    }
    true
}

/// Whether the printer can print the interface block.
pub fn can_print_block(b: &Block) -> (r: bool)
    ensures
        r == printable_block(*b),
{
    can_print_qualifier(&b.qualifier) && can_print_fields(&b.fields)
}

/// Whether the printer can print the declaration.
pub fn can_print_declaration(d: &Declaration) -> (r: bool)
    ensures
        r == printable_declaration(*d),
{
    match d {
        Declaration::FunctionPrototype(p) => can_print_prototype(p),
        Declaration::InitDeclaratorList(l) => can_print_init_list(l),
        Declaration::Precision(_, t) => can_print_type(t),
        Declaration::Block(b) => can_print_block(b),
        Declaration::Global(q, _) => can_print_qualifier(q),
    }
}

/// Whether the printer can print the loop condition.
pub fn can_print_condition(c: &Condition) -> (r: bool)
    ensures
        r == printable_condition(*c),
{
    match c {
        Condition::Expr(_) => true,
        Condition::Assignment(t, _, i) => can_print_full_type(t) && can_print_initializer(i),
    }
}

/// Whether the printer can print the statement list.
pub fn can_print_statements(v: &Vec<Statement>) -> (r: bool)
    ensures
        r == printable_statements(*v),
    decreases *v,
{
    let n = v.len();
    for i in 0..n
        invariant
            n == v@.len(),
            forall|j: int| 0 <= j < i ==> printable_statement(#[trigger] v@[j]),
    {
        if !can_print_statement(&v[i]) {
            return false;
        }
    }
    true
}

/// Whether the printer can print the statement.
pub fn can_print_statement(s: &Statement) -> (r: bool)
    ensures
        r == printable_statement(*s),
    decreases *s,
{
    match s {
        Statement::Compound(c) => can_print_statements(&c.statement_list),
        Statement::Simple(x) => can_print_simple(x),
    }
}

/// Whether the printer can print the simple statement.
pub fn can_print_simple(s: &SimpleStatement) -> (r: bool)
    ensures
        r == printable_simple(*s),
    decreases *s,
{
    match s {
        SimpleStatement::Declaration(d) => can_print_declaration(d),
        SimpleStatement::Selection(x) => match &x.rest {
            SelectionRestStatement::Statement(t) => can_print_statement(t),
            SelectionRestStatement::Else(t, e) => can_print_statement(t) && can_print_statement(e),
        },
        SimpleStatement::Switch(x) => can_print_statements(&x.body),
        SimpleStatement::Iteration(x) => match x {
            IterationStatement::While(c, b) => can_print_condition(c) && can_print_statement(b),
            IterationStatement::DoWhile(b, _) => can_print_statement(b),
            IterationStatement::For(i, r, b) => {
                let init = match i {
                    ForInitStatement::Declaration(d) => can_print_declaration(d),
                    _ => true,
                };
                let rest = match &r.condition {
                    Some(c) => can_print_condition(c),
                    None => true,
                };
                init && rest && can_print_statement(b)
            },
        },
        _ => true,
    }
}

/// Whether the printer can print the top-level item.
pub fn can_print_external(d: &ExternalDeclaration) -> (r: bool)
    ensures
        r == printable_external(*d),
{
    match d {
        ExternalDeclaration::Preprocessor(_) => true,
        ExternalDeclaration::FunctionDefinition(f) => can_print_prototype(&f.prototype)
            && can_print_statements(&f.statement.statement_list),
        ExternalDeclaration::Declaration(x) => can_print_declaration(x),
    }
}

/// Whether the printer can print the shader.
pub fn can_print(unit: &TranslationUnit) -> (r: bool)
    ensures
        r == printable(*unit),
{
    let n = unit.0.0.len();
    for i in 0..n
        invariant
            n == unit.0.0@.len(),
            forall|j: int| 0 <= j < i ==> printable_external(#[trigger] unit.0.0@[j]),
    {
        if !can_print_external(&unit.0.0[i]) {
            return false;
        }
    }
    true
}

} // verus!
