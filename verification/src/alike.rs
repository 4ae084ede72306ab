//! When two trees are alike: equal part for part, where lists count by what
//! they hold and the names that a pass writes count by their text. Two trees
//! that are alike print alike.

use vstd::prelude::*;
use glsl::syntax::{
    ArrayedIdentifier, ArraySpecifier, ArraySpecifierDimension, Block, CaseLabel,
    CompoundStatement, Condition, Declaration, Expr, ExternalDeclaration, ForInitStatement,
    ForRestStatement, FullySpecifiedType, FunctionDefinition, FunctionParameterDeclaration,
    FunctionParameterDeclarator, FunctionPrototype, InitDeclaratorList, Initializer,
    IterationStatement, JumpStatement, LayoutQualifier, LayoutQualifierSpec,
    SelectionRestStatement, SelectionStatement, SimpleStatement, SingleDeclaration,
    SingleDeclarationNoType, Statement, StructFieldSpecifier, StructSpecifier, SwitchStatement,
    TranslationUnit, TypeQualifier, TypeQualifierSpec, TypeSpecifier, TypeSpecifierNonArray,
};

verus! {

/// Two argument lists are alike when they are as long and alike item by item.
pub open spec fn args_alike(a: Vec<Expr>, b: Vec<Expr>) -> bool
    decreases a,
{
    a == b || {
        &&& b@.len() == a@.len()
        &&& forall|i: int| 0 <= i < a@.len() ==> expr_alike(a@[i], #[trigger] b@[i])
    }
}

/// Two expressions are alike when they are equal, or built alike from parts
/// that are alike; a name counts by its text.
pub open spec fn expr_alike(a: Expr, b: Expr) -> bool
    decreases a,
{
    a == b || match a {
        Expr::Variable(name) => b matches Expr::Variable(name2) && name2.0@ == name.0@,
        Expr::FunCall(id, args) => b matches Expr::FunCall(id2, args2) && id2 == id
            && args_alike(args, args2),
        Expr::Unary(op, e) => b matches Expr::Unary(op2, e2) && op2 == op && expr_alike(*e, *e2),
        Expr::Binary(op, l, r) => b matches Expr::Binary(op2, l2, r2) && op2 == op && expr_alike(
            *l,
            *l2,
        ) && expr_alike(*r, *r2),
        Expr::Ternary(c, t, f) => b matches Expr::Ternary(c2, t2, f2) && expr_alike(*c, *c2)
            && expr_alike(*t, *t2) && expr_alike(*f, *f2),
        Expr::Assignment(l, op, r) => b matches Expr::Assignment(l2, op2, r2) && op2 == op
            && expr_alike(*l, *l2) && expr_alike(*r, *r2),
        Expr::Bracket(e, spec) => b matches Expr::Bracket(e2, spec2) && expr_alike(*e, *e2)
            && array_spec_alike(spec, spec2),
        Expr::Dot(e, field) => b matches Expr::Dot(e2, field2) && field2.0@ == field.0@
            && expr_alike(*e, *e2),
        Expr::PostInc(e) => b matches Expr::PostInc(e2) && expr_alike(*e, *e2),
        Expr::PostDec(e) => b matches Expr::PostDec(e2) && expr_alike(*e, *e2),
        Expr::Comma(l, r) => b matches Expr::Comma(l2, r2) && expr_alike(*l, *l2) && expr_alike(
            *r,
            *r2,
        ),
        _ => false,
    }
}

/// Whether two optional expressions are alike.
pub open spec fn boxed_expr_alike(a: Option<Box<Expr>>, b: Option<Box<Expr>>) -> bool
    decreases a,
{
    a == b || (a matches Some(e) && b matches Some(e2) && expr_alike(*e, *e2))
}

/// Whether two optional expressions are alike.
pub open spec fn opt_expr_alike(a: Option<Expr>, b: Option<Expr>) -> bool
    decreases a,
{
    a == b || (a matches Some(e) && b matches Some(e2) && expr_alike(e, e2))
}

/// Whether two array sizes are alike.
pub open spec fn dimension_alike(a: ArraySpecifierDimension, b: ArraySpecifierDimension) -> bool
    decreases a,
{
    a == b || (a matches ArraySpecifierDimension::ExplicitlySized(e)
        && b matches ArraySpecifierDimension::ExplicitlySized(e2) && expr_alike(*e, *e2))
}

/// Whether two array specifiers are alike.
pub open spec fn array_spec_alike(a: ArraySpecifier, b: ArraySpecifier) -> bool
    decreases a,
{
    a == b || {
        &&& b.dimensions.0@.len() == a.dimensions.0@.len()
        &&& forall|i: int|
            0 <= i < a.dimensions.0@.len() ==> dimension_alike(
                a.dimensions.0@[i],
                #[trigger] b.dimensions.0@[i],
            )
    }
}

/// Whether two optional array specifiers are alike.
pub open spec fn opt_array_spec_alike(a: Option<ArraySpecifier>, b: Option<ArraySpecifier>) -> bool
    decreases a,
{
    a == b || (a matches Some(s) && b matches Some(s2) && array_spec_alike(s, s2))
}

/// Whether two layout arguments are alike.
pub open spec fn layout_spec_alike(a: LayoutQualifierSpec, b: LayoutQualifierSpec) -> bool
    decreases a,
{
    a == b || {
        match a {
            LayoutQualifierSpec::Identifier(name, value) => b matches LayoutQualifierSpec::Identifier(
                name2,
                value2,
            ) && name2 == name && boxed_expr_alike(value, value2),
            LayoutQualifierSpec::Shared => b is Shared,
        }
    }
}

/// Whether two layout qualifiers are alike.
pub open spec fn layout_alike(a: LayoutQualifier, b: LayoutQualifier) -> bool
    decreases a,
{
    a == b || {
        &&& b.ids.0@.len() == a.ids.0@.len()
        &&& forall|i: int|
            0 <= i < a.ids.0@.len() ==> layout_spec_alike(a.ids.0@[i], #[trigger] b.ids.0@[i])
    }
}

/// Whether two qualifiers are alike.
pub open spec fn qualifier_spec_alike(a: TypeQualifierSpec, b: TypeQualifierSpec) -> bool
    decreases a,
{
    a == b || {
        match a {
            TypeQualifierSpec::Layout(l) => b matches TypeQualifierSpec::Layout(l2) && layout_alike(
                l,
                l2,
            ),
            _ => b == a,
        }
    }
}

/// Whether two lists of qualifiers are alike.
pub open spec fn qualifier_alike(a: TypeQualifier, b: TypeQualifier) -> bool
    decreases a,
{
    a == b || {
        &&& b.qualifiers.0@.len() == a.qualifiers.0@.len()
        &&& forall|i: int|
            0 <= i < a.qualifiers.0@.len() ==> qualifier_spec_alike(
                a.qualifiers.0@[i],
                #[trigger] b.qualifiers.0@[i],
            )
    }
}

/// Whether two optional list of qualifierss are alike.
pub open spec fn opt_qualifier_alike(a: Option<TypeQualifier>, b: Option<TypeQualifier>) -> bool
    decreases a,
{
    a == b || {
        match a {
            Some(q) => b matches Some(q2) && qualifier_alike(q, q2),
            None => b is None,
        }
    }
}

/// Whether two declared names are alike.
pub open spec fn arrayed_identifier_alike(a: ArrayedIdentifier, b: ArrayedIdentifier) -> bool
    decreases a,
{
    a == b || {
        &&& b.ident == a.ident
        &&& opt_array_spec_alike(a.array_spec, b.array_spec)
    }
}

/// Whether two optional declared names are alike.
pub open spec fn opt_arrayed_identifier_alike(a: Option<ArrayedIdentifier>, b: Option<ArrayedIdentifier>) -> bool
    decreases a,
{
    a == b || {
        match a {
            Some(i) => b matches Some(i2) && arrayed_identifier_alike(i, i2),
            None => b is None,
        }
    }
}

/// Whether two types are alike.
pub open spec fn type_specifier_alike(a: TypeSpecifier, b: TypeSpecifier) -> bool
    decreases a,
{
    a == b || {
        &&& non_array_alike(a.ty, b.ty)
        &&& opt_array_spec_alike(a.array_specifier, b.array_specifier)
    }
}

/// Whether two element types are alike.
pub open spec fn non_array_alike(a: TypeSpecifierNonArray, b: TypeSpecifierNonArray) -> bool
    decreases a,
{
    a == b || {
        match a {
            TypeSpecifierNonArray::Struct(s) => b matches TypeSpecifierNonArray::Struct(s2)
                && struct_alike(s, s2),
            _ => b == a,
        }
    }
}

/// Whether two structs are alike.
pub open spec fn struct_alike(a: StructSpecifier, b: StructSpecifier) -> bool
    decreases a,
{
    a == b || {
        &&& b.name == a.name
        &&& b.fields.0@.len() == a.fields.0@.len()
        &&& forall|i: int|
            0 <= i < a.fields.0@.len() ==> struct_field_alike(
                a.fields.0@[i],
                #[trigger] b.fields.0@[i],
            )
    }
}

/// Whether two struct fields are alike.
pub open spec fn struct_field_alike(a: StructFieldSpecifier, b: StructFieldSpecifier) -> bool
    decreases a,
{
    a == b || {
        &&& opt_qualifier_alike(a.qualifier, b.qualifier)
        &&& type_specifier_alike(a.ty, b.ty)
        &&& b.identifiers.0@.len() == a.identifiers.0@.len()
        &&& forall|i: int|
            0 <= i < a.identifiers.0@.len() ==> arrayed_identifier_alike(
                a.identifiers.0@[i],
                #[trigger] b.identifiers.0@[i],
            )
    }
}

/// Whether two qualified types are alike.
pub open spec fn full_type_alike(a: FullySpecifiedType, b: FullySpecifiedType) -> bool
    decreases a,
{
    a == b || {
        &&& opt_qualifier_alike(a.qualifier, b.qualifier)
        &&& type_specifier_alike(a.ty, b.ty)
    }
}

/// Whether two initializers are alike.
pub open spec fn initializer_alike(a: Initializer, b: Initializer) -> bool
    decreases a,
{
    a == b || {
        match a {
            Initializer::Simple(e) => b matches Initializer::Simple(e2) && expr_alike(*e, *e2),
            Initializer::List(items) => b matches Initializer::List(items2) && items2.0@.len()
                == items.0@.len() && forall|i: int|
                0 <= i < items.0@.len() ==> initializer_alike(items.0@[i], #[trigger] items2.0@[i]),
        }
    }
}

/// Whether two optional initializers are alike.
pub open spec fn opt_initializer_alike(a: Option<Initializer>, b: Option<Initializer>) -> bool
    decreases a,
{
    a == b || {
        match a {
            Some(i) => b matches Some(i2) && initializer_alike(i, i2),
            None => b is None,
        }
    }
}

/// Whether two first declarators are alike.
pub open spec fn single_declaration_alike(a: SingleDeclaration, b: SingleDeclaration) -> bool
    decreases a,
{
    a == b || {
        &&& full_type_alike(a.ty, b.ty)
        &&& b.name == a.name
        &&& opt_array_spec_alike(a.array_specifier, b.array_specifier)
        &&& opt_initializer_alike(a.initializer, b.initializer)
    }
}

/// Whether two further declarators are alike.
pub open spec fn single_no_type_alike(a: SingleDeclarationNoType, b: SingleDeclarationNoType) -> bool
    decreases a,
{
    a == b || {
        &&& arrayed_identifier_alike(a.ident, b.ident)
        &&& opt_initializer_alike(a.initializer, b.initializer)
    }
}

/// Whether two variable declarations are alike.
pub open spec fn init_list_alike(a: InitDeclaratorList, b: InitDeclaratorList) -> bool
    decreases a,
{
    a == b || {
        &&& single_declaration_alike(a.head, b.head)
        &&& b.tail@.len() == a.tail@.len()
        &&& forall|i: int|
            0 <= i < a.tail@.len() ==> single_no_type_alike(a.tail@[i], #[trigger] b.tail@[i])
    }
}

/// Whether two named parameters are alike.
pub open spec fn parameter_declarator_alike(a: FunctionParameterDeclarator, b: FunctionParameterDeclarator) -> bool
    decreases a,
{
    a == b || {
        &&& type_specifier_alike(a.ty, b.ty)
        &&& arrayed_identifier_alike(a.ident, b.ident)
    }
}

/// Whether two parameters are alike.
pub open spec fn parameter_alike(a: FunctionParameterDeclaration, b: FunctionParameterDeclaration) -> bool
    decreases a,
{
    a == b || {
        match a {
            FunctionParameterDeclaration::Named(q, d) => b matches FunctionParameterDeclaration::Named(
                q2,
                d2,
            ) && opt_qualifier_alike(q, q2) && parameter_declarator_alike(d, d2),
            FunctionParameterDeclaration::Unnamed(q, t) => b matches FunctionParameterDeclaration::Unnamed(
                q2,
                t2,
            ) && opt_qualifier_alike(q, q2) && type_specifier_alike(t, t2),
        }
    }
}

/// Whether two function prototypes are alike.
pub open spec fn prototype_alike(a: FunctionPrototype, b: FunctionPrototype) -> bool
    decreases a,
{
    a == b || {
        &&& full_type_alike(a.ty, b.ty)
        &&& b.name == a.name
        &&& b.parameters@.len() == a.parameters@.len()
        &&& forall|i: int|
            0 <= i < a.parameters@.len() ==> parameter_alike(
                a.parameters@[i],
                #[trigger] b.parameters@[i],
            )
    }
}

/// Whether two interface blocks are alike.
pub open spec fn block_alike(a: Block, b: Block) -> bool
    decreases a,
{
    a == b || {
        &&& qualifier_alike(a.qualifier, b.qualifier)
        &&& b.name == a.name
        &&& b.fields@.len() == a.fields@.len()
        &&& forall|i: int|
            0 <= i < a.fields@.len() ==> struct_field_alike(a.fields@[i], #[trigger] b.fields@[i])
        &&& opt_arrayed_identifier_alike(a.identifier, b.identifier)
    }
}

/// Whether two declarations are alike.
pub open spec fn declaration_alike(a: Declaration, b: Declaration) -> bool
    decreases a,
{
    a == b || {
        match a {
            Declaration::FunctionPrototype(p) => b matches Declaration::FunctionPrototype(p2)
                && prototype_alike(p, p2),
            Declaration::InitDeclaratorList(l) => b matches Declaration::InitDeclaratorList(l2)
                && init_list_alike(l, l2),
            Declaration::Precision(p, t) => b matches Declaration::Precision(p2, t2) && p2 == p
                && type_specifier_alike(t, t2),
            Declaration::Block(k) => b matches Declaration::Block(k2) && block_alike(k, k2),
            Declaration::Global(q, names) => b matches Declaration::Global(q2, names2)
                && qualifier_alike(q, q2) && names2 == names,
        }
    }
}

/// Whether two loop conditions are alike.
pub open spec fn condition_alike(a: Condition, b: Condition) -> bool
    decreases a,
{
    a == b || {
        match a {
            Condition::Expr(e) => b matches Condition::Expr(e2) && expr_alike(*e, *e2),
            Condition::Assignment(t, name, init) => b matches Condition::Assignment(t2, name2, init2)
                && full_type_alike(t, t2) && name2 == name && initializer_alike(init, init2),
        }
    }
}

/// Whether two optional loop conditions are alike.
pub open spec fn opt_condition_alike(a: Option<Condition>, b: Option<Condition>) -> bool
    decreases a,
{
    a == b || {
        match a {
            Some(c) => b matches Some(c2) && condition_alike(c, c2),
            None => b is None,
        }
    }
}

/// Whether two first clauses of a `for` are alike.
pub open spec fn for_init_alike(a: ForInitStatement, b: ForInitStatement) -> bool
    decreases a,
{
    a == b || {
        match a {
            ForInitStatement::Expression(e) => b matches ForInitStatement::Expression(e2)
                && opt_expr_alike(e, e2),
            ForInitStatement::Declaration(d) => b matches ForInitStatement::Declaration(d2)
                && declaration_alike(*d, *d2),
        }
    }
}

/// Whether two second and third clauses of a `for` are alike.
pub open spec fn for_rest_alike(a: ForRestStatement, b: ForRestStatement) -> bool
    decreases a,
{
    a == b || {
        &&& opt_condition_alike(a.condition, b.condition)
        &&& boxed_expr_alike(a.post_expr, b.post_expr)
    }
}

/// Whether two case labels are alike.
pub open spec fn case_label_alike(a: CaseLabel, b: CaseLabel) -> bool
    decreases a,
{
    a == b || {
        match a {
            CaseLabel::Case(e) => b matches CaseLabel::Case(e2) && expr_alike(*e, *e2),
            CaseLabel::Def => b is Def,
        }
    }
}

/// Whether two jumps are alike.
pub open spec fn jump_alike(a: JumpStatement, b: JumpStatement) -> bool
    decreases a,
{
    a == b || {
        match a {
            JumpStatement::Return(e) => b matches JumpStatement::Return(e2) && boxed_expr_alike(
                e,
                e2,
            ),
            _ => b == a,
        }
    }
}

/// Whether two statement lists are alike.
pub open spec fn statements_alike(a: Vec<Statement>, b: Vec<Statement>) -> bool
    decreases a,
{
    a == b || {
        &&& b@.len() == a@.len()
        &&& forall|i: int| 0 <= i < a@.len() ==> statement_alike(a@[i], #[trigger] b@[i])
    }
}

/// Whether two statements are alike.
pub open spec fn statement_alike(a: Statement, b: Statement) -> bool
    decreases a,
{
    a == b || {
        match a {
            Statement::Compound(c) => b matches Statement::Compound(c2) && compound_alike(*c, *c2),
            Statement::Simple(s) => b matches Statement::Simple(s2) && simple_alike(*s, *s2),
        }
    }
}

/// Whether two blocks are alike.
pub open spec fn compound_alike(a: CompoundStatement, b: CompoundStatement) -> bool
    decreases a,
{
    a == b || {
        statements_alike(a.statement_list, b.statement_list)
    }
}

/// Whether two simple statements are alike.
pub open spec fn simple_alike(a: SimpleStatement, b: SimpleStatement) -> bool
    decreases a,
{
    a == b || {
        match a {
            SimpleStatement::Declaration(d) => b matches SimpleStatement::Declaration(d2)
                && declaration_alike(d, d2),
            SimpleStatement::Expression(e) => b matches SimpleStatement::Expression(e2)
                && opt_expr_alike(e, e2),
            SimpleStatement::Selection(s) => b matches SimpleStatement::Selection(s2)
                && selection_alike(s, s2),
            SimpleStatement::Switch(s) => b matches SimpleStatement::Switch(s2) && switch_alike(
                s,
                s2,
            ),
            SimpleStatement::CaseLabel(l) => b matches SimpleStatement::CaseLabel(l2)
                && case_label_alike(l, l2),
            SimpleStatement::Iteration(i) => b matches SimpleStatement::Iteration(i2)
                && iteration_alike(i, i2),
            SimpleStatement::Jump(j) => b matches SimpleStatement::Jump(j2) && jump_alike(j, j2),
        }
    }
}

/// Whether two `if` statements are alike.
pub open spec fn selection_alike(a: SelectionStatement, b: SelectionStatement) -> bool
    decreases a,
{
    a == b || {
        &&& expr_alike(*a.cond, *b.cond)
        &&& selection_rest_alike(a.rest, b.rest)
    }
}

/// Whether two pairs of branches of an `if` are alike.
pub open spec fn selection_rest_alike(a: SelectionRestStatement, b: SelectionRestStatement) -> bool
    decreases a,
{
    a == b || {
        match a {
            SelectionRestStatement::Statement(s) => b matches SelectionRestStatement::Statement(s2)
                && statement_alike(*s, *s2),
            SelectionRestStatement::Else(s, t) => b matches SelectionRestStatement::Else(s2, t2)
                && statement_alike(*s, *s2) && statement_alike(*t, *t2),
        }
    }
}

/// Whether two `switch` statements are alike.
pub open spec fn switch_alike(a: SwitchStatement, b: SwitchStatement) -> bool
    decreases a,
{
    a == b || {
        &&& expr_alike(*a.head, *b.head)
        &&& statements_alike(a.body, b.body)
    }
}

/// Whether two loops are alike.
pub open spec fn iteration_alike(a: IterationStatement, b: IterationStatement) -> bool
    decreases a,
{
    a == b || {
        match a {
            IterationStatement::While(c, s) => b matches IterationStatement::While(c2, s2)
                && condition_alike(c, c2) && statement_alike(*s, *s2),
            IterationStatement::DoWhile(s, e) => b matches IterationStatement::DoWhile(s2, e2)
                && statement_alike(*s, *s2) && expr_alike(*e, *e2),
            IterationStatement::For(i, r, s) => b matches IterationStatement::For(i2, r2, s2)
                && for_init_alike(i, i2) && for_rest_alike(r, r2) && statement_alike(
                *s,
                *s2,
            ),
        }
    }
}

/// Whether two function definitions are alike.
pub open spec fn function_alike(a: FunctionDefinition, b: FunctionDefinition) -> bool
    decreases a,
{
    a == b || {
        &&& prototype_alike(a.prototype, b.prototype)
        &&& compound_alike(a.statement, b.statement)
    }
}

/// Whether two top-level items are alike.
pub open spec fn external_alike(a: ExternalDeclaration, b: ExternalDeclaration) -> bool
    decreases a,
{
    a == b || {
        match a {
            ExternalDeclaration::Preprocessor(_) => b == a,
            ExternalDeclaration::FunctionDefinition(f) => b matches ExternalDeclaration::FunctionDefinition(
                f2,
            ) && function_alike(f, f2),
            ExternalDeclaration::Declaration(d) => b matches ExternalDeclaration::Declaration(d2)
                && declaration_alike(d, d2),
        }
    }
}

/// Whether two shaders are alike.
pub open spec fn unit_alike(a: TranslationUnit, b: TranslationUnit) -> bool
    decreases a,
{
    a == b || {
        &&& b.0.0@.len() == a.0.0@.len()
        &&& forall|i: int| 0 <= i < a.0.0@.len() ==> external_alike(a.0.0@[i], #[trigger] b.0.0@[i])
    }
}

} // verus!
