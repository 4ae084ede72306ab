//! The syntax tree of the `glsl` crate, made known to the verifier.
//!
//! Every type of `glsl::syntax` that the rewriting passes walk through is
//! declared with its fields and variants open, so that verified code matches on
//! the tree that the parser hands out and builds the tree that the printer
//! takes. Nothing is claimed of these types beyond their own definitions.
//! Preprocessor directives hold no expression and are carried through unread.

use vstd::prelude::*;

verus! {

#[verifier::external_type_specification]
pub struct ExNonEmpty<T>(glsl::syntax::NonEmpty<T>);

#[verifier::external_type_specification]
pub struct ExIdentifier(glsl::syntax::Identifier);

#[verifier::external_type_specification]
pub struct ExTypeName(glsl::syntax::TypeName);

#[verifier::external_type_specification]
pub struct ExTypeSpecifierNonArray(glsl::syntax::TypeSpecifierNonArray);

#[verifier::external_type_specification]
pub struct ExTypeSpecifier(glsl::syntax::TypeSpecifier);

#[verifier::external_type_specification]
pub struct ExStructSpecifier(glsl::syntax::StructSpecifier);

#[verifier::external_type_specification]
pub struct ExStructFieldSpecifier(glsl::syntax::StructFieldSpecifier);

#[verifier::external_type_specification]
pub struct ExArrayedIdentifier(glsl::syntax::ArrayedIdentifier);

#[verifier::external_type_specification]
pub struct ExTypeQualifier(glsl::syntax::TypeQualifier);

#[verifier::external_type_specification]
pub struct ExTypeQualifierSpec(glsl::syntax::TypeQualifierSpec);

#[verifier::external_type_specification]
pub struct ExStorageQualifier(glsl::syntax::StorageQualifier);

#[verifier::external_type_specification]
pub struct ExLayoutQualifier(glsl::syntax::LayoutQualifier);

#[verifier::external_type_specification]
pub struct ExLayoutQualifierSpec(glsl::syntax::LayoutQualifierSpec);

#[verifier::external_type_specification]
pub struct ExPrecisionQualifier(glsl::syntax::PrecisionQualifier);

#[verifier::external_type_specification]
pub struct ExInterpolationQualifier(glsl::syntax::InterpolationQualifier);

#[verifier::external_type_specification]
pub struct ExFullySpecifiedType(glsl::syntax::FullySpecifiedType);

#[verifier::external_type_specification]
pub struct ExArraySpecifier(glsl::syntax::ArraySpecifier);

#[verifier::external_type_specification]
pub struct ExArraySpecifierDimension(glsl::syntax::ArraySpecifierDimension);

#[verifier::external_type_specification]
pub struct ExDeclaration(glsl::syntax::Declaration);

#[verifier::external_type_specification]
pub struct ExBlock(glsl::syntax::Block);

#[verifier::external_type_specification]
pub struct ExFunIdentifier(glsl::syntax::FunIdentifier);

#[verifier::external_type_specification]
pub struct ExFunctionPrototype(glsl::syntax::FunctionPrototype);

#[verifier::external_type_specification]
pub struct ExFunctionParameterDeclaration(glsl::syntax::FunctionParameterDeclaration);

#[verifier::external_type_specification]
pub struct ExFunctionParameterDeclarator(glsl::syntax::FunctionParameterDeclarator);

#[verifier::external_type_specification]
pub struct ExInitDeclaratorList(glsl::syntax::InitDeclaratorList);

#[verifier::external_type_specification]
pub struct ExSingleDeclaration(glsl::syntax::SingleDeclaration);

#[verifier::external_type_specification]
pub struct ExSingleDeclarationNoType(glsl::syntax::SingleDeclarationNoType);

#[verifier::external_type_specification]
pub struct ExInitializer(glsl::syntax::Initializer);

#[verifier::external_type_specification]
pub struct ExExpr(glsl::syntax::Expr);

#[verifier::external_type_specification]
pub struct ExUnaryOp(glsl::syntax::UnaryOp);

#[verifier::external_type_specification]
pub struct ExBinaryOp(glsl::syntax::BinaryOp);

#[verifier::external_type_specification]
pub struct ExAssignmentOp(glsl::syntax::AssignmentOp);

#[verifier::external_type_specification]
pub struct ExTranslationUnit(glsl::syntax::TranslationUnit);

#[verifier::external_type_specification]
pub struct ExExternalDeclaration(glsl::syntax::ExternalDeclaration);

#[verifier::external_type_specification]
pub struct ExFunctionDefinition(glsl::syntax::FunctionDefinition);

#[verifier::external_type_specification]
pub struct ExCompoundStatement(glsl::syntax::CompoundStatement);

#[verifier::external_type_specification]
pub struct ExStatement(glsl::syntax::Statement);

#[verifier::external_type_specification]
pub struct ExSimpleStatement(glsl::syntax::SimpleStatement);

#[verifier::external_type_specification]
pub struct ExSelectionStatement(glsl::syntax::SelectionStatement);

#[verifier::external_type_specification]
pub struct ExCondition(glsl::syntax::Condition);

#[verifier::external_type_specification]
pub struct ExSelectionRestStatement(glsl::syntax::SelectionRestStatement);

#[verifier::external_type_specification]
pub struct ExSwitchStatement(glsl::syntax::SwitchStatement);

#[verifier::external_type_specification]
pub struct ExCaseLabel(glsl::syntax::CaseLabel);

#[verifier::external_type_specification]
pub struct ExIterationStatement(glsl::syntax::IterationStatement);

#[verifier::external_type_specification]
pub struct ExForInitStatement(glsl::syntax::ForInitStatement);

#[verifier::external_type_specification]
pub struct ExForRestStatement(glsl::syntax::ForRestStatement);

#[verifier::external_type_specification]
pub struct ExJumpStatement(glsl::syntax::JumpStatement);

/// A preprocessor directive of `glsl::syntax`, opaque here: the passes move it
/// from the input tree to the output tree and never look inside.
#[verifier::external_type_specification]
#[verifier::external_body]
pub struct ExPreprocessor(glsl::syntax::Preprocessor);

/// The error of `glsl::parser`, with its one field, the parser's message.
#[verifier::external_type_specification]
pub struct ExParseError(glsl::parser::ParseError);

} // verus!
