//! What rendering reads of the syntax tree's nodes.

use crate::graph::Span;
use vstd::prelude::*;

verus! {

/// The declaration site of a name.
pub struct BindingIdentifier {
    pub span: Span,
    pub name: String,
    /// The symbol of the enclosing module that the site declares.
    pub symbol_id: u32,
}

/// A use site of a name.
pub struct IdentifierReference {
    pub span: Span,
    pub name: String,
    /// The site's index among the references of the enclosing module.
    pub reference_id: u32,
}

/// `export * from '...'`
pub struct ExportAllDeclaration {
    pub span: Span,
}

/// `import(...)`
pub struct ImportExpression {
    pub span: Span,
    /// The span of the specifier, where it is a string literal.
    pub source: Option<Span>,
}

/// `import ... from '...'`
pub struct ImportDeclaration {
    pub span: Span,
}

/// A call.
pub struct CallExpression {
    pub span: Span,
    /// The callee's name, where the callee is an identifier.
    pub callee: Option<String>,
}

/// A statement of the module body.
pub struct Statement {
    pub span: Span,
    /// Whether it is a function, class or variable declaration.
    pub is_declaration: bool,
}

} // verus!
