//! The shapes of a syntax tree that the annotation pass tells apart. Whatever
//! the pass neither reads nor writes is folded into an `Other` variant.

use vstd::prelude::*;

verus! {

/// The object side of a dotted tag: `Components` in `Components.Button`.
#[derive(Debug, PartialEq, Eq)]
pub enum JSXObject {
    Ident(String),
    JSXMemberExpr(Box<JSXMemberExpr>),
}

/// A dotted tag such as `Components.UI.Button`.
#[derive(Debug, PartialEq, Eq)]
pub struct JSXMemberExpr {
    pub obj: JSXObject,
    pub prop: String,
}

/// A namespaced name such as `svg:rect`.
#[derive(Debug, PartialEq, Eq)]
pub struct JSXNamespacedName {
    pub ns: String,
    pub name: String,
}

/// The tag of an element.
#[derive(Debug, PartialEq, Eq)]
pub enum JSXElementName {
    Ident(String),
    JSXMemberExpr(JSXMemberExpr),
    JSXNamespacedName(JSXNamespacedName),
}

#[derive(Debug, PartialEq, Eq)]
pub enum JSXAttrName {
    Ident(String),
    JSXNamespacedName(JSXNamespacedName),
}

/// The value of an attribute: a string literal, or anything else.
#[derive(Debug, PartialEq, Eq)]
pub enum JSXAttrValue {
    Str(String),
    Other,
}

#[derive(Debug, PartialEq, Eq)]
pub struct JSXAttr {
    pub name: JSXAttrName,
    pub value: Option<JSXAttrValue>,
}

/// A spread `{...expr}`; `ident` is set where `expr` is a bare identifier.
#[derive(Debug, PartialEq, Eq)]
pub struct SpreadElement {
    pub ident: Option<String>,
}

#[derive(Debug, PartialEq, Eq)]
pub enum JSXAttrOrSpread {
    JSXAttr(JSXAttr),
    SpreadElement(SpreadElement),
}

#[derive(Debug, PartialEq, Eq)]
pub struct JSXOpeningElement {
    pub name: JSXElementName,
    pub attrs: Vec<JSXAttrOrSpread>,
    pub self_closing: bool,
}

#[derive(Debug, PartialEq, Eq)]
pub struct JSXElement {
    pub opening: JSXOpeningElement,
    pub children: Vec<JSXElementChild>,
}

#[derive(Debug, PartialEq, Eq)]
pub struct JSXFragment {
    pub children: Vec<JSXElementChild>,
}

#[derive(Debug, PartialEq, Eq)]
pub enum JSXElementChild {
    JSXElement(JSXElement),
    JSXFragment(JSXFragment),
    Other,
}

#[derive(Debug, PartialEq, Eq)]
pub struct CondExpr {
    pub cons: Box<Expr>,
    pub alt: Box<Expr>,
}

#[derive(Debug, PartialEq, Eq)]
pub struct ExprOrSpread {
    pub spread: bool,
    pub expr: Expr,
}

/// A call; `callee` is absent where it is no expression (`super(..)`, `import(..)`).
#[derive(Debug, PartialEq, Eq)]
pub struct CallExpr {
    pub callee: Option<Box<Expr>>,
    pub args: Vec<ExprOrSpread>,
}

#[derive(Debug, PartialEq, Eq)]
pub enum Stmt {
    Return(Option<Expr>),
    Other,
}

#[derive(Debug, PartialEq, Eq)]
pub struct Function {
    pub body: Option<Vec<Stmt>>,
}

#[derive(Debug, PartialEq, Eq)]
pub enum BlockStmtOrExpr {
    BlockStmt(Vec<Stmt>),
    Expr(Box<Expr>),
}

/// An arrow function whose parameters are plain identifiers.
#[derive(Debug, PartialEq, Eq)]
pub struct ArrowExpr {
    pub params: Vec<String>,
    pub body: BlockStmtOrExpr,
}

#[derive(Debug, PartialEq, Eq)]
pub enum Expr {
    JSXElement(JSXElement),
    JSXFragment(JSXFragment),
    Cond(CondExpr),
    Paren(Box<Expr>),
    Ident(String),
    Call(CallExpr),
    Arrow(ArrowExpr),
    Fn(Function),
    Other,
}

#[derive(Debug, PartialEq, Eq)]
pub struct FnDecl {
    pub ident: String,
    pub function: Function,
}

/// One binding of a `let`, `const` or `var`; `name` is set where the binding
/// is a plain identifier.
#[derive(Debug, PartialEq, Eq)]
pub struct VarDeclarator {
    pub name: Option<String>,
    pub init: Option<Expr>,
}

/// A member of a class; `key` is set where a method is named by a plain identifier.
#[derive(Debug, PartialEq, Eq)]
pub enum ClassMember {
    Method { key: Option<String>, function: Function },
    Other,
}

#[derive(Debug, PartialEq, Eq)]
pub struct ClassDecl {
    pub ident: String,
    pub body: Vec<ClassMember>,
}

#[derive(Debug, PartialEq, Eq)]
pub enum ModuleExportName {
    Ident(String),
    Str(String),
}

#[derive(Debug, PartialEq, Eq)]
pub enum ImportSpecifier {
    Named { local: String, imported: Option<ModuleExportName> },
    Default { local: String },
    Namespace { local: String },
}

#[derive(Debug, PartialEq, Eq)]
pub struct ImportDecl {
    pub src: String,
    pub specifiers: Vec<ImportSpecifier>,
}

/// What the pass reads of an attribute.
pub enum AttrModel {
    /// A named attribute: `name` where it is a plain identifier, `value` where
    /// it is a string literal.
    Attr { name: Option<Seq<char>>, value: Option<Seq<char>> },
    /// A spread, with the identifier it spreads where it is one.
    Spread { ident: Option<Seq<char>> },
}

impl View for JSXAttrOrSpread {
    type V = AttrModel;

    open spec fn view(&self) -> AttrModel {
        match *self {
            JSXAttrOrSpread::JSXAttr(attr) => AttrModel::Attr {
                name: match attr.name {
                    JSXAttrName::Ident(name) => Some(name@),
                    JSXAttrName::JSXNamespacedName(_) => None,
                },
                value: match attr.value {
                    Some(JSXAttrValue::Str(value)) => Some(value@),
                    _ => None,
                },
            },
            JSXAttrOrSpread::SpreadElement(spread) => AttrModel::Spread {
                ident: match spread.ident {
                    Some(name) => Some(name@),
                    None => None,
                },
            },
        }
    }
}

/// The attributes of an element as the pass reads them, in their order.
pub open spec fn attrs_model(attrs: Seq<JSXAttrOrSpread>) -> Seq<AttrModel> {
    Seq::new(attrs.len(), |i: int| attrs[i]@)
}

/// A string-valued attribute.
pub open spec fn string_attr(name: Seq<char>, value: Seq<char>) -> AttrModel {
    AttrModel::Attr { name: Some(name), value: Some(value) }
}

/// The name of an attribute, where it is a named attribute with a plain name.
pub open spec fn attr_name(attr: AttrModel) -> Option<Seq<char>> {
    match attr {
        AttrModel::Attr { name, .. } => name,
        AttrModel::Spread { .. } => None,
    }
}

/// Whether some named attribute of the list has this name.
pub open spec fn has_attr_named(attrs: Seq<AttrModel>, name: Seq<char>) -> bool {
    exists|i: int| 0 <= i < attrs.len() && attr_name(#[trigger] attrs[i]) == Some(name)
}

} // verus!
