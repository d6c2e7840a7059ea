//! What the pass does, stated over the tree: which attributes an element
//! gets, and how an annotated tree relates to the tree it was made from.

use crate::ast::{
    attrs_model, has_attr_named, string_attr, AttrModel, BlockStmtOrExpr, CallExpr, ClassMember,
    Expr, Function, ImportSpecifier, JSXElement, JSXElementChild, JSXElementName,
    JSXOpeningElement, ModuleExportName, Stmt, VarDeclarator,
};
use crate::jsx_utils::{element_name, is_fragment_name};
use vstd::prelude::*;

verus! {

/// Everything that decides which attributes an element gets, apart from the
/// element itself and the component in whose scope it stands.
pub struct AttrRules {
    /// Name of the attribute that carries the element's display name.
    pub element_attr: Seq<char>,
    /// Name of the attribute that carries the component's name.
    pub component_attr: Seq<char>,
    /// Name of the attribute that carries the file's display name.
    pub source_file_attr: Seq<char>,
    /// Name of the attribute that carries the file's path; set only where the
    /// options name it.
    pub source_path_attr: Option<Seq<char>>,
    /// Names of components and elements that get no attributes.
    pub ignored: Set<Seq<char>>,
    /// Names of the standard markup tags.
    pub known_tags: Set<Seq<char>>,
    /// The file's display name, where it is known.
    pub source_file: Option<Seq<char>>,
    /// The file's path, where it is known.
    pub source_path: Option<Seq<char>>,
}

/// Appends a string attribute where it is wanted and no attribute of that name
/// is there yet.
pub open spec fn push_absent(
    attrs: Seq<AttrModel>,
    wanted: bool,
    name: Seq<char>,
    value: Seq<char>,
) -> Seq<AttrModel> {
    if wanted && !has_attr_named(attrs, name) {
        attrs.push(string_attr(name, value))
    } else {
        attrs
    }
}

/// Whether an element is passed over: a grouping tag, an element in the scope
/// of an ignored component, or an element whose own name is ignored.
pub open spec fn is_exempt(rules: AttrRules, scope: Option<Seq<char>>, tag: JSXElementName) -> bool {
    ||| is_fragment_name(tag)
    ||| (scope.is_some() && rules.ignored.contains(scope.unwrap()))
    ||| rules.ignored.contains(element_name(tag))
}

/// The attributes of an element after the pass: those it had, then the new
/// ones in the order element, component, source file, source path.
pub open spec fn annotated_attrs(
    rules: AttrRules,
    scope: Option<Seq<char>>,
    tag: JSXElementName,
    attrs: Seq<AttrModel>,
) -> Seq<AttrModel> {
    if is_exempt(rules, scope, tag) {
        attrs
    } else {
        let display = element_name(tag);
        let custom = !rules.known_tags.contains(display);
        let located = scope.is_some() || custom;
        let with_element = push_absent(
            attrs,
            custom && (rules.element_attr != rules.component_attr || scope.is_none()),
            rules.element_attr,
            display,
        );
        let with_component = push_absent(
            with_element,
            scope.is_some(),
            rules.component_attr,
            scope.unwrap(),
        );
        let with_file = push_absent(
            with_component,
            located && rules.source_file.is_some(),
            rules.source_file_attr,
            rules.source_file.unwrap(),
        );
        push_absent(
            with_file,
            located && rules.source_path_attr.is_some() && rules.source_path.is_some(),
            rules.source_path_attr.unwrap(),
            rules.source_path.unwrap(),
        )
    }
}

/// An opening tag after the pass: the tag and the attributes it had are
/// untouched, and the new attributes follow them.
pub open spec fn opening_annotated(
    rules: AttrRules,
    scope: Option<Seq<char>>,
    pre: JSXOpeningElement,
    post: JSXOpeningElement,
) -> bool {
    &&& post.name == pre.name
    &&& post.self_closing == pre.self_closing
    &&& pre.attrs@.len() <= post.attrs@.len()
    &&& post.attrs@.take(pre.attrs@.len() as int) == pre.attrs@
    &&& attrs_model(post.attrs@) == annotated_attrs(rules, scope, pre.name, attrs_model(pre.attrs@))
}

/// An element after the pass. A grouping tag is untouched and hands the scope
/// on to all its children; any other element is annotated in the scope, hands
/// the scope on to its fragment children only, and its element children are
/// annotated in no scope.
pub open spec fn element_annotated(
    rules: AttrRules,
    scope: Option<Seq<char>>,
    pre: JSXElement,
    post: JSXElement,
) -> bool
    decreases pre,
{
    if is_fragment_name(pre.opening.name) {
        post.opening == pre.opening && children_annotated(
            rules,
            scope,
            false,
            pre.children,
            post.children,
        )
    } else {
        opening_annotated(rules, scope, pre.opening, post.opening) && children_annotated(
            rules,
            scope,
            true,
            pre.children,
            post.children,
        )
    }
}

/// The children of a node after the pass, one for one. With `reset`, element
/// children are annotated in no scope.
pub open spec fn children_annotated(
    rules: AttrRules,
    scope: Option<Seq<char>>,
    reset: bool,
    pre: Vec<JSXElementChild>,
    post: Vec<JSXElementChild>,
) -> bool
    decreases pre,
{
    &&& post@.len() == pre@.len()
    &&& forall|i: int|
        0 <= i < pre@.len() ==> child_annotated(rules, scope, reset, pre@[i], #[trigger] post@[i])
}

/// One child after the pass; a child that is neither element nor fragment is
/// untouched.
pub open spec fn child_annotated(
    rules: AttrRules,
    scope: Option<Seq<char>>,
    reset: bool,
    pre: JSXElementChild,
    post: JSXElementChild,
) -> bool
    decreases pre,
{
    match pre {
        JSXElementChild::JSXElement(element) => match post {
            JSXElementChild::JSXElement(annotated) => element_annotated(
                rules,
                if reset {
                    None
                } else {
                    scope
                },
                element,
                annotated,
            ),
            _ => false,
        },
        JSXElementChild::JSXFragment(fragment) => match post {
            JSXElementChild::JSXFragment(annotated) => children_annotated(
                rules,
                scope,
                false,
                fragment.children,
                annotated.children,
            ),
            _ => false,
        },
        JSXElementChild::Other => post == pre,
    }
}

/// A returned value after the pass: markup is annotated, the branches of a
/// conditional and the inside of parentheses are looked into, anything else
/// is untouched.
pub open spec fn expr_annotated(
    rules: AttrRules,
    scope: Option<Seq<char>>,
    pre: Expr,
    post: Expr,
) -> bool
    decreases pre,
{
    match pre {
        Expr::JSXElement(element) => match post {
            Expr::JSXElement(annotated) => element_annotated(rules, scope, element, annotated),
            _ => false,
        },
        Expr::JSXFragment(fragment) => match post {
            Expr::JSXFragment(annotated) => children_annotated(
                rules,
                scope,
                false,
                fragment.children,
                annotated.children,
            ),
            _ => false,
        },
        Expr::Cond(cond) => match post {
            Expr::Cond(annotated) => expr_annotated(rules, scope, *cond.cons, *annotated.cons)
                && expr_annotated(rules, scope, *cond.alt, *annotated.alt),
            _ => false,
        },
        Expr::Paren(inner) => match post {
            Expr::Paren(annotated) => expr_annotated(rules, scope, *inner, *annotated),
            _ => false,
        },
        _ => post == pre,
    }
}

/// One statement after the pass: the value of a `return` is annotated.
pub open spec fn stmt_annotated(
    rules: AttrRules,
    scope: Option<Seq<char>>,
    pre: Stmt,
    post: Stmt,
) -> bool {
    match pre {
        Stmt::Return(Some(value)) => match post {
            Stmt::Return(Some(annotated)) => expr_annotated(rules, scope, value, annotated),
            _ => false,
        },
        _ => post == pre,
    }
}

/// The statements of a body after the pass, one for one.
pub open spec fn stmts_annotated(
    rules: AttrRules,
    scope: Option<Seq<char>>,
    pre: Vec<Stmt>,
    post: Vec<Stmt>,
) -> bool {
    &&& post@.len() == pre@.len()
    &&& forall|i: int|
        0 <= i < pre@.len() ==> stmt_annotated(rules, scope, pre@[i], #[trigger] post@[i])
}

/// A function after the pass, annotated as the component of the given name.
pub open spec fn function_annotated(
    rules: AttrRules,
    component: Seq<char>,
    pre: Function,
    post: Function,
) -> bool {
    match pre.body {
        Some(stmts) => match post.body {
            Some(annotated) => stmts_annotated(rules, Some(component), stmts, annotated),
            None => false,
        },
        None => post == pre,
    }
}

/// The body of an arrow function after the pass.
pub open spec fn arrow_body_annotated(
    rules: AttrRules,
    component: Seq<char>,
    pre: BlockStmtOrExpr,
    post: BlockStmtOrExpr,
) -> bool {
    match pre {
        BlockStmtOrExpr::BlockStmt(stmts) => match post {
            BlockStmtOrExpr::BlockStmt(annotated) => stmts_annotated(
                rules,
                Some(component),
                stmts,
                annotated,
            ),
            _ => false,
        },
        BlockStmtOrExpr::Expr(value) => match post {
            BlockStmtOrExpr::Expr(annotated) => expr_annotated(
                rules,
                Some(component),
                *value,
                *annotated,
            ),
            _ => false,
        },
    }
}

/// Whether a class member is a method named `render` that has a body.
pub open spec fn is_render_method(member: ClassMember) -> bool {
    match member {
        ClassMember::Method { key: Some(name), function } => name@ == "render"@
            && function.body.is_some(),
        _ => false,
    }
}

/// One class member after the pass: a `render` method is annotated as the
/// component of the class's name.
pub open spec fn member_annotated(
    rules: AttrRules,
    component: Seq<char>,
    pre: ClassMember,
    post: ClassMember,
) -> bool {
    if is_render_method(pre) {
        match post {
            ClassMember::Method { key, function } => key == pre->key && function_annotated(
                rules,
                component,
                pre->function,
                function,
            ),
            ClassMember::Other => false,
        }
    } else {
        post == pre
    }
}

/// The local name that an import specifier gives the styling helper, where it
/// imports the helper: a default import, or a named import of `default` or
/// `styled`.
pub open spec fn styled_binding(specifier: ImportSpecifier) -> Option<Seq<char>> {
    match specifier {
        ImportSpecifier::Default { local } => Some(local@),
        ImportSpecifier::Named { local, imported } => {
            let imported_name = match imported {
                Some(ModuleExportName::Ident(name)) => Some(name@),
                Some(ModuleExportName::Str(_)) => None,
                None => Some(local@),
            };
            if imported_name == Some("default"@) || imported_name == Some("styled"@) {
                Some(local@)
            } else {
                None
            }
        },
        ImportSpecifier::Namespace { .. } => None,
    }
}

/// The helper's local name after a list of specifiers: that of the last one
/// that imports it, else what it was before.
pub open spec fn styled_after(prior: Option<Seq<char>>, specifiers: Seq<ImportSpecifier>) -> Option<
    Seq<char>,
>
    decreases specifiers.len(),
{
    if specifiers.len() == 0 {
        prior
    } else {
        match styled_binding(specifiers.last()) {
            Some(local) => Some(local),
            None => styled_after(prior, specifiers.drop_last()),
        }
    }
}

/// The component that a call of the styling helper wraps by reference: the
/// callee is the helper's local name and the first argument a bare identifier.
pub open spec fn styled_reference(styled: Option<Seq<char>>, call: CallExpr) -> Option<Seq<char>> {
    match (styled, call.callee) {
        (Some(helper), Some(callee)) => match *callee {
            Expr::Ident(name) => if name@ == helper && call.args@.len() > 0
                && !call.args@[0].spread {
                match call.args@[0].expr {
                    Expr::Ident(reference) => Some(reference@),
                    _ => None,
                }
            } else {
                None
            },
            _ => None,
        },
        _ => None,
    }
}

/// The attributes of the element inside a synthesized wrapper: the element
/// attribute with the outer binding's name, the source file, the source path,
/// and last the spread of the parameter.
pub open spec fn wrapper_attrs(rules: AttrRules, outer: Seq<char>) -> Seq<AttrModel> {
    let named = seq![string_attr(rules.element_attr, outer)];
    let with_file = if rules.source_file.is_some() {
        named.push(string_attr(rules.source_file_attr, rules.source_file.unwrap()))
    } else {
        named
    };
    let with_path = if rules.source_path_attr.is_some() && rules.source_path.is_some() {
        with_file.push(string_attr(rules.source_path_attr.unwrap(), rules.source_path.unwrap()))
    } else {
        with_file
    };
    with_path.push(AttrModel::Spread { ident: Some("props"@) })
}

/// Whether an expression is the wrapper `props => <Reference .. {...props} />`
/// made for the binding `outer`.
pub open spec fn is_styled_wrapper(
    rules: AttrRules,
    reference: Seq<char>,
    outer: Seq<char>,
    wrapper: Expr,
) -> bool {
    match wrapper {
        Expr::Arrow(arrow) => arrow.params@.len() == 1 && arrow.params@[0]@ == "props"@
            && match arrow.body {
            BlockStmtOrExpr::Expr(body) => match *body {
                Expr::JSXElement(element) => {
                    &&& match element.opening.name {
                        JSXElementName::Ident(tag) => tag@ == reference,
                        _ => false,
                    }
                    &&& element.opening.self_closing
                    &&& attrs_model(element.opening.attrs@) == wrapper_attrs(rules, outer)
                    &&& element.children@.len() == 0
                },
                _ => false,
            },
            BlockStmtOrExpr::BlockStmt(_) => false,
        },
        _ => false,
    }
}

/// A call after the styled-wrapper rewrite: the first argument is the
/// wrapper, everything else is untouched.
pub open spec fn call_rewritten(
    rules: AttrRules,
    reference: Seq<char>,
    outer: Seq<char>,
    pre: CallExpr,
    post: CallExpr,
) -> bool {
    &&& post.callee == pre.callee
    &&& post.args@.len() == pre.args@.len()
    &&& pre.args@.len() > 0
    &&& !post.args@[0].spread
    &&& is_styled_wrapper(rules, reference, outer, post.args@[0].expr)
    &&& forall|i: int| 1 <= i < pre.args@.len() ==> #[trigger] post.args@[i] == pre.args@[i]
}

/// A variable binding after the pass. A binding of a plain name to a call of
/// the styling helper is rewritten where that is switched on; one to an arrow
/// function or a function expression is annotated as the component of that
/// name; anything else is untouched.
pub open spec fn declarator_annotated(
    rules: AttrRules,
    styled: Option<Seq<char>>,
    rewrites: bool,
    pre: VarDeclarator,
    post: VarDeclarator,
) -> bool {
    match (pre.name, pre.init) {
        (Some(name), Some(Expr::Call(call))) => {
            let reference = styled_reference(styled, call);
            if rewrites && reference.is_some() {
                &&& post.name == pre.name
                &&& match post.init {
                    Some(Expr::Call(rewritten)) => call_rewritten(
                        rules,
                        reference.unwrap(),
                        name@,
                        call,
                        rewritten,
                    ),
                    _ => false,
                }
            } else {
                post == pre
            }
        },
        (Some(name), Some(Expr::Arrow(arrow))) => {
            &&& post.name == pre.name
            &&& match post.init {
                Some(Expr::Arrow(annotated)) => annotated.params == arrow.params
                    && arrow_body_annotated(rules, name@, arrow.body, annotated.body),
                _ => false,
            }
        },
        (Some(name), Some(Expr::Fn(function))) => {
            &&& post.name == pre.name
            &&& match post.init {
                Some(Expr::Fn(annotated)) => function_annotated(rules, name@, function, annotated),
                _ => false,
            }
        },
        _ => post == pre,
    }
}

/// Whether the pass entered a component while it went through a binding, and
/// so left no component in scope afterwards.
pub open spec fn declarator_enters_component(pre: VarDeclarator) -> bool {
    match (pre.name, pre.init) {
        (Some(_), Some(Expr::Arrow(_))) => true,
        (Some(_), Some(Expr::Fn(function))) => function.body.is_some(),
        _ => false,
    }
}

} // verus!
