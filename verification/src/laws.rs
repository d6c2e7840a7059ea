//! What holds of the pass as a whole.

use crate::ast::{
    attr_name, attrs_model, has_attr_named, string_attr, AttrModel, BlockStmtOrExpr, ClassMember,
    Expr, Function, JSXElement, JSXElementChild, JSXElementName, JSXFragment,
    JSXOpeningElement, Stmt, VarDeclarator,
};
use crate::jsx_utils::{element_name, is_fragment_name};
use crate::path_utils::{custom_display_name, path_separator, split_path};
use crate::rules::{
    annotated_attrs, child_annotated, children_annotated, declarator_annotated,
    element_annotated, expr_annotated, function_annotated, is_exempt, is_render_method,
    member_annotated, opening_annotated, push_absent, stmt_annotated, styled_reference,
    wrapper_attrs, AttrRules,
};
use vstd::prelude::*;

verus! {

/// An attribute that is there stays there when another is appended, and an
/// attribute that was wanted is there afterwards.
pub proof fn lemma_push_absent_keeps(
    attrs: Seq<AttrModel>,
    wanted: bool,
    name: Seq<char>,
    value: Seq<char>,
    other: Seq<char>,
)
    ensures
        has_attr_named(attrs, other) ==> has_attr_named(
            push_absent(attrs, wanted, name, value),
            other,
        ),
        wanted ==> has_attr_named(push_absent(attrs, wanted, name, value), name),
{
    let after = push_absent(attrs, wanted, name, value);
    if has_attr_named(attrs, other) {
        let i = choose|i: int| 0 <= i < attrs.len() && attr_name(#[trigger] attrs[i]) == Some(other);
        assert(attr_name(after[i]) == Some(other));
    }
    if wanted {
        if has_attr_named(attrs, name) {
            assert(after == attrs);
        } else {
            assert(attr_name(after[attrs.len() as int]) == Some(name));
        }
    }
}

/// Idempotence on one element: the attributes that the pass leaves are left
/// as they are by a second pass with the same rules in the same scope.
pub proof fn lemma_annotated_attrs_idempotent(
    rules: AttrRules,
    scope: Option<Seq<char>>,
    tag: JSXElementName,
    attrs: Seq<AttrModel>,
)
    ensures
        annotated_attrs(rules, scope, tag, annotated_attrs(rules, scope, tag, attrs))
            == annotated_attrs(rules, scope, tag, attrs),
{
    if !is_exempt(rules, scope, tag) {
        let display = element_name(tag);
        let custom = !rules.known_tags.contains(display);
        let located = scope.is_some() || custom;
        let want_element = custom && (rules.element_attr != rules.component_attr || scope.is_none());
        let want_component = scope.is_some();
        let want_file = located && rules.source_file.is_some();
        let want_path = located && rules.source_path_attr.is_some() && rules.source_path.is_some();
        let file = rules.source_file.unwrap();
        let path_attr = rules.source_path_attr.unwrap();
        let path = rules.source_path.unwrap();
        let a1 = push_absent(attrs, want_element, rules.element_attr, display);
        let a2 = push_absent(a1, want_component, rules.component_attr, scope.unwrap());
        let a3 = push_absent(a2, want_file, rules.source_file_attr, file);
        let a4 = push_absent(a3, want_path, path_attr, path);
        assert(a4 == annotated_attrs(rules, scope, tag, attrs));
        // What was wanted is there after the first pass
        lemma_push_absent_keeps(attrs, want_element, rules.element_attr, display, rules.element_attr);
        lemma_push_absent_keeps(
            a1,
            want_component,
            rules.component_attr,
            scope.unwrap(),
            rules.element_attr,
        );
        lemma_push_absent_keeps(a2, want_file, rules.source_file_attr, file, rules.element_attr);
        lemma_push_absent_keeps(a3, want_path, path_attr, path, rules.element_attr);
        lemma_push_absent_keeps(a2, want_file, rules.source_file_attr, file, rules.component_attr);
        lemma_push_absent_keeps(a3, want_path, path_attr, path, rules.component_attr);
        lemma_push_absent_keeps(a3, want_path, path_attr, path, rules.source_file_attr);
        lemma_push_absent_keeps(a3, want_path, path_attr, path, path_attr);
        // So the second pass appends nothing
        assert(push_absent(a4, want_element, rules.element_attr, display) == a4);
        assert(push_absent(a4, want_component, rules.component_attr, scope.unwrap()) == a4);
        assert(push_absent(a4, want_file, rules.source_file_attr, file) == a4);
        assert(push_absent(a4, want_path, path_attr, path) == a4);
    }
}

/// Idempotence on an opening tag: what a second pass makes of the result of a
/// first pass is a result of one pass over the tag as it was before.
pub proof fn lemma_opening_idempotent(
    rules: AttrRules,
    scope: Option<Seq<char>>,
    before: JSXOpeningElement,
    once: JSXOpeningElement,
    twice: JSXOpeningElement,
)
    requires
        opening_annotated(rules, scope, before, once),
        opening_annotated(rules, scope, once, twice),
    ensures
        opening_annotated(rules, scope, before, twice),
        attrs_model(twice.attrs@) == attrs_model(once.attrs@),
{
    lemma_annotated_attrs_idempotent(rules, scope, before.name, attrs_model(before.attrs@));
    assert(twice.attrs@.take(before.attrs@.len() as int) =~= once.attrs@.take(
        before.attrs@.len() as int,
    ));
}

/// Idempotence on a tree: running the pass on its own result gives a result
/// of one pass, so that no attribute is added a second time anywhere below
/// the element.
pub proof fn lemma_element_idempotent(
    rules: AttrRules,
    scope: Option<Seq<char>>,
    before: JSXElement,
    once: JSXElement,
    twice: JSXElement,
)
    requires
        element_annotated(rules, scope, before, once),
        element_annotated(rules, scope, once, twice),
    ensures
        element_annotated(rules, scope, before, twice),
    decreases before,
{
    if is_fragment_name(before.opening.name) {
        lemma_children_idempotent(
            rules,
            scope,
            false,
            before.children,
            once.children,
            twice.children,
        );
    } else {
        lemma_opening_idempotent(rules, scope, before.opening, once.opening, twice.opening);
        lemma_children_idempotent(
            rules,
            scope,
            true,
            before.children,
            once.children,
            twice.children,
        );
    }
}

/// Idempotence on the children of a node.
pub proof fn lemma_children_idempotent(
    rules: AttrRules,
    scope: Option<Seq<char>>,
    reset: bool,
    before: Vec<JSXElementChild>,
    once: Vec<JSXElementChild>,
    twice: Vec<JSXElementChild>,
)
    requires
        children_annotated(rules, scope, reset, before, once),
        children_annotated(rules, scope, reset, once, twice),
    ensures
        children_annotated(rules, scope, reset, before, twice),
    decreases before,
{
    assert forall|i: int| 0 <= i < before@.len() implies child_annotated(
        rules,
        scope,
        reset,
        before@[i],
        #[trigger] twice@[i],
    ) by {
        assert(child_annotated(rules, scope, reset, before@[i], once@[i]));
        assert(child_annotated(rules, scope, reset, once@[i], twice@[i]));
        match before@[i] {
            JSXElementChild::JSXElement(element) => {
                let scope_below = if reset {
                    None
                } else {
                    scope
                };
                lemma_element_idempotent(
                    rules,
                    scope_below,
                    element,
                    once@[i]->JSXElement_0,
                    twice@[i]->JSXElement_0,
                );
            },
            JSXElementChild::JSXFragment(fragment) => {
                lemma_children_idempotent(
                    rules,
                    scope,
                    false,
                    fragment.children,
                    once@[i]->JSXFragment_0.children,
                    twice@[i]->JSXFragment_0.children,
                );
            },
            JSXElementChild::Other => {},
        }
    }
}

/// Idempotence on a returned value.
pub proof fn lemma_expr_idempotent(
    rules: AttrRules,
    scope: Option<Seq<char>>,
    before: Expr,
    once: Expr,
    twice: Expr,
)
    requires
        expr_annotated(rules, scope, before, once),
        expr_annotated(rules, scope, once, twice),
    ensures
        expr_annotated(rules, scope, before, twice),
    decreases before,
{
    match before {
        Expr::JSXElement(element) => {
            lemma_element_idempotent(
                rules,
                scope,
                element,
                once->JSXElement_0,
                twice->JSXElement_0,
            );
        },
        Expr::JSXFragment(fragment) => {
            lemma_children_idempotent(
                rules,
                scope,
                false,
                fragment.children,
                once->JSXFragment_0.children,
                twice->JSXFragment_0.children,
            );
        },
        Expr::Cond(cond) => {
            lemma_expr_idempotent(rules, scope, *cond.cons, *once->Cond_0.cons, *twice->Cond_0.cons);
            lemma_expr_idempotent(rules, scope, *cond.alt, *once->Cond_0.alt, *twice->Cond_0.alt);
        },
        Expr::Paren(inner) => {
            lemma_expr_idempotent(rules, scope, *inner, *once->Paren_0, *twice->Paren_0);
        },
        _ => {},
    }
}

/// Idempotence on a function: a second pass over an annotated function, as
/// the same component, gives a result of one pass.
pub proof fn lemma_function_idempotent(
    rules: AttrRules,
    component: Seq<char>,
    before: Function,
    once: Function,
    twice: Function,
)
    requires
        function_annotated(rules, component, before, once),
        function_annotated(rules, component, once, twice),
    ensures
        function_annotated(rules, component, before, twice),
{
    if before.body.is_some() {
        let first = before.body.unwrap();
        let middle = once.body.unwrap();
        let after = twice.body.unwrap();
        assert forall|i: int| 0 <= i < first@.len() implies stmt_annotated(
            rules,
            Some(component),
            first@[i],
            #[trigger] after@[i],
        ) by {
            assert(stmt_annotated(rules, Some(component), first@[i], middle@[i]));
            assert(stmt_annotated(rules, Some(component), middle@[i], after@[i]));
            match first@[i] {
                Stmt::Return(Some(value)) => {
                    lemma_expr_idempotent(
                        rules,
                        Some(component),
                        value,
                        middle@[i]->Return_0.unwrap(),
                        after@[i]->Return_0.unwrap(),
                    );
                },
                _ => {},
            }
        }
    }
}

/// Idempotence on a class member.
pub proof fn lemma_member_idempotent(
    rules: AttrRules,
    component: Seq<char>,
    before: ClassMember,
    once: ClassMember,
    twice: ClassMember,
)
    requires
        member_annotated(rules, component, before, once),
        member_annotated(rules, component, once, twice),
    ensures
        member_annotated(rules, component, before, twice),
{
    if is_render_method(before) {
        lemma_function_idempotent(
            rules,
            component,
            before->function,
            once->function,
            twice->function,
        );
    }
}

/// Idempotence on a variable binding: a rewritten call of the styling helper
/// no longer wraps by reference, so it is left as it is, and the markup of a
/// bound function gets nothing twice.
pub proof fn lemma_declarator_idempotent(
    rules: AttrRules,
    styled: Option<Seq<char>>,
    rewrites: bool,
    before: VarDeclarator,
    once: VarDeclarator,
    twice: VarDeclarator,
)
    requires
        declarator_annotated(rules, styled, rewrites, before, once),
        declarator_annotated(rules, styled, rewrites, once, twice),
    ensures
        declarator_annotated(rules, styled, rewrites, before, twice),
{
    match (before.name, before.init) {
        (Some(name), Some(Expr::Call(call))) => {
            if rewrites && styled_reference(styled, call).is_some() {
                let rewritten = once.init.unwrap()->Call_0;
                assert(styled_reference(styled, rewritten).is_none());
                assert(twice == once);
            }
        },
        (Some(name), Some(Expr::Arrow(arrow))) => {
            let middle = once.init.unwrap()->Arrow_0;
            let after = twice.init.unwrap()->Arrow_0;
            match arrow.body {
                BlockStmtOrExpr::BlockStmt(stmts) => {
                    lemma_function_idempotent(
                        rules,
                        name@,
                        Function { body: Some(stmts) },
                        Function { body: Some(middle.body->BlockStmt_0) },
                        Function { body: Some(after.body->BlockStmt_0) },
                    );
                },
                BlockStmtOrExpr::Expr(value) => {
                    lemma_expr_idempotent(
                        rules,
                        Some(name@),
                        *value,
                        *middle.body->Expr_0,
                        *after.body->Expr_0,
                    );
                },
            }
        },
        (Some(name), Some(Expr::Fn(function))) => {
            lemma_function_idempotent(
                rules,
                name@,
                function,
                once.init.unwrap()->Fn_0,
                twice.init.unwrap()->Fn_0,
            );
        },
        _ => {},
    }
}

/// One attribute, or none.
pub open spec fn optional_attr(present: bool, attr: AttrModel) -> Seq<AttrModel> {
    if present {
        seq![attr]
    } else {
        Seq::<AttrModel>::empty()
    }
}

/// The attributes of an element followed by a choice of the four new ones, in
/// the order element, component, source file, source path.
pub open spec fn with_chosen(
    rules: AttrRules,
    scope: Option<Seq<char>>,
    tag: JSXElementName,
    attrs: Seq<AttrModel>,
    choice: (bool, bool, bool, bool),
) -> Seq<AttrModel> {
    attrs + optional_attr(choice.0, string_attr(rules.element_attr, element_name(tag)))
        + optional_attr(choice.1, string_attr(rules.component_attr, scope.unwrap()))
        + optional_attr(
        choice.2,
        string_attr(rules.source_file_attr, rules.source_file.unwrap()),
    ) + optional_attr(
        choice.3,
        string_attr(rules.source_path_attr.unwrap(), rules.source_path.unwrap()),
    )
}

/// The order of new attributes: after the attributes that an element had come
/// the element attribute, the component attribute, the source file attribute
/// and the source path attribute, in this order, each at most once.
pub proof fn lemma_injection_order(
    rules: AttrRules,
    scope: Option<Seq<char>>,
    tag: JSXElementName,
    attrs: Seq<AttrModel>,
)
    ensures
        exists|choice: (bool, bool, bool, bool)|
            annotated_attrs(rules, scope, tag, attrs) == #[trigger] with_chosen(
                rules,
                scope,
                tag,
                attrs,
                choice,
            ),
{
    let display = element_name(tag);
    let e_attr = string_attr(rules.element_attr, display);
    let c_attr = string_attr(rules.component_attr, scope.unwrap());
    let f_attr = string_attr(rules.source_file_attr, rules.source_file.unwrap());
    let p_attr = string_attr(rules.source_path_attr.unwrap(), rules.source_path.unwrap());
    if is_exempt(rules, scope, tag) {
        assert(attrs =~= with_chosen(rules, scope, tag, attrs, (false, false, false, false)));
    } else {
        let custom = !rules.known_tags.contains(display);
        let located = scope.is_some() || custom;
        let a1 = push_absent(
            attrs,
            custom && (rules.element_attr != rules.component_attr || scope.is_none()),
            rules.element_attr,
            display,
        );
        let a2 = push_absent(a1, scope.is_some(), rules.component_attr, scope.unwrap());
        let a3 = push_absent(
            a2,
            located && rules.source_file.is_some(),
            rules.source_file_attr,
            rules.source_file.unwrap(),
        );
        let a4 = push_absent(
            a3,
            located && rules.source_path_attr.is_some() && rules.source_path.is_some(),
            rules.source_path_attr.unwrap(),
            rules.source_path.unwrap(),
        );
        let choice = (a1 != attrs, a2 != a1, a3 != a2, a4 != a3);
        assert(a1 =~= attrs + optional_attr(choice.0, e_attr));
        assert(a2 =~= a1 + optional_attr(choice.1, c_attr));
        assert(a3 =~= a2 + optional_attr(choice.2, f_attr));
        assert(a4 =~= a3 + optional_attr(choice.3, p_attr));
        assert(a4 == with_chosen(rules, scope, tag, attrs, choice));
    }
}

/// Fragment transparency: an element directly below a fragment is annotated
/// in the scope in which the fragment stands.
pub proof fn lemma_fragment_keeps_scope(
    rules: AttrRules,
    scope: Option<Seq<char>>,
    before: JSXFragment,
    after: JSXFragment,
    i: int,
)
    requires
        children_annotated(rules, scope, false, before.children, after.children),
        0 <= i < before.children@.len(),
        before.children@[i] is JSXElement,
    ensures
        after.children@[i] is JSXElement,
        element_annotated(
            rules,
            scope,
            before.children@[i]->JSXElement_0,
            after.children@[i]->JSXElement_0,
        ),
{
    assert(child_annotated(rules, scope, false, before.children@[i], after.children@[i]));
}

/// Scope reset: an element directly below an element that is no grouping tag
/// is annotated in no scope, whatever the scope of its parent.
pub proof fn lemma_real_element_resets_scope(
    rules: AttrRules,
    scope: Option<Seq<char>>,
    before: JSXElement,
    after: JSXElement,
    i: int,
)
    requires
        element_annotated(rules, scope, before, after),
        !is_fragment_name(before.opening.name),
        0 <= i < before.children@.len(),
        before.children@[i] is JSXElement,
    ensures
        after.children@[i] is JSXElement,
        element_annotated(
            rules,
            None,
            before.children@[i]->JSXElement_0,
            after.children@[i]->JSXElement_0,
        ),
{
    assert(child_annotated(rules, scope, true, before.children@[i], after.children@[i]));
}

/// In no scope an element gets no component attribute: what is added is a
/// choice of the element, source file and source path attributes.
pub proof fn lemma_no_scope_no_component_attr(
    rules: AttrRules,
    tag: JSXElementName,
    attrs: Seq<AttrModel>,
)
    ensures
        exists|choice: (bool, bool, bool, bool)|
            !choice.1 && annotated_attrs(rules, None, tag, attrs) == #[trigger] with_chosen(
                rules,
                None,
                tag,
                attrs,
                choice,
            ),
{
    let scope = None::<Seq<char>>;
    let display = element_name(tag);
    if is_exempt(rules, scope, tag) {
        assert(attrs =~= with_chosen(rules, scope, tag, attrs, (false, false, false, false)));
    } else {
        let custom = !rules.known_tags.contains(display);
        let a1 = push_absent(attrs, custom, rules.element_attr, display);
        let a3 = push_absent(
            a1,
            custom && rules.source_file.is_some(),
            rules.source_file_attr,
            rules.source_file.unwrap(),
        );
        let a4 = push_absent(
            a3,
            custom && rules.source_path_attr.is_some() && rules.source_path.is_some(),
            rules.source_path_attr.unwrap(),
            rules.source_path.unwrap(),
        );
        let choice = (a1 != attrs, false, a3 != a1, a4 != a3);
        assert(a1 =~= attrs + optional_attr(choice.0, string_attr(rules.element_attr, display)));
        assert(a1 =~= a1 + optional_attr(
            false,
            string_attr(rules.component_attr, scope.unwrap()),
        ));
        assert(a3 =~= a1 + optional_attr(
            choice.2,
            string_attr(rules.source_file_attr, rules.source_file.unwrap()),
        ));
        assert(a4 =~= a3 + optional_attr(
            choice.3,
            string_attr(rules.source_path_attr.unwrap(), rules.source_path.unwrap()),
        ));
        assert(a4 == with_chosen(rules, scope, tag, attrs, choice));
    }
}

/// In the scope of a component an element that is not passed over carries a
/// component attribute afterwards.
pub proof fn lemma_scope_gives_component_attr(
    rules: AttrRules,
    component: Seq<char>,
    tag: JSXElementName,
    attrs: Seq<AttrModel>,
)
    requires
        !is_exempt(rules, Some(component), tag),
    ensures
        has_attr_named(annotated_attrs(rules, Some(component), tag, attrs), rules.component_attr),
        !has_attr_named(attrs, rules.component_attr) && rules.element_attr != rules.component_attr
            ==> annotated_attrs(rules, Some(component), tag, attrs).contains(
            string_attr(rules.component_attr, component),
        ),
{
    let scope = Some(component);
    let display = element_name(tag);
    let custom = !rules.known_tags.contains(display);
    let want_element = custom && rules.element_attr != rules.component_attr;
    let want_file = rules.source_file.is_some();
    let want_path = rules.source_path_attr.is_some() && rules.source_path.is_some();
    let a1 = push_absent(attrs, want_element, rules.element_attr, display);
    let a2 = push_absent(a1, true, rules.component_attr, component);
    let a3 = push_absent(a2, want_file, rules.source_file_attr, rules.source_file.unwrap());
    let a4 = push_absent(
        a3,
        want_path,
        rules.source_path_attr.unwrap(),
        rules.source_path.unwrap(),
    );
    assert(a4 == annotated_attrs(rules, scope, tag, attrs));
    lemma_push_absent_keeps(a1, true, rules.component_attr, component, rules.component_attr);
    lemma_push_absent_keeps(
        a2,
        want_file,
        rules.source_file_attr,
        rules.source_file.unwrap(),
        rules.component_attr,
    );
    lemma_push_absent_keeps(
        a3,
        want_path,
        rules.source_path_attr.unwrap(),
        rules.source_path.unwrap(),
        rules.component_attr,
    );
    if !has_attr_named(attrs, rules.component_attr) && rules.element_attr != rules.component_attr {
        if has_attr_named(a1, rules.component_attr) {
            let k = choose|k: int|
                0 <= k < a1.len() && attr_name(#[trigger] a1[k]) == Some(rules.component_attr);
            if k < attrs.len() {
                assert(attr_name(attrs[k]) == Some(rules.component_attr));
            }
        }
        let at = a1.len() as int;
        assert(a2[at] == string_attr(rules.component_attr, component));
        assert(a3[at] == a2[at]);
        assert(a4[at] == a3[at]);
    }
}

/// With the rewrite switched off a binding to a call is left as it is.
pub proof fn lemma_rewrite_off_leaves_calls(
    rules: AttrRules,
    styled: Option<Seq<char>>,
    before: VarDeclarator,
    after: VarDeclarator,
)
    requires
        declarator_annotated(rules, styled, false, before, after),
        before.init is Some,
        before.init.unwrap() is Call,
    ensures
        after == before,
{
}

/// The attributes of a synthesized wrapper begin with the element attribute,
/// whose value is the name of the outer binding, and end with the spread of
/// the parameter.
pub proof fn lemma_wrapper_attrs_shape(rules: AttrRules, outer: Seq<char>)
    ensures
        wrapper_attrs(rules, outer).len() >= 2,
        wrapper_attrs(rules, outer).first() == string_attr(rules.element_attr, outer),
        wrapper_attrs(rules, outer).last() == (AttrModel::Spread { ident: Some("props"@) }),
{
}

/// Precedence of the ignored names: an element whose own name is ignored gets
/// no attribute in any scope, and in the scope of an ignored component no
/// element gets one.
pub proof fn lemma_ignored_gets_nothing(
    rules: AttrRules,
    scope: Option<Seq<char>>,
    tag: JSXElementName,
    attrs: Seq<AttrModel>,
)
    requires
        rules.ignored.contains(element_name(tag)) || (scope.is_some() && rules.ignored.contains(
            scope.unwrap(),
        )),
    ensures
        annotated_attrs(rules, scope, tag, attrs) == attrs,
{
}

/// Whether every attribute from `base` on has a plain name that no attribute
/// before it has.
pub open spec fn names_are_new_from(attrs: Seq<AttrModel>, base: int) -> bool {
    forall|i: int|
        base <= i < attrs.len() ==> attr_name(#[trigger] attrs[i]).is_some() && !has_attr_named(
            attrs.take(i),
            attr_name(attrs[i]).unwrap(),
        )
}

/// Appending an attribute where none of its name is there keeps the names new.
pub proof fn lemma_push_absent_is_new(
    attrs: Seq<AttrModel>,
    wanted: bool,
    name: Seq<char>,
    value: Seq<char>,
    base: int,
)
    requires
        0 <= base <= attrs.len(),
        names_are_new_from(attrs, base),
    ensures
        names_are_new_from(push_absent(attrs, wanted, name, value), base),
{
    let after = push_absent(attrs, wanted, name, value);
    assert forall|i: int| base <= i < after.len() implies attr_name(#[trigger] after[i]).is_some()
        && !has_attr_named(after.take(i), attr_name(after[i]).unwrap()) by {
        if i < attrs.len() {
            assert(after[i] == attrs[i]);
            assert(after.take(i) =~= attrs.take(i));
        } else {
            assert(after.take(i) =~= attrs);
        }
    }
}

/// No name twice: every attribute that the pass adds to an element has a name
/// that no attribute before it has, whether that one was there or was added.
pub proof fn lemma_added_names_are_new(
    rules: AttrRules,
    scope: Option<Seq<char>>,
    tag: JSXElementName,
    attrs: Seq<AttrModel>,
)
    ensures
        names_are_new_from(annotated_attrs(rules, scope, tag, attrs), attrs.len() as int),
{
    if !is_exempt(rules, scope, tag) {
        let display = element_name(tag);
        let custom = !rules.known_tags.contains(display);
        let located = scope.is_some() || custom;
        let base = attrs.len() as int;
        let want_element = custom && (rules.element_attr != rules.component_attr || scope.is_none());
        let a1 = push_absent(attrs, want_element, rules.element_attr, display);
        lemma_push_absent_is_new(attrs, want_element, rules.element_attr, display, base);
        let a2 = push_absent(a1, scope.is_some(), rules.component_attr, scope.unwrap());
        lemma_push_absent_is_new(a1, scope.is_some(), rules.component_attr, scope.unwrap(), base);
        let want_file = located && rules.source_file.is_some();
        let a3 = push_absent(a2, want_file, rules.source_file_attr, rules.source_file.unwrap());
        lemma_push_absent_is_new(
            a2,
            want_file,
            rules.source_file_attr,
            rules.source_file.unwrap(),
            base,
        );
        let want_path = located && rules.source_path_attr.is_some() && rules.source_path.is_some();
        lemma_push_absent_is_new(
            a3,
            want_path,
            rules.source_path_attr.unwrap(),
            rules.source_path.unwrap(),
            base,
        );
    }
}

/// A path with every slash turned into a backslash.
pub open spec fn with_backslashes(path: Seq<char>) -> Seq<char> {
    Seq::new(
        path.len(),
        |i: int|
            if path[i] == '/' {
                '\\'
            } else {
                path[i]
            },
    )
}

/// A path without backslashes has the same segments between slashes as it has
/// between backslashes once its slashes are turned into backslashes.
pub proof fn lemma_same_segments(path: Seq<char>)
    requires
        !path.contains('\\'),
    ensures
        split_path(with_backslashes(path), '\\') == split_path(path, '/'),
    decreases path.len(),
{
    let turned = with_backslashes(path);
    if path.len() > 0 {
        assert(forall|i: int| 0 <= i < path.len() ==> path[i] != '\\');
        assert(!path.drop_last().contains('\\')) by {
            if path.drop_last().contains('\\') {
                let i = choose|i: int|
                    0 <= i < path.drop_last().len() && path.drop_last()[i] == '\\';
                assert(path[i] == '\\');
            }
        }
        lemma_same_segments(path.drop_last());
        assert(turned.drop_last() =~= with_backslashes(path.drop_last()));
        assert(path.last() != '\\');
    }
}

/// The separator does not matter: a path written with slashes and the same
/// path written with backslashes have one display name.
pub proof fn lemma_separator_does_not_matter(path: Seq<char>)
    requires
        !path.contains('\\'),
    ensures
        custom_display_name(with_backslashes(path)) == custom_display_name(path),
{
    let turned = with_backslashes(path);
    if path.contains('/') {
        let i = choose|i: int| 0 <= i < path.len() && path[i] == '/';
        assert(turned[i] == '\\');
        assert(path_separator(turned) == '\\');
        lemma_same_segments(path);
        lemma_separated_path_has_parts(path, '/');
    } else {
        assert(turned =~= path);
    }
}

/// A path has one segment more than it has separators: one segment where it
/// holds no separator, more than one where it holds one.
pub proof fn lemma_separated_path_has_parts(path: Seq<char>, separator: char)
    ensures
        split_path(path, separator).len() >= 1,
        path.contains(separator) <==> split_path(path, separator).len() > 1,
    decreases path.len(),
{
    if path.len() > 0 {
        lemma_separated_path_has_parts(path.drop_last(), separator);
        if path.contains(separator) && path.last() != separator {
            let i = choose|i: int| 0 <= i < path.len() && path[i] == separator;
            assert(path.drop_last()[i] == separator);
        }
        if path.drop_last().contains(separator) {
            let i = choose|i: int|
                0 <= i < path.drop_last().len() && path.drop_last()[i] == separator;
            assert(path[i] == separator);
        }
        if path.last() == separator {
            assert(path[path.len() - 1] == separator);
        }
    }
}

/// A bare file name is its own display name, `index.*` or not: with no
/// separator in the path there is no directory to tell it by.
pub proof fn lemma_bare_name_unchanged(path: Seq<char>)
    requires
        !path.contains('/'),
        !path.contains('\\'),
    ensures
        custom_display_name(path) == path,
{
    lemma_separated_path_has_parts(path, '/');
}

} // verus!
