//! The pass itself: the walk over returned markup with the component in
//! scope, the attributes it adds, and the styled-wrapper rewrite.

use crate::ast::{
    attrs_model, ArrowExpr, AttrModel, BlockStmtOrExpr, CallExpr, ClassDecl, ClassMember, Expr,
    ExprOrSpread, FnDecl, Function, ImportDecl, ImportSpecifier, JSXAttrOrSpread, JSXElement,
    JSXElementChild, JSXElementName, JSXFragment, JSXOpeningElement, ModuleExportName,
    SpreadElement, Stmt, VarDeclarator,
};
use crate::config::PluginConfig;
use crate::constants::{default_ignored_elements, known_markup_tags};
use crate::jsx_utils::{create_jsx_attr, get_element_name, has_attribute, is_react_fragment};
use crate::names::{collect_names, name_set, name_set_contains, names_of};
use crate::path_utils::{
    absolute_path_of, extract_absolute_path, extract_filename, filename_of, text_of, FileName,
};
use crate::rules::{
    call_rewritten, child_annotated, children_annotated, declarator_annotated,
    declarator_enters_component, element_annotated, expr_annotated, function_annotated,
    is_render_method, is_styled_wrapper, member_annotated, opening_annotated, push_absent,
    stmt_annotated, stmts_annotated, styled_after, styled_reference, AttrRules,
};
use rustc_hash::FxHashSet;
use vstd::prelude::*;
use vstd::string::*;

verus! {

/// The rules that a configuration and a file name give.
pub open spec fn rules_for(config: PluginConfig, filename: FileName) -> AttrRules {
    AttrRules {
        element_attr: config.spec_element_attr_name(),
        component_attr: config.spec_component_attr_name(),
        source_file_attr: config.spec_source_file_attr_name(),
        source_path_attr: text_of(config.source_path_attr),
        ignored: names_of(config.ignored_components@),
        known_tags: known_markup_tags(),
        source_file: filename_of(filename),
        source_path: absolute_path_of(filename),
    }
}

/// The state of one file's pass.
pub struct ReactComponentAnnotateVisitor {
    config: PluginConfig,
    source_file_name: Option<String>,
    source_file_path: Option<String>,
    current_component_name: Option<String>,
    ignored_elements: FxHashSet<String>,
    ignored_components_set: FxHashSet<String>,
    /// The local name of `styled` from @emotion/styled
    styled_import: Option<String>,
}

proof fn lemma_attrs_model_push(attrs: Seq<JSXAttrOrSpread>, attr: JSXAttrOrSpread)
    ensures
        attrs_model(attrs.push(attr)) == attrs_model(attrs).push(attr@),
{
    assert(attrs_model(attrs.push(attr)) =~= attrs_model(attrs).push(attr@));
}

/// Appends a string attribute where it is wanted and the element has no
/// attribute of that name yet.
fn push_attr_if_absent(opening: &mut JSXOpeningElement, wanted: bool, name: &str, value: &str)
    ensures
        final(opening).name == old(opening).name,
        final(opening).self_closing == old(opening).self_closing,
        old(opening).attrs@.len() <= final(opening).attrs@.len(),
        final(opening).attrs@.take(old(opening).attrs@.len() as int) == old(opening).attrs@,
        attrs_model(final(opening).attrs@) == push_absent(
            attrs_model(old(opening).attrs@),
            wanted,
            name@,
            value@,
        ),
{
    let ghost before = opening.attrs@;
    if wanted && !has_attribute(opening, name) {
        let attr = create_jsx_attr(name, value);
        proof {
            lemma_attrs_model_push(before, attr);
        }
        opening.attrs.push(attr);
        assert(opening.attrs@.take(before.len() as int) =~= before);
    } else {
        assert(opening.attrs@.take(before.len() as int) =~= before);
    }
}

impl ReactComponentAnnotateVisitor {
    /// The rules that this pass applies.
    pub closed spec fn rules(&self) -> AttrRules {
        AttrRules {
            element_attr: self.config.spec_element_attr_name(),
            component_attr: self.config.spec_component_attr_name(),
            source_file_attr: self.config.spec_source_file_attr_name(),
            source_path_attr: text_of(self.config.source_path_attr),
            ignored: name_set(self.ignored_components_set),
            known_tags: name_set(self.ignored_elements),
            source_file: text_of(self.source_file_name),
            source_path: text_of(self.source_file_path),
        }
    }

    /// The component whose returned markup is being annotated.
    pub closed spec fn scope(&self) -> Option<Seq<char>> {
        text_of(self.current_component_name)
    }

    /// The local name under which the styling helper was imported.
    pub closed spec fn styled(&self) -> Option<Seq<char>> {
        text_of(self.styled_import)
    }

    /// Whether calls of the styling helper are rewritten.
    pub closed spec fn rewrites_styled(&self) -> bool {
        self.config.experimental_rewrite_emotion_styled
    }

    /// Whether two states differ in nothing but the component in scope.
    pub open spec fn same_setup(&self, other: &Self) -> bool {
        &&& self.rules() == other.rules()
        &&& self.styled() == other.styled()
        &&& self.rewrites_styled() == other.rewrites_styled()
    }

    pub fn new(config: PluginConfig, filename: &FileName) -> (visitor: Self)
        ensures
            visitor.rules() == rules_for(config, *filename),
            visitor.scope().is_none(),
            visitor.styled().is_none(),
            visitor.rewrites_styled() == config.experimental_rewrite_emotion_styled,
    {
        let source_file_name = extract_filename(filename);
        let source_file_path = extract_absolute_path(filename);

        // One set for all lookups of this file
        let ignored_components_set = collect_names(&config.ignored_components);

        Self {
            config,
            source_file_name,
            source_file_path,
            current_component_name: None,
            ignored_elements: default_ignored_elements(),
            ignored_components_set,
            styled_import: None,
        }
    }

    pub fn should_ignore_component(&self, component_name: &str) -> (ignored: bool)
        ensures
            ignored == self.rules().ignored.contains(component_name@),
    {
        name_set_contains(&self.ignored_components_set, component_name)
    }

    pub fn should_ignore_element(&self, element_name: &str) -> (known: bool)
        ensures
            known == self.rules().known_tags.contains(element_name@),
    {
        name_set_contains(&self.ignored_elements, element_name)
    }

    /// Adds to one element the attributes that the rules give it in the
    /// current scope.
    pub fn add_attributes_to_element(&self, opening_element: &mut JSXOpeningElement)
        ensures
            opening_annotated(
                self.rules(),
                self.scope(),
                *old(opening_element),
                *final(opening_element),
            ),
    {
        let ghost before = opening_element.attrs@;
        assert(before.take(before.len() as int) =~= before);
        let element_name = get_element_name(&opening_element.name);

        // Grouping tags carry nothing
        if is_react_fragment(&opening_element.name) {
            return ;
        }
        if let Some(component_name) = &self.current_component_name {
            if self.should_ignore_component(component_name.as_str()) {
                return ;
            }
        }
        if self.should_ignore_component(element_name.as_str()) {
            return ;
        }
        let is_ignored_html = self.should_ignore_element(element_name.as_str());
        let in_scope = self.current_component_name.is_some();
        let located = in_scope || !is_ignored_html;

        // The element's own name, for what is not a standard tag
        let names_differ = !(*self.config.component_attr_name() == *self.config.element_attr_name());
        push_attr_if_absent(
            opening_element,
            !is_ignored_html && (names_differ || !in_scope),
            self.config.element_attr_name(),
            element_name.as_str(),
        );
        let ghost with_element = opening_element.attrs@;

        // The component's name, on the root of its markup only
        match &self.current_component_name {
            Some(component_name) => {
                push_attr_if_absent(
                    opening_element,
                    true,
                    self.config.component_attr_name(),
                    component_name.as_str(),
                );
            },
            None => {},
        }
        let ghost with_component = opening_element.attrs@;
        assert(with_component.take(before.len() as int) =~= with_element.take(
            before.len() as int,
        ));

        match &self.source_file_name {
            Some(source_file) => {
                push_attr_if_absent(
                    opening_element,
                    located,
                    self.config.source_file_attr_name(),
                    source_file.as_str(),
                );
            },
            None => {},
        }
        let ghost with_file = opening_element.attrs@;
        assert(with_file.take(before.len() as int) =~= with_component.take(before.len() as int));

        // The path only where the options name its attribute
        if self.config.source_path_attr.is_some() {
            match &self.source_file_path {
                Some(source_path) => {
                    push_attr_if_absent(
                        opening_element,
                        located,
                        self.config.source_path_attr_name(),
                        source_path.as_str(),
                    );
                },
                None => {},
            }
        }
        assert(opening_element.attrs@.take(before.len() as int) =~= with_file.take(
            before.len() as int,
        ));
    }

    /// Walks the children of a node. Fragments keep the scope; with `reset`,
    /// element children are walked in no scope and the scope is put back
    /// after each.
    fn process_children(&mut self, children: &mut Vec<JSXElementChild>, reset: bool)
        ensures
            *final(self) == *old(self),
            children_annotated(
                old(self).rules(),
                old(self).scope(),
                reset,
                *old(children),
                *final(children),
            ),
        decreases *old(children),
    {
        let n = children.len();
        let mut i: usize = 0;
        while i < n
            invariant
                i <= n,
                *self == *old(self),
                children@.len() == n,
                old(children)@.len() == n,
                forall|j: int|
                    0 <= j < i ==> child_annotated(
                        old(self).rules(),
                        old(self).scope(),
                        reset,
                        old(children)@[j],
                        #[trigger] children@[j],
                    ),
                forall|j: int| i <= j < n ==> children@[j] == old(children)@[j],
            decreases n - i,
        {
            match &mut children[i] {
                JSXElementChild::JSXElement(jsx_element) => {
                    if reset {
                        // An element below a real element is no component's root
                        let prev_component = self.current_component_name.take();
                        self.process_jsx_element(jsx_element);
                        self.current_component_name = prev_component;
                    } else {
                        self.process_jsx_element(jsx_element);
                    }
                },
                JSXElementChild::JSXFragment(jsx_fragment) => {
                    self.process_jsx_fragment(jsx_fragment);
                },
                JSXElementChild::Other => {},
            }
            i += 1;
        }
    }

    /// Annotates an element and walks its children.
    pub fn process_jsx_element(&mut self, element: &mut JSXElement)
        ensures
            *final(self) == *old(self),
            element_annotated(
                old(self).rules(),
                old(self).scope(),
                *old(element),
                *final(element),
            ),
        decreases *old(element),
    {
        // A named fragment (Fragment, React.Fragment) is as transparent as `<>`
        let is_fragment = is_react_fragment(&element.opening.name);

        if !is_fragment {
            self.add_attributes_to_element(&mut element.opening);
        }
        self.process_children(&mut element.children, !is_fragment);
    }

    /// Walks the children of a fragment, which never changes the scope.
    pub fn process_jsx_fragment(&mut self, fragment: &mut JSXFragment)
        ensures
            *final(self) == *old(self),
            children_annotated(
                old(self).rules(),
                old(self).scope(),
                false,
                old(fragment).children,
                final(fragment).children,
            ),
        decreases *old(fragment),
    {
        self.process_children(&mut fragment.children, false);
    }

    /// Walks the values that the statements of a body return.
    fn process_return_statements(&mut self, stmts: &mut Vec<Stmt>)
        ensures
            *final(self) == *old(self),
            stmts_annotated(old(self).rules(), old(self).scope(), *old(stmts), *final(stmts)),
    {
        let n = stmts.len();
        let mut i: usize = 0;
        while i < n
            invariant
                i <= n,
                *self == *old(self),
                stmts@.len() == n,
                old(stmts)@.len() == n,
                forall|j: int|
                    0 <= j < i ==> stmt_annotated(
                        old(self).rules(),
                        old(self).scope(),
                        old(stmts)@[j],
                        #[trigger] stmts@[j],
                    ),
                forall|j: int| i <= j < n ==> stmts@[j] == old(stmts)@[j],
            decreases n - i,
        {
            if let Stmt::Return(Some(arg)) = &mut stmts[i] {
                self.process_return_expression(arg);
            }
            i += 1;
        }
    }

    /// Annotates the markup that a function returns, as the component of the
    /// given name. A function without a body is passed over.
    pub fn find_jsx_in_function_body(&mut self, func: &mut Function, component_name: String)
        ensures
            final(self).same_setup(old(self)),
            final(self).scope() == if old(func).body.is_some() {
                None
            } else {
                old(self).scope()
            },
            function_annotated(old(self).rules(), component_name@, *old(func), *final(func)),
    {
        if let Some(body) = &mut func.body {
            self.current_component_name = Some(component_name);
            self.process_return_statements(body);
            self.current_component_name = None;
        }
    }

    /// Annotates a returned value where it is markup, a conditional or in
    /// parentheses; any other value is passed over.
    pub fn process_return_expression(&mut self, expr: &mut Expr)
        ensures
            *final(self) == *old(self),
            expr_annotated(old(self).rules(), old(self).scope(), *old(expr), *final(expr)),
        decreases *old(expr),
    {
        match expr {
            Expr::JSXElement(jsx_element) => {
                self.process_jsx_element(jsx_element);
            },
            Expr::JSXFragment(jsx_fragment) => {
                self.process_jsx_fragment(jsx_fragment);
            },
            Expr::Cond(cond_expr) => {
                // Both branches of a ternary
                self.process_return_expression(&mut cond_expr.cons);
                self.process_return_expression(&mut cond_expr.alt);
            },
            Expr::Paren(paren_expr) => {
                self.process_return_expression(paren_expr);
            },
            _ => {},
        }
    }

    /// Check if a call matches the styled(ComponentRef) pattern, and give the
    /// referenced component.
    pub fn is_styled_call_with_component_ref(&self, call_expr: &CallExpr) -> (reference: Option<
        String,
    >)
        ensures
            text_of(reference) == styled_reference(self.styled(), *call_expr),
    {
        let styled_name = match &self.styled_import {
            Some(name) => name,
            None => {
                return None;
            },
        };
        let callee_name = match &call_expr.callee {
            Some(callee) => match &**callee {
                Expr::Ident(ident) => ident,
                _ => {
                    return None;
                },
            },
            None => {
                return None;
            },
        };
        if !(*callee_name.as_str() == *styled_name.as_str()) {
            return None;
        }
        // The first argument must be a bare identifier, not a spread
        if call_expr.args.len() > 0 {
            let first = &call_expr.args[0];
            if !first.spread {
                if let Expr::Ident(ident) = &first.expr {
                    return Some(ident.clone());
                }
            }
        }
        None
    }

    /// Builds the wrapper `props => <ComponentRef data-element=".." {...props} />`.
    pub fn build_styled_wrapper(
        &self,
        ref_component_name: String,
        styled_component_name: String,
    ) -> (wrapper: Expr)
        ensures
            is_styled_wrapper(
                self.rules(),
                ref_component_name@,
                styled_component_name@,
                wrapper,
            ),
    {
        let mut params: Vec<String> = Vec::new();
        params.push(String::from_str("props"));

        // Data attributes first, then the spread
        let mut attrs: Vec<JSXAttrOrSpread> = Vec::new();
        proof {
            assert(attrs_model(attrs@) =~= Seq::<AttrModel>::empty());
        }

        // The element attribute carries the name of the styled component's binding
        let named = create_jsx_attr(self.config.element_attr_name(), styled_component_name.as_str());
        proof {
            lemma_attrs_model_push(attrs@, named);
        }
        attrs.push(named);

        if let Some(source_file) = &self.source_file_name {
            let file = create_jsx_attr(self.config.source_file_attr_name(), source_file.as_str());
            proof {
                lemma_attrs_model_push(attrs@, file);
            }
            attrs.push(file);
        }
        // The path only where the options name its attribute

        if self.config.source_path_attr.is_some() {
            if let Some(source_path) = &self.source_file_path {
                let path = create_jsx_attr(
                    self.config.source_path_attr_name(),
                    source_path.as_str(),
                );
                proof {
                    lemma_attrs_model_push(attrs@, path);
                }
                attrs.push(path);
            }
        }
        let spread = JSXAttrOrSpread::SpreadElement(
            SpreadElement { ident: Some(String::from_str("props")) },
        );
        proof {
            lemma_attrs_model_push(attrs@, spread);
        }
        attrs.push(spread);

        let jsx_element = JSXElement {
            opening: JSXOpeningElement {
                name: JSXElementName::Ident(ref_component_name),
                attrs,
                self_closing: true,
            },
            children: Vec::new(),
        };
        Expr::Arrow(
            ArrowExpr {
                params,
                body: BlockStmtOrExpr::Expr(Box::new(Expr::JSXElement(jsx_element))),
            },
        )
    }

    /// Transform styled(ComponentRef) to
    /// styled(props => <ComponentRef data-element=".." {...props} />).
    pub fn transform_styled_call(
        &self,
        call_expr: &mut CallExpr,
        ref_component_name: String,
        styled_component_name: String,
    )
        requires
            old(call_expr).args@.len() > 0,
        ensures
            call_rewritten(
                self.rules(),
                ref_component_name@,
                styled_component_name@,
                *old(call_expr),
                *final(call_expr),
            ),
    {
        let wrapper = self.build_styled_wrapper(ref_component_name, styled_component_name);

        // Only the first argument changes
        call_expr.args[0] = ExprOrSpread { spread: false, expr: wrapper };
    }

    /// Records the local name of the styling helper that an import brings in.
    pub fn visit_mut_import_decl(&mut self, import_decl: &ImportDecl)
        ensures
            final(self).rules() == old(self).rules(),
            final(self).scope() == old(self).scope(),
            final(self).rewrites_styled() == old(self).rewrites_styled(),
            final(self).styled() == if old(self).rewrites_styled() && import_decl.src@
                == "@emotion/styled"@ {
                styled_after(old(self).styled(), import_decl.specifiers@)
            } else {
                old(self).styled()
            },
    {
        if self.config.experimental_rewrite_emotion_styled && *import_decl.src.as_str()
            == *"@emotion/styled" {
            let n = import_decl.specifiers.len();
            let mut i: usize = 0;
            assert(import_decl.specifiers@.take(0).len() == 0);
            while i < n
                invariant
                    i <= n,
                    n == import_decl.specifiers@.len(),
                    self.rules() == old(self).rules(),
                    self.scope() == old(self).scope(),
                    self.rewrites_styled() == old(self).rewrites_styled(),
                    self.styled() == styled_after(
                        old(self).styled(),
                        import_decl.specifiers@.take(i as int),
                    ),
                decreases n - i,
            {
                proof {
                    let next = import_decl.specifiers@.take(i + 1);
                    assert(next.drop_last() =~= import_decl.specifiers@.take(i as int));
                    assert(next.last() == import_decl.specifiers@[i as int]);
                }
                match &import_decl.specifiers[i] {
                    // import styled from '@emotion/styled'
                    ImportSpecifier::Default { local } => {
                        self.styled_import = Some(local.clone());
                    },
                    // import { styled } from '@emotion/styled'
                    ImportSpecifier::Named { local, imported } => {
                        let imported_name: Option<&String> = match imported {
                            Some(ModuleExportName::Ident(ident)) => Some(ident),
                            Some(ModuleExportName::Str(_)) => None,
                            None => Some(local),
                        };
                        if let Some(name) = imported_name {
                            if *name.as_str() == *"default" || *name.as_str() == *"styled" {
                                self.styled_import = Some(local.clone());
                            }
                        }
                    },
                    ImportSpecifier::Namespace { .. } => {},
                }
                i += 1;
            }
            assert(import_decl.specifiers@.take(n as int) =~= import_decl.specifiers@);
        }
    }

    /// Annotates the markup that a declared function returns.
    pub fn visit_mut_fn_decl(&mut self, func_decl: &mut FnDecl)
        ensures
            final(self).same_setup(old(self)),
            final(self).scope() == if old(func_decl).function.body.is_some() {
                None
            } else {
                old(self).scope()
            },
            final(func_decl).ident == old(func_decl).ident,
            function_annotated(
                old(self).rules(),
                old(func_decl).ident@,
                old(func_decl).function,
                final(func_decl).function,
            ),
    {
        let component_name = func_decl.ident.clone();
        self.find_jsx_in_function_body(&mut func_decl.function, component_name);
    }

    /// Goes through one variable binding: rewrites a call of the styling
    /// helper, or annotates the markup that a bound function returns.
    pub fn visit_mut_var_declarator(&mut self, var_declarator: &mut VarDeclarator)
        ensures
            final(self).same_setup(old(self)),
            final(self).scope() == if declarator_enters_component(*old(var_declarator)) {
                None
            } else {
                old(self).scope()
            },
            declarator_annotated(
                old(self).rules(),
                old(self).styled(),
                old(self).rewrites_styled(),
                *old(var_declarator),
                *final(var_declarator),
            ),
    {
        let component_name = match &var_declarator.name {
            Some(name) => name.clone(),
            None => {
                return ;
            },
        };
        if let Some(init) = &mut var_declarator.init {
            match init {
                Expr::Call(call_expr) => {
                    if self.config.experimental_rewrite_emotion_styled {
                        if let Some(ref_component_name) = self.is_styled_call_with_component_ref(
                            call_expr,
                        ) {
                            // The binding's own name (e.g., StyledButton) names the element
                            self.transform_styled_call(
                                call_expr,
                                ref_component_name,
                                component_name,
                            );
                        }
                    }
                },
                Expr::Arrow(arrow_func) => {
                    self.current_component_name = Some(component_name);
                    match &mut arrow_func.body {
                        BlockStmtOrExpr::BlockStmt(block) => {
                            self.process_return_statements(block);
                        },
                        BlockStmtOrExpr::Expr(expr) => {
                            // The arrow's value is what it returns
                            self.process_return_expression(expr);
                        },
                    }
                    self.current_component_name = None;
                },
                Expr::Fn(func_expr) => {
                    self.find_jsx_in_function_body(func_expr, component_name);
                },
                _ => {},
            }
        }
    }

    /// Annotates the markup that the `render` methods of a class return.
    pub fn visit_mut_class_decl(&mut self, class_decl: &mut ClassDecl)
        ensures
            final(self).same_setup(old(self)),
            final(self).scope() == if exists|i: int|
                0 <= i < old(class_decl).body@.len() && is_render_method(
                    #[trigger] old(class_decl).body@[i],
                ) {
                None
            } else {
                old(self).scope()
            },
            final(class_decl).ident == old(class_decl).ident,
            final(class_decl).body@.len() == old(class_decl).body@.len(),
            forall|i: int|
                0 <= i < old(class_decl).body@.len() ==> member_annotated(
                    old(self).rules(),
                    old(class_decl).ident@,
                    old(class_decl).body@[i],
                    #[trigger] final(class_decl).body@[i],
                ),
    {
        let component_name = class_decl.ident.clone();
        let n = class_decl.body.len();
        let mut i: usize = 0;
        while i < n
            invariant
                i <= n,
                self.same_setup(old(self)),
                self.scope() == if exists|j: int|
                    0 <= j < i && is_render_method(#[trigger] old(class_decl).body@[j]) {
                    None
                } else {
                    old(self).scope()
                },
                component_name == old(class_decl).ident,
                class_decl.ident == old(class_decl).ident,
                class_decl.body@.len() == n,
                old(class_decl).body@.len() == n,
                forall|j: int|
                    0 <= j < i ==> member_annotated(
                        old(self).rules(),
                        old(class_decl).ident@,
                        old(class_decl).body@[j],
                        #[trigger] class_decl.body@[j],
                    ),
                forall|j: int| i <= j < n ==> class_decl.body@[j] == old(class_decl).body@[j],
            decreases n - i,
        {
            if let ClassMember::Method { key: Some(name), function } = &mut class_decl.body[i] {
                if *name.as_str() == *"render" {
                    self.find_jsx_in_function_body(function, component_name.clone());
                }
            }
            i += 1;
        }
    }
}

} // verus!
