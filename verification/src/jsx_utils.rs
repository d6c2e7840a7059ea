//! Helpers on markup nodes: transparent grouping tags, display names and
//! attributes.

use crate::ast::{
    attrs_model, has_attr_named, string_attr, JSXAttr, JSXAttrName, JSXAttrOrSpread,
    JSXAttrValue, JSXElementName, JSXMemberExpr, JSXObject, JSXOpeningElement,
};
use vstd::prelude::*;
use vstd::string::*;

verus! {

/// `str`'s `==`: two strings are equal when they hold the same characters.
pub assume_specification[ <str as PartialEq>::eq ](a: &str, b: &str) -> (same: bool)
    ensures
        same == (a@ == b@),
;

/// Whether a tag is the transparent grouping tag: `Fragment` or `React.Fragment`.
pub open spec fn is_fragment_name(name: JSXElementName) -> bool {
    match name {
        JSXElementName::Ident(ident) => ident@ == "Fragment"@,
        JSXElementName::JSXMemberExpr(member) => match member.obj {
            JSXObject::Ident(obj) => obj@ == "React"@ && member.prop@ == "Fragment"@,
            JSXObject::JSXMemberExpr(_) => false,
        },
        JSXElementName::JSXNamespacedName(_) => false,
    }
}

/// The dotted name of a member tag: its parts joined by `.`.
pub open spec fn member_expression_name(member: JSXMemberExpr) -> Seq<char>
    decreases member,
{
    match member.obj {
        JSXObject::Ident(ident) => ident@ + "."@ + member.prop@,
        JSXObject::JSXMemberExpr(nested) => member_expression_name(*nested) + "."@ + member.prop@,
    }
}

/// The display name of a tag: the identifier, the dotted path, or `ns:name`.
pub open spec fn element_name(name: JSXElementName) -> Seq<char> {
    match name {
        JSXElementName::Ident(ident) => ident@,
        JSXElementName::JSXMemberExpr(member) => member_expression_name(member),
        JSXElementName::JSXNamespacedName(namespaced) => namespaced.ns@ + ":"@ + namespaced.name@,
    }
}

/// Check if a tag is the transparent grouping tag.
pub fn is_react_fragment(element: &JSXElementName) -> (fragment: bool)
    ensures
        fragment == is_fragment_name(*element),
{
    match element {
        JSXElementName::Ident(ident) => *ident.as_str() == *"Fragment",
        JSXElementName::JSXMemberExpr(member_expr) => {
            match &member_expr.obj {
                JSXObject::Ident(obj) => {
                    *obj.as_str() == *"React" && *member_expr.prop.as_str() == *"Fragment"
                },
                JSXObject::JSXMemberExpr(_) => false,
            }
        },
        JSXElementName::JSXNamespacedName(_) => false,
    }
}

/// Build the name of a member tag (e.g., "Components.UI.Button").
pub fn get_member_expression_name(member_expr: &JSXMemberExpr) -> (name: String)
    ensures
        name@ == member_expression_name(*member_expr),
    decreases *member_expr,
{
    let obj_name = match &member_expr.obj {
        JSXObject::Ident(ident) => ident.clone(),
        JSXObject::JSXMemberExpr(nested_member) => get_member_expression_name(nested_member),
    };
    obj_name.concat(".").concat(member_expr.prop.as_str())
}

/// Extract the display name of a tag.
pub fn get_element_name(element: &JSXElementName) -> (name: String)
    ensures
        name@ == element_name(*element),
{
    match element {
        JSXElementName::Ident(ident) => ident.clone(),
        JSXElementName::JSXMemberExpr(member_expr) => get_member_expression_name(member_expr),
        JSXElementName::JSXNamespacedName(namespaced) => {
            namespaced.ns.clone().concat(":").concat(namespaced.name.as_str())
        },
    }
}

/// Check if an element already has an attribute with the given name.
pub fn has_attribute(element: &JSXOpeningElement, attr_name: &str) -> (found: bool)
    ensures
        found == has_attr_named(attrs_model(element.attrs@), attr_name@),
{
    let n = element.attrs.len();
    let mut i: usize = 0;
    while i < n
        invariant
            i <= n,
            n == element.attrs@.len(),
            forall|j: int|
                0 <= j < i ==> crate::ast::attr_name(#[trigger] attrs_model(element.attrs@)[j]) != Some(
                    attr_name@,
                ),
        decreases n - i,
    {
        if let JSXAttrOrSpread::JSXAttr(jsx_attr) = &element.attrs[i] {
            if let JSXAttrName::Ident(ident) = &jsx_attr.name {
                if *ident.as_str() == *attr_name {
                    assert(attrs_model(element.attrs@)[i as int] == element.attrs@[i as int]@);
                    return true;
                }
            }
        }
        i += 1;
    }
    false
}

/// Create an attribute with a string value.
pub fn create_jsx_attr(name: &str, value: &str) -> (attr: JSXAttrOrSpread)
    ensures
        attr@ == string_attr(name@, value@),
{
    JSXAttrOrSpread::JSXAttr(
        JSXAttr {
            name: JSXAttrName::Ident(String::from_str(name)),
            value: Some(JSXAttrValue::Str(String::from_str(value))),
        },
    )
}

} // verus!
