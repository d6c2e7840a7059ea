//! The standard markup tags, which are not components.

use crate::names::{empty_name_set, name_set, name_set_insert};
use rustc_hash::FxHashSet;
use vstd::prelude::*;
use vstd::string::*;

verus! {

/// The names of the standard markup tags.
pub open spec fn known_markup_tags() -> Set<Seq<char>> {
    Set::<Seq<char>>::empty()
        .insert("a"@)
        .insert("abbr"@)
        .insert("address"@)
        .insert("area"@)
        .insert("article"@)
        .insert("aside"@)
        .insert("audio"@)
        .insert("b"@)
        .insert("base"@)
        .insert("bdi"@)
        .insert("bdo"@)
        .insert("blockquote"@)
        .insert("body"@)
        .insert("br"@)
        .insert("button"@)
        .insert("canvas"@)
        .insert("caption"@)
        .insert("cite"@)
        .insert("code"@)
        .insert("col"@)
        .insert("colgroup"@)
        .insert("data"@)
        .insert("datalist"@)
        .insert("dd"@)
        .insert("del"@)
        .insert("details"@)
        .insert("dfn"@)
        .insert("dialog"@)
        .insert("div"@)
        .insert("dl"@)
        .insert("dt"@)
        .insert("em"@)
        .insert("embed"@)
        .insert("fieldset"@)
        .insert("figure"@)
        .insert("footer"@)
        .insert("form"@)
        .insert("h1"@)
        .insert("h2"@)
        .insert("h3"@)
        .insert("h4"@)
        .insert("h5"@)
        .insert("h6"@)
        .insert("head"@)
        .insert("header"@)
        .insert("hgroup"@)
        .insert("hr"@)
        .insert("html"@)
        .insert("i"@)
        .insert("iframe"@)
        .insert("img"@)
        .insert("input"@)
        .insert("ins"@)
        .insert("kbd"@)
        .insert("keygen"@)
        .insert("label"@)
        .insert("legend"@)
        .insert("li"@)
        .insert("link"@)
        .insert("main"@)
        .insert("map"@)
        .insert("mark"@)
        .insert("menu"@)
        .insert("menuitem"@)
        .insert("meter"@)
        .insert("nav"@)
        .insert("noscript"@)
        .insert("object"@)
        .insert("ol"@)
        .insert("optgroup"@)
        .insert("option"@)
        .insert("output"@)
        .insert("p"@)
        .insert("param"@)
        .insert("pre"@)
        .insert("progress"@)
        .insert("q"@)
        .insert("rb"@)
        .insert("rp"@)
        .insert("rt"@)
        .insert("rtc"@)
        .insert("ruby"@)
        .insert("s"@)
        .insert("samp"@)
        .insert("script"@)
        .insert("section"@)
        .insert("select"@)
        .insert("small"@)
        .insert("source"@)
        .insert("span"@)
        .insert("strong"@)
        .insert("style"@)
        .insert("sub"@)
        .insert("summary"@)
        .insert("sup"@)
        .insert("table"@)
        .insert("tbody"@)
        .insert("td"@)
        .insert("template"@)
        .insert("textarea"@)
        .insert("tfoot"@)
        .insert("th"@)
        .insert("thead"@)
        .insert("time"@)
        .insert("title"@)
        .insert("tr"@)
        .insert("track"@)
        .insert("u"@)
        .insert("ul"@)
        .insert("var"@)
        .insert("video"@)
        .insert("wbr"@)
}

fn add_tag(set: &mut FxHashSet<String>, tag: &str)
    ensures
        name_set(*final(set)) == name_set(*old(set)).insert(tag@),
{
    name_set_insert(set, String::from_str(tag));
}

/// The set of the standard markup tags.
pub fn default_ignored_elements() -> (set: FxHashSet<String>)
    ensures
        name_set(set) == known_markup_tags(),
{
    let mut set = empty_name_set();
    add_tag(&mut set, "a");
    add_tag(&mut set, "abbr");
    add_tag(&mut set, "address");
    add_tag(&mut set, "area");
    add_tag(&mut set, "article");
    add_tag(&mut set, "aside");
    add_tag(&mut set, "audio");
    add_tag(&mut set, "b");
    add_tag(&mut set, "base");
    add_tag(&mut set, "bdi");
    add_tag(&mut set, "bdo");
    add_tag(&mut set, "blockquote");
    add_tag(&mut set, "body");
    add_tag(&mut set, "br");
    add_tag(&mut set, "button");
    add_tag(&mut set, "canvas");
    add_tag(&mut set, "caption");
    add_tag(&mut set, "cite");
    add_tag(&mut set, "code");
    add_tag(&mut set, "col");
    add_tag(&mut set, "colgroup");
    add_tag(&mut set, "data");
    add_tag(&mut set, "datalist");
    add_tag(&mut set, "dd");
    add_tag(&mut set, "del");
    add_tag(&mut set, "details");
    add_tag(&mut set, "dfn");
    add_tag(&mut set, "dialog");
    add_tag(&mut set, "div");
    add_tag(&mut set, "dl");
    add_tag(&mut set, "dt");
    add_tag(&mut set, "em");
    add_tag(&mut set, "embed");
    add_tag(&mut set, "fieldset");
    add_tag(&mut set, "figure");
    add_tag(&mut set, "footer");
    add_tag(&mut set, "form");
    add_tag(&mut set, "h1");
    add_tag(&mut set, "h2");
    add_tag(&mut set, "h3");
    add_tag(&mut set, "h4");
    add_tag(&mut set, "h5");
    add_tag(&mut set, "h6");
    add_tag(&mut set, "head");
    add_tag(&mut set, "header");
    add_tag(&mut set, "hgroup");
    add_tag(&mut set, "hr");
    add_tag(&mut set, "html");
    add_tag(&mut set, "i");
    add_tag(&mut set, "iframe");
    add_tag(&mut set, "img");
    add_tag(&mut set, "input");
    add_tag(&mut set, "ins");
    add_tag(&mut set, "kbd");
    add_tag(&mut set, "keygen");
    add_tag(&mut set, "label");
    add_tag(&mut set, "legend");
    add_tag(&mut set, "li");
    add_tag(&mut set, "link");
    add_tag(&mut set, "main");
    add_tag(&mut set, "map");
    add_tag(&mut set, "mark");
    add_tag(&mut set, "menu");
    add_tag(&mut set, "menuitem");
    add_tag(&mut set, "meter");
    add_tag(&mut set, "nav");
    add_tag(&mut set, "noscript");
    add_tag(&mut set, "object");
    add_tag(&mut set, "ol");
    add_tag(&mut set, "optgroup");
    add_tag(&mut set, "option");
    add_tag(&mut set, "output");
    add_tag(&mut set, "p");
    add_tag(&mut set, "param");
    add_tag(&mut set, "pre");
    add_tag(&mut set, "progress");
    add_tag(&mut set, "q");
    add_tag(&mut set, "rb");
    add_tag(&mut set, "rp");
    add_tag(&mut set, "rt");
    add_tag(&mut set, "rtc");
    add_tag(&mut set, "ruby");
    add_tag(&mut set, "s");
    add_tag(&mut set, "samp");
    add_tag(&mut set, "script");
    add_tag(&mut set, "section");
    add_tag(&mut set, "select");
    add_tag(&mut set, "small");
    add_tag(&mut set, "source");
    add_tag(&mut set, "span");
    add_tag(&mut set, "strong");
    add_tag(&mut set, "style");
    add_tag(&mut set, "sub");
    add_tag(&mut set, "summary");
    add_tag(&mut set, "sup");
    add_tag(&mut set, "table");
    add_tag(&mut set, "tbody");
    add_tag(&mut set, "td");
    add_tag(&mut set, "template");
    add_tag(&mut set, "textarea");
    add_tag(&mut set, "tfoot");
    add_tag(&mut set, "th");
    add_tag(&mut set, "thead");
    add_tag(&mut set, "time");
    add_tag(&mut set, "title");
    add_tag(&mut set, "tr");
    add_tag(&mut set, "track");
    add_tag(&mut set, "u");
    add_tag(&mut set, "ul");
    add_tag(&mut set, "var");
    add_tag(&mut set, "video");
    add_tag(&mut set, "wbr");
    set
}

} // verus!
