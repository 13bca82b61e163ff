//! The default rule set: the shorthand tables a `Zephyr::new` registry
//! starts from.  These are data, not logic: every table can be replaced or
//! extended by the caller, and every lookup falls back to the raw token.

use vstd::prelude::*;

verus! {

use crate::table::{ContextTable, SpecialTable, SpecialTemplate, Table};

/// The default no-value declaration blocks.
pub open spec fn spec_default_declarations() -> Seq<(Seq<char>, Seq<char>)> {
    seq![
        ("flex"@, "display:flex"@),
        ("flex-row"@, "display:flex;flex-direction:row"@),
        ("flex-col"@, "display:flex;flex-direction:column"@),
        ("items-center"@, "align-items:center"@),
        ("items-start"@, "align-items:flex-start"@),
        ("items-end"@, "align-items:flex-end"@),
        ("justify-center"@, "justify-content:center"@),
        ("justify-between"@, "justify-content:space-between"@),
        ("justify-evenly"@, "justify-content:space-evenly"@),
        ("text-left"@, "text-align:left"@),
        ("text-right"@, "text-align:right"@),
    ]
}

/// The default no-value declaration blocks.
pub fn default_declarations() -> (t: Table)
    ensures
        t@ == spec_default_declarations(),
{
    let mut t = Table::new();
    t.set("flex", "display:flex");
    t.set("flex-row", "display:flex;flex-direction:row");
    t.set("flex-col", "display:flex;flex-direction:column");
    t.set("items-center", "align-items:center");
    t.set("items-start", "align-items:flex-start");
    t.set("items-end", "align-items:flex-end");
    t.set("justify-center", "justify-content:center");
    t.set("justify-between", "justify-content:space-between");
    t.set("justify-evenly", "justify-content:space-evenly");
    t.set("text-left", "text-align:left");
    t.set("text-right", "text-align:right");
    proof {
        assert(t@ =~= spec_default_declarations());
    }
    t
}

/// The default property-name shorthands.
pub open spec fn spec_default_properties() -> Seq<(Seq<char>, Seq<char>)> {
    seq![
        ("w"@, "width"@),
        ("h"@, "height"@),
        ("m"@, "margin"@),
        ("mt"@, "margin-top"@),
        ("mb"@, "margin-bottom"@),
        ("ml"@, "margin-left"@),
        ("mr"@, "margin-right"@),
        ("p"@, "padding"@),
        ("pt"@, "padding-top"@),
        ("pb"@, "padding-bottom"@),
        ("pl"@, "padding-left"@),
        ("pr"@, "padding-right"@),
        ("c"@, "color"@),
        ("bg"@, "background"@),
        ("bgc"@, "background-color"@),
        ("tt"@, "text-transform"@),
        ("td"@, "text-decoration"@),
        ("fw"@, "font-weight"@),
        ("ff"@, "font-family"@),
        ("fs"@, "font-size"@),
    ]
}

/// The default property-name shorthands.
pub fn default_properties() -> (t: Table)
    ensures
        t@ == spec_default_properties(),
{
    let mut t = Table::new();
    t.set("w", "width");
    t.set("h", "height");
    t.set("m", "margin");
    t.set("mt", "margin-top");
    t.set("mb", "margin-bottom");
    t.set("ml", "margin-left");
    t.set("mr", "margin-right");
    t.set("p", "padding");
    t.set("pt", "padding-top");
    t.set("pb", "padding-bottom");
    t.set("pl", "padding-left");
    t.set("pr", "padding-right");
    t.set("c", "color");
    t.set("bg", "background");
    t.set("bgc", "background-color");
    t.set("tt", "text-transform");
    t.set("td", "text-decoration");
    t.set("fw", "font-weight");
    t.set("ff", "font-family");
    t.set("fs", "font-size");
    proof {
        assert(t@ =~= spec_default_properties());
    }
    t
}

/// The default global value shorthands.
pub open spec fn spec_default_values() -> Seq<(Seq<char>, Seq<char>)> {
    seq![
        ("full"@, "100%"@),
    ]
}

/// The default global value shorthands.
pub fn default_values() -> (t: Table)
    ensures
        t@ == spec_default_values(),
{
    let mut t = Table::new();
    t.set("full", "100%");
    proof {
        assert(t@ =~= spec_default_values());
    }
    t
}

/// The default pseudo-class shorthands.
pub open spec fn spec_default_modifiers() -> Seq<(Seq<char>, Seq<char>)> {
    seq![
        ("odd"@, "nth-child(odd)"@),
        ("even"@, "nth-child(even)"@),
        ("first"@, "first-child"@),
        ("last"@, "last-child"@),
        ("only"@, "only-child"@),
    ]
}

/// The default pseudo-class shorthands.
pub fn default_modifiers() -> (t: Table)
    ensures
        t@ == spec_default_modifiers(),
{
    let mut t = Table::new();
    t.set("odd", "nth-child(odd)");
    t.set("even", "nth-child(even)");
    t.set("first", "first-child");
    t.set("last", "last-child");
    t.set("only", "only-child");
    proof {
        assert(t@ =~= spec_default_modifiers());
    }
    t
}

/// The default pseudo-element shorthands.
pub open spec fn spec_default_pseudos() -> Seq<(Seq<char>, Seq<char>)> {
    seq![
        ("ph"@, "placeholder"@),
    ]
}

/// The default pseudo-element shorthands.
pub fn default_pseudos() -> (t: Table)
    ensures
        t@ == spec_default_pseudos(),
{
    let mut t = Table::new();
    t.set("ph", "placeholder");
    proof {
        assert(t@ =~= spec_default_pseudos());
    }
    t
}

/// The default context-aware values scoped to `text-decoration`.
pub open spec fn spec_ctx_text_decoration() -> Seq<(Seq<char>, Seq<char>)> {
    seq![
        ("u"@, "underline"@),
        ("ud"@, "underline dotted"@),
        ("uw"@, "underline wavy"@),
        ("o"@, "overline"@),
        ("od"@, "overline dotted"@),
        ("ow"@, "overline wavy"@),
    ]
}

/// The default context-aware values scoped to `text-transform`.
pub open spec fn spec_ctx_text_transform() -> Seq<(Seq<char>, Seq<char>)> {
    seq![
        ("c"@, "capitalize"@),
        ("u"@, "uppercase"@),
        ("l"@, "lowercase"@),
    ]
}

/// The default context-aware values scoped to `overflow`.
pub open spec fn spec_ctx_overflow() -> Seq<(Seq<char>, Seq<char>)> {
    seq![
        ("v"@, "visible"@),
        ("h"@, "hidden"@),
        ("s"@, "scroll"@),
        ("c"@, "clip"@),
    ]
}

/// The default context-aware values scoped to `overflow-x`.
pub open spec fn spec_ctx_overflow_x() -> Seq<(Seq<char>, Seq<char>)> {
    seq![
        ("v"@, "visible"@),
        ("h"@, "hidden"@),
        ("s"@, "scroll"@),
        ("c"@, "clip"@),
    ]
}

/// The default context-aware values scoped to `overflow-y`.
pub open spec fn spec_ctx_overflow_y() -> Seq<(Seq<char>, Seq<char>)> {
    seq![
        ("v"@, "visible"@),
        ("h"@, "hidden"@),
        ("s"@, "scroll"@),
        ("c"@, "clip"@),
    ]
}

/// The default context-aware value tables, keyed by resolved property.
pub open spec fn spec_default_context_aware_values() -> Seq<
    (Seq<char>, Seq<(Seq<char>, Seq<char>)>),
> {
    seq![
        ("text-decoration"@, spec_ctx_text_decoration()),
        ("text-transform"@, spec_ctx_text_transform()),
        ("overflow"@, spec_ctx_overflow()),
        ("overflow-x"@, spec_ctx_overflow_x()),
        ("overflow-y"@, spec_ctx_overflow_y()),
    ]
}

/// The default context-aware value tables.
pub fn default_context_aware_values() -> (t: ContextTable)
    ensures
        t@ == spec_default_context_aware_values(),
{
    let mut t = ContextTable::new();
    {
        let mut s = Table::new();
        s.set("u", "underline");
        s.set("ud", "underline dotted");
        s.set("uw", "underline wavy");
        s.set("o", "overline");
        s.set("od", "overline dotted");
        s.set("ow", "overline wavy");
        proof {
            assert(s@ =~= spec_ctx_text_decoration());
        }
        t.set("text-decoration", s);
    }
    {
        let mut s = Table::new();
        s.set("c", "capitalize");
        s.set("u", "uppercase");
        s.set("l", "lowercase");
        proof {
            assert(s@ =~= spec_ctx_text_transform());
        }
        t.set("text-transform", s);
    }
    {
        let mut s = Table::new();
        s.set("v", "visible");
        s.set("h", "hidden");
        s.set("s", "scroll");
        s.set("c", "clip");
        proof {
            assert(s@ =~= spec_ctx_overflow());
        }
        t.set("overflow", s);
    }
    {
        let mut s = Table::new();
        s.set("v", "visible");
        s.set("h", "hidden");
        s.set("s", "scroll");
        s.set("c", "clip");
        proof {
            assert(s@ =~= spec_ctx_overflow_x());
        }
        t.set("overflow-x", s);
    }
    {
        let mut s = Table::new();
        s.set("v", "visible");
        s.set("h", "hidden");
        s.set("s", "scroll");
        s.set("c", "clip");
        proof {
            assert(s@ =~= spec_ctx_overflow_y());
        }
        t.set("overflow-y", s);
    }
    proof {
        assert(t@ =~= spec_default_context_aware_values());
    }
    t
}

/// The default multi-declaration templates: axis shorthands that expand
/// one value into two properties, and `wh` into width and height.
pub open spec fn spec_default_specials() -> Seq<(Seq<char>, Seq<Seq<char>>)> {
    seq![
        ("mx"@, seq!["margin-left:"@, ";margin-right:"@, ""@]),
        ("my"@, seq!["margin-top:"@, ";margin-bottom:"@, ""@]),
        ("px"@, seq!["padding-left:"@, ";padding-right:"@, ""@]),
        ("py"@, seq!["padding-top:"@, ";padding-bottom:"@, ""@]),
        ("wh"@, seq!["width:"@, ";height:"@, ";"@]),
    ]
}

/// The default multi-declaration templates.
pub fn default_specials() -> (t: SpecialTable)
    ensures
        t@ == spec_default_specials(),
{
    let mut t = SpecialTable::new();
    {
        let mut parts: Vec<String> = Vec::new();
        parts.push("margin-left:".to_owned());
        parts.push(";margin-right:".to_owned());
        parts.push("".to_owned());
        t.set("mx", SpecialTemplate::new(parts));
    }
    {
        let mut parts: Vec<String> = Vec::new();
        parts.push("margin-top:".to_owned());
        parts.push(";margin-bottom:".to_owned());
        parts.push("".to_owned());
        t.set("my", SpecialTemplate::new(parts));
    }
    {
        let mut parts: Vec<String> = Vec::new();
        parts.push("padding-left:".to_owned());
        parts.push(";padding-right:".to_owned());
        parts.push("".to_owned());
        t.set("px", SpecialTemplate::new(parts));
    }
    {
        let mut parts: Vec<String> = Vec::new();
        parts.push("padding-top:".to_owned());
        parts.push(";padding-bottom:".to_owned());
        parts.push("".to_owned());
        t.set("py", SpecialTemplate::new(parts));
    }
    {
        let mut parts: Vec<String> = Vec::new();
        parts.push("width:".to_owned());
        parts.push(";height:".to_owned());
        parts.push(";".to_owned());
        t.set("wh", SpecialTemplate::new(parts));
    }
    proof {
        assert(t@ =~~= spec_default_specials());
    }
    t
}

/// One stretch of the CSS named-color declarations.
pub open spec fn spec_color_declarations_0() -> Seq<(Seq<char>, Seq<char>)> {
    seq![
        ("aliceblue"@, "color:aliceblue"@),
        ("antiquewhite"@, "color:antiquewhite"@),
        ("aqua"@, "color:aqua"@),
        ("aquamarine"@, "color:aquamarine"@),
        ("azure"@, "color:azure"@),
        ("beige"@, "color:beige"@),
        ("bisque"@, "color:bisque"@),
        ("black"@, "color:black"@),
        ("blanchedalmond"@, "color:blanchedalmond"@),
        ("blue"@, "color:blue"@),
        ("blueviolet"@, "color:blueviolet"@),
        ("brown"@, "color:brown"@),
        ("burlywood"@, "color:burlywood"@),
        ("cadetblue"@, "color:cadetblue"@),
        ("chartreuse"@, "color:chartreuse"@),
        ("chocolate"@, "color:chocolate"@),
        ("coral"@, "color:coral"@),
        ("cornflowerblue"@, "color:cornflowerblue"@),
        ("cornsilk"@, "color:cornsilk"@),
        ("crimson"@, "color:crimson"@),
    ]
}

/// Appends one stretch of the CSS named-color declarations.
fn add_colors_0(t: &mut Table)
    ensures
        final(t)@ == old(t)@ + spec_color_declarations_0(),
{
    t.set("aliceblue", "color:aliceblue");
    t.set("antiquewhite", "color:antiquewhite");
    t.set("aqua", "color:aqua");
    t.set("aquamarine", "color:aquamarine");
    t.set("azure", "color:azure");
    t.set("beige", "color:beige");
    t.set("bisque", "color:bisque");
    t.set("black", "color:black");
    t.set("blanchedalmond", "color:blanchedalmond");
    t.set("blue", "color:blue");
    t.set("blueviolet", "color:blueviolet");
    t.set("brown", "color:brown");
    t.set("burlywood", "color:burlywood");
    t.set("cadetblue", "color:cadetblue");
    t.set("chartreuse", "color:chartreuse");
    t.set("chocolate", "color:chocolate");
    t.set("coral", "color:coral");
    t.set("cornflowerblue", "color:cornflowerblue");
    t.set("cornsilk", "color:cornsilk");
    t.set("crimson", "color:crimson");
    proof {
        assert(t@ =~= old(t)@ + spec_color_declarations_0());
    }
}

/// One stretch of the CSS named-color declarations.
pub open spec fn spec_color_declarations_1() -> Seq<(Seq<char>, Seq<char>)> {
    seq![
        ("cyan"@, "color:cyan"@),
        ("darkblue"@, "color:darkblue"@),
        ("darkcyan"@, "color:darkcyan"@),
        ("darkgoldenrod"@, "color:darkgoldenrod"@),
        ("darkgray"@, "color:darkgray"@),
        ("darkgreen"@, "color:darkgreen"@),
        ("darkgrey"@, "color:darkgrey"@),
        ("darkkhaki"@, "color:darkkhaki"@),
        ("darkmagenta"@, "color:darkmagenta"@),
        ("darkolivegreen"@, "color:darkolivegreen"@),
        ("darkorange"@, "color:darkorange"@),
        ("darkorchid"@, "color:darkorchid"@),
        ("darkred"@, "color:darkred"@),
        ("darksalmon"@, "color:darksalmon"@),
        ("darkseagreen"@, "color:darkseagreen"@),
        ("darkslateblue"@, "color:darkslateblue"@),
        ("darkslategray"@, "color:darkslategray"@),
        ("darkslategrey"@, "color:darkslategrey"@),
        ("darkturquoise"@, "color:darkturquoise"@),
        ("darkviolet"@, "color:darkviolet"@),
    ]
}

/// Appends one stretch of the CSS named-color declarations.
fn add_colors_1(t: &mut Table)
    ensures
        final(t)@ == old(t)@ + spec_color_declarations_1(),
{
    t.set("cyan", "color:cyan");
    t.set("darkblue", "color:darkblue");
    t.set("darkcyan", "color:darkcyan");
    t.set("darkgoldenrod", "color:darkgoldenrod");
    t.set("darkgray", "color:darkgray");
    t.set("darkgreen", "color:darkgreen");
    t.set("darkgrey", "color:darkgrey");
    t.set("darkkhaki", "color:darkkhaki");
    t.set("darkmagenta", "color:darkmagenta");
    t.set("darkolivegreen", "color:darkolivegreen");
    t.set("darkorange", "color:darkorange");
    t.set("darkorchid", "color:darkorchid");
    t.set("darkred", "color:darkred");
    t.set("darksalmon", "color:darksalmon");
    t.set("darkseagreen", "color:darkseagreen");
    t.set("darkslateblue", "color:darkslateblue");
    t.set("darkslategray", "color:darkslategray");
    t.set("darkslategrey", "color:darkslategrey");
    t.set("darkturquoise", "color:darkturquoise");
    t.set("darkviolet", "color:darkviolet");
    proof {
        assert(t@ =~= old(t)@ + spec_color_declarations_1());
    }
}

/// One stretch of the CSS named-color declarations.
pub open spec fn spec_color_declarations_2() -> Seq<(Seq<char>, Seq<char>)> {
    seq![
        ("deeppink"@, "color:deeppink"@),
        ("deepskyblue"@, "color:deepskyblue"@),
        ("dimgray"@, "color:dimgray"@),
        ("dimgrey"@, "color:dimgrey"@),
        ("dodgerblue"@, "color:dodgerblue"@),
        ("firebrick"@, "color:firebrick"@),
        ("floralwhite"@, "color:floralwhite"@),
        ("forestgreen"@, "color:forestgreen"@),
        ("fuchsia"@, "color:fuchsia"@),
        ("gainsboro"@, "color:gainsboro"@),
        ("ghostwhite"@, "color:ghostwhite"@),
        ("gold"@, "color:gold"@),
        ("goldenrod"@, "color:goldenrod"@),
        ("gray"@, "color:gray"@),
        ("green"@, "color:green"@),
        ("greenyellow"@, "color:greenyellow"@),
        ("grey"@, "color:grey"@),
        ("honeydew"@, "color:honeydew"@),
        ("hotpink"@, "color:hotpink"@),
        ("indianred"@, "color:indianred"@),
    ]
}

/// Appends one stretch of the CSS named-color declarations.
fn add_colors_2(t: &mut Table)
    ensures
        final(t)@ == old(t)@ + spec_color_declarations_2(),
{
    t.set("deeppink", "color:deeppink");
    t.set("deepskyblue", "color:deepskyblue");
    t.set("dimgray", "color:dimgray");
    t.set("dimgrey", "color:dimgrey");
    t.set("dodgerblue", "color:dodgerblue");
    t.set("firebrick", "color:firebrick");
    t.set("floralwhite", "color:floralwhite");
    t.set("forestgreen", "color:forestgreen");
    t.set("fuchsia", "color:fuchsia");
    t.set("gainsboro", "color:gainsboro");
    t.set("ghostwhite", "color:ghostwhite");
    t.set("gold", "color:gold");
    t.set("goldenrod", "color:goldenrod");
    t.set("gray", "color:gray");
    t.set("green", "color:green");
    t.set("greenyellow", "color:greenyellow");
    t.set("grey", "color:grey");
    t.set("honeydew", "color:honeydew");
    t.set("hotpink", "color:hotpink");
    t.set("indianred", "color:indianred");
    proof {
        assert(t@ =~= old(t)@ + spec_color_declarations_2());
    }
}

/// One stretch of the CSS named-color declarations.
pub open spec fn spec_color_declarations_3() -> Seq<(Seq<char>, Seq<char>)> {
    seq![
        ("indigo"@, "color:indigo"@),
        ("ivory"@, "color:ivory"@),
        ("khaki"@, "color:khaki"@),
        ("lavender"@, "color:lavender"@),
        ("lavenderblush"@, "color:lavenderblush"@),
        ("lawngreen"@, "color:lawngreen"@),
        ("lemonchiffon"@, "color:lemonchiffon"@),
        ("lightblue"@, "color:lightblue"@),
        ("lightcoral"@, "color:lightcoral"@),
        ("lightcyan"@, "color:lightcyan"@),
        ("lightgoldenrodyellow"@, "color:lightgoldenrodyellow"@),
        ("lightgray"@, "color:lightgray"@),
        ("lightgreen"@, "color:lightgreen"@),
        ("lightgrey"@, "color:lightgrey"@),
        ("lightpink"@, "color:lightpink"@),
        ("lightsalmon"@, "color:lightsalmon"@),
        ("lightseagreen"@, "color:lightseagreen"@),
        ("lightskyblue"@, "color:lightskyblue"@),
        ("lightslategray"@, "color:lightslategray"@),
        ("lightslategrey"@, "color:lightslategrey"@),
    ]
}

/// Appends one stretch of the CSS named-color declarations.
fn add_colors_3(t: &mut Table)
    ensures
        final(t)@ == old(t)@ + spec_color_declarations_3(),
{
    t.set("indigo", "color:indigo");
    t.set("ivory", "color:ivory");
    t.set("khaki", "color:khaki");
    t.set("lavender", "color:lavender");
    t.set("lavenderblush", "color:lavenderblush");
    t.set("lawngreen", "color:lawngreen");
    t.set("lemonchiffon", "color:lemonchiffon");
    t.set("lightblue", "color:lightblue");
    t.set("lightcoral", "color:lightcoral");
    t.set("lightcyan", "color:lightcyan");
    t.set("lightgoldenrodyellow", "color:lightgoldenrodyellow");
    t.set("lightgray", "color:lightgray");
    t.set("lightgreen", "color:lightgreen");
    t.set("lightgrey", "color:lightgrey");
    t.set("lightpink", "color:lightpink");
    t.set("lightsalmon", "color:lightsalmon");
    t.set("lightseagreen", "color:lightseagreen");
    t.set("lightskyblue", "color:lightskyblue");
    t.set("lightslategray", "color:lightslategray");
    t.set("lightslategrey", "color:lightslategrey");
    proof {
        assert(t@ =~= old(t)@ + spec_color_declarations_3());
    }
}

/// One stretch of the CSS named-color declarations.
pub open spec fn spec_color_declarations_4() -> Seq<(Seq<char>, Seq<char>)> {
    seq![
        ("lightsteelblue"@, "color:lightsteelblue"@),
        ("lightyellow"@, "color:lightyellow"@),
        ("lime"@, "color:lime"@),
        ("limegreen"@, "color:limegreen"@),
        ("linen"@, "color:linen"@),
        ("magenta"@, "color:magenta"@),
        ("maroon"@, "color:maroon"@),
        ("mediumaquamarine"@, "color:mediumaquamarine"@),
        ("mediumblue"@, "color:mediumblue"@),
        ("mediumorchid"@, "color:mediumorchid"@),
        ("mediumpurple"@, "color:mediumpurple"@),
        ("mediumseagreen"@, "color:mediumseagreen"@),
        ("mediumslateblue"@, "color:mediumslateblue"@),
        ("mediumspringgreen"@, "color:mediumspringgreen"@),
        ("mediumturquoise"@, "color:mediumturquoise"@),
        ("mediumvioletred"@, "color:mediumvioletred"@),
        ("midnightblue"@, "color:midnightblue"@),
        ("mintcream"@, "color:mintcream"@),
        ("mistyrose"@, "color:mistyrose"@),
        ("moccasin"@, "color:moccasin"@),
    ]
}

/// Appends one stretch of the CSS named-color declarations.
fn add_colors_4(t: &mut Table)
    ensures
        final(t)@ == old(t)@ + spec_color_declarations_4(),
{
    t.set("lightsteelblue", "color:lightsteelblue");
    t.set("lightyellow", "color:lightyellow");
    t.set("lime", "color:lime");
    t.set("limegreen", "color:limegreen");
    t.set("linen", "color:linen");
    t.set("magenta", "color:magenta");
    t.set("maroon", "color:maroon");
    t.set("mediumaquamarine", "color:mediumaquamarine");
    t.set("mediumblue", "color:mediumblue");
    t.set("mediumorchid", "color:mediumorchid");
    t.set("mediumpurple", "color:mediumpurple");
    t.set("mediumseagreen", "color:mediumseagreen");
    t.set("mediumslateblue", "color:mediumslateblue");
    t.set("mediumspringgreen", "color:mediumspringgreen");
    t.set("mediumturquoise", "color:mediumturquoise");
    t.set("mediumvioletred", "color:mediumvioletred");
    t.set("midnightblue", "color:midnightblue");
    t.set("mintcream", "color:mintcream");
    t.set("mistyrose", "color:mistyrose");
    t.set("moccasin", "color:moccasin");
    proof {
        assert(t@ =~= old(t)@ + spec_color_declarations_4());
    }
}

/// One stretch of the CSS named-color declarations.
pub open spec fn spec_color_declarations_5() -> Seq<(Seq<char>, Seq<char>)> {
    seq![
        ("navajowhite"@, "color:navajowhite"@),
        ("navy"@, "color:navy"@),
        ("oldlace"@, "color:oldlace"@),
        ("olive"@, "color:olive"@),
        ("olivedrab"@, "color:olivedrab"@),
        ("orange"@, "color:orange"@),
        ("orangered"@, "color:orangered"@),
        ("orchid"@, "color:orchid"@),
        ("palegoldenrod"@, "color:palegoldenrod"@),
        ("palegreen"@, "color:palegreen"@),
        ("paleturquoise"@, "color:paleturquoise"@),
        ("palevioletred"@, "color:palevioletred"@),
        ("papayawhip"@, "color:papayawhip"@),
        ("peachpuff"@, "color:peachpuff"@),
        ("peru"@, "color:peru"@),
        ("pink"@, "color:pink"@),
        ("plum"@, "color:plum"@),
        ("powderblue"@, "color:powderblue"@),
        ("purple"@, "color:purple"@),
        ("rebeccapurple"@, "color:rebeccapurple"@),
    ]
}

/// Appends one stretch of the CSS named-color declarations.
fn add_colors_5(t: &mut Table)
    ensures
        final(t)@ == old(t)@ + spec_color_declarations_5(),
{
    t.set("navajowhite", "color:navajowhite");
    t.set("navy", "color:navy");
    t.set("oldlace", "color:oldlace");
    t.set("olive", "color:olive");
    t.set("olivedrab", "color:olivedrab");
    t.set("orange", "color:orange");
    t.set("orangered", "color:orangered");
    t.set("orchid", "color:orchid");
    t.set("palegoldenrod", "color:palegoldenrod");
    t.set("palegreen", "color:palegreen");
    t.set("paleturquoise", "color:paleturquoise");
    t.set("palevioletred", "color:palevioletred");
    t.set("papayawhip", "color:papayawhip");
    t.set("peachpuff", "color:peachpuff");
    t.set("peru", "color:peru");
    t.set("pink", "color:pink");
    t.set("plum", "color:plum");
    t.set("powderblue", "color:powderblue");
    t.set("purple", "color:purple");
    t.set("rebeccapurple", "color:rebeccapurple");
    proof {
        assert(t@ =~= old(t)@ + spec_color_declarations_5());
    }
}

/// One stretch of the CSS named-color declarations.
pub open spec fn spec_color_declarations_6() -> Seq<(Seq<char>, Seq<char>)> {
    seq![
        ("red"@, "color:red"@),
        ("rosybrown"@, "color:rosybrown"@),
        ("royalblue"@, "color:royalblue"@),
        ("saddlebrown"@, "color:saddlebrown"@),
        ("salmon"@, "color:salmon"@),
        ("sandybrown"@, "color:sandybrown"@),
        ("seagreen"@, "color:seagreen"@),
        ("seashell"@, "color:seashell"@),
        ("sienna"@, "color:sienna"@),
        ("silver"@, "color:silver"@),
        ("skyblue"@, "color:skyblue"@),
        ("slateblue"@, "color:slateblue"@),
        ("slategray"@, "color:slategray"@),
        ("slategrey"@, "color:slategrey"@),
        ("snow"@, "color:snow"@),
        ("springgreen"@, "color:springgreen"@),
        ("steelblue"@, "color:steelblue"@),
        ("tan"@, "color:tan"@),
        ("teal"@, "color:teal"@),
        ("thistle"@, "color:thistle"@),
    ]
}

/// Appends one stretch of the CSS named-color declarations.
fn add_colors_6(t: &mut Table)
    ensures
        final(t)@ == old(t)@ + spec_color_declarations_6(),
{
    t.set("red", "color:red");
    t.set("rosybrown", "color:rosybrown");
    t.set("royalblue", "color:royalblue");
    t.set("saddlebrown", "color:saddlebrown");
    t.set("salmon", "color:salmon");
    t.set("sandybrown", "color:sandybrown");
    t.set("seagreen", "color:seagreen");
    t.set("seashell", "color:seashell");
    t.set("sienna", "color:sienna");
    t.set("silver", "color:silver");
    t.set("skyblue", "color:skyblue");
    t.set("slateblue", "color:slateblue");
    t.set("slategray", "color:slategray");
    t.set("slategrey", "color:slategrey");
    t.set("snow", "color:snow");
    t.set("springgreen", "color:springgreen");
    t.set("steelblue", "color:steelblue");
    t.set("tan", "color:tan");
    t.set("teal", "color:teal");
    t.set("thistle", "color:thistle");
    proof {
        assert(t@ =~= old(t)@ + spec_color_declarations_6());
    }
}

/// One stretch of the CSS named-color declarations.
pub open spec fn spec_color_declarations_7() -> Seq<(Seq<char>, Seq<char>)> {
    seq![
        ("tomato"@, "color:tomato"@),
        ("turquoise"@, "color:turquoise"@),
        ("violet"@, "color:violet"@),
        ("wheat"@, "color:wheat"@),
        ("white"@, "color:white"@),
        ("whitesmoke"@, "color:whitesmoke"@),
        ("yellow"@, "color:yellow"@),
        ("yellowgreen"@, "color:yellowgreen"@),
    ]
}

/// Appends one stretch of the CSS named-color declarations.
fn add_colors_7(t: &mut Table)
    ensures
        final(t)@ == old(t)@ + spec_color_declarations_7(),
{
    t.set("tomato", "color:tomato");
    t.set("turquoise", "color:turquoise");
    t.set("violet", "color:violet");
    t.set("wheat", "color:wheat");
    t.set("white", "color:white");
    t.set("whitesmoke", "color:whitesmoke");
    t.set("yellow", "color:yellow");
    t.set("yellowgreen", "color:yellowgreen");
    proof {
        assert(t@ =~= old(t)@ + spec_color_declarations_7());
    }
}

/// The `color:<name>` declaration of every CSS named color, keyed by the
/// color's own name, so that a bare color token is a valid class.
pub open spec fn spec_color_declarations() -> Seq<(Seq<char>, Seq<char>)> {
    spec_color_declarations_0() + spec_color_declarations_1() + spec_color_declarations_2() + spec_color_declarations_3() + spec_color_declarations_4() + spec_color_declarations_5() + spec_color_declarations_6() + spec_color_declarations_7()
}

/// Appends the CSS named-color declarations to `t`.
pub fn add_color_declarations(t: &mut Table)
    ensures
        final(t)@ == old(t)@ + spec_color_declarations(),
{
    add_colors_0(t);
    add_colors_1(t);
    add_colors_2(t);
    add_colors_3(t);
    add_colors_4(t);
    add_colors_5(t);
    add_colors_6(t);
    add_colors_7(t);
    proof {
        assert(t@ =~= old(t)@ + spec_color_declarations());
    }
}

} // verus!
