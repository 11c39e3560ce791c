//! The interop idioms that rendering emits, as text.

use vstd::prelude::*;
use vstd::string::StringExecFns;

verus! {

/// `ns.prop`
pub open spec fn member_text(namespace: Seq<char>, property: Seq<char>) -> Seq<char> {
    namespace + "."@ + property
}

/// `(0, ns.prop)`: a property read that a call does not take as a method.
pub open spec fn indirect_member_text(namespace: Seq<char>, property: Seq<char>) -> Seq<char> {
    "(0, "@ + namespace + "."@ + property + ")"@
}

/// One accessor of a namespace object.
pub open spec fn getter_text(exported: Seq<char>, value: Seq<char>) -> Seq<char> {
    "  get "@ + exported + "() { return "@ + value + " }"@
}

/// `lines`, joined by a comma and a line break.
pub open spec fn joined_text(lines: Seq<Seq<char>>) -> Seq<char>
    decreases lines.len(),
{
    if lines.len() == 0 {
        Seq::empty()
    } else if lines.len() == 1 {
        lines[0]
    } else {
        joined_text(lines.drop_last()) + ",\n"@ + lines.last()
    }
}

/// The declaration of a namespace object with the given accessors.
pub open spec fn namespace_object_text(namespace: Seq<char>, getters: Seq<char>) -> Seq<char> {
    "var "@ + namespace + " = {\n"@ + getters + "\n};\n"@
}

/// `toESM(wrap())`, with `, 1` as second argument for an ESM importer.
pub open spec fn to_esm_text(to_esm: Seq<char>, wrap: Seq<char>, importer_is_esm: bool) -> Seq<
    char,
> {
    to_esm + "("@ + wrap + "()"@ + (if importer_is_esm {
        ", 1"@
    } else {
        ""@
    }) + ")"@
}

/// `var ns = <value>;`
pub open spec fn namespace_init_text(namespace: Seq<char>, value: Seq<char>) -> Seq<char> {
    "var "@ + namespace + " = "@ + value + ";\n"@
}

/// `reExport(ns, <value>);`
pub open spec fn re_export_text(re_export: Seq<char>, namespace: Seq<char>, value: Seq<char>) -> Seq<
    char,
> {
    re_export + "("@ + namespace + ", "@ + value + ");"@
}

/// `'./file'`
pub open spec fn chunk_specifier_text(file_name: Seq<char>) -> Seq<char> {
    "'./"@ + file_name + "'"@
}

/// `wrap();`
pub open spec fn wrap_statement_text(wrap: Seq<char>) -> Seq<char> {
    wrap + "();\n"@
}

/// `wrap()`
pub open spec fn wrap_call_text(wrap: Seq<char>) -> Seq<char> {
    wrap + "()"@
}

/// `(wrap(), toCommonJS(ns))`
pub open spec fn require_esm_text(wrap: Seq<char>, to_commonjs: Seq<char>, namespace: Seq<char>) -> Seq<
    char,
> {
    "("@ + wrap + "(), "@ + to_commonjs + "("@ + namespace + "))"@
}

pub fn member(namespace: &str, property: &str) -> (text: String)
    ensures
        text@ == member_text(namespace@, property@),
{
    let mut text = String::from_str(namespace);
    text.append(".");
    text.append(property);
    text
}

pub fn indirect_member(namespace: &str, property: &str) -> (text: String)
    ensures
        text@ == indirect_member_text(namespace@, property@),
{
    let mut text = String::from_str("(0, ");
    text.append(namespace);
    text.append(".");
    text.append(property);
    text.append(")");
    text
}

pub fn getter(exported: &str, value: &str) -> (text: String)
    ensures
        text@ == getter_text(exported@, value@),
{
    let mut text = String::from_str("  get ");
    text.append(exported);
    text.append("() { return ");
    text.append(value);
    text.append(" }");
    text
}

pub fn namespace_object(namespace: &str, getters: &str) -> (text: String)
    ensures
        text@ == namespace_object_text(namespace@, getters@),
{
    let mut text = String::from_str("var ");
    text.append(namespace);
    text.append(" = {\n");
    text.append(getters);
    text.append("\n};\n");
    text
}

pub fn to_esm_call(to_esm: &str, wrap: &str, importer_is_esm: bool) -> (text: String)
    ensures
        text@ == to_esm_text(to_esm@, wrap@, importer_is_esm),
{
    let mut text = String::from_str(to_esm);
    text.append("(");
    text.append(wrap);
    text.append("()");
    if importer_is_esm {
        text.append(", 1");
    } else {
        text.append("");
    }
    text.append(")");
    text
}

pub fn namespace_init(namespace: &str, value: &str) -> (text: String)
    ensures
        text@ == namespace_init_text(namespace@, value@),
{
    let mut text = String::from_str("var ");
    text.append(namespace);
    text.append(" = ");
    text.append(value);
    text.append(";\n");
    text
}

pub fn re_export_call(re_export: &str, namespace: &str, value: &str) -> (text: String)
    ensures
        text@ == re_export_text(re_export@, namespace@, value@),
{
    let mut text = String::from_str(re_export);
    text.append("(");
    text.append(namespace);
    text.append(", ");
    text.append(value);
    text.append(");");
    text
}

pub fn chunk_specifier(file_name: &str) -> (text: String)
    ensures
        text@ == chunk_specifier_text(file_name@),
{
    let mut text = String::from_str("'./");
    text.append(file_name);
    text.append("'");
    text
}

pub fn wrap_statement(wrap: &str) -> (text: String)
    ensures
        text@ == wrap_statement_text(wrap@),
{
    let mut text = String::from_str(wrap);
    text.append("();\n");
    text
}

pub fn wrap_call(wrap: &str) -> (text: String)
    ensures
        text@ == wrap_call_text(wrap@),
{
    let mut text = String::from_str(wrap);
    text.append("()");
    text
}

pub fn require_esm(wrap: &str, to_commonjs: &str, namespace: &str) -> (text: String)
    ensures
        text@ == require_esm_text(wrap@, to_commonjs@, namespace@),
{
    let mut text = String::from_str("(");
    text.append(wrap);
    text.append("(), ");
    text.append(to_commonjs);
    text.append("(");
    text.append(namespace);
    text.append("))");
    text
}

} // verus!
