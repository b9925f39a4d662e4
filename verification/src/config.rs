//! Bridge to the structured-configuration format. The parse tree itself is an
//! outside collaborator: this module declares it, names what the loader reads
//! from it, and wraps the few calls the loader makes into it.

use vstd::prelude::*;

verus! {

#[verifier::external_type_specification]
#[verifier::external_body]
pub struct ExTomlValue(toml::Value);

/// The parse of a configuration text: what the parsed table holds, as named
/// sections in the order the parser hands them out, or nothing when the text
/// is not syntactically valid. The outcome depends on the text alone.
pub uninterp spec fn toml_parse_of(text: Seq<char>) -> Option<Seq<(Seq<char>, toml::Value)>>;

/// The string held at field `key` of a parsed section, if the section is a
/// table holding a string there.
pub uninterp spec fn str_field_of(v: toml::Value, key: Seq<char>) -> Option<Seq<char>>;

/// The integer held at field `key` of a parsed section, if the section is a
/// table holding an integer there.
pub uninterp spec fn int_field_of(v: toml::Value, key: Seq<char>) -> Option<i64>;

pub open spec fn opt_string_view(o: Option<String>) -> Option<Seq<char>> {
    match o {
        Some(s) => Some(s@),
        None => None,
    }
}

/// A list of sections under its mathematical view.
pub open spec fn sections_view(sections: Seq<(String, toml::Value)>) -> Seq<
    (Seq<char>, toml::Value),
> {
    sections.map_values(|p: (String, toml::Value)| (p.0@, p.1))
}

/// Relies on toml's parser (`str::parse::<toml::Table>`): the text either
/// parses to a table of named sections or is rejected with a syntax error.
#[verifier::external_body]
pub(crate) fn parse_sections(text: &str) -> (r: Result<Vec<(String, toml::Value)>, Vec<String>>)
    ensures
        r is Ok <==> toml_parse_of(text@) is Some,
        r matches Ok(v) ==> Some(sections_view(v@)) == toml_parse_of(text@),
{
    match text.parse::<toml::Table>() {
        Ok(table) => Ok(table.into_iter().collect()),
        Err(e) => Err(vec![e.to_string()]),
    }
}

/// Relies on `toml::Value::get` and `toml::Value::as_str`: reads the string
/// field named `key` of a section, if there is one.
#[verifier::external_body]
pub(crate) fn get_str_field(v: &toml::Value, key: &str) -> (r: Option<String>)
    ensures
        opt_string_view(r) == str_field_of(*v, key@),
{
    v.get(key).and_then(|f| f.as_str()).map(|s| s.to_owned())
}

/// Relies on `toml::Value::get` and `toml::Value::as_integer`: reads the
/// integer field named `key` of a section, if there is one.
#[verifier::external_body]
pub(crate) fn get_int_field(v: &toml::Value, key: &str) -> (r: Option<i64>)
    ensures
        r == int_field_of(*v, key@),
{
    v.get(key).and_then(|f| f.as_integer())
}

} // verus!
