use vstd::prelude::*;
use ini::Ini;

verus! {

#[verifier::external_type_specification]
#[verifier::external_body]
pub struct ExIni(Ini);

/// Named sections of an `ini::Ini`: for each section name, the key/value pairs of the
/// first section that carries it, in insertion order (duplicates of a key included).
/// The unnamed general section is not part of it.
pub uninterp spec fn ini_sections(ini: Ini) -> Map<Seq<char>, Seq<(Seq<char>, Seq<char>)>>;

/// Key/value pairs of a section (empty when the section is absent).
pub open spec fn section_pairs(
    secs: Map<Seq<char>, Seq<(Seq<char>, Seq<char>)>>,
    sec: Seq<char>,
) -> Seq<(Seq<char>, Seq<char>)> {
    if secs.dom().contains(sec) {
        secs[sec]
    } else {
        Seq::empty()
    }
}

/// The pairs of `pairs` whose key is not `key`, order kept.
pub open spec fn pairs_without(
    pairs: Seq<(Seq<char>, Seq<char>)>,
    key: Seq<char>,
) -> Seq<(Seq<char>, Seq<char>)>
    decreases pairs.len(),
{
    if pairs.len() == 0 {
        pairs
    } else if pairs.last().0 == key {
        pairs_without(pairs.drop_last(), key)
    } else {
        pairs_without(pairs.drop_last(), key).push(pairs.last())
    }
}

/// Sections after `key = value` is set in `sec`: every earlier pair with that key is
/// dropped and the new pair goes last; the section is created when absent.
pub open spec fn section_set(
    secs: Map<Seq<char>, Seq<(Seq<char>, Seq<char>)>>,
    sec: Seq<char>,
    key: Seq<char>,
    value: Seq<char>,
) -> Map<Seq<char>, Seq<(Seq<char>, Seq<char>)>> {
    secs.insert(sec, pairs_without(section_pairs(secs, sec), key).push((key, value)))
}

/// No named section at all.
pub open spec fn no_sections() -> Map<Seq<char>, Seq<(Seq<char>, Seq<char>)>> {
    Map::empty()
}

/// Calls `Ini::new`, which holds only the empty general section: no named section.
#[verifier::external_body]
pub(crate) fn ini_new() -> (r: Ini)
    ensures
        ini_sections(r) == no_sections(),
{
    Ini::new()
}

/// Calls `Ini::with_section(Some(section)).set(key, value)`. Claims the first section named
/// `section` (created at the end when absent) loses every pair with `key` and gains
/// `(key, value)` as its last pair; other sections are untouched.
#[verifier::external_body]
pub(crate) fn ini_set(ini: &mut Ini, section: &str, key: &str, value: &str)
    ensures
        ini_sections(*final(ini)) == section_set(ini_sections(*old(ini)), section@, key@, value@),
{
    ini.with_section(Some(section)).set(key, value);
}

/// Calls `Ini::section(Some(section))` and `Properties::iter`. Claims `None` when no section
/// has that name, else the pairs of the first such section in insertion order.
#[verifier::external_body]
pub(crate) fn ini_section_pairs(ini: &Ini, section: &str) -> (r: Option<Vec<(String, String)>>)
    ensures
        r is None <==> !ini_sections(*ini).dom().contains(section@),
        r matches Some(v) ==> v@.map_values(|p: (String, String)| (p.0@, p.1@)) == ini_sections(
            *ini,
        )[section@],
{
    ini.section(Some(section)).map(|p| p.iter().map(|(k, v)| (k.to_string(), v.to_string())).collect())
}

/// The named sections `Ini::load_from_str` reads from a text, or `None` where the text
/// does not parse as INI.
pub uninterp spec fn parsed_ini(text: Seq<char>) -> Option<Map<Seq<char>, Seq<(Seq<char>, Seq<char>)>>>;

/// Calls `Ini::load_from_str`; a parse error gives `None`. What it reads is named by
/// `parsed_ini`.
#[verifier::external_body]
pub(crate) fn ini_from_text(text: &str) -> (r: Option<Ini>)
    ensures
        match r {
            Some(ini) => parsed_ini(text@) == Some(ini_sections(ini)),
            None => parsed_ini(text@) is None,
        },
{
    Ini::load_from_str(text).ok()
}

} // verus!
