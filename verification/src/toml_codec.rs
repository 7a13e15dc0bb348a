//! The trusted boundary to the `toml` and `toml_edit` crates.
//!
//! A checksum configuration is stored as a TOML document with two tables of
//! string values, `folders` and `files`. What such text means is named by
//! `toml_parse`; the wrappers here relate the outside crates' parsing,
//! serialization and in-place document editing to that name.

use vstd::prelude::*;

use crate::string_map::{pairs_map, pairs_unique};

verus! {

#[verifier::external_type_specification]
#[verifier::external_body]
pub struct ExDocumentMut(toml_edit::DocumentMut);

/// The checksum-shaped contents of raw text: `Some((folders, files))` when
/// the text is a well-formed TOML document whose top-level `folders` and
/// `files` entries are both tables of string values (entries beyond those two
/// are ignored), `None` otherwise.
pub uninterp spec fn toml_parse(s: Seq<char>) -> Option<
    (Map<Seq<char>, Seq<char>>, Map<Seq<char>, Seq<char>>),
>;

/// The checksum-shaped contents held by a parsed TOML document: what the
/// document's own text would parse to.
pub uninterp spec fn doc_config(d: toml_edit::DocumentMut) -> Option<
    (Map<Seq<char>, Seq<char>>, Map<Seq<char>, Seq<char>>),
>;

/// Relies on `toml::from_str`: the text deserializes exactly when it is a
/// well-formed document holding `folders` and `files` as tables of strings,
/// and then yields those tables' entries; TOML rejects repeated keys, so the
/// pairs of each table are unique.
#[verifier::external_body]
pub(crate) fn parse_config_pairs(s: &str) -> (r: Result<
    (Vec<(String, String)>, Vec<(String, String)>),
    (),
>)
    ensures
        r is Ok <==> toml_parse(s@) is Some,
        r matches Ok(p) ==> {
            &&& toml_parse(s@) matches Some(m)
            &&& pairs_unique(p.0@) && pairs_map(p.0@) == m.0
            &&& pairs_unique(p.1@) && pairs_map(p.1@) == m.1
        },
{
    let t: toml::Table = match toml::from_str(s) {
        Ok(t) => t,
        Err(_) => return Err(()),
    };
    let table = |n: &str| -> Option<Vec<(String, String)>> {
        t.get(n)?.as_table()?.iter().map(
            |(k, v)| v.as_str().map(|x| (k.clone(), x.to_owned()))).collect()
    };
    match (table("folders"), table("files")) {
        (Some(fo), Some(fi)) => Ok((fo, fi)),
        _ => Err(()),
    }
}

/// Relies on `toml::to_string`: two tables of string values always serialize,
/// and the text parses back to the same entries.
#[verifier::external_body]
pub(crate) fn serialize_config_pairs(
    folders: &Vec<(String, String)>,
    files: &Vec<(String, String)>,
) -> (r: String)
    ensures
        toml_parse(r@) == Some((pairs_map(folders@), pairs_map(files@))),
{
    let mut fo = toml::Table::new();
    for (k, v) in folders.iter() {
        fo.insert(k.clone(), toml::Value::String(v.clone()));
    }
    let mut fi = toml::Table::new();
    for (k, v) in files.iter() {
        fi.insert(k.clone(), toml::Value::String(v.clone()));
    }
    let mut root = toml::Table::new();
    root.insert("folders".to_owned(), toml::Value::Table(fo));
    root.insert("files".to_owned(), toml::Value::Table(fi));
    toml::to_string(&root).expect("tables of strings always serialize")
}

/// Relies on `toml_edit`'s document parser: text that deserializes as a
/// checksum configuration is a well-formed document, and the parsed document
/// holds the same contents as the text.
#[verifier::external_body]
pub(crate) fn parse_document_text(s: &str) -> (d: toml_edit::DocumentMut)
    requires
        toml_parse(s@) is Some,
    ensures
        doc_config(d) == toml_parse(s@),
{
    s.parse::<toml_edit::DocumentMut>().expect("configuration text is a well-formed document")
}

/// Relies on `toml_edit`'s index assignment: setting `doc[key][item]` to a
/// string value replaces that one entry of the chosen table and leaves the
/// rest of the document as it stands.
#[verifier::external_body]
pub(crate) fn doc_set_entry(d: &mut toml_edit::DocumentMut, key: &str, item: &str)
    requires
        doc_config(*old(d)) is Some,
        key@ == "folders"@ || key@ == "files"@,
    ensures
        ({
            let m = doc_config(*old(d))->Some_0;
            doc_config(*final(d)) == if key@ == "folders"@ {
                Some((m.0.insert(item@, item@), m.1))
            } else {
                Some((m.0, m.1.insert(item@, item@)))
            }
        }),
{
    d[key][item] = toml_edit::value(item);
    d[key].as_inline_table_mut().map(|t| t.fmt());
}

/// Relies on `DocumentMut`'s `Display`: the document prints as its own text,
/// which parses back to the same contents.
#[verifier::external_body]
pub(crate) fn doc_to_text(d: &toml_edit::DocumentMut) -> (r: String)
    ensures
        toml_parse(r@) == doc_config(*d),
{
    d.to_string()
}

} // verus!
