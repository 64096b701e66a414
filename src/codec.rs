use vstd::prelude::*;
use vstd::string::*;

use crate::cmd::{ErrorKind, ErrorKindView, DATA_FILE_UNREADABLE};
use crate::store::{Record, Workspace};

verus! {

#[verifier::external_type_specification]
#[verifier::external_body]
pub struct ExJsonError(serde_json::Error);

/// A JSON object written with string values, as its (key, value) fields.
pub type Fields = Seq<(Seq<char>, Seq<char>)>;

/// A JSON object as read, as its (key, value) fields: a string value is
/// `Some` of its text, any other value is `None`.
pub type ReadFields = Seq<(Seq<char>, Option<Seq<char>>)>;

/// What serde_json reads from `text` as an array of objects, each given by
/// its fields in key order; `None` when it refuses.
pub uninterp spec fn json_objects_of(text: Seq<char>) -> Option<Seq<ReadFields>>;

/// The pretty-printed JSON text that serde_json writes for an array of
/// objects with string values.
pub uninterp spec fn pretty_json_of(objects: Seq<Fields>) -> Seq<char>;

/// Relies on serde_json::from_str, read into a list of maps from strings to
/// JSON values: whether it accepts the text and what it reads depend on the
/// text alone.
#[verifier::external_body]
fn parse_objects(text: &str) -> (r: Result<Vec<Vec<(String, Option<String>)>>, serde_json::Error>)
    ensures
        match r {
            Ok(v) => json_objects_of(text@) == Some(v.deep_view()),
            Err(_) => json_objects_of(text@) is None,
        },
{
    let maps: Vec<std::collections::BTreeMap<String, serde_json::Value>> = serde_json::from_str(
        text,
    )?;
    Ok(maps.into_iter().map(|m| m.into_iter().map(|(k, v)| match v {
        serde_json::Value::String(t) => (k, Some(t)),
        _ => (k, None),
    }).collect()).collect())
}

/// Relies on serde_json::to_string_pretty, given a list of maps from
/// strings to strings: the text written depends on the objects alone, and
/// such maps always serialize (their keys are strings and their values
/// cannot fail).
#[verifier::external_body]
fn print_objects(objects: &Vec<Vec<(String, String)>>) -> (r: Result<String, serde_json::Error>)
    ensures
        r is Ok,
        r matches Ok(t) ==> t@ == pretty_json_of(objects.deep_view()),
{
    let maps: Vec<std::collections::BTreeMap<&str, &str>> = objects.iter().map(
        |o| o.iter().map(|(k, v)| (k.as_str(), v.as_str())).collect(),
    ).collect();
    serde_json::to_string_pretty(&maps)
}

/// The value of the last field of `o` with key `key`.
pub open spec fn field_of(o: ReadFields, key: Seq<char>) -> Option<Option<Seq<char>>>
    decreases o.len(),
{
    if o.len() == 0 {
        None
    } else if o.last().0 == key {
        Some(o.last().1)
    } else {
        field_of(o.drop_last(), key)
    }
}

/// An object written with string values, as it is read back.
pub open spec fn as_read(o: Fields) -> ReadFields {
    o.map_values(|f: (Seq<char>, Seq<char>)| (f.0, Some(f.1)))
}

/// The workspace an object describes: it needs a `name` and a `path` field,
/// both strings; other fields are ignored.
pub open spec fn record_of(o: ReadFields) -> Option<Record> {
    match (field_of(o, "name"@), field_of(o, "path"@)) {
        (Some(Some(n)), Some(Some(p))) => Some((n, p)),
        _ => None,
    }
}

/// The workspaces that a list of objects describes, when each one describes
/// one.
pub open spec fn records_of(objects: Seq<ReadFields>) -> Option<Seq<Record>>
    decreases objects.len(),
{
    if objects.len() == 0 {
        Some(Seq::empty())
    } else {
        match (records_of(objects.drop_last()), record_of(objects.last())) {
            (Some(rs), Some(r)) => Some(rs.push(r)),
            _ => None,
        }
    }
}

/// The object written for a workspace.
pub open spec fn fields_of(r: Record) -> Fields {
    seq![("name"@, r.0), ("path"@, r.1)]
}

/// The objects written for a list of workspaces, in the same order.
pub open spec fn objects_of(s: Seq<Record>) -> Seq<Fields> {
    s.map_values(|r: Record| fields_of(r))
}

/// The workspaces stored in the data file's text: an empty file holds none.
pub open spec fn decoded(text: Seq<char>) -> Option<Seq<Record>> {
    if text.len() == 0 {
        Some(Seq::empty())
    } else {
        match json_objects_of(text) {
            Some(objects) => records_of(objects),
            None => None,
        }
    }
}

/// A list with a prefix that describes no workspaces describes none either.
proof fn lemma_records_of_prefix(s: Seq<ReadFields>, m: int)
    requires
        0 <= m <= s.len(),
        records_of(s.subrange(0, m)) is None,
    ensures
        records_of(s) is None,
    decreases s.len() - m,
{
    if m < s.len() {
        assert(s.subrange(0, m + 1).drop_last() =~= s.subrange(0, m));
        lemma_records_of_prefix(s, m + 1);
    } else {
        assert(s.subrange(0, m) =~= s);
    }
}

/// Writing workspaces as objects and reading the objects back gives the
/// same workspaces, in the same order.
pub proof fn lemma_records_round_trip(s: Seq<Record>)
    ensures
        records_of(objects_of(s).map_values(|o: Fields| as_read(o))) == Some(s),
    decreases s.len(),
{
    let read = objects_of(s).map_values(|o: Fields| as_read(o));
    if s.len() > 0 {
        reveal_strlit("name");
        reveal_strlit("path");
        assert("name"@[0] != "path"@[0]);
        assert("name"@ != "path"@);
        let f = read.last();
        assert(f =~= seq![("name"@, Some(s.last().0)), ("path"@, Some(s.last().1))]);
        assert(f.drop_last() =~= seq![("name"@, Some(s.last().0))]);
        assert(f.drop_last().drop_last() =~= Seq::<(Seq<char>, Option<Seq<char>>)>::empty());
        assert(field_of(f, "path"@) == Some(Some(s.last().1)));
        assert(field_of(f.drop_last(), "name"@) == Some(Some(s.last().0)));
        assert(field_of(f, "name"@) == Some(Some(s.last().0)));
        assert(record_of(f) == Some(s.last()));
        assert(read.drop_last() =~= objects_of(s.drop_last()).map_values(|o: Fields| as_read(o)));
        lemma_records_round_trip(s.drop_last());
        assert(s.drop_last().push(s.last()) =~= s);
    }
}

/// Non-empty text that serde_json does not read as a list of objects holds
/// no workspaces: loading it is refused.
pub proof fn lemma_malformed_refused(text: Seq<char>)
    requires
        text.len() > 0,
        json_objects_of(text) is None,
    ensures
        decoded(text) is None,
{
}

/// The value of the last field of `o` with key `key`.
fn find_field(o: &Vec<(String, Option<String>)>, key: &String) -> (r: Option<Option<String>>)
    ensures
        r.deep_view() == field_of(o.deep_view(), key@),
{
    let ghost s = o.deep_view();
    let mut found: Option<Option<String>> = None;
    let mut k: usize = 0;
    while k < o.len()
        invariant
            k <= o@.len(),
            s == o.deep_view(),
            found.deep_view() == field_of(s.subrange(0, k as int), key@),
        decreases o@.len() - k,
    {
        assert(s.subrange(0, k + 1).drop_last() =~= s.subrange(0, k as int));
        if o[k].0 == *key {
            found = Some(
                match &o[k].1 {
                    Some(t) => Some(t.clone()),
                    None => None,
                },
            );
        }
        k = k + 1;
    }
    assert(s.subrange(0, k as int) =~= s);
    found
}

/// The workspaces that a list of JSON objects describes, or `None` when one
/// of them lacks a `name` or a `path` field holding a string.
pub fn records_from_objects(objects: &Vec<Vec<(String, Option<String>)>>) -> (r: Option<Vec<Workspace>>)
    ensures
        r.deep_view() == records_of(objects.deep_view()),
{
    let ghost s = objects.deep_view();
    let name_key = String::from_str("name");
    let path_key = String::from_str("path");
    let mut out: Vec<Workspace> = Vec::new();
    let mut k: usize = 0;
    while k < objects.len()
        invariant
            k <= objects@.len(),
            s == objects.deep_view(),
            name_key@ == "name"@,
            path_key@ == "path"@,
            records_of(s.subrange(0, k as int)) == Some(out.deep_view()),
        decreases objects@.len() - k,
    {
        assert(s.subrange(0, k + 1).drop_last() =~= s.subrange(0, k as int));
        assert(s.subrange(0, k + 1).last() == objects@[k as int].deep_view());
        let name = find_field(&objects[k], &name_key);
        let path = find_field(&objects[k], &path_key);
        match (name, path) {
            (Some(Some(n)), Some(Some(p))) => {
                let ghost before = out.deep_view();
                out.push(Workspace { name: n, path: p });
                assert(out.deep_view() =~= before.push((n@, p@)));
            },
            _ => {
                proof {
                    lemma_records_of_prefix(s, k + 1);
                }
                return None;
            },
        }
        k = k + 1;
    }
    assert(s.subrange(0, k as int) =~= s);
    Some(out)
}

/// The JSON objects written for a list of workspaces, in the same order.
pub fn objects_from_records(workspaces: &Vec<Workspace>) -> (r: Vec<Vec<(String, String)>>)
    ensures
        r.deep_view() == objects_of(workspaces.deep_view()),
{
    let ghost s = workspaces.deep_view();
    let mut out: Vec<Vec<(String, String)>> = Vec::new();
    let mut k: usize = 0;
    while k < workspaces.len()
        invariant
            k <= workspaces@.len(),
            s == workspaces.deep_view(),
            out.deep_view() =~= objects_of(s.subrange(0, k as int)),
        decreases workspaces@.len() - k,
    {
        let w = &workspaces[k];
        let o = vec![
            (String::from_str("name"), w.name.clone()),
            (String::from_str("path"), w.path.clone()),
        ];
        assert(o.deep_view() =~= fields_of(s[k as int]));
        out.push(o);
        assert(objects_of(s.subrange(0, k + 1)) =~= objects_of(s.subrange(0, k as int)).push(
            fields_of(s[k as int]),
        ));
        k = k + 1;
    }
    assert(s.subrange(0, k as int) =~= s);
    out
}

/// Read the workspaces from the data file's text. An empty text holds no
/// workspace; text that is no JSON list of workspaces is refused.
pub fn get_ws_data(text: &str) -> (r: Result<Vec<Workspace>, ErrorKind>)
    ensures
        match decoded(text@) {
            Some(s) => r matches Ok(v) && v.deep_view() == s,
            None => r matches Err(e) && e@ == ErrorKindView::DataReadError(DATA_FILE_UNREADABLE@),
        },
{
    if text.is_empty() {
        return Ok(Vec::new());
    }
    match parse_objects(text) {
        Ok(objects) => match records_from_objects(&objects) {
            Some(v) => Ok(v),
            None => Err(ErrorKind::DataReadError(DATA_FILE_UNREADABLE)),
        },
        Err(_) => Err(ErrorKind::DataReadError(DATA_FILE_UNREADABLE)),
    }
}

/// Write the workspaces as the data file's text: the whole store, one JSON
/// object with string fields `name` and `path` for each workspace, in order.
pub fn save_ws_data(workspaces: &Vec<Workspace>) -> (r: Result<String, ErrorKind>)
    ensures
        r is Ok,
        r matches Ok(t) ==> t@ == pretty_json_of(objects_of(workspaces.deep_view())),
{
    let objects = objects_from_records(workspaces);
    match print_objects(&objects) {
        Ok(t) => Ok(t),
        Err(_) => Err(ErrorKind::DataReadError(DATA_FILE_UNREADABLE)),
    }
}

} // verus!
