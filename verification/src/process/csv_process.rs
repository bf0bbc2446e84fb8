//! CSV into JSON or YAML: every record becomes an object that maps the
//! header names to the record's fields.

use vstd::prelude::*;

use crate::cli::OutputFormat;

verus! {

/// Why CSV data was not converted.
#[derive(Clone, Copy, Debug, PartialEq, Eq, Structural)]
pub enum CsvError {
    /// The data is not well-formed CSV.
    Malformed,
    /// The objects could not be written in the format asked for.
    Unserializable,
}

/// The header and the records of CSV data: each a sequence of fields.
pub struct Table {
    /// The fields of the first record, which name the columns.
    pub headers: Vec<String>,
    /// The fields of every later record.
    pub records: Vec<Vec<String>>,
}

/// The fields of one record, as plain values.
pub open spec fn fields_view(fields: Vec<String>) -> Seq<Seq<char>> {
    Seq::new(fields@.len(), |i: int| fields@[i]@)
}

/// The records of a table, as plain values.
pub open spec fn records_view(records: Vec<Vec<String>>) -> Seq<Seq<Seq<char>>> {
    Seq::new(records@.len(), |i: int| fields_view(records@[i]))
}

/// The name-value pairs of one object, as plain values.
pub open spec fn object_view(object: Vec<(String, String)>) -> Seq<(Seq<char>, Seq<char>)> {
    Seq::new(object@.len(), |i: int| (object@[i].0@, object@[i].1@))
}

/// The objects of a document, as plain values.
pub open spec fn objects_view(
    objects: Vec<Vec<(String, String)>>,
) -> Seq<Seq<(Seq<char>, Seq<char>)>> {
    Seq::new(objects@.len(), |i: int| object_view(objects@[i]))
}

/// What the csv crate reads from `data`, with its default settings: the
/// header fields and the fields of each record, or nothing if it fails.
pub uninterp spec fn csv_table(data: Seq<u8>) -> Option<(Seq<Seq<char>>, Seq<Seq<Seq<char>>>)>;

/// The pretty-printed JSON array of `objects`, as serde_json writes it, or
/// nothing if it fails.
pub uninterp spec fn json_text(objects: Seq<Seq<(Seq<char>, Seq<char>)>>) -> Option<Seq<char>>;

/// The YAML sequence of `objects`, as serde_yaml writes it, or nothing if it
/// fails.
pub uninterp spec fn yaml_text(objects: Seq<Seq<(Seq<char>, Seq<char>)>>) -> Option<Seq<char>>;

/// Calls `csv::Reader::from_reader`, `Reader::headers` and `Reader::records`,
/// and copies the fields out. Trusted: what comes back is a function of the
/// data; the first error ends the reading.
#[verifier::external_body]
fn read_table(data: &[u8]) -> (table: Option<Table>)
    ensures
        match table {
            Some(t) => csv_table(data@) == Some((fields_view(t.headers), records_view(t.records))),
            None => csv_table(data@) is None,
        },
{
    let mut reader = csv::Reader::from_reader(data);
    let headers: Vec<String> = reader.headers().ok()?.iter().map(String::from).collect();
    let mut records: Vec<Vec<String>> = Vec::new();
    for record in reader.records() {
        records.push(record.ok()?.iter().map(String::from).collect());
    }
    Some(Table { headers, records })
}

/// Collects each object's pairs into a `serde_json::Value` and calls
/// `serde_json::to_string_pretty` on the array of them. Trusted: the text is
/// a function of the objects.
#[verifier::external_body]
fn write_json(objects: &Vec<Vec<(String, String)>>) -> (text: Option<String>)
    ensures
        match text {
            Some(t) => json_text(objects_view(*objects)) == Some(t@),
            None => json_text(objects_view(*objects)) is None,
        },
{
    let values: Vec<serde_json::Value> =
        objects.iter().map(|object| object.iter().cloned().collect()).collect();
    serde_json::to_string_pretty(&values).ok()
}

/// Collects each object's pairs into a `serde_json::Value` and calls
/// `serde_yaml::to_string` on the array of them. Trusted: the text is a
/// function of the objects.
#[verifier::external_body]
fn write_yaml(objects: &Vec<Vec<(String, String)>>) -> (text: Option<String>)
    ensures
        match text {
            Some(t) => yaml_text(objects_view(*objects)) == Some(t@),
            None => yaml_text(objects_view(*objects)) is None,
        },
{
    let values: Vec<serde_json::Value> =
        objects.iter().map(|object| object.iter().cloned().collect()).collect();
    serde_yaml::to_string(&values).ok()
}

/// The pairs of one record: each header name with the field in its column,
/// as far as both reach.
pub open spec fn paired(
    headers: Seq<Seq<char>>,
    record: Seq<Seq<char>>,
) -> Seq<(Seq<char>, Seq<char>)> {
    Seq::new(
        if headers.len() <= record.len() {
            headers.len()
        } else {
            record.len()
        },
        |i: int| (headers[i], record[i]),
    )
}

/// The objects of a table: the pairs of each record, in order.
pub open spec fn objects_of(headers: Seq<Seq<char>>, records: Seq<Seq<Seq<char>>>) -> Seq<
    Seq<(Seq<char>, Seq<char>)>,
> {
    Seq::new(records.len(), |i: int| paired(headers, records[i]))
}

/// Pairs each header name with the field in its column.
pub fn pair_fields(headers: &Vec<String>, record: &Vec<String>) -> (object: Vec<(String, String)>)
    ensures
        object_view(object) == paired(fields_view(*headers), fields_view(*record)),
{
    let mut object: Vec<(String, String)> = Vec::new();
    let mut i: usize = 0;
    while i < headers.len() && i < record.len()
        invariant
            i <= headers.len(),
            i <= record.len(),
            object@.len() == i,
            forall|j: int|
                0 <= j < i ==> (#[trigger] object@[j]).0@ == headers@[j]@ && object@[j].1@
                    == record@[j]@,
        decreases headers.len() - i,
    {
        object.push((headers[i].clone(), record[i].clone()));
        i = i + 1;
    }
    assert(object_view(object) =~= paired(fields_view(*headers), fields_view(*record)));
    object
}

/// Turns every record of a table into an object.
pub fn records_to_objects(table: &Table) -> (objects: Vec<Vec<(String, String)>>)
    ensures
        objects_view(objects) == objects_of(
            fields_view(table.headers),
            records_view(table.records),
        ),
{
    let mut objects: Vec<Vec<(String, String)>> = Vec::new();
    let mut i: usize = 0;
    while i < table.records.len()
        invariant
            i <= table.records.len(),
            objects@.len() == i,
            forall|j: int|
                0 <= j < i ==> object_view(#[trigger] objects@[j]) == paired(
                    fields_view(table.headers),
                    fields_view(table.records@[j]),
                ),
        decreases table.records.len() - i,
    {
        objects.push(pair_fields(&table.headers, &table.records[i]));
        i = i + 1;
    }
    assert(objects_view(objects) =~= objects_of(
        fields_view(table.headers),
        records_view(table.records),
    ));
    objects
}

/// The text of `objects` in a format, or nothing if it cannot be written.
pub open spec fn rendered(
    objects: Seq<Seq<(Seq<char>, Seq<char>)>>,
    format: OutputFormat,
) -> Option<Seq<char>> {
    match format {
        OutputFormat::Json => json_text(objects),
        OutputFormat::Yaml => yaml_text(objects),
    }
}

/// What `process_csv` answers for `data`.
pub open spec fn converted(data: Seq<u8>, format: OutputFormat) -> Result<Seq<char>, CsvError> {
    match csv_table(data) {
        Some((headers, records)) => match rendered(objects_of(headers, records), format) {
            Some(text) => Ok(text),
            None => Err(CsvError::Unserializable),
        },
        None => Err(CsvError::Malformed),
    }
}

/// The view of a conversion's result.
pub open spec fn conversion_view(result: Result<String, CsvError>) -> Result<Seq<char>, CsvError> {
    match result {
        Ok(text) => Ok(text@),
        Err(e) => Err(e),
    }
}

/// Writes `objects` in the format asked for.
pub fn render(objects: &Vec<Vec<(String, String)>>, format: OutputFormat) -> (text: Option<String>)
    ensures
        match text {
            Some(t) => rendered(objects_view(*objects), format) == Some(t@),
            None => rendered(objects_view(*objects), format) is None,
        },
{
    match format {
        OutputFormat::Json => write_json(objects),
        OutputFormat::Yaml => write_yaml(objects),
    }
}

/// Converts CSV data into JSON or YAML text: the first record names the
/// columns, and every later record becomes an object.
///
/// Fails with `Malformed` when the data is not well-formed CSV, and with
/// `Unserializable` when the objects cannot be written.
pub fn process_csv(data: &[u8], format: OutputFormat) -> (result: Result<String, CsvError>)
    ensures
        conversion_view(result) == converted(data@, format),
{
    match read_table(data) {
        Some(table) => {
            let objects = records_to_objects(&table);
            match render(&objects, format) {
                Some(text) => Ok(text),
                None => Err(CsvError::Unserializable),
            }
        },
        None => Err(CsvError::Malformed),
    }
}

} // verus!
