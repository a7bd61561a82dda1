//! A measurement taken from one cell of delimited text.
//!
//! The text has a header row. The column is the first one whose header equals
//! the configured name; where no header does, the name is read as a
//! zero-based index. After the configured number of leading rows has been
//! passed over, rows that the reader rejects are dropped, and the first or
//! the last of the rest is taken.

use vstd::prelude::*;

use crate::config::CsvSourceConfig;
use crate::error::SourceError;
use crate::error::SourceFailure;
use crate::sources::raw_view;
use crate::sources::RawKind;
use crate::sources::RawValue;
use crate::text::decimal_digits;
use crate::text::decimal_text;
use crate::text::join;
use crate::text::join3;
use crate::text::parse_index;
use crate::text::spec_parse_index;

verus! {

/// The header row of `content` as the `csv` reader yields it when fields are
/// separated by `delimiter`: its fields, or the text of the reader's error.
pub uninterp spec fn csv_header(content: Seq<char>, delimiter: u8) -> Result<
    Seq<Seq<char>>,
    Seq<char>,
>;

/// The rows of `content` after the header row, in order, as the `csv` reader
/// yields them when fields are separated by `delimiter`: the fields of a row,
/// or `None` for a row that the reader rejects.
pub uninterp spec fn csv_rows(content: Seq<char>, delimiter: u8) -> Seq<Option<Seq<Seq<char>>>>;

/// A header row, or the reader's error, by its characters.
pub open spec fn header_view(header: Result<Vec<String>, String>) -> Result<
    Seq<Seq<char>>,
    Seq<char>,
> {
    match header {
        Ok(fields) => Ok(fields.deep_view()),
        Err(text) => Err(text@),
    }
}

/// Whether `i` is the first column whose header equals `field`.
pub open spec fn is_first_match(headers: Seq<Seq<char>>, field: Seq<char>, i: int) -> bool {
    &&& 0 <= i < headers.len()
    &&& headers[i] == field
    &&& forall|j: int| 0 <= j < i ==> #[trigger] headers[j] != field
}

/// The column that `field` selects: the first one whose header equals it, or
/// else the index that it denotes.
pub open spec fn column_index(headers: Seq<Seq<char>>, field: Seq<char>) -> Option<int> {
    if exists|i: int| is_first_match(headers, field, i) {
        Some(choose|i: int| is_first_match(headers, field, i))
    } else {
        match spec_parse_index(field) {
            Some(index) => Some(index as int),
            None => None,
        }
    }
}

/// The rows that are left after the first `skip` of them are passed over.
pub open spec fn rows_after<A>(rows: Seq<A>, skip: int) -> Seq<A> {
    if 0 <= skip <= rows.len() {
        rows.subrange(skip, rows.len() as int)
    } else {
        Seq::empty()
    }
}

/// The rows that the reader accepted, in order.
pub open spec fn accepted_rows<A>(rows: Seq<Option<A>>) -> Seq<A>
    decreases rows.len(),
{
    if rows.len() == 0 {
        Seq::empty()
    } else {
        match rows.last() {
            Some(row) => accepted_rows(rows.drop_last()).push(row),
            None => accepted_rows(rows.drop_last()),
        }
    }
}

/// The data rows: what the reader accepted among the rows after the first `skip`.
pub open spec fn data_rows(rows: Seq<Option<Seq<Seq<char>>>>, skip: int) -> Seq<Seq<Seq<char>>> {
    accepted_rows(rows_after(rows, skip))
}

/// The text of the selected cell, or why there is none.
pub open spec fn selected_cell(
    value_field: Seq<char>,
    skip: int,
    read_last_row: bool,
    header: Result<Seq<Seq<char>>, Seq<char>>,
    rows: Seq<Option<Seq<Seq<char>>>>,
) -> Result<Seq<char>, SourceFailure> {
    match header {
        Err(text) => Err(SourceFailure::CsvError(text)),
        Ok(headers) => match column_index(headers, value_field) {
            None => Err(
                SourceFailure::ValueNotFound("Column '"@ + value_field + "' not found in CSV"@),
            ),
            Some(column) => {
                let data = data_rows(rows, skip);
                if data.len() == 0 {
                    Err(SourceFailure::ValueNotFound("No data rows found in CSV"@))
                } else {
                    let row = if read_last_row {
                        data.last()
                    } else {
                        data.first()
                    };
                    if column < row.len() {
                        Ok(row[column])
                    } else {
                        Err(
                            SourceFailure::ValueNotFound(
                                "Column index "@ + decimal_digits(column as nat)
                                    + " out of bounds"@,
                            ),
                        )
                    }
                }
            },
        },
    }
}

/// The outcome of a selection, by its characters.
pub open spec fn cell_view(r: Result<String, SourceError>) -> Result<Seq<char>, SourceFailure> {
    match r {
        Ok(cell) => Ok(cell@),
        Err(e) => Err(e@),
    }
}

/// Builds a `csv::Reader` on `content` with a header row and the given
/// delimiter, and calls `headers` on it. Hands back the fields as owned
/// strings, or the text of the error.
#[verifier::external_body]
fn read_header(content: &str, delimiter: u8) -> (header: Result<Vec<String>, String>)
    ensures
        header_view(header) == csv_header(content@, delimiter),
{
    let mut reader = csv::ReaderBuilder::new().delimiter(delimiter).has_headers(true).from_reader(
        content.as_bytes(),
    );
    match reader.headers() {
        Ok(record) => Ok(record.iter().map(|field| field.to_string()).collect()),
        Err(e) => Err(e.to_string()),
    }
}

/// Builds a `csv::Reader` on `content` with a header row and the given
/// delimiter, and walks `records` to the end. Hands back every item in order:
/// the fields of a record as owned strings, or `None` in place of an error.
#[verifier::external_body]
fn read_rows(content: &str, delimiter: u8) -> (rows: Vec<Option<Vec<String>>>)
    ensures
        rows.deep_view() == csv_rows(content@, delimiter),
{
    let mut reader = csv::ReaderBuilder::new().delimiter(delimiter).has_headers(true).from_reader(
        content.as_bytes(),
    );
    reader.records().map(
        |item| item.ok().map(|record| record.iter().map(|field| field.to_string()).collect()),
    ).collect()
}

/// A source that takes its measurement from one cell of a delimited file.
#[derive(Debug, Clone)]
pub struct CsvSource {
    path: String,
    value_field: String,
    unit: String,
    read_last_row: bool,
    delimiter: u8,
    skip_headers: usize,
    multiplier_bits: u64,
    source_id: String,
}

/// What a `CsvSource` holds.
pub struct CsvSourceView {
    pub path: Seq<char>,
    pub value_field: Seq<char>,
    pub unit: Seq<char>,
    pub read_last_row: bool,
    pub delimiter: u8,
    pub skip_headers: usize,
    pub multiplier_bits: u64,
    pub source_id: Seq<char>,
}

impl View for CsvSource {
    type V = CsvSourceView;

    closed spec fn view(&self) -> CsvSourceView {
        CsvSourceView {
            path: self.path@,
            value_field: self.value_field@,
            unit: self.unit@,
            read_last_row: self.read_last_row,
            delimiter: self.delimiter,
            skip_headers: self.skip_headers,
            multiplier_bits: self.multiplier_bits,
            source_id: self.source_id@,
        }
    }
}

/// The byte that separates fields: the first character of the setting where
/// it is below U+0100, a comma where the setting is empty.
pub open spec fn delimiter_byte(delimiter: Seq<char>) -> Option<u8> {
    if delimiter.len() == 0 {
        Some(44u8)
    } else if delimiter[0] as u32 <= 0xFF {
        Some(delimiter[0] as u32 as u8)
    } else {
        None
    }
}

/// The source that a configuration describes, or why it describes none.
pub open spec fn csv_source_of(config: CsvSourceConfig) -> Result<CsvSourceView, SourceFailure> {
    match delimiter_byte(config.delimiter@) {
        None => Err(SourceFailure::ParseError("Invalid delimiter"@)),
        Some(delimiter) => Ok(
            CsvSourceView {
                path: config.path@,
                value_field: config.value_field@,
                unit: config.unit@,
                read_last_row: config.read_last_row,
                delimiter,
                skip_headers: config.skip_headers,
                multiplier_bits: config.multiplier_bits,
                source_id: "csv:"@ + config.path@,
            },
        ),
    }
}

/// The cell that a source selects in a text, over what the `csv` reader
/// makes of the text.
pub open spec fn cell_located(content: Seq<char>, source: CsvSourceView) -> Result<
    (RawKind, Seq<char>),
    SourceFailure,
> {
    match selected_cell(
        source.value_field,
        source.skip_headers as int,
        source.read_last_row,
        csv_header(content, source.delimiter),
        csv_rows(content, source.delimiter),
    ) {
        Ok(text) => Ok((RawKind::Cell, text)),
        Err(failure) => Err(failure),
    }
}

impl CsvSource {
    /// Builds the source. Fails exactly when the first character of the
    /// delimiter setting does not fit one byte.
    pub fn new(config: &CsvSourceConfig) -> (r: Result<CsvSource, SourceError>)
        ensures
            match r {
                Ok(source) => csv_source_of(*config) == Ok::<CsvSourceView, SourceFailure>(source@),
                Err(e) => csv_source_of(*config) == Err::<CsvSourceView, SourceFailure>(e@),
            },
    {
        let delimiter: u8 = if config.delimiter.as_str().unicode_len() == 0 {
            44
        } else {
            let first = config.delimiter.as_str().get_char(0);
            if first as u32 <= 0xFF {
                first as u32 as u8
            } else {
                return Err(SourceError::ParseError(String::from_str("Invalid delimiter")));
            }
        };
        Ok(
            CsvSource {
                path: config.path.clone(),
                value_field: config.value_field.clone(),
                unit: config.unit.clone(),
                read_last_row: config.read_last_row,
                delimiter,
                skip_headers: config.skip_headers,
                multiplier_bits: config.multiplier_bits,
                source_id: join("csv:", config.path.as_str()),
            },
        )
    }

    /// Locates the measurement in the text of the file and hands back the
    /// selected cell as it stands, before any numeric conversion.
    pub fn parse_value(&self, content: &str) -> (r: Result<RawValue, SourceError>)
        ensures
            raw_view(r) == cell_located(content@, self@),
    {
        let header = read_header(content, self.delimiter);
        let rows = read_rows(content, self.delimiter);
        match select_cell(
            self.value_field.as_str(),
            self.skip_headers,
            self.read_last_row,
            header,
            rows,
        ) {
            Ok(text) => Ok(RawValue { kind: RawKind::Cell, text }),
            Err(e) => Err(e),
        }
    }

    /// The identifier under which this source appears in logs.
    pub fn source_id(&self) -> (r: &str)
        ensures
            r@ == self@.source_id,
    {
        self.source_id.as_str()
    }

    /// The path of the file.
    pub fn path(&self) -> (r: &str)
        ensures
            r@ == self@.path,
    {
        self.path.as_str()
    }

    /// The unit label of the readings.
    pub fn unit(&self) -> (r: &str)
        ensures
            r@ == self@.unit,
    {
        self.unit.as_str()
    }

    /// The scale factor, as the bit pattern of a double.
    pub fn multiplier_bits(&self) -> (r: u64)
        ensures
            r == self@.multiplier_bits,
    {
        self.multiplier_bits
    }
}

proof fn lemma_first_match_unique(headers: Seq<Seq<char>>, field: Seq<char>, i: int)
    requires
        is_first_match(headers, field, i),
    ensures
        column_index(headers, field) == Some(i),
{
    let j = choose|j: int| is_first_match(headers, field, j);
    assert(is_first_match(headers, field, j));
    if j < i {
        assert(headers[j] != field);
    } else if i < j {
        assert(headers[i] != field);
    }
}

/// Finds the column that `value_field` selects.
pub fn find_column(headers: &Vec<String>, value_field: &str) -> (r: Option<usize>)
    ensures
        match r {
            Some(column) => column_index(headers.deep_view(), value_field@) == Some(column as int),
            None => column_index(headers.deep_view(), value_field@) is None,
        },
{
    let field = String::from_str(value_field);
    let ghost names = headers.deep_view();
    let mut i: usize = 0;
    while i < headers.len()
        invariant
            0 <= i <= headers.len(),
            names == headers.deep_view(),
            field@ == value_field@,
            forall|j: int| 0 <= j < i ==> #[trigger] names[j] != value_field@,
        decreases headers.len() - i,
    {
        if headers[i] == field {
            proof {
                assert(names[i as int] == headers@[i as int]@);
                lemma_first_match_unique(names, value_field@, i as int);
            }
            return Some(i);
        }
        assert(names[i as int] == headers@[i as int]@);
        i = i + 1;
    }
    assert(!exists|k: int| is_first_match(names, value_field@, k));
    parse_index(value_field)
}

/// The first and the last row that the reader accepted among the rows after
/// the first `skip`.
fn accepted_bounds(rows: &Vec<Option<Vec<String>>>, skip: usize) -> (r: Option<
    (&Vec<String>, &Vec<String>),
>)
    ensures
        match r {
            None => data_rows(rows.deep_view(), skip as int).len() == 0,
            Some((first, last)) => {
                let data = data_rows(rows.deep_view(), skip as int);
                &&& data.len() > 0
                &&& first.deep_view() == data.first()
                &&& last.deep_view() == data.last()
            },
        },
{
    if skip >= rows.len() {
        assert(rows_after(rows.deep_view(), skip as int).len() == 0);
        return None;
    }
    let ghost all = rows.deep_view();
    let ghost rest = rows_after(all, skip as int);
    let mut bounds: Option<(&Vec<String>, &Vec<String>)> = None;
    let mut i: usize = skip;
    assert(rest.take(0) =~= Seq::empty());
    while i < rows.len()
        invariant
            skip <= i <= rows.len(),
            all == rows.deep_view(),
            rest == all.subrange(skip as int, all.len() as int),
            match bounds {
                None => accepted_rows(rest.take(i - skip)).len() == 0,
                Some((first, last)) => {
                    let data = accepted_rows(rest.take(i - skip));
                    &&& data.len() > 0
                    &&& first.deep_view() == data.first()
                    &&& last.deep_view() == data.last()
                },
            },
        decreases rows.len() - i,
    {
        assert(rest.take(i + 1 - skip).drop_last() =~= rest.take(i - skip));
        assert(rest.take(i + 1 - skip).last() == all[i as int]);
        match &rows[i] {
            Some(row) => {
                bounds = match bounds {
                    None => Some((row, row)),
                    Some((first, _)) => Some((first, row)),
                };
            },
            None => {},
        }
        i = i + 1;
    }
    assert(rest.take(rows.len() - skip) =~= rest);
    bounds
}

/// Selects the cell, given what the reader made of the text: the header
/// row or the reader's error, and the rows after it with `None` for each
/// rejected row.
pub fn select_cell(
    value_field: &str,
    skip_headers: usize,
    read_last_row: bool,
    header: Result<Vec<String>, String>,
    rows: Vec<Option<Vec<String>>>,
) -> (r: Result<String, SourceError>)
    ensures
        cell_view(r) == selected_cell(
            value_field@,
            skip_headers as int,
            read_last_row,
            header_view(header),
            rows.deep_view(),
        ),
{
    let headers = match header {
        Ok(headers) => headers,
        Err(text) => {
            return Err(SourceError::CsvError(text));
        },
    };
    let column = match find_column(&headers, value_field) {
        Some(column) => column,
        None => {
            return Err(
                SourceError::ValueNotFound(join3("Column '", value_field, "' not found in CSV")),
            );
        },
    };
    let (first, last) = match accepted_bounds(&rows, skip_headers) {
        Some(bounds) => bounds,
        None => {
            return Err(SourceError::ValueNotFound(String::from_str("No data rows found in CSV")));
        },
    };
    let row = if read_last_row {
        last
    } else {
        first
    };
    if column < row.len() {
        Ok(row[column].clone())
    } else {
        let number = decimal_text(column as u64);
        Err(SourceError::ValueNotFound(join3("Column index ", number.as_str(), " out of bounds")))
    }
}

/// With N data rows, taking the last row yields the cell of row N in the
/// selected column, and taking the first row yields the cell of row 1,
/// whatever N is.
pub proof fn lemma_selects_first_or_last_row(
    value_field: Seq<char>,
    skip: int,
    headers: Seq<Seq<char>>,
    rows: Seq<Option<Seq<Seq<char>>>>,
    column: int,
)
    requires
        column_index(headers, value_field) == Some(column),
        data_rows(rows, skip).len() >= 1,
    ensures
        column < data_rows(rows, skip).last().len() ==> selected_cell(
            value_field,
            skip,
            true,
            Ok(headers),
            rows,
        ) == Ok::<Seq<char>, SourceFailure>(
            data_rows(rows, skip)[data_rows(rows, skip).len() - 1][column],
        ),
        column < data_rows(rows, skip).first().len() ==> selected_cell(
            value_field,
            skip,
            false,
            Ok(headers),
            rows,
        ) == Ok::<Seq<char>, SourceFailure>(data_rows(rows, skip)[0][column]),
{
}

} // verus!
