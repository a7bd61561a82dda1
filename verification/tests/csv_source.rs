use agentquelia::config::CsvSourceConfig;
use agentquelia::error::SourceError;
use agentquelia::sources::csv_source::select_cell;
use agentquelia::sources::CsvSource;
use agentquelia::sources::RawKind;

fn config(value_field: &str, read_last_row: bool, skip_headers: usize) -> CsvSourceConfig {
    CsvSourceConfig {
        path: "/var/data/power.csv".to_string(),
        value_field: value_field.to_string(),
        unit: "kW".to_string(),
        read_last_row,
        delimiter: ",".to_string(),
        skip_headers,
        multiplier_bits: 1.0f64.to_bits(),
    }
}

fn scaled(text: &str, multiplier_bits: u64) -> f64 {
    text.trim().parse::<f64>().unwrap() * f64::from_bits(multiplier_bits)
}

const THREE_ROWS: &str =
    "timestamp,power_kw,status\n2024-01-01,100.5,ok\n2024-01-02,150.7,ok\n2024-01-03,200.3,ok\n";

#[test]
fn test_csv_source_read_last_row() {
    let source = CsvSource::new(&config("power_kw", true, 0)).unwrap();
    let raw = source.parse_value(THREE_ROWS).unwrap();
    let value = scaled(&raw.text, source.multiplier_bits());

    assert!((value - 200.3).abs() < 0.001);
    assert_eq!(source.unit(), "kW");
}

#[test]
fn test_csv_source_read_first_row() {
    let content = "timestamp,power_kw,status\n2024-01-01,100.5,ok\n2024-01-02,150.7,ok\n";
    let source = CsvSource::new(&config("power_kw", false, 0)).unwrap();
    let raw = source.parse_value(content).unwrap();
    let value = scaled(&raw.text, source.multiplier_bits());

    assert!((value - 100.5).abs() < 0.001);
}

#[test]
fn selected_cell_is_handed_back_as_it_stands() {
    let source = CsvSource::new(&config("power_kw", true, 0)).unwrap();
    let raw = source.parse_value("t,power_kw\na, 42.0 \n").unwrap();
    assert_eq!(raw.kind, RawKind::Cell);
    assert_eq!(raw.text, " 42.0 ");
}

#[test]
fn first_row_does_not_depend_on_the_number_of_rows() {
    let source = CsvSource::new(&config("power_kw", false, 0)).unwrap();
    let mut content = String::from("timestamp,power_kw,status\n2024-01-01,100.5,ok\n");
    for day in 2..20 {
        assert_eq!(source.parse_value(&content).unwrap().text, "100.5");
        content.push_str(&format!("2024-01-{:02},{}.5,ok\n", day, day));
    }
}

#[test]
fn last_row_is_row_n_of_n() {
    let source = CsvSource::new(&config("power_kw", true, 0)).unwrap();
    let mut content = String::from("timestamp,power_kw,status\n");
    for n in 1..20 {
        content.push_str(&format!("2024-01-{:02},{}.25,ok\n", n, n));
        assert_eq!(source.parse_value(&content).unwrap().text, format!("{}.25", n));
    }
}

#[test]
fn leading_rows_are_passed_over() {
    let first = CsvSource::new(&config("power_kw", false, 1)).unwrap();
    assert_eq!(first.parse_value(THREE_ROWS).unwrap().text, "150.7");
    let last = CsvSource::new(&config("power_kw", true, 2)).unwrap();
    assert_eq!(last.parse_value(THREE_ROWS).unwrap().text, "200.3");
}

#[test]
fn passing_over_every_row_leaves_none() {
    let source = CsvSource::new(&config("power_kw", true, 3)).unwrap();
    assert_eq!(
        source.parse_value(THREE_ROWS),
        Err(SourceError::ValueNotFound("No data rows found in CSV".to_string()))
    );
    let more = CsvSource::new(&config("power_kw", true, 50)).unwrap();
    assert_eq!(
        more.parse_value(THREE_ROWS),
        Err(SourceError::ValueNotFound("No data rows found in CSV".to_string()))
    );
}

#[test]
fn header_without_rows_holds_no_value() {
    let source = CsvSource::new(&config("power_kw", true, 0)).unwrap();
    assert_eq!(
        source.parse_value("timestamp,power_kw,status\n"),
        Err(SourceError::ValueNotFound("No data rows found in CSV".to_string()))
    );
}

#[test]
fn rows_of_another_length_are_dropped() {
    let content = "timestamp,power_kw,status\n2024-01-01,100.5,ok\nbroken\n2024-01-03,1,2,3,4\n";
    let last = CsvSource::new(&config("power_kw", true, 0)).unwrap();
    assert_eq!(last.parse_value(content).unwrap().text, "100.5");
}

#[test]
fn dropped_rows_still_count_as_passed_over() {
    let content = "a,b\nbroken\n1,2\n3,4\n";
    let source = CsvSource::new(&config("b", false, 1)).unwrap();
    assert_eq!(source.parse_value(content).unwrap().text, "2");
    let next = CsvSource::new(&config("b", false, 2)).unwrap();
    assert_eq!(next.parse_value(content).unwrap().text, "4");
}

#[test]
fn column_name_falls_back_to_an_index() {
    let source = CsvSource::new(&config("1", true, 0)).unwrap();
    assert_eq!(source.parse_value(THREE_ROWS).unwrap().text, "200.3");
    let signed = CsvSource::new(&config("+2", true, 0)).unwrap();
    assert_eq!(signed.parse_value(THREE_ROWS).unwrap().text, "ok");
}

#[test]
fn header_wins_over_index() {
    let source = CsvSource::new(&config("1", true, 0)).unwrap();
    assert_eq!(source.parse_value("1,0\nleft,right\n").unwrap().text, "left");
}

#[test]
fn first_of_equal_headers_is_taken() {
    let source = CsvSource::new(&config("v", true, 0)).unwrap();
    assert_eq!(source.parse_value("v,v\nleft,right\n").unwrap().text, "left");
}

#[test]
fn unknown_column_is_reported() {
    let source = CsvSource::new(&config("voltage", true, 0)).unwrap();
    assert_eq!(
        source.parse_value(THREE_ROWS),
        Err(SourceError::ValueNotFound("Column 'voltage' not found in CSV".to_string()))
    );
    let negative = CsvSource::new(&config("-1", true, 0)).unwrap();
    assert_eq!(
        negative.parse_value(THREE_ROWS),
        Err(SourceError::ValueNotFound("Column '-1' not found in CSV".to_string()))
    );
}

#[test]
fn index_beyond_the_row_is_reported() {
    let source = CsvSource::new(&config("7", true, 0)).unwrap();
    assert_eq!(
        source.parse_value(THREE_ROWS),
        Err(SourceError::ValueNotFound("Column index 7 out of bounds".to_string()))
    );
}

#[test]
fn other_delimiters_are_honoured() {
    let mut settings = config("power_kw", true, 0);
    settings.delimiter = ";".to_string();
    let source = CsvSource::new(&settings).unwrap();
    assert_eq!(source.parse_value("t;power_kw\na;1,5\nb;2,5\n").unwrap().text, "2,5");
}

#[test]
fn empty_delimiter_means_comma() {
    let mut settings = config("power_kw", true, 0);
    settings.delimiter = String::new();
    let source = CsvSource::new(&settings).unwrap();
    assert_eq!(source.parse_value(THREE_ROWS).unwrap().text, "200.3");
}

#[test]
fn only_the_first_character_of_the_delimiter_counts() {
    let mut settings = config("power_kw", true, 0);
    settings.delimiter = "|,".to_string();
    let source = CsvSource::new(&settings).unwrap();
    assert_eq!(source.parse_value("t|power_kw\na|7\n").unwrap().text, "7");
}

#[test]
fn wide_delimiter_is_refused() {
    let mut settings = config("power_kw", true, 0);
    settings.delimiter = "\u{2192}".to_string();
    assert_eq!(
        CsvSource::new(&settings).err(),
        Some(SourceError::ParseError("Invalid delimiter".to_string()))
    );
}

#[test]
fn csv_source_id_names_the_file() {
    let source = CsvSource::new(&config("power_kw", true, 0)).unwrap();
    assert_eq!(source.source_id(), "csv:/var/data/power.csv");
    assert_eq!(source.path(), "/var/data/power.csv");
}

#[test]
fn reader_error_becomes_csv_error() {
    let r = select_cell("a", 0, true, Err("broken header".to_string()), vec![]);
    assert_eq!(r, Err(SourceError::CsvError("broken header".to_string())));
}

#[test]
fn select_cell_works_on_given_rows() {
    let header = vec!["a".to_string(), "b".to_string()];
    let rows = vec![
        Some(vec!["1".to_string(), "2".to_string()]),
        None,
        Some(vec!["3".to_string(), "4".to_string()]),
        None,
    ];
    assert_eq!(select_cell("b", 0, true, Ok(header.clone()), rows.clone()), Ok("4".to_string()));
    assert_eq!(select_cell("b", 0, false, Ok(header.clone()), rows.clone()), Ok("2".to_string()));
    assert_eq!(select_cell("a", 1, false, Ok(header.clone()), rows.clone()), Ok("3".to_string()));
    assert_eq!(
        select_cell("a", 3, false, Ok(header), rows),
        Err(SourceError::ValueNotFound("No data rows found in CSV".to_string()))
    );
}
