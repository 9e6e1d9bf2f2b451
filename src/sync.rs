//! Building a signature database from a table export (a header row, then one row per
//! signature), and replacing the live database with it.
use vstd::prelude::*;
use crate::detector::{has_name, CheatDetector};
use crate::fields::{is_truthy, list_items, parse_bool, parse_size_tenths, parse_usize, size_value, split_and_trim, trim, trimmed, unsigned_value};
use crate::signature::CheatInfo;
use crate::text::{chars_of, contains_chars, contains_frag, decimal, decimal_text, lower_of, lowered, lowered_chars, seqs_of, views_of};

verus! {

/// The content of a signature, as plain values.
pub struct InfoModel {
    pub directories: Seq<Seq<char>>,
    pub classes: Seq<Seq<char>>,
    pub exclude_dirs: Seq<Seq<char>>,
    pub sizes: Seq<u64>,
    pub description: Seq<char>,
    pub strict_mode: bool,
    pub min_conditions: nat,
}

/// The content of a signature.
pub open spec fn info_model(c: CheatInfo) -> InfoModel {
    InfoModel {
        directories: views_of(c.directories@),
        classes: views_of(c.classes@),
        exclude_dirs: views_of(c.exclude_dirs@),
        sizes: c.sizes_kb_tenths@,
        description: c.description@,
        strict_mode: c.strict_mode,
        min_conditions: c.min_conditions as nat,
    }
}

/// A row with no cell filled in: lenient, two signals required.
pub open spec fn empty_row() -> InfoModel {
    InfoModel {
        directories: Seq::empty(),
        classes: Seq::empty(),
        exclude_dirs: Seq::empty(),
        sizes: Seq::empty(),
        description: Seq::empty(),
        strict_mode: false,
        min_conditions: 2,
    }
}

/// The sizes that the items of a list cell give, malformed ones left out.
pub open spec fn sizes_of(items: Seq<Seq<char>>) -> Seq<u64>
    decreases items.len(),
{
    if items.len() == 0 {
        Seq::empty()
    } else {
        match size_value(items.last()) {
            Some(v) => sizes_of(items.drop_last()).push(v),
            None => sizes_of(items.drop_last()),
        }
    }
}

/// The column of lower-case header `key` feeds the given field.
pub open spec fn feeds_excludes(key: Seq<char>) -> bool {
    contains_frag(key, "exclude"@) || contains_frag(key, "ignore"@)
}

pub open spec fn feeds_directories(key: Seq<char>) -> bool {
    contains_frag(key, "dir"@) || contains_frag(key, "package"@) || contains_frag(key, "path"@)
}

pub open spec fn feeds_classes(key: Seq<char>) -> bool {
    contains_frag(key, "class"@)
}

pub open spec fn feeds_sizes(key: Seq<char>) -> bool {
    contains_frag(key, "size"@) || contains_frag(key, "weight"@) || contains_frag(key, "kb"@)
}

pub open spec fn feeds_description(key: Seq<char>) -> bool {
    contains_frag(key, "descr"@) || contains_frag(key, "name"@) || contains_frag(key, "cheat"@)
}

pub open spec fn feeds_strict(key: Seq<char>) -> bool {
    contains_frag(key, "strict"@)
}

pub open spec fn feeds_min_conditions(key: Seq<char>) -> bool {
    contains_frag(key, "min"@) && contains_frag(key, "cond"@)
}

pub open spec fn feeds_dll_sizes(key: Seq<char>) -> bool {
    contains_frag(key, "dll"@)
}

/// Columns of tags (client, hitbox, type) that carry nothing the matcher uses.
pub open spec fn is_tag_column(key: Seq<char>) -> bool {
    contains_frag(key, "client"@) || contains_frag(key, "hitbox"@) || contains_frag(key, "hb"@)
        || contains_frag(key, "type"@)
}

/// A row after one more cell, under lower-case header `key` with trimmed `value`; the first
/// rule whose header test passes applies.
pub open spec fn apply_cell(m: InfoModel, key: Seq<char>, value: Seq<char>) -> InfoModel {
    if value.len() == 0 {
        m
    } else if feeds_excludes(key) {
        InfoModel { exclude_dirs: m.exclude_dirs + list_items(value), ..m }
    } else if feeds_directories(key) {
        InfoModel { directories: m.directories + list_items(value), ..m }
    } else if feeds_classes(key) {
        InfoModel { classes: m.classes + list_items(value), ..m }
    } else if feeds_sizes(key) || (!feeds_description(key) && !feeds_strict(key)
        && !feeds_min_conditions(key) && feeds_dll_sizes(key)) {
        InfoModel { sizes: m.sizes + sizes_of(list_items(value)), ..m }
    } else if feeds_description(key) {
        InfoModel { description: value, ..m }
    } else if feeds_strict(key) {
        InfoModel { strict_mode: is_truthy(lower_of(value)), ..m }
    } else if feeds_min_conditions(key) {
        match unsigned_value(value) {
            Some(n) => InfoModel { min_conditions: n as nat, ..m },
            None => m,
        }
    } else if is_tag_column(key) {
        m
    } else {
        match size_value(value) {
            Some(v) => InfoModel { sizes: m.sizes.push(v), ..m },
            None => m,
        }
    }
}

/// The trimmed cell of column `i`, empty where the row is short.
pub open spec fn cell_at(cells: Seq<Seq<char>>, i: int) -> Seq<char> {
    if 0 <= i < cells.len() {
        trimmed(cells[i])
    } else {
        Seq::empty()
    }
}

/// The signature that a row describes, under lower-case headers `keys`, column by column.
pub open spec fn row_model(keys: Seq<Seq<char>>, cells: Seq<Seq<char>>) -> InfoModel
    decreases keys.len(),
{
    if keys.len() == 0 {
        empty_row()
    } else {
        apply_cell(
            row_model(keys.drop_last(), cells),
            keys.last(),
            cell_at(cells, keys.len() - 1),
        )
    }
}

/// The sizes that the items of a list cell give, malformed ones left out.
fn parse_sizes(items: &Vec<String>) -> (r: Vec<u64>)
    ensures
        r@ == sizes_of(views_of(items@)),
{
    let mut r: Vec<u64> = Vec::new();
    let mut i: usize = 0;
    while i < items.len()
        invariant
            i <= items@.len(),
            r@ == sizes_of(views_of(items@).take(i as int)),
        decreases items@.len() - i,
    {
        assert(views_of(items@).take(i + 1).drop_last() =~= views_of(items@).take(i as int));
        match parse_size_tenths(items[i].as_str()) {
            Some(v) => r.push(v),
            None => {},
        }
        i = i + 1;
    }
    assert(views_of(items@).take(i as int) =~= views_of(items@));
    r
}

/// Whether the lower-case header contains `frag`.
fn key_has(key: &Vec<char>, frag: &str) -> (r: bool)
    ensures
        r == contains_frag(key@, frag@),
{
    let f = chars_of(frag);
    contains_chars(key, &f)
}

/// Appends the items of a list cell.
fn append_items(dst: &mut Vec<String>, value: &str)
    ensures
        views_of(final(dst)@) == views_of(old(dst)@) + list_items(value@),
{
    let mut items = split_and_trim(value);
    let ghost added = items@;
    dst.append(&mut items);
    assert(views_of(final(dst)@) =~= views_of(old(dst)@) + views_of(added));
}

/// Reads one row of a signature table under its lower-case headers `keys`: each column
/// feeds the field its header names, tested in this order: exclusions, directories,
/// classes, sizes, description, strict flag, required signal count; tag columns are
/// ignored and any other column may give a size. Empty cells are skipped.
pub fn parse_row(keys: &Vec<Vec<char>>, record: &Vec<String>) -> (r: CheatInfo)
    ensures
        info_model(r) == row_model(seqs_of(keys@), views_of(record@)),
{
    let ghost key_views = seqs_of(keys@);
    let ghost cells = views_of(record@);
    let mut directories: Vec<String> = Vec::new();
    let mut classes: Vec<String> = Vec::new();
    let mut exclude_dirs: Vec<String> = Vec::new();
    let mut sizes_kb_tenths: Vec<u64> = Vec::new();
    let mut description = String::new();
    let mut strict_mode = false;
    let mut min_conditions: usize = 2;
    let mut i: usize = 0;
    assert(key_views.take(0) =~= Seq::<Seq<char>>::empty());
    assert(views_of(directories@) =~= Seq::<Seq<char>>::empty());
    while i < keys.len()
        invariant
            i <= keys@.len(),
            key_views == seqs_of(keys@),
            cells == views_of(record@),
            row_model(key_views.take(i as int), cells) == (InfoModel {
                directories: views_of(directories@),
                classes: views_of(classes@),
                exclude_dirs: views_of(exclude_dirs@),
                sizes: sizes_kb_tenths@,
                description: description@,
                strict_mode,
                min_conditions: min_conditions as nat,
            }),
        decreases keys@.len() - i,
    {
        proof {
            assert(key_views.take(i + 1).drop_last() =~= key_views.take(i as int));
            assert(key_views.take(i + 1).last() == keys@[i as int]@);
        }
        let raw: &str = if i < record.len() {
            record[i].as_str()
        } else {
            proof {
                reveal_strlit("");
            }
            ""
        };
        let value = trim(raw);
        assert(value@ == cell_at(cells, i as int));
        if value.unicode_len() > 0 {
            let key = &keys[i];
            if key_has(key, "exclude") || key_has(key, "ignore") {
                append_items(&mut exclude_dirs, value);
            } else if key_has(key, "dir") || key_has(key, "package") || key_has(key, "path") {
                append_items(&mut directories, value);
            } else if key_has(key, "class") {
                append_items(&mut classes, value);
            } else if key_has(key, "size") || key_has(key, "weight") || key_has(key, "kb") || (
            !(key_has(key, "descr") || key_has(key, "name") || key_has(key, "cheat"))
                && !key_has(key, "strict") && !(key_has(key, "min") && key_has(key, "cond"))
                && key_has(key, "dll")) {
                let items = split_and_trim(value);
                let mut parsed = parse_sizes(&items);
                sizes_kb_tenths.append(&mut parsed);
            } else if key_has(key, "descr") || key_has(key, "name") || key_has(key, "cheat") {
                description = String::from_str(value);
            } else if key_has(key, "strict") {
                strict_mode = parse_bool(value);
            } else if key_has(key, "min") && key_has(key, "cond") {
                match parse_usize(value) {
                    Some(n) => {
                        min_conditions = n;
                    },
                    None => {},
                }
            } else if key_has(key, "client") || key_has(key, "hitbox") || key_has(key, "hb")
                || key_has(key, "type") {
                // Tags carry nothing the matcher uses.
            } else {
                match parse_size_tenths(value) {
                    Some(v) => sizes_kb_tenths.push(v),
                    None => {},
                }
            }
        }
        i = i + 1;
    }
    assert(key_views.take(i as int) =~= key_views);
    CheatInfo {
        directories,
        classes,
        exclude_dirs,
        sizes_kb_tenths,
        description,
        strict_mode,
        min_conditions,
    }
}

/// Reads one row of a signature table under its header row; headers are compared in
/// lower case (see `parse_row`).
pub fn parse_record(headers: &Vec<String>, record: &Vec<String>) -> (r: CheatInfo)
    ensures
        info_model(r) == row_model(lowered(headers@), views_of(record@)),
{
    let keys = lowered_chars(headers);
    parse_row(&keys, record)
}

/// A database as identifiers with signature contents, in order.
pub type TableModel = Seq<(Seq<char>, InfoModel)>;

/// The content of a signature database.
pub open spec fn detector_model(d: CheatDetector) -> TableModel {
    d@.map_values(|e: (Seq<char>, CheatInfo)| (e.0, info_model(e.1)))
}

/// The position of identifier `key`, if present.
pub open spec fn key_position(db: TableModel, key: Seq<char>) -> Option<int>
    decreases db.len(),
{
    if db.len() == 0 {
        None
    } else if db.last().0 == key {
        Some(db.len() - 1)
    } else {
        key_position(db.drop_last(), key)
    }
}

/// Puts `m` under `key`: in place of the entry with that identifier, or else at the end.
pub open spec fn insert_model(db: TableModel, key: Seq<char>, m: InfoModel) -> TableModel {
    match key_position(db, key) {
        Some(i) => db.update(i, (key, m)),
        None => db.push((key, m)),
    }
}

/// A row is kept when it declares some signal and asks for at least one.
pub open spec fn accepted(m: InfoModel) -> bool {
    &&& m.min_conditions >= 1
    &&& (m.directories.len() > 0 || m.classes.len() > 0 || m.sizes.len() > 0)
}

/// The identifier of a kept row: its description, else its first cell, else a numbered
/// name after the entries so far.
pub open spec fn row_key(m: InfoModel, cells: Seq<Seq<char>>, count: nat) -> Seq<char> {
    if m.description.len() > 0 {
        m.description
    } else if cell_at(cells, 0).len() > 0 {
        cell_at(cells, 0)
    } else {
        "entry_"@ + decimal(count + 1)
    }
}

/// The database that rows under lower-case headers `keys` give, row by row.
pub open spec fn records_model(keys: Seq<Seq<char>>, records: Seq<Seq<Seq<char>>>) -> TableModel
    decreases records.len(),
{
    if records.len() == 0 {
        Seq::empty()
    } else {
        let db = records_model(keys, records.drop_last());
        let m = row_model(keys, records.last());
        if accepted(m) {
            insert_model(db, row_key(m, records.last(), db.len()), m)
        } else {
            db
        }
    }
}

/// The database that a table gives: its first row holds the headers.
pub open spec fn table_model(rows: Seq<Seq<Seq<char>>>) -> TableModel {
    if rows.len() == 0 {
        Seq::empty()
    } else {
        records_model(rows[0].map_values(|h: Seq<char>| lower_of(h)), rows.drop_first())
    }
}

/// The views of a table of strings.
pub open spec fn rows_view(rows: Seq<Vec<String>>) -> Seq<Seq<Seq<char>>> {
    rows.map_values(|r: Vec<String>| views_of(r@))
}

proof fn lemma_key_position(db: TableModel, key: Seq<char>)
    ensures
        key_position(db, key) matches Some(i) ==> 0 <= i < db.len() && db[i].0 == key,
        key_position(db, key) is None ==> forall|j: int| 0 <= j < db.len() ==> (#[trigger] db[j]).0 != key,
    decreases db.len(),
{
    if db.len() > 0 && db.last().0 != key {
        lemma_key_position(db.drop_last(), key);
        if key_position(db, key) is None {
            assert forall|j: int| 0 <= j < db.len() implies (#[trigger] db[j]).0 != key by {
                if j < db.len() - 1 {
                    assert(db.drop_last()[j] == db[j]);
                }
            }
        }
    }
}

/// The identifier for a kept row.
fn choose_key(info: &CheatInfo, record: &Vec<String>, count: usize) -> (r: String)
    requires
        count < usize::MAX,
    ensures
        r@ == row_key(info_model(*info), views_of(record@), count as nat),
{
    if info.description.unicode_len() > 0 {
        return info.description.clone();
    }
    if record.len() > 0 {
        let first = trim(record[0].as_str());
        if first.unicode_len() > 0 {
            return String::from_str(first);
        }
    }
    let mut r = String::from_str("entry_");
    let n = decimal_text((count + 1) as u64);
    r.append(n.as_str());
    r
}

/// Builds a signature database from a table whose first row holds the headers.
///
/// Each later row is read by `parse_record`; rows that declare no signal or ask for no
/// signal are malformed and skipped. A kept row is stored under its identifier (see
/// `row_key`), replacing an earlier row of the same identifier in place.
pub fn database_from_rows(rows: &Vec<Vec<String>>) -> (r: CheatDetector)
    ensures
        r.well_formed(),
        r.all_well_formed(),
        detector_model(r) == table_model(rows_view(rows@)),
{
    let mut db = CheatDetector::empty();
    assert(detector_model(db) =~= Seq::<(Seq<char>, InfoModel)>::empty());
    if rows.len() == 0 {
        return db;
    }
    let headers = &rows[0];
    let header_keys = lowered_chars(headers);
    let ghost keys = rows_view(rows@)[0].map_values(|h: Seq<char>| lower_of(h));
    let ghost records = rows_view(rows@).drop_first();
    assert(keys =~= lowered(headers@));
    let mut i: usize = 1;
    assert(records.take(0) =~= Seq::<Seq<Seq<char>>>::empty());
    while i < rows.len()
        invariant
            1 <= i <= rows@.len(),
            headers == rows@[0],
            keys == lowered(headers@),
            seqs_of(header_keys@) == keys,
            records == rows_view(rows@).drop_first(),
            db.well_formed(),
            db.all_well_formed(),
            db@.len() < i,
            detector_model(db) == records_model(keys, records.take(i - 1)),
        decreases rows@.len() - i,
    {
        let record = &rows[i];
        let ghost before = db@;
        proof {
            assert(records.take(i as int).drop_last() =~= records.take(i - 1));
            assert(records.take(i as int).last() == views_of(record@));
        }
        let info = parse_row(&header_keys, record);
        let keep = info.min_conditions >= 1 && (info.directories.len() > 0 || info.classes.len() > 0
            || info.sizes_kb_tenths.len() > 0);
        if keep {
            let key = choose_key(&info, record, db.len());
            let ghost m = info_model(info);
            let ghost old_model = detector_model(db);
            proof {
                lemma_key_position(old_model, key@);
            }
            db.insert(key, info);
            proof {
                match key_position(old_model, key@) {
                    Some(p) => {
                        assert(before[p].0 == key@);
                        assert(detector_model(db) =~= old_model.update(p, (key@, m)));
                    },
                    None => {
                        assert(!has_name(before, key@)) by {
                            if has_name(before, key@) {
                                let q = choose|q: int| 0 <= q < before.len() && #[trigger] before[q].0 == key@;
                                assert(old_model[q].0 == key@);
                            }
                        }
                        assert(detector_model(db) =~= old_model.push((key@, m)));
                    },
                }
            }
        }
        i = i + 1;
    }
    assert(records.take(i - 1) =~= records);
    db
}

/// The rows of a table export, each field trimmed, as the CSV reader reads them; `None`
/// where it rejects the text.
pub uninterp spec fn csv_rows_of(text: Seq<char>) -> Option<Seq<Seq<Seq<char>>>>;

#[verifier::external_type_specification]
#[verifier::external_body]
pub struct ExCsvError(csv::Error);

/// Relies on csv's `ReaderBuilder` (no header handling, rows of any length, every field
/// trimmed) and `Reader::records`: all rows of the text as strings, or the reader's error.
#[verifier::external_body]
fn read_csv_rows(text: &str) -> (r: Result<Vec<Vec<String>>, csv::Error>)
    ensures
        match r {
            Ok(rows) => csv_rows_of(text@) == Some(rows_view(rows@)),
            Err(_) => csv_rows_of(text@) is None,
        },
{
    let mut reader = csv::ReaderBuilder::new()
        .has_headers(false)
        .flexible(true)
        .trim(csv::Trim::All)
        .from_reader(text.as_bytes());
    let mut rows = Vec::new();
    for record in reader.records() {
        rows.push(record?.iter().map(|f| f.to_string()).collect());
    }
    Ok(rows)
}

/// Why a refresh of the signature database failed.
#[derive(Clone, Debug, PartialEq, Eq)]
pub enum SyncError {
    /// The export could not be fetched; the text says why.
    Transport(String),
    /// The export is not a well-formed table.
    MalformedTable,
}

/// Builds a signature database from the text of a table export in CSV form.
pub fn parse_signature_table(text: &str) -> (r: Result<CheatDetector, SyncError>)
    ensures
        match csv_rows_of(text@) {
            None => r == Err::<CheatDetector, SyncError>(SyncError::MalformedTable),
            Some(rows) => r matches Ok(d) && d.well_formed() && d.all_well_formed()
                && detector_model(d) == table_model(rows),
        },
{
    match read_csv_rows(text) {
        Ok(rows) => Ok(database_from_rows(&rows)),
        Err(_) => Err(SyncError::MalformedTable),
    }
}

/// What a refresh did to the live database.
#[derive(Clone, Debug, PartialEq, Eq)]
pub enum RefreshOutcome {
    /// The live database was replaced by one with this many signatures.
    Updated(usize),
    /// The live database was kept as it was.
    Failed(SyncError),
}

/// Applies the result of a refresh: a fetched database replaces the live one whole; on
/// failure the live one stays as it was.
pub fn apply_refresh(live: &mut CheatDetector, fetched: Result<CheatDetector, SyncError>) -> (r: RefreshOutcome)
    ensures
        match fetched {
            Ok(d) => *final(live) == d && r == RefreshOutcome::Updated(d@.len() as usize),
            Err(e) => *final(live) == *old(live) && r == RefreshOutcome::Failed(e),
        },
{
    match fetched {
        Ok(d) => {
            let n = d.len();
            *live = d;
            RefreshOutcome::Updated(n)
        },
        Err(e) => RefreshOutcome::Failed(e),
    }
}

} // verus!
