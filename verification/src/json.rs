//! The JSON value model for query results and its serializer.
//!
//! A result is an ordered column-name list paired with an ordered row list;
//! it serializes to one JSON object, `{"columns":[...],"data":[...]}`, so
//! that column order stays recoverable even though row objects are keyed
//! maps. Every byte of the output is pinned by `spec_result_json`. The
//! output is compact (not indented): indentation is a presentation nicety,
//! not part of the result's meaning.

use vstd::prelude::*;
use vstd::string::StrSliceExecFns;
use vstd::string::StringExecFns;
use crate::numtext::digit_char;
use crate::numtext::i64_text;
use crate::numtext::spec_i64_text;

verus! {

/// One cell of a result row. `Real` carries the number's decimal text,
/// rendered at the engine boundary, so that the model itself stays
/// integral; `Blob` carries nothing, since binary data only ever
/// serializes to a fixed sentinel.
#[derive(Clone, PartialEq, Debug)]
pub enum Cell {
    Null,
    Int(i64),
    Real(String),
    Text(String),
    Blob,
}

/// Relies on `String::push`: appends exactly the given character.
#[verifier::external_body]
fn push_char(s: &mut String, c: char)
    ensures
        final(s)@ == old(s)@.push(c),
{
    s.push(c);
}

/// The lower-case hexadecimal digit for a value below sixteen.
pub open spec fn hex_char(d: int) -> char {
    if d < 10 {
        digit_char(d)
    } else if d == 10 {
        'a'
    } else if d == 11 {
        'b'
    } else if d == 12 {
        'c'
    } else if d == 13 {
        'd'
    } else if d == 14 {
        'e'
    } else {
        'f'
    }
}

fn hex_char_of(d: u32) -> (c: char)
    requires
        d < 16,
    ensures
        c == hex_char(d as int),
{
    if d == 0 {
        '0'
    } else if d == 1 {
        '1'
    } else if d == 2 {
        '2'
    } else if d == 3 {
        '3'
    } else if d == 4 {
        '4'
    } else if d == 5 {
        '5'
    } else if d == 6 {
        '6'
    } else if d == 7 {
        '7'
    } else if d == 8 {
        '8'
    } else if d == 9 {
        '9'
    } else if d == 10 {
        'a'
    } else if d == 11 {
        'b'
    } else if d == 12 {
        'c'
    } else if d == 13 {
        'd'
    } else if d == 14 {
        'e'
    } else {
        'f'
    }
}

/// How one character appears inside a JSON string literal: quotes and
/// backslashes get a backslash escape, control characters a \u00xx escape,
/// anything else stands as itself.
pub open spec fn spec_escape_char(c: char) -> Seq<char> {
    if c == '"' {
        seq!['\\', '"']
    } else if c == '\\' {
        seq!['\\', '\\']
    } else if (c as u32) < 32 {
        seq!['\\', 'u', '0', '0', hex_char((c as u32) as int / 16), hex_char(
            (c as u32) as int % 16,
        )]
    } else {
        seq![c]
    }
}

/// A whole text escaped for a JSON string literal, character by character.
pub open spec fn spec_escape(s: Seq<char>) -> Seq<char>
    decreases s.len(),
{
    if s.len() == 0 {
        Seq::empty()
    } else {
        spec_escape(s.drop_last()) + spec_escape_char(s.last())
    }
}

/// A JSON string literal: quote, escaped text, quote.
pub open spec fn spec_json_string(s: Seq<char>) -> Seq<char> {
    seq!['"'] + spec_escape(s) + seq!['"']
}

/// Append the JSON string literal for `s` to `out`.
fn append_json_string(out: &mut String, s: &str)
    ensures
        final(out)@ == old(out)@ + spec_json_string(s@),
{
    push_char(out, '"');
    let n = s.unicode_len();
    let mut i: usize = 0;
    while i < n
        invariant
            n == s@.len(),
            i <= n,
            out@ == old(out)@ + seq!['"'] + spec_escape(s@.take(i as int)),
        decreases n - i,
    {
        let ghost prefix = out@;
        let c = s.get_char(i);
        if c == '"' {
            push_char(out, '\\');
            push_char(out, '"');
        } else if c == '\\' {
            push_char(out, '\\');
            push_char(out, '\\');
        } else if (c as u32) < 32 {
            let code = c as u32;
            push_char(out, '\\');
            push_char(out, 'u');
            push_char(out, '0');
            push_char(out, '0');
            push_char(out, hex_char_of(code / 16));
            push_char(out, hex_char_of(code % 16));
        } else {
            push_char(out, c);
        }
        proof {
            assert(out@ =~= prefix + spec_escape_char(s@[i as int]));
            assert(s@.take(i as int + 1).drop_last() =~= s@.take(i as int));
            assert(s@.take(i as int + 1).last() == s@[i as int]);
            assert(out@ =~= old(out)@ + seq!['"'] + spec_escape(s@.take(i as int + 1)));
        }
        i = i + 1;
    }
    proof {
        assert(s@.take(n as int) =~= s@);
    }
    push_char(out, '"');
    proof {
        assert(out@ =~= old(out)@ + spec_json_string(s@));
    }
}

/// How one cell appears as a JSON value: absence as null, integers and
/// reals as numbers, text as an escaped string, binary data as the fixed
/// sentinel string.
pub open spec fn spec_cell_json(c: Cell) -> Seq<char> {
    match c {
        Cell::Null => "null"@,
        Cell::Int(n) => spec_i64_text(n as int),
        Cell::Real(t) => t@,
        Cell::Text(t) => spec_json_string(t@),
        Cell::Blob => "\"NOT SUPPORT\""@,
    }
}

/// Append the JSON value for one cell to `out`.
fn append_cell_json(out: &mut String, c: &Cell)
    ensures
        final(out)@ == old(out)@ + spec_cell_json(*c),
{
    match c {
        Cell::Null => {
            out.append("null");
        },
        Cell::Int(n) => {
            out.append(i64_text(*n).as_str());
        },
        Cell::Real(t) => {
            out.append(t.as_str());
        },
        Cell::Text(t) => {
            append_json_string(out, t.as_str());
        },
        Cell::Blob => {
            out.append("\"NOT SUPPORT\"");
        },
    }
}

/// A comma-separated list: the rendered items in order, a comma between
/// each neighbouring pair.
pub open spec fn spec_join(items: Seq<Seq<char>>) -> Seq<char>
    decreases items.len(),
{
    if items.len() == 0 {
        Seq::empty()
    } else if items.len() == 1 {
        items[0]
    } else {
        spec_join(items.drop_last()) + seq![','] + items.last()
    }
}

/// The views of a list of strings.
pub open spec fn string_views(v: Seq<String>) -> Seq<Seq<char>> {
    v.map_values(|s: String| s@)
}

/// One `"name":value` member of a row object.
pub open spec fn spec_pair_json(name: Seq<char>, c: Cell) -> Seq<char> {
    spec_json_string(name) + seq![':'] + spec_cell_json(c)
}

/// The members of one row object, in column order: the column list is the
/// authority for both the keys and their order.
pub open spec fn spec_row_items(cols: Seq<Seq<char>>, row: Seq<Cell>) -> Seq<Seq<char>> {
    Seq::new(cols.len(), |i: int| spec_pair_json(cols[i], row[i]))
}

/// One result row as a JSON object.
pub open spec fn spec_row_json(cols: Seq<Seq<char>>, row: Seq<Cell>) -> Seq<char> {
    seq!['{'] + spec_join(spec_row_items(cols, row)) + seq!['}']
}

/// Append one row object to `out`.
fn append_row_json(out: &mut String, cols: &Vec<String>, row: &Vec<Cell>)
    requires
        row@.len() == cols@.len(),
    ensures
        final(out)@ == old(out)@ + spec_row_json(string_views(cols@), row@),
{
    let ghost items = spec_row_items(string_views(cols@), row@);
    push_char(out, '{');
    let mut i: usize = 0;
    while i < cols.len()
        invariant
            row@.len() == cols@.len(),
            i <= cols@.len(),
            items == spec_row_items(string_views(cols@), row@),
            out@ == old(out)@ + seq!['{'] + spec_join(items.take(i as int)),
        decreases cols@.len() - i,
    {
        let ghost prefix = out@;
        if i > 0 {
            push_char(out, ',');
        }
        append_json_string(out, cols[i].as_str());
        push_char(out, ':');
        append_cell_json(out, &row[i]);
        proof {
            if i > 0 {
                assert(out@ =~= prefix + seq![','] + items[i as int]);
            } else {
                assert(out@ =~= prefix + items[i as int]);
            }
            assert(items.take(i as int + 1).drop_last() =~= items.take(i as int));
            assert(items.take(i as int + 1).last() == items[i as int]);
            assert(out@ =~= old(out)@ + seq!['{'] + spec_join(items.take(i as int + 1)));
        }
        i = i + 1;
    }
    proof {
        assert(items.take(cols@.len() as int) =~= items);
    }
    push_char(out, '}');
    proof {
        assert(out@ =~= old(out)@ + spec_row_json(string_views(cols@), row@));
    }
}

/// The views of a list of rows.
pub open spec fn row_views(rows: Seq<Vec<Cell>>) -> Seq<Seq<Cell>> {
    rows.map_values(|r: Vec<Cell>| r@)
}

/// The whole result as one JSON text: the column names in engine order
/// under "columns", then the rows in engine order under "data".
pub open spec fn spec_result_json(cols: Seq<Seq<char>>, rows: Seq<Seq<Cell>>) -> Seq<char> {
    "{\"columns\":["@ + spec_join(cols.map_values(|n: Seq<char>| spec_json_string(n)))
        + "],\"data\":["@ + spec_join(rows.map_values(|r: Seq<Cell>| spec_row_json(cols, r)))
        + "]}"@
}

/// Serialize a result: the column-name list in its given order, then every
/// row in its given order, each cell rendered by the JSON value model.
pub fn render_result(cols: &Vec<String>, rows: &Vec<Vec<Cell>>) -> (r: String)
    requires
        forall|i: int| 0 <= i < rows@.len() ==> (#[trigger] rows@[i])@.len() == cols@.len(),
    ensures
        r@ == spec_result_json(string_views(cols@), row_views(rows@)),
{
    let ghost col_items = string_views(cols@).map_values(|n: Seq<char>| spec_json_string(n));
    let ghost row_items = row_views(rows@).map_values(
        |r: Seq<Cell>| spec_row_json(string_views(cols@), r),
    );
    let mut out = String::from_str("{\"columns\":[");
    let mut i: usize = 0;
    while i < cols.len()
        invariant
            i <= cols@.len(),
            col_items == string_views(cols@).map_values(|n: Seq<char>| spec_json_string(n)),
            out@ == "{\"columns\":["@ + spec_join(col_items.take(i as int)),
        decreases cols@.len() - i,
    {
        let ghost prefix = out@;
        if i > 0 {
            push_char(&mut out, ',');
        }
        append_json_string(&mut out, cols[i].as_str());
        proof {
            if i > 0 {
                assert(out@ =~= prefix + seq![','] + col_items[i as int]);
            } else {
                assert(out@ =~= prefix + col_items[i as int]);
            }
            assert(col_items.take(i as int + 1).drop_last() =~= col_items.take(i as int));
            assert(col_items.take(i as int + 1).last() == col_items[i as int]);
            assert(out@ =~= "{\"columns\":["@ + spec_join(col_items.take(i as int + 1)));
        }
        i = i + 1;
    }
    proof {
        assert(col_items.take(cols@.len() as int) =~= col_items);
    }
    out.append("],\"data\":[");
    let ghost mid = out@;
    let mut j: usize = 0;
    while j < rows.len()
        invariant
            j <= rows@.len(),
            forall|k: int| 0 <= k < rows@.len() ==> (#[trigger] rows@[k])@.len() == cols@.len(),
            row_items == row_views(rows@).map_values(
                |r: Seq<Cell>| spec_row_json(string_views(cols@), r),
            ),
            mid == "{\"columns\":["@ + spec_join(col_items) + "],\"data\":["@,
            out@ == mid + spec_join(row_items.take(j as int)),
        decreases rows@.len() - j,
    {
        let ghost prefix = out@;
        if j > 0 {
            push_char(&mut out, ',');
        }
        append_row_json(&mut out, cols, &rows[j]);
        proof {
            if j > 0 {
                assert(out@ =~= prefix + seq![','] + row_items[j as int]);
            } else {
                assert(out@ =~= prefix + row_items[j as int]);
            }
            assert(row_items.take(j as int + 1).drop_last() =~= row_items.take(j as int));
            assert(row_items.take(j as int + 1).last() == row_items[j as int]);
            assert(out@ =~= mid + spec_join(row_items.take(j as int + 1)));
        }
        j = j + 1;
    }
    proof {
        assert(row_items.take(rows@.len() as int) =~= row_items);
    }
    out.append("]}");
    proof {
        assert(out@ =~= spec_result_json(string_views(cols@), row_views(rows@)));
    }
    out
}

/// An absent value serializes to the JSON constant null — four plain
/// characters, not a quoted string — and its column key still appears in
/// the row member, never omitted.
pub proof fn lemma_null_cell_is_json_null(name: Seq<char>)
    ensures
        spec_cell_json(Cell::Null) == seq!['n', 'u', 'l', 'l'],
        spec_pair_json(name, Cell::Null) == spec_json_string(name) + seq![':'] + seq![
            'n',
            'u',
            'l',
            'l',
        ],
{
    reveal_strlit("null");
    assert(spec_cell_json(Cell::Null) =~= seq!['n', 'u', 'l', 'l']);
}

/// A binary cell serializes to the quoted sentinel text "NOT SUPPORT",
/// never to raw bytes.
pub proof fn lemma_blob_cell_is_sentinel()
    ensures
        spec_cell_json(Cell::Blob) == seq!['"'] + "NOT SUPPORT"@ + seq!['"'],
{
    reveal_strlit("\"NOT SUPPORT\"");
    reveal_strlit("NOT SUPPORT");
    assert(spec_cell_json(Cell::Blob) =~= seq!['"'] + "NOT SUPPORT"@ + seq!['"']);
}

} // verus!
