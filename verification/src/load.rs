//! Loading the datasets of a command-line run: from a JSON file of value arrays,
//! or from the lines that a command prints for each seed.
use vstd::prelude::*;

use crate::data_src::{DataSource, DatasetIter};
use crate::text::{decimal_text, split_lines, split_whitespace, lines, texts, u64_to_decimal, words};

verus! {

/// Why the datasets of a command-line run could not be loaded.
#[derive(Debug, Clone, PartialEq)]
pub enum LoadError {
    /// The file is not a JSON array of arrays; the text is `serde_json`'s reason.
    Json(String),
    /// The JSON file holds no dataset.
    EmptyJson,
    /// The command has no program name.
    EmptyCommand,
    /// The command printed nothing.
    EmptyOutput,
}

/// The text that describes a loading failure.
pub open spec fn load_error_text(e: LoadError) -> Seq<char> {
    match e {
        LoadError::Json(reason) => reason@,
        LoadError::EmptyJson => "JSON file is empty"@,
        LoadError::EmptyCommand => "Command cannot be empty"@,
        LoadError::EmptyOutput => "Command output is empty"@,
    }
}

impl LoadError {
    /// Describes the failure in words.
    pub fn message(&self) -> (text: String)
        ensures
            text@ == load_error_text(*self),
    {
        match self {
            LoadError::Json(reason) => reason.clone(),
            LoadError::EmptyJson => String::from_str("JSON file is empty"),
            LoadError::EmptyCommand => String::from_str("Command cannot be empty"),
            LoadError::EmptyOutput => String::from_str("Command output is empty"),
        }
    }
}

/// The texts of the values of a JSON document made of arrays of values, as
/// `serde_json` renders each value (strings quoted), or `None` if the bytes are not
/// such a document.
pub uninterp spec fn json_cell_texts(bytes: Seq<u8>) -> Option<Seq<Seq<Seq<char>>>>;

/// The texts of rows of strings.
pub open spec fn rows_texts(rows: Seq<Vec<String>>) -> Seq<Seq<Seq<char>>> {
    rows.map_values(|row: Vec<String>| texts(row@))
}

/// Calls `serde_json::from_slice` to read the bytes as `Vec<Vec<serde_json::Value>>`,
/// then renders each value with its `Display` impl (`Value::to_string`); on failure,
/// `serde_json`'s error as text. The result is claimed to be the named function of
/// the bytes, and to fail exactly when that function has no value.
#[verifier::external_body]
fn parse_json_cells(bytes: &[u8]) -> (r: Result<Vec<Vec<String>>, String>)
    ensures
        match r {
            Ok(rows) => json_cell_texts(bytes@) == Some(rows_texts(rows@)),
            Err(_) => json_cell_texts(bytes@) is None,
        },
{
    match serde_json::from_slice::<Vec<Vec<serde_json::Value>>>(bytes) {
        Ok(data) => Ok(
            data.into_iter().map(|row| row.into_iter().map(|v| v.to_string()).collect()).collect(),
        ),
        Err(e) => Err(e.to_string()),
    }
}

/// The datasets of a JSON file, given the texts of its values: every row is a
/// dataset, and the length of the first is the length of all; no row is an error.
pub fn json_datasets(rows: Vec<Vec<String>>) -> (r: Result<(usize, Vec<Vec<String>>), LoadError>)
    ensures
        rows@.len() == 0 ==> r == Err::<(usize, Vec<Vec<String>>), LoadError>(LoadError::EmptyJson),
        rows@.len() > 0 ==> (r matches Ok((len, out)) && len == rows@[0]@.len() && out@ == rows@),
{
    if rows.len() == 0 {
        return Err(LoadError::EmptyJson);
    }
    let len = rows[0].len();
    Ok((len, rows))
}

/// Loads the datasets of a JSON file's bytes: an array of datasets, each an array of
/// values, each value taken as its JSON text.
pub fn load_json(bytes: &[u8]) -> (r: Result<(usize, Vec<Vec<String>>), LoadError>)
    ensures
        json_cell_texts(bytes@) is None <==> r matches Err(LoadError::Json(_)),
        json_cell_texts(bytes@) == Some(Seq::<Seq<Seq<char>>>::empty())
            <==> r == Err::<(usize, Vec<Vec<String>>), LoadError>(LoadError::EmptyJson),
        json_cell_texts(bytes@) matches Some(rows) && rows.len() > 0 ==> r is Ok,
        r matches Ok((len, rows)) ==> {
            &&& json_cell_texts(bytes@) == Some(rows_texts(rows@))
            &&& rows@.len() > 0
            &&& len == rows@[0]@.len()
        },
{
    match parse_json_cells(bytes) {
        Err(reason) => Err(LoadError::Json(reason)),
        Ok(rows) => {
            proof {
                if rows@.len() > 0 {
                    assert(rows_texts(rows@).len() > 0);
                    assert(rows_texts(rows@) != Seq::<Seq<Seq<char>>>::empty());
                } else {
                    assert(rows_texts(rows@) =~= Seq::<Seq<Seq<char>>>::empty());
                }
            }
            json_datasets(rows)
        },
    }
}

/// A data source over the datasets of a JSON file's bytes, handed out in order.
pub fn json_data_source(bytes: &[u8]) -> (r: Result<DataSource<String>, LoadError>)
    ensures
        json_cell_texts(bytes@) is None <==> r matches Err(LoadError::Json(_)),
        json_cell_texts(bytes@) == Some(Seq::<Seq<Seq<char>>>::empty())
            <==> r == Err::<DataSource<String>, LoadError>(LoadError::EmptyJson),
        json_cell_texts(bytes@) matches Some(rows) && rows.len() > 0 ==> r is Ok,
        r matches Ok(src) ==> {
            &&& src is Iterable
            &&& json_cell_texts(bytes@) matches Some(rows)
            &&& rows.len() > 0
            &&& src.spec_len() == rows[0].len()
            &&& src->Iterable_iter.pending() matches Some(items)
            &&& rows_texts(items) == rows
        },
{
    match load_json(bytes) {
        Err(e) => Err(e),
        Ok((len, rows)) => {
            proof {
                assert(rows_texts(rows@)[0] == texts(rows@[0]@));
            }
            Ok(DataSource::from_datasets(len, rows))
        },
    }
}

/// The program and the arguments that run the data command `cmd` for `seed`: the
/// first word of `cmd` is the program; the seed, in decimal, is its first argument,
/// followed by the other words.
pub fn command_invocation(cmd: &str, seed: u64) -> (r: Result<(String, Vec<String>), LoadError>)
    ensures
        words(cmd@).len() == 0 <==> r == Err::<(String, Vec<String>), LoadError>(LoadError::EmptyCommand),
        words(cmd@).len() > 0 ==> r is Ok,
        r matches Ok((program, args)) ==> {
            &&& program@ == words(cmd@)[0]
            &&& texts(args@) == seq![decimal_text(seed as nat)] + words(cmd@).skip(1)
        },
{
    let parts = split_whitespace(cmd);
    if parts.len() == 0 {
        return Err(LoadError::EmptyCommand);
    }
    let program = parts[0].clone();
    let mut args: Vec<String> = Vec::new();
    args.push(u64_to_decimal(seed));
    let mut i: usize = 1;
    while i < parts.len()
        invariant
            1 <= i <= parts@.len(),
            texts(parts@) == words(cmd@),
            texts(args@) == seq![decimal_text(seed as nat)] + words(cmd@).subrange(1, i as int),
        decreases parts@.len() - i,
    {
        let ghost before = args@;
        args.push(parts[i].clone());
        assert(texts(args@) =~= texts(before).push(parts@[i as int]@));
        assert(words(cmd@).subrange(1, i + 1) =~= words(cmd@).subrange(1, i as int).push(
            words(cmd@)[i as int],
        ));
        i = i + 1;
    }
    assert(words(cmd@).subrange(1, i as int) =~= words(cmd@).skip(1));
    Ok((program, args))
}

/// The dataset that a data command printed: its lines; no line is an error.
pub fn command_output_data(stdout: &str) -> (r: Result<Vec<String>, LoadError>)
    ensures
        lines(stdout@).len() == 0 <==> r == Err::<Vec<String>, LoadError>(LoadError::EmptyOutput),
        lines(stdout@).len() > 0 ==> r is Ok,
        r matches Ok(data) ==> texts(data@) == lines(stdout@),
{
    let data = split_lines(stdout);
    if data.len() == 0 {
        return Err(LoadError::EmptyOutput);
    }
    Ok(data)
}

/// Writes the dataset `data`, which a data command printed, over `dst`, item by item.
pub fn fill_dataset(dst: &mut [String], data: Vec<String>)
    requires
        old(dst)@.len() == data@.len(),
    ensures
        final(dst)@ == data@,
{
    let mut data = data;
    let ghost all = data@;
    let mut i: usize = data.len();
    while i > 0
        invariant
            i == data@.len(),
            i <= all.len(),
            data@ == all.subrange(0, i as int),
            dst@.len() == all.len(),
            forall|j: int| i <= j < all.len() ==> dst@[j] == all[j],
        decreases i,
    {
        i = i - 1;
        match data.pop() {
            Some(item) => {
                dst[i] = item;
            },
            None => {},
        }
    }
    assert(dst@ =~= all);
}

/// The words of a test command, or `None` when it has none.
pub fn test_command_parts(cmd: &str) -> (r: Option<Vec<String>>)
    ensures
        r is None <==> words(cmd@).len() == 0,
        r matches Some(parts) ==> texts(parts@) == words(cmd@),
{
    let parts = split_whitespace(cmd);
    if parts.len() == 0 {
        None
    } else {
        Some(parts)
    }
}


/// The lower-case hexadecimal digit of `d`, below 16.
pub open spec fn lower_hex_digit(d: nat) -> char {
    if d < 10 {
        (('0' as u32) + d) as char
    } else {
        (('a' as u32) + (d - 10)) as char
    }
}

/// How a character stands inside a JSON string: a quote, a backslash and the
/// control characters below U+0020 are escaped (the usual short escapes where JSON
/// has one, `\u00XX` otherwise); every other character stands for itself.
pub open spec fn json_char_text(c: char) -> Seq<char> {
    if c == '"' {
        seq!['\\', '"']
    } else if c == '\\' {
        seq!['\\', '\\']
    } else if c == '\u{8}' {
        seq!['\\', 'b']
    } else if c == '\t' {
        seq!['\\', 't']
    } else if c == '\n' {
        seq!['\\', 'n']
    } else if c == '\u{c}' {
        seq!['\\', 'f']
    } else if c == '\r' {
        seq!['\\', 'r']
    } else if (c as u32) < 0x20 {
        seq![
            '\\',
            'u',
            '0',
            '0',
            lower_hex_digit((c as u32 / 16) as nat),
            lower_hex_digit((c as u32 % 16) as nat),
        ]
    } else {
        seq![c]
    }
}

/// The characters of `s`, each as it stands inside a JSON string.
pub open spec fn json_escaped(s: Seq<char>) -> Seq<char>
    decreases s.len(),
{
    if s.len() == 0 {
        Seq::empty()
    } else {
        json_escaped(s.drop_last()) + json_char_text(s.last())
    }
}

/// The JSON text of a string: quoted, its characters escaped.
pub open spec fn json_string_text(s: Seq<char>) -> Seq<char> {
    seq!['"'] + json_escaped(s) + seq!['"']
}

/// The JSON texts of `items`, separated by commas.
pub open spec fn json_string_list(items: Seq<Seq<char>>) -> Seq<char>
    decreases items.len(),
{
    if items.len() == 0 {
        Seq::empty()
    } else if items.len() == 1 {
        json_string_text(items[0])
    } else {
        json_string_list(items.drop_last()) + seq![','] + json_string_text(items.last())
    }
}

/// The compact JSON text of an array of strings: `[`, the strings' JSON texts
/// separated by commas, and `]`, with no blanks.
pub open spec fn json_string_array(items: Seq<Seq<char>>) -> Seq<char> {
    seq!['['] + json_string_list(items) + seq![']']
}

/// Calls `serde_json::to_string` on a slice of strings. Its documentation says that
/// serialisation fails only for a `Serialize` impl that fails or a map with
/// non-string keys, neither of which a slice of strings has. The text is claimed to
/// be the compact array that its serializer writes: each string quoted, with the
/// escapes of its escape table.
#[verifier::external_body]
fn strings_to_json(items: &[String]) -> (r: Result<String, String>)
    ensures
        r is Ok,
        r is Ok ==> r->Ok_0@ == json_string_array(texts(items@)),
{
    serde_json::to_string(items).map_err(|e| e.to_string())
}

/// The JSON text of a dataset of strings, as handed to a test command: an array of
/// the strings.
pub fn encode_dataset(data: &[String]) -> (json: String)
    ensures
        json@ == json_string_array(texts(data@)),
{
    match strings_to_json(data) {
        Ok(text) => text,
        Err(reason) => reason,
    }
}

} // verus!
