//! The TOML subset of the UI configuration file: `[a.b]` table headers,
//! `key = value` lines, `#` comments outside strings, and values that are
//! booleans, quoted strings with backslash escapes, numbers, or
//! one-line arrays of values. Tables keep their keys in ascending order.

use vstd::prelude::*;

use crate::text::{
    lemma_trim_len, str_eq, chars_of, decimal, owned, push_str, slice_chars, string_from_chars, trim,
    trim_chars, u64_to_string,
};

verus! {

/// Abstract TOML value; a number is held as its text.
pub enum TomlModel {
    Str(Seq<char>),
    Bool(bool),
    Num(Seq<char>),
    Arr(Seq<TomlModel>),
    Table(Seq<(Seq<char>, TomlModel)>),
}

/// A parsed TOML value. A number is held as its validated text; a table is
/// a list of entries in ascending key order.
#[derive(Debug)]
pub enum TomlValue {
    String(String),
    Bool(bool),
    /// The text of a number that `str::parse::<f64>` accepts.
    Number(String),
    Array(Vec<TomlValue>),
    Table(Vec<(String, TomlValue)>),
}

/// The abstract value of a parsed value.
pub open spec fn value_view(v: TomlValue) -> TomlModel
    decreases v,
{
    match v {
        TomlValue::String(s) => TomlModel::Str(s@),
        TomlValue::Bool(b) => TomlModel::Bool(b),
        TomlValue::Number(s) => TomlModel::Num(s@),
        TomlValue::Array(items) => TomlModel::Arr(
            Seq::new(
                items@.len(),
                |i: int|
                    if 0 <= i < items@.len() {
                        proof {
                            assert(decreases_to!(items => items@));
                            assert(decreases_to!(items@ => items@[i]));
                        }
                        value_view(items@[i])
                    } else {
                        TomlModel::Bool(false)
                    },
            ),
        ),
        TomlValue::Table(entries) => TomlModel::Table(
            Seq::new(
                entries@.len(),
                |i: int|
                    if 0 <= i < entries@.len() {
                        proof {
                            assert(decreases_to!(entries => entries@));
                            assert(decreases_to!(entries@ => entries@[i]));
                            assert(decreases_to!(entries@[i] => entries@[i].1));
                        }
                        (entries@[i].0@, value_view(entries@[i].1))
                    } else {
                        (Seq::empty(), TomlModel::Bool(false))
                    },
            ),
        ),
    }
}

/// An abstract table: entries in key order.
pub type TableModel = Seq<(Seq<char>, TomlModel)>;

/// The abstract entries of a parsed table.
pub open spec fn table_view(t: Seq<(String, TomlValue)>) -> TableModel {
    Seq::new(t.len(), |i: int| (t[i].0@, value_view(t[i].1)))
}

/// The abstract items of parsed values.
pub open spec fn values_view(items: Seq<TomlValue>) -> Seq<TomlModel> {
    Seq::new(items.len(), |i: int| value_view(items[i]))
}

// ---------------------------------------------------------------------------
// Specification of the grammar.
// ---------------------------------------------------------------------------

/// `s` cut at `sep`: every piece between separators, the last one included.
pub open spec fn split_on(s: Seq<char>, sep: char) -> Seq<Seq<char>>
    decreases s.len(),
{
    if s.len() == 0 {
        seq![Seq::empty()]
    } else {
        let p = split_on(s.drop_last(), sep);
        if s.last() == sep {
            p.push(Seq::empty())
        } else {
            p.update(p.len() - 1, p.last().push(s.last()))
        }
    }
}

/// Where a comment starts in `s` at or after `i` (the length when none), given
/// whether `i` is inside a string and just after a backslash.
pub open spec fn comment_cut_from(s: Seq<char>, i: int, in_string: bool, escaped: bool) -> int
    decreases s.len() - i,
{
    if i < 0 || i >= s.len() {
        s.len() as int
    } else if escaped {
        comment_cut_from(s, i + 1, in_string, false)
    } else if s[i] == '\\' && in_string {
        comment_cut_from(s, i + 1, in_string, true)
    } else if s[i] == '"' {
        comment_cut_from(s, i + 1, !in_string, false)
    } else if s[i] == '#' && !in_string {
        i
    } else {
        comment_cut_from(s, i + 1, in_string, false)
    }
}

/// `line` without its comment: everything from the first `#` outside a string.
pub open spec fn spec_strip_comment(line: Seq<char>) -> Seq<char> {
    line.subrange(0, comment_cut_from(line, 0, false, false))
}

/// The character an escape `\\c` stands for.
pub open spec fn escaped_char(c: char) -> char {
    if c == 'n' {
        '\n'
    } else if c == 't' {
        '\t'
    } else {
        c
    }
}

/// The unescaped characters of `s` and whether it ends inside an escape.
pub open spec fn unescape(s: Seq<char>) -> (Seq<char>, bool)
    decreases s.len(),
{
    if s.len() == 0 {
        (Seq::empty(), false)
    } else {
        let (acc, esc) = unescape(s.drop_last());
        let c = s.last();
        if esc {
            (acc.push(escaped_char(c)), false)
        } else if c == '\\' {
            (acc, true)
        } else {
            (acc.push(c), false)
        }
    }
}

/// A quoted string: its unescaped contents, or why it is malformed.
pub open spec fn spec_parse_string(raw: Seq<char>) -> Result<Seq<char>, Seq<char>> {
    if raw.len() < 2 || raw[0] != '"' || raw.last() != '"' {
        Err("unterminated string"@)
    } else {
        let (acc, esc) = unescape(raw.subrange(1, raw.len() - 1));
        if esc {
            Err("unterminated escape"@)
        } else {
            Ok(acc)
        }
    }
}

/// State of splitting array contents at commas outside strings.
pub struct SplitState {
    pub pieces: Seq<Seq<char>>,
    pub current: Seq<char>,
    pub in_string: bool,
    pub escaped: bool,
}

/// The split state after the characters of `s`.
pub open spec fn split_items(s: Seq<char>) -> SplitState
    decreases s.len(),
{
    if s.len() == 0 {
        SplitState { pieces: Seq::empty(), current: Seq::empty(), in_string: false, escaped: false }
    } else {
        let st = split_items(s.drop_last());
        let c = s.last();
        if st.escaped {
            SplitState { current: st.current.push(c), escaped: false, ..st }
        } else if c == '\\' && st.in_string {
            SplitState { current: st.current.push(c), escaped: true, ..st }
        } else if c == '"' {
            SplitState { current: st.current.push(c), in_string: !st.in_string, ..st }
        } else if c == ',' && !st.in_string {
            SplitState { pieces: st.pieces.push(st.current), current: Seq::empty(), ..st }
        } else {
            SplitState { current: st.current.push(c), ..st }
        }
    }
}

/// The values of comma-terminated array pieces, or the first error.
pub open spec fn parse_items(pieces: Seq<Seq<char>>, limit: nat) -> Result<Seq<TomlModel>, Seq<char>>
    decreases limit, pieces.len() + 1,
{
    if pieces.len() == 0 {
        Ok(Seq::empty())
    } else {
        match parse_items(pieces.drop_last(), limit) {
            Err(e) => Err(e),
            Ok(items) => {
                let p = trim(pieces.last());
                if p.len() >= limit {
                    Err(Seq::empty())
                } else {
                    match spec_parse_value(p) {
                        Err(e) => Err(e),
                        Ok(v) => Ok(items.push(v)),
                    }
                }
            },
        }
    }
}

/// A one-line array: its values, or the first error.
pub open spec fn spec_parse_array(raw: Seq<char>) -> Result<TomlModel, Seq<char>>
    decreases raw.len() + 1, 0nat,
{
    if raw.len() < 2 || raw[0] != '[' || raw.last() != ']' {
        Err("unterminated array"@)
    } else {
        let inner = trim(raw.subrange(1, raw.len() - 1));
        if inner.len() == 0 {
            Ok(TomlModel::Arr(Seq::empty()))
        } else if inner.len() + 1 >= raw.len() + 1 {
            Err(Seq::empty())
        } else {
            let st = split_items(inner);
            match parse_items(st.pieces, (inner.len() + 1) as nat) {
                Err(e) => Err(e),
                Ok(items) => if st.in_string {
                    Err("unterminated string in array"@)
                } else {
                    let last = trim(st.current);
                    if last.len() == 0 {
                        Ok(TomlModel::Arr(items))
                    } else if last.len() >= raw.len() {
                        Err(Seq::empty())
                    } else {
                        match spec_parse_value(last) {
                            Err(e) => Err(e),
                            Ok(v) => Ok(TomlModel::Arr(items.push(v))),
                        }
                    }
                },
            }
        }
    }
}

/// A value: `true`/`false`, a quoted string, an array, or a number.
pub open spec fn spec_parse_value(raw: Seq<char>) -> Result<TomlModel, Seq<char>>
    decreases raw.len() + 1, 1nat,
{
    if raw == "true"@ {
        Ok(TomlModel::Bool(true))
    } else if raw == "false"@ {
        Ok(TomlModel::Bool(false))
    } else if raw.len() > 0 && raw[0] == '"' {
        match spec_parse_string(raw) {
            Ok(s) => Ok(TomlModel::Str(s)),
            Err(e) => Err(e),
        }
    } else if raw.len() > 0 && raw[0] == '[' {
        spec_parse_array(raw)
    } else if is_float_literal(raw) {
        Ok(TomlModel::Num(raw))
    } else {
        Err("unsupported value '"@ + raw + "'"@)
    }
}

// ---------------------------------------------------------------------------
// Number literals: the grammar `str::parse::<f64>` accepts.
// ---------------------------------------------------------------------------

/// `c` is an ASCII digit.
pub open spec fn is_digit(c: char) -> bool {
    '0' <= c && c <= '9'
}

/// `c` is `w`, or its ASCII upper-case form.
pub open spec fn same_letter(c: char, w: char) -> bool {
    c == w || ('A' <= c && c <= 'Z' && (c as u32) + 32 == (w as u32))
}

/// `s` equals the lower-case word `w` ignoring ASCII case.
pub open spec fn equals_ignoring_case(s: Seq<char>, w: Seq<char>) -> bool {
    s.len() == w.len() && forall|i: int| 0 <= i < s.len() ==> same_letter(#[trigger] s[i], w[i])
}

/// Digits with at most one decimal point and at least one digit.
pub open spec fn is_mantissa(m: Seq<char>) -> bool {
    &&& forall|i: int| 0 <= i < m.len() ==> is_digit(#[trigger] m[i]) || m[i] == '.'
    &&& forall|i: int, j: int|
        #![trigger m[i], m[j]]
        0 <= i < j < m.len() && m[i] == '.' ==> m[j] != '.'
    &&& exists|i: int| 0 <= i < m.len() && is_digit(#[trigger] m[i])
}

/// `x` without a leading sign.
pub open spec fn unsigned_part(x: Seq<char>) -> Seq<char> {
    if x.len() > 0 && (x[0] == '+' || x[0] == '-') {
        x.drop_first()
    } else {
        x
    }
}

/// An optional sign followed by at least one digit.
pub open spec fn is_exponent(x: Seq<char>) -> bool {
    unsigned_part(x).len() > 0 && forall|i: int|
        0 <= i < unsigned_part(x).len() ==> is_digit(#[trigger] unsigned_part(x)[i])
}

/// Index of the first `e` or `E` in `s` at or after `from`, or the length.
pub open spec fn exponent_mark_from(s: Seq<char>, from: int) -> int
    decreases s.len() - from,
{
    if from < 0 || from >= s.len() {
        s.len() as int
    } else if s[from] == 'e' || s[from] == 'E' {
        from
    } else {
        exponent_mark_from(s, from + 1)
    }
}

/// A decimal number: a mantissa, then optionally `e`/`E` and an exponent.
pub open spec fn is_decimal_number(b: Seq<char>) -> bool {
    let k = exponent_mark_from(b, 0);
    is_mantissa(b.subrange(0, k)) && (k == b.len() || is_exponent(b.subrange(k + 1, b.len() as int)))
}

/// The text `str::parse::<f64>` accepts: an optional sign, then `inf`,
/// `infinity` or `nan` in any case, or a decimal number.
pub open spec fn is_float_literal(s: Seq<char>) -> bool {
    let b = unsigned_part(s);
    equals_ignoring_case(b, "inf"@) || equals_ignoring_case(b, "infinity"@) || equals_ignoring_case(
        b,
        "nan"@,
    ) || is_decimal_number(b)
}

// ---------------------------------------------------------------------------
// Tables and documents.
// ---------------------------------------------------------------------------

/// `a` sorts before `b`: character by character, then the shorter first.
pub open spec fn key_lt(a: Seq<char>, b: Seq<char>) -> bool
    decreases a.len(),
{
    if a.len() == 0 {
        b.len() > 0
    } else if b.len() == 0 {
        false
    } else if a[0] != b[0] {
        a[0] < b[0]
    } else {
        key_lt(a.drop_first(), b.drop_first())
    }
}

/// `t` with `k` bound to `v`: an existing entry for `k` is replaced in place,
/// otherwise the entry goes before the first greater key.
pub open spec fn table_insert(t: TableModel, k: Seq<char>, v: TomlModel) -> TableModel
    decreases t.len(),
{
    if t.len() == 0 {
        seq![(k, v)]
    } else if t[0].0 == k {
        t.update(0, (k, v))
    } else if key_lt(k, t[0].0) {
        seq![(k, v)] + t
    } else {
        seq![t[0]] + table_insert(t.drop_first(), k, v)
    }
}

/// The value bound to `k` in `t`, if any.
pub open spec fn table_get(t: TableModel, k: Seq<char>) -> Option<TomlModel>
    decreases t.len(),
{
    if t.len() == 0 {
        None
    } else if t[0].0 == k {
        Some(t[0].1)
    } else {
        table_get(t.drop_first(), k)
    }
}

/// `t` with `v` stored under the dotted `path`; missing or non-table
/// intermediate entries become tables.
pub open spec fn set_path(t: TableModel, path: Seq<Seq<char>>, v: TomlModel) -> TableModel
    decreases path.len(),
{
    if path.len() == 0 {
        t
    } else if path.len() == 1 {
        table_insert(t, path[0], v)
    } else {
        let child = match table_get(t, path[0]) {
            Some(TomlModel::Table(c)) => c,
            _ => Seq::empty(),
        };
        table_insert(t, path[0], TomlModel::Table(set_path(child, path.drop_first(), v)))
    }
}

/// Index of the first `c` in `s` at or after `from`, or -1.
pub open spec fn index_of_from(s: Seq<char>, c: char, from: int) -> int
    decreases s.len() - from,
{
    if from < 0 || from >= s.len() {
        -1
    } else if s[from] == c {
        from
    } else {
        index_of_from(s, c, from + 1)
    }
}

/// An error message located at line `n`.
pub open spec fn line_message(n: nat, m: Seq<char>) -> Seq<char> {
    "line "@ + decimal(n) + ": "@ + m
}

/// The document so far and the current table path.
pub struct ParseState {
    pub root: TableModel,
    pub path: Seq<Seq<char>>,
}

/// What line `n` does: a blank or comment line nothing, a `[name]` header
/// sets the current table path, and `key = value` stores the value under
/// the current path.
pub open spec fn parse_line(st: ParseState, raw_line: Seq<char>, n: nat) -> Result<ParseState, Seq<char>> {
    let s = trim(spec_strip_comment(raw_line));
    if s.len() == 0 {
        Ok(st)
    } else if s[0] == '[' {
        if s.last() != ']' || s.len() < 2 {
            Err(line_message(n, "invalid table header"@))
        } else {
            let name = trim(s.subrange(1, s.len() - 1));
            if name.len() == 0 {
                Err(line_message(n, "empty table name"@))
            } else {
                Ok(ParseState { path: split_on(name, '.'), ..st })
            }
        }
    } else {
        let eq = index_of_from(s, '=', 0);
        if eq < 0 {
            Err(line_message(n, "expected key = value"@))
        } else {
            let key = trim(s.subrange(0, eq));
            let raw_value = trim(s.subrange(eq + 1, s.len() as int));
            if key.len() == 0 {
                Err(line_message(n, "empty key"@))
            } else {
                match spec_parse_value(raw_value) {
                    Err(e) => Err(line_message(n, e)),
                    Ok(v) => Ok(ParseState { root: set_path(st.root, st.path.push(key), v), ..st }),
                }
            }
        }
    }
}

/// The state after the lines of `lines`, or the first error.
pub open spec fn parse_lines(lines: Seq<Seq<char>>) -> Result<ParseState, Seq<char>>
    decreases lines.len(),
{
    if lines.len() == 0 {
        Ok(ParseState { root: Seq::empty(), path: Seq::empty() })
    } else {
        match parse_lines(lines.drop_last()) {
            Err(e) => Err(e),
            Ok(st) => parse_line(st, lines.last(), lines.len()),
        }
    }
}

/// The document `text` describes, or the first error with its line.
pub open spec fn spec_parse_toml(text: Seq<char>) -> Result<TableModel, Seq<char>> {
    match parse_lines(split_on(text, '\n')) {
        Ok(st) => Ok(st.root),
        Err(e) => Err(e),
    }
}

// ---------------------------------------------------------------------------
// Parser.
// ---------------------------------------------------------------------------

/// Why a document was rejected, with its line.
#[derive(Clone, Debug, PartialEq, Eq)]
pub struct TomlError(pub String);

/// The characters of a vector of character vectors.
pub open spec fn pieces_view(v: Seq<Vec<char>>) -> Seq<Seq<char>> {
    v.map_values(|p: Vec<char>| p@)
}

fn chars_from(s: &str) -> (r: Vec<char>)
    ensures
        r@ == s@,
{
    chars_of(s)
}

fn split_on_exec(s: &Vec<char>, sep: char) -> (r: Vec<Vec<char>>)
    ensures
        pieces_view(r@) == split_on(s@, sep),
{
    let mut done: Vec<Vec<char>> = Vec::new();
    let mut current: Vec<char> = Vec::new();
    let mut i: usize = 0;
    while i < s.len()
        invariant
            0 <= i <= s@.len(),
            pieces_view(done@).push(current@) == split_on(s@.subrange(0, i as int), sep),
        decreases s@.len() - i,
    {
        let ghost prev = pieces_view(done@).push(current@);
        assert(s@.subrange(0, i + 1).drop_last() =~= s@.subrange(0, i as int));
        if s[i] == sep {
            let piece = current;
            current = Vec::new();
            done.push(piece);
            assert(pieces_view(done@).push(current@) =~= prev.push(Seq::empty()));
        } else {
            current.push(s[i]);
            assert(pieces_view(done@).push(current@) =~= prev.update(
                prev.len() - 1,
                prev.last().push(s@[i as int]),
            ));
        }
        i = i + 1;
    }
    assert(s@.subrange(0, s@.len() as int) =~= s@);
    done.push(current);
    done
}

fn strip_comment(line: &Vec<char>) -> (r: Vec<char>)
    ensures
        r@ == spec_strip_comment(line@),
{
    let mut in_string = false;
    let mut escaped = false;
    let mut i: usize = 0;
    while i < line.len()
        invariant
            0 <= i <= line@.len(),
            comment_cut_from(line@, 0, false, false) == comment_cut_from(
                line@,
                i as int,
                in_string,
                escaped,
            ),
        decreases line@.len() - i,
    {
        let c = line[i];
        if escaped {
            escaped = false;
        } else if c == '\\' && in_string {
            escaped = true;
        } else if c == '"' {
            in_string = !in_string;
        } else if c == '#' && !in_string {
            return slice_chars(line.as_slice(), 0, i);
        }
        i = i + 1;
    }
    slice_chars(line.as_slice(), 0, line.len())
}

fn parse_string(raw: &Vec<char>) -> (r: Result<Vec<char>, Vec<char>>)
    ensures
        match spec_parse_string(raw@) {
            Ok(v) => r matches Ok(x) && x@ == v,
            Err(e) => r matches Err(x) && x@ == e,
        },
{
    let n = raw.len();
    if n < 2 || raw[0] != '"' || raw[n - 1] != '"' {
        return Err(chars_from("unterminated string"));
    }
    let inner = slice_chars(raw.as_slice(), 1, n - 1);
    let mut result: Vec<char> = Vec::new();
    let mut escaped = false;
    let mut i: usize = 0;
    while i < inner.len()
        invariant
            0 <= i <= inner@.len(),
            (result@, escaped) == unescape(inner@.subrange(0, i as int)),
        decreases inner@.len() - i,
    {
        assert(inner@.subrange(0, i + 1).drop_last() =~= inner@.subrange(0, i as int));
        let c = inner[i];
        if escaped {
            let e = if c == 'n' {
                '\n'
            } else if c == 't' {
                '\t'
            } else {
                c
            };
            result.push(e);
            escaped = false;
        } else if c == '\\' {
            escaped = true;
        } else {
            result.push(c);
        }
        i = i + 1;
    }
    assert(inner@.subrange(0, inner@.len() as int) =~= inner@);
    if escaped {
        return Err(chars_from("unterminated escape"));
    }
    Ok(result)
}

fn equals_ignoring_case_exec(s: &Vec<char>, w: &str) -> (r: bool)
    ensures
        r == equals_ignoring_case(s@, w@),
{
    let wc = chars_from(w);
    if s.len() != wc.len() {
        return false;
    }
    let mut i: usize = 0;
    while i < s.len()
        invariant
            s@.len() == wc@.len(),
            wc@ == w@,
            0 <= i <= s@.len(),
            forall|j: int| 0 <= j < i ==> same_letter(#[trigger] s@[j], wc@[j]),
        decreases s@.len() - i,
    {
        let c = s[i];
        let d = wc[i];
        if !(c == d || ('A' <= c && c <= 'Z' && (c as u32) + 32 == (d as u32))) {
            return false;
        }
        i = i + 1;
    }
    true
}

fn is_mantissa_exec(m: &Vec<char>) -> (r: bool)
    ensures
        r == is_mantissa(m@),
{
    let mut digits = false;
    let mut dot: Option<usize> = None;
    let mut i: usize = 0;
    while i < m.len()
        invariant
            0 <= i <= m@.len(),
            forall|j: int| 0 <= j < i ==> is_digit(#[trigger] m@[j]) || m@[j] == '.',
            forall|a: int, b: int|
                #![trigger m@[a], m@[b]]
                0 <= a < b < i && m@[a] == '.' ==> m@[b] != '.',
            match dot {
                Some(d) => d < i && m@[d as int] == '.',
                None => forall|j: int| 0 <= j < i ==> #[trigger] m@[j] != '.',
            },
            digits == exists|j: int| 0 <= j < i && is_digit(#[trigger] m@[j]),
        decreases m@.len() - i,
    {
        let c = m[i];
        if '0' <= c && c <= '9' {
            digits = true;
        } else if c == '.' {
            match dot {
                Some(d) => {
                    assert(m@[d as int] == '.' && m@[i as int] == '.');
                    return false;
                },
                None => {
                    dot = Some(i);
                },
            }
        } else {
            assert(!(is_digit(m@[i as int]) || m@[i as int] == '.'));
            return false;
        }
        i = i + 1;
    }
    digits
}

fn is_exponent_exec(x: &Vec<char>) -> (r: bool)
    ensures
        r == is_exponent(x@),
{
    let start: usize = if x.len() > 0 && (x[0] == '+' || x[0] == '-') {
        1
    } else {
        0
    };
    let d = slice_chars(x.as_slice(), start, x.len());
    assert(start == 1 ==> d@ =~= x@.drop_first());
    assert(start == 0 ==> d@ =~= x@);
    if d.len() == 0 {
        return false;
    }
    let mut i: usize = 0;
    while i < d.len()
        invariant
            0 <= i <= d@.len(),
            d@ == unsigned_part(x@),
            forall|j: int| 0 <= j < i ==> is_digit(#[trigger] d@[j]),
        decreases d@.len() - i,
    {
        if !('0' <= d[i] && d[i] <= '9') {
            assert(!is_digit(d@[i as int]));
            return false;
        }
        i = i + 1;
    }
    true
}

fn is_float_literal_exec(s: &Vec<char>) -> (r: bool)
    ensures
        r == is_float_literal(s@),
{
    let start: usize = if s.len() > 0 && (s[0] == '+' || s[0] == '-') {
        1
    } else {
        0
    };
    let b = slice_chars(s.as_slice(), start, s.len());
    assert(start == 1 ==> b@ =~= s@.drop_first());
    assert(start == 0 ==> b@ =~= s@);
    if equals_ignoring_case_exec(&b, "inf") || equals_ignoring_case_exec(&b, "infinity")
        || equals_ignoring_case_exec(&b, "nan") {
        return true;
    }
    let mut k: usize = 0;
    while k < b.len() && b[k] != 'e' && b[k] != 'E'
        invariant
            0 <= k <= b@.len(),
            exponent_mark_from(b@, 0) == exponent_mark_from(b@, k as int),
        decreases b@.len() - k,
    {
        k = k + 1;
    }
    let mantissa = slice_chars(b.as_slice(), 0, k);
    if !is_mantissa_exec(&mantissa) {
        return false;
    }
    if k == b.len() {
        return true;
    }
    let exponent = slice_chars(b.as_slice(), k + 1, b.len());
    is_exponent_exec(&exponent)
}

proof fn lemma_split_lengths(s: Seq<char>)
    ensures
        split_items(s).current.len() <= s.len(),
        forall|k: int|
            0 <= k < split_items(s).pieces.len() ==> (#[trigger] split_items(s).pieces[k]).len()
                <= s.len(),
    decreases s.len(),
{
    if s.len() > 0 {
        lemma_split_lengths(s.drop_last());
    }
}

proof fn lemma_array_view(items: Vec<TomlValue>)
    ensures
        value_view(TomlValue::Array(items)) == TomlModel::Arr(values_view(items@)),
{
    let v = TomlValue::Array(items);
    match value_view(v) {
        TomlModel::Arr(a) => {
            assert(a =~= values_view(items@));
        },
        _ => {},
    }
}

fn split_items_exec(s: &Vec<char>) -> (r: (Vec<Vec<char>>, Vec<char>, bool))
    ensures
        pieces_view(r.0@) == split_items(s@).pieces,
        r.1@ == split_items(s@).current,
        r.2 == split_items(s@).in_string,
{
    let mut pieces: Vec<Vec<char>> = Vec::new();
    let mut current: Vec<char> = Vec::new();
    let mut in_string = false;
    let mut escaped = false;
    let mut i: usize = 0;
    assert(s@.subrange(0, 0) =~= Seq::<char>::empty());
    assert(pieces_view(pieces@) =~= Seq::<Seq<char>>::empty());
    while i < s.len()
        invariant
            0 <= i <= s@.len(),
            split_items(s@.subrange(0, i as int)) == (SplitState {
                pieces: pieces_view(pieces@),
                current: current@,
                in_string,
                escaped,
            }),
        decreases s@.len() - i,
    {
        assert(s@.subrange(0, i + 1).drop_last() =~= s@.subrange(0, i as int));
        let c = s[i];
        if escaped {
            current.push(c);
            escaped = false;
        } else if c == '\\' && in_string {
            current.push(c);
            escaped = true;
        } else if c == '"' {
            current.push(c);
            in_string = !in_string;
        } else if c == ',' && !in_string {
            let ghost before = pieces_view(pieces@);
            let piece = current;
            current = Vec::new();
            pieces.push(piece);
            assert(pieces_view(pieces@) =~= before.push(piece@));
        } else {
            current.push(c);
        }
        i = i + 1;
    }
    assert(s@.subrange(0, s@.len() as int) =~= s@);
    (pieces, current, in_string)
}

fn chars_equal_str(s: &Vec<char>, w: &str) -> (r: bool)
    ensures
        r == (s@ == w@),
{
    let wc = chars_from(w);
    if s.len() != wc.len() {
        return false;
    }
    let mut i: usize = 0;
    while i < s.len()
        invariant
            s@.len() == wc@.len(),
            wc@ == w@,
            0 <= i <= s@.len(),
            forall|j: int| 0 <= j < i ==> s@[j] == wc@[j],
        decreases s@.len() - i,
    {
        if s[i] != wc[i] {
            return false;
        }
        i = i + 1;
    }
    assert(s@ =~= wc@);
    true
}

fn concat_chars(a: &str, b: &Vec<char>, c: &str) -> (r: Vec<char>)
    ensures
        r@ == a@ + b@ + c@,
{
    let mut out = chars_from(a);
    let mut i: usize = 0;
    let ghost start = out@;
    while i < b.len()
        invariant
            0 <= i <= b@.len(),
            start == a@,
            out@ == start + b@.subrange(0, i as int),
        decreases b@.len() - i,
    {
        out.push(b[i]);
        assert(b@.subrange(0, i + 1) =~= b@.subrange(0, i as int).push(b@[i as int]));
        i = i + 1;
    }
    assert(b@.subrange(0, b@.len() as int) =~= b@);
    let tail = chars_from(c);
    let ghost mid = out@;
    let mut j: usize = 0;
    while j < tail.len()
        invariant
            0 <= j <= tail@.len(),
            mid == a@ + b@,
            out@ == mid + tail@.subrange(0, j as int),
        decreases tail@.len() - j,
    {
        out.push(tail[j]);
        assert(tail@.subrange(0, j + 1) =~= tail@.subrange(0, j as int).push(tail@[j as int]));
        j = j + 1;
    }
    assert(tail@.subrange(0, tail@.len() as int) =~= tail@);
    out
}

/// The outcome of parsing, read against the grammar.
pub open spec fn parsed_as(r: Result<TomlValue, Vec<char>>, s: Result<TomlModel, Seq<char>>) -> bool {
    match s {
        Ok(v) => r matches Ok(x) && value_view(x) == v,
        Err(e) => r matches Err(x) && x@ == e,
    }
}

fn parse_items_prefix(pieces: &Vec<Vec<char>>, n: usize, limit: usize) -> (r: Result<
    Vec<TomlValue>,
    Vec<char>,
>)
    requires
        n <= pieces@.len(),
        forall|k: int| 0 <= k < pieces@.len() ==> (#[trigger] pieces@[k])@.len() < limit,
    ensures
        match parse_items(pieces_view(pieces@).subrange(0, n as int), limit as nat) {
            Ok(vs) => r matches Ok(x) && values_view(x@) == vs,
            Err(e) => r matches Err(x) && x@ == e,
        },
    decreases limit, n + 1,
{
    let ghost all = pieces_view(pieces@);
    if n == 0 {
        assert(all.subrange(0, 0) =~= Seq::<Seq<char>>::empty());
        let v: Vec<TomlValue> = Vec::new();
        assert(values_view(v@) =~= Seq::<TomlModel>::empty());
        return Ok(v);
    }
    assert(all.subrange(0, n as int).drop_last() =~= all.subrange(0, n - 1));
    assert(all.subrange(0, n as int).last() == pieces@[n - 1]@);
    match parse_items_prefix(pieces, n - 1, limit) {
        Err(e) => Err(e),
        Ok(items) => {
            let p = trim_chars(pieces[n - 1].as_slice());
            proof {
                lemma_trim_len(pieces@[n - 1]@);
            }
            match parse_value(&p) {
                Err(e) => Err(e),
                Ok(v) => {
                    let mut items = items;
                    let ghost before = values_view(items@);
                    let ghost vv = value_view(v);
                    items.push(v);
                    assert(values_view(items@) =~= before.push(vv));
                    Ok(items)
                },
            }
        },
    }
}

fn parse_array(raw: &Vec<char>) -> (r: Result<TomlValue, Vec<char>>)
    ensures
        parsed_as(r, spec_parse_array(raw@)),
    decreases raw@.len() + 1, 0nat,
{
    let n = raw.len();
    if n < 2 || raw[0] != '[' || raw[n - 1] != ']' {
        return Err(chars_from("unterminated array"));
    }
    let body = slice_chars(raw.as_slice(), 1, n - 1);
    let inner = trim_chars(body.as_slice());
    proof {
        lemma_trim_len(body@);
    }
    if inner.len() == 0 {
        let empty: Vec<TomlValue> = Vec::new();
        proof {
            lemma_array_view(empty);
            assert(values_view(empty@) =~= Seq::<TomlModel>::empty());
        }
        return Ok(TomlValue::Array(empty));
    }
    let (pieces, current, in_string) = split_items_exec(&inner);
    proof {
        lemma_split_lengths(inner@);
        assert forall|k: int| 0 <= k < pieces@.len() implies (#[trigger] pieces@[k])@.len() < inner@.len() + 1 by {
            assert(pieces_view(pieces@)[k] == pieces@[k]@);
        }
        assert(pieces_view(pieces@).subrange(0, pieces@.len() as int) =~= pieces_view(pieces@));
    }
    match parse_items_prefix(&pieces, pieces.len(), inner.len() + 1) {
        Err(e) => Err(e),
        Ok(items) => {
            if in_string {
                return Err(chars_from("unterminated string in array"));
            }
            let last = trim_chars(current.as_slice());
            proof {
                lemma_trim_len(current@);
            }
            if last.len() == 0 {
                proof {
                    lemma_array_view(items);
                }
                return Ok(TomlValue::Array(items));
            }
            match parse_value(&last) {
                Err(e) => Err(e),
                Ok(v) => {
                    let mut items = items;
                    let ghost before = values_view(items@);
                    let ghost vv = value_view(v);
                    items.push(v);
                    assert(values_view(items@) =~= before.push(vv));
                    proof {
                        lemma_array_view(items);
                    }
                    Ok(TomlValue::Array(items))
                },
            }
        },
    }
}

fn parse_value(raw: &Vec<char>) -> (r: Result<TomlValue, Vec<char>>)
    ensures
        parsed_as(r, spec_parse_value(raw@)),
    decreases raw@.len() + 1, 1nat,
{
    if chars_equal_str(raw, "true") {
        return Ok(TomlValue::Bool(true));
    }
    if chars_equal_str(raw, "false") {
        return Ok(TomlValue::Bool(false));
    }
    if raw.len() > 0 && raw[0] == '"' {
        return match parse_string(raw) {
            Ok(chars) => Ok(TomlValue::String(string_from_chars(chars.as_slice()))),
            Err(e) => Err(e),
        };
    }
    if raw.len() > 0 && raw[0] == '[' {
        return parse_array(raw);
    }
    if is_float_literal_exec(raw) {
        return Ok(TomlValue::Number(string_from_chars(raw.as_slice())));
    }
    Err(concat_chars("unsupported value '", raw, "'"))
}

fn copy_string_chars(s: &String) -> (r: String)
    ensures
        r@ == s@,
{
    s.clone()
}

/// A deep copy of a value.
#[verifier::loop_isolation(false)]
pub fn copy_value(v: &TomlValue) -> (r: TomlValue)
    ensures
        value_view(r) == value_view(*v),
    decreases *v,
{
    match v {
        TomlValue::String(s) => TomlValue::String(copy_string_chars(s)),
        TomlValue::Bool(b) => TomlValue::Bool(*b),
        TomlValue::Number(s) => TomlValue::Number(copy_string_chars(s)),
        TomlValue::Array(items) => {
            let mut out: Vec<TomlValue> = Vec::new();
            let mut i: usize = 0;
            while i < items.len()
                invariant
                    0 <= i <= items@.len(),
                    out@.len() == i,
                    forall|j: int| 0 <= j < i ==> value_view(#[trigger] out@[j]) == value_view(items@[j]),
                decreases items@.len() - i,
            {
                proof {
                    assert(*items == v->Array_0);
                    assert(decreases_to!(*v => v->Array_0));
                    assert(decreases_to!(*items => items@));
                    assert(decreases_to!(items@ => items@[i as int]));
                }
                out.push(copy_value(&items[i]));
                i = i + 1;
            }
            proof {
                lemma_array_view(out);
                assert(values_view(out@) =~= values_view(items@));
                match value_view(*v) {
                    TomlModel::Arr(a) => {
                        assert(a =~= values_view(items@));
                    },
                    _ => {},
                }
            }
            TomlValue::Array(out)
        },
        TomlValue::Table(entries) => {
            let mut out: Vec<(String, TomlValue)> = Vec::new();
            let mut i: usize = 0;
            while i < entries.len()
                invariant
                    0 <= i <= entries@.len(),
                    out@.len() == i,
                    forall|j: int|
                        0 <= j < i ==> (#[trigger] out@[j]).0@ == entries@[j].0@ && value_view(
                            out@[j].1,
                        ) == value_view(entries@[j].1),
                decreases entries@.len() - i,
            {
                proof {
                    assert(*entries == v->Table_0);
                    assert(decreases_to!(*v => v->Table_0));
                    assert(decreases_to!(*entries => entries@));
                    assert(decreases_to!(entries@ => entries@[i as int]));
                    assert(decreases_to!(entries@[i as int] => entries@[i as int].1));
                }
                let key = copy_string_chars(&entries[i].0);
                let value = copy_value(&entries[i].1);
                out.push((key, value));
                i = i + 1;
            }
            proof {
                lemma_table_value_view(out);
                lemma_table_value_view(*entries);
                assert(table_view(out@) =~= table_view(entries@));
            }
            TomlValue::Table(out)
        },
    }
}

proof fn lemma_table_value_view(entries: Vec<(String, TomlValue)>)
    ensures
        value_view(TomlValue::Table(entries)) == TomlModel::Table(table_view(entries@)),
{
    match value_view(TomlValue::Table(entries)) {
        TomlModel::Table(t) => {
            assert(t =~= table_view(entries@));
        },
        _ => {},
    }
}

fn key_lt_exec(a: &String, b: &String) -> (r: bool)
    ensures
        r == key_lt(a@, b@),
{
    let ac = chars_from(a.as_str());
    let bc = chars_from(b.as_str());
    let mut i: usize = 0;
    assert(ac@.subrange(0, ac@.len() as int) =~= ac@);
    assert(bc@.subrange(0, bc@.len() as int) =~= bc@);
    while i < ac.len() && i < bc.len() && ac[i] == bc[i]
        invariant
            0 <= i <= ac@.len(),
            i <= bc@.len(),
            key_lt(ac@, bc@) == key_lt(
                ac@.subrange(i as int, ac@.len() as int),
                bc@.subrange(i as int, bc@.len() as int),
            ),
        decreases ac@.len() - i,
    {
        let ghost x = ac@.subrange(i as int, ac@.len() as int);
        let ghost y = bc@.subrange(i as int, bc@.len() as int);
        assert(x.drop_first() =~= ac@.subrange(i + 1, ac@.len() as int));
        assert(y.drop_first() =~= bc@.subrange(i + 1, bc@.len() as int));
        i = i + 1;
    }
    proof {
        assert(ac@.subrange(0, ac@.len() as int) =~= ac@);
        assert(bc@.subrange(0, bc@.len() as int) =~= bc@);
    }
    if i == ac.len() {
        i < bc.len()
    } else if i == bc.len() {
        false
    } else {
        ac[i] < bc[i]
    }
}

proof fn lemma_table_insert_skip(t: TableModel, k: Seq<char>, v: TomlModel, i: int)
    requires
        0 <= i <= t.len(),
        forall|j: int| 0 <= j < i ==> (#[trigger] t[j]).0 != k && !key_lt(k, t[j].0),
    ensures
        table_insert(t, k, v) == t.subrange(0, i) + table_insert(t.subrange(i, t.len() as int), k, v),
    decreases i,
{
    if i == 0 {
        assert(t.subrange(0, 0) + t.subrange(0, t.len() as int) =~= t);
        assert(t.subrange(0, t.len() as int) =~= t);
        assert(t.subrange(0, 0) + table_insert(t, k, v) =~= table_insert(t, k, v));
    } else {
        let d = t.drop_first();
        assert forall|j: int| 0 <= j < i - 1 implies (#[trigger] d[j]).0 != k && !key_lt(k, d[j].0) by {
            assert(d[j] == t[j + 1]);
        }
        lemma_table_insert_skip(d, k, v, i - 1);
        assert(d.subrange(i - 1, d.len() as int) =~= t.subrange(i, t.len() as int));
        assert(seq![t[0]] + d.subrange(0, i - 1) =~= t.subrange(0, i));
        assert(table_insert(t, k, v) == seq![t[0]] + table_insert(d, k, v));
        assert(seq![t[0]] + (d.subrange(0, i - 1) + table_insert(t.subrange(i, t.len() as int), k, v))
            =~= t.subrange(0, i) + table_insert(t.subrange(i, t.len() as int), k, v));
    }
}

/// Bind `key` to `value` in `table`, replacing an existing entry in place or
/// inserting before the first greater key.
pub fn table_insert_exec(table: &mut Vec<(String, TomlValue)>, key: String, value: TomlValue)
    ensures
        table_view(final(table)@) == table_insert(table_view(old(table)@), key@, value_view(value)),
{
    let ghost tv = table_view(table@);
    let ghost k = key@;
    let ghost vv = value_view(value);
    let mut i: usize = 0;
    while i < table.len() && table[i].0 != key && !key_lt_exec(&key, &table[i].0)
        invariant
            0 <= i <= table@.len(),
            tv == table_view(table@),
            k == key@,
            forall|j: int| 0 <= j < i ==> (#[trigger] tv[j]).0 != k && !key_lt(k, tv[j].0),
        decreases table@.len() - i,
    {
        assert(tv[i as int].0 == table@[i as int].0@);
        i = i + 1;
    }
    proof {
        lemma_table_insert_skip(tv, k, vv, i as int);
    }
    let ghost rest = tv.subrange(i as int, tv.len() as int);
    if i == table.len() {
        table.push((key, value));
        assert(rest =~= Seq::<(Seq<char>, TomlModel)>::empty());
        assert(table_view(table@) =~= tv.subrange(0, i as int) + seq![(k, vv)]);
    } else if table[i].0 == key {
        assert(rest[0] == tv[i as int]);
        table.set(i, (key, value));
        assert(table_view(table@) =~= tv.subrange(0, i as int) + rest.update(0, (k, vv)));
    } else {
        assert(rest[0] == tv[i as int]);
        assert(tv[i as int].0 == table@[i as int].0@);
        table.insert(i, (key, value));
        assert(table_view(table@) =~= tv.subrange(0, i as int) + (seq![(k, vv)] + rest));
    }
}

/// Index of the entry for `key` in `table`, if any.
pub fn table_index(table: &Vec<(String, TomlValue)>, key: &str) -> (r: Option<usize>)
    ensures
        match table_get(table_view(table@), key@) {
            Some(v) => r matches Some(i) && i < table@.len() && table@[i as int].0@ == key@
                && value_view(table@[i as int].1) == v,
            None => r is None,
        },
{
    let ghost tv = table_view(table@);
    let mut i: usize = 0;
    assert(tv.subrange(0, tv.len() as int) =~= tv);
    while i < table.len()
        invariant
            0 <= i <= table@.len(),
            tv == table_view(table@),
            table_get(tv, key@) == table_get(tv.subrange(i as int, tv.len() as int), key@),
        decreases table@.len() - i,
    {
        let ghost rest = tv.subrange(i as int, tv.len() as int);
        assert(rest[0] == tv[i as int]);
        assert(tv[i as int] == (table@[i as int].0@, value_view(table@[i as int].1)));
        assert(rest.drop_first() =~= tv.subrange(i + 1, tv.len() as int));
        if str_eq(table[i].0.as_str(), key) {
            return Some(i);
        }
        i = i + 1;
    }
    None
}

/// The characters of each path segment.
pub open spec fn paths_view(p: Seq<String>) -> Seq<Seq<char>> {
    p.map_values(|s: String| s@)
}

fn copy_path(p: &Vec<String>) -> (r: Vec<String>)
    ensures
        paths_view(r@) == paths_view(p@),
{
    let mut out: Vec<String> = Vec::new();
    let mut i: usize = 0;
    while i < p.len()
        invariant
            0 <= i <= p@.len(),
            out@.len() == i,
            forall|j: int| 0 <= j < i ==> (#[trigger] out@[j])@ == p@[j]@,
        decreases p@.len() - i,
    {
        out.push(copy_string_chars(&p[i]));
        i = i + 1;
    }
    assert(paths_view(out@) =~= paths_view(p@));
    out
}

fn segments(pieces: &Vec<Vec<char>>) -> (r: Vec<String>)
    ensures
        paths_view(r@) == pieces_view(pieces@),
{
    let mut out: Vec<String> = Vec::new();
    let mut i: usize = 0;
    while i < pieces.len()
        invariant
            0 <= i <= pieces@.len(),
            out@.len() == i,
            forall|j: int| 0 <= j < i ==> (#[trigger] out@[j])@ == pieces@[j]@,
        decreases pieces@.len() - i,
    {
        out.push(string_from_chars(pieces[i].as_slice()));
        i = i + 1;
    }
    assert(paths_view(out@) =~= pieces_view(pieces@));
    out
}

/// Store `value` under the dotted path `path[from..]` of `table`.
fn set_path_exec(table: &mut Vec<(String, TomlValue)>, path: &Vec<String>, from: usize, value: TomlValue)
    requires
        from < path@.len(),
    ensures
        table_view(final(table)@) == set_path(
            table_view(old(table)@),
            paths_view(path@).subrange(from as int, path@.len() as int),
            value_view(value),
        ),
    decreases path@.len() - from,
{
    let ghost p = paths_view(path@).subrange(from as int, path@.len() as int);
    assert(p[0] == path@[from as int]@);
    assert(p.drop_first() =~= paths_view(path@).subrange(from + 1, path@.len() as int));
    if from == path.len() - 1 {
        table_insert_exec(table, copy_string_chars(&path[from]), value);
        return;
    }
    let mut child: Vec<(String, TomlValue)> = match table_index(table, path[from].as_str()) {
        Some(g) => {
            let copy = copy_value(&table[g].1);
            match copy {
                TomlValue::Table(entries) => {
                    proof {
                        lemma_table_value_view(entries);
                    }
                    entries
                },
                _ => {
                    let empty: Vec<(String, TomlValue)> = Vec::new();
                    assert(table_view(empty@) =~= Seq::<(Seq<char>, TomlModel)>::empty());
                    empty
                },
            }
        },
        None => {
            let empty: Vec<(String, TomlValue)> = Vec::new();
            assert(table_view(empty@) =~= Seq::<(Seq<char>, TomlModel)>::empty());
            empty
        },
    };
    set_path_exec(&mut child, path, from + 1, value);
    proof {
        lemma_table_value_view(child);
    }
    table_insert_exec(table, copy_string_chars(&path[from]), TomlValue::Table(child));
}

proof fn lemma_parse_lines_err(lines: Seq<Seq<char>>, j: int)
    requires
        0 <= j <= lines.len(),
        parse_lines(lines.subrange(0, j)) is Err,
    ensures
        parse_lines(lines) == parse_lines(lines.subrange(0, j)),
    decreases lines.len() - j,
{
    if j < lines.len() {
        assert(lines.subrange(0, j + 1).drop_last() =~= lines.subrange(0, j));
        lemma_parse_lines_err(lines, j + 1);
    } else {
        assert(lines.subrange(0, j) =~= lines);
    }
}

fn located(line: usize, message: &Vec<char>) -> (r: String)
    ensures
        r@ == line_message(line as nat, message@),
{
    let mut out = owned("line ");
    let number = u64_to_string(line as u64);
    push_str(&mut out, number.as_str());
    push_str(&mut out, ": ");
    let tail = string_from_chars(message.as_slice());
    push_str(&mut out, tail.as_str());
    out
}

fn index_of(s: &Vec<char>, c: char) -> (r: Option<usize>)
    ensures
        match r {
            Some(k) => k < s@.len() && index_of_from(s@, c, 0) == k,
            None => index_of_from(s@, c, 0) == -1,
        },
{
    let mut i: usize = 0;
    while i < s.len()
        invariant
            0 <= i <= s@.len(),
            index_of_from(s@, c, 0) == index_of_from(s@, c, i as int),
        decreases s@.len() - i,
    {
        if s[i] == c {
            return Some(i);
        }
        i = i + 1;
    }
    None
}

/// Parse a document into its root table, or report the first malformed
/// line.
pub fn parse_toml(text: &str) -> (r: Result<Vec<(String, TomlValue)>, TomlError>)
    ensures
        match spec_parse_toml(text@) {
            Ok(t) => r matches Ok(x) && table_view(x@) == t,
            Err(e) => r matches Err(x) && x.0@ == e,
        },
{
    let chars = chars_from(text);
    let lines = split_on_exec(&chars, '\n');
    let ghost all = pieces_view(lines@);
    let mut root: Vec<(String, TomlValue)> = Vec::new();
    let mut path: Vec<String> = Vec::new();
    assert(all.subrange(0, 0) =~= Seq::<Seq<char>>::empty());
    assert(table_view(root@) =~= Seq::<(Seq<char>, TomlModel)>::empty());
    assert(paths_view(path@) =~= Seq::<Seq<char>>::empty());
    let mut i: usize = 0;
    while i < lines.len()
        invariant
            0 <= i <= lines@.len(),
            all == pieces_view(lines@),
            all == split_on(text@, '\n'),
            parse_lines(all.subrange(0, i as int)) == Ok::<ParseState, Seq<char>>(
                ParseState { root: table_view(root@), path: paths_view(path@) },
            ),
        decreases lines@.len() - i,
    {
        let ghost st = ParseState { root: table_view(root@), path: paths_view(path@) };
        let ghost line = lines@[i as int]@;
        assert(all.subrange(0, i + 1).drop_last() =~= all.subrange(0, i as int));
        assert(all.subrange(0, i + 1).last() == line);
        let number = i + 1;
        let stripped = trim_chars(strip_comment(&lines[i]).as_slice());
        let len = stripped.len();
        if len == 0 {
            i = i + 1;
            continue;
        }
        if stripped[0] == '[' {
            if stripped[len - 1] != ']' || len < 2 {
                proof {
                    lemma_parse_lines_err(all, i + 1);
                }
                return Err(TomlError(located(number, &chars_from("invalid table header"))));
            }
            let inner = slice_chars(stripped.as_slice(), 1, len - 1);
            let name = trim_chars(inner.as_slice());
            if name.len() == 0 {
                proof {
                    lemma_parse_lines_err(all, i + 1);
                }
                return Err(TomlError(located(number, &chars_from("empty table name"))));
            }
            let parts = split_on_exec(&name, '.');
            path = segments(&parts);
            i = i + 1;
            continue;
        }
        let equals = match index_of(&stripped, '=') {
            Some(k) => k,
            None => {
                proof {
                    lemma_parse_lines_err(all, i + 1);
                }
                return Err(TomlError(located(number, &chars_from("expected key = value"))));
            },
        };
        let key_part = slice_chars(stripped.as_slice(), 0, equals);
        let key = trim_chars(key_part.as_slice());
        let value_part = slice_chars(stripped.as_slice(), equals + 1, len);
        let raw_value = trim_chars(value_part.as_slice());
        if key.len() == 0 {
            proof {
                lemma_parse_lines_err(all, i + 1);
            }
            return Err(TomlError(located(number, &chars_from("empty key"))));
        }
        match parse_value(&raw_value) {
            Err(e) => {
                proof {
                    lemma_parse_lines_err(all, i + 1);
                }
                return Err(TomlError(located(number, &e)));
            },
            Ok(v) => {
                let mut full = copy_path(&path);
                let ghost before = paths_view(full@);
                full.push(string_from_chars(key.as_slice()));
                assert(paths_view(full@) =~= before.push(key@));
                assert(paths_view(full@).subrange(0, full@.len() as int) =~= paths_view(full@));
                set_path_exec(&mut root, &full, 0, v);
            },
        }
        i = i + 1;
    }
    assert(all.subrange(0, lines@.len() as int) =~= all);
    Ok(root)
}

impl TomlValue {
    pub fn as_str(&self) -> (r: Option<&str>)
        ensures
            match value_view(*self) {
                TomlModel::Str(t) => r matches Some(x) && x@ == t,
                _ => r is None,
            },
    {
        match self {
            TomlValue::String(value) => Some(value.as_str()),
            _ => None,
        }
    }

    pub fn as_bool(&self) -> (r: Option<bool>)
        ensures
            match value_view(*self) {
                TomlModel::Bool(b) => r == Some(b),
                _ => r is None,
            },
    {
        match self {
            TomlValue::Bool(value) => Some(*value),
            _ => None,
        }
    }

    /// The text of a number value.
    pub fn as_number(&self) -> (r: Option<&str>)
        ensures
            match value_view(*self) {
                TomlModel::Num(t) => r matches Some(x) && x@ == t,
                _ => r is None,
            },
    {
        match self {
            TomlValue::Number(value) => Some(value.as_str()),
            _ => None,
        }
    }

    /// The strings of an array made only of strings.
    pub fn as_string_array(&self) -> (r: Option<Vec<String>>)
        ensures
            match value_view(*self) {
                TomlModel::Arr(items) => if forall|i: int| 0 <= i < items.len() ==> #[trigger] items[i] is Str {
                    r matches Some(v) && v@.len() == items.len() && forall|i: int|
                        0 <= i < items.len() ==> TomlModel::Str((#[trigger] v@[i])@) == items[i]
                } else {
                    r is None
                },
                _ => r is None,
            },
    {
        match self {
            TomlValue::Array(values) => {
                proof {
                    lemma_array_view(*values);
                }
                let ghost items = values_view(values@);
                let mut strings: Vec<String> = Vec::new();
                let mut i: usize = 0;
                while i < values.len()
                    invariant
                        0 <= i <= values@.len(),
                        items == values_view(values@),
                        value_view(*self) == TomlModel::Arr(items),
                        strings@.len() == i,
                        forall|j: int| 0 <= j < i ==> #[trigger] items[j] is Str,
                        forall|j: int|
                            0 <= j < i ==> TomlModel::Str((#[trigger] strings@[j])@) == items[j],
                    decreases values@.len() - i,
                {
                    match &values[i] {
                        TomlValue::String(s) => {
                            strings.push(copy_string_chars(s));
                        },
                        _ => {
                            assert(items[i as int] == value_view(values@[i as int]));
                            assert(!(items[i as int] is Str));
                            return None;
                        },
                    }
                    i = i + 1;
                }
                Some(strings)
            },
            _ => None,
        }
    }

    pub fn as_table(&self) -> (r: Option<&Vec<(String, TomlValue)>>)
        ensures
            match value_view(*self) {
                TomlModel::Table(t) => r matches Some(x) && table_view(x@) == t,
                _ => r is None,
            },
    {
        match self {
            TomlValue::Table(table) => {
                proof {
                    lemma_table_value_view(*table);
                }
                Some(table)
            },
            _ => None,
        }
    }
}

// ---------------------------------------------------------------------------
// Key order of parsed tables.
// ---------------------------------------------------------------------------

proof fn lemma_key_lt_irreflexive(a: Seq<char>)
    ensures
        !key_lt(a, a),
    decreases a.len(),
{
    if a.len() > 0 {
        lemma_key_lt_irreflexive(a.drop_first());
    }
}

proof fn lemma_key_lt_transitive(a: Seq<char>, b: Seq<char>, c: Seq<char>)
    requires
        key_lt(a, b),
        key_lt(b, c),
    ensures
        key_lt(a, c),
    decreases a.len(),
{
    if a.len() > 0 && b.len() > 0 && c.len() > 0 && a[0] == b[0] && b[0] == c[0] {
        lemma_key_lt_transitive(a.drop_first(), b.drop_first(), c.drop_first());
    }
}

proof fn lemma_key_lt_total(a: Seq<char>, b: Seq<char>)
    requires
        a != b,
    ensures
        key_lt(a, b) || key_lt(b, a),
    decreases a.len(),
{
    if a.len() > 0 && b.len() > 0 && a[0] == b[0] {
        if a.drop_first() == b.drop_first() {
            assert(a =~= seq![a[0]] + a.drop_first());
            assert(b =~= seq![b[0]] + b.drop_first());
        }
        lemma_key_lt_total(a.drop_first(), b.drop_first());
    } else if a.len() > 0 && b.len() > 0 {
        assert(a[0] < b[0] || b[0] < a[0]);
    } else if a.len() == 0 && b.len() == 0 {
        assert(a =~= b);
    }
}

/// The keys of `t` strictly increase in key order.
pub open spec fn sorted_keys(t: TableModel) -> bool {
    forall|i: int, j: int| 0 <= i < j < t.len() ==> key_lt(#[trigger] t[i].0, #[trigger] t[j].0)
}

proof fn lemma_insert_sorted(t: TableModel, k: Seq<char>, v: TomlModel)
    requires
        sorted_keys(t),
    ensures
        sorted_keys(table_insert(t, k, v)),
        forall|e: (Seq<char>, TomlModel)|
            #[trigger] table_insert(t, k, v).contains(e) ==> e == (k, v) || t.contains(e),
    decreases t.len(),
{
    broadcast use vstd::seq_lib::group_seq_properties;

    let r = table_insert(t, k, v);
    if t.len() == 0 {
    } else if t[0].0 == k {
        assert forall|e: (Seq<char>, TomlModel)| #[trigger] r.contains(e) implies e == (k, v)
            || t.contains(e) by {
            let m = choose|m: int| 0 <= m < r.len() && r[m] == e;
            if m > 0 {
                assert(t[m] == e);
            }
        }
    } else if key_lt(k, t[0].0) {
        assert forall|i: int, j: int| 0 <= i < j < r.len() implies key_lt(
            #[trigger] r[i].0,
            #[trigger] r[j].0,
        ) by {
            if i == 0 {
                if j > 1 {
                    lemma_key_lt_transitive(k, t[0].0, t[j - 1].0);
                }
            } else {
                assert(r[i] == t[i - 1] && r[j] == t[j - 1]);
            }
        }
        assert forall|e: (Seq<char>, TomlModel)| #[trigger] r.contains(e) implies e == (k, v)
            || t.contains(e) by {
            let m = choose|m: int| 0 <= m < r.len() && r[m] == e;
            if m > 0 {
                assert(t[m - 1] == e);
            }
        }
    } else {
        let d = t.drop_first();
        assert forall|i: int, j: int| 0 <= i < j < d.len() implies key_lt(
            #[trigger] d[i].0,
            #[trigger] d[j].0,
        ) by {
            assert(d[i] == t[i + 1] && d[j] == t[j + 1]);
        }
        lemma_insert_sorted(d, k, v);
        let rest = table_insert(d, k, v);
        lemma_key_lt_total(t[0].0, k);
        assert forall|m: int| 0 <= m < rest.len() implies key_lt(t[0].0, #[trigger] rest[m].0) by {
            assert(rest.contains(rest[m]));
            if rest[m] != (k, v) {
                let j = choose|j: int| 0 <= j < d.len() && d[j] == rest[m];
                assert(d[j] == t[j + 1]);
            }
        }
        assert forall|i: int, j: int| 0 <= i < j < r.len() implies key_lt(
            #[trigger] r[i].0,
            #[trigger] r[j].0,
        ) by {
            if i == 0 {
                assert(r[j] == rest[j - 1]);
            } else {
                assert(r[i] == rest[i - 1] && r[j] == rest[j - 1]);
            }
        }
        assert forall|e: (Seq<char>, TomlModel)| #[trigger] r.contains(e) implies e == (k, v)
            || t.contains(e) by {
            let m = choose|m: int| 0 <= m < r.len() && r[m] == e;
            if m > 0 {
                assert(rest.contains(rest[m - 1]));
                if e != (k, v) {
                    let j = choose|j: int| 0 <= j < d.len() && d[j] == e;
                    assert(t[j + 1] == e);
                }
            }
        }
    }
}

proof fn lemma_set_path_sorted(t: TableModel, path: Seq<Seq<char>>, v: TomlModel)
    requires
        sorted_keys(t),
    ensures
        sorted_keys(set_path(t, path, v)),
{
    if path.len() == 1 {
        lemma_insert_sorted(t, path[0], v);
    } else if path.len() > 1 {
        let child = match table_get(t, path[0]) {
            Some(TomlModel::Table(c)) => c,
            _ => Seq::empty(),
        };
        lemma_insert_sorted(t, path[0], TomlModel::Table(set_path(child, path.drop_first(), v)));
    }
}

/// The keys of `t` are sorted, and so are those of each table directly in it.
pub open spec fn tables_sorted(t: TableModel) -> bool {
    &&& sorted_keys(t)
    &&& forall|i: int|
        0 <= i < t.len() ==> ((#[trigger] t[i]).1 matches TomlModel::Table(c) ==> sorted_keys(c))
}

proof fn lemma_table_get_entry(t: TableModel, k: Seq<char>)
    ensures
        table_get(t, k) matches Some(x) ==> t.contains((k, x)),
    decreases t.len(),
{
    broadcast use vstd::seq_lib::group_seq_properties;

    if t.len() > 0 {
        if t[0].0 == k {
            assert(t[0] == (k, t[0].1));
        } else {
            lemma_table_get_entry(t.drop_first(), k);
            match table_get(t, k) {
                Some(x) => {
                    let j = choose|j: int|
                        0 <= j < t.drop_first().len() && t.drop_first()[j] == (k, x);
                    assert(t[j + 1] == (k, x));
                },
                None => {},
            }
        }
    }
}

proof fn lemma_insert_keeps_tables_sorted(t: TableModel, k: Seq<char>, v: TomlModel)
    requires
        tables_sorted(t),
        v matches TomlModel::Table(c) ==> sorted_keys(c),
    ensures
        tables_sorted(table_insert(t, k, v)),
{
    broadcast use vstd::seq_lib::group_seq_properties;

    lemma_insert_sorted(t, k, v);
    let r = table_insert(t, k, v);
    assert forall|i: int| 0 <= i < r.len() implies ((#[trigger] r[i]).1 matches TomlModel::Table(
        c,
    ) ==> sorted_keys(c)) by {
        assert(r.contains(r[i]));
        if r[i] != (k, v) {
            let j = choose|j: int| 0 <= j < t.len() && t[j] == r[i];
            assert(t[j].1 == r[i].1);
        }
    }
}

proof fn lemma_set_path_tables_sorted(t: TableModel, path: Seq<Seq<char>>, v: TomlModel)
    requires
        tables_sorted(t),
        !(v is Table),
    ensures
        tables_sorted(set_path(t, path, v)),
{
    broadcast use vstd::seq_lib::group_seq_properties;

    if path.len() == 1 {
        lemma_insert_keeps_tables_sorted(t, path[0], v);
    } else if path.len() > 1 {
        let child = match table_get(t, path[0]) {
            Some(TomlModel::Table(c)) => c,
            _ => Seq::empty(),
        };
        lemma_table_get_entry(t, path[0]);
        match table_get(t, path[0]) {
            Some(TomlModel::Table(c)) => {
                let j = choose|j: int| 0 <= j < t.len() && t[j] == (path[0], TomlModel::Table(c));
                assert(t[j].1 == TomlModel::Table(c));
            },
            _ => {},
        }
        assert(sorted_keys(child));
        lemma_set_path_sorted(child, path.drop_first(), v);
        lemma_insert_keeps_tables_sorted(
            t,
            path[0],
            TomlModel::Table(set_path(child, path.drop_first(), v)),
        );
    }
}

proof fn lemma_value_not_table(raw: Seq<char>)
    ensures
        spec_parse_value(raw) matches Ok(v) ==> !(v is Table),
{
    if raw.len() > 0 && raw[0] == '[' && raw != "true"@ && raw != "false"@ {
        assert(spec_parse_value(raw) == spec_parse_array(raw));
    }
}

proof fn lemma_parse_lines_sorted(lines: Seq<Seq<char>>)
    ensures
        parse_lines(lines) matches Ok(st) ==> tables_sorted(st.root),
    decreases lines.len(),
{
    if lines.len() > 0 {
        lemma_parse_lines_sorted(lines.drop_last());
        if let Ok(st) = parse_lines(lines.drop_last()) {
            let s = trim(spec_strip_comment(lines.last()));
            if s.len() > 0 && s[0] != '[' {
                let eq = index_of_from(s, '=', 0);
                if eq >= 0 {
                    let key = trim(s.subrange(0, eq));
                    let raw_value = trim(s.subrange(eq + 1, s.len() as int));
                    lemma_value_not_table(raw_value);
                    if let Ok(v) = spec_parse_value(raw_value) {
                        lemma_set_path_tables_sorted(st.root, st.path.push(key), v);
                    }
                }
            }
        }
    }
}

/// A parsed document lists its keys in sorted order (character by
/// character, the shorter first), and so does each table directly in it.
pub proof fn parsed_tables_are_sorted(text: Seq<char>)
    ensures
        spec_parse_toml(text) matches Ok(root) ==> tables_sorted(root),
{
    lemma_parse_lines_sorted(split_on(text, '\n'));
}

/// A table directly in a sorted document lists its keys in sorted order.
pub proof fn lemma_sorted_child(t: TableModel, k: Seq<char>)
    requires
        tables_sorted(t),
    ensures
        table_get(t, k) matches Some(TomlModel::Table(c)) ==> sorted_keys(c),
{
    lemma_table_get_entry(t, k);
    if let Some(TomlModel::Table(c)) = table_get(t, k) {
        let j = choose|j: int| 0 <= j < t.len() && t[j] == (k, TomlModel::Table(c));
        assert(t[j].1 == TomlModel::Table(c));
    }
}

// ---------------------------------------------------------------------------
// String escapes.
// ---------------------------------------------------------------------------

/// `s` holds no backslash.
pub open spec fn no_backslash(s: Seq<char>) -> bool {
    forall|i: int| 0 <= i < s.len() ==> s[i] != '\\'
}

proof fn lemma_unescape_plain(a: Seq<char>)
    requires
        no_backslash(a),
    ensures
        unescape(a) == (a, false),
    decreases a.len(),
{
    if a.len() > 0 {
        lemma_unescape_plain(a.drop_last());
        assert(a.drop_last().push(a.last()) =~= a);
    }
}

proof fn lemma_unescape_one(a: Seq<char>, x: char, b: Seq<char>)
    requires
        no_backslash(a),
        no_backslash(b),
    ensures
        unescape(a + seq!['\\', x] + b) == (a + seq![escaped_char(x)] + b, false),
    decreases b.len(),
{
    let w = a + seq!['\\', x] + b;
    if b.len() == 0 {
        lemma_unescape_plain(a);
        let p = a.push('\\');
        assert(p.drop_last() =~= a);
        assert(p.last() == '\\');
        assert(unescape(p) == (a, true));
        assert(w.drop_last() =~= p);
        assert(w.last() == x);
        assert(a + seq![escaped_char(x)] + b =~= a.push(escaped_char(x)));
    } else {
        let d = b.drop_last();
        lemma_unescape_one(a, x, d);
        assert(w.drop_last() =~= a + seq!['\\', x] + d);
        assert(w.last() == b[b.len() - 1]);
        assert(b[b.len() - 1] != '\\');
        assert(a + seq![escaped_char(x)] + b =~= (a + seq![escaped_char(x)] + d).push(
            b[b.len() - 1],
        ));
    }
}

/// Escapes in a quoted string: between plain text, `\n` stands for a line
/// feed, `\t` for a tab, and a backslash before any other character for that
/// character itself (so `\\` is a backslash and `\"` a quote).
pub proof fn string_escapes_unescape(a: Seq<char>, x: char, b: Seq<char>)
    requires
        no_backslash(a),
        no_backslash(b),
    ensures
        x == 'n' ==> spec_parse_string(seq!['"'] + a + seq!['\\', x] + b + seq!['"']) == Ok::<
            Seq<char>,
            Seq<char>,
        >(a + seq!['\n'] + b),
        x == 't' ==> spec_parse_string(seq!['"'] + a + seq!['\\', x] + b + seq!['"']) == Ok::<
            Seq<char>,
            Seq<char>,
        >(a + seq!['\t'] + b),
        x != 'n' && x != 't' ==> spec_parse_string(seq!['"'] + a + seq!['\\', x] + b + seq!['"'])
            == Ok::<Seq<char>, Seq<char>>(a + seq![x] + b),
        spec_parse_string(seq!['"'] + a + seq!['"']) == Ok::<Seq<char>, Seq<char>>(a),
{
    let raw = seq!['"'] + a + seq!['\\', x] + b + seq!['"'];
    assert(raw.subrange(1, raw.len() - 1) =~= a + seq!['\\', x] + b);
    lemma_unescape_one(a, x, b);
    let plain = seq!['"'] + a + seq!['"'];
    assert(plain.subrange(1, plain.len() - 1) =~= a);
    lemma_unescape_plain(a);
}

} // verus!
