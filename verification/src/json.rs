//! The document text codec: a keymap document is stored as one line of
//! structured text (JSON), human-diffable and fit for version control.
//!
//! The writer emits a canonical form: fixed field order, no whitespace,
//! `"` and `\` escaped with a backslash, control characters escaped as
//! `\u00XX`, all other characters taken as they are. The reader is
//! wider: it allows insignificant whitespace between tokens, all of
//! JSON's string escapes (surrogate pairs included), and the five
//! fields in any order, though each must appear exactly once and no
//! other field may appear. Reading back what the writer produced gives
//! the document exactly: see [`lemma_document_roundtrip`].

use vstd::prelude::*;

verus! {

/// The mathematical content of a keymap document: the version number, the
/// three opaque metadata strings, and the layers of symbolic key names.
pub struct DocModel {
    pub version: u8,
    pub keyboard: Seq<char>,
    pub keymap: Seq<char>,
    pub layout: Seq<char>,
    pub layers: Seq<Seq<Seq<char>>>,
}

/// The opening token, up to and including the version field's colon.
pub open spec fn lit_version() -> Seq<char> {
    "{\"version\":"@
}

/// The token between the version number and the keyboard string.
pub open spec fn lit_keyboard() -> Seq<char> {
    ",\"keyboard\":"@
}

/// The token between the keyboard string and the profile-name string.
pub open spec fn lit_keymap() -> Seq<char> {
    ",\"keymap\":"@
}

/// The token between the profile-name string and the layout string.
pub open spec fn lit_layout() -> Seq<char> {
    ",\"layout\":"@
}

/// The token between the layout string and the layer array.
pub open spec fn lit_layers() -> Seq<char> {
    ",\"layers\":"@
}

/// The version field's name.
pub open spec fn name_version() -> Seq<char> {
    "version"@
}

/// The keyboard field's name.
pub open spec fn name_keyboard() -> Seq<char> {
    "keyboard"@
}

/// The profile-name field's name.
pub open spec fn name_keymap() -> Seq<char> {
    "keymap"@
}

/// The layout field's name.
pub open spec fn name_layout() -> Seq<char> {
    "layout"@
}

/// The layer field's name.
pub open spec fn name_layers() -> Seq<char> {
    "layers"@
}

/// The fields collected while walking an object's members, in whatever
/// order the text lists them.
pub struct PartialDoc {
    pub version: Option<u8>,
    pub keyboard: Option<Seq<char>>,
    pub keymap: Option<Seq<char>>,
    pub layout: Option<Seq<char>>,
    pub layers: Option<Seq<Seq<Seq<char>>>>,
}

/// No field seen yet.
pub open spec fn empty_doc() -> PartialDoc {
    PartialDoc { version: None, keyboard: None, keymap: None, layout: None, layers: None }
}

/// The lower-case hexadecimal digit character for `d` in 0..=15.
pub open spec fn hex_digit(d: int) -> char {
    if d == 0 {
        '0'
    } else if d == 1 {
        '1'
    } else if d == 2 {
        '2'
    } else if d == 3 {
        '3'
    } else if d == 4 {
        '4'
    } else if d == 5 {
        '5'
    } else if d == 6 {
        '6'
    } else if d == 7 {
        '7'
    } else if d == 8 {
        '8'
    } else if d == 9 {
        '9'
    } else if d == 10 {
        'a'
    } else if d == 11 {
        'b'
    } else if d == 12 {
        'c'
    } else if d == 13 {
        'd'
    } else if d == 14 {
        'e'
    } else {
        'f'
    }
}

/// What one character becomes inside a quoted string: `"` and `\` take a
/// leading backslash, a control character becomes its `\u00XX` escape,
/// every other character stands for itself.
pub open spec fn esc_char(c: char) -> Seq<char> {
    if c == '"' || c == '\\' {
        seq!['\\', c]
    } else if (c as u32) < 32 {
        seq!['\\', 'u', '0', '0', hex_digit((c as u32) as int / 16), hex_digit((c as u32) as int % 16)]
    } else {
        seq![c]
    }
}

/// A string's characters, escaped.
pub open spec fn esc(s: Seq<char>) -> Seq<char>
    decreases s.len(),
{
    if s.len() == 0 {
        Seq::empty()
    } else {
        esc_char(s[0]) + esc(s.drop_first())
    }
}

/// A string field as written: escaped and surrounded by quotes.
pub open spec fn quoted(s: Seq<char>) -> Seq<char> {
    seq!['"'] + esc(s) + seq!['"']
}

/// The decimal digit character for `d` in 0..=9.
pub open spec fn dec_digit(d: int) -> char {
    if d == 0 {
        '0'
    } else if d == 1 {
        '1'
    } else if d == 2 {
        '2'
    } else if d == 3 {
        '3'
    } else if d == 4 {
        '4'
    } else if d == 5 {
        '5'
    } else if d == 6 {
        '6'
    } else if d == 7 {
        '7'
    } else if d == 8 {
        '8'
    } else {
        '9'
    }
}

/// The value of a decimal digit character, -1 for any other character.
pub open spec fn digit_val(c: char) -> int {
    if c == '0' {
        0
    } else if c == '1' {
        1
    } else if c == '2' {
        2
    } else if c == '3' {
        3
    } else if c == '4' {
        4
    } else if c == '5' {
        5
    } else if c == '6' {
        6
    } else if c == '7' {
        7
    } else if c == '8' {
        8
    } else if c == '9' {
        9
    } else {
        -1
    }
}

/// Whether `c` is a decimal digit.
pub open spec fn is_digit(c: char) -> bool {
    digit_val(c) >= 0
}

/// The value of a hexadecimal digit character, either case; -1 for any
/// other character.
pub open spec fn hex_val(c: char) -> int {
    if c == 'a' || c == 'A' {
        10
    } else if c == 'b' || c == 'B' {
        11
    } else if c == 'c' || c == 'C' {
        12
    } else if c == 'd' || c == 'D' {
        13
    } else if c == 'e' || c == 'E' {
        14
    } else if c == 'f' || c == 'F' {
        15
    } else {
        digit_val(c)
    }
}

/// Whether `c` is a hexadecimal digit.
pub open spec fn is_hex(c: char) -> bool {
    hex_val(c) >= 0
}

/// The character a single-letter escape stands for, if the letter is one
/// of JSON's named escapes.
pub open spec fn esc_code(c: char) -> Option<char> {
    if c == '"' {
        Some('"')
    } else if c == '\\' {
        Some('\\')
    } else if c == '/' {
        Some('/')
    } else if c == 'b' {
        Some('\u{8}')
    } else if c == 'f' {
        Some('\u{c}')
    } else if c == 'n' {
        Some('\n')
    } else if c == 'r' {
        Some('\r')
    } else if c == 't' {
        Some('\t')
    } else {
        None
    }
}

/// Whether `c` is insignificant whitespace between tokens.
pub open spec fn is_ws(c: char) -> bool {
    c == ' ' || c == '\t' || c == '\n' || c == '\r'
}

/// The first position at or after `i` that does not hold whitespace.
pub open spec fn skip_ws(s: Seq<char>, i: int) -> int
    decreases s.len() - i,
{
    if 0 <= i < s.len() && is_ws(s[i]) {
        skip_ws(s, i + 1)
    } else {
        i
    }
}

/// Skipping whitespace never moves backwards nor past the end.
proof fn lemma_skip_ws_bounds(s: Seq<char>, i: int)
    requires
        0 <= i <= s.len(),
    ensures
        i <= skip_ws(s, i) <= s.len(),
    decreases s.len() - i,
{
    if i < s.len() && is_ws(s[i]) {
        lemma_skip_ws_bounds(s, i + 1);
    }
}

/// The canonical decimal spelling of a byte: no sign, no leading zeros.
pub open spec fn dec_u8(v: u8) -> Seq<char> {
    if v < 10 {
        seq![dec_digit(v as int)]
    } else if v < 100 {
        seq![dec_digit(v as int / 10), dec_digit(v as int % 10)]
    } else {
        seq![dec_digit(v as int / 100), dec_digit((v as int / 10) % 10), dec_digit(v as int % 10)]
    }
}

/// One row's names, quoted and comma-separated.
pub open spec fn ser_names(row: Seq<Seq<char>>) -> Seq<char>
    decreases row.len(),
{
    if row.len() == 0 {
        Seq::empty()
    } else if row.len() == 1 {
        quoted(row[0])
    } else {
        quoted(row[0]) + seq![','] + ser_names(row.drop_first())
    }
}

/// One layer's row of names as an array.
pub open spec fn ser_row(row: Seq<Seq<char>>) -> Seq<char> {
    seq!['['] + ser_names(row) + seq![']']
}

/// All rows, comma-separated.
pub open spec fn ser_rows(layers: Seq<Seq<Seq<char>>>) -> Seq<char>
    decreases layers.len(),
{
    if layers.len() == 0 {
        Seq::empty()
    } else if layers.len() == 1 {
        ser_row(layers[0])
    } else {
        ser_row(layers[0]) + seq![','] + ser_rows(layers.drop_first())
    }
}

/// The layer array: one row per layer.
pub open spec fn ser_layers(layers: Seq<Seq<Seq<char>>>) -> Seq<char> {
    seq!['['] + ser_rows(layers) + seq![']']
}

/// The canonical text of a whole document.
pub open spec fn ser_document(doc: DocModel) -> Seq<char> {
    lit_version() + dec_u8(doc.version) + lit_keyboard() + quoted(doc.keyboard) + lit_keymap()
        + quoted(doc.keymap) + lit_layout() + quoted(doc.layout) + lit_layers() + ser_layers(
        doc.layers,
    ) + seq!['}']
}

/// Greedy decimal accumulation from position `i` with the value read so
/// far: stops before a digit that would push the value past a byte.
pub open spec fn scan_digits(s: Seq<char>, i: int, acc: int) -> (u8, int)
    decreases s.len() - i,
{
    if 0 <= i < s.len() && is_digit(s[i]) && acc * 10 + digit_val(s[i]) <= 255 {
        scan_digits(s, i + 1, acc * 10 + digit_val(s[i]))
    } else {
        ((if 0 <= acc <= 255 {
            acc
        } else {
            0
        }) as u8, i)
    }
}

/// A canonical byte number at position `i`: at least one digit, no
/// leading zero, value at most 255.
pub open spec fn scan_u8(s: Seq<char>, i: int) -> Option<(u8, int)> {
    if !(0 <= i < s.len() && is_digit(s[i])) {
        None
    } else if s[i] == '0' {
        if i + 1 < s.len() && is_digit(s[i + 1]) {
            None
        } else {
            Some((0, i + 1))
        }
    } else {
        Some(scan_digits(s, i, 0))
    }
}

/// The code point of a `\uXXXX` escape whose four hex digits start at
/// position `i`.
pub open spec fn hex4_val(s: Seq<char>, i: int) -> int {
    ((hex_val(s[i]) * 16 + hex_val(s[i + 1])) * 16 + hex_val(s[i + 2])) * 16 + hex_val(s[i + 3])
}

/// Whether positions `i..i + 4` hold four hex digits.
pub open spec fn hex4_at(s: Seq<char>, i: int) -> bool {
    i + 4 <= s.len() && is_hex(s[i]) && is_hex(s[i + 1]) && is_hex(s[i + 2]) && is_hex(s[i + 3])
}

/// The code point a surrogate pair stands for.
pub open spec fn pair_val(hi: int, lo: int) -> int {
    0x10000 + (hi - 0xd800) * 0x400 + (lo - 0xdc00)
}

/// The characters of a quoted string after its opening quote, with the
/// characters read so far: ends at the first unescaped quote. Accepts
/// JSON's escapes — the named ones, `\uXXXX` for one code point, and a
/// surrogate pair of `\uXXXX` escapes for one code point past the basic
/// plane — and refuses a bare control character, which JSON requires to
/// be escaped.
pub open spec fn scan_chars(s: Seq<char>, i: int, acc: Seq<char>) -> Option<(Seq<char>, int)>
    decreases s.len() - i,
{
    if !(0 <= i < s.len()) {
        None
    } else if s[i] == '"' {
        Some((acc, i + 1))
    } else if s[i] == '\\' {
        if i + 1 < s.len() && s[i + 1] == 'u' {
            if hex4_at(s, i + 2) {
                let v = hex4_val(s, i + 2);
                if 0xd800 <= v < 0xdc00 {
                    if i + 8 < s.len() && s[i + 6] == '\\' && s[i + 7] == 'u' && hex4_at(s, i + 8)
                        && 0xdc00 <= hex4_val(s, i + 8) < 0xe000 {
                        scan_chars(
                            s,
                            i + 12,
                            acc.push((pair_val(v, hex4_val(s, i + 8)) as u32) as char),
                        )
                    } else {
                        None
                    }
                } else if 0xdc00 <= v < 0xe000 {
                    None
                } else {
                    scan_chars(s, i + 6, acc.push((v as u32) as char))
                }
            } else {
                None
            }
        } else if i + 1 < s.len() && esc_code(s[i + 1]) is Some {
            scan_chars(s, i + 2, acc.push(esc_code(s[i + 1])->0))
        } else {
            None
        }
    } else if (s[i] as u32) < 32 {
        None
    } else {
        scan_chars(s, i + 1, acc.push(s[i]))
    }
}

/// A quoted string field at position `i`.
pub open spec fn scan_quoted(s: Seq<char>, i: int) -> Option<(Seq<char>, int)> {
    if 0 <= i < s.len() && s[i] == '"' {
        scan_chars(s, i + 1, Seq::empty())
    } else {
        None
    }
}

/// A successful character scan moved forward and stayed in bounds.
proof fn lemma_scan_chars_advance(s: Seq<char>, i: int, acc: Seq<char>)
    ensures
        match scan_chars(s, i, acc) {
            Some((v, j)) => i < j <= s.len(),
            None => true,
        },
    decreases s.len() - i,
{
    if 0 <= i < s.len() && s[i] != '"' {
        if s[i] == '\\' {
            if i + 1 < s.len() && s[i + 1] == 'u' {
                if hex4_at(s, i + 2) {
                    let v = hex4_val(s, i + 2);
                    if 0xd800 <= v < 0xdc00 {
                        if i + 8 < s.len() && s[i + 6] == '\\' && s[i + 7] == 'u' && hex4_at(
                            s,
                            i + 8,
                        ) && 0xdc00 <= hex4_val(s, i + 8) < 0xe000 {
                            lemma_scan_chars_advance(
                                s,
                                i + 12,
                                acc.push((pair_val(v, hex4_val(s, i + 8)) as u32) as char),
                            );
                        }
                    } else if !(0xdc00 <= v < 0xe000) {
                        lemma_scan_chars_advance(s, i + 6, acc.push((v as u32) as char));
                    }
                }
            } else if i + 1 < s.len() && esc_code(s[i + 1]) is Some {
                lemma_scan_chars_advance(s, i + 2, acc.push(esc_code(s[i + 1])->0));
            }
        } else if !((s[i] as u32) < 32) {
            lemma_scan_chars_advance(s, i + 1, acc.push(s[i]));
        }
    }
}

/// A successful string scan moved forward and stayed in bounds.
proof fn lemma_scan_quoted_advance(s: Seq<char>, i: int)
    ensures
        match scan_quoted(s, i) {
            Some((v, j)) => i < j <= s.len(),
            None => true,
        },
{
    if 0 <= i < s.len() && s[i] == '"' {
        lemma_scan_chars_advance(s, i + 1, Seq::empty());
    }
}

/// The names of one row after its opening bracket, with the names read so
/// far: quoted strings separated by commas, ended by the closing bracket.
pub open spec fn scan_names(s: Seq<char>, i: int, acc: Seq<Seq<char>>) -> Option<
    (Seq<Seq<char>>, int),
>
    decreases s.len() - i,
    via scan_names_dec
{
    match scan_quoted(s, i) {
        None => None,
        Some((name, j)) => {
            let k = skip_ws(s, j);
            if k < s.len() && s[k] == ',' {
                scan_names(s, skip_ws(s, k + 1), acc.push(name))
            } else if k < s.len() && s[k] == ']' {
                Some((acc.push(name), k + 1))
            } else {
                None
            }
        },
    }
}

#[via_fn]
proof fn scan_names_dec(s: Seq<char>, i: int, acc: Seq<Seq<char>>) {
    lemma_scan_quoted_advance(s, i);
    match scan_quoted(s, i) {
        None => {},
        Some((name, j)) => {
            lemma_skip_ws_bounds(s, j);
            let k = skip_ws(s, j);
            if k < s.len() {
                lemma_skip_ws_bounds(s, k + 1);
            }
        },
    }
}

/// One row at position `i`: a bracketed, comma-separated list of names.
pub open spec fn scan_row(s: Seq<char>, i: int) -> Option<(Seq<Seq<char>>, int)> {
    if 0 <= i < s.len() && s[i] == '[' {
        let j = skip_ws(s, i + 1);
        if j < s.len() && s[j] == ']' {
            Some((Seq::empty(), j + 1))
        } else {
            scan_names(s, j, Seq::empty())
        }
    } else {
        None
    }
}

/// A successful name-list scan moved forward and stayed in bounds.
proof fn lemma_scan_names_advance(s: Seq<char>, i: int, acc: Seq<Seq<char>>)
    ensures
        match scan_names(s, i, acc) {
            Some((v, j)) => i < j <= s.len(),
            None => true,
        },
    decreases s.len() - i,
{
    lemma_scan_quoted_advance(s, i);
    match scan_quoted(s, i) {
        None => {},
        Some((name, j)) => {
            lemma_skip_ws_bounds(s, j);
            let k = skip_ws(s, j);
            if k < s.len() && s[k] == ',' {
                lemma_skip_ws_bounds(s, k + 1);
                lemma_scan_names_advance(s, skip_ws(s, k + 1), acc.push(name));
            }
        },
    }
}

/// A successful row scan moved forward and stayed in bounds.
proof fn lemma_scan_row_advance(s: Seq<char>, i: int)
    ensures
        match scan_row(s, i) {
            Some((v, j)) => i < j <= s.len(),
            None => true,
        },
{
    if 0 <= i < s.len() && s[i] == '[' {
        lemma_skip_ws_bounds(s, i + 1);
        lemma_scan_names_advance(s, skip_ws(s, i + 1), Seq::empty());
    }
}

/// The rows of the layer array after its opening bracket, with the rows
/// read so far.
pub open spec fn scan_rows(s: Seq<char>, i: int, acc: Seq<Seq<Seq<char>>>) -> Option<
    (Seq<Seq<Seq<char>>>, int),
>
    decreases s.len() - i,
    via scan_rows_dec
{
    match scan_row(s, i) {
        None => None,
        Some((row, j)) => {
            let k = skip_ws(s, j);
            if k < s.len() && s[k] == ',' {
                scan_rows(s, skip_ws(s, k + 1), acc.push(row))
            } else if k < s.len() && s[k] == ']' {
                Some((acc.push(row), k + 1))
            } else {
                None
            }
        },
    }
}

#[via_fn]
proof fn scan_rows_dec(s: Seq<char>, i: int, acc: Seq<Seq<Seq<char>>>) {
    lemma_scan_row_advance(s, i);
    match scan_row(s, i) {
        None => {},
        Some((row, j)) => {
            lemma_skip_ws_bounds(s, j);
            let k = skip_ws(s, j);
            if k < s.len() {
                lemma_skip_ws_bounds(s, k + 1);
            }
        },
    }
}

/// The layer array at position `i`: a bracketed, comma-separated list of
/// rows.
pub open spec fn scan_layers(s: Seq<char>, i: int) -> Option<(Seq<Seq<Seq<char>>>, int)> {
    if 0 <= i < s.len() && s[i] == '[' {
        let j = skip_ws(s, i + 1);
        if j < s.len() && s[j] == ']' {
            Some((Seq::empty(), j + 1))
        } else {
            scan_rows(s, j, Seq::empty())
        }
    } else {
        None
    }
}

/// One object member at position `i`: a quoted field name, a colon, and
/// a value of that field's type. The name must be one of the five the
/// document carries and must not have been seen before; the value is
/// read by the scanner for that field's type.
pub open spec fn scan_member(s: Seq<char>, i: int, acc: PartialDoc) -> Option<(PartialDoc, int)> {
    match scan_quoted(s, i) {
        None => None,
        Some((key, j)) => {
            let k = skip_ws(s, j);
            if !(k < s.len() && s[k] == ':') {
                None
            } else {
                let v = skip_ws(s, k + 1);
                if key == name_version() {
                    if acc.version is Some {
                        None
                    } else {
                        match scan_u8(s, v) {
                            None => None,
                            Some((x, e)) => Some((PartialDoc { version: Some(x), ..acc }, e)),
                        }
                    }
                } else if key == name_keyboard() {
                    if acc.keyboard is Some {
                        None
                    } else {
                        match scan_quoted(s, v) {
                            None => None,
                            Some((x, e)) => Some((PartialDoc { keyboard: Some(x), ..acc }, e)),
                        }
                    }
                } else if key == name_keymap() {
                    if acc.keymap is Some {
                        None
                    } else {
                        match scan_quoted(s, v) {
                            None => None,
                            Some((x, e)) => Some((PartialDoc { keymap: Some(x), ..acc }, e)),
                        }
                    }
                } else if key == name_layout() {
                    if acc.layout is Some {
                        None
                    } else {
                        match scan_quoted(s, v) {
                            None => None,
                            Some((x, e)) => Some((PartialDoc { layout: Some(x), ..acc }, e)),
                        }
                    }
                } else if key == name_layers() {
                    if acc.layers is Some {
                        None
                    } else {
                        match scan_layers(s, v) {
                            None => None,
                            Some((x, e)) => Some((PartialDoc { layers: Some(x), ..acc }, e)),
                        }
                    }
                } else {
                    None
                }
            }
        },
    }
}

/// A successful decimal scan moved forward and stayed in bounds.
proof fn lemma_scan_digits_advance(s: Seq<char>, i: int, acc: int)
    requires
        0 <= i <= s.len(),
    ensures
        i <= scan_digits(s, i, acc).1 <= s.len(),
    decreases s.len() - i,
{
    if i < s.len() && is_digit(s[i]) && acc * 10 + digit_val(s[i]) <= 255 {
        lemma_scan_digits_advance(s, i + 1, acc * 10 + digit_val(s[i]));
    }
}

/// A successful number scan moved forward and stayed in bounds.
proof fn lemma_scan_u8_advance(s: Seq<char>, i: int)
    ensures
        match scan_u8(s, i) {
            Some((v, j)) => i < j <= s.len(),
            None => true,
        },
{
    if 0 <= i < s.len() && is_digit(s[i]) && s[i] != '0' {
        lemma_scan_digits_advance(s, i + 1, digit_val(s[i]));
    }
}

/// A successful row-list scan moved forward and stayed in bounds.
proof fn lemma_scan_rows_advance(s: Seq<char>, i: int, acc: Seq<Seq<Seq<char>>>)
    ensures
        match scan_rows(s, i, acc) {
            Some((v, j)) => i < j <= s.len(),
            None => true,
        },
    decreases s.len() - i,
{
    lemma_scan_row_advance(s, i);
    match scan_row(s, i) {
        None => {},
        Some((row, j)) => {
            lemma_skip_ws_bounds(s, j);
            let k = skip_ws(s, j);
            if k < s.len() && s[k] == ',' {
                lemma_skip_ws_bounds(s, k + 1);
                lemma_scan_rows_advance(s, skip_ws(s, k + 1), acc.push(row));
            }
        },
    }
}

/// A successful layer-array scan moved forward and stayed in bounds.
proof fn lemma_scan_layers_advance(s: Seq<char>, i: int)
    ensures
        match scan_layers(s, i) {
            Some((v, j)) => i < j <= s.len(),
            None => true,
        },
{
    if 0 <= i < s.len() && s[i] == '[' {
        lemma_skip_ws_bounds(s, i + 1);
        lemma_scan_rows_advance(s, skip_ws(s, i + 1), Seq::empty());
    }
}

/// A successful member scan moved forward and stayed in bounds.
proof fn lemma_scan_member_advance(s: Seq<char>, i: int, acc: PartialDoc)
    ensures
        match scan_member(s, i, acc) {
            Some((a, j)) => i < j <= s.len(),
            None => true,
        },
{
    lemma_scan_quoted_advance(s, i);
    match scan_quoted(s, i) {
        None => {},
        Some((key, j)) => {
            lemma_skip_ws_bounds(s, j);
            let k = skip_ws(s, j);
            if k < s.len() && s[k] == ':' {
                lemma_skip_ws_bounds(s, k + 1);
                let v = skip_ws(s, k + 1);
                lemma_scan_u8_advance(s, v);
                lemma_scan_quoted_advance(s, v);
                lemma_scan_layers_advance(s, v);
            }
        },
    }
}

/// The members of an object after its opening brace: comma-separated,
/// ended by the closing brace. There must be at least one member.
pub open spec fn scan_members(s: Seq<char>, i: int, acc: PartialDoc) -> Option<(PartialDoc, int)>
    decreases s.len() - i
    via scan_members_dec
{
    match scan_member(s, i, acc) {
        None => None,
        Some((acc2, j)) => {
            let k = skip_ws(s, j);
            if k < s.len() && s[k] == ',' {
                scan_members(s, skip_ws(s, k + 1), acc2)
            } else if k < s.len() && s[k] == '}' {
                Some((acc2, k + 1))
            } else {
                None
            }
        },
    }
}

#[via_fn]
proof fn scan_members_dec(s: Seq<char>, i: int, acc: PartialDoc) {
    lemma_scan_member_advance(s, i, acc);
    match scan_member(s, i, acc) {
        None => {},
        Some((acc2, j)) => {
            lemma_skip_ws_bounds(s, j);
            let k = skip_ws(s, j);
            if k < s.len() {
                lemma_skip_ws_bounds(s, k + 1);
            }
        },
    }
}

/// Parse a whole document: one object carrying exactly the five fields,
/// in any order, with any insignificant whitespace between tokens and
/// nothing but whitespace after the closing brace.
pub open spec fn parse_document(s: Seq<char>) -> Option<DocModel> {
    let i0 = skip_ws(s, 0);
    if !(i0 < s.len() && s[i0] == '{') {
        None
    } else {
        match scan_members(s, skip_ws(s, i0 + 1), empty_doc()) {
            None => None,
            Some((acc, j)) => if skip_ws(s, j) == s.len() && acc.version is Some && acc.keyboard
                is Some && acc.keymap is Some && acc.layout is Some && acc.layers is Some {
                Some(
                    DocModel {
                        version: acc.version->0,
                        keyboard: acc.keyboard->0,
                        keymap: acc.keymap->0,
                        layout: acc.layout->0,
                        layers: acc.layers->0,
                    },
                )
            } else {
                None
            },
        }
    }
}

/// A string of ordinary characters — no quote, no backslash, nothing
/// below space — is written exactly as it is.
proof fn lemma_esc_plain(t: Seq<char>)
    requires
        forall|k: int|
            0 <= k < t.len() ==> #[trigger] t[k] != '"' && t[k] != '\\' && (t[k] as u32) >= 32,
    ensures
        esc(t) == t,
    decreases t.len(),
{
    if t.len() == 0 {
        assert(esc(t) =~= t);
    } else {
        assert(esc_char(t[0]) =~= seq![t[0]]);
        lemma_esc_plain(t.drop_first());
        assert(esc(t) =~= t);
    }
}

proof fn lemma_lit_facts()
    ensures
        lit_version().len() == 11,
        lit_keyboard().len() == 12,
        lit_keymap().len() == 10,
        lit_layout().len() == 10,
        lit_layers().len() == 10,
        name_version().len() == 7,
        name_keyboard().len() == 8,
        name_keymap().len() == 6,
        name_layout().len() == 6,
        name_layers().len() == 6,
        quoted(name_version()) == seq!['"'] + name_version() + seq!['"'],
        quoted(name_keyboard()) == seq!['"'] + name_keyboard() + seq!['"'],
        quoted(name_keymap()) == seq!['"'] + name_keymap() + seq!['"'],
        quoted(name_layout()) == seq!['"'] + name_layout() + seq!['"'],
        quoted(name_layers()) == seq!['"'] + name_layers() + seq!['"'],
        lit_version() == seq!['{'] + quoted(name_version()) + seq![':'],
        lit_keyboard() == seq![','] + quoted(name_keyboard()) + seq![':'],
        lit_keymap() == seq![','] + quoted(name_keymap()) + seq![':'],
        lit_layout() == seq![','] + quoted(name_layout()) + seq![':'],
        lit_layers() == seq![','] + quoted(name_layers()) + seq![':'],
        name_version() != name_keyboard(),
        name_version() != name_keymap(),
        name_version() != name_layout(),
        name_version() != name_layers(),
        name_keyboard() != name_keymap(),
        name_keyboard() != name_layout(),
        name_keyboard() != name_layers(),
        name_keymap() != name_layout(),
        name_keymap() != name_layers(),
        name_layout() != name_layers(),
{
    reveal_strlit("{\"version\":");
    reveal_strlit(",\"keyboard\":");
    reveal_strlit(",\"keymap\":");
    reveal_strlit(",\"layout\":");
    reveal_strlit(",\"layers\":");
    reveal_strlit("version");
    reveal_strlit("keyboard");
    reveal_strlit("keymap");
    reveal_strlit("layout");
    reveal_strlit("layers");
    assert(name_keymap()[0] == 'k');
    assert(name_layout()[0] == 'l');
    assert(name_layers()[0] == 'l');
    assert(name_layout()[3] == 'o');
    assert(name_layers()[3] == 'e');
    assert forall|k: int|
        0 <= k < name_version().len() implies #[trigger] name_version()[k] != '"'
        && name_version()[k] != '\\' && (name_version()[k] as u32) >= 32 by {}
    assert forall|k: int|
        0 <= k < name_keyboard().len() implies #[trigger] name_keyboard()[k] != '"'
        && name_keyboard()[k] != '\\' && (name_keyboard()[k] as u32) >= 32 by {}
    assert forall|k: int|
        0 <= k < name_keymap().len() implies #[trigger] name_keymap()[k] != '"'
        && name_keymap()[k] != '\\' && (name_keymap()[k] as u32) >= 32 by {}
    assert forall|k: int|
        0 <= k < name_layout().len() implies #[trigger] name_layout()[k] != '"'
        && name_layout()[k] != '\\' && (name_layout()[k] as u32) >= 32 by {}
    assert forall|k: int|
        0 <= k < name_layers().len() implies #[trigger] name_layers()[k] != '"'
        && name_layers()[k] != '\\' && (name_layers()[k] as u32) >= 32 by {}
    lemma_esc_plain(name_version());
    lemma_esc_plain(name_keyboard());
    lemma_esc_plain(name_keymap());
    lemma_esc_plain(name_layout());
    lemma_esc_plain(name_layers());
    assert(quoted(name_version()) =~= seq!['"'] + name_version() + seq!['"']);
    assert(quoted(name_keyboard()) =~= seq!['"'] + name_keyboard() + seq!['"']);
    assert(quoted(name_keymap()) =~= seq!['"'] + name_keymap() + seq!['"']);
    assert(quoted(name_layout()) =~= seq!['"'] + name_layout() + seq!['"']);
    assert(quoted(name_layers()) =~= seq!['"'] + name_layers() + seq!['"']);
    assert(lit_version() =~= seq!['{'] + quoted(name_version()) + seq![':']);
    assert(lit_keyboard() =~= seq![','] + quoted(name_keyboard()) + seq![':']);
    assert(lit_keymap() =~= seq![','] + quoted(name_keymap()) + seq![':']);
    assert(lit_layout() =~= seq![','] + quoted(name_layout()) + seq![':']);
    assert(lit_layers() =~= seq![','] + quoted(name_layers()) + seq![':']);
}

/// A token equality over a region of `s` gives every character of the
/// region, addressed by its absolute position./// A token equality over a region of `s` gives every character of the
/// region, addressed by its absolute position.
proof fn lemma_region_chars(s: Seq<char>, i: int, region: Seq<char>)
    requires
        0 <= i,
        i + region.len() <= s.len(),
        s.subrange(i, i + region.len()) == region,
    ensures
        forall|k: int| i <= k < i + region.len() ==> #[trigger] s[k] == region[k - i],
{
    assert forall|k: int| i <= k < i + region.len() implies #[trigger] s[k] == region[k - i] by {
        assert(s.subrange(i, i + region.len())[k - i] == s[k]);
    }
}

/// Reading back a spelled digit gives the digit.
proof fn lemma_digit_roundtrip(d: int)
    requires
        0 <= d <= 9,
    ensures
        digit_val(dec_digit(d)) == d,
        is_digit(dec_digit(d)),
        d != 0 ==> dec_digit(d) != '0',
{
}

/// Reading back a spelled hexadecimal digit gives the digit.
proof fn lemma_hex_roundtrip(d: int)
    requires
        0 <= d <= 15,
    ensures
        hex_val(hex_digit(d)) == d,
        is_hex(hex_digit(d)),
{
}

/// Reading back a spelled byte gives the byte, provided no digit follows
/// the spelling.
proof fn lemma_scan_u8_roundtrip(s: Seq<char>, i: int, v: u8)
    requires
        0 <= i,
        i + dec_u8(v).len() < s.len(),
        s.subrange(i, i + dec_u8(v).len()) == dec_u8(v),
        !is_digit(s[i + dec_u8(v).len()]),
    ensures
        scan_u8(s, i) == Some((v, i + dec_u8(v).len())),
{
    lemma_region_chars(s, i, dec_u8(v));
    if v < 10 {
        lemma_digit_roundtrip(v as int);
        assert(s[i] == dec_digit(v as int));
        if v == 0 {
        } else {
            assert(scan_digits(s, i + 1, v as int) == ((v, i + 1)));
            assert(scan_digits(s, i, 0) == ((v, i + 1)));
        }
    } else if v < 100 {
        let d1 = v as int / 10;
        let d2 = v as int % 10;
        lemma_digit_roundtrip(d1);
        lemma_digit_roundtrip(d2);
        assert(s[i] == dec_digit(d1));
        assert(s[i + 1] == dec_digit(d2));
        assert(d1 * 10 + d2 == v);
        assert(scan_digits(s, i + 2, v as int) == ((v, i + 2)));
        assert(scan_digits(s, i + 1, d1) == ((v, i + 2)));
        assert(scan_digits(s, i, 0) == ((v, i + 2)));
    } else {
        let d1 = v as int / 100;
        let d2 = (v as int / 10) % 10;
        let d3 = v as int % 10;
        lemma_digit_roundtrip(d1);
        lemma_digit_roundtrip(d2);
        lemma_digit_roundtrip(d3);
        assert(s[i] == dec_digit(d1));
        assert(s[i + 1] == dec_digit(d2));
        assert(s[i + 2] == dec_digit(d3));
        assert(d1 * 10 + d2 == v as int / 10);
        assert((v as int / 10) * 10 + d3 == v);
        assert(scan_digits(s, i + 3, v as int) == ((v, i + 3)));
        assert(scan_digits(s, i + 2, v as int / 10) == ((v, i + 3)));
        assert(scan_digits(s, i + 1, d1) == ((v, i + 3)));
        assert(scan_digits(s, i, 0) == ((v, i + 3)));
    }
}

/// Scanning an escaped string body finds exactly the original characters
/// and stops just past the closing quote.
proof fn lemma_scan_chars_roundtrip(s: Seq<char>, i: int, acc: Seq<char>, content: Seq<char>)
    requires
        0 <= i,
        i + esc(content).len() + 1 <= s.len(),
        s.subrange(i, i + esc(content).len() + 1) == esc(content) + seq!['"'],
    ensures
        scan_chars(s, i, acc) == Some((acc + content, i + esc(content).len() + 1)),
    decreases content.len(),
{
    let region = esc(content) + seq!['"'];
    lemma_region_chars(s, i, region);
    if content.len() == 0 {
        assert(s[i] == '"');
        assert(acc + content =~= acc);
    } else {
        let c = content[0];
        let rest = content.drop_first();
        assert(content =~= seq![c] + rest);
        assert(esc(content) == esc_char(c) + esc(rest));
        if c == '"' || c == '\\' {
            assert(s[i] == '\\');
            assert(s[i + 1] == c);
            assert(esc_code(c) == Some(c));
            assert(s.subrange(i + 2, i + 2 + esc(rest).len() + 1) =~= esc(rest) + seq!['"']);
            lemma_scan_chars_roundtrip(s, i + 2, acc.push(c), rest);
            assert(acc.push(c) + rest =~= acc + content);
        } else if (c as u32) < 32 {
            let v = (c as u32) as int;
            assert(0 <= v < 32);
            lemma_hex_roundtrip(v / 16);
            lemma_hex_roundtrip(v % 16);
            assert(s[i] == '\\');
            assert(s[i + 1] == 'u');
            assert(s[i + 2] == '0');
            assert(s[i + 3] == '0');
            assert(s[i + 4] == hex_digit(v / 16));
            assert(s[i + 5] == hex_digit(v % 16));
            assert(hex_val(s[i + 2]) == 0);
            assert(hex_val(s[i + 3]) == 0);
            assert(hex4_at(s, i + 2));
            assert(hex4_val(s, i + 2) == v);
            vstd::utf8::char_u32_cast(c, c as u32);
            assert((hex4_val(s, i + 2) as u32) as char == c);
            assert(s.subrange(i + 6, i + 6 + esc(rest).len() + 1) =~= esc(rest) + seq!['"']);
            lemma_scan_chars_roundtrip(s, i + 6, acc.push(c), rest);
            assert(acc.push(c) + rest =~= acc + content);
        } else {
            assert(s[i] == c);
            assert(s.subrange(i + 1, i + 1 + esc(rest).len() + 1) =~= esc(rest) + seq!['"']);
            lemma_scan_chars_roundtrip(s, i + 1, acc.push(c), rest);
            assert(acc.push(c) + rest =~= acc + content);
        }
    }
}

/// Scanning a quoted field finds exactly the original string.
proof fn lemma_scan_quoted_roundtrip(s: Seq<char>, i: int, content: Seq<char>)
    requires
        0 <= i,
        i + quoted(content).len() <= s.len(),
        s.subrange(i, i + quoted(content).len()) == quoted(content),
    ensures
        scan_quoted(s, i) == Some((content, i + quoted(content).len())),
{
    lemma_region_chars(s, i, quoted(content));
    assert(s[i] == '"');
    assert(s.subrange(i + 1, i + 1 + esc(content).len() + 1) =~= esc(content) + seq!['"']);
    lemma_scan_chars_roundtrip(s, i + 1, Seq::empty(), content);
    assert(Seq::empty() + content =~= content);
}

/// Scanning a serialized name list finds exactly the original names and
/// stops just past the closing bracket.
#[verifier::rlimit(100)]
proof fn lemma_scan_names_roundtrip(s: Seq<char>, i: int, acc: Seq<Seq<char>>, row: Seq<Seq<char>>)
    requires
        row.len() >= 1,
        0 <= i,
        i + ser_names(row).len() + 1 <= s.len(),
        s.subrange(i, i + ser_names(row).len() + 1) == ser_names(row) + seq![']'],
    ensures
        scan_names(s, i, acc) == Some((acc + row, i + ser_names(row).len() + 1)),
    decreases row.len(),
{
    let region = ser_names(row) + seq![']'];
    let name = row[0];
    let q = quoted(name).len() as int;
    if row.len() == 1 {
        assert(ser_names(row) == quoted(name));
        assert(scan_quoted(s, i) == Some((name, i + q))) by {
            lemma_region_chars(s, i, region);
            assert(s.subrange(i, i + q) =~= quoted(name));
            lemma_scan_quoted_roundtrip(s, i, name);
        }
        assert(s[i + q] == ']' && skip_ws(s, i + q) == i + q) by {
            lemma_region_chars(s, i, region);
        }
        assert(acc.push(name) =~= acc + row);
    } else {
        let rest = row.drop_first();
        assert(ser_names(row) == quoted(name) + seq![','] + ser_names(rest));
        assert(scan_quoted(s, i) == Some((name, i + q))) by {
            lemma_region_chars(s, i, region);
            assert(s.subrange(i, i + q) =~= quoted(name));
            lemma_scan_quoted_roundtrip(s, i, name);
        }
        assert(s[i + q] == ',' && skip_ws(s, i + q) == i + q && skip_ws(s, i + q + 1) == i + q
            + 1) by {
            lemma_region_chars(s, i, region);
            assert(ser_names(rest)[0] == quoted(rest[0])[0]);
            assert(s[i + q + 1] == '"');
        }
        assert(s.subrange(i + q + 1, i + q + 1 + ser_names(rest).len() + 1) =~= ser_names(rest)
            + seq![']']) by {
            lemma_region_chars(s, i, region);
        }
        lemma_scan_names_roundtrip(s, i + q + 1, acc.push(name), rest);
        assert(acc.push(name) + rest =~= acc + row);
    }
}

/// Scanning a serialized row finds exactly the original row.
proof fn lemma_scan_row_roundtrip(s: Seq<char>, i: int, row: Seq<Seq<char>>)
    requires
        0 <= i,
        i + ser_row(row).len() <= s.len(),
        s.subrange(i, i + ser_row(row).len()) == ser_row(row),
    ensures
        scan_row(s, i) == Some((row, i + ser_row(row).len())),
{
    lemma_region_chars(s, i, ser_row(row));
    assert(s[i] == '[');
    if row.len() == 0 {
        assert(s[i + 1] == ']');
        assert(skip_ws(s, i + 1) == i + 1);
        assert(row =~= Seq::<Seq<char>>::empty());
    } else {
        assert(ser_names(row)[0] == quoted(row[0])[0]);
        assert(s[i + 1] == '"');
        assert(skip_ws(s, i + 1) == i + 1);
        assert(s.subrange(i + 1, i + 1 + ser_names(row).len() + 1) =~= ser_names(row) + seq![']']);
        lemma_scan_names_roundtrip(s, i + 1, Seq::empty(), row);
        assert(Seq::empty() + row =~= row);
    }
}

/// Scanning a serialized row list finds exactly the original rows and
/// stops just past the closing bracket.
#[verifier::rlimit(100)]
proof fn lemma_scan_rows_roundtrip(
    s: Seq<char>,
    i: int,
    acc: Seq<Seq<Seq<char>>>,
    layers: Seq<Seq<Seq<char>>>,
)
    requires
        layers.len() >= 1,
        0 <= i,
        i + ser_rows(layers).len() + 1 <= s.len(),
        s.subrange(i, i + ser_rows(layers).len() + 1) == ser_rows(layers) + seq![']'],
    ensures
        scan_rows(s, i, acc) == Some((acc + layers, i + ser_rows(layers).len() + 1)),
    decreases layers.len(),
{
    let region = ser_rows(layers) + seq![']'];
    lemma_region_chars(s, i, region);
    let row = layers[0];
    let q = ser_row(row).len() as int;
    if layers.len() == 1 {
        assert(ser_rows(layers) == ser_row(row));
        assert(s.subrange(i, i + q) =~= ser_row(row));
        lemma_scan_row_roundtrip(s, i, row);
        assert(s[i + q] == ']');
        assert(skip_ws(s, i + q) == i + q);
        assert(acc.push(row) =~= acc + layers);
    } else {
        let rest = layers.drop_first();
        assert(ser_rows(layers) == ser_row(row) + seq![','] + ser_rows(rest));
        assert(s.subrange(i, i + q) =~= ser_row(row));
        lemma_scan_row_roundtrip(s, i, row);
        assert(s[i + q] == ',');
        assert(skip_ws(s, i + q) == i + q);
        assert(ser_rows(rest)[0] == ser_row(rest[0])[0]);
        assert(s[i + q + 1] == '[');
        assert(skip_ws(s, i + q + 1) == i + q + 1);
        assert(s.subrange(i + q + 1, i + q + 1 + ser_rows(rest).len() + 1) =~= ser_rows(rest)
            + seq![']']);
        lemma_scan_rows_roundtrip(s, i + q + 1, acc.push(row), rest);
        assert(acc.push(row) + rest =~= acc + layers);
    }
}

/// Scanning a serialized layer array finds exactly the original layers.
proof fn lemma_scan_layers_roundtrip(s: Seq<char>, i: int, layers: Seq<Seq<Seq<char>>>)
    requires
        0 <= i,
        i + ser_layers(layers).len() <= s.len(),
        s.subrange(i, i + ser_layers(layers).len()) == ser_layers(layers),
    ensures
        scan_layers(s, i) == Some((layers, i + ser_layers(layers).len())),
{
    lemma_region_chars(s, i, ser_layers(layers));
    assert(s[i] == '[');
    if layers.len() == 0 {
        assert(s[i + 1] == ']');
        assert(skip_ws(s, i + 1) == i + 1);
        assert(layers =~= Seq::<Seq<Seq<char>>>::empty());
    } else {
        assert(ser_rows(layers)[0] == ser_row(layers[0])[0]);
        assert(s[i + 1] == '[');
        assert(skip_ws(s, i + 1) == i + 1);
        assert(s.subrange(i + 1, i + 1 + ser_rows(layers).len() + 1) =~= ser_rows(layers)
            + seq![']']);
        lemma_scan_rows_roundtrip(s, i + 1, Seq::empty(), layers);
        assert(Seq::empty() + layers =~= layers);
    }
}

/// In canonical text, a comma followed by a quoted field name and a
/// colon is read as exactly that member header.
proof fn lemma_member_header(s: Seq<char>, i: int, lit: Seq<char>, name: Seq<char>)
    requires
        0 <= i,
        i + lit.len() < s.len(),
        s.subrange(i, i + lit.len()) == lit,
        lit == seq![','] + quoted(name) + seq![':'],
        !is_ws(s[i + lit.len()]),
    ensures
        s[i] == ',',
        skip_ws(s, i) == i,
        skip_ws(s, i + 1) == i + 1,
        scan_quoted(s, i + 1) == Some((name, i + 1 + quoted(name).len())),
        s[i + 1 + quoted(name).len()] == ':',
        skip_ws(s, i + 1 + quoted(name).len()) == i + 1 + quoted(name).len(),
        skip_ws(s, i + lit.len()) == i + lit.len(),
{
    lemma_region_chars(s, i, lit);
    assert(s[i] == ',');
    assert(s[i + 1] == '"');
    assert(s.subrange(i + 1, i + 1 + quoted(name).len()) =~= quoted(name));
    lemma_scan_quoted_roundtrip(s, i + 1, name);
    assert(s[i + 1 + quoted(name).len()] == ':');
}

/// The document's fields once the first `n` members of the canonical
/// text have been read, in the writer's order.
spec fn pd_step(doc: DocModel, n: int) -> PartialDoc {
    PartialDoc {
        version: if n >= 1 {
            Some(doc.version)
        } else {
            None
        },
        keyboard: if n >= 2 {
            Some(doc.keyboard)
        } else {
            None
        },
        keymap: if n >= 3 {
            Some(doc.keymap)
        } else {
            None
        },
        layout: if n >= 4 {
            Some(doc.layout)
        } else {
            None
        },
        layers: if n >= 5 {
            Some(doc.layers)
        } else {
            None
        },
    }
}

/// The opening brace and the version member of canonical text.
#[verifier::rlimit(100)]
proof fn lemma_member_version(doc: DocModel)
    ensures
        ({
            let s = ser_document(doc);
            let i1 = lit_version().len() as int;
            let i2 = i1 + dec_u8(doc.version).len();
            let i3 = i2 + lit_keyboard().len();
            let i4 = i3 + quoted(doc.keyboard).len();
            let i5 = i4 + lit_keymap().len();
            let i6 = i5 + quoted(doc.keymap).len();
            let i7 = i6 + lit_layout().len();
            let i8 = i7 + quoted(doc.layout).len();
            let i9 = i8 + lit_layers().len();
            let i10 = i9 + ser_layers(doc.layers).len();
            &&& s.len() == i10 + 1
            &&& s[0] == '{'
            &&& skip_ws(s, 0) == 0
            &&& skip_ws(s, 1) == 1
            &&& scan_member(s, 1, pd_step(doc, 0)) == Some((pd_step(doc, 1), i2))
            &&& s[i2] == ','
            &&& skip_ws(s, i2) == i2
            &&& skip_ws(s, i2 + 1) == i2 + 1
        }),
{
    lemma_lit_facts();
    let s = ser_document(doc);
    let a = lit_version();
    let b = dec_u8(doc.version);
    let c = lit_keyboard();
    let d = quoted(doc.keyboard);
    let e = lit_keymap();
    let f = quoted(doc.keymap);
    let g = lit_layout();
    let h = quoted(doc.layout);
    let j = lit_layers();
    let k = ser_layers(doc.layers);
    let i1 = a.len() as int;
    let i2 = i1 + b.len();
    let i3 = i2 + c.len();
    let i4 = i3 + d.len();
    let i5 = i4 + e.len();
    let i6 = i5 + f.len();
    let i7 = i6 + g.len();
    let i8 = i7 + h.len();
    let i9 = i8 + j.len();
    let i10 = i9 + k.len();
    assert(s.len() == i10 + 1);
    assert(s.subrange(0, i1) =~= a);
    assert(s.subrange(i1, i2) =~= b);
    assert(s.subrange(i2, i3) =~= c);
    assert(s.subrange(0, i1)[0] == s[0]);
    assert(s.subrange(0, i1)[1] == s[1]);
    assert(s[1] == '"');
    assert(s.subrange(1, 10) =~= s.subrange(0, i1).subrange(1, 10));
    assert(a.subrange(1, 10) =~= quoted(name_version()));
    lemma_scan_quoted_roundtrip(s, 1, name_version());
    assert(s.subrange(0, i1)[10] == s[10]);
    assert(s[10] == ':');
    assert(skip_ws(s, 10) == 10);
    assert(s.subrange(i1, i2)[0] == s[i1]);
    assert(s[i1] == b[0]);
    assert(!is_ws(s[i1]));
    assert(skip_ws(s, i1) == i1);
    assert(s.subrange(i2, i3)[0] == s[i2]);
    assert(s[i2] == ',');
    lemma_scan_u8_roundtrip(s, i1, doc.version);
    assert(s.subrange(i2, i3)[1] == s[i2 + 1]);
    assert(s[i2 + 1] == '"');
}

/// The keyboard, profile-name and layout members of canonical text.
#[verifier::rlimit(100)]
proof fn lemma_member_strings(doc: DocModel)
    ensures
        ({
            let s = ser_document(doc);
            let i1 = lit_version().len() as int;
            let i2 = i1 + dec_u8(doc.version).len();
            let i3 = i2 + lit_keyboard().len();
            let i4 = i3 + quoted(doc.keyboard).len();
            let i5 = i4 + lit_keymap().len();
            let i6 = i5 + quoted(doc.keymap).len();
            let i7 = i6 + lit_layout().len();
            let i8 = i7 + quoted(doc.layout).len();
            let i9 = i8 + lit_layers().len();
            let i10 = i9 + ser_layers(doc.layers).len();
            &&& scan_member(s, i2 + 1, pd_step(doc, 1)) == Some((pd_step(doc, 2), i4))
            &&& s[i4] == ','
            &&& skip_ws(s, i4) == i4
            &&& skip_ws(s, i4 + 1) == i4 + 1
            &&& scan_member(s, i4 + 1, pd_step(doc, 2)) == Some((pd_step(doc, 3), i6))
            &&& s[i6] == ','
            &&& skip_ws(s, i6) == i6
            &&& skip_ws(s, i6 + 1) == i6 + 1
            &&& scan_member(s, i6 + 1, pd_step(doc, 3)) == Some((pd_step(doc, 4), i8))
            &&& s[i8] == ','
            &&& skip_ws(s, i8) == i8
            &&& skip_ws(s, i8 + 1) == i8 + 1
        }),
{
    lemma_lit_facts();
    let s = ser_document(doc);
    let a = lit_version();
    let b = dec_u8(doc.version);
    let c = lit_keyboard();
    let d = quoted(doc.keyboard);
    let e = lit_keymap();
    let f = quoted(doc.keymap);
    let g = lit_layout();
    let h = quoted(doc.layout);
    let j = lit_layers();
    let k = ser_layers(doc.layers);
    let i1 = a.len() as int;
    let i2 = i1 + b.len();
    let i3 = i2 + c.len();
    let i4 = i3 + d.len();
    let i5 = i4 + e.len();
    let i6 = i5 + f.len();
    let i7 = i6 + g.len();
    let i8 = i7 + h.len();
    let i9 = i8 + j.len();
    let i10 = i9 + k.len();
    assert(s.len() == i10 + 1);
    assert(s.subrange(i2, i3) =~= c);
    assert(s.subrange(i3, i4) =~= d);
    assert(s.subrange(i4, i5) =~= e);
    assert(s.subrange(i5, i6) =~= f);
    assert(s.subrange(i6, i7) =~= g);
    assert(s.subrange(i7, i8) =~= h);
    assert(s.subrange(i8, i9) =~= j);
    assert(scan_member(s, i2 + 1, pd_step(doc, 1)) == Some((pd_step(doc, 2), i4)) && s[i4] == ','
        && skip_ws(s, i4) == i4 && skip_ws(s, i4 + 1) == i4 + 1) by {
        assert(s.subrange(i3, i4)[0] == s[i3]);
        assert(s[i3] == '"');
        lemma_member_header(s, i2, c, name_keyboard());
        lemma_scan_quoted_roundtrip(s, i3, doc.keyboard);
        assert(s.subrange(i4, i5)[0] == s[i4]);
        assert(s[i4] == ',');
        assert(s.subrange(i4, i5)[1] == s[i4 + 1]);
        assert(s[i4 + 1] == '"');
    }
    assert(scan_member(s, i4 + 1, pd_step(doc, 2)) == Some((pd_step(doc, 3), i6)) && s[i6] == ','
        && skip_ws(s, i6) == i6 && skip_ws(s, i6 + 1) == i6 + 1) by {
        assert(s.subrange(i5, i6)[0] == s[i5]);
        assert(s[i5] == '"');
        lemma_member_header(s, i4, e, name_keymap());
        lemma_scan_quoted_roundtrip(s, i5, doc.keymap);
        assert(s.subrange(i6, i7)[0] == s[i6]);
        assert(s[i6] == ',');
        assert(s.subrange(i6, i7)[1] == s[i6 + 1]);
        assert(s[i6 + 1] == '"');
    }
    assert(scan_member(s, i6 + 1, pd_step(doc, 3)) == Some((pd_step(doc, 4), i8)) && s[i8] == ','
        && skip_ws(s, i8) == i8 && skip_ws(s, i8 + 1) == i8 + 1) by {
        assert(s.subrange(i7, i8)[0] == s[i7]);
        assert(s[i7] == '"');
        lemma_member_header(s, i6, g, name_layout());
        lemma_scan_quoted_roundtrip(s, i7, doc.layout);
        assert(s.subrange(i8, i9)[0] == s[i8]);
        assert(s[i8] == ',');
        assert(s.subrange(i8, i9)[1] == s[i8 + 1]);
        assert(s[i8 + 1] == '"');
    }
}

/// The layer member and the closing brace of canonical text.
#[verifier::rlimit(100)]
proof fn lemma_member_layers(doc: DocModel)
    ensures
        ({
            let s = ser_document(doc);
            let i1 = lit_version().len() as int;
            let i2 = i1 + dec_u8(doc.version).len();
            let i3 = i2 + lit_keyboard().len();
            let i4 = i3 + quoted(doc.keyboard).len();
            let i5 = i4 + lit_keymap().len();
            let i6 = i5 + quoted(doc.keymap).len();
            let i7 = i6 + lit_layout().len();
            let i8 = i7 + quoted(doc.layout).len();
            let i9 = i8 + lit_layers().len();
            let i10 = i9 + ser_layers(doc.layers).len();
            &&& scan_member(s, i8 + 1, pd_step(doc, 4)) == Some((pd_step(doc, 5), i10))
            &&& s[i10] == '}'
            &&& skip_ws(s, i10) == i10
            &&& skip_ws(s, i10 + 1) == s.len()
        }),
{
    lemma_lit_facts();
    let s = ser_document(doc);
    let a = lit_version();
    let b = dec_u8(doc.version);
    let c = lit_keyboard();
    let d = quoted(doc.keyboard);
    let e = lit_keymap();
    let f = quoted(doc.keymap);
    let g = lit_layout();
    let h = quoted(doc.layout);
    let j = lit_layers();
    let k = ser_layers(doc.layers);
    let i1 = a.len() as int;
    let i2 = i1 + b.len();
    let i3 = i2 + c.len();
    let i4 = i3 + d.len();
    let i5 = i4 + e.len();
    let i6 = i5 + f.len();
    let i7 = i6 + g.len();
    let i8 = i7 + h.len();
    let i9 = i8 + j.len();
    let i10 = i9 + k.len();
    assert(s.len() == i10 + 1);
    assert(s.subrange(i8, i9) =~= j);
    assert(s.subrange(i9, i10) =~= k);
    assert(s.subrange(i9, i10)[0] == s[i9]);
    assert(s[i9] == '[');
    lemma_member_header(s, i8, j, name_layers());
    lemma_scan_layers_roundtrip(s, i9, doc.layers);
    assert(s[i10] == '}');
    assert(skip_ws(s, i10) == i10);
    assert(skip_ws(s, i10 + 1) == s.len());
}

/// How a canonical document text splits into its pieces: each member is
/// read as the field the writer put there, in the writer's order.
#[verifier::rlimit(100)]
proof fn lemma_document_pieces(doc: DocModel)
    ensures
        ({
            let s = ser_document(doc);
            let i10 = ser_document(doc).len() - 1;
            &&& s.len() >= 12
            &&& s[0] == '{'
            &&& skip_ws(s, 0) == 0
            &&& skip_ws(s, 1) == 1
            &&& scan_members(s, 1, empty_doc()) == Some((pd_step(doc, 5), i10 + 1))
            &&& skip_ws(s, i10 + 1) == s.len()
        }),
{
    lemma_lit_facts();
    lemma_member_version(doc);
    lemma_member_strings(doc);
    lemma_member_layers(doc);
    let s = ser_document(doc);
    let i1 = lit_version().len() as int;
    let i2 = i1 + dec_u8(doc.version).len();
    let i3 = i2 + lit_keyboard().len();
    let i4 = i3 + quoted(doc.keyboard).len();
    let i5 = i4 + lit_keymap().len();
    let i6 = i5 + quoted(doc.keymap).len();
    let i7 = i6 + lit_layout().len();
    let i8 = i7 + quoted(doc.layout).len();
    let i9 = i8 + lit_layers().len();
    let i10 = i9 + ser_layers(doc.layers).len();
    assert(scan_members(s, i8 + 1, pd_step(doc, 4)) == Some((pd_step(doc, 5), i10 + 1)));
    assert(scan_members(s, i6 + 1, pd_step(doc, 3)) == Some((pd_step(doc, 5), i10 + 1)));
    assert(scan_members(s, i4 + 1, pd_step(doc, 2)) == Some((pd_step(doc, 5), i10 + 1)));
    assert(scan_members(s, i2 + 1, pd_step(doc, 1)) == Some((pd_step(doc, 5), i10 + 1)));
    assert(scan_members(s, 1, pd_step(doc, 0)) == Some((pd_step(doc, 5), i10 + 1)));
    assert(pd_step(doc, 0) == empty_doc());
}

/// Document round trip: parsing a document's canonical text yields
/// exactly that document, whatever its fields hold.
pub proof fn lemma_document_roundtrip(doc: DocModel)
    ensures
        parse_document(ser_document(doc)) == Some(doc),
{
    lemma_document_pieces(doc);
    let s = ser_document(doc);
    assert(pd_step(doc, 5) == PartialDoc {
        version: Some(doc.version),
        keyboard: Some(doc.keyboard),
        keymap: Some(doc.keymap),
        layout: Some(doc.layout),
        layers: Some(doc.layers),
    });
    assert(parse_document(s) == Some(
        DocModel {
            version: doc.version,
            keyboard: doc.keyboard,
            keymap: doc.keymap,
            layout: doc.layout,
            layers: doc.layers,
        },
    ));
    assert(DocModel {
        version: doc.version,
        keyboard: doc.keyboard,
        keymap: doc.keymap,
        layout: doc.layout,
        layers: doc.layers,
    } == doc);
}

/// The value of a hexadecimal digit character, if it is one.
pub(crate) fn hex_val_exec(c: char) -> (r: Option<u8>)
    ensures
        match r {
            Some(d) => hex_val(c) == d && d <= 15,
            None => hex_val(c) == -1,
        },
{
    match c {
        '0' => Some(0),
        '1' => Some(1),
        '2' => Some(2),
        '3' => Some(3),
        '4' => Some(4),
        '5' => Some(5),
        '6' => Some(6),
        '7' => Some(7),
        '8' => Some(8),
        '9' => Some(9),
        'a' | 'A' => Some(10),
        'b' | 'B' => Some(11),
        'c' | 'C' => Some(12),
        'd' | 'D' => Some(13),
        'e' | 'E' => Some(14),
        'f' | 'F' => Some(15),
        _ => None,
    }
}

/// The lower-case hexadecimal digit character of a value below sixteen.
pub(crate) fn hex_digit_exec(d: u8) -> (r: char)
    requires
        d < 16,
    ensures
        r == hex_digit(d as int),
{
    match d {
        0 => '0',
        1 => '1',
        2 => '2',
        3 => '3',
        4 => '4',
        5 => '5',
        6 => '6',
        7 => '7',
        8 => '8',
        9 => '9',
        10 => 'a',
        11 => 'b',
        12 => 'c',
        13 => 'd',
        14 => 'e',
        _ => 'f',
    }
}

/// Whether `c` is insignificant whitespace.
pub(crate) fn is_ws_exec(c: char) -> (r: bool)
    ensures
        r == is_ws(c),
{
    c == ' ' || c == '\t' || c == '\n' || c == '\r'
}

/// Move past any insignificant whitespace.
pub(crate) fn skip_ws_exec(s: &Vec<char>, i: usize) -> (r: usize)
    requires
        i <= s@.len(),
    ensures
        r == skip_ws(s@, i as int),
        i <= r <= s@.len(),
{
    let mut at = i;
    while at < s.len() && is_ws_exec(s[at])
        invariant
            i <= at <= s@.len(),
            skip_ws(s@, i as int) == skip_ws(s@, at as int),
        decreases s@.len() - at,
    {
        at += 1;
    }
    at
}

/// Decimal digit value of a character, if it is a digit.
pub(crate) fn digit_val_exec(c: char) -> (r: Option<u8>)
    ensures
        match r {
            Some(d) => digit_val(c) == d && d <= 9,
            None => digit_val(c) == -1,
        },
{
    match c {
        '0' => Some(0),
        '1' => Some(1),
        '2' => Some(2),
        '3' => Some(3),
        '4' => Some(4),
        '5' => Some(5),
        '6' => Some(6),
        '7' => Some(7),
        '8' => Some(8),
        '9' => Some(9),
        _ => None,
    }
}

/// The digit character of a value below ten.
pub(crate) fn dec_digit_exec(d: u8) -> (r: char)
    requires
        d < 10,
    ensures
        r == dec_digit(d as int),
{
    match d {
        0 => '0',
        1 => '1',
        2 => '2',
        3 => '3',
        4 => '4',
        5 => '5',
        6 => '6',
        7 => '7',
        8 => '8',
        _ => '9',
    }
}

/// Read a canonical byte number at position `start`.
pub(crate) fn scan_u8_exec(s: &Vec<char>, start: usize) -> (r: Option<(u8, usize)>)
    ensures
        match r {
            Some((v, j)) => scan_u8(s@, start as int) == Some((v, j as int)) && start < j
                <= s@.len(),
            None => scan_u8(s@, start as int) is None,
        },
{
    if start >= s.len() {
        return None;
    }
    match digit_val_exec(s[start]) {
        None => None,
        Some(_) => {
            if s[start] == '0' {
                if start + 1 < s.len() && digit_val_exec(s[start + 1]).is_some() {
                    None
                } else {
                    Some((0, start + 1))
                }
            } else {
                let mut i: usize = start;
                let mut acc: u16 = 0;
                loop
                    invariant
                        start <= i <= s@.len(),
                        start < s@.len(),
                        is_digit(s@[start as int]),
                        s@[start as int] != '0',
                        acc <= 255,
                        i == start ==> acc == 0,
                        i > start ==> acc >= 1,
                        scan_digits(s@, start as int, 0) == scan_digits(s@, i as int, acc as int),
                    decreases s@.len() - i,
                {
                    if i < s.len() {
                        match digit_val_exec(s[i]) {
                            Some(d) => {
                                if acc * 10 + (d as u16) <= 255 {
                                    acc = acc * 10 + (d as u16);
                                    i += 1;
                                } else {
                                    return Some((acc as u8, i));
                                }
                            },
                            None => {
                                return Some((acc as u8, i));
                            },
                        }
                    } else {
                        return Some((acc as u8, i));
                    }
                }
            }
        },
    }
}

/// Read the four hex digits of a `\uXXXX` escape, whose first digit
/// would stand at position `at`.
fn read_hex4(s: &Vec<char>, at: usize) -> (r: Option<u32>)
    requires
        at + 4 <= s@.len(),
    ensures
        match r {
            Some(v) => hex4_at(s@, at as int) && v == hex4_val(s@, at as int) && v <= 0xffff,
            None => !hex4_at(s@, at as int),
        },
{
    proof {
        assert(s@.len() == s.len());
    }
    let h0 = hex_val_exec(s[at]);
    let h1 = hex_val_exec(s[at + 1]);
    let h2 = hex_val_exec(s[at + 2]);
    let h3 = hex_val_exec(s[at + 3]);
    match (h0, h1, h2, h3) {
        (Some(d0), Some(d1), Some(d2), Some(d3)) => {
            Some(((d0 as u32 * 16 + d1 as u32) * 16 + d2 as u32) * 16 + d3 as u32)
        },
        _ => None,
    }
}

/// Read the body of a quoted string, the opening quote already consumed.
fn scan_chars_exec(s: &Vec<char>, start: usize) -> (r: Option<(Vec<char>, usize)>)
    ensures
        match r {
            Some((v, j)) => scan_chars(s@, start as int, Seq::empty()) == Some((v@, j as int))
                && start < j <= s@.len(),
            None => scan_chars(s@, start as int, Seq::empty()) is None,
        },
{
    let mut i: usize = start;
    let mut acc: Vec<char> = Vec::new();
    loop
        invariant
            start <= i,
            scan_chars(s@, start as int, Seq::empty()) == scan_chars(s@, i as int, acc@),
        decreases s@.len() - i,
    {
        if i >= s.len() {
            return None;
        }
        let ch = s[i];
        if ch == '"' {
            return Some((acc, i + 1));
        }
        if ch == '\\' {
            if i + 1 >= s.len() {
                return None;
            }
            let ch2 = s[i + 1];
            if ch2 == 'u' {
                if s.len() - i < 6 {
                    return None;
                }
                let v: u32 = match read_hex4(s, i + 2) {
                    None => {
                        return None;
                    },
                    Some(v) => v,
                };
                if 0xd800 <= v && v < 0xdc00 {
                    // A high surrogate: only valid right before a low one.
                    if s.len() - i < 12 {
                        return None;
                    }
                    if s[i + 6] != '\\' || s[i + 7] != 'u' {
                        return None;
                    }
                    let lo: u32 = match read_hex4(s, i + 8) {
                        None => {
                            return None;
                        },
                        Some(lo) => lo,
                    };
                    if !(0xdc00 <= lo && lo < 0xe000) {
                        return None;
                    }
                    let combined: u32 = 0x10000 + (v - 0xd800) * 0x400 + (lo - 0xdc00);
                    proof {
                        assert(combined == pair_val(v as int, lo as int));
                    }
                    match char::from_u32(combined) {
                        Some(decoded) => {
                            acc.push(decoded);
                            i += 12;
                        },
                        None => {
                            proof {
                                assert(false);
                            }
                        },
                    }
                } else if 0xdc00 <= v && v < 0xe000 {
                    return None;
                } else {
                    match char::from_u32(v) {
                        Some(decoded) => {
                            acc.push(decoded);
                            i += 6;
                        },
                        None => {
                            proof {
                                assert(false);
                            }
                        },
                    }
                }
            } else {
                match esc_code_exec(ch2) {
                    Some(decoded) => {
                        acc.push(decoded);
                        i += 2;
                    },
                    None => {
                        return None;
                    },
                }
            }
        } else if (ch as u32) < 32 {
            return None;
        } else {
            acc.push(ch);
            i += 1;
        }
    }
}

/// The character a single-letter escape stands for, if any.
fn esc_code_exec(c: char) -> (r: Option<char>)
    ensures
        r == esc_code(c),
{
    match c {
        '"' => Some('"'),
        '\\' => Some('\\'),
        '/' => Some('/'),
        'b' => Some('\u{8}'),
        'f' => Some('\u{c}'),
        'n' => Some('\n'),
        'r' => Some('\r'),
        't' => Some('\t'),
        _ => None,
    }
}

/// Read a quoted string field at position `i`.
pub(crate) fn scan_quoted_exec(s: &Vec<char>, i: usize) -> (r: Option<(Vec<char>, usize)>)
    ensures
        match r {
            Some((v, j)) => scan_quoted(s@, i as int) == Some((v@, j as int)) && i < j <= s@.len(),
            None => scan_quoted(s@, i as int) is None,
        },
{
    if i < s.len() && s[i] == '"' {
        scan_chars_exec(s, i + 1)
    } else {
        None
    }
}

/// Read a bracketed name list at position `i`.
pub(crate) fn scan_row_exec(s: &Vec<char>, i: usize) -> (r: Option<(Vec<String>, usize)>)
    ensures
        match r {
            Some((row, j)) => scan_row(s@, i as int) == Some((row.deep_view(), j as int)) && i < j
                <= s@.len(),
            None => scan_row(s@, i as int) is None,
        },
{
    if !(i < s.len() && s[i] == '[') {
        return None;
    }
    let head = skip_ws_exec(s, i + 1);
    if head < s.len() && s[head] == ']' {
        let row: Vec<String> = Vec::new();
        proof {
            assert(row.deep_view() =~= Seq::<Seq<char>>::empty());
        }
        return Some((row, head + 1));
    }
    let mut at: usize = head;
    let mut names: Vec<String> = Vec::new();
    proof {
        assert(names.deep_view() =~= Seq::<Seq<char>>::empty());
    }
    loop
        invariant
            i < head <= at,
            at <= s@.len(),
            scan_names(s@, head as int, Seq::empty()) == scan_names(
                s@,
                at as int,
                names.deep_view(),
            ),
            scan_row(s@, i as int) == scan_names(s@, head as int, Seq::empty()),
        decreases s@.len() - at,
    {
        match scan_quoted_exec(s, at) {
            None => {
                return None;
            },
            Some((name, j)) => {
                let k = skip_ws_exec(s, j);
                if k < s.len() {
                    let ch = s[k];
                    let text = crate::text::string_from_chars(&name);
                    if ch == ',' {
                        let ghost before = names.deep_view();
                        names.push(text);
                        proof {
                            assert(names.deep_view() =~= before.push(name@));
                        }
                        at = skip_ws_exec(s, k + 1);
                    } else if ch == ']' {
                        let ghost before = names.deep_view();
                        names.push(text);
                        proof {
                            assert(names.deep_view() =~= before.push(name@));
                        }
                        return Some((names, k + 1));
                    } else {
                        return None;
                    }
                } else {
                    return None;
                }
            },
        }
    }
}

/// Read the bracketed layer array at position `i`.
pub(crate) fn scan_layers_exec(s: &Vec<char>, i: usize) -> (r: Option<(Vec<Vec<String>>, usize)>)
    ensures
        match r {
            Some((layers, j)) => scan_layers(s@, i as int) == Some((layers.deep_view(), j as int))
                && i < j <= s@.len(),
            None => scan_layers(s@, i as int) is None,
        },
{
    if !(i < s.len() && s[i] == '[') {
        return None;
    }
    let head = skip_ws_exec(s, i + 1);
    if head < s.len() && s[head] == ']' {
        let layers: Vec<Vec<String>> = Vec::new();
        proof {
            assert(layers.deep_view() =~= Seq::<Seq<Seq<char>>>::empty());
        }
        return Some((layers, head + 1));
    }
    let mut at: usize = head;
    let mut layers: Vec<Vec<String>> = Vec::new();
    proof {
        assert(layers.deep_view() =~= Seq::<Seq<Seq<char>>>::empty());
    }
    loop
        invariant
            i < head <= at,
            at <= s@.len(),
            scan_rows(s@, head as int, Seq::empty()) == scan_rows(
                s@,
                at as int,
                layers.deep_view(),
            ),
            scan_layers(s@, i as int) == scan_rows(s@, head as int, Seq::empty()),
        decreases s@.len() - at,
    {
        match scan_row_exec(s, at) {
            None => {
                return None;
            },
            Some((row, j)) => {
                let k = skip_ws_exec(s, j);
                if k < s.len() {
                    let ch = s[k];
                    if ch == ',' {
                        let ghost before = layers.deep_view();
                        layers.push(row);
                        proof {
                            assert(layers.deep_view() =~= before.push(row.deep_view()));
                        }
                        at = skip_ws_exec(s, k + 1);
                    } else if ch == ']' {
                        let ghost before = layers.deep_view();
                        layers.push(row);
                        proof {
                            assert(layers.deep_view() =~= before.push(row.deep_view()));
                        }
                        return Some((layers, k + 1));
                    } else {
                        return None;
                    }
                } else {
                    return None;
                }
            },
        }
    }
}

/// Escaping distributes over appending one character.
pub(crate) proof fn lemma_esc_push(t: Seq<char>, c: char)
    ensures
        esc(t.push(c)) == esc(t) + esc_char(c),
    decreases t.len(),
{
    if t.len() == 0 {
        assert(t.push(c).drop_first() =~= t);
        assert(esc(t.push(c)) =~= esc(t) + esc_char(c));
    } else {
        assert(t.push(c).drop_first() =~= t.drop_first().push(c));
        lemma_esc_push(t.drop_first(), c);
        assert(esc(t.push(c)) =~= esc(t) + esc_char(c));
    }
}

/// Serializing a name list distributes over appending one name.
pub(crate) proof fn lemma_ser_names_push(row: Seq<Seq<char>>, name: Seq<char>)
    ensures
        ser_names(row.push(name)) == if row.len() == 0 {
            quoted(name)
        } else {
            ser_names(row) + seq![','] + quoted(name)
        },
    decreases row.len(),
{
    if row.len() == 0 {
        assert(row.push(name)[0] == name);
    } else {
        assert(row.push(name).drop_first() =~= row.drop_first().push(name));
        lemma_ser_names_push(row.drop_first(), name);
        if row.len() == 1 {
            assert(ser_names(row.push(name)) =~= ser_names(row) + seq![','] + quoted(name));
        } else {
            assert(ser_names(row.push(name)) =~= ser_names(row) + seq![','] + quoted(name));
        }
    }
}

/// Serializing a row list distributes over appending one row.
pub(crate) proof fn lemma_ser_rows_push(layers: Seq<Seq<Seq<char>>>, row: Seq<Seq<char>>)
    ensures
        ser_rows(layers.push(row)) == if layers.len() == 0 {
            ser_row(row)
        } else {
            ser_rows(layers) + seq![','] + ser_row(row)
        },
    decreases layers.len(),
{
    if layers.len() == 0 {
        assert(layers.push(row)[0] == row);
    } else {
        assert(layers.push(row).drop_first() =~= layers.drop_first().push(row));
        lemma_ser_rows_push(layers.drop_first(), row);
        assert(ser_rows(layers.push(row)) =~= ser_rows(layers) + seq![','] + ser_row(row));
    }
}

/// Append the characters of `lit` to `out`.
pub(crate) fn append_str(out: &mut Vec<char>, lit: &str)
    ensures
        final(out)@ == old(out)@ + lit@,
{
    let mut cs = crate::text::to_chars(lit);
    out.append(&mut cs);
}

/// Append the canonical decimal spelling of `v` to `out`.
pub(crate) fn append_u8_dec(out: &mut Vec<char>, v: u8)
    ensures
        final(out)@ == old(out)@ + dec_u8(v),
{
    let ghost start = out@;
    if v >= 100 {
        out.push(dec_digit_exec(v / 100));
        out.push(dec_digit_exec((v / 10) % 10));
        out.push(dec_digit_exec(v % 10));
        proof {
            assert(out@ =~= start + dec_u8(v));
        }
    } else if v >= 10 {
        out.push(dec_digit_exec(v / 10));
        out.push(dec_digit_exec(v % 10));
        proof {
            assert(out@ =~= start + dec_u8(v));
        }
    } else {
        out.push(dec_digit_exec(v));
        proof {
            assert(out@ =~= start + dec_u8(v));
        }
    }
}

/// Append `text` as a quoted, escaped string field to `out`.
pub(crate) fn append_quoted(out: &mut Vec<char>, text: &str)
    ensures
        final(out)@ == old(out)@ + quoted(text@),
{
    let ghost start = out@;
    let cs = crate::text::to_chars(text);
    out.push('"');
    let mut k: usize = 0;
    proof {
        assert(esc(cs@.take(0)) =~= Seq::<char>::empty());
        assert(out@ =~= start + seq!['"'] + esc(cs@.take(0)));
    }
    while k < cs.len()
        invariant
            cs@ == text@,
            k <= cs@.len(),
            out@ == start + seq!['"'] + esc(cs@.take(k as int)),
        decreases cs@.len() - k,
    {
        let c = cs[k];
        let ghost sofar = out@;
        if c == '"' || c == '\\' {
            out.push('\\');
            out.push(c);
        } else if (c as u32) < 32 {
            let v = c as u32;
            out.push('\\');
            out.push('u');
            out.push('0');
            out.push('0');
            out.push(hex_digit_exec((v / 16) as u8));
            out.push(hex_digit_exec((v % 16) as u8));
        } else {
            out.push(c);
        }
        proof {
            assert(out@ =~= sofar + esc_char(c));
            assert(cs@.take(k + 1) =~= cs@.take(k as int).push(c));
            lemma_esc_push(cs@.take(k as int), c);
            assert(out@ =~= start + seq!['"'] + esc(cs@.take(k + 1)));
        }
        k += 1;
    }
    out.push('"');
    proof {
        assert(cs@.take(cs@.len() as int) =~= cs@);
        assert(out@ =~= start + quoted(text@));
    }
}

} // verus!
