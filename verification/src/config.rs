//! The keymap document: the portable, serializable form of a keymap.
//!
//! A document carries a version number, a keyboard identifier, a profile
//! name, a layout name, and the layers as symbolic key names resolved
//! through the keycode table — never raw numbers, so a document survives
//! keycode renumbering across firmware revisions. Documents align 1:1
//! with the raw keymap's layers and keys at encode and decode time.

use vstd::prelude::*;

use crate::json;
use crate::json::DocModel;
use crate::keycodes;
use crate::stream::rows_of;
use crate::text;

verus! {

/// Error: document text does not parse as a keymap document — wrong
/// shape, a missing, repeated, unknown or mistyped field, or a
/// malformed escape.
#[derive(Clone, Copy, PartialEq, Eq, Structural, Debug)]
pub struct SerializationError;

/// The symbolic names of a raw keymap, layer by layer, key by key.
pub open spec fn layers_spec(km: Seq<Seq<u8>>) -> Seq<Seq<Seq<char>>> {
    Seq::new(
        km.len(),
        |i: int| Seq::new(km[i].len(), |j: int| keycodes::key_name(km[i][j] as int)),
    )
}

/// The keycode of a symbolic name; a name the table does not hold falls
/// back to keycode 0, the "no key" code.
pub open spec fn code_or_zero(name: Seq<char>) -> u8 {
    match keycodes::key_code(name) {
        Some(c) => c,
        None => 0,
    }
}

/// The raw keycodes of a document's layers, name by name.
pub open spec fn codes_spec(layers: Seq<Seq<Seq<char>>>) -> Seq<Seq<u8>> {
    Seq::new(
        layers.len(),
        |i: int| Seq::new(layers[i].len(), |j: int| code_or_zero(layers[i][j])),
    )
}

/// A raw keymap survives the trip through symbolic names: resolving
/// every keycode to its name and every name back to its code gives the
/// original keymap, layer for layer and key for key.
pub proof fn lemma_keymap_names_roundtrip(km: Seq<Seq<u8>>)
    ensures
        codes_spec(layers_spec(km)) == km,
{
    assert forall|i: int| 0 <= i < km.len() implies codes_spec(layers_spec(km))[i] =~= km[i] by {
        assert forall|j: int| 0 <= j < km[i].len() implies codes_spec(layers_spec(km))[i][j]
            == km[i][j] by {
            keycodes::lemma_name_code_roundtrip(km[i][j]);
        }
    }
    assert(codes_spec(layers_spec(km)) =~~= km);
}

/// The portable, serializable form of a keymap, with its metadata.
pub struct Keymap {
    pub version: u8,
    pub keyboard: String,
    pub keymap: String,
    pub layout: String,
    pub layers: Vec<Vec<String>>,
}

impl View for Keymap {
    type V = DocModel;

    open spec fn view(&self) -> DocModel {
        DocModel {
            version: self.version,
            keyboard: self.keyboard@,
            keymap: self.keymap@,
            layout: self.layout@,
            layers: self.layers.deep_view(),
        }
    }
}

/// Resolve a raw keymap into layers of symbolic names, elementwise
/// through the keycode table.
pub fn layers_from_keymap(keymap: Vec<Vec<u8>>) -> (r: Vec<Vec<String>>)
    ensures
        r.deep_view() == layers_spec(rows_of(keymap@)),
{
    let ghost km = rows_of(keymap@);
    let mut r: Vec<Vec<String>> = Vec::new();
    let mut i: usize = 0;
    proof {
        assert(r.deep_view() =~~= layers_spec(km).take(0));
    }
    while i < keymap.len()
        invariant
            km == rows_of(keymap@),
            i <= km.len(),
            r.deep_view() == layers_spec(km).take(i as int),
        decreases km.len() - i,
    {
        let mut row: Vec<String> = Vec::new();
        let mut j: usize = 0;
        proof {
            assert(row.deep_view() =~~= layers_spec(km)[i as int].take(0));
        }
        while j < keymap[i].len()
            invariant
                km == rows_of(keymap@),
                i < km.len(),
                j <= km[i as int].len(),
                row.deep_view() == layers_spec(km)[i as int].take(j as int),
            decreases km[i as int].len() - j,
        {
            let ghost prev = row.deep_view();
            row.push(keycodes::name_for(keymap[i][j]).to_owned());
            proof {
                assert(prev.len() == row@.len() - 1);
                assert(layers_spec(km)[i as int].take(j as int).len() == j);
                assert(row.deep_view() =~~= layers_spec(km)[i as int].take(j + 1));
            }
            j += 1;
        }
        let ghost prevr = r.deep_view();
        r.push(row);
        proof {
            assert(prevr.len() == r@.len() - 1);
            assert(layers_spec(km).take(i as int).len() == i);
            assert(layers_spec(km)[i as int].take(km[i as int].len() as int) =~~= layers_spec(
                km,
            )[i as int]);
            assert(r.deep_view() =~~= layers_spec(km).take(i + 1));
        }
        i += 1;
    }
    proof {
        assert(layers_spec(km).take(km.len() as int) =~~= layers_spec(km));
    }
    r
}

/// Resolve a document's layers of symbolic names back into raw keycodes,
/// elementwise; a name without a table entry becomes keycode 0.
pub fn keymap_from_layers(layers: Vec<Vec<String>>) -> (r: Vec<Vec<u8>>)
    ensures
        rows_of(r@) == codes_spec(layers.deep_view()),
{
    let ghost dv = layers.deep_view();
    let mut r: Vec<Vec<u8>> = Vec::new();
    let mut i: usize = 0;
    proof {
        assert(rows_of(r@) =~~= codes_spec(dv).take(0));
    }
    while i < layers.len()
        invariant
            dv == layers.deep_view(),
            dv.len() == layers@.len(),
            i <= layers@.len(),
            rows_of(r@) == codes_spec(dv).take(i as int),
        decreases layers@.len() - i,
    {
        let mut row: Vec<u8> = Vec::new();
        let mut j: usize = 0;
        proof {
            assert(row@ =~= codes_spec(dv)[i as int].take(0));
        }
        while j < layers[i].len()
            invariant
                dv == layers.deep_view(),
                dv.len() == layers@.len(),
                i < layers@.len(),
                dv[i as int].len() == layers@[i as int]@.len(),
                j <= layers@[i as int]@.len(),
                row@ == codes_spec(dv)[i as int].take(j as int),
            decreases layers@[i as int]@.len() - j,
        {
            let code = match keycodes::code_for(layers[i][j].as_str()) {
                Some(c) => c,
                None => 0,
            };
            row.push(code);
            proof {
                assert(dv[i as int][j as int] == layers@[i as int]@[j as int]@);
                assert(row@ =~= codes_spec(dv)[i as int].take(j + 1));
            }
            j += 1;
        }
        let ghost prevr = rows_of(r@);
        r.push(row);
        proof {
            assert(prevr.len() == r@.len() - 1);
            assert(codes_spec(dv).take(i as int).len() == i);
            assert(codes_spec(dv)[i as int].take(dv[i as int].len() as int) =~= codes_spec(
                dv,
            )[i as int]);
            assert(rows_of(r@) =~~= codes_spec(dv).take(i + 1));
        }
        i += 1;
    }
    proof {
        assert(codes_spec(dv).take(dv.len() as int) =~~= codes_spec(dv));
    }
    r
}

/// The text of an optional string field, for relating the parse loop's
/// state to the member scanner's.
pub open spec fn opt_text(o: Option<String>) -> Option<Seq<char>> {
    match o {
        Some(x) => Some(x@),
        None => None,
    }
}

/// The layers of an optional layer field.
pub open spec fn opt_layers(o: Option<Vec<Vec<String>>>) -> Option<Seq<Seq<Seq<char>>>> {
    match o {
        Some(x) => Some(x.deep_view()),
        None => None,
    }
}

/// The fields collected so far while decoding, as the member scanner
/// sees them.
pub open spec fn partial_of(
    version: Option<u8>,
    keyboard: &Option<String>,
    keymap: &Option<String>,
    layout: &Option<String>,
    layers: &Option<Vec<Vec<String>>>,
) -> json::PartialDoc {
    json::PartialDoc {
        version,
        keyboard: opt_text(*keyboard),
        keymap: opt_text(*keymap),
        layout: opt_text(*layout),
        layers: opt_layers(*layers),
    }
}

/// Append one row of names as a serialized array.
fn append_row(out: &mut Vec<char>, row: &Vec<String>)
    ensures
        final(out)@ == old(out)@ + json::ser_row(row.deep_view()),
{
    let ghost start = out@;
    let ghost dv = row.deep_view();
    out.push('[');
    let mut j: usize = 0;
    proof {
        assert(json::ser_names(dv.take(0)) =~= Seq::<char>::empty());
        assert(out@ =~= start + seq!['['] + json::ser_names(dv.take(0)));
    }
    while j < row.len()
        invariant
            dv == row.deep_view(),
            dv.len() == row@.len(),
            j <= row@.len(),
            out@ == start + seq!['['] + json::ser_names(dv.take(j as int)),
        decreases row@.len() - j,
    {
        if j > 0 {
            out.push(',');
        }
        json::append_quoted(out, row[j].as_str());
        proof {
            assert(dv[j as int] == row@[j as int]@);
            assert(dv.take(j + 1) =~~= dv.take(j as int).push(dv[j as int]));
            json::lemma_ser_names_push(dv.take(j as int), dv[j as int]);
            assert(out@ =~= start + seq!['['] + json::ser_names(dv.take(j + 1)));
        }
        j += 1;
    }
    out.push(']');
    proof {
        assert(dv.take(dv.len() as int) =~~= dv);
        assert(out@ =~= start + json::ser_row(dv));
    }
}

/// Append the whole layer array in serialized form.
fn append_layers(out: &mut Vec<char>, layers: &Vec<Vec<String>>)
    ensures
        final(out)@ == old(out)@ + json::ser_layers(layers.deep_view()),
{
    let ghost start = out@;
    let ghost dv = layers.deep_view();
    out.push('[');
    let mut i: usize = 0;
    proof {
        assert(json::ser_rows(dv.take(0)) =~= Seq::<char>::empty());
        assert(out@ =~= start + seq!['['] + json::ser_rows(dv.take(0)));
    }
    while i < layers.len()
        invariant
            dv == layers.deep_view(),
            dv.len() == layers@.len(),
            i <= layers@.len(),
            out@ == start + seq!['['] + json::ser_rows(dv.take(i as int)),
        decreases layers@.len() - i,
    {
        if i > 0 {
            out.push(',');
        }
        append_row(out, &layers[i]);
        proof {
            assert(dv[i as int] =~~= layers@[i as int].deep_view());
            assert(dv.take(i + 1) =~~= dv.take(i as int).push(dv[i as int]));
            json::lemma_ser_rows_push(dv.take(i as int), dv[i as int]);
            assert(out@ =~= start + seq!['['] + json::ser_rows(dv.take(i + 1)));
        }
        i += 1;
    }
    out.push(']');
    proof {
        assert(dv.take(dv.len() as int) =~~= dv);
        assert(out@ =~= start + json::ser_layers(dv));
    }
}

impl Keymap {
    /// A fresh version-1 document for a raw keymap, under the default
    /// profile and layout names.
    pub fn new(keyboard: String, keymap: Vec<Vec<u8>>) -> (r: Keymap)
        ensures
            r@.version == 1,
            r@.keyboard == keyboard@,
            r@.keymap == "default"@,
            r@.layout == "LAYOUT"@,
            r@.layers == layers_spec(rows_of(keymap@)),
    {
        Keymap {
            version: 1,
            keyboard,
            keymap: "default".to_owned(),
            layout: "LAYOUT".to_owned(),
            layers: layers_from_keymap(keymap),
        }
    }

    /// Serialize into the canonical document text.
    pub fn encode(&self) -> (r: String)
        ensures
            r@ == json::ser_document(self@),
    {
        let mut out: Vec<char> = Vec::new();
        json::append_str(&mut out, "{\"version\":");
        json::append_u8_dec(&mut out, self.version);
        json::append_str(&mut out, ",\"keyboard\":");
        json::append_quoted(&mut out, self.keyboard.as_str());
        json::append_str(&mut out, ",\"keymap\":");
        json::append_quoted(&mut out, self.keymap.as_str());
        json::append_str(&mut out, ",\"layout\":");
        json::append_quoted(&mut out, self.layout.as_str());
        json::append_str(&mut out, ",\"layers\":");
        append_layers(&mut out, &self.layers);
        out.push('}');
        proof {
            assert(out@ =~= json::ser_document(self@));
        }
        text::string_from_chars(&out)
    }

    /// Parse document text: one JSON object carrying exactly the five
    /// fields, in any order, with any insignificant whitespace between
    /// tokens and any of JSON's string escapes. Anything else — a
    /// missing, repeated, unknown or mistyped field included — is a
    /// [`SerializationError`].
    pub fn decode(text: &str) -> (r: Result<Keymap, SerializationError>)
        ensures
            match r {
                Ok(doc) => json::parse_document(text@) == Some(doc@),
                Err(_) => json::parse_document(text@) is None,
            },
    {
        let s = text::to_chars(text);
        let i0 = json::skip_ws_exec(&s, 0);
        if !(i0 < s.len() && s[i0] == '{') {
            return Err(SerializationError);
        }
        let mut at = json::skip_ws_exec(&s, i0 + 1);
        let ghost start = at as int;
        let mut version: Option<u8> = None;
        let mut keyboard: Option<String> = None;
        let mut keymap: Option<String> = None;
        let mut layout: Option<String> = None;
        let mut layers: Option<Vec<Vec<String>>> = None;
        loop
            invariant
                s@ == text@,
                json::skip_ws(s@, 0) == i0 as int,
                i0 < s@.len(),
                s@[i0 as int] == '{',
                start == json::skip_ws(s@, i0 as int + 1),
                at <= s@.len(),
                json::scan_members(s@, start, json::empty_doc()) == json::scan_members(
                    s@,
                    at as int,
                    partial_of(version, &keyboard, &keymap, &layout, &layers),
                ),
            decreases s@.len() - at,
        {
            let ghost pd = partial_of(version, &keyboard, &keymap, &layout, &layers);
            let (key, j) = match json::scan_quoted_exec(&s, at) {
                None => {
                    return Err(SerializationError);
                },
                Some(p) => p,
            };
            let k = json::skip_ws_exec(&s, j);
            if !(k < s.len() && s[k] == ':') {
                return Err(SerializationError);
            }
            let v = json::skip_ws_exec(&s, k + 1);
            let key_text = text::string_from_chars(&key);
            let at2: usize;
            if key_text == "version".to_owned() {
                if version.is_some() {
                    return Err(SerializationError);
                }
                let (x, e) = match json::scan_u8_exec(&s, v) {
                    None => {
                        return Err(SerializationError);
                    },
                    Some(p) => p,
                };
                version = Some(x);
                at2 = e;
            } else if key_text == "keyboard".to_owned() {
                if keyboard.is_some() {
                    return Err(SerializationError);
                }
                let (x, e) = match json::scan_quoted_exec(&s, v) {
                    None => {
                        return Err(SerializationError);
                    },
                    Some(p) => p,
                };
                keyboard = Some(text::string_from_chars(&x));
                at2 = e;
            } else if key_text == "keymap".to_owned() {
                if keymap.is_some() {
                    return Err(SerializationError);
                }
                let (x, e) = match json::scan_quoted_exec(&s, v) {
                    None => {
                        return Err(SerializationError);
                    },
                    Some(p) => p,
                };
                keymap = Some(text::string_from_chars(&x));
                at2 = e;
            } else if key_text == "layout".to_owned() {
                if layout.is_some() {
                    return Err(SerializationError);
                }
                let (x, e) = match json::scan_quoted_exec(&s, v) {
                    None => {
                        return Err(SerializationError);
                    },
                    Some(p) => p,
                };
                layout = Some(text::string_from_chars(&x));
                at2 = e;
            } else if key_text == "layers".to_owned() {
                if layers.is_some() {
                    return Err(SerializationError);
                }
                let (x, e) = match json::scan_layers_exec(&s, v) {
                    None => {
                        return Err(SerializationError);
                    },
                    Some(p) => p,
                };
                layers = Some(x);
                at2 = e;
            } else {
                return Err(SerializationError);
            }
            proof {
                assert(json::scan_member(s@, at as int, pd) == Some(
                    (partial_of(version, &keyboard, &keymap, &layout, &layers), at2 as int),
                ));
            }
            let k2 = json::skip_ws_exec(&s, at2);
            if k2 < s.len() && s[k2] == ',' {
                at = json::skip_ws_exec(&s, k2 + 1);
            } else if k2 < s.len() && s[k2] == '}' {
                if json::skip_ws_exec(&s, k2 + 1) != s.len() {
                    return Err(SerializationError);
                }
                match (version, keyboard, keymap, layout, layers) {
                    (Some(v0), Some(kb), Some(km), Some(lo), Some(ls)) => {
                        return Ok(
                            Keymap {
                                version: v0,
                                keyboard: kb,
                                keymap: km,
                                layout: lo,
                                layers: ls,
                            },
                        );
                    },
                    _ => {
                        return Err(SerializationError);
                    },
                }
            } else {
                return Err(SerializationError);
            }
        }
    }
}

} // verus!
