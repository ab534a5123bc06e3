//! The keycode table: a fixed bidirectional mapping between a raw keycode
//! byte and its canonical symbolic name.
//!
//! The table is total over 0..=255: the position in the table is the keycode,
//! and every position holds a name (reserved positions hold a placeholder
//! that embeds the keycode, so all names are distinct).

use vstd::prelude::*;

verus! {

/// Names of keycodes 0..=15.
pub open spec fn key_name_block_0(c: int) -> Seq<char> {
    if c == 0 { "KC_NO"@ } else if c == 1 { "KC_ROLL_OVER"@ } else if c == 2 { "KC_POST_FAIL"@ } else if c == 3 { "KC_UNDEFINED"@ } else if c == 4 { "KC_A"@ } else if c == 5 { "KC_B"@ } else if c == 6 { "KC_C"@ } else if c == 7 { "KC_D"@ } else if c == 8 { "KC_E"@ } else if c == 9 { "KC_F"@ } else if c == 10 { "KC_G"@ } else if c == 11 { "KC_H"@ } else if c == 12 { "KC_I"@ } else if c == 13 { "KC_J"@ } else if c == 14 { "KC_K"@ } else if c == 15 { "KC_L"@ } else { Seq::empty() }
}

/// Names of keycodes 16..=31.
pub open spec fn key_name_block_1(c: int) -> Seq<char> {
    if c == 16 { "KC_M"@ } else if c == 17 { "KC_N"@ } else if c == 18 { "KC_O"@ } else if c == 19 { "KC_P"@ } else if c == 20 { "KC_Q"@ } else if c == 21 { "KC_R"@ } else if c == 22 { "KC_S"@ } else if c == 23 { "KC_T"@ } else if c == 24 { "KC_U"@ } else if c == 25 { "KC_V"@ } else if c == 26 { "KC_W"@ } else if c == 27 { "KC_X"@ } else if c == 28 { "KC_Y"@ } else if c == 29 { "KC_Z"@ } else if c == 30 { "KC_1"@ } else if c == 31 { "KC_2"@ } else { Seq::empty() }
}

/// Names of keycodes 32..=47.
pub open spec fn key_name_block_2(c: int) -> Seq<char> {
    if c == 32 { "KC_3"@ } else if c == 33 { "KC_4"@ } else if c == 34 { "KC_5"@ } else if c == 35 { "KC_6"@ } else if c == 36 { "KC_7"@ } else if c == 37 { "KC_8"@ } else if c == 38 { "KC_9"@ } else if c == 39 { "KC_0"@ } else if c == 40 { "KC_ENTER"@ } else if c == 41 { "KC_ESCAPE"@ } else if c == 42 { "KC_BACKSPACE"@ } else if c == 43 { "KC_TAB"@ } else if c == 44 { "KC_SPACE"@ } else if c == 45 { "KC_MINUS"@ } else if c == 46 { "KC_EQUAL"@ } else if c == 47 { "KC_LEFT_BRACKET"@ } else { Seq::empty() }
}

/// Names of keycodes 48..=63.
pub open spec fn key_name_block_3(c: int) -> Seq<char> {
    if c == 48 { "KC_RIGHT_BRACKET"@ } else if c == 49 { "KC_BACKSLASH"@ } else if c == 50 { "KC_NONUS_HASH"@ } else if c == 51 { "KC_SEMICOLON"@ } else if c == 52 { "KC_QUOTE"@ } else if c == 53 { "KC_GRAVE"@ } else if c == 54 { "KC_COMMA"@ } else if c == 55 { "KC_DOT"@ } else if c == 56 { "KC_SLASH"@ } else if c == 57 { "KC_CAPS_LOCK"@ } else if c == 58 { "KC_F1"@ } else if c == 59 { "KC_F2"@ } else if c == 60 { "KC_F3"@ } else if c == 61 { "KC_F4"@ } else if c == 62 { "KC_F5"@ } else if c == 63 { "KC_F6"@ } else { Seq::empty() }
}

/// Names of keycodes 64..=79.
pub open spec fn key_name_block_4(c: int) -> Seq<char> {
    if c == 64 { "KC_F7"@ } else if c == 65 { "KC_F8"@ } else if c == 66 { "KC_F9"@ } else if c == 67 { "KC_F10"@ } else if c == 68 { "KC_F11"@ } else if c == 69 { "KC_F12"@ } else if c == 70 { "KC_PRINT_SCREEN"@ } else if c == 71 { "KC_SCROLL_LOCK"@ } else if c == 72 { "KC_PAUSE"@ } else if c == 73 { "KC_INSERT"@ } else if c == 74 { "KC_HOME"@ } else if c == 75 { "KC_PAGE_UP"@ } else if c == 76 { "KC_DELETE"@ } else if c == 77 { "KC_END"@ } else if c == 78 { "KC_PAGE_DOWN"@ } else if c == 79 { "KC_RIGHT"@ } else { Seq::empty() }
}

/// Names of keycodes 80..=95.
pub open spec fn key_name_block_5(c: int) -> Seq<char> {
    if c == 80 { "KC_LEFT"@ } else if c == 81 { "KC_DOWN"@ } else if c == 82 { "KC_UP"@ } else if c == 83 { "KC_NUM_LOCK"@ } else if c == 84 { "KC_KP_SLASH"@ } else if c == 85 { "KC_KP_ASTERISK"@ } else if c == 86 { "KC_KP_MINUS"@ } else if c == 87 { "KC_KP_PLUS"@ } else if c == 88 { "KC_KP_ENTER"@ } else if c == 89 { "KC_KP_1"@ } else if c == 90 { "KC_KP_2"@ } else if c == 91 { "KC_KP_3"@ } else if c == 92 { "KC_KP_4"@ } else if c == 93 { "KC_KP_5"@ } else if c == 94 { "KC_KP_6"@ } else if c == 95 { "KC_KP_7"@ } else { Seq::empty() }
}

/// Names of keycodes 96..=111.
pub open spec fn key_name_block_6(c: int) -> Seq<char> {
    if c == 96 { "KC_KP_8"@ } else if c == 97 { "KC_KP_9"@ } else if c == 98 { "KC_KP_0"@ } else if c == 99 { "KC_KP_DOT"@ } else if c == 100 { "KC_NONUS_BACKSLASH"@ } else if c == 101 { "KC_APPLICATION"@ } else if c == 102 { "KC_KB_POWER"@ } else if c == 103 { "KC_KP_EQUAL"@ } else if c == 104 { "KC_F13"@ } else if c == 105 { "KC_F14"@ } else if c == 106 { "KC_F15"@ } else if c == 107 { "KC_F16"@ } else if c == 108 { "KC_F17"@ } else if c == 109 { "KC_F18"@ } else if c == 110 { "KC_F19"@ } else if c == 111 { "KC_F20"@ } else { Seq::empty() }
}

/// Names of keycodes 112..=127.
pub open spec fn key_name_block_7(c: int) -> Seq<char> {
    if c == 112 { "KC_F21"@ } else if c == 113 { "KC_F22"@ } else if c == 114 { "KC_F23"@ } else if c == 115 { "KC_F24"@ } else if c == 116 { "KC_EXECUTE"@ } else if c == 117 { "KC_HELP"@ } else if c == 118 { "KC_MENU"@ } else if c == 119 { "KC_SELECT"@ } else if c == 120 { "KC_STOP"@ } else if c == 121 { "KC_AGAIN"@ } else if c == 122 { "KC_UNDO"@ } else if c == 123 { "KC_CUT"@ } else if c == 124 { "KC_COPY"@ } else if c == 125 { "KC_PASTE"@ } else if c == 126 { "KC_FIND"@ } else if c == 127 { "KC_KB_MUTE"@ } else { Seq::empty() }
}

/// Names of keycodes 128..=143.
pub open spec fn key_name_block_8(c: int) -> Seq<char> {
    if c == 128 { "KC_KB_VOLUME_UP"@ } else if c == 129 { "KC_KB_VOLUME_DOWN"@ } else if c == 130 { "KC_LOCKING_CAPS_LOCK"@ } else if c == 131 { "KC_LOCKING_NUM_LOCK"@ } else if c == 132 { "KC_LOCKING_SCROLL_LOCK"@ } else if c == 133 { "KC_KP_COMMA"@ } else if c == 134 { "KC_KP_EQUAL_AS400"@ } else if c == 135 { "KC_INTERNATIONAL_1"@ } else if c == 136 { "KC_INTERNATIONAL_2"@ } else if c == 137 { "KC_INTERNATIONAL_3"@ } else if c == 138 { "KC_INTERNATIONAL_4"@ } else if c == 139 { "KC_INTERNATIONAL_5"@ } else if c == 140 { "KC_INTERNATIONAL_6"@ } else if c == 141 { "KC_INTERNATIONAL_7"@ } else if c == 142 { "KC_INTERNATIONAL_8"@ } else if c == 143 { "KC_INTERNATIONAL_9"@ } else { Seq::empty() }
}

/// Names of keycodes 144..=159.
pub open spec fn key_name_block_9(c: int) -> Seq<char> {
    if c == 144 { "KC_LANGUAGE_1"@ } else if c == 145 { "KC_LANGUAGE_2"@ } else if c == 146 { "KC_LANGUAGE_3"@ } else if c == 147 { "KC_LANGUAGE_4"@ } else if c == 148 { "KC_LANGUAGE_5"@ } else if c == 149 { "KC_LANGUAGE_6"@ } else if c == 150 { "KC_LANGUAGE_7"@ } else if c == 151 { "KC_LANGUAGE_8"@ } else if c == 152 { "KC_LANGUAGE_9"@ } else if c == 153 { "KC_ALTERNATE_ERASE"@ } else if c == 154 { "KC_SYSTEM_REQUEST"@ } else if c == 155 { "KC_CANCEL"@ } else if c == 156 { "KC_CLEAR"@ } else if c == 157 { "KC_PRIOR"@ } else if c == 158 { "KC_RETURN"@ } else if c == 159 { "KC_SEPARATOR"@ } else { Seq::empty() }
}

/// Names of keycodes 160..=175.
pub open spec fn key_name_block_10(c: int) -> Seq<char> {
    if c == 160 { "KC_OUT"@ } else if c == 161 { "KC_OPER"@ } else if c == 162 { "KC_CLEAR_AGAIN"@ } else if c == 163 { "KC_CRSEL"@ } else if c == 164 { "KC_EXSEL"@ } else if c == 165 { "KC_RESERVED_165"@ } else if c == 166 { "KC_RESERVED_166"@ } else if c == 167 { "KC_RESERVED_167"@ } else if c == 168 { "KC_RESERVED_168"@ } else if c == 169 { "KC_RESERVED_169"@ } else if c == 170 { "KC_RESERVED_170"@ } else if c == 171 { "KC_RESERVED_171"@ } else if c == 172 { "KC_RESERVED_172"@ } else if c == 173 { "KC_RESERVED_173"@ } else if c == 174 { "KC_RESERVED_174"@ } else if c == 175 { "KC_RESERVED_175"@ } else { Seq::empty() }
}

/// Names of keycodes 176..=191.
pub open spec fn key_name_block_11(c: int) -> Seq<char> {
    if c == 176 { "KC_RESERVED_176"@ } else if c == 177 { "KC_RESERVED_177"@ } else if c == 178 { "KC_RESERVED_178"@ } else if c == 179 { "KC_RESERVED_179"@ } else if c == 180 { "KC_RESERVED_180"@ } else if c == 181 { "KC_RESERVED_181"@ } else if c == 182 { "KC_RESERVED_182"@ } else if c == 183 { "KC_RESERVED_183"@ } else if c == 184 { "KC_RESERVED_184"@ } else if c == 185 { "KC_RESERVED_185"@ } else if c == 186 { "KC_RESERVED_186"@ } else if c == 187 { "KC_RESERVED_187"@ } else if c == 188 { "KC_RESERVED_188"@ } else if c == 189 { "KC_RESERVED_189"@ } else if c == 190 { "KC_RESERVED_190"@ } else if c == 191 { "KC_RESERVED_191"@ } else { Seq::empty() }
}

/// Names of keycodes 192..=207.
pub open spec fn key_name_block_12(c: int) -> Seq<char> {
    if c == 192 { "KC_RESERVED_192"@ } else if c == 193 { "KC_RESERVED_193"@ } else if c == 194 { "KC_RESERVED_194"@ } else if c == 195 { "KC_RESERVED_195"@ } else if c == 196 { "KC_RESERVED_196"@ } else if c == 197 { "KC_RESERVED_197"@ } else if c == 198 { "KC_RESERVED_198"@ } else if c == 199 { "KC_RESERVED_199"@ } else if c == 200 { "KC_RESERVED_200"@ } else if c == 201 { "KC_RESERVED_201"@ } else if c == 202 { "KC_RESERVED_202"@ } else if c == 203 { "KC_RESERVED_203"@ } else if c == 204 { "KC_RESERVED_204"@ } else if c == 205 { "KC_RESERVED_205"@ } else if c == 206 { "KC_RESERVED_206"@ } else if c == 207 { "KC_RESERVED_207"@ } else { Seq::empty() }
}

/// Names of keycodes 208..=223.
pub open spec fn key_name_block_13(c: int) -> Seq<char> {
    if c == 208 { "KC_RESERVED_208"@ } else if c == 209 { "KC_RESERVED_209"@ } else if c == 210 { "KC_RESERVED_210"@ } else if c == 211 { "KC_RESERVED_211"@ } else if c == 212 { "KC_RESERVED_212"@ } else if c == 213 { "KC_RESERVED_213"@ } else if c == 214 { "KC_RESERVED_214"@ } else if c == 215 { "KC_RESERVED_215"@ } else if c == 216 { "KC_RESERVED_216"@ } else if c == 217 { "KC_RESERVED_217"@ } else if c == 218 { "KC_RESERVED_218"@ } else if c == 219 { "KC_RESERVED_219"@ } else if c == 220 { "KC_RESERVED_220"@ } else if c == 221 { "KC_RESERVED_221"@ } else if c == 222 { "KC_RESERVED_222"@ } else if c == 223 { "KC_RESERVED_223"@ } else { Seq::empty() }
}

/// Names of keycodes 224..=239.
pub open spec fn key_name_block_14(c: int) -> Seq<char> {
    if c == 224 { "KC_LEFT_CTRL"@ } else if c == 225 { "KC_LEFT_SHIFT"@ } else if c == 226 { "KC_LEFT_ALT"@ } else if c == 227 { "KC_LEFT_GUI"@ } else if c == 228 { "KC_RIGHT_CTRL"@ } else if c == 229 { "KC_RIGHT_SHIFT"@ } else if c == 230 { "KC_RIGHT_ALT"@ } else if c == 231 { "KC_RIGHT_GUI"@ } else if c == 232 { "KC_RESERVED_232"@ } else if c == 233 { "KC_RESERVED_233"@ } else if c == 234 { "KC_RESERVED_234"@ } else if c == 235 { "KC_RESERVED_235"@ } else if c == 236 { "KC_RESERVED_236"@ } else if c == 237 { "KC_RESERVED_237"@ } else if c == 238 { "KC_RESERVED_238"@ } else if c == 239 { "KC_RESERVED_239"@ } else { Seq::empty() }
}

/// Names of keycodes 240..=255.
pub open spec fn key_name_block_15(c: int) -> Seq<char> {
    if c == 240 { "KC_RESERVED_240"@ } else if c == 241 { "KC_RESERVED_241"@ } else if c == 242 { "KC_RESERVED_242"@ } else if c == 243 { "KC_RESERVED_243"@ } else if c == 244 { "KC_RESERVED_244"@ } else if c == 245 { "KC_RESERVED_245"@ } else if c == 246 { "KC_RESERVED_246"@ } else if c == 247 { "KC_RESERVED_247"@ } else if c == 248 { "KC_RESERVED_248"@ } else if c == 249 { "KC_RESERVED_249"@ } else if c == 250 { "KC_RESERVED_250"@ } else if c == 251 { "KC_RESERVED_251"@ } else if c == 252 { "KC_RESERVED_252"@ } else if c == 253 { "KC_RESERVED_253"@ } else if c == 254 { "KC_RESERVED_254"@ } else if c == 255 { "KC_RESERVED_255"@ } else { Seq::empty() }
}

/// The symbolic name of keycode `c`, for `0 <= c < 256`; the empty
/// sequence outside that range.
pub open spec fn key_name(c: int) -> Seq<char> {
    if c < 0 { Seq::empty() } else if c < 16 { key_name_block_0(c) } else if c < 32 { key_name_block_1(c) } else if c < 48 { key_name_block_2(c) } else if c < 64 { key_name_block_3(c) } else if c < 80 { key_name_block_4(c) } else if c < 96 { key_name_block_5(c) } else if c < 112 { key_name_block_6(c) } else if c < 128 { key_name_block_7(c) } else if c < 144 { key_name_block_8(c) } else if c < 160 { key_name_block_9(c) } else if c < 176 { key_name_block_10(c) } else if c < 192 { key_name_block_11(c) } else if c < 208 { key_name_block_12(c) } else if c < 224 { key_name_block_13(c) } else if c < 240 { key_name_block_14(c) } else if c < 256 { key_name_block_15(c) } else { Seq::empty() }
}

proof fn lemma_name_facts_block_0()
    ensures
        ("KC_NO"@).len() == 5 && ("KC_NO"@)[0] == 'K' && ("KC_NO"@)[1] == 'C' && ("KC_NO"@)[2] == '_' && ("KC_NO"@)[3] == 'N' && ("KC_NO"@)[4] == 'O',
        ("KC_ROLL_OVER"@).len() == 12 && ("KC_ROLL_OVER"@)[0] == 'K' && ("KC_ROLL_OVER"@)[1] == 'C' && ("KC_ROLL_OVER"@)[2] == '_' && ("KC_ROLL_OVER"@)[3] == 'R' && ("KC_ROLL_OVER"@)[4] == 'O' && ("KC_ROLL_OVER"@)[5] == 'L' && ("KC_ROLL_OVER"@)[6] == 'L' && ("KC_ROLL_OVER"@)[7] == '_' && ("KC_ROLL_OVER"@)[8] == 'O' && ("KC_ROLL_OVER"@)[9] == 'V' && ("KC_ROLL_OVER"@)[10] == 'E' && ("KC_ROLL_OVER"@)[11] == 'R',
        ("KC_POST_FAIL"@).len() == 12 && ("KC_POST_FAIL"@)[0] == 'K' && ("KC_POST_FAIL"@)[1] == 'C' && ("KC_POST_FAIL"@)[2] == '_' && ("KC_POST_FAIL"@)[3] == 'P' && ("KC_POST_FAIL"@)[4] == 'O' && ("KC_POST_FAIL"@)[5] == 'S' && ("KC_POST_FAIL"@)[6] == 'T' && ("KC_POST_FAIL"@)[7] == '_' && ("KC_POST_FAIL"@)[8] == 'F' && ("KC_POST_FAIL"@)[9] == 'A' && ("KC_POST_FAIL"@)[10] == 'I' && ("KC_POST_FAIL"@)[11] == 'L',
        ("KC_UNDEFINED"@).len() == 12 && ("KC_UNDEFINED"@)[0] == 'K' && ("KC_UNDEFINED"@)[1] == 'C' && ("KC_UNDEFINED"@)[2] == '_' && ("KC_UNDEFINED"@)[3] == 'U' && ("KC_UNDEFINED"@)[4] == 'N' && ("KC_UNDEFINED"@)[5] == 'D' && ("KC_UNDEFINED"@)[6] == 'E' && ("KC_UNDEFINED"@)[7] == 'F' && ("KC_UNDEFINED"@)[8] == 'I' && ("KC_UNDEFINED"@)[9] == 'N' && ("KC_UNDEFINED"@)[10] == 'E' && ("KC_UNDEFINED"@)[11] == 'D',
        ("KC_A"@).len() == 4 && ("KC_A"@)[0] == 'K' && ("KC_A"@)[1] == 'C' && ("KC_A"@)[2] == '_' && ("KC_A"@)[3] == 'A',
        ("KC_B"@).len() == 4 && ("KC_B"@)[0] == 'K' && ("KC_B"@)[1] == 'C' && ("KC_B"@)[2] == '_' && ("KC_B"@)[3] == 'B',
        ("KC_C"@).len() == 4 && ("KC_C"@)[0] == 'K' && ("KC_C"@)[1] == 'C' && ("KC_C"@)[2] == '_' && ("KC_C"@)[3] == 'C',
        ("KC_D"@).len() == 4 && ("KC_D"@)[0] == 'K' && ("KC_D"@)[1] == 'C' && ("KC_D"@)[2] == '_' && ("KC_D"@)[3] == 'D',
        ("KC_E"@).len() == 4 && ("KC_E"@)[0] == 'K' && ("KC_E"@)[1] == 'C' && ("KC_E"@)[2] == '_' && ("KC_E"@)[3] == 'E',
        ("KC_F"@).len() == 4 && ("KC_F"@)[0] == 'K' && ("KC_F"@)[1] == 'C' && ("KC_F"@)[2] == '_' && ("KC_F"@)[3] == 'F',
        ("KC_G"@).len() == 4 && ("KC_G"@)[0] == 'K' && ("KC_G"@)[1] == 'C' && ("KC_G"@)[2] == '_' && ("KC_G"@)[3] == 'G',
        ("KC_H"@).len() == 4 && ("KC_H"@)[0] == 'K' && ("KC_H"@)[1] == 'C' && ("KC_H"@)[2] == '_' && ("KC_H"@)[3] == 'H',
        ("KC_I"@).len() == 4 && ("KC_I"@)[0] == 'K' && ("KC_I"@)[1] == 'C' && ("KC_I"@)[2] == '_' && ("KC_I"@)[3] == 'I',
        ("KC_J"@).len() == 4 && ("KC_J"@)[0] == 'K' && ("KC_J"@)[1] == 'C' && ("KC_J"@)[2] == '_' && ("KC_J"@)[3] == 'J',
        ("KC_K"@).len() == 4 && ("KC_K"@)[0] == 'K' && ("KC_K"@)[1] == 'C' && ("KC_K"@)[2] == '_' && ("KC_K"@)[3] == 'K',
        ("KC_L"@).len() == 4 && ("KC_L"@)[0] == 'K' && ("KC_L"@)[1] == 'C' && ("KC_L"@)[2] == '_' && ("KC_L"@)[3] == 'L',
{
    reveal_strlit("KC_NO");
    reveal_strlit("KC_ROLL_OVER");
    reveal_strlit("KC_POST_FAIL");
    reveal_strlit("KC_UNDEFINED");
    reveal_strlit("KC_A");
    reveal_strlit("KC_B");
    reveal_strlit("KC_C");
    reveal_strlit("KC_D");
    reveal_strlit("KC_E");
    reveal_strlit("KC_F");
    reveal_strlit("KC_G");
    reveal_strlit("KC_H");
    reveal_strlit("KC_I");
    reveal_strlit("KC_J");
    reveal_strlit("KC_K");
    reveal_strlit("KC_L");
    assert(("KC_NO"@).len() == 5);
    assert(("KC_NO"@)[0] == 'K');
    assert(("KC_NO"@)[1] == 'C');
    assert(("KC_NO"@)[2] == '_');
    assert(("KC_NO"@)[3] == 'N');
    assert(("KC_NO"@)[4] == 'O');
    assert(("KC_ROLL_OVER"@).len() == 12);
    assert(("KC_ROLL_OVER"@)[0] == 'K');
    assert(("KC_ROLL_OVER"@)[1] == 'C');
    assert(("KC_ROLL_OVER"@)[2] == '_');
    assert(("KC_ROLL_OVER"@)[3] == 'R');
    assert(("KC_ROLL_OVER"@)[4] == 'O');
    assert(("KC_ROLL_OVER"@)[5] == 'L');
    assert(("KC_ROLL_OVER"@)[6] == 'L');
    assert(("KC_ROLL_OVER"@)[7] == '_');
    assert(("KC_ROLL_OVER"@)[8] == 'O');
    assert(("KC_ROLL_OVER"@)[9] == 'V');
    assert(("KC_ROLL_OVER"@)[10] == 'E');
    assert(("KC_ROLL_OVER"@)[11] == 'R');
    assert(("KC_POST_FAIL"@).len() == 12);
    assert(("KC_POST_FAIL"@)[0] == 'K');
    assert(("KC_POST_FAIL"@)[1] == 'C');
    assert(("KC_POST_FAIL"@)[2] == '_');
    assert(("KC_POST_FAIL"@)[3] == 'P');
    assert(("KC_POST_FAIL"@)[4] == 'O');
    assert(("KC_POST_FAIL"@)[5] == 'S');
    assert(("KC_POST_FAIL"@)[6] == 'T');
    assert(("KC_POST_FAIL"@)[7] == '_');
    assert(("KC_POST_FAIL"@)[8] == 'F');
    assert(("KC_POST_FAIL"@)[9] == 'A');
    assert(("KC_POST_FAIL"@)[10] == 'I');
    assert(("KC_POST_FAIL"@)[11] == 'L');
    assert(("KC_UNDEFINED"@).len() == 12);
    assert(("KC_UNDEFINED"@)[0] == 'K');
    assert(("KC_UNDEFINED"@)[1] == 'C');
    assert(("KC_UNDEFINED"@)[2] == '_');
    assert(("KC_UNDEFINED"@)[3] == 'U');
    assert(("KC_UNDEFINED"@)[4] == 'N');
    assert(("KC_UNDEFINED"@)[5] == 'D');
    assert(("KC_UNDEFINED"@)[6] == 'E');
    assert(("KC_UNDEFINED"@)[7] == 'F');
    assert(("KC_UNDEFINED"@)[8] == 'I');
    assert(("KC_UNDEFINED"@)[9] == 'N');
    assert(("KC_UNDEFINED"@)[10] == 'E');
    assert(("KC_UNDEFINED"@)[11] == 'D');
    assert(("KC_A"@).len() == 4);
    assert(("KC_A"@)[0] == 'K');
    assert(("KC_A"@)[1] == 'C');
    assert(("KC_A"@)[2] == '_');
    assert(("KC_A"@)[3] == 'A');
    assert(("KC_B"@).len() == 4);
    assert(("KC_B"@)[0] == 'K');
    assert(("KC_B"@)[1] == 'C');
    assert(("KC_B"@)[2] == '_');
    assert(("KC_B"@)[3] == 'B');
    assert(("KC_C"@).len() == 4);
    assert(("KC_C"@)[0] == 'K');
    assert(("KC_C"@)[1] == 'C');
    assert(("KC_C"@)[2] == '_');
    assert(("KC_C"@)[3] == 'C');
    assert(("KC_D"@).len() == 4);
    assert(("KC_D"@)[0] == 'K');
    assert(("KC_D"@)[1] == 'C');
    assert(("KC_D"@)[2] == '_');
    assert(("KC_D"@)[3] == 'D');
    assert(("KC_E"@).len() == 4);
    assert(("KC_E"@)[0] == 'K');
    assert(("KC_E"@)[1] == 'C');
    assert(("KC_E"@)[2] == '_');
    assert(("KC_E"@)[3] == 'E');
    assert(("KC_F"@).len() == 4);
    assert(("KC_F"@)[0] == 'K');
    assert(("KC_F"@)[1] == 'C');
    assert(("KC_F"@)[2] == '_');
    assert(("KC_F"@)[3] == 'F');
    assert(("KC_G"@).len() == 4);
    assert(("KC_G"@)[0] == 'K');
    assert(("KC_G"@)[1] == 'C');
    assert(("KC_G"@)[2] == '_');
    assert(("KC_G"@)[3] == 'G');
    assert(("KC_H"@).len() == 4);
    assert(("KC_H"@)[0] == 'K');
    assert(("KC_H"@)[1] == 'C');
    assert(("KC_H"@)[2] == '_');
    assert(("KC_H"@)[3] == 'H');
    assert(("KC_I"@).len() == 4);
    assert(("KC_I"@)[0] == 'K');
    assert(("KC_I"@)[1] == 'C');
    assert(("KC_I"@)[2] == '_');
    assert(("KC_I"@)[3] == 'I');
    assert(("KC_J"@).len() == 4);
    assert(("KC_J"@)[0] == 'K');
    assert(("KC_J"@)[1] == 'C');
    assert(("KC_J"@)[2] == '_');
    assert(("KC_J"@)[3] == 'J');
    assert(("KC_K"@).len() == 4);
    assert(("KC_K"@)[0] == 'K');
    assert(("KC_K"@)[1] == 'C');
    assert(("KC_K"@)[2] == '_');
    assert(("KC_K"@)[3] == 'K');
    assert(("KC_L"@).len() == 4);
    assert(("KC_L"@)[0] == 'K');
    assert(("KC_L"@)[1] == 'C');
    assert(("KC_L"@)[2] == '_');
    assert(("KC_L"@)[3] == 'L');
}

proof fn lemma_name_facts_block_1()
    ensures
        ("KC_M"@).len() == 4 && ("KC_M"@)[0] == 'K' && ("KC_M"@)[1] == 'C' && ("KC_M"@)[2] == '_' && ("KC_M"@)[3] == 'M',
        ("KC_N"@).len() == 4 && ("KC_N"@)[0] == 'K' && ("KC_N"@)[1] == 'C' && ("KC_N"@)[2] == '_' && ("KC_N"@)[3] == 'N',
        ("KC_O"@).len() == 4 && ("KC_O"@)[0] == 'K' && ("KC_O"@)[1] == 'C' && ("KC_O"@)[2] == '_' && ("KC_O"@)[3] == 'O',
        ("KC_P"@).len() == 4 && ("KC_P"@)[0] == 'K' && ("KC_P"@)[1] == 'C' && ("KC_P"@)[2] == '_' && ("KC_P"@)[3] == 'P',
        ("KC_Q"@).len() == 4 && ("KC_Q"@)[0] == 'K' && ("KC_Q"@)[1] == 'C' && ("KC_Q"@)[2] == '_' && ("KC_Q"@)[3] == 'Q',
        ("KC_R"@).len() == 4 && ("KC_R"@)[0] == 'K' && ("KC_R"@)[1] == 'C' && ("KC_R"@)[2] == '_' && ("KC_R"@)[3] == 'R',
        ("KC_S"@).len() == 4 && ("KC_S"@)[0] == 'K' && ("KC_S"@)[1] == 'C' && ("KC_S"@)[2] == '_' && ("KC_S"@)[3] == 'S',
        ("KC_T"@).len() == 4 && ("KC_T"@)[0] == 'K' && ("KC_T"@)[1] == 'C' && ("KC_T"@)[2] == '_' && ("KC_T"@)[3] == 'T',
        ("KC_U"@).len() == 4 && ("KC_U"@)[0] == 'K' && ("KC_U"@)[1] == 'C' && ("KC_U"@)[2] == '_' && ("KC_U"@)[3] == 'U',
        ("KC_V"@).len() == 4 && ("KC_V"@)[0] == 'K' && ("KC_V"@)[1] == 'C' && ("KC_V"@)[2] == '_' && ("KC_V"@)[3] == 'V',
        ("KC_W"@).len() == 4 && ("KC_W"@)[0] == 'K' && ("KC_W"@)[1] == 'C' && ("KC_W"@)[2] == '_' && ("KC_W"@)[3] == 'W',
        ("KC_X"@).len() == 4 && ("KC_X"@)[0] == 'K' && ("KC_X"@)[1] == 'C' && ("KC_X"@)[2] == '_' && ("KC_X"@)[3] == 'X',
        ("KC_Y"@).len() == 4 && ("KC_Y"@)[0] == 'K' && ("KC_Y"@)[1] == 'C' && ("KC_Y"@)[2] == '_' && ("KC_Y"@)[3] == 'Y',
        ("KC_Z"@).len() == 4 && ("KC_Z"@)[0] == 'K' && ("KC_Z"@)[1] == 'C' && ("KC_Z"@)[2] == '_' && ("KC_Z"@)[3] == 'Z',
        ("KC_1"@).len() == 4 && ("KC_1"@)[0] == 'K' && ("KC_1"@)[1] == 'C' && ("KC_1"@)[2] == '_' && ("KC_1"@)[3] == '1',
        ("KC_2"@).len() == 4 && ("KC_2"@)[0] == 'K' && ("KC_2"@)[1] == 'C' && ("KC_2"@)[2] == '_' && ("KC_2"@)[3] == '2',
{
    reveal_strlit("KC_M");
    reveal_strlit("KC_N");
    reveal_strlit("KC_O");
    reveal_strlit("KC_P");
    reveal_strlit("KC_Q");
    reveal_strlit("KC_R");
    reveal_strlit("KC_S");
    reveal_strlit("KC_T");
    reveal_strlit("KC_U");
    reveal_strlit("KC_V");
    reveal_strlit("KC_W");
    reveal_strlit("KC_X");
    reveal_strlit("KC_Y");
    reveal_strlit("KC_Z");
    reveal_strlit("KC_1");
    reveal_strlit("KC_2");
    assert(("KC_M"@).len() == 4);
    assert(("KC_M"@)[0] == 'K');
    assert(("KC_M"@)[1] == 'C');
    assert(("KC_M"@)[2] == '_');
    assert(("KC_M"@)[3] == 'M');
    assert(("KC_N"@).len() == 4);
    assert(("KC_N"@)[0] == 'K');
    assert(("KC_N"@)[1] == 'C');
    assert(("KC_N"@)[2] == '_');
    assert(("KC_N"@)[3] == 'N');
    assert(("KC_O"@).len() == 4);
    assert(("KC_O"@)[0] == 'K');
    assert(("KC_O"@)[1] == 'C');
    assert(("KC_O"@)[2] == '_');
    assert(("KC_O"@)[3] == 'O');
    assert(("KC_P"@).len() == 4);
    assert(("KC_P"@)[0] == 'K');
    assert(("KC_P"@)[1] == 'C');
    assert(("KC_P"@)[2] == '_');
    assert(("KC_P"@)[3] == 'P');
    assert(("KC_Q"@).len() == 4);
    assert(("KC_Q"@)[0] == 'K');
    assert(("KC_Q"@)[1] == 'C');
    assert(("KC_Q"@)[2] == '_');
    assert(("KC_Q"@)[3] == 'Q');
    assert(("KC_R"@).len() == 4);
    assert(("KC_R"@)[0] == 'K');
    assert(("KC_R"@)[1] == 'C');
    assert(("KC_R"@)[2] == '_');
    assert(("KC_R"@)[3] == 'R');
    assert(("KC_S"@).len() == 4);
    assert(("KC_S"@)[0] == 'K');
    assert(("KC_S"@)[1] == 'C');
    assert(("KC_S"@)[2] == '_');
    assert(("KC_S"@)[3] == 'S');
    assert(("KC_T"@).len() == 4);
    assert(("KC_T"@)[0] == 'K');
    assert(("KC_T"@)[1] == 'C');
    assert(("KC_T"@)[2] == '_');
    assert(("KC_T"@)[3] == 'T');
    assert(("KC_U"@).len() == 4);
    assert(("KC_U"@)[0] == 'K');
    assert(("KC_U"@)[1] == 'C');
    assert(("KC_U"@)[2] == '_');
    assert(("KC_U"@)[3] == 'U');
    assert(("KC_V"@).len() == 4);
    assert(("KC_V"@)[0] == 'K');
    assert(("KC_V"@)[1] == 'C');
    assert(("KC_V"@)[2] == '_');
    assert(("KC_V"@)[3] == 'V');
    assert(("KC_W"@).len() == 4);
    assert(("KC_W"@)[0] == 'K');
    assert(("KC_W"@)[1] == 'C');
    assert(("KC_W"@)[2] == '_');
    assert(("KC_W"@)[3] == 'W');
    assert(("KC_X"@).len() == 4);
    assert(("KC_X"@)[0] == 'K');
    assert(("KC_X"@)[1] == 'C');
    assert(("KC_X"@)[2] == '_');
    assert(("KC_X"@)[3] == 'X');
    assert(("KC_Y"@).len() == 4);
    assert(("KC_Y"@)[0] == 'K');
    assert(("KC_Y"@)[1] == 'C');
    assert(("KC_Y"@)[2] == '_');
    assert(("KC_Y"@)[3] == 'Y');
    assert(("KC_Z"@).len() == 4);
    assert(("KC_Z"@)[0] == 'K');
    assert(("KC_Z"@)[1] == 'C');
    assert(("KC_Z"@)[2] == '_');
    assert(("KC_Z"@)[3] == 'Z');
    assert(("KC_1"@).len() == 4);
    assert(("KC_1"@)[0] == 'K');
    assert(("KC_1"@)[1] == 'C');
    assert(("KC_1"@)[2] == '_');
    assert(("KC_1"@)[3] == '1');
    assert(("KC_2"@).len() == 4);
    assert(("KC_2"@)[0] == 'K');
    assert(("KC_2"@)[1] == 'C');
    assert(("KC_2"@)[2] == '_');
    assert(("KC_2"@)[3] == '2');
}

proof fn lemma_name_facts_block_2()
    ensures
        ("KC_3"@).len() == 4 && ("KC_3"@)[0] == 'K' && ("KC_3"@)[1] == 'C' && ("KC_3"@)[2] == '_' && ("KC_3"@)[3] == '3',
        ("KC_4"@).len() == 4 && ("KC_4"@)[0] == 'K' && ("KC_4"@)[1] == 'C' && ("KC_4"@)[2] == '_' && ("KC_4"@)[3] == '4',
        ("KC_5"@).len() == 4 && ("KC_5"@)[0] == 'K' && ("KC_5"@)[1] == 'C' && ("KC_5"@)[2] == '_' && ("KC_5"@)[3] == '5',
        ("KC_6"@).len() == 4 && ("KC_6"@)[0] == 'K' && ("KC_6"@)[1] == 'C' && ("KC_6"@)[2] == '_' && ("KC_6"@)[3] == '6',
        ("KC_7"@).len() == 4 && ("KC_7"@)[0] == 'K' && ("KC_7"@)[1] == 'C' && ("KC_7"@)[2] == '_' && ("KC_7"@)[3] == '7',
        ("KC_8"@).len() == 4 && ("KC_8"@)[0] == 'K' && ("KC_8"@)[1] == 'C' && ("KC_8"@)[2] == '_' && ("KC_8"@)[3] == '8',
        ("KC_9"@).len() == 4 && ("KC_9"@)[0] == 'K' && ("KC_9"@)[1] == 'C' && ("KC_9"@)[2] == '_' && ("KC_9"@)[3] == '9',
        ("KC_0"@).len() == 4 && ("KC_0"@)[0] == 'K' && ("KC_0"@)[1] == 'C' && ("KC_0"@)[2] == '_' && ("KC_0"@)[3] == '0',
        ("KC_ENTER"@).len() == 8 && ("KC_ENTER"@)[0] == 'K' && ("KC_ENTER"@)[1] == 'C' && ("KC_ENTER"@)[2] == '_' && ("KC_ENTER"@)[3] == 'E' && ("KC_ENTER"@)[4] == 'N' && ("KC_ENTER"@)[5] == 'T' && ("KC_ENTER"@)[6] == 'E' && ("KC_ENTER"@)[7] == 'R',
        ("KC_ESCAPE"@).len() == 9 && ("KC_ESCAPE"@)[0] == 'K' && ("KC_ESCAPE"@)[1] == 'C' && ("KC_ESCAPE"@)[2] == '_' && ("KC_ESCAPE"@)[3] == 'E' && ("KC_ESCAPE"@)[4] == 'S' && ("KC_ESCAPE"@)[5] == 'C' && ("KC_ESCAPE"@)[6] == 'A' && ("KC_ESCAPE"@)[7] == 'P' && ("KC_ESCAPE"@)[8] == 'E',
        ("KC_BACKSPACE"@).len() == 12 && ("KC_BACKSPACE"@)[0] == 'K' && ("KC_BACKSPACE"@)[1] == 'C' && ("KC_BACKSPACE"@)[2] == '_' && ("KC_BACKSPACE"@)[3] == 'B' && ("KC_BACKSPACE"@)[4] == 'A' && ("KC_BACKSPACE"@)[5] == 'C' && ("KC_BACKSPACE"@)[6] == 'K' && ("KC_BACKSPACE"@)[7] == 'S' && ("KC_BACKSPACE"@)[8] == 'P' && ("KC_BACKSPACE"@)[9] == 'A' && ("KC_BACKSPACE"@)[10] == 'C' && ("KC_BACKSPACE"@)[11] == 'E',
        ("KC_TAB"@).len() == 6 && ("KC_TAB"@)[0] == 'K' && ("KC_TAB"@)[1] == 'C' && ("KC_TAB"@)[2] == '_' && ("KC_TAB"@)[3] == 'T' && ("KC_TAB"@)[4] == 'A' && ("KC_TAB"@)[5] == 'B',
        ("KC_SPACE"@).len() == 8 && ("KC_SPACE"@)[0] == 'K' && ("KC_SPACE"@)[1] == 'C' && ("KC_SPACE"@)[2] == '_' && ("KC_SPACE"@)[3] == 'S' && ("KC_SPACE"@)[4] == 'P' && ("KC_SPACE"@)[5] == 'A' && ("KC_SPACE"@)[6] == 'C' && ("KC_SPACE"@)[7] == 'E',
        ("KC_MINUS"@).len() == 8 && ("KC_MINUS"@)[0] == 'K' && ("KC_MINUS"@)[1] == 'C' && ("KC_MINUS"@)[2] == '_' && ("KC_MINUS"@)[3] == 'M' && ("KC_MINUS"@)[4] == 'I' && ("KC_MINUS"@)[5] == 'N' && ("KC_MINUS"@)[6] == 'U' && ("KC_MINUS"@)[7] == 'S',
        ("KC_EQUAL"@).len() == 8 && ("KC_EQUAL"@)[0] == 'K' && ("KC_EQUAL"@)[1] == 'C' && ("KC_EQUAL"@)[2] == '_' && ("KC_EQUAL"@)[3] == 'E' && ("KC_EQUAL"@)[4] == 'Q' && ("KC_EQUAL"@)[5] == 'U' && ("KC_EQUAL"@)[6] == 'A' && ("KC_EQUAL"@)[7] == 'L',
        ("KC_LEFT_BRACKET"@).len() == 15 && ("KC_LEFT_BRACKET"@)[0] == 'K' && ("KC_LEFT_BRACKET"@)[1] == 'C' && ("KC_LEFT_BRACKET"@)[2] == '_' && ("KC_LEFT_BRACKET"@)[3] == 'L' && ("KC_LEFT_BRACKET"@)[4] == 'E' && ("KC_LEFT_BRACKET"@)[5] == 'F' && ("KC_LEFT_BRACKET"@)[6] == 'T' && ("KC_LEFT_BRACKET"@)[7] == '_' && ("KC_LEFT_BRACKET"@)[8] == 'B' && ("KC_LEFT_BRACKET"@)[9] == 'R' && ("KC_LEFT_BRACKET"@)[10] == 'A' && ("KC_LEFT_BRACKET"@)[11] == 'C' && ("KC_LEFT_BRACKET"@)[12] == 'K' && ("KC_LEFT_BRACKET"@)[13] == 'E' && ("KC_LEFT_BRACKET"@)[14] == 'T',
{
    reveal_strlit("KC_3");
    reveal_strlit("KC_4");
    reveal_strlit("KC_5");
    reveal_strlit("KC_6");
    reveal_strlit("KC_7");
    reveal_strlit("KC_8");
    reveal_strlit("KC_9");
    reveal_strlit("KC_0");
    reveal_strlit("KC_ENTER");
    reveal_strlit("KC_ESCAPE");
    reveal_strlit("KC_BACKSPACE");
    reveal_strlit("KC_TAB");
    reveal_strlit("KC_SPACE");
    reveal_strlit("KC_MINUS");
    reveal_strlit("KC_EQUAL");
    reveal_strlit("KC_LEFT_BRACKET");
    assert(("KC_3"@).len() == 4);
    assert(("KC_3"@)[0] == 'K');
    assert(("KC_3"@)[1] == 'C');
    assert(("KC_3"@)[2] == '_');
    assert(("KC_3"@)[3] == '3');
    assert(("KC_4"@).len() == 4);
    assert(("KC_4"@)[0] == 'K');
    assert(("KC_4"@)[1] == 'C');
    assert(("KC_4"@)[2] == '_');
    assert(("KC_4"@)[3] == '4');
    assert(("KC_5"@).len() == 4);
    assert(("KC_5"@)[0] == 'K');
    assert(("KC_5"@)[1] == 'C');
    assert(("KC_5"@)[2] == '_');
    assert(("KC_5"@)[3] == '5');
    assert(("KC_6"@).len() == 4);
    assert(("KC_6"@)[0] == 'K');
    assert(("KC_6"@)[1] == 'C');
    assert(("KC_6"@)[2] == '_');
    assert(("KC_6"@)[3] == '6');
    assert(("KC_7"@).len() == 4);
    assert(("KC_7"@)[0] == 'K');
    assert(("KC_7"@)[1] == 'C');
    assert(("KC_7"@)[2] == '_');
    assert(("KC_7"@)[3] == '7');
    assert(("KC_8"@).len() == 4);
    assert(("KC_8"@)[0] == 'K');
    assert(("KC_8"@)[1] == 'C');
    assert(("KC_8"@)[2] == '_');
    assert(("KC_8"@)[3] == '8');
    assert(("KC_9"@).len() == 4);
    assert(("KC_9"@)[0] == 'K');
    assert(("KC_9"@)[1] == 'C');
    assert(("KC_9"@)[2] == '_');
    assert(("KC_9"@)[3] == '9');
    assert(("KC_0"@).len() == 4);
    assert(("KC_0"@)[0] == 'K');
    assert(("KC_0"@)[1] == 'C');
    assert(("KC_0"@)[2] == '_');
    assert(("KC_0"@)[3] == '0');
    assert(("KC_ENTER"@).len() == 8);
    assert(("KC_ENTER"@)[0] == 'K');
    assert(("KC_ENTER"@)[1] == 'C');
    assert(("KC_ENTER"@)[2] == '_');
    assert(("KC_ENTER"@)[3] == 'E');
    assert(("KC_ENTER"@)[4] == 'N');
    assert(("KC_ENTER"@)[5] == 'T');
    assert(("KC_ENTER"@)[6] == 'E');
    assert(("KC_ENTER"@)[7] == 'R');
    assert(("KC_ESCAPE"@).len() == 9);
    assert(("KC_ESCAPE"@)[0] == 'K');
    assert(("KC_ESCAPE"@)[1] == 'C');
    assert(("KC_ESCAPE"@)[2] == '_');
    assert(("KC_ESCAPE"@)[3] == 'E');
    assert(("KC_ESCAPE"@)[4] == 'S');
    assert(("KC_ESCAPE"@)[5] == 'C');
    assert(("KC_ESCAPE"@)[6] == 'A');
    assert(("KC_ESCAPE"@)[7] == 'P');
    assert(("KC_ESCAPE"@)[8] == 'E');
    assert(("KC_BACKSPACE"@).len() == 12);
    assert(("KC_BACKSPACE"@)[0] == 'K');
    assert(("KC_BACKSPACE"@)[1] == 'C');
    assert(("KC_BACKSPACE"@)[2] == '_');
    assert(("KC_BACKSPACE"@)[3] == 'B');
    assert(("KC_BACKSPACE"@)[4] == 'A');
    assert(("KC_BACKSPACE"@)[5] == 'C');
    assert(("KC_BACKSPACE"@)[6] == 'K');
    assert(("KC_BACKSPACE"@)[7] == 'S');
    assert(("KC_BACKSPACE"@)[8] == 'P');
    assert(("KC_BACKSPACE"@)[9] == 'A');
    assert(("KC_BACKSPACE"@)[10] == 'C');
    assert(("KC_BACKSPACE"@)[11] == 'E');
    assert(("KC_TAB"@).len() == 6);
    assert(("KC_TAB"@)[0] == 'K');
    assert(("KC_TAB"@)[1] == 'C');
    assert(("KC_TAB"@)[2] == '_');
    assert(("KC_TAB"@)[3] == 'T');
    assert(("KC_TAB"@)[4] == 'A');
    assert(("KC_TAB"@)[5] == 'B');
    assert(("KC_SPACE"@).len() == 8);
    assert(("KC_SPACE"@)[0] == 'K');
    assert(("KC_SPACE"@)[1] == 'C');
    assert(("KC_SPACE"@)[2] == '_');
    assert(("KC_SPACE"@)[3] == 'S');
    assert(("KC_SPACE"@)[4] == 'P');
    assert(("KC_SPACE"@)[5] == 'A');
    assert(("KC_SPACE"@)[6] == 'C');
    assert(("KC_SPACE"@)[7] == 'E');
    assert(("KC_MINUS"@).len() == 8);
    assert(("KC_MINUS"@)[0] == 'K');
    assert(("KC_MINUS"@)[1] == 'C');
    assert(("KC_MINUS"@)[2] == '_');
    assert(("KC_MINUS"@)[3] == 'M');
    assert(("KC_MINUS"@)[4] == 'I');
    assert(("KC_MINUS"@)[5] == 'N');
    assert(("KC_MINUS"@)[6] == 'U');
    assert(("KC_MINUS"@)[7] == 'S');
    assert(("KC_EQUAL"@).len() == 8);
    assert(("KC_EQUAL"@)[0] == 'K');
    assert(("KC_EQUAL"@)[1] == 'C');
    assert(("KC_EQUAL"@)[2] == '_');
    assert(("KC_EQUAL"@)[3] == 'E');
    assert(("KC_EQUAL"@)[4] == 'Q');
    assert(("KC_EQUAL"@)[5] == 'U');
    assert(("KC_EQUAL"@)[6] == 'A');
    assert(("KC_EQUAL"@)[7] == 'L');
    assert(("KC_LEFT_BRACKET"@).len() == 15);
    assert(("KC_LEFT_BRACKET"@)[0] == 'K');
    assert(("KC_LEFT_BRACKET"@)[1] == 'C');
    assert(("KC_LEFT_BRACKET"@)[2] == '_');
    assert(("KC_LEFT_BRACKET"@)[3] == 'L');
    assert(("KC_LEFT_BRACKET"@)[4] == 'E');
    assert(("KC_LEFT_BRACKET"@)[5] == 'F');
    assert(("KC_LEFT_BRACKET"@)[6] == 'T');
    assert(("KC_LEFT_BRACKET"@)[7] == '_');
    assert(("KC_LEFT_BRACKET"@)[8] == 'B');
    assert(("KC_LEFT_BRACKET"@)[9] == 'R');
    assert(("KC_LEFT_BRACKET"@)[10] == 'A');
    assert(("KC_LEFT_BRACKET"@)[11] == 'C');
    assert(("KC_LEFT_BRACKET"@)[12] == 'K');
    assert(("KC_LEFT_BRACKET"@)[13] == 'E');
    assert(("KC_LEFT_BRACKET"@)[14] == 'T');
}

proof fn lemma_name_facts_block_3()
    ensures
        ("KC_RIGHT_BRACKET"@).len() == 16 && ("KC_RIGHT_BRACKET"@)[0] == 'K' && ("KC_RIGHT_BRACKET"@)[1] == 'C' && ("KC_RIGHT_BRACKET"@)[2] == '_' && ("KC_RIGHT_BRACKET"@)[3] == 'R' && ("KC_RIGHT_BRACKET"@)[4] == 'I' && ("KC_RIGHT_BRACKET"@)[5] == 'G' && ("KC_RIGHT_BRACKET"@)[6] == 'H' && ("KC_RIGHT_BRACKET"@)[7] == 'T' && ("KC_RIGHT_BRACKET"@)[8] == '_' && ("KC_RIGHT_BRACKET"@)[9] == 'B' && ("KC_RIGHT_BRACKET"@)[10] == 'R' && ("KC_RIGHT_BRACKET"@)[11] == 'A' && ("KC_RIGHT_BRACKET"@)[12] == 'C' && ("KC_RIGHT_BRACKET"@)[13] == 'K' && ("KC_RIGHT_BRACKET"@)[14] == 'E' && ("KC_RIGHT_BRACKET"@)[15] == 'T',
        ("KC_BACKSLASH"@).len() == 12 && ("KC_BACKSLASH"@)[0] == 'K' && ("KC_BACKSLASH"@)[1] == 'C' && ("KC_BACKSLASH"@)[2] == '_' && ("KC_BACKSLASH"@)[3] == 'B' && ("KC_BACKSLASH"@)[4] == 'A' && ("KC_BACKSLASH"@)[5] == 'C' && ("KC_BACKSLASH"@)[6] == 'K' && ("KC_BACKSLASH"@)[7] == 'S' && ("KC_BACKSLASH"@)[8] == 'L' && ("KC_BACKSLASH"@)[9] == 'A' && ("KC_BACKSLASH"@)[10] == 'S' && ("KC_BACKSLASH"@)[11] == 'H',
        ("KC_NONUS_HASH"@).len() == 13 && ("KC_NONUS_HASH"@)[0] == 'K' && ("KC_NONUS_HASH"@)[1] == 'C' && ("KC_NONUS_HASH"@)[2] == '_' && ("KC_NONUS_HASH"@)[3] == 'N' && ("KC_NONUS_HASH"@)[4] == 'O' && ("KC_NONUS_HASH"@)[5] == 'N' && ("KC_NONUS_HASH"@)[6] == 'U' && ("KC_NONUS_HASH"@)[7] == 'S' && ("KC_NONUS_HASH"@)[8] == '_' && ("KC_NONUS_HASH"@)[9] == 'H' && ("KC_NONUS_HASH"@)[10] == 'A' && ("KC_NONUS_HASH"@)[11] == 'S' && ("KC_NONUS_HASH"@)[12] == 'H',
        ("KC_SEMICOLON"@).len() == 12 && ("KC_SEMICOLON"@)[0] == 'K' && ("KC_SEMICOLON"@)[1] == 'C' && ("KC_SEMICOLON"@)[2] == '_' && ("KC_SEMICOLON"@)[3] == 'S' && ("KC_SEMICOLON"@)[4] == 'E' && ("KC_SEMICOLON"@)[5] == 'M' && ("KC_SEMICOLON"@)[6] == 'I' && ("KC_SEMICOLON"@)[7] == 'C' && ("KC_SEMICOLON"@)[8] == 'O' && ("KC_SEMICOLON"@)[9] == 'L' && ("KC_SEMICOLON"@)[10] == 'O' && ("KC_SEMICOLON"@)[11] == 'N',
        ("KC_QUOTE"@).len() == 8 && ("KC_QUOTE"@)[0] == 'K' && ("KC_QUOTE"@)[1] == 'C' && ("KC_QUOTE"@)[2] == '_' && ("KC_QUOTE"@)[3] == 'Q' && ("KC_QUOTE"@)[4] == 'U' && ("KC_QUOTE"@)[5] == 'O' && ("KC_QUOTE"@)[6] == 'T' && ("KC_QUOTE"@)[7] == 'E',
        ("KC_GRAVE"@).len() == 8 && ("KC_GRAVE"@)[0] == 'K' && ("KC_GRAVE"@)[1] == 'C' && ("KC_GRAVE"@)[2] == '_' && ("KC_GRAVE"@)[3] == 'G' && ("KC_GRAVE"@)[4] == 'R' && ("KC_GRAVE"@)[5] == 'A' && ("KC_GRAVE"@)[6] == 'V' && ("KC_GRAVE"@)[7] == 'E',
        ("KC_COMMA"@).len() == 8 && ("KC_COMMA"@)[0] == 'K' && ("KC_COMMA"@)[1] == 'C' && ("KC_COMMA"@)[2] == '_' && ("KC_COMMA"@)[3] == 'C' && ("KC_COMMA"@)[4] == 'O' && ("KC_COMMA"@)[5] == 'M' && ("KC_COMMA"@)[6] == 'M' && ("KC_COMMA"@)[7] == 'A',
        ("KC_DOT"@).len() == 6 && ("KC_DOT"@)[0] == 'K' && ("KC_DOT"@)[1] == 'C' && ("KC_DOT"@)[2] == '_' && ("KC_DOT"@)[3] == 'D' && ("KC_DOT"@)[4] == 'O' && ("KC_DOT"@)[5] == 'T',
        ("KC_SLASH"@).len() == 8 && ("KC_SLASH"@)[0] == 'K' && ("KC_SLASH"@)[1] == 'C' && ("KC_SLASH"@)[2] == '_' && ("KC_SLASH"@)[3] == 'S' && ("KC_SLASH"@)[4] == 'L' && ("KC_SLASH"@)[5] == 'A' && ("KC_SLASH"@)[6] == 'S' && ("KC_SLASH"@)[7] == 'H',
        ("KC_CAPS_LOCK"@).len() == 12 && ("KC_CAPS_LOCK"@)[0] == 'K' && ("KC_CAPS_LOCK"@)[1] == 'C' && ("KC_CAPS_LOCK"@)[2] == '_' && ("KC_CAPS_LOCK"@)[3] == 'C' && ("KC_CAPS_LOCK"@)[4] == 'A' && ("KC_CAPS_LOCK"@)[5] == 'P' && ("KC_CAPS_LOCK"@)[6] == 'S' && ("KC_CAPS_LOCK"@)[7] == '_' && ("KC_CAPS_LOCK"@)[8] == 'L' && ("KC_CAPS_LOCK"@)[9] == 'O' && ("KC_CAPS_LOCK"@)[10] == 'C' && ("KC_CAPS_LOCK"@)[11] == 'K',
        ("KC_F1"@).len() == 5 && ("KC_F1"@)[0] == 'K' && ("KC_F1"@)[1] == 'C' && ("KC_F1"@)[2] == '_' && ("KC_F1"@)[3] == 'F' && ("KC_F1"@)[4] == '1',
        ("KC_F2"@).len() == 5 && ("KC_F2"@)[0] == 'K' && ("KC_F2"@)[1] == 'C' && ("KC_F2"@)[2] == '_' && ("KC_F2"@)[3] == 'F' && ("KC_F2"@)[4] == '2',
        ("KC_F3"@).len() == 5 && ("KC_F3"@)[0] == 'K' && ("KC_F3"@)[1] == 'C' && ("KC_F3"@)[2] == '_' && ("KC_F3"@)[3] == 'F' && ("KC_F3"@)[4] == '3',
        ("KC_F4"@).len() == 5 && ("KC_F4"@)[0] == 'K' && ("KC_F4"@)[1] == 'C' && ("KC_F4"@)[2] == '_' && ("KC_F4"@)[3] == 'F' && ("KC_F4"@)[4] == '4',
        ("KC_F5"@).len() == 5 && ("KC_F5"@)[0] == 'K' && ("KC_F5"@)[1] == 'C' && ("KC_F5"@)[2] == '_' && ("KC_F5"@)[3] == 'F' && ("KC_F5"@)[4] == '5',
        ("KC_F6"@).len() == 5 && ("KC_F6"@)[0] == 'K' && ("KC_F6"@)[1] == 'C' && ("KC_F6"@)[2] == '_' && ("KC_F6"@)[3] == 'F' && ("KC_F6"@)[4] == '6',
{
    reveal_strlit("KC_RIGHT_BRACKET");
    reveal_strlit("KC_BACKSLASH");
    reveal_strlit("KC_NONUS_HASH");
    reveal_strlit("KC_SEMICOLON");
    reveal_strlit("KC_QUOTE");
    reveal_strlit("KC_GRAVE");
    reveal_strlit("KC_COMMA");
    reveal_strlit("KC_DOT");
    reveal_strlit("KC_SLASH");
    reveal_strlit("KC_CAPS_LOCK");
    reveal_strlit("KC_F1");
    reveal_strlit("KC_F2");
    reveal_strlit("KC_F3");
    reveal_strlit("KC_F4");
    reveal_strlit("KC_F5");
    reveal_strlit("KC_F6");
    assert(("KC_RIGHT_BRACKET"@).len() == 16);
    assert(("KC_RIGHT_BRACKET"@)[0] == 'K');
    assert(("KC_RIGHT_BRACKET"@)[1] == 'C');
    assert(("KC_RIGHT_BRACKET"@)[2] == '_');
    assert(("KC_RIGHT_BRACKET"@)[3] == 'R');
    assert(("KC_RIGHT_BRACKET"@)[4] == 'I');
    assert(("KC_RIGHT_BRACKET"@)[5] == 'G');
    assert(("KC_RIGHT_BRACKET"@)[6] == 'H');
    assert(("KC_RIGHT_BRACKET"@)[7] == 'T');
    assert(("KC_RIGHT_BRACKET"@)[8] == '_');
    assert(("KC_RIGHT_BRACKET"@)[9] == 'B');
    assert(("KC_RIGHT_BRACKET"@)[10] == 'R');
    assert(("KC_RIGHT_BRACKET"@)[11] == 'A');
    assert(("KC_RIGHT_BRACKET"@)[12] == 'C');
    assert(("KC_RIGHT_BRACKET"@)[13] == 'K');
    assert(("KC_RIGHT_BRACKET"@)[14] == 'E');
    assert(("KC_RIGHT_BRACKET"@)[15] == 'T');
    assert(("KC_BACKSLASH"@).len() == 12);
    assert(("KC_BACKSLASH"@)[0] == 'K');
    assert(("KC_BACKSLASH"@)[1] == 'C');
    assert(("KC_BACKSLASH"@)[2] == '_');
    assert(("KC_BACKSLASH"@)[3] == 'B');
    assert(("KC_BACKSLASH"@)[4] == 'A');
    assert(("KC_BACKSLASH"@)[5] == 'C');
    assert(("KC_BACKSLASH"@)[6] == 'K');
    assert(("KC_BACKSLASH"@)[7] == 'S');
    assert(("KC_BACKSLASH"@)[8] == 'L');
    assert(("KC_BACKSLASH"@)[9] == 'A');
    assert(("KC_BACKSLASH"@)[10] == 'S');
    assert(("KC_BACKSLASH"@)[11] == 'H');
    assert(("KC_NONUS_HASH"@).len() == 13);
    assert(("KC_NONUS_HASH"@)[0] == 'K');
    assert(("KC_NONUS_HASH"@)[1] == 'C');
    assert(("KC_NONUS_HASH"@)[2] == '_');
    assert(("KC_NONUS_HASH"@)[3] == 'N');
    assert(("KC_NONUS_HASH"@)[4] == 'O');
    assert(("KC_NONUS_HASH"@)[5] == 'N');
    assert(("KC_NONUS_HASH"@)[6] == 'U');
    assert(("KC_NONUS_HASH"@)[7] == 'S');
    assert(("KC_NONUS_HASH"@)[8] == '_');
    assert(("KC_NONUS_HASH"@)[9] == 'H');
    assert(("KC_NONUS_HASH"@)[10] == 'A');
    assert(("KC_NONUS_HASH"@)[11] == 'S');
    assert(("KC_NONUS_HASH"@)[12] == 'H');
    assert(("KC_SEMICOLON"@).len() == 12);
    assert(("KC_SEMICOLON"@)[0] == 'K');
    assert(("KC_SEMICOLON"@)[1] == 'C');
    assert(("KC_SEMICOLON"@)[2] == '_');
    assert(("KC_SEMICOLON"@)[3] == 'S');
    assert(("KC_SEMICOLON"@)[4] == 'E');
    assert(("KC_SEMICOLON"@)[5] == 'M');
    assert(("KC_SEMICOLON"@)[6] == 'I');
    assert(("KC_SEMICOLON"@)[7] == 'C');
    assert(("KC_SEMICOLON"@)[8] == 'O');
    assert(("KC_SEMICOLON"@)[9] == 'L');
    assert(("KC_SEMICOLON"@)[10] == 'O');
    assert(("KC_SEMICOLON"@)[11] == 'N');
    assert(("KC_QUOTE"@).len() == 8);
    assert(("KC_QUOTE"@)[0] == 'K');
    assert(("KC_QUOTE"@)[1] == 'C');
    assert(("KC_QUOTE"@)[2] == '_');
    assert(("KC_QUOTE"@)[3] == 'Q');
    assert(("KC_QUOTE"@)[4] == 'U');
    assert(("KC_QUOTE"@)[5] == 'O');
    assert(("KC_QUOTE"@)[6] == 'T');
    assert(("KC_QUOTE"@)[7] == 'E');
    assert(("KC_GRAVE"@).len() == 8);
    assert(("KC_GRAVE"@)[0] == 'K');
    assert(("KC_GRAVE"@)[1] == 'C');
    assert(("KC_GRAVE"@)[2] == '_');
    assert(("KC_GRAVE"@)[3] == 'G');
    assert(("KC_GRAVE"@)[4] == 'R');
    assert(("KC_GRAVE"@)[5] == 'A');
    assert(("KC_GRAVE"@)[6] == 'V');
    assert(("KC_GRAVE"@)[7] == 'E');
    assert(("KC_COMMA"@).len() == 8);
    assert(("KC_COMMA"@)[0] == 'K');
    assert(("KC_COMMA"@)[1] == 'C');
    assert(("KC_COMMA"@)[2] == '_');
    assert(("KC_COMMA"@)[3] == 'C');
    assert(("KC_COMMA"@)[4] == 'O');
    assert(("KC_COMMA"@)[5] == 'M');
    assert(("KC_COMMA"@)[6] == 'M');
    assert(("KC_COMMA"@)[7] == 'A');
    assert(("KC_DOT"@).len() == 6);
    assert(("KC_DOT"@)[0] == 'K');
    assert(("KC_DOT"@)[1] == 'C');
    assert(("KC_DOT"@)[2] == '_');
    assert(("KC_DOT"@)[3] == 'D');
    assert(("KC_DOT"@)[4] == 'O');
    assert(("KC_DOT"@)[5] == 'T');
    assert(("KC_SLASH"@).len() == 8);
    assert(("KC_SLASH"@)[0] == 'K');
    assert(("KC_SLASH"@)[1] == 'C');
    assert(("KC_SLASH"@)[2] == '_');
    assert(("KC_SLASH"@)[3] == 'S');
    assert(("KC_SLASH"@)[4] == 'L');
    assert(("KC_SLASH"@)[5] == 'A');
    assert(("KC_SLASH"@)[6] == 'S');
    assert(("KC_SLASH"@)[7] == 'H');
    assert(("KC_CAPS_LOCK"@).len() == 12);
    assert(("KC_CAPS_LOCK"@)[0] == 'K');
    assert(("KC_CAPS_LOCK"@)[1] == 'C');
    assert(("KC_CAPS_LOCK"@)[2] == '_');
    assert(("KC_CAPS_LOCK"@)[3] == 'C');
    assert(("KC_CAPS_LOCK"@)[4] == 'A');
    assert(("KC_CAPS_LOCK"@)[5] == 'P');
    assert(("KC_CAPS_LOCK"@)[6] == 'S');
    assert(("KC_CAPS_LOCK"@)[7] == '_');
    assert(("KC_CAPS_LOCK"@)[8] == 'L');
    assert(("KC_CAPS_LOCK"@)[9] == 'O');
    assert(("KC_CAPS_LOCK"@)[10] == 'C');
    assert(("KC_CAPS_LOCK"@)[11] == 'K');
    assert(("KC_F1"@).len() == 5);
    assert(("KC_F1"@)[0] == 'K');
    assert(("KC_F1"@)[1] == 'C');
    assert(("KC_F1"@)[2] == '_');
    assert(("KC_F1"@)[3] == 'F');
    assert(("KC_F1"@)[4] == '1');
    assert(("KC_F2"@).len() == 5);
    assert(("KC_F2"@)[0] == 'K');
    assert(("KC_F2"@)[1] == 'C');
    assert(("KC_F2"@)[2] == '_');
    assert(("KC_F2"@)[3] == 'F');
    assert(("KC_F2"@)[4] == '2');
    assert(("KC_F3"@).len() == 5);
    assert(("KC_F3"@)[0] == 'K');
    assert(("KC_F3"@)[1] == 'C');
    assert(("KC_F3"@)[2] == '_');
    assert(("KC_F3"@)[3] == 'F');
    assert(("KC_F3"@)[4] == '3');
    assert(("KC_F4"@).len() == 5);
    assert(("KC_F4"@)[0] == 'K');
    assert(("KC_F4"@)[1] == 'C');
    assert(("KC_F4"@)[2] == '_');
    assert(("KC_F4"@)[3] == 'F');
    assert(("KC_F4"@)[4] == '4');
    assert(("KC_F5"@).len() == 5);
    assert(("KC_F5"@)[0] == 'K');
    assert(("KC_F5"@)[1] == 'C');
    assert(("KC_F5"@)[2] == '_');
    assert(("KC_F5"@)[3] == 'F');
    assert(("KC_F5"@)[4] == '5');
    assert(("KC_F6"@).len() == 5);
    assert(("KC_F6"@)[0] == 'K');
    assert(("KC_F6"@)[1] == 'C');
    assert(("KC_F6"@)[2] == '_');
    assert(("KC_F6"@)[3] == 'F');
    assert(("KC_F6"@)[4] == '6');
}

proof fn lemma_name_facts_block_4()
    ensures
        ("KC_F7"@).len() == 5 && ("KC_F7"@)[0] == 'K' && ("KC_F7"@)[1] == 'C' && ("KC_F7"@)[2] == '_' && ("KC_F7"@)[3] == 'F' && ("KC_F7"@)[4] == '7',
        ("KC_F8"@).len() == 5 && ("KC_F8"@)[0] == 'K' && ("KC_F8"@)[1] == 'C' && ("KC_F8"@)[2] == '_' && ("KC_F8"@)[3] == 'F' && ("KC_F8"@)[4] == '8',
        ("KC_F9"@).len() == 5 && ("KC_F9"@)[0] == 'K' && ("KC_F9"@)[1] == 'C' && ("KC_F9"@)[2] == '_' && ("KC_F9"@)[3] == 'F' && ("KC_F9"@)[4] == '9',
        ("KC_F10"@).len() == 6 && ("KC_F10"@)[0] == 'K' && ("KC_F10"@)[1] == 'C' && ("KC_F10"@)[2] == '_' && ("KC_F10"@)[3] == 'F' && ("KC_F10"@)[4] == '1' && ("KC_F10"@)[5] == '0',
        ("KC_F11"@).len() == 6 && ("KC_F11"@)[0] == 'K' && ("KC_F11"@)[1] == 'C' && ("KC_F11"@)[2] == '_' && ("KC_F11"@)[3] == 'F' && ("KC_F11"@)[4] == '1' && ("KC_F11"@)[5] == '1',
        ("KC_F12"@).len() == 6 && ("KC_F12"@)[0] == 'K' && ("KC_F12"@)[1] == 'C' && ("KC_F12"@)[2] == '_' && ("KC_F12"@)[3] == 'F' && ("KC_F12"@)[4] == '1' && ("KC_F12"@)[5] == '2',
        ("KC_PRINT_SCREEN"@).len() == 15 && ("KC_PRINT_SCREEN"@)[0] == 'K' && ("KC_PRINT_SCREEN"@)[1] == 'C' && ("KC_PRINT_SCREEN"@)[2] == '_' && ("KC_PRINT_SCREEN"@)[3] == 'P' && ("KC_PRINT_SCREEN"@)[4] == 'R' && ("KC_PRINT_SCREEN"@)[5] == 'I' && ("KC_PRINT_SCREEN"@)[6] == 'N' && ("KC_PRINT_SCREEN"@)[7] == 'T' && ("KC_PRINT_SCREEN"@)[8] == '_' && ("KC_PRINT_SCREEN"@)[9] == 'S' && ("KC_PRINT_SCREEN"@)[10] == 'C' && ("KC_PRINT_SCREEN"@)[11] == 'R' && ("KC_PRINT_SCREEN"@)[12] == 'E' && ("KC_PRINT_SCREEN"@)[13] == 'E' && ("KC_PRINT_SCREEN"@)[14] == 'N',
        ("KC_SCROLL_LOCK"@).len() == 14 && ("KC_SCROLL_LOCK"@)[0] == 'K' && ("KC_SCROLL_LOCK"@)[1] == 'C' && ("KC_SCROLL_LOCK"@)[2] == '_' && ("KC_SCROLL_LOCK"@)[3] == 'S' && ("KC_SCROLL_LOCK"@)[4] == 'C' && ("KC_SCROLL_LOCK"@)[5] == 'R' && ("KC_SCROLL_LOCK"@)[6] == 'O' && ("KC_SCROLL_LOCK"@)[7] == 'L' && ("KC_SCROLL_LOCK"@)[8] == 'L' && ("KC_SCROLL_LOCK"@)[9] == '_' && ("KC_SCROLL_LOCK"@)[10] == 'L' && ("KC_SCROLL_LOCK"@)[11] == 'O' && ("KC_SCROLL_LOCK"@)[12] == 'C' && ("KC_SCROLL_LOCK"@)[13] == 'K',
        ("KC_PAUSE"@).len() == 8 && ("KC_PAUSE"@)[0] == 'K' && ("KC_PAUSE"@)[1] == 'C' && ("KC_PAUSE"@)[2] == '_' && ("KC_PAUSE"@)[3] == 'P' && ("KC_PAUSE"@)[4] == 'A' && ("KC_PAUSE"@)[5] == 'U' && ("KC_PAUSE"@)[6] == 'S' && ("KC_PAUSE"@)[7] == 'E',
        ("KC_INSERT"@).len() == 9 && ("KC_INSERT"@)[0] == 'K' && ("KC_INSERT"@)[1] == 'C' && ("KC_INSERT"@)[2] == '_' && ("KC_INSERT"@)[3] == 'I' && ("KC_INSERT"@)[4] == 'N' && ("KC_INSERT"@)[5] == 'S' && ("KC_INSERT"@)[6] == 'E' && ("KC_INSERT"@)[7] == 'R' && ("KC_INSERT"@)[8] == 'T',
        ("KC_HOME"@).len() == 7 && ("KC_HOME"@)[0] == 'K' && ("KC_HOME"@)[1] == 'C' && ("KC_HOME"@)[2] == '_' && ("KC_HOME"@)[3] == 'H' && ("KC_HOME"@)[4] == 'O' && ("KC_HOME"@)[5] == 'M' && ("KC_HOME"@)[6] == 'E',
        ("KC_PAGE_UP"@).len() == 10 && ("KC_PAGE_UP"@)[0] == 'K' && ("KC_PAGE_UP"@)[1] == 'C' && ("KC_PAGE_UP"@)[2] == '_' && ("KC_PAGE_UP"@)[3] == 'P' && ("KC_PAGE_UP"@)[4] == 'A' && ("KC_PAGE_UP"@)[5] == 'G' && ("KC_PAGE_UP"@)[6] == 'E' && ("KC_PAGE_UP"@)[7] == '_' && ("KC_PAGE_UP"@)[8] == 'U' && ("KC_PAGE_UP"@)[9] == 'P',
        ("KC_DELETE"@).len() == 9 && ("KC_DELETE"@)[0] == 'K' && ("KC_DELETE"@)[1] == 'C' && ("KC_DELETE"@)[2] == '_' && ("KC_DELETE"@)[3] == 'D' && ("KC_DELETE"@)[4] == 'E' && ("KC_DELETE"@)[5] == 'L' && ("KC_DELETE"@)[6] == 'E' && ("KC_DELETE"@)[7] == 'T' && ("KC_DELETE"@)[8] == 'E',
        ("KC_END"@).len() == 6 && ("KC_END"@)[0] == 'K' && ("KC_END"@)[1] == 'C' && ("KC_END"@)[2] == '_' && ("KC_END"@)[3] == 'E' && ("KC_END"@)[4] == 'N' && ("KC_END"@)[5] == 'D',
        ("KC_PAGE_DOWN"@).len() == 12 && ("KC_PAGE_DOWN"@)[0] == 'K' && ("KC_PAGE_DOWN"@)[1] == 'C' && ("KC_PAGE_DOWN"@)[2] == '_' && ("KC_PAGE_DOWN"@)[3] == 'P' && ("KC_PAGE_DOWN"@)[4] == 'A' && ("KC_PAGE_DOWN"@)[5] == 'G' && ("KC_PAGE_DOWN"@)[6] == 'E' && ("KC_PAGE_DOWN"@)[7] == '_' && ("KC_PAGE_DOWN"@)[8] == 'D' && ("KC_PAGE_DOWN"@)[9] == 'O' && ("KC_PAGE_DOWN"@)[10] == 'W' && ("KC_PAGE_DOWN"@)[11] == 'N',
        ("KC_RIGHT"@).len() == 8 && ("KC_RIGHT"@)[0] == 'K' && ("KC_RIGHT"@)[1] == 'C' && ("KC_RIGHT"@)[2] == '_' && ("KC_RIGHT"@)[3] == 'R' && ("KC_RIGHT"@)[4] == 'I' && ("KC_RIGHT"@)[5] == 'G' && ("KC_RIGHT"@)[6] == 'H' && ("KC_RIGHT"@)[7] == 'T',
{
    reveal_strlit("KC_F7");
    reveal_strlit("KC_F8");
    reveal_strlit("KC_F9");
    reveal_strlit("KC_F10");
    reveal_strlit("KC_F11");
    reveal_strlit("KC_F12");
    reveal_strlit("KC_PRINT_SCREEN");
    reveal_strlit("KC_SCROLL_LOCK");
    reveal_strlit("KC_PAUSE");
    reveal_strlit("KC_INSERT");
    reveal_strlit("KC_HOME");
    reveal_strlit("KC_PAGE_UP");
    reveal_strlit("KC_DELETE");
    reveal_strlit("KC_END");
    reveal_strlit("KC_PAGE_DOWN");
    reveal_strlit("KC_RIGHT");
    assert(("KC_F7"@).len() == 5);
    assert(("KC_F7"@)[0] == 'K');
    assert(("KC_F7"@)[1] == 'C');
    assert(("KC_F7"@)[2] == '_');
    assert(("KC_F7"@)[3] == 'F');
    assert(("KC_F7"@)[4] == '7');
    assert(("KC_F8"@).len() == 5);
    assert(("KC_F8"@)[0] == 'K');
    assert(("KC_F8"@)[1] == 'C');
    assert(("KC_F8"@)[2] == '_');
    assert(("KC_F8"@)[3] == 'F');
    assert(("KC_F8"@)[4] == '8');
    assert(("KC_F9"@).len() == 5);
    assert(("KC_F9"@)[0] == 'K');
    assert(("KC_F9"@)[1] == 'C');
    assert(("KC_F9"@)[2] == '_');
    assert(("KC_F9"@)[3] == 'F');
    assert(("KC_F9"@)[4] == '9');
    assert(("KC_F10"@).len() == 6);
    assert(("KC_F10"@)[0] == 'K');
    assert(("KC_F10"@)[1] == 'C');
    assert(("KC_F10"@)[2] == '_');
    assert(("KC_F10"@)[3] == 'F');
    assert(("KC_F10"@)[4] == '1');
    assert(("KC_F10"@)[5] == '0');
    assert(("KC_F11"@).len() == 6);
    assert(("KC_F11"@)[0] == 'K');
    assert(("KC_F11"@)[1] == 'C');
    assert(("KC_F11"@)[2] == '_');
    assert(("KC_F11"@)[3] == 'F');
    assert(("KC_F11"@)[4] == '1');
    assert(("KC_F11"@)[5] == '1');
    assert(("KC_F12"@).len() == 6);
    assert(("KC_F12"@)[0] == 'K');
    assert(("KC_F12"@)[1] == 'C');
    assert(("KC_F12"@)[2] == '_');
    assert(("KC_F12"@)[3] == 'F');
    assert(("KC_F12"@)[4] == '1');
    assert(("KC_F12"@)[5] == '2');
    assert(("KC_PRINT_SCREEN"@).len() == 15);
    assert(("KC_PRINT_SCREEN"@)[0] == 'K');
    assert(("KC_PRINT_SCREEN"@)[1] == 'C');
    assert(("KC_PRINT_SCREEN"@)[2] == '_');
    assert(("KC_PRINT_SCREEN"@)[3] == 'P');
    assert(("KC_PRINT_SCREEN"@)[4] == 'R');
    assert(("KC_PRINT_SCREEN"@)[5] == 'I');
    assert(("KC_PRINT_SCREEN"@)[6] == 'N');
    assert(("KC_PRINT_SCREEN"@)[7] == 'T');
    assert(("KC_PRINT_SCREEN"@)[8] == '_');
    assert(("KC_PRINT_SCREEN"@)[9] == 'S');
    assert(("KC_PRINT_SCREEN"@)[10] == 'C');
    assert(("KC_PRINT_SCREEN"@)[11] == 'R');
    assert(("KC_PRINT_SCREEN"@)[12] == 'E');
    assert(("KC_PRINT_SCREEN"@)[13] == 'E');
    assert(("KC_PRINT_SCREEN"@)[14] == 'N');
    assert(("KC_SCROLL_LOCK"@).len() == 14);
    assert(("KC_SCROLL_LOCK"@)[0] == 'K');
    assert(("KC_SCROLL_LOCK"@)[1] == 'C');
    assert(("KC_SCROLL_LOCK"@)[2] == '_');
    assert(("KC_SCROLL_LOCK"@)[3] == 'S');
    assert(("KC_SCROLL_LOCK"@)[4] == 'C');
    assert(("KC_SCROLL_LOCK"@)[5] == 'R');
    assert(("KC_SCROLL_LOCK"@)[6] == 'O');
    assert(("KC_SCROLL_LOCK"@)[7] == 'L');
    assert(("KC_SCROLL_LOCK"@)[8] == 'L');
    assert(("KC_SCROLL_LOCK"@)[9] == '_');
    assert(("KC_SCROLL_LOCK"@)[10] == 'L');
    assert(("KC_SCROLL_LOCK"@)[11] == 'O');
    assert(("KC_SCROLL_LOCK"@)[12] == 'C');
    assert(("KC_SCROLL_LOCK"@)[13] == 'K');
    assert(("KC_PAUSE"@).len() == 8);
    assert(("KC_PAUSE"@)[0] == 'K');
    assert(("KC_PAUSE"@)[1] == 'C');
    assert(("KC_PAUSE"@)[2] == '_');
    assert(("KC_PAUSE"@)[3] == 'P');
    assert(("KC_PAUSE"@)[4] == 'A');
    assert(("KC_PAUSE"@)[5] == 'U');
    assert(("KC_PAUSE"@)[6] == 'S');
    assert(("KC_PAUSE"@)[7] == 'E');
    assert(("KC_INSERT"@).len() == 9);
    assert(("KC_INSERT"@)[0] == 'K');
    assert(("KC_INSERT"@)[1] == 'C');
    assert(("KC_INSERT"@)[2] == '_');
    assert(("KC_INSERT"@)[3] == 'I');
    assert(("KC_INSERT"@)[4] == 'N');
    assert(("KC_INSERT"@)[5] == 'S');
    assert(("KC_INSERT"@)[6] == 'E');
    assert(("KC_INSERT"@)[7] == 'R');
    assert(("KC_INSERT"@)[8] == 'T');
    assert(("KC_HOME"@).len() == 7);
    assert(("KC_HOME"@)[0] == 'K');
    assert(("KC_HOME"@)[1] == 'C');
    assert(("KC_HOME"@)[2] == '_');
    assert(("KC_HOME"@)[3] == 'H');
    assert(("KC_HOME"@)[4] == 'O');
    assert(("KC_HOME"@)[5] == 'M');
    assert(("KC_HOME"@)[6] == 'E');
    assert(("KC_PAGE_UP"@).len() == 10);
    assert(("KC_PAGE_UP"@)[0] == 'K');
    assert(("KC_PAGE_UP"@)[1] == 'C');
    assert(("KC_PAGE_UP"@)[2] == '_');
    assert(("KC_PAGE_UP"@)[3] == 'P');
    assert(("KC_PAGE_UP"@)[4] == 'A');
    assert(("KC_PAGE_UP"@)[5] == 'G');
    assert(("KC_PAGE_UP"@)[6] == 'E');
    assert(("KC_PAGE_UP"@)[7] == '_');
    assert(("KC_PAGE_UP"@)[8] == 'U');
    assert(("KC_PAGE_UP"@)[9] == 'P');
    assert(("KC_DELETE"@).len() == 9);
    assert(("KC_DELETE"@)[0] == 'K');
    assert(("KC_DELETE"@)[1] == 'C');
    assert(("KC_DELETE"@)[2] == '_');
    assert(("KC_DELETE"@)[3] == 'D');
    assert(("KC_DELETE"@)[4] == 'E');
    assert(("KC_DELETE"@)[5] == 'L');
    assert(("KC_DELETE"@)[6] == 'E');
    assert(("KC_DELETE"@)[7] == 'T');
    assert(("KC_DELETE"@)[8] == 'E');
    assert(("KC_END"@).len() == 6);
    assert(("KC_END"@)[0] == 'K');
    assert(("KC_END"@)[1] == 'C');
    assert(("KC_END"@)[2] == '_');
    assert(("KC_END"@)[3] == 'E');
    assert(("KC_END"@)[4] == 'N');
    assert(("KC_END"@)[5] == 'D');
    assert(("KC_PAGE_DOWN"@).len() == 12);
    assert(("KC_PAGE_DOWN"@)[0] == 'K');
    assert(("KC_PAGE_DOWN"@)[1] == 'C');
    assert(("KC_PAGE_DOWN"@)[2] == '_');
    assert(("KC_PAGE_DOWN"@)[3] == 'P');
    assert(("KC_PAGE_DOWN"@)[4] == 'A');
    assert(("KC_PAGE_DOWN"@)[5] == 'G');
    assert(("KC_PAGE_DOWN"@)[6] == 'E');
    assert(("KC_PAGE_DOWN"@)[7] == '_');
    assert(("KC_PAGE_DOWN"@)[8] == 'D');
    assert(("KC_PAGE_DOWN"@)[9] == 'O');
    assert(("KC_PAGE_DOWN"@)[10] == 'W');
    assert(("KC_PAGE_DOWN"@)[11] == 'N');
    assert(("KC_RIGHT"@).len() == 8);
    assert(("KC_RIGHT"@)[0] == 'K');
    assert(("KC_RIGHT"@)[1] == 'C');
    assert(("KC_RIGHT"@)[2] == '_');
    assert(("KC_RIGHT"@)[3] == 'R');
    assert(("KC_RIGHT"@)[4] == 'I');
    assert(("KC_RIGHT"@)[5] == 'G');
    assert(("KC_RIGHT"@)[6] == 'H');
    assert(("KC_RIGHT"@)[7] == 'T');
}

proof fn lemma_name_facts_block_5()
    ensures
        ("KC_LEFT"@).len() == 7 && ("KC_LEFT"@)[0] == 'K' && ("KC_LEFT"@)[1] == 'C' && ("KC_LEFT"@)[2] == '_' && ("KC_LEFT"@)[3] == 'L' && ("KC_LEFT"@)[4] == 'E' && ("KC_LEFT"@)[5] == 'F' && ("KC_LEFT"@)[6] == 'T',
        ("KC_DOWN"@).len() == 7 && ("KC_DOWN"@)[0] == 'K' && ("KC_DOWN"@)[1] == 'C' && ("KC_DOWN"@)[2] == '_' && ("KC_DOWN"@)[3] == 'D' && ("KC_DOWN"@)[4] == 'O' && ("KC_DOWN"@)[5] == 'W' && ("KC_DOWN"@)[6] == 'N',
        ("KC_UP"@).len() == 5 && ("KC_UP"@)[0] == 'K' && ("KC_UP"@)[1] == 'C' && ("KC_UP"@)[2] == '_' && ("KC_UP"@)[3] == 'U' && ("KC_UP"@)[4] == 'P',
        ("KC_NUM_LOCK"@).len() == 11 && ("KC_NUM_LOCK"@)[0] == 'K' && ("KC_NUM_LOCK"@)[1] == 'C' && ("KC_NUM_LOCK"@)[2] == '_' && ("KC_NUM_LOCK"@)[3] == 'N' && ("KC_NUM_LOCK"@)[4] == 'U' && ("KC_NUM_LOCK"@)[5] == 'M' && ("KC_NUM_LOCK"@)[6] == '_' && ("KC_NUM_LOCK"@)[7] == 'L' && ("KC_NUM_LOCK"@)[8] == 'O' && ("KC_NUM_LOCK"@)[9] == 'C' && ("KC_NUM_LOCK"@)[10] == 'K',
        ("KC_KP_SLASH"@).len() == 11 && ("KC_KP_SLASH"@)[0] == 'K' && ("KC_KP_SLASH"@)[1] == 'C' && ("KC_KP_SLASH"@)[2] == '_' && ("KC_KP_SLASH"@)[3] == 'K' && ("KC_KP_SLASH"@)[4] == 'P' && ("KC_KP_SLASH"@)[5] == '_' && ("KC_KP_SLASH"@)[6] == 'S' && ("KC_KP_SLASH"@)[7] == 'L' && ("KC_KP_SLASH"@)[8] == 'A' && ("KC_KP_SLASH"@)[9] == 'S' && ("KC_KP_SLASH"@)[10] == 'H',
        ("KC_KP_ASTERISK"@).len() == 14 && ("KC_KP_ASTERISK"@)[0] == 'K' && ("KC_KP_ASTERISK"@)[1] == 'C' && ("KC_KP_ASTERISK"@)[2] == '_' && ("KC_KP_ASTERISK"@)[3] == 'K' && ("KC_KP_ASTERISK"@)[4] == 'P' && ("KC_KP_ASTERISK"@)[5] == '_' && ("KC_KP_ASTERISK"@)[6] == 'A' && ("KC_KP_ASTERISK"@)[7] == 'S' && ("KC_KP_ASTERISK"@)[8] == 'T' && ("KC_KP_ASTERISK"@)[9] == 'E' && ("KC_KP_ASTERISK"@)[10] == 'R' && ("KC_KP_ASTERISK"@)[11] == 'I' && ("KC_KP_ASTERISK"@)[12] == 'S' && ("KC_KP_ASTERISK"@)[13] == 'K',
        ("KC_KP_MINUS"@).len() == 11 && ("KC_KP_MINUS"@)[0] == 'K' && ("KC_KP_MINUS"@)[1] == 'C' && ("KC_KP_MINUS"@)[2] == '_' && ("KC_KP_MINUS"@)[3] == 'K' && ("KC_KP_MINUS"@)[4] == 'P' && ("KC_KP_MINUS"@)[5] == '_' && ("KC_KP_MINUS"@)[6] == 'M' && ("KC_KP_MINUS"@)[7] == 'I' && ("KC_KP_MINUS"@)[8] == 'N' && ("KC_KP_MINUS"@)[9] == 'U' && ("KC_KP_MINUS"@)[10] == 'S',
        ("KC_KP_PLUS"@).len() == 10 && ("KC_KP_PLUS"@)[0] == 'K' && ("KC_KP_PLUS"@)[1] == 'C' && ("KC_KP_PLUS"@)[2] == '_' && ("KC_KP_PLUS"@)[3] == 'K' && ("KC_KP_PLUS"@)[4] == 'P' && ("KC_KP_PLUS"@)[5] == '_' && ("KC_KP_PLUS"@)[6] == 'P' && ("KC_KP_PLUS"@)[7] == 'L' && ("KC_KP_PLUS"@)[8] == 'U' && ("KC_KP_PLUS"@)[9] == 'S',
        ("KC_KP_ENTER"@).len() == 11 && ("KC_KP_ENTER"@)[0] == 'K' && ("KC_KP_ENTER"@)[1] == 'C' && ("KC_KP_ENTER"@)[2] == '_' && ("KC_KP_ENTER"@)[3] == 'K' && ("KC_KP_ENTER"@)[4] == 'P' && ("KC_KP_ENTER"@)[5] == '_' && ("KC_KP_ENTER"@)[6] == 'E' && ("KC_KP_ENTER"@)[7] == 'N' && ("KC_KP_ENTER"@)[8] == 'T' && ("KC_KP_ENTER"@)[9] == 'E' && ("KC_KP_ENTER"@)[10] == 'R',
        ("KC_KP_1"@).len() == 7 && ("KC_KP_1"@)[0] == 'K' && ("KC_KP_1"@)[1] == 'C' && ("KC_KP_1"@)[2] == '_' && ("KC_KP_1"@)[3] == 'K' && ("KC_KP_1"@)[4] == 'P' && ("KC_KP_1"@)[5] == '_' && ("KC_KP_1"@)[6] == '1',
        ("KC_KP_2"@).len() == 7 && ("KC_KP_2"@)[0] == 'K' && ("KC_KP_2"@)[1] == 'C' && ("KC_KP_2"@)[2] == '_' && ("KC_KP_2"@)[3] == 'K' && ("KC_KP_2"@)[4] == 'P' && ("KC_KP_2"@)[5] == '_' && ("KC_KP_2"@)[6] == '2',
        ("KC_KP_3"@).len() == 7 && ("KC_KP_3"@)[0] == 'K' && ("KC_KP_3"@)[1] == 'C' && ("KC_KP_3"@)[2] == '_' && ("KC_KP_3"@)[3] == 'K' && ("KC_KP_3"@)[4] == 'P' && ("KC_KP_3"@)[5] == '_' && ("KC_KP_3"@)[6] == '3',
        ("KC_KP_4"@).len() == 7 && ("KC_KP_4"@)[0] == 'K' && ("KC_KP_4"@)[1] == 'C' && ("KC_KP_4"@)[2] == '_' && ("KC_KP_4"@)[3] == 'K' && ("KC_KP_4"@)[4] == 'P' && ("KC_KP_4"@)[5] == '_' && ("KC_KP_4"@)[6] == '4',
        ("KC_KP_5"@).len() == 7 && ("KC_KP_5"@)[0] == 'K' && ("KC_KP_5"@)[1] == 'C' && ("KC_KP_5"@)[2] == '_' && ("KC_KP_5"@)[3] == 'K' && ("KC_KP_5"@)[4] == 'P' && ("KC_KP_5"@)[5] == '_' && ("KC_KP_5"@)[6] == '5',
        ("KC_KP_6"@).len() == 7 && ("KC_KP_6"@)[0] == 'K' && ("KC_KP_6"@)[1] == 'C' && ("KC_KP_6"@)[2] == '_' && ("KC_KP_6"@)[3] == 'K' && ("KC_KP_6"@)[4] == 'P' && ("KC_KP_6"@)[5] == '_' && ("KC_KP_6"@)[6] == '6',
        ("KC_KP_7"@).len() == 7 && ("KC_KP_7"@)[0] == 'K' && ("KC_KP_7"@)[1] == 'C' && ("KC_KP_7"@)[2] == '_' && ("KC_KP_7"@)[3] == 'K' && ("KC_KP_7"@)[4] == 'P' && ("KC_KP_7"@)[5] == '_' && ("KC_KP_7"@)[6] == '7',
{
    reveal_strlit("KC_LEFT");
    reveal_strlit("KC_DOWN");
    reveal_strlit("KC_UP");
    reveal_strlit("KC_NUM_LOCK");
    reveal_strlit("KC_KP_SLASH");
    reveal_strlit("KC_KP_ASTERISK");
    reveal_strlit("KC_KP_MINUS");
    reveal_strlit("KC_KP_PLUS");
    reveal_strlit("KC_KP_ENTER");
    reveal_strlit("KC_KP_1");
    reveal_strlit("KC_KP_2");
    reveal_strlit("KC_KP_3");
    reveal_strlit("KC_KP_4");
    reveal_strlit("KC_KP_5");
    reveal_strlit("KC_KP_6");
    reveal_strlit("KC_KP_7");
    assert(("KC_LEFT"@).len() == 7);
    assert(("KC_LEFT"@)[0] == 'K');
    assert(("KC_LEFT"@)[1] == 'C');
    assert(("KC_LEFT"@)[2] == '_');
    assert(("KC_LEFT"@)[3] == 'L');
    assert(("KC_LEFT"@)[4] == 'E');
    assert(("KC_LEFT"@)[5] == 'F');
    assert(("KC_LEFT"@)[6] == 'T');
    assert(("KC_DOWN"@).len() == 7);
    assert(("KC_DOWN"@)[0] == 'K');
    assert(("KC_DOWN"@)[1] == 'C');
    assert(("KC_DOWN"@)[2] == '_');
    assert(("KC_DOWN"@)[3] == 'D');
    assert(("KC_DOWN"@)[4] == 'O');
    assert(("KC_DOWN"@)[5] == 'W');
    assert(("KC_DOWN"@)[6] == 'N');
    assert(("KC_UP"@).len() == 5);
    assert(("KC_UP"@)[0] == 'K');
    assert(("KC_UP"@)[1] == 'C');
    assert(("KC_UP"@)[2] == '_');
    assert(("KC_UP"@)[3] == 'U');
    assert(("KC_UP"@)[4] == 'P');
    assert(("KC_NUM_LOCK"@).len() == 11);
    assert(("KC_NUM_LOCK"@)[0] == 'K');
    assert(("KC_NUM_LOCK"@)[1] == 'C');
    assert(("KC_NUM_LOCK"@)[2] == '_');
    assert(("KC_NUM_LOCK"@)[3] == 'N');
    assert(("KC_NUM_LOCK"@)[4] == 'U');
    assert(("KC_NUM_LOCK"@)[5] == 'M');
    assert(("KC_NUM_LOCK"@)[6] == '_');
    assert(("KC_NUM_LOCK"@)[7] == 'L');
    assert(("KC_NUM_LOCK"@)[8] == 'O');
    assert(("KC_NUM_LOCK"@)[9] == 'C');
    assert(("KC_NUM_LOCK"@)[10] == 'K');
    assert(("KC_KP_SLASH"@).len() == 11);
    assert(("KC_KP_SLASH"@)[0] == 'K');
    assert(("KC_KP_SLASH"@)[1] == 'C');
    assert(("KC_KP_SLASH"@)[2] == '_');
    assert(("KC_KP_SLASH"@)[3] == 'K');
    assert(("KC_KP_SLASH"@)[4] == 'P');
    assert(("KC_KP_SLASH"@)[5] == '_');
    assert(("KC_KP_SLASH"@)[6] == 'S');
    assert(("KC_KP_SLASH"@)[7] == 'L');
    assert(("KC_KP_SLASH"@)[8] == 'A');
    assert(("KC_KP_SLASH"@)[9] == 'S');
    assert(("KC_KP_SLASH"@)[10] == 'H');
    assert(("KC_KP_ASTERISK"@).len() == 14);
    assert(("KC_KP_ASTERISK"@)[0] == 'K');
    assert(("KC_KP_ASTERISK"@)[1] == 'C');
    assert(("KC_KP_ASTERISK"@)[2] == '_');
    assert(("KC_KP_ASTERISK"@)[3] == 'K');
    assert(("KC_KP_ASTERISK"@)[4] == 'P');
    assert(("KC_KP_ASTERISK"@)[5] == '_');
    assert(("KC_KP_ASTERISK"@)[6] == 'A');
    assert(("KC_KP_ASTERISK"@)[7] == 'S');
    assert(("KC_KP_ASTERISK"@)[8] == 'T');
    assert(("KC_KP_ASTERISK"@)[9] == 'E');
    assert(("KC_KP_ASTERISK"@)[10] == 'R');
    assert(("KC_KP_ASTERISK"@)[11] == 'I');
    assert(("KC_KP_ASTERISK"@)[12] == 'S');
    assert(("KC_KP_ASTERISK"@)[13] == 'K');
    assert(("KC_KP_MINUS"@).len() == 11);
    assert(("KC_KP_MINUS"@)[0] == 'K');
    assert(("KC_KP_MINUS"@)[1] == 'C');
    assert(("KC_KP_MINUS"@)[2] == '_');
    assert(("KC_KP_MINUS"@)[3] == 'K');
    assert(("KC_KP_MINUS"@)[4] == 'P');
    assert(("KC_KP_MINUS"@)[5] == '_');
    assert(("KC_KP_MINUS"@)[6] == 'M');
    assert(("KC_KP_MINUS"@)[7] == 'I');
    assert(("KC_KP_MINUS"@)[8] == 'N');
    assert(("KC_KP_MINUS"@)[9] == 'U');
    assert(("KC_KP_MINUS"@)[10] == 'S');
    assert(("KC_KP_PLUS"@).len() == 10);
    assert(("KC_KP_PLUS"@)[0] == 'K');
    assert(("KC_KP_PLUS"@)[1] == 'C');
    assert(("KC_KP_PLUS"@)[2] == '_');
    assert(("KC_KP_PLUS"@)[3] == 'K');
    assert(("KC_KP_PLUS"@)[4] == 'P');
    assert(("KC_KP_PLUS"@)[5] == '_');
    assert(("KC_KP_PLUS"@)[6] == 'P');
    assert(("KC_KP_PLUS"@)[7] == 'L');
    assert(("KC_KP_PLUS"@)[8] == 'U');
    assert(("KC_KP_PLUS"@)[9] == 'S');
    assert(("KC_KP_ENTER"@).len() == 11);
    assert(("KC_KP_ENTER"@)[0] == 'K');
    assert(("KC_KP_ENTER"@)[1] == 'C');
    assert(("KC_KP_ENTER"@)[2] == '_');
    assert(("KC_KP_ENTER"@)[3] == 'K');
    assert(("KC_KP_ENTER"@)[4] == 'P');
    assert(("KC_KP_ENTER"@)[5] == '_');
    assert(("KC_KP_ENTER"@)[6] == 'E');
    assert(("KC_KP_ENTER"@)[7] == 'N');
    assert(("KC_KP_ENTER"@)[8] == 'T');
    assert(("KC_KP_ENTER"@)[9] == 'E');
    assert(("KC_KP_ENTER"@)[10] == 'R');
    assert(("KC_KP_1"@).len() == 7);
    assert(("KC_KP_1"@)[0] == 'K');
    assert(("KC_KP_1"@)[1] == 'C');
    assert(("KC_KP_1"@)[2] == '_');
    assert(("KC_KP_1"@)[3] == 'K');
    assert(("KC_KP_1"@)[4] == 'P');
    assert(("KC_KP_1"@)[5] == '_');
    assert(("KC_KP_1"@)[6] == '1');
    assert(("KC_KP_2"@).len() == 7);
    assert(("KC_KP_2"@)[0] == 'K');
    assert(("KC_KP_2"@)[1] == 'C');
    assert(("KC_KP_2"@)[2] == '_');
    assert(("KC_KP_2"@)[3] == 'K');
    assert(("KC_KP_2"@)[4] == 'P');
    assert(("KC_KP_2"@)[5] == '_');
    assert(("KC_KP_2"@)[6] == '2');
    assert(("KC_KP_3"@).len() == 7);
    assert(("KC_KP_3"@)[0] == 'K');
    assert(("KC_KP_3"@)[1] == 'C');
    assert(("KC_KP_3"@)[2] == '_');
    assert(("KC_KP_3"@)[3] == 'K');
    assert(("KC_KP_3"@)[4] == 'P');
    assert(("KC_KP_3"@)[5] == '_');
    assert(("KC_KP_3"@)[6] == '3');
    assert(("KC_KP_4"@).len() == 7);
    assert(("KC_KP_4"@)[0] == 'K');
    assert(("KC_KP_4"@)[1] == 'C');
    assert(("KC_KP_4"@)[2] == '_');
    assert(("KC_KP_4"@)[3] == 'K');
    assert(("KC_KP_4"@)[4] == 'P');
    assert(("KC_KP_4"@)[5] == '_');
    assert(("KC_KP_4"@)[6] == '4');
    assert(("KC_KP_5"@).len() == 7);
    assert(("KC_KP_5"@)[0] == 'K');
    assert(("KC_KP_5"@)[1] == 'C');
    assert(("KC_KP_5"@)[2] == '_');
    assert(("KC_KP_5"@)[3] == 'K');
    assert(("KC_KP_5"@)[4] == 'P');
    assert(("KC_KP_5"@)[5] == '_');
    assert(("KC_KP_5"@)[6] == '5');
    assert(("KC_KP_6"@).len() == 7);
    assert(("KC_KP_6"@)[0] == 'K');
    assert(("KC_KP_6"@)[1] == 'C');
    assert(("KC_KP_6"@)[2] == '_');
    assert(("KC_KP_6"@)[3] == 'K');
    assert(("KC_KP_6"@)[4] == 'P');
    assert(("KC_KP_6"@)[5] == '_');
    assert(("KC_KP_6"@)[6] == '6');
    assert(("KC_KP_7"@).len() == 7);
    assert(("KC_KP_7"@)[0] == 'K');
    assert(("KC_KP_7"@)[1] == 'C');
    assert(("KC_KP_7"@)[2] == '_');
    assert(("KC_KP_7"@)[3] == 'K');
    assert(("KC_KP_7"@)[4] == 'P');
    assert(("KC_KP_7"@)[5] == '_');
    assert(("KC_KP_7"@)[6] == '7');
}

proof fn lemma_name_facts_block_6()
    ensures
        ("KC_KP_8"@).len() == 7 && ("KC_KP_8"@)[0] == 'K' && ("KC_KP_8"@)[1] == 'C' && ("KC_KP_8"@)[2] == '_' && ("KC_KP_8"@)[3] == 'K' && ("KC_KP_8"@)[4] == 'P' && ("KC_KP_8"@)[5] == '_' && ("KC_KP_8"@)[6] == '8',
        ("KC_KP_9"@).len() == 7 && ("KC_KP_9"@)[0] == 'K' && ("KC_KP_9"@)[1] == 'C' && ("KC_KP_9"@)[2] == '_' && ("KC_KP_9"@)[3] == 'K' && ("KC_KP_9"@)[4] == 'P' && ("KC_KP_9"@)[5] == '_' && ("KC_KP_9"@)[6] == '9',
        ("KC_KP_0"@).len() == 7 && ("KC_KP_0"@)[0] == 'K' && ("KC_KP_0"@)[1] == 'C' && ("KC_KP_0"@)[2] == '_' && ("KC_KP_0"@)[3] == 'K' && ("KC_KP_0"@)[4] == 'P' && ("KC_KP_0"@)[5] == '_' && ("KC_KP_0"@)[6] == '0',
        ("KC_KP_DOT"@).len() == 9 && ("KC_KP_DOT"@)[0] == 'K' && ("KC_KP_DOT"@)[1] == 'C' && ("KC_KP_DOT"@)[2] == '_' && ("KC_KP_DOT"@)[3] == 'K' && ("KC_KP_DOT"@)[4] == 'P' && ("KC_KP_DOT"@)[5] == '_' && ("KC_KP_DOT"@)[6] == 'D' && ("KC_KP_DOT"@)[7] == 'O' && ("KC_KP_DOT"@)[8] == 'T',
        ("KC_NONUS_BACKSLASH"@).len() == 18 && ("KC_NONUS_BACKSLASH"@)[0] == 'K' && ("KC_NONUS_BACKSLASH"@)[1] == 'C' && ("KC_NONUS_BACKSLASH"@)[2] == '_' && ("KC_NONUS_BACKSLASH"@)[3] == 'N' && ("KC_NONUS_BACKSLASH"@)[4] == 'O' && ("KC_NONUS_BACKSLASH"@)[5] == 'N' && ("KC_NONUS_BACKSLASH"@)[6] == 'U' && ("KC_NONUS_BACKSLASH"@)[7] == 'S' && ("KC_NONUS_BACKSLASH"@)[8] == '_' && ("KC_NONUS_BACKSLASH"@)[9] == 'B' && ("KC_NONUS_BACKSLASH"@)[10] == 'A' && ("KC_NONUS_BACKSLASH"@)[11] == 'C' && ("KC_NONUS_BACKSLASH"@)[12] == 'K' && ("KC_NONUS_BACKSLASH"@)[13] == 'S' && ("KC_NONUS_BACKSLASH"@)[14] == 'L' && ("KC_NONUS_BACKSLASH"@)[15] == 'A' && ("KC_NONUS_BACKSLASH"@)[16] == 'S' && ("KC_NONUS_BACKSLASH"@)[17] == 'H',
        ("KC_APPLICATION"@).len() == 14 && ("KC_APPLICATION"@)[0] == 'K' && ("KC_APPLICATION"@)[1] == 'C' && ("KC_APPLICATION"@)[2] == '_' && ("KC_APPLICATION"@)[3] == 'A' && ("KC_APPLICATION"@)[4] == 'P' && ("KC_APPLICATION"@)[5] == 'P' && ("KC_APPLICATION"@)[6] == 'L' && ("KC_APPLICATION"@)[7] == 'I' && ("KC_APPLICATION"@)[8] == 'C' && ("KC_APPLICATION"@)[9] == 'A' && ("KC_APPLICATION"@)[10] == 'T' && ("KC_APPLICATION"@)[11] == 'I' && ("KC_APPLICATION"@)[12] == 'O' && ("KC_APPLICATION"@)[13] == 'N',
        ("KC_KB_POWER"@).len() == 11 && ("KC_KB_POWER"@)[0] == 'K' && ("KC_KB_POWER"@)[1] == 'C' && ("KC_KB_POWER"@)[2] == '_' && ("KC_KB_POWER"@)[3] == 'K' && ("KC_KB_POWER"@)[4] == 'B' && ("KC_KB_POWER"@)[5] == '_' && ("KC_KB_POWER"@)[6] == 'P' && ("KC_KB_POWER"@)[7] == 'O' && ("KC_KB_POWER"@)[8] == 'W' && ("KC_KB_POWER"@)[9] == 'E' && ("KC_KB_POWER"@)[10] == 'R',
        ("KC_KP_EQUAL"@).len() == 11 && ("KC_KP_EQUAL"@)[0] == 'K' && ("KC_KP_EQUAL"@)[1] == 'C' && ("KC_KP_EQUAL"@)[2] == '_' && ("KC_KP_EQUAL"@)[3] == 'K' && ("KC_KP_EQUAL"@)[4] == 'P' && ("KC_KP_EQUAL"@)[5] == '_' && ("KC_KP_EQUAL"@)[6] == 'E' && ("KC_KP_EQUAL"@)[7] == 'Q' && ("KC_KP_EQUAL"@)[8] == 'U' && ("KC_KP_EQUAL"@)[9] == 'A' && ("KC_KP_EQUAL"@)[10] == 'L',
        ("KC_F13"@).len() == 6 && ("KC_F13"@)[0] == 'K' && ("KC_F13"@)[1] == 'C' && ("KC_F13"@)[2] == '_' && ("KC_F13"@)[3] == 'F' && ("KC_F13"@)[4] == '1' && ("KC_F13"@)[5] == '3',
        ("KC_F14"@).len() == 6 && ("KC_F14"@)[0] == 'K' && ("KC_F14"@)[1] == 'C' && ("KC_F14"@)[2] == '_' && ("KC_F14"@)[3] == 'F' && ("KC_F14"@)[4] == '1' && ("KC_F14"@)[5] == '4',
        ("KC_F15"@).len() == 6 && ("KC_F15"@)[0] == 'K' && ("KC_F15"@)[1] == 'C' && ("KC_F15"@)[2] == '_' && ("KC_F15"@)[3] == 'F' && ("KC_F15"@)[4] == '1' && ("KC_F15"@)[5] == '5',
        ("KC_F16"@).len() == 6 && ("KC_F16"@)[0] == 'K' && ("KC_F16"@)[1] == 'C' && ("KC_F16"@)[2] == '_' && ("KC_F16"@)[3] == 'F' && ("KC_F16"@)[4] == '1' && ("KC_F16"@)[5] == '6',
        ("KC_F17"@).len() == 6 && ("KC_F17"@)[0] == 'K' && ("KC_F17"@)[1] == 'C' && ("KC_F17"@)[2] == '_' && ("KC_F17"@)[3] == 'F' && ("KC_F17"@)[4] == '1' && ("KC_F17"@)[5] == '7',
        ("KC_F18"@).len() == 6 && ("KC_F18"@)[0] == 'K' && ("KC_F18"@)[1] == 'C' && ("KC_F18"@)[2] == '_' && ("KC_F18"@)[3] == 'F' && ("KC_F18"@)[4] == '1' && ("KC_F18"@)[5] == '8',
        ("KC_F19"@).len() == 6 && ("KC_F19"@)[0] == 'K' && ("KC_F19"@)[1] == 'C' && ("KC_F19"@)[2] == '_' && ("KC_F19"@)[3] == 'F' && ("KC_F19"@)[4] == '1' && ("KC_F19"@)[5] == '9',
        ("KC_F20"@).len() == 6 && ("KC_F20"@)[0] == 'K' && ("KC_F20"@)[1] == 'C' && ("KC_F20"@)[2] == '_' && ("KC_F20"@)[3] == 'F' && ("KC_F20"@)[4] == '2' && ("KC_F20"@)[5] == '0',
{
    reveal_strlit("KC_KP_8");
    reveal_strlit("KC_KP_9");
    reveal_strlit("KC_KP_0");
    reveal_strlit("KC_KP_DOT");
    reveal_strlit("KC_NONUS_BACKSLASH");
    reveal_strlit("KC_APPLICATION");
    reveal_strlit("KC_KB_POWER");
    reveal_strlit("KC_KP_EQUAL");
    reveal_strlit("KC_F13");
    reveal_strlit("KC_F14");
    reveal_strlit("KC_F15");
    reveal_strlit("KC_F16");
    reveal_strlit("KC_F17");
    reveal_strlit("KC_F18");
    reveal_strlit("KC_F19");
    reveal_strlit("KC_F20");
    assert(("KC_KP_8"@).len() == 7);
    assert(("KC_KP_8"@)[0] == 'K');
    assert(("KC_KP_8"@)[1] == 'C');
    assert(("KC_KP_8"@)[2] == '_');
    assert(("KC_KP_8"@)[3] == 'K');
    assert(("KC_KP_8"@)[4] == 'P');
    assert(("KC_KP_8"@)[5] == '_');
    assert(("KC_KP_8"@)[6] == '8');
    assert(("KC_KP_9"@).len() == 7);
    assert(("KC_KP_9"@)[0] == 'K');
    assert(("KC_KP_9"@)[1] == 'C');
    assert(("KC_KP_9"@)[2] == '_');
    assert(("KC_KP_9"@)[3] == 'K');
    assert(("KC_KP_9"@)[4] == 'P');
    assert(("KC_KP_9"@)[5] == '_');
    assert(("KC_KP_9"@)[6] == '9');
    assert(("KC_KP_0"@).len() == 7);
    assert(("KC_KP_0"@)[0] == 'K');
    assert(("KC_KP_0"@)[1] == 'C');
    assert(("KC_KP_0"@)[2] == '_');
    assert(("KC_KP_0"@)[3] == 'K');
    assert(("KC_KP_0"@)[4] == 'P');
    assert(("KC_KP_0"@)[5] == '_');
    assert(("KC_KP_0"@)[6] == '0');
    assert(("KC_KP_DOT"@).len() == 9);
    assert(("KC_KP_DOT"@)[0] == 'K');
    assert(("KC_KP_DOT"@)[1] == 'C');
    assert(("KC_KP_DOT"@)[2] == '_');
    assert(("KC_KP_DOT"@)[3] == 'K');
    assert(("KC_KP_DOT"@)[4] == 'P');
    assert(("KC_KP_DOT"@)[5] == '_');
    assert(("KC_KP_DOT"@)[6] == 'D');
    assert(("KC_KP_DOT"@)[7] == 'O');
    assert(("KC_KP_DOT"@)[8] == 'T');
    assert(("KC_NONUS_BACKSLASH"@).len() == 18);
    assert(("KC_NONUS_BACKSLASH"@)[0] == 'K');
    assert(("KC_NONUS_BACKSLASH"@)[1] == 'C');
    assert(("KC_NONUS_BACKSLASH"@)[2] == '_');
    assert(("KC_NONUS_BACKSLASH"@)[3] == 'N');
    assert(("KC_NONUS_BACKSLASH"@)[4] == 'O');
    assert(("KC_NONUS_BACKSLASH"@)[5] == 'N');
    assert(("KC_NONUS_BACKSLASH"@)[6] == 'U');
    assert(("KC_NONUS_BACKSLASH"@)[7] == 'S');
    assert(("KC_NONUS_BACKSLASH"@)[8] == '_');
    assert(("KC_NONUS_BACKSLASH"@)[9] == 'B');
    assert(("KC_NONUS_BACKSLASH"@)[10] == 'A');
    assert(("KC_NONUS_BACKSLASH"@)[11] == 'C');
    assert(("KC_NONUS_BACKSLASH"@)[12] == 'K');
    assert(("KC_NONUS_BACKSLASH"@)[13] == 'S');
    assert(("KC_NONUS_BACKSLASH"@)[14] == 'L');
    assert(("KC_NONUS_BACKSLASH"@)[15] == 'A');
    assert(("KC_NONUS_BACKSLASH"@)[16] == 'S');
    assert(("KC_NONUS_BACKSLASH"@)[17] == 'H');
    assert(("KC_APPLICATION"@).len() == 14);
    assert(("KC_APPLICATION"@)[0] == 'K');
    assert(("KC_APPLICATION"@)[1] == 'C');
    assert(("KC_APPLICATION"@)[2] == '_');
    assert(("KC_APPLICATION"@)[3] == 'A');
    assert(("KC_APPLICATION"@)[4] == 'P');
    assert(("KC_APPLICATION"@)[5] == 'P');
    assert(("KC_APPLICATION"@)[6] == 'L');
    assert(("KC_APPLICATION"@)[7] == 'I');
    assert(("KC_APPLICATION"@)[8] == 'C');
    assert(("KC_APPLICATION"@)[9] == 'A');
    assert(("KC_APPLICATION"@)[10] == 'T');
    assert(("KC_APPLICATION"@)[11] == 'I');
    assert(("KC_APPLICATION"@)[12] == 'O');
    assert(("KC_APPLICATION"@)[13] == 'N');
    assert(("KC_KB_POWER"@).len() == 11);
    assert(("KC_KB_POWER"@)[0] == 'K');
    assert(("KC_KB_POWER"@)[1] == 'C');
    assert(("KC_KB_POWER"@)[2] == '_');
    assert(("KC_KB_POWER"@)[3] == 'K');
    assert(("KC_KB_POWER"@)[4] == 'B');
    assert(("KC_KB_POWER"@)[5] == '_');
    assert(("KC_KB_POWER"@)[6] == 'P');
    assert(("KC_KB_POWER"@)[7] == 'O');
    assert(("KC_KB_POWER"@)[8] == 'W');
    assert(("KC_KB_POWER"@)[9] == 'E');
    assert(("KC_KB_POWER"@)[10] == 'R');
    assert(("KC_KP_EQUAL"@).len() == 11);
    assert(("KC_KP_EQUAL"@)[0] == 'K');
    assert(("KC_KP_EQUAL"@)[1] == 'C');
    assert(("KC_KP_EQUAL"@)[2] == '_');
    assert(("KC_KP_EQUAL"@)[3] == 'K');
    assert(("KC_KP_EQUAL"@)[4] == 'P');
    assert(("KC_KP_EQUAL"@)[5] == '_');
    assert(("KC_KP_EQUAL"@)[6] == 'E');
    assert(("KC_KP_EQUAL"@)[7] == 'Q');
    assert(("KC_KP_EQUAL"@)[8] == 'U');
    assert(("KC_KP_EQUAL"@)[9] == 'A');
    assert(("KC_KP_EQUAL"@)[10] == 'L');
    assert(("KC_F13"@).len() == 6);
    assert(("KC_F13"@)[0] == 'K');
    assert(("KC_F13"@)[1] == 'C');
    assert(("KC_F13"@)[2] == '_');
    assert(("KC_F13"@)[3] == 'F');
    assert(("KC_F13"@)[4] == '1');
    assert(("KC_F13"@)[5] == '3');
    assert(("KC_F14"@).len() == 6);
    assert(("KC_F14"@)[0] == 'K');
    assert(("KC_F14"@)[1] == 'C');
    assert(("KC_F14"@)[2] == '_');
    assert(("KC_F14"@)[3] == 'F');
    assert(("KC_F14"@)[4] == '1');
    assert(("KC_F14"@)[5] == '4');
    assert(("KC_F15"@).len() == 6);
    assert(("KC_F15"@)[0] == 'K');
    assert(("KC_F15"@)[1] == 'C');
    assert(("KC_F15"@)[2] == '_');
    assert(("KC_F15"@)[3] == 'F');
    assert(("KC_F15"@)[4] == '1');
    assert(("KC_F15"@)[5] == '5');
    assert(("KC_F16"@).len() == 6);
    assert(("KC_F16"@)[0] == 'K');
    assert(("KC_F16"@)[1] == 'C');
    assert(("KC_F16"@)[2] == '_');
    assert(("KC_F16"@)[3] == 'F');
    assert(("KC_F16"@)[4] == '1');
    assert(("KC_F16"@)[5] == '6');
    assert(("KC_F17"@).len() == 6);
    assert(("KC_F17"@)[0] == 'K');
    assert(("KC_F17"@)[1] == 'C');
    assert(("KC_F17"@)[2] == '_');
    assert(("KC_F17"@)[3] == 'F');
    assert(("KC_F17"@)[4] == '1');
    assert(("KC_F17"@)[5] == '7');
    assert(("KC_F18"@).len() == 6);
    assert(("KC_F18"@)[0] == 'K');
    assert(("KC_F18"@)[1] == 'C');
    assert(("KC_F18"@)[2] == '_');
    assert(("KC_F18"@)[3] == 'F');
    assert(("KC_F18"@)[4] == '1');
    assert(("KC_F18"@)[5] == '8');
    assert(("KC_F19"@).len() == 6);
    assert(("KC_F19"@)[0] == 'K');
    assert(("KC_F19"@)[1] == 'C');
    assert(("KC_F19"@)[2] == '_');
    assert(("KC_F19"@)[3] == 'F');
    assert(("KC_F19"@)[4] == '1');
    assert(("KC_F19"@)[5] == '9');
    assert(("KC_F20"@).len() == 6);
    assert(("KC_F20"@)[0] == 'K');
    assert(("KC_F20"@)[1] == 'C');
    assert(("KC_F20"@)[2] == '_');
    assert(("KC_F20"@)[3] == 'F');
    assert(("KC_F20"@)[4] == '2');
    assert(("KC_F20"@)[5] == '0');
}

proof fn lemma_name_facts_block_7()
    ensures
        ("KC_F21"@).len() == 6 && ("KC_F21"@)[0] == 'K' && ("KC_F21"@)[1] == 'C' && ("KC_F21"@)[2] == '_' && ("KC_F21"@)[3] == 'F' && ("KC_F21"@)[4] == '2' && ("KC_F21"@)[5] == '1',
        ("KC_F22"@).len() == 6 && ("KC_F22"@)[0] == 'K' && ("KC_F22"@)[1] == 'C' && ("KC_F22"@)[2] == '_' && ("KC_F22"@)[3] == 'F' && ("KC_F22"@)[4] == '2' && ("KC_F22"@)[5] == '2',
        ("KC_F23"@).len() == 6 && ("KC_F23"@)[0] == 'K' && ("KC_F23"@)[1] == 'C' && ("KC_F23"@)[2] == '_' && ("KC_F23"@)[3] == 'F' && ("KC_F23"@)[4] == '2' && ("KC_F23"@)[5] == '3',
        ("KC_F24"@).len() == 6 && ("KC_F24"@)[0] == 'K' && ("KC_F24"@)[1] == 'C' && ("KC_F24"@)[2] == '_' && ("KC_F24"@)[3] == 'F' && ("KC_F24"@)[4] == '2' && ("KC_F24"@)[5] == '4',
        ("KC_EXECUTE"@).len() == 10 && ("KC_EXECUTE"@)[0] == 'K' && ("KC_EXECUTE"@)[1] == 'C' && ("KC_EXECUTE"@)[2] == '_' && ("KC_EXECUTE"@)[3] == 'E' && ("KC_EXECUTE"@)[4] == 'X' && ("KC_EXECUTE"@)[5] == 'E' && ("KC_EXECUTE"@)[6] == 'C' && ("KC_EXECUTE"@)[7] == 'U' && ("KC_EXECUTE"@)[8] == 'T' && ("KC_EXECUTE"@)[9] == 'E',
        ("KC_HELP"@).len() == 7 && ("KC_HELP"@)[0] == 'K' && ("KC_HELP"@)[1] == 'C' && ("KC_HELP"@)[2] == '_' && ("KC_HELP"@)[3] == 'H' && ("KC_HELP"@)[4] == 'E' && ("KC_HELP"@)[5] == 'L' && ("KC_HELP"@)[6] == 'P',
        ("KC_MENU"@).len() == 7 && ("KC_MENU"@)[0] == 'K' && ("KC_MENU"@)[1] == 'C' && ("KC_MENU"@)[2] == '_' && ("KC_MENU"@)[3] == 'M' && ("KC_MENU"@)[4] == 'E' && ("KC_MENU"@)[5] == 'N' && ("KC_MENU"@)[6] == 'U',
        ("KC_SELECT"@).len() == 9 && ("KC_SELECT"@)[0] == 'K' && ("KC_SELECT"@)[1] == 'C' && ("KC_SELECT"@)[2] == '_' && ("KC_SELECT"@)[3] == 'S' && ("KC_SELECT"@)[4] == 'E' && ("KC_SELECT"@)[5] == 'L' && ("KC_SELECT"@)[6] == 'E' && ("KC_SELECT"@)[7] == 'C' && ("KC_SELECT"@)[8] == 'T',
        ("KC_STOP"@).len() == 7 && ("KC_STOP"@)[0] == 'K' && ("KC_STOP"@)[1] == 'C' && ("KC_STOP"@)[2] == '_' && ("KC_STOP"@)[3] == 'S' && ("KC_STOP"@)[4] == 'T' && ("KC_STOP"@)[5] == 'O' && ("KC_STOP"@)[6] == 'P',
        ("KC_AGAIN"@).len() == 8 && ("KC_AGAIN"@)[0] == 'K' && ("KC_AGAIN"@)[1] == 'C' && ("KC_AGAIN"@)[2] == '_' && ("KC_AGAIN"@)[3] == 'A' && ("KC_AGAIN"@)[4] == 'G' && ("KC_AGAIN"@)[5] == 'A' && ("KC_AGAIN"@)[6] == 'I' && ("KC_AGAIN"@)[7] == 'N',
        ("KC_UNDO"@).len() == 7 && ("KC_UNDO"@)[0] == 'K' && ("KC_UNDO"@)[1] == 'C' && ("KC_UNDO"@)[2] == '_' && ("KC_UNDO"@)[3] == 'U' && ("KC_UNDO"@)[4] == 'N' && ("KC_UNDO"@)[5] == 'D' && ("KC_UNDO"@)[6] == 'O',
        ("KC_CUT"@).len() == 6 && ("KC_CUT"@)[0] == 'K' && ("KC_CUT"@)[1] == 'C' && ("KC_CUT"@)[2] == '_' && ("KC_CUT"@)[3] == 'C' && ("KC_CUT"@)[4] == 'U' && ("KC_CUT"@)[5] == 'T',
        ("KC_COPY"@).len() == 7 && ("KC_COPY"@)[0] == 'K' && ("KC_COPY"@)[1] == 'C' && ("KC_COPY"@)[2] == '_' && ("KC_COPY"@)[3] == 'C' && ("KC_COPY"@)[4] == 'O' && ("KC_COPY"@)[5] == 'P' && ("KC_COPY"@)[6] == 'Y',
        ("KC_PASTE"@).len() == 8 && ("KC_PASTE"@)[0] == 'K' && ("KC_PASTE"@)[1] == 'C' && ("KC_PASTE"@)[2] == '_' && ("KC_PASTE"@)[3] == 'P' && ("KC_PASTE"@)[4] == 'A' && ("KC_PASTE"@)[5] == 'S' && ("KC_PASTE"@)[6] == 'T' && ("KC_PASTE"@)[7] == 'E',
        ("KC_FIND"@).len() == 7 && ("KC_FIND"@)[0] == 'K' && ("KC_FIND"@)[1] == 'C' && ("KC_FIND"@)[2] == '_' && ("KC_FIND"@)[3] == 'F' && ("KC_FIND"@)[4] == 'I' && ("KC_FIND"@)[5] == 'N' && ("KC_FIND"@)[6] == 'D',
        ("KC_KB_MUTE"@).len() == 10 && ("KC_KB_MUTE"@)[0] == 'K' && ("KC_KB_MUTE"@)[1] == 'C' && ("KC_KB_MUTE"@)[2] == '_' && ("KC_KB_MUTE"@)[3] == 'K' && ("KC_KB_MUTE"@)[4] == 'B' && ("KC_KB_MUTE"@)[5] == '_' && ("KC_KB_MUTE"@)[6] == 'M' && ("KC_KB_MUTE"@)[7] == 'U' && ("KC_KB_MUTE"@)[8] == 'T' && ("KC_KB_MUTE"@)[9] == 'E',
{
    reveal_strlit("KC_F21");
    reveal_strlit("KC_F22");
    reveal_strlit("KC_F23");
    reveal_strlit("KC_F24");
    reveal_strlit("KC_EXECUTE");
    reveal_strlit("KC_HELP");
    reveal_strlit("KC_MENU");
    reveal_strlit("KC_SELECT");
    reveal_strlit("KC_STOP");
    reveal_strlit("KC_AGAIN");
    reveal_strlit("KC_UNDO");
    reveal_strlit("KC_CUT");
    reveal_strlit("KC_COPY");
    reveal_strlit("KC_PASTE");
    reveal_strlit("KC_FIND");
    reveal_strlit("KC_KB_MUTE");
    assert(("KC_F21"@).len() == 6);
    assert(("KC_F21"@)[0] == 'K');
    assert(("KC_F21"@)[1] == 'C');
    assert(("KC_F21"@)[2] == '_');
    assert(("KC_F21"@)[3] == 'F');
    assert(("KC_F21"@)[4] == '2');
    assert(("KC_F21"@)[5] == '1');
    assert(("KC_F22"@).len() == 6);
    assert(("KC_F22"@)[0] == 'K');
    assert(("KC_F22"@)[1] == 'C');
    assert(("KC_F22"@)[2] == '_');
    assert(("KC_F22"@)[3] == 'F');
    assert(("KC_F22"@)[4] == '2');
    assert(("KC_F22"@)[5] == '2');
    assert(("KC_F23"@).len() == 6);
    assert(("KC_F23"@)[0] == 'K');
    assert(("KC_F23"@)[1] == 'C');
    assert(("KC_F23"@)[2] == '_');
    assert(("KC_F23"@)[3] == 'F');
    assert(("KC_F23"@)[4] == '2');
    assert(("KC_F23"@)[5] == '3');
    assert(("KC_F24"@).len() == 6);
    assert(("KC_F24"@)[0] == 'K');
    assert(("KC_F24"@)[1] == 'C');
    assert(("KC_F24"@)[2] == '_');
    assert(("KC_F24"@)[3] == 'F');
    assert(("KC_F24"@)[4] == '2');
    assert(("KC_F24"@)[5] == '4');
    assert(("KC_EXECUTE"@).len() == 10);
    assert(("KC_EXECUTE"@)[0] == 'K');
    assert(("KC_EXECUTE"@)[1] == 'C');
    assert(("KC_EXECUTE"@)[2] == '_');
    assert(("KC_EXECUTE"@)[3] == 'E');
    assert(("KC_EXECUTE"@)[4] == 'X');
    assert(("KC_EXECUTE"@)[5] == 'E');
    assert(("KC_EXECUTE"@)[6] == 'C');
    assert(("KC_EXECUTE"@)[7] == 'U');
    assert(("KC_EXECUTE"@)[8] == 'T');
    assert(("KC_EXECUTE"@)[9] == 'E');
    assert(("KC_HELP"@).len() == 7);
    assert(("KC_HELP"@)[0] == 'K');
    assert(("KC_HELP"@)[1] == 'C');
    assert(("KC_HELP"@)[2] == '_');
    assert(("KC_HELP"@)[3] == 'H');
    assert(("KC_HELP"@)[4] == 'E');
    assert(("KC_HELP"@)[5] == 'L');
    assert(("KC_HELP"@)[6] == 'P');
    assert(("KC_MENU"@).len() == 7);
    assert(("KC_MENU"@)[0] == 'K');
    assert(("KC_MENU"@)[1] == 'C');
    assert(("KC_MENU"@)[2] == '_');
    assert(("KC_MENU"@)[3] == 'M');
    assert(("KC_MENU"@)[4] == 'E');
    assert(("KC_MENU"@)[5] == 'N');
    assert(("KC_MENU"@)[6] == 'U');
    assert(("KC_SELECT"@).len() == 9);
    assert(("KC_SELECT"@)[0] == 'K');
    assert(("KC_SELECT"@)[1] == 'C');
    assert(("KC_SELECT"@)[2] == '_');
    assert(("KC_SELECT"@)[3] == 'S');
    assert(("KC_SELECT"@)[4] == 'E');
    assert(("KC_SELECT"@)[5] == 'L');
    assert(("KC_SELECT"@)[6] == 'E');
    assert(("KC_SELECT"@)[7] == 'C');
    assert(("KC_SELECT"@)[8] == 'T');
    assert(("KC_STOP"@).len() == 7);
    assert(("KC_STOP"@)[0] == 'K');
    assert(("KC_STOP"@)[1] == 'C');
    assert(("KC_STOP"@)[2] == '_');
    assert(("KC_STOP"@)[3] == 'S');
    assert(("KC_STOP"@)[4] == 'T');
    assert(("KC_STOP"@)[5] == 'O');
    assert(("KC_STOP"@)[6] == 'P');
    assert(("KC_AGAIN"@).len() == 8);
    assert(("KC_AGAIN"@)[0] == 'K');
    assert(("KC_AGAIN"@)[1] == 'C');
    assert(("KC_AGAIN"@)[2] == '_');
    assert(("KC_AGAIN"@)[3] == 'A');
    assert(("KC_AGAIN"@)[4] == 'G');
    assert(("KC_AGAIN"@)[5] == 'A');
    assert(("KC_AGAIN"@)[6] == 'I');
    assert(("KC_AGAIN"@)[7] == 'N');
    assert(("KC_UNDO"@).len() == 7);
    assert(("KC_UNDO"@)[0] == 'K');
    assert(("KC_UNDO"@)[1] == 'C');
    assert(("KC_UNDO"@)[2] == '_');
    assert(("KC_UNDO"@)[3] == 'U');
    assert(("KC_UNDO"@)[4] == 'N');
    assert(("KC_UNDO"@)[5] == 'D');
    assert(("KC_UNDO"@)[6] == 'O');
    assert(("KC_CUT"@).len() == 6);
    assert(("KC_CUT"@)[0] == 'K');
    assert(("KC_CUT"@)[1] == 'C');
    assert(("KC_CUT"@)[2] == '_');
    assert(("KC_CUT"@)[3] == 'C');
    assert(("KC_CUT"@)[4] == 'U');
    assert(("KC_CUT"@)[5] == 'T');
    assert(("KC_COPY"@).len() == 7);
    assert(("KC_COPY"@)[0] == 'K');
    assert(("KC_COPY"@)[1] == 'C');
    assert(("KC_COPY"@)[2] == '_');
    assert(("KC_COPY"@)[3] == 'C');
    assert(("KC_COPY"@)[4] == 'O');
    assert(("KC_COPY"@)[5] == 'P');
    assert(("KC_COPY"@)[6] == 'Y');
    assert(("KC_PASTE"@).len() == 8);
    assert(("KC_PASTE"@)[0] == 'K');
    assert(("KC_PASTE"@)[1] == 'C');
    assert(("KC_PASTE"@)[2] == '_');
    assert(("KC_PASTE"@)[3] == 'P');
    assert(("KC_PASTE"@)[4] == 'A');
    assert(("KC_PASTE"@)[5] == 'S');
    assert(("KC_PASTE"@)[6] == 'T');
    assert(("KC_PASTE"@)[7] == 'E');
    assert(("KC_FIND"@).len() == 7);
    assert(("KC_FIND"@)[0] == 'K');
    assert(("KC_FIND"@)[1] == 'C');
    assert(("KC_FIND"@)[2] == '_');
    assert(("KC_FIND"@)[3] == 'F');
    assert(("KC_FIND"@)[4] == 'I');
    assert(("KC_FIND"@)[5] == 'N');
    assert(("KC_FIND"@)[6] == 'D');
    assert(("KC_KB_MUTE"@).len() == 10);
    assert(("KC_KB_MUTE"@)[0] == 'K');
    assert(("KC_KB_MUTE"@)[1] == 'C');
    assert(("KC_KB_MUTE"@)[2] == '_');
    assert(("KC_KB_MUTE"@)[3] == 'K');
    assert(("KC_KB_MUTE"@)[4] == 'B');
    assert(("KC_KB_MUTE"@)[5] == '_');
    assert(("KC_KB_MUTE"@)[6] == 'M');
    assert(("KC_KB_MUTE"@)[7] == 'U');
    assert(("KC_KB_MUTE"@)[8] == 'T');
    assert(("KC_KB_MUTE"@)[9] == 'E');
}

proof fn lemma_name_facts_block_8()
    ensures
        ("KC_KB_VOLUME_UP"@).len() == 15 && ("KC_KB_VOLUME_UP"@)[0] == 'K' && ("KC_KB_VOLUME_UP"@)[1] == 'C' && ("KC_KB_VOLUME_UP"@)[2] == '_' && ("KC_KB_VOLUME_UP"@)[3] == 'K' && ("KC_KB_VOLUME_UP"@)[4] == 'B' && ("KC_KB_VOLUME_UP"@)[5] == '_' && ("KC_KB_VOLUME_UP"@)[6] == 'V' && ("KC_KB_VOLUME_UP"@)[7] == 'O' && ("KC_KB_VOLUME_UP"@)[8] == 'L' && ("KC_KB_VOLUME_UP"@)[9] == 'U' && ("KC_KB_VOLUME_UP"@)[10] == 'M' && ("KC_KB_VOLUME_UP"@)[11] == 'E' && ("KC_KB_VOLUME_UP"@)[12] == '_' && ("KC_KB_VOLUME_UP"@)[13] == 'U' && ("KC_KB_VOLUME_UP"@)[14] == 'P',
        ("KC_KB_VOLUME_DOWN"@).len() == 17 && ("KC_KB_VOLUME_DOWN"@)[0] == 'K' && ("KC_KB_VOLUME_DOWN"@)[1] == 'C' && ("KC_KB_VOLUME_DOWN"@)[2] == '_' && ("KC_KB_VOLUME_DOWN"@)[3] == 'K' && ("KC_KB_VOLUME_DOWN"@)[4] == 'B' && ("KC_KB_VOLUME_DOWN"@)[5] == '_' && ("KC_KB_VOLUME_DOWN"@)[6] == 'V' && ("KC_KB_VOLUME_DOWN"@)[7] == 'O' && ("KC_KB_VOLUME_DOWN"@)[8] == 'L' && ("KC_KB_VOLUME_DOWN"@)[9] == 'U' && ("KC_KB_VOLUME_DOWN"@)[10] == 'M' && ("KC_KB_VOLUME_DOWN"@)[11] == 'E' && ("KC_KB_VOLUME_DOWN"@)[12] == '_' && ("KC_KB_VOLUME_DOWN"@)[13] == 'D' && ("KC_KB_VOLUME_DOWN"@)[14] == 'O' && ("KC_KB_VOLUME_DOWN"@)[15] == 'W' && ("KC_KB_VOLUME_DOWN"@)[16] == 'N',
        ("KC_LOCKING_CAPS_LOCK"@).len() == 20 && ("KC_LOCKING_CAPS_LOCK"@)[0] == 'K' && ("KC_LOCKING_CAPS_LOCK"@)[1] == 'C' && ("KC_LOCKING_CAPS_LOCK"@)[2] == '_' && ("KC_LOCKING_CAPS_LOCK"@)[3] == 'L' && ("KC_LOCKING_CAPS_LOCK"@)[4] == 'O' && ("KC_LOCKING_CAPS_LOCK"@)[5] == 'C' && ("KC_LOCKING_CAPS_LOCK"@)[6] == 'K' && ("KC_LOCKING_CAPS_LOCK"@)[7] == 'I' && ("KC_LOCKING_CAPS_LOCK"@)[8] == 'N' && ("KC_LOCKING_CAPS_LOCK"@)[9] == 'G' && ("KC_LOCKING_CAPS_LOCK"@)[10] == '_' && ("KC_LOCKING_CAPS_LOCK"@)[11] == 'C' && ("KC_LOCKING_CAPS_LOCK"@)[12] == 'A' && ("KC_LOCKING_CAPS_LOCK"@)[13] == 'P' && ("KC_LOCKING_CAPS_LOCK"@)[14] == 'S' && ("KC_LOCKING_CAPS_LOCK"@)[15] == '_' && ("KC_LOCKING_CAPS_LOCK"@)[16] == 'L' && ("KC_LOCKING_CAPS_LOCK"@)[17] == 'O' && ("KC_LOCKING_CAPS_LOCK"@)[18] == 'C' && ("KC_LOCKING_CAPS_LOCK"@)[19] == 'K',
        ("KC_LOCKING_NUM_LOCK"@).len() == 19 && ("KC_LOCKING_NUM_LOCK"@)[0] == 'K' && ("KC_LOCKING_NUM_LOCK"@)[1] == 'C' && ("KC_LOCKING_NUM_LOCK"@)[2] == '_' && ("KC_LOCKING_NUM_LOCK"@)[3] == 'L' && ("KC_LOCKING_NUM_LOCK"@)[4] == 'O' && ("KC_LOCKING_NUM_LOCK"@)[5] == 'C' && ("KC_LOCKING_NUM_LOCK"@)[6] == 'K' && ("KC_LOCKING_NUM_LOCK"@)[7] == 'I' && ("KC_LOCKING_NUM_LOCK"@)[8] == 'N' && ("KC_LOCKING_NUM_LOCK"@)[9] == 'G' && ("KC_LOCKING_NUM_LOCK"@)[10] == '_' && ("KC_LOCKING_NUM_LOCK"@)[11] == 'N' && ("KC_LOCKING_NUM_LOCK"@)[12] == 'U' && ("KC_LOCKING_NUM_LOCK"@)[13] == 'M' && ("KC_LOCKING_NUM_LOCK"@)[14] == '_' && ("KC_LOCKING_NUM_LOCK"@)[15] == 'L' && ("KC_LOCKING_NUM_LOCK"@)[16] == 'O' && ("KC_LOCKING_NUM_LOCK"@)[17] == 'C' && ("KC_LOCKING_NUM_LOCK"@)[18] == 'K',
        ("KC_LOCKING_SCROLL_LOCK"@).len() == 22 && ("KC_LOCKING_SCROLL_LOCK"@)[0] == 'K' && ("KC_LOCKING_SCROLL_LOCK"@)[1] == 'C' && ("KC_LOCKING_SCROLL_LOCK"@)[2] == '_' && ("KC_LOCKING_SCROLL_LOCK"@)[3] == 'L' && ("KC_LOCKING_SCROLL_LOCK"@)[4] == 'O' && ("KC_LOCKING_SCROLL_LOCK"@)[5] == 'C' && ("KC_LOCKING_SCROLL_LOCK"@)[6] == 'K' && ("KC_LOCKING_SCROLL_LOCK"@)[7] == 'I' && ("KC_LOCKING_SCROLL_LOCK"@)[8] == 'N' && ("KC_LOCKING_SCROLL_LOCK"@)[9] == 'G' && ("KC_LOCKING_SCROLL_LOCK"@)[10] == '_' && ("KC_LOCKING_SCROLL_LOCK"@)[11] == 'S' && ("KC_LOCKING_SCROLL_LOCK"@)[12] == 'C' && ("KC_LOCKING_SCROLL_LOCK"@)[13] == 'R' && ("KC_LOCKING_SCROLL_LOCK"@)[14] == 'O' && ("KC_LOCKING_SCROLL_LOCK"@)[15] == 'L' && ("KC_LOCKING_SCROLL_LOCK"@)[16] == 'L' && ("KC_LOCKING_SCROLL_LOCK"@)[17] == '_' && ("KC_LOCKING_SCROLL_LOCK"@)[18] == 'L' && ("KC_LOCKING_SCROLL_LOCK"@)[19] == 'O' && ("KC_LOCKING_SCROLL_LOCK"@)[20] == 'C' && ("KC_LOCKING_SCROLL_LOCK"@)[21] == 'K',
        ("KC_KP_COMMA"@).len() == 11 && ("KC_KP_COMMA"@)[0] == 'K' && ("KC_KP_COMMA"@)[1] == 'C' && ("KC_KP_COMMA"@)[2] == '_' && ("KC_KP_COMMA"@)[3] == 'K' && ("KC_KP_COMMA"@)[4] == 'P' && ("KC_KP_COMMA"@)[5] == '_' && ("KC_KP_COMMA"@)[6] == 'C' && ("KC_KP_COMMA"@)[7] == 'O' && ("KC_KP_COMMA"@)[8] == 'M' && ("KC_KP_COMMA"@)[9] == 'M' && ("KC_KP_COMMA"@)[10] == 'A',
        ("KC_KP_EQUAL_AS400"@).len() == 17 && ("KC_KP_EQUAL_AS400"@)[0] == 'K' && ("KC_KP_EQUAL_AS400"@)[1] == 'C' && ("KC_KP_EQUAL_AS400"@)[2] == '_' && ("KC_KP_EQUAL_AS400"@)[3] == 'K' && ("KC_KP_EQUAL_AS400"@)[4] == 'P' && ("KC_KP_EQUAL_AS400"@)[5] == '_' && ("KC_KP_EQUAL_AS400"@)[6] == 'E' && ("KC_KP_EQUAL_AS400"@)[7] == 'Q' && ("KC_KP_EQUAL_AS400"@)[8] == 'U' && ("KC_KP_EQUAL_AS400"@)[9] == 'A' && ("KC_KP_EQUAL_AS400"@)[10] == 'L' && ("KC_KP_EQUAL_AS400"@)[11] == '_' && ("KC_KP_EQUAL_AS400"@)[12] == 'A' && ("KC_KP_EQUAL_AS400"@)[13] == 'S' && ("KC_KP_EQUAL_AS400"@)[14] == '4' && ("KC_KP_EQUAL_AS400"@)[15] == '0' && ("KC_KP_EQUAL_AS400"@)[16] == '0',
        ("KC_INTERNATIONAL_1"@).len() == 18 && ("KC_INTERNATIONAL_1"@)[0] == 'K' && ("KC_INTERNATIONAL_1"@)[1] == 'C' && ("KC_INTERNATIONAL_1"@)[2] == '_' && ("KC_INTERNATIONAL_1"@)[3] == 'I' && ("KC_INTERNATIONAL_1"@)[4] == 'N' && ("KC_INTERNATIONAL_1"@)[5] == 'T' && ("KC_INTERNATIONAL_1"@)[6] == 'E' && ("KC_INTERNATIONAL_1"@)[7] == 'R' && ("KC_INTERNATIONAL_1"@)[8] == 'N' && ("KC_INTERNATIONAL_1"@)[9] == 'A' && ("KC_INTERNATIONAL_1"@)[10] == 'T' && ("KC_INTERNATIONAL_1"@)[11] == 'I' && ("KC_INTERNATIONAL_1"@)[12] == 'O' && ("KC_INTERNATIONAL_1"@)[13] == 'N' && ("KC_INTERNATIONAL_1"@)[14] == 'A' && ("KC_INTERNATIONAL_1"@)[15] == 'L' && ("KC_INTERNATIONAL_1"@)[16] == '_' && ("KC_INTERNATIONAL_1"@)[17] == '1',
        ("KC_INTERNATIONAL_2"@).len() == 18 && ("KC_INTERNATIONAL_2"@)[0] == 'K' && ("KC_INTERNATIONAL_2"@)[1] == 'C' && ("KC_INTERNATIONAL_2"@)[2] == '_' && ("KC_INTERNATIONAL_2"@)[3] == 'I' && ("KC_INTERNATIONAL_2"@)[4] == 'N' && ("KC_INTERNATIONAL_2"@)[5] == 'T' && ("KC_INTERNATIONAL_2"@)[6] == 'E' && ("KC_INTERNATIONAL_2"@)[7] == 'R' && ("KC_INTERNATIONAL_2"@)[8] == 'N' && ("KC_INTERNATIONAL_2"@)[9] == 'A' && ("KC_INTERNATIONAL_2"@)[10] == 'T' && ("KC_INTERNATIONAL_2"@)[11] == 'I' && ("KC_INTERNATIONAL_2"@)[12] == 'O' && ("KC_INTERNATIONAL_2"@)[13] == 'N' && ("KC_INTERNATIONAL_2"@)[14] == 'A' && ("KC_INTERNATIONAL_2"@)[15] == 'L' && ("KC_INTERNATIONAL_2"@)[16] == '_' && ("KC_INTERNATIONAL_2"@)[17] == '2',
        ("KC_INTERNATIONAL_3"@).len() == 18 && ("KC_INTERNATIONAL_3"@)[0] == 'K' && ("KC_INTERNATIONAL_3"@)[1] == 'C' && ("KC_INTERNATIONAL_3"@)[2] == '_' && ("KC_INTERNATIONAL_3"@)[3] == 'I' && ("KC_INTERNATIONAL_3"@)[4] == 'N' && ("KC_INTERNATIONAL_3"@)[5] == 'T' && ("KC_INTERNATIONAL_3"@)[6] == 'E' && ("KC_INTERNATIONAL_3"@)[7] == 'R' && ("KC_INTERNATIONAL_3"@)[8] == 'N' && ("KC_INTERNATIONAL_3"@)[9] == 'A' && ("KC_INTERNATIONAL_3"@)[10] == 'T' && ("KC_INTERNATIONAL_3"@)[11] == 'I' && ("KC_INTERNATIONAL_3"@)[12] == 'O' && ("KC_INTERNATIONAL_3"@)[13] == 'N' && ("KC_INTERNATIONAL_3"@)[14] == 'A' && ("KC_INTERNATIONAL_3"@)[15] == 'L' && ("KC_INTERNATIONAL_3"@)[16] == '_' && ("KC_INTERNATIONAL_3"@)[17] == '3',
        ("KC_INTERNATIONAL_4"@).len() == 18 && ("KC_INTERNATIONAL_4"@)[0] == 'K' && ("KC_INTERNATIONAL_4"@)[1] == 'C' && ("KC_INTERNATIONAL_4"@)[2] == '_' && ("KC_INTERNATIONAL_4"@)[3] == 'I' && ("KC_INTERNATIONAL_4"@)[4] == 'N' && ("KC_INTERNATIONAL_4"@)[5] == 'T' && ("KC_INTERNATIONAL_4"@)[6] == 'E' && ("KC_INTERNATIONAL_4"@)[7] == 'R' && ("KC_INTERNATIONAL_4"@)[8] == 'N' && ("KC_INTERNATIONAL_4"@)[9] == 'A' && ("KC_INTERNATIONAL_4"@)[10] == 'T' && ("KC_INTERNATIONAL_4"@)[11] == 'I' && ("KC_INTERNATIONAL_4"@)[12] == 'O' && ("KC_INTERNATIONAL_4"@)[13] == 'N' && ("KC_INTERNATIONAL_4"@)[14] == 'A' && ("KC_INTERNATIONAL_4"@)[15] == 'L' && ("KC_INTERNATIONAL_4"@)[16] == '_' && ("KC_INTERNATIONAL_4"@)[17] == '4',
        ("KC_INTERNATIONAL_5"@).len() == 18 && ("KC_INTERNATIONAL_5"@)[0] == 'K' && ("KC_INTERNATIONAL_5"@)[1] == 'C' && ("KC_INTERNATIONAL_5"@)[2] == '_' && ("KC_INTERNATIONAL_5"@)[3] == 'I' && ("KC_INTERNATIONAL_5"@)[4] == 'N' && ("KC_INTERNATIONAL_5"@)[5] == 'T' && ("KC_INTERNATIONAL_5"@)[6] == 'E' && ("KC_INTERNATIONAL_5"@)[7] == 'R' && ("KC_INTERNATIONAL_5"@)[8] == 'N' && ("KC_INTERNATIONAL_5"@)[9] == 'A' && ("KC_INTERNATIONAL_5"@)[10] == 'T' && ("KC_INTERNATIONAL_5"@)[11] == 'I' && ("KC_INTERNATIONAL_5"@)[12] == 'O' && ("KC_INTERNATIONAL_5"@)[13] == 'N' && ("KC_INTERNATIONAL_5"@)[14] == 'A' && ("KC_INTERNATIONAL_5"@)[15] == 'L' && ("KC_INTERNATIONAL_5"@)[16] == '_' && ("KC_INTERNATIONAL_5"@)[17] == '5',
        ("KC_INTERNATIONAL_6"@).len() == 18 && ("KC_INTERNATIONAL_6"@)[0] == 'K' && ("KC_INTERNATIONAL_6"@)[1] == 'C' && ("KC_INTERNATIONAL_6"@)[2] == '_' && ("KC_INTERNATIONAL_6"@)[3] == 'I' && ("KC_INTERNATIONAL_6"@)[4] == 'N' && ("KC_INTERNATIONAL_6"@)[5] == 'T' && ("KC_INTERNATIONAL_6"@)[6] == 'E' && ("KC_INTERNATIONAL_6"@)[7] == 'R' && ("KC_INTERNATIONAL_6"@)[8] == 'N' && ("KC_INTERNATIONAL_6"@)[9] == 'A' && ("KC_INTERNATIONAL_6"@)[10] == 'T' && ("KC_INTERNATIONAL_6"@)[11] == 'I' && ("KC_INTERNATIONAL_6"@)[12] == 'O' && ("KC_INTERNATIONAL_6"@)[13] == 'N' && ("KC_INTERNATIONAL_6"@)[14] == 'A' && ("KC_INTERNATIONAL_6"@)[15] == 'L' && ("KC_INTERNATIONAL_6"@)[16] == '_' && ("KC_INTERNATIONAL_6"@)[17] == '6',
        ("KC_INTERNATIONAL_7"@).len() == 18 && ("KC_INTERNATIONAL_7"@)[0] == 'K' && ("KC_INTERNATIONAL_7"@)[1] == 'C' && ("KC_INTERNATIONAL_7"@)[2] == '_' && ("KC_INTERNATIONAL_7"@)[3] == 'I' && ("KC_INTERNATIONAL_7"@)[4] == 'N' && ("KC_INTERNATIONAL_7"@)[5] == 'T' && ("KC_INTERNATIONAL_7"@)[6] == 'E' && ("KC_INTERNATIONAL_7"@)[7] == 'R' && ("KC_INTERNATIONAL_7"@)[8] == 'N' && ("KC_INTERNATIONAL_7"@)[9] == 'A' && ("KC_INTERNATIONAL_7"@)[10] == 'T' && ("KC_INTERNATIONAL_7"@)[11] == 'I' && ("KC_INTERNATIONAL_7"@)[12] == 'O' && ("KC_INTERNATIONAL_7"@)[13] == 'N' && ("KC_INTERNATIONAL_7"@)[14] == 'A' && ("KC_INTERNATIONAL_7"@)[15] == 'L' && ("KC_INTERNATIONAL_7"@)[16] == '_' && ("KC_INTERNATIONAL_7"@)[17] == '7',
        ("KC_INTERNATIONAL_8"@).len() == 18 && ("KC_INTERNATIONAL_8"@)[0] == 'K' && ("KC_INTERNATIONAL_8"@)[1] == 'C' && ("KC_INTERNATIONAL_8"@)[2] == '_' && ("KC_INTERNATIONAL_8"@)[3] == 'I' && ("KC_INTERNATIONAL_8"@)[4] == 'N' && ("KC_INTERNATIONAL_8"@)[5] == 'T' && ("KC_INTERNATIONAL_8"@)[6] == 'E' && ("KC_INTERNATIONAL_8"@)[7] == 'R' && ("KC_INTERNATIONAL_8"@)[8] == 'N' && ("KC_INTERNATIONAL_8"@)[9] == 'A' && ("KC_INTERNATIONAL_8"@)[10] == 'T' && ("KC_INTERNATIONAL_8"@)[11] == 'I' && ("KC_INTERNATIONAL_8"@)[12] == 'O' && ("KC_INTERNATIONAL_8"@)[13] == 'N' && ("KC_INTERNATIONAL_8"@)[14] == 'A' && ("KC_INTERNATIONAL_8"@)[15] == 'L' && ("KC_INTERNATIONAL_8"@)[16] == '_' && ("KC_INTERNATIONAL_8"@)[17] == '8',
        ("KC_INTERNATIONAL_9"@).len() == 18 && ("KC_INTERNATIONAL_9"@)[0] == 'K' && ("KC_INTERNATIONAL_9"@)[1] == 'C' && ("KC_INTERNATIONAL_9"@)[2] == '_' && ("KC_INTERNATIONAL_9"@)[3] == 'I' && ("KC_INTERNATIONAL_9"@)[4] == 'N' && ("KC_INTERNATIONAL_9"@)[5] == 'T' && ("KC_INTERNATIONAL_9"@)[6] == 'E' && ("KC_INTERNATIONAL_9"@)[7] == 'R' && ("KC_INTERNATIONAL_9"@)[8] == 'N' && ("KC_INTERNATIONAL_9"@)[9] == 'A' && ("KC_INTERNATIONAL_9"@)[10] == 'T' && ("KC_INTERNATIONAL_9"@)[11] == 'I' && ("KC_INTERNATIONAL_9"@)[12] == 'O' && ("KC_INTERNATIONAL_9"@)[13] == 'N' && ("KC_INTERNATIONAL_9"@)[14] == 'A' && ("KC_INTERNATIONAL_9"@)[15] == 'L' && ("KC_INTERNATIONAL_9"@)[16] == '_' && ("KC_INTERNATIONAL_9"@)[17] == '9',
{
    reveal_strlit("KC_KB_VOLUME_UP");
    reveal_strlit("KC_KB_VOLUME_DOWN");
    reveal_strlit("KC_LOCKING_CAPS_LOCK");
    reveal_strlit("KC_LOCKING_NUM_LOCK");
    reveal_strlit("KC_LOCKING_SCROLL_LOCK");
    reveal_strlit("KC_KP_COMMA");
    reveal_strlit("KC_KP_EQUAL_AS400");
    reveal_strlit("KC_INTERNATIONAL_1");
    reveal_strlit("KC_INTERNATIONAL_2");
    reveal_strlit("KC_INTERNATIONAL_3");
    reveal_strlit("KC_INTERNATIONAL_4");
    reveal_strlit("KC_INTERNATIONAL_5");
    reveal_strlit("KC_INTERNATIONAL_6");
    reveal_strlit("KC_INTERNATIONAL_7");
    reveal_strlit("KC_INTERNATIONAL_8");
    reveal_strlit("KC_INTERNATIONAL_9");
    assert(("KC_KB_VOLUME_UP"@).len() == 15);
    assert(("KC_KB_VOLUME_UP"@)[0] == 'K');
    assert(("KC_KB_VOLUME_UP"@)[1] == 'C');
    assert(("KC_KB_VOLUME_UP"@)[2] == '_');
    assert(("KC_KB_VOLUME_UP"@)[3] == 'K');
    assert(("KC_KB_VOLUME_UP"@)[4] == 'B');
    assert(("KC_KB_VOLUME_UP"@)[5] == '_');
    assert(("KC_KB_VOLUME_UP"@)[6] == 'V');
    assert(("KC_KB_VOLUME_UP"@)[7] == 'O');
    assert(("KC_KB_VOLUME_UP"@)[8] == 'L');
    assert(("KC_KB_VOLUME_UP"@)[9] == 'U');
    assert(("KC_KB_VOLUME_UP"@)[10] == 'M');
    assert(("KC_KB_VOLUME_UP"@)[11] == 'E');
    assert(("KC_KB_VOLUME_UP"@)[12] == '_');
    assert(("KC_KB_VOLUME_UP"@)[13] == 'U');
    assert(("KC_KB_VOLUME_UP"@)[14] == 'P');
    assert(("KC_KB_VOLUME_DOWN"@).len() == 17);
    assert(("KC_KB_VOLUME_DOWN"@)[0] == 'K');
    assert(("KC_KB_VOLUME_DOWN"@)[1] == 'C');
    assert(("KC_KB_VOLUME_DOWN"@)[2] == '_');
    assert(("KC_KB_VOLUME_DOWN"@)[3] == 'K');
    assert(("KC_KB_VOLUME_DOWN"@)[4] == 'B');
    assert(("KC_KB_VOLUME_DOWN"@)[5] == '_');
    assert(("KC_KB_VOLUME_DOWN"@)[6] == 'V');
    assert(("KC_KB_VOLUME_DOWN"@)[7] == 'O');
    assert(("KC_KB_VOLUME_DOWN"@)[8] == 'L');
    assert(("KC_KB_VOLUME_DOWN"@)[9] == 'U');
    assert(("KC_KB_VOLUME_DOWN"@)[10] == 'M');
    assert(("KC_KB_VOLUME_DOWN"@)[11] == 'E');
    assert(("KC_KB_VOLUME_DOWN"@)[12] == '_');
    assert(("KC_KB_VOLUME_DOWN"@)[13] == 'D');
    assert(("KC_KB_VOLUME_DOWN"@)[14] == 'O');
    assert(("KC_KB_VOLUME_DOWN"@)[15] == 'W');
    assert(("KC_KB_VOLUME_DOWN"@)[16] == 'N');
    assert(("KC_LOCKING_CAPS_LOCK"@).len() == 20);
    assert(("KC_LOCKING_CAPS_LOCK"@)[0] == 'K');
    assert(("KC_LOCKING_CAPS_LOCK"@)[1] == 'C');
    assert(("KC_LOCKING_CAPS_LOCK"@)[2] == '_');
    assert(("KC_LOCKING_CAPS_LOCK"@)[3] == 'L');
    assert(("KC_LOCKING_CAPS_LOCK"@)[4] == 'O');
    assert(("KC_LOCKING_CAPS_LOCK"@)[5] == 'C');
    assert(("KC_LOCKING_CAPS_LOCK"@)[6] == 'K');
    assert(("KC_LOCKING_CAPS_LOCK"@)[7] == 'I');
    assert(("KC_LOCKING_CAPS_LOCK"@)[8] == 'N');
    assert(("KC_LOCKING_CAPS_LOCK"@)[9] == 'G');
    assert(("KC_LOCKING_CAPS_LOCK"@)[10] == '_');
    assert(("KC_LOCKING_CAPS_LOCK"@)[11] == 'C');
    assert(("KC_LOCKING_CAPS_LOCK"@)[12] == 'A');
    assert(("KC_LOCKING_CAPS_LOCK"@)[13] == 'P');
    assert(("KC_LOCKING_CAPS_LOCK"@)[14] == 'S');
    assert(("KC_LOCKING_CAPS_LOCK"@)[15] == '_');
    assert(("KC_LOCKING_CAPS_LOCK"@)[16] == 'L');
    assert(("KC_LOCKING_CAPS_LOCK"@)[17] == 'O');
    assert(("KC_LOCKING_CAPS_LOCK"@)[18] == 'C');
    assert(("KC_LOCKING_CAPS_LOCK"@)[19] == 'K');
    assert(("KC_LOCKING_NUM_LOCK"@).len() == 19);
    assert(("KC_LOCKING_NUM_LOCK"@)[0] == 'K');
    assert(("KC_LOCKING_NUM_LOCK"@)[1] == 'C');
    assert(("KC_LOCKING_NUM_LOCK"@)[2] == '_');
    assert(("KC_LOCKING_NUM_LOCK"@)[3] == 'L');
    assert(("KC_LOCKING_NUM_LOCK"@)[4] == 'O');
    assert(("KC_LOCKING_NUM_LOCK"@)[5] == 'C');
    assert(("KC_LOCKING_NUM_LOCK"@)[6] == 'K');
    assert(("KC_LOCKING_NUM_LOCK"@)[7] == 'I');
    assert(("KC_LOCKING_NUM_LOCK"@)[8] == 'N');
    assert(("KC_LOCKING_NUM_LOCK"@)[9] == 'G');
    assert(("KC_LOCKING_NUM_LOCK"@)[10] == '_');
    assert(("KC_LOCKING_NUM_LOCK"@)[11] == 'N');
    assert(("KC_LOCKING_NUM_LOCK"@)[12] == 'U');
    assert(("KC_LOCKING_NUM_LOCK"@)[13] == 'M');
    assert(("KC_LOCKING_NUM_LOCK"@)[14] == '_');
    assert(("KC_LOCKING_NUM_LOCK"@)[15] == 'L');
    assert(("KC_LOCKING_NUM_LOCK"@)[16] == 'O');
    assert(("KC_LOCKING_NUM_LOCK"@)[17] == 'C');
    assert(("KC_LOCKING_NUM_LOCK"@)[18] == 'K');
    assert(("KC_LOCKING_SCROLL_LOCK"@).len() == 22);
    assert(("KC_LOCKING_SCROLL_LOCK"@)[0] == 'K');
    assert(("KC_LOCKING_SCROLL_LOCK"@)[1] == 'C');
    assert(("KC_LOCKING_SCROLL_LOCK"@)[2] == '_');
    assert(("KC_LOCKING_SCROLL_LOCK"@)[3] == 'L');
    assert(("KC_LOCKING_SCROLL_LOCK"@)[4] == 'O');
    assert(("KC_LOCKING_SCROLL_LOCK"@)[5] == 'C');
    assert(("KC_LOCKING_SCROLL_LOCK"@)[6] == 'K');
    assert(("KC_LOCKING_SCROLL_LOCK"@)[7] == 'I');
    assert(("KC_LOCKING_SCROLL_LOCK"@)[8] == 'N');
    assert(("KC_LOCKING_SCROLL_LOCK"@)[9] == 'G');
    assert(("KC_LOCKING_SCROLL_LOCK"@)[10] == '_');
    assert(("KC_LOCKING_SCROLL_LOCK"@)[11] == 'S');
    assert(("KC_LOCKING_SCROLL_LOCK"@)[12] == 'C');
    assert(("KC_LOCKING_SCROLL_LOCK"@)[13] == 'R');
    assert(("KC_LOCKING_SCROLL_LOCK"@)[14] == 'O');
    assert(("KC_LOCKING_SCROLL_LOCK"@)[15] == 'L');
    assert(("KC_LOCKING_SCROLL_LOCK"@)[16] == 'L');
    assert(("KC_LOCKING_SCROLL_LOCK"@)[17] == '_');
    assert(("KC_LOCKING_SCROLL_LOCK"@)[18] == 'L');
    assert(("KC_LOCKING_SCROLL_LOCK"@)[19] == 'O');
    assert(("KC_LOCKING_SCROLL_LOCK"@)[20] == 'C');
    assert(("KC_LOCKING_SCROLL_LOCK"@)[21] == 'K');
    assert(("KC_KP_COMMA"@).len() == 11);
    assert(("KC_KP_COMMA"@)[0] == 'K');
    assert(("KC_KP_COMMA"@)[1] == 'C');
    assert(("KC_KP_COMMA"@)[2] == '_');
    assert(("KC_KP_COMMA"@)[3] == 'K');
    assert(("KC_KP_COMMA"@)[4] == 'P');
    assert(("KC_KP_COMMA"@)[5] == '_');
    assert(("KC_KP_COMMA"@)[6] == 'C');
    assert(("KC_KP_COMMA"@)[7] == 'O');
    assert(("KC_KP_COMMA"@)[8] == 'M');
    assert(("KC_KP_COMMA"@)[9] == 'M');
    assert(("KC_KP_COMMA"@)[10] == 'A');
    assert(("KC_KP_EQUAL_AS400"@).len() == 17);
    assert(("KC_KP_EQUAL_AS400"@)[0] == 'K');
    assert(("KC_KP_EQUAL_AS400"@)[1] == 'C');
    assert(("KC_KP_EQUAL_AS400"@)[2] == '_');
    assert(("KC_KP_EQUAL_AS400"@)[3] == 'K');
    assert(("KC_KP_EQUAL_AS400"@)[4] == 'P');
    assert(("KC_KP_EQUAL_AS400"@)[5] == '_');
    assert(("KC_KP_EQUAL_AS400"@)[6] == 'E');
    assert(("KC_KP_EQUAL_AS400"@)[7] == 'Q');
    assert(("KC_KP_EQUAL_AS400"@)[8] == 'U');
    assert(("KC_KP_EQUAL_AS400"@)[9] == 'A');
    assert(("KC_KP_EQUAL_AS400"@)[10] == 'L');
    assert(("KC_KP_EQUAL_AS400"@)[11] == '_');
    assert(("KC_KP_EQUAL_AS400"@)[12] == 'A');
    assert(("KC_KP_EQUAL_AS400"@)[13] == 'S');
    assert(("KC_KP_EQUAL_AS400"@)[14] == '4');
    assert(("KC_KP_EQUAL_AS400"@)[15] == '0');
    assert(("KC_KP_EQUAL_AS400"@)[16] == '0');
    assert(("KC_INTERNATIONAL_1"@).len() == 18);
    assert(("KC_INTERNATIONAL_1"@)[0] == 'K');
    assert(("KC_INTERNATIONAL_1"@)[1] == 'C');
    assert(("KC_INTERNATIONAL_1"@)[2] == '_');
    assert(("KC_INTERNATIONAL_1"@)[3] == 'I');
    assert(("KC_INTERNATIONAL_1"@)[4] == 'N');
    assert(("KC_INTERNATIONAL_1"@)[5] == 'T');
    assert(("KC_INTERNATIONAL_1"@)[6] == 'E');
    assert(("KC_INTERNATIONAL_1"@)[7] == 'R');
    assert(("KC_INTERNATIONAL_1"@)[8] == 'N');
    assert(("KC_INTERNATIONAL_1"@)[9] == 'A');
    assert(("KC_INTERNATIONAL_1"@)[10] == 'T');
    assert(("KC_INTERNATIONAL_1"@)[11] == 'I');
    assert(("KC_INTERNATIONAL_1"@)[12] == 'O');
    assert(("KC_INTERNATIONAL_1"@)[13] == 'N');
    assert(("KC_INTERNATIONAL_1"@)[14] == 'A');
    assert(("KC_INTERNATIONAL_1"@)[15] == 'L');
    assert(("KC_INTERNATIONAL_1"@)[16] == '_');
    assert(("KC_INTERNATIONAL_1"@)[17] == '1');
    assert(("KC_INTERNATIONAL_2"@).len() == 18);
    assert(("KC_INTERNATIONAL_2"@)[0] == 'K');
    assert(("KC_INTERNATIONAL_2"@)[1] == 'C');
    assert(("KC_INTERNATIONAL_2"@)[2] == '_');
    assert(("KC_INTERNATIONAL_2"@)[3] == 'I');
    assert(("KC_INTERNATIONAL_2"@)[4] == 'N');
    assert(("KC_INTERNATIONAL_2"@)[5] == 'T');
    assert(("KC_INTERNATIONAL_2"@)[6] == 'E');
    assert(("KC_INTERNATIONAL_2"@)[7] == 'R');
    assert(("KC_INTERNATIONAL_2"@)[8] == 'N');
    assert(("KC_INTERNATIONAL_2"@)[9] == 'A');
    assert(("KC_INTERNATIONAL_2"@)[10] == 'T');
    assert(("KC_INTERNATIONAL_2"@)[11] == 'I');
    assert(("KC_INTERNATIONAL_2"@)[12] == 'O');
    assert(("KC_INTERNATIONAL_2"@)[13] == 'N');
    assert(("KC_INTERNATIONAL_2"@)[14] == 'A');
    assert(("KC_INTERNATIONAL_2"@)[15] == 'L');
    assert(("KC_INTERNATIONAL_2"@)[16] == '_');
    assert(("KC_INTERNATIONAL_2"@)[17] == '2');
    assert(("KC_INTERNATIONAL_3"@).len() == 18);
    assert(("KC_INTERNATIONAL_3"@)[0] == 'K');
    assert(("KC_INTERNATIONAL_3"@)[1] == 'C');
    assert(("KC_INTERNATIONAL_3"@)[2] == '_');
    assert(("KC_INTERNATIONAL_3"@)[3] == 'I');
    assert(("KC_INTERNATIONAL_3"@)[4] == 'N');
    assert(("KC_INTERNATIONAL_3"@)[5] == 'T');
    assert(("KC_INTERNATIONAL_3"@)[6] == 'E');
    assert(("KC_INTERNATIONAL_3"@)[7] == 'R');
    assert(("KC_INTERNATIONAL_3"@)[8] == 'N');
    assert(("KC_INTERNATIONAL_3"@)[9] == 'A');
    assert(("KC_INTERNATIONAL_3"@)[10] == 'T');
    assert(("KC_INTERNATIONAL_3"@)[11] == 'I');
    assert(("KC_INTERNATIONAL_3"@)[12] == 'O');
    assert(("KC_INTERNATIONAL_3"@)[13] == 'N');
    assert(("KC_INTERNATIONAL_3"@)[14] == 'A');
    assert(("KC_INTERNATIONAL_3"@)[15] == 'L');
    assert(("KC_INTERNATIONAL_3"@)[16] == '_');
    assert(("KC_INTERNATIONAL_3"@)[17] == '3');
    assert(("KC_INTERNATIONAL_4"@).len() == 18);
    assert(("KC_INTERNATIONAL_4"@)[0] == 'K');
    assert(("KC_INTERNATIONAL_4"@)[1] == 'C');
    assert(("KC_INTERNATIONAL_4"@)[2] == '_');
    assert(("KC_INTERNATIONAL_4"@)[3] == 'I');
    assert(("KC_INTERNATIONAL_4"@)[4] == 'N');
    assert(("KC_INTERNATIONAL_4"@)[5] == 'T');
    assert(("KC_INTERNATIONAL_4"@)[6] == 'E');
    assert(("KC_INTERNATIONAL_4"@)[7] == 'R');
    assert(("KC_INTERNATIONAL_4"@)[8] == 'N');
    assert(("KC_INTERNATIONAL_4"@)[9] == 'A');
    assert(("KC_INTERNATIONAL_4"@)[10] == 'T');
    assert(("KC_INTERNATIONAL_4"@)[11] == 'I');
    assert(("KC_INTERNATIONAL_4"@)[12] == 'O');
    assert(("KC_INTERNATIONAL_4"@)[13] == 'N');
    assert(("KC_INTERNATIONAL_4"@)[14] == 'A');
    assert(("KC_INTERNATIONAL_4"@)[15] == 'L');
    assert(("KC_INTERNATIONAL_4"@)[16] == '_');
    assert(("KC_INTERNATIONAL_4"@)[17] == '4');
    assert(("KC_INTERNATIONAL_5"@).len() == 18);
    assert(("KC_INTERNATIONAL_5"@)[0] == 'K');
    assert(("KC_INTERNATIONAL_5"@)[1] == 'C');
    assert(("KC_INTERNATIONAL_5"@)[2] == '_');
    assert(("KC_INTERNATIONAL_5"@)[3] == 'I');
    assert(("KC_INTERNATIONAL_5"@)[4] == 'N');
    assert(("KC_INTERNATIONAL_5"@)[5] == 'T');
    assert(("KC_INTERNATIONAL_5"@)[6] == 'E');
    assert(("KC_INTERNATIONAL_5"@)[7] == 'R');
    assert(("KC_INTERNATIONAL_5"@)[8] == 'N');
    assert(("KC_INTERNATIONAL_5"@)[9] == 'A');
    assert(("KC_INTERNATIONAL_5"@)[10] == 'T');
    assert(("KC_INTERNATIONAL_5"@)[11] == 'I');
    assert(("KC_INTERNATIONAL_5"@)[12] == 'O');
    assert(("KC_INTERNATIONAL_5"@)[13] == 'N');
    assert(("KC_INTERNATIONAL_5"@)[14] == 'A');
    assert(("KC_INTERNATIONAL_5"@)[15] == 'L');
    assert(("KC_INTERNATIONAL_5"@)[16] == '_');
    assert(("KC_INTERNATIONAL_5"@)[17] == '5');
    assert(("KC_INTERNATIONAL_6"@).len() == 18);
    assert(("KC_INTERNATIONAL_6"@)[0] == 'K');
    assert(("KC_INTERNATIONAL_6"@)[1] == 'C');
    assert(("KC_INTERNATIONAL_6"@)[2] == '_');
    assert(("KC_INTERNATIONAL_6"@)[3] == 'I');
    assert(("KC_INTERNATIONAL_6"@)[4] == 'N');
    assert(("KC_INTERNATIONAL_6"@)[5] == 'T');
    assert(("KC_INTERNATIONAL_6"@)[6] == 'E');
    assert(("KC_INTERNATIONAL_6"@)[7] == 'R');
    assert(("KC_INTERNATIONAL_6"@)[8] == 'N');
    assert(("KC_INTERNATIONAL_6"@)[9] == 'A');
    assert(("KC_INTERNATIONAL_6"@)[10] == 'T');
    assert(("KC_INTERNATIONAL_6"@)[11] == 'I');
    assert(("KC_INTERNATIONAL_6"@)[12] == 'O');
    assert(("KC_INTERNATIONAL_6"@)[13] == 'N');
    assert(("KC_INTERNATIONAL_6"@)[14] == 'A');
    assert(("KC_INTERNATIONAL_6"@)[15] == 'L');
    assert(("KC_INTERNATIONAL_6"@)[16] == '_');
    assert(("KC_INTERNATIONAL_6"@)[17] == '6');
    assert(("KC_INTERNATIONAL_7"@).len() == 18);
    assert(("KC_INTERNATIONAL_7"@)[0] == 'K');
    assert(("KC_INTERNATIONAL_7"@)[1] == 'C');
    assert(("KC_INTERNATIONAL_7"@)[2] == '_');
    assert(("KC_INTERNATIONAL_7"@)[3] == 'I');
    assert(("KC_INTERNATIONAL_7"@)[4] == 'N');
    assert(("KC_INTERNATIONAL_7"@)[5] == 'T');
    assert(("KC_INTERNATIONAL_7"@)[6] == 'E');
    assert(("KC_INTERNATIONAL_7"@)[7] == 'R');
    assert(("KC_INTERNATIONAL_7"@)[8] == 'N');
    assert(("KC_INTERNATIONAL_7"@)[9] == 'A');
    assert(("KC_INTERNATIONAL_7"@)[10] == 'T');
    assert(("KC_INTERNATIONAL_7"@)[11] == 'I');
    assert(("KC_INTERNATIONAL_7"@)[12] == 'O');
    assert(("KC_INTERNATIONAL_7"@)[13] == 'N');
    assert(("KC_INTERNATIONAL_7"@)[14] == 'A');
    assert(("KC_INTERNATIONAL_7"@)[15] == 'L');
    assert(("KC_INTERNATIONAL_7"@)[16] == '_');
    assert(("KC_INTERNATIONAL_7"@)[17] == '7');
    assert(("KC_INTERNATIONAL_8"@).len() == 18);
    assert(("KC_INTERNATIONAL_8"@)[0] == 'K');
    assert(("KC_INTERNATIONAL_8"@)[1] == 'C');
    assert(("KC_INTERNATIONAL_8"@)[2] == '_');
    assert(("KC_INTERNATIONAL_8"@)[3] == 'I');
    assert(("KC_INTERNATIONAL_8"@)[4] == 'N');
    assert(("KC_INTERNATIONAL_8"@)[5] == 'T');
    assert(("KC_INTERNATIONAL_8"@)[6] == 'E');
    assert(("KC_INTERNATIONAL_8"@)[7] == 'R');
    assert(("KC_INTERNATIONAL_8"@)[8] == 'N');
    assert(("KC_INTERNATIONAL_8"@)[9] == 'A');
    assert(("KC_INTERNATIONAL_8"@)[10] == 'T');
    assert(("KC_INTERNATIONAL_8"@)[11] == 'I');
    assert(("KC_INTERNATIONAL_8"@)[12] == 'O');
    assert(("KC_INTERNATIONAL_8"@)[13] == 'N');
    assert(("KC_INTERNATIONAL_8"@)[14] == 'A');
    assert(("KC_INTERNATIONAL_8"@)[15] == 'L');
    assert(("KC_INTERNATIONAL_8"@)[16] == '_');
    assert(("KC_INTERNATIONAL_8"@)[17] == '8');
    assert(("KC_INTERNATIONAL_9"@).len() == 18);
    assert(("KC_INTERNATIONAL_9"@)[0] == 'K');
    assert(("KC_INTERNATIONAL_9"@)[1] == 'C');
    assert(("KC_INTERNATIONAL_9"@)[2] == '_');
    assert(("KC_INTERNATIONAL_9"@)[3] == 'I');
    assert(("KC_INTERNATIONAL_9"@)[4] == 'N');
    assert(("KC_INTERNATIONAL_9"@)[5] == 'T');
    assert(("KC_INTERNATIONAL_9"@)[6] == 'E');
    assert(("KC_INTERNATIONAL_9"@)[7] == 'R');
    assert(("KC_INTERNATIONAL_9"@)[8] == 'N');
    assert(("KC_INTERNATIONAL_9"@)[9] == 'A');
    assert(("KC_INTERNATIONAL_9"@)[10] == 'T');
    assert(("KC_INTERNATIONAL_9"@)[11] == 'I');
    assert(("KC_INTERNATIONAL_9"@)[12] == 'O');
    assert(("KC_INTERNATIONAL_9"@)[13] == 'N');
    assert(("KC_INTERNATIONAL_9"@)[14] == 'A');
    assert(("KC_INTERNATIONAL_9"@)[15] == 'L');
    assert(("KC_INTERNATIONAL_9"@)[16] == '_');
    assert(("KC_INTERNATIONAL_9"@)[17] == '9');
}

proof fn lemma_name_facts_block_9()
    ensures
        ("KC_LANGUAGE_1"@).len() == 13 && ("KC_LANGUAGE_1"@)[0] == 'K' && ("KC_LANGUAGE_1"@)[1] == 'C' && ("KC_LANGUAGE_1"@)[2] == '_' && ("KC_LANGUAGE_1"@)[3] == 'L' && ("KC_LANGUAGE_1"@)[4] == 'A' && ("KC_LANGUAGE_1"@)[5] == 'N' && ("KC_LANGUAGE_1"@)[6] == 'G' && ("KC_LANGUAGE_1"@)[7] == 'U' && ("KC_LANGUAGE_1"@)[8] == 'A' && ("KC_LANGUAGE_1"@)[9] == 'G' && ("KC_LANGUAGE_1"@)[10] == 'E' && ("KC_LANGUAGE_1"@)[11] == '_' && ("KC_LANGUAGE_1"@)[12] == '1',
        ("KC_LANGUAGE_2"@).len() == 13 && ("KC_LANGUAGE_2"@)[0] == 'K' && ("KC_LANGUAGE_2"@)[1] == 'C' && ("KC_LANGUAGE_2"@)[2] == '_' && ("KC_LANGUAGE_2"@)[3] == 'L' && ("KC_LANGUAGE_2"@)[4] == 'A' && ("KC_LANGUAGE_2"@)[5] == 'N' && ("KC_LANGUAGE_2"@)[6] == 'G' && ("KC_LANGUAGE_2"@)[7] == 'U' && ("KC_LANGUAGE_2"@)[8] == 'A' && ("KC_LANGUAGE_2"@)[9] == 'G' && ("KC_LANGUAGE_2"@)[10] == 'E' && ("KC_LANGUAGE_2"@)[11] == '_' && ("KC_LANGUAGE_2"@)[12] == '2',
        ("KC_LANGUAGE_3"@).len() == 13 && ("KC_LANGUAGE_3"@)[0] == 'K' && ("KC_LANGUAGE_3"@)[1] == 'C' && ("KC_LANGUAGE_3"@)[2] == '_' && ("KC_LANGUAGE_3"@)[3] == 'L' && ("KC_LANGUAGE_3"@)[4] == 'A' && ("KC_LANGUAGE_3"@)[5] == 'N' && ("KC_LANGUAGE_3"@)[6] == 'G' && ("KC_LANGUAGE_3"@)[7] == 'U' && ("KC_LANGUAGE_3"@)[8] == 'A' && ("KC_LANGUAGE_3"@)[9] == 'G' && ("KC_LANGUAGE_3"@)[10] == 'E' && ("KC_LANGUAGE_3"@)[11] == '_' && ("KC_LANGUAGE_3"@)[12] == '3',
        ("KC_LANGUAGE_4"@).len() == 13 && ("KC_LANGUAGE_4"@)[0] == 'K' && ("KC_LANGUAGE_4"@)[1] == 'C' && ("KC_LANGUAGE_4"@)[2] == '_' && ("KC_LANGUAGE_4"@)[3] == 'L' && ("KC_LANGUAGE_4"@)[4] == 'A' && ("KC_LANGUAGE_4"@)[5] == 'N' && ("KC_LANGUAGE_4"@)[6] == 'G' && ("KC_LANGUAGE_4"@)[7] == 'U' && ("KC_LANGUAGE_4"@)[8] == 'A' && ("KC_LANGUAGE_4"@)[9] == 'G' && ("KC_LANGUAGE_4"@)[10] == 'E' && ("KC_LANGUAGE_4"@)[11] == '_' && ("KC_LANGUAGE_4"@)[12] == '4',
        ("KC_LANGUAGE_5"@).len() == 13 && ("KC_LANGUAGE_5"@)[0] == 'K' && ("KC_LANGUAGE_5"@)[1] == 'C' && ("KC_LANGUAGE_5"@)[2] == '_' && ("KC_LANGUAGE_5"@)[3] == 'L' && ("KC_LANGUAGE_5"@)[4] == 'A' && ("KC_LANGUAGE_5"@)[5] == 'N' && ("KC_LANGUAGE_5"@)[6] == 'G' && ("KC_LANGUAGE_5"@)[7] == 'U' && ("KC_LANGUAGE_5"@)[8] == 'A' && ("KC_LANGUAGE_5"@)[9] == 'G' && ("KC_LANGUAGE_5"@)[10] == 'E' && ("KC_LANGUAGE_5"@)[11] == '_' && ("KC_LANGUAGE_5"@)[12] == '5',
        ("KC_LANGUAGE_6"@).len() == 13 && ("KC_LANGUAGE_6"@)[0] == 'K' && ("KC_LANGUAGE_6"@)[1] == 'C' && ("KC_LANGUAGE_6"@)[2] == '_' && ("KC_LANGUAGE_6"@)[3] == 'L' && ("KC_LANGUAGE_6"@)[4] == 'A' && ("KC_LANGUAGE_6"@)[5] == 'N' && ("KC_LANGUAGE_6"@)[6] == 'G' && ("KC_LANGUAGE_6"@)[7] == 'U' && ("KC_LANGUAGE_6"@)[8] == 'A' && ("KC_LANGUAGE_6"@)[9] == 'G' && ("KC_LANGUAGE_6"@)[10] == 'E' && ("KC_LANGUAGE_6"@)[11] == '_' && ("KC_LANGUAGE_6"@)[12] == '6',
        ("KC_LANGUAGE_7"@).len() == 13 && ("KC_LANGUAGE_7"@)[0] == 'K' && ("KC_LANGUAGE_7"@)[1] == 'C' && ("KC_LANGUAGE_7"@)[2] == '_' && ("KC_LANGUAGE_7"@)[3] == 'L' && ("KC_LANGUAGE_7"@)[4] == 'A' && ("KC_LANGUAGE_7"@)[5] == 'N' && ("KC_LANGUAGE_7"@)[6] == 'G' && ("KC_LANGUAGE_7"@)[7] == 'U' && ("KC_LANGUAGE_7"@)[8] == 'A' && ("KC_LANGUAGE_7"@)[9] == 'G' && ("KC_LANGUAGE_7"@)[10] == 'E' && ("KC_LANGUAGE_7"@)[11] == '_' && ("KC_LANGUAGE_7"@)[12] == '7',
        ("KC_LANGUAGE_8"@).len() == 13 && ("KC_LANGUAGE_8"@)[0] == 'K' && ("KC_LANGUAGE_8"@)[1] == 'C' && ("KC_LANGUAGE_8"@)[2] == '_' && ("KC_LANGUAGE_8"@)[3] == 'L' && ("KC_LANGUAGE_8"@)[4] == 'A' && ("KC_LANGUAGE_8"@)[5] == 'N' && ("KC_LANGUAGE_8"@)[6] == 'G' && ("KC_LANGUAGE_8"@)[7] == 'U' && ("KC_LANGUAGE_8"@)[8] == 'A' && ("KC_LANGUAGE_8"@)[9] == 'G' && ("KC_LANGUAGE_8"@)[10] == 'E' && ("KC_LANGUAGE_8"@)[11] == '_' && ("KC_LANGUAGE_8"@)[12] == '8',
        ("KC_LANGUAGE_9"@).len() == 13 && ("KC_LANGUAGE_9"@)[0] == 'K' && ("KC_LANGUAGE_9"@)[1] == 'C' && ("KC_LANGUAGE_9"@)[2] == '_' && ("KC_LANGUAGE_9"@)[3] == 'L' && ("KC_LANGUAGE_9"@)[4] == 'A' && ("KC_LANGUAGE_9"@)[5] == 'N' && ("KC_LANGUAGE_9"@)[6] == 'G' && ("KC_LANGUAGE_9"@)[7] == 'U' && ("KC_LANGUAGE_9"@)[8] == 'A' && ("KC_LANGUAGE_9"@)[9] == 'G' && ("KC_LANGUAGE_9"@)[10] == 'E' && ("KC_LANGUAGE_9"@)[11] == '_' && ("KC_LANGUAGE_9"@)[12] == '9',
        ("KC_ALTERNATE_ERASE"@).len() == 18 && ("KC_ALTERNATE_ERASE"@)[0] == 'K' && ("KC_ALTERNATE_ERASE"@)[1] == 'C' && ("KC_ALTERNATE_ERASE"@)[2] == '_' && ("KC_ALTERNATE_ERASE"@)[3] == 'A' && ("KC_ALTERNATE_ERASE"@)[4] == 'L' && ("KC_ALTERNATE_ERASE"@)[5] == 'T' && ("KC_ALTERNATE_ERASE"@)[6] == 'E' && ("KC_ALTERNATE_ERASE"@)[7] == 'R' && ("KC_ALTERNATE_ERASE"@)[8] == 'N' && ("KC_ALTERNATE_ERASE"@)[9] == 'A' && ("KC_ALTERNATE_ERASE"@)[10] == 'T' && ("KC_ALTERNATE_ERASE"@)[11] == 'E' && ("KC_ALTERNATE_ERASE"@)[12] == '_' && ("KC_ALTERNATE_ERASE"@)[13] == 'E' && ("KC_ALTERNATE_ERASE"@)[14] == 'R' && ("KC_ALTERNATE_ERASE"@)[15] == 'A' && ("KC_ALTERNATE_ERASE"@)[16] == 'S' && ("KC_ALTERNATE_ERASE"@)[17] == 'E',
        ("KC_SYSTEM_REQUEST"@).len() == 17 && ("KC_SYSTEM_REQUEST"@)[0] == 'K' && ("KC_SYSTEM_REQUEST"@)[1] == 'C' && ("KC_SYSTEM_REQUEST"@)[2] == '_' && ("KC_SYSTEM_REQUEST"@)[3] == 'S' && ("KC_SYSTEM_REQUEST"@)[4] == 'Y' && ("KC_SYSTEM_REQUEST"@)[5] == 'S' && ("KC_SYSTEM_REQUEST"@)[6] == 'T' && ("KC_SYSTEM_REQUEST"@)[7] == 'E' && ("KC_SYSTEM_REQUEST"@)[8] == 'M' && ("KC_SYSTEM_REQUEST"@)[9] == '_' && ("KC_SYSTEM_REQUEST"@)[10] == 'R' && ("KC_SYSTEM_REQUEST"@)[11] == 'E' && ("KC_SYSTEM_REQUEST"@)[12] == 'Q' && ("KC_SYSTEM_REQUEST"@)[13] == 'U' && ("KC_SYSTEM_REQUEST"@)[14] == 'E' && ("KC_SYSTEM_REQUEST"@)[15] == 'S' && ("KC_SYSTEM_REQUEST"@)[16] == 'T',
        ("KC_CANCEL"@).len() == 9 && ("KC_CANCEL"@)[0] == 'K' && ("KC_CANCEL"@)[1] == 'C' && ("KC_CANCEL"@)[2] == '_' && ("KC_CANCEL"@)[3] == 'C' && ("KC_CANCEL"@)[4] == 'A' && ("KC_CANCEL"@)[5] == 'N' && ("KC_CANCEL"@)[6] == 'C' && ("KC_CANCEL"@)[7] == 'E' && ("KC_CANCEL"@)[8] == 'L',
        ("KC_CLEAR"@).len() == 8 && ("KC_CLEAR"@)[0] == 'K' && ("KC_CLEAR"@)[1] == 'C' && ("KC_CLEAR"@)[2] == '_' && ("KC_CLEAR"@)[3] == 'C' && ("KC_CLEAR"@)[4] == 'L' && ("KC_CLEAR"@)[5] == 'E' && ("KC_CLEAR"@)[6] == 'A' && ("KC_CLEAR"@)[7] == 'R',
        ("KC_PRIOR"@).len() == 8 && ("KC_PRIOR"@)[0] == 'K' && ("KC_PRIOR"@)[1] == 'C' && ("KC_PRIOR"@)[2] == '_' && ("KC_PRIOR"@)[3] == 'P' && ("KC_PRIOR"@)[4] == 'R' && ("KC_PRIOR"@)[5] == 'I' && ("KC_PRIOR"@)[6] == 'O' && ("KC_PRIOR"@)[7] == 'R',
        ("KC_RETURN"@).len() == 9 && ("KC_RETURN"@)[0] == 'K' && ("KC_RETURN"@)[1] == 'C' && ("KC_RETURN"@)[2] == '_' && ("KC_RETURN"@)[3] == 'R' && ("KC_RETURN"@)[4] == 'E' && ("KC_RETURN"@)[5] == 'T' && ("KC_RETURN"@)[6] == 'U' && ("KC_RETURN"@)[7] == 'R' && ("KC_RETURN"@)[8] == 'N',
        ("KC_SEPARATOR"@).len() == 12 && ("KC_SEPARATOR"@)[0] == 'K' && ("KC_SEPARATOR"@)[1] == 'C' && ("KC_SEPARATOR"@)[2] == '_' && ("KC_SEPARATOR"@)[3] == 'S' && ("KC_SEPARATOR"@)[4] == 'E' && ("KC_SEPARATOR"@)[5] == 'P' && ("KC_SEPARATOR"@)[6] == 'A' && ("KC_SEPARATOR"@)[7] == 'R' && ("KC_SEPARATOR"@)[8] == 'A' && ("KC_SEPARATOR"@)[9] == 'T' && ("KC_SEPARATOR"@)[10] == 'O' && ("KC_SEPARATOR"@)[11] == 'R',
{
    reveal_strlit("KC_LANGUAGE_1");
    reveal_strlit("KC_LANGUAGE_2");
    reveal_strlit("KC_LANGUAGE_3");
    reveal_strlit("KC_LANGUAGE_4");
    reveal_strlit("KC_LANGUAGE_5");
    reveal_strlit("KC_LANGUAGE_6");
    reveal_strlit("KC_LANGUAGE_7");
    reveal_strlit("KC_LANGUAGE_8");
    reveal_strlit("KC_LANGUAGE_9");
    reveal_strlit("KC_ALTERNATE_ERASE");
    reveal_strlit("KC_SYSTEM_REQUEST");
    reveal_strlit("KC_CANCEL");
    reveal_strlit("KC_CLEAR");
    reveal_strlit("KC_PRIOR");
    reveal_strlit("KC_RETURN");
    reveal_strlit("KC_SEPARATOR");
    assert(("KC_LANGUAGE_1"@).len() == 13);
    assert(("KC_LANGUAGE_1"@)[0] == 'K');
    assert(("KC_LANGUAGE_1"@)[1] == 'C');
    assert(("KC_LANGUAGE_1"@)[2] == '_');
    assert(("KC_LANGUAGE_1"@)[3] == 'L');
    assert(("KC_LANGUAGE_1"@)[4] == 'A');
    assert(("KC_LANGUAGE_1"@)[5] == 'N');
    assert(("KC_LANGUAGE_1"@)[6] == 'G');
    assert(("KC_LANGUAGE_1"@)[7] == 'U');
    assert(("KC_LANGUAGE_1"@)[8] == 'A');
    assert(("KC_LANGUAGE_1"@)[9] == 'G');
    assert(("KC_LANGUAGE_1"@)[10] == 'E');
    assert(("KC_LANGUAGE_1"@)[11] == '_');
    assert(("KC_LANGUAGE_1"@)[12] == '1');
    assert(("KC_LANGUAGE_2"@).len() == 13);
    assert(("KC_LANGUAGE_2"@)[0] == 'K');
    assert(("KC_LANGUAGE_2"@)[1] == 'C');
    assert(("KC_LANGUAGE_2"@)[2] == '_');
    assert(("KC_LANGUAGE_2"@)[3] == 'L');
    assert(("KC_LANGUAGE_2"@)[4] == 'A');
    assert(("KC_LANGUAGE_2"@)[5] == 'N');
    assert(("KC_LANGUAGE_2"@)[6] == 'G');
    assert(("KC_LANGUAGE_2"@)[7] == 'U');
    assert(("KC_LANGUAGE_2"@)[8] == 'A');
    assert(("KC_LANGUAGE_2"@)[9] == 'G');
    assert(("KC_LANGUAGE_2"@)[10] == 'E');
    assert(("KC_LANGUAGE_2"@)[11] == '_');
    assert(("KC_LANGUAGE_2"@)[12] == '2');
    assert(("KC_LANGUAGE_3"@).len() == 13);
    assert(("KC_LANGUAGE_3"@)[0] == 'K');
    assert(("KC_LANGUAGE_3"@)[1] == 'C');
    assert(("KC_LANGUAGE_3"@)[2] == '_');
    assert(("KC_LANGUAGE_3"@)[3] == 'L');
    assert(("KC_LANGUAGE_3"@)[4] == 'A');
    assert(("KC_LANGUAGE_3"@)[5] == 'N');
    assert(("KC_LANGUAGE_3"@)[6] == 'G');
    assert(("KC_LANGUAGE_3"@)[7] == 'U');
    assert(("KC_LANGUAGE_3"@)[8] == 'A');
    assert(("KC_LANGUAGE_3"@)[9] == 'G');
    assert(("KC_LANGUAGE_3"@)[10] == 'E');
    assert(("KC_LANGUAGE_3"@)[11] == '_');
    assert(("KC_LANGUAGE_3"@)[12] == '3');
    assert(("KC_LANGUAGE_4"@).len() == 13);
    assert(("KC_LANGUAGE_4"@)[0] == 'K');
    assert(("KC_LANGUAGE_4"@)[1] == 'C');
    assert(("KC_LANGUAGE_4"@)[2] == '_');
    assert(("KC_LANGUAGE_4"@)[3] == 'L');
    assert(("KC_LANGUAGE_4"@)[4] == 'A');
    assert(("KC_LANGUAGE_4"@)[5] == 'N');
    assert(("KC_LANGUAGE_4"@)[6] == 'G');
    assert(("KC_LANGUAGE_4"@)[7] == 'U');
    assert(("KC_LANGUAGE_4"@)[8] == 'A');
    assert(("KC_LANGUAGE_4"@)[9] == 'G');
    assert(("KC_LANGUAGE_4"@)[10] == 'E');
    assert(("KC_LANGUAGE_4"@)[11] == '_');
    assert(("KC_LANGUAGE_4"@)[12] == '4');
    assert(("KC_LANGUAGE_5"@).len() == 13);
    assert(("KC_LANGUAGE_5"@)[0] == 'K');
    assert(("KC_LANGUAGE_5"@)[1] == 'C');
    assert(("KC_LANGUAGE_5"@)[2] == '_');
    assert(("KC_LANGUAGE_5"@)[3] == 'L');
    assert(("KC_LANGUAGE_5"@)[4] == 'A');
    assert(("KC_LANGUAGE_5"@)[5] == 'N');
    assert(("KC_LANGUAGE_5"@)[6] == 'G');
    assert(("KC_LANGUAGE_5"@)[7] == 'U');
    assert(("KC_LANGUAGE_5"@)[8] == 'A');
    assert(("KC_LANGUAGE_5"@)[9] == 'G');
    assert(("KC_LANGUAGE_5"@)[10] == 'E');
    assert(("KC_LANGUAGE_5"@)[11] == '_');
    assert(("KC_LANGUAGE_5"@)[12] == '5');
    assert(("KC_LANGUAGE_6"@).len() == 13);
    assert(("KC_LANGUAGE_6"@)[0] == 'K');
    assert(("KC_LANGUAGE_6"@)[1] == 'C');
    assert(("KC_LANGUAGE_6"@)[2] == '_');
    assert(("KC_LANGUAGE_6"@)[3] == 'L');
    assert(("KC_LANGUAGE_6"@)[4] == 'A');
    assert(("KC_LANGUAGE_6"@)[5] == 'N');
    assert(("KC_LANGUAGE_6"@)[6] == 'G');
    assert(("KC_LANGUAGE_6"@)[7] == 'U');
    assert(("KC_LANGUAGE_6"@)[8] == 'A');
    assert(("KC_LANGUAGE_6"@)[9] == 'G');
    assert(("KC_LANGUAGE_6"@)[10] == 'E');
    assert(("KC_LANGUAGE_6"@)[11] == '_');
    assert(("KC_LANGUAGE_6"@)[12] == '6');
    assert(("KC_LANGUAGE_7"@).len() == 13);
    assert(("KC_LANGUAGE_7"@)[0] == 'K');
    assert(("KC_LANGUAGE_7"@)[1] == 'C');
    assert(("KC_LANGUAGE_7"@)[2] == '_');
    assert(("KC_LANGUAGE_7"@)[3] == 'L');
    assert(("KC_LANGUAGE_7"@)[4] == 'A');
    assert(("KC_LANGUAGE_7"@)[5] == 'N');
    assert(("KC_LANGUAGE_7"@)[6] == 'G');
    assert(("KC_LANGUAGE_7"@)[7] == 'U');
    assert(("KC_LANGUAGE_7"@)[8] == 'A');
    assert(("KC_LANGUAGE_7"@)[9] == 'G');
    assert(("KC_LANGUAGE_7"@)[10] == 'E');
    assert(("KC_LANGUAGE_7"@)[11] == '_');
    assert(("KC_LANGUAGE_7"@)[12] == '7');
    assert(("KC_LANGUAGE_8"@).len() == 13);
    assert(("KC_LANGUAGE_8"@)[0] == 'K');
    assert(("KC_LANGUAGE_8"@)[1] == 'C');
    assert(("KC_LANGUAGE_8"@)[2] == '_');
    assert(("KC_LANGUAGE_8"@)[3] == 'L');
    assert(("KC_LANGUAGE_8"@)[4] == 'A');
    assert(("KC_LANGUAGE_8"@)[5] == 'N');
    assert(("KC_LANGUAGE_8"@)[6] == 'G');
    assert(("KC_LANGUAGE_8"@)[7] == 'U');
    assert(("KC_LANGUAGE_8"@)[8] == 'A');
    assert(("KC_LANGUAGE_8"@)[9] == 'G');
    assert(("KC_LANGUAGE_8"@)[10] == 'E');
    assert(("KC_LANGUAGE_8"@)[11] == '_');
    assert(("KC_LANGUAGE_8"@)[12] == '8');
    assert(("KC_LANGUAGE_9"@).len() == 13);
    assert(("KC_LANGUAGE_9"@)[0] == 'K');
    assert(("KC_LANGUAGE_9"@)[1] == 'C');
    assert(("KC_LANGUAGE_9"@)[2] == '_');
    assert(("KC_LANGUAGE_9"@)[3] == 'L');
    assert(("KC_LANGUAGE_9"@)[4] == 'A');
    assert(("KC_LANGUAGE_9"@)[5] == 'N');
    assert(("KC_LANGUAGE_9"@)[6] == 'G');
    assert(("KC_LANGUAGE_9"@)[7] == 'U');
    assert(("KC_LANGUAGE_9"@)[8] == 'A');
    assert(("KC_LANGUAGE_9"@)[9] == 'G');
    assert(("KC_LANGUAGE_9"@)[10] == 'E');
    assert(("KC_LANGUAGE_9"@)[11] == '_');
    assert(("KC_LANGUAGE_9"@)[12] == '9');
    assert(("KC_ALTERNATE_ERASE"@).len() == 18);
    assert(("KC_ALTERNATE_ERASE"@)[0] == 'K');
    assert(("KC_ALTERNATE_ERASE"@)[1] == 'C');
    assert(("KC_ALTERNATE_ERASE"@)[2] == '_');
    assert(("KC_ALTERNATE_ERASE"@)[3] == 'A');
    assert(("KC_ALTERNATE_ERASE"@)[4] == 'L');
    assert(("KC_ALTERNATE_ERASE"@)[5] == 'T');
    assert(("KC_ALTERNATE_ERASE"@)[6] == 'E');
    assert(("KC_ALTERNATE_ERASE"@)[7] == 'R');
    assert(("KC_ALTERNATE_ERASE"@)[8] == 'N');
    assert(("KC_ALTERNATE_ERASE"@)[9] == 'A');
    assert(("KC_ALTERNATE_ERASE"@)[10] == 'T');
    assert(("KC_ALTERNATE_ERASE"@)[11] == 'E');
    assert(("KC_ALTERNATE_ERASE"@)[12] == '_');
    assert(("KC_ALTERNATE_ERASE"@)[13] == 'E');
    assert(("KC_ALTERNATE_ERASE"@)[14] == 'R');
    assert(("KC_ALTERNATE_ERASE"@)[15] == 'A');
    assert(("KC_ALTERNATE_ERASE"@)[16] == 'S');
    assert(("KC_ALTERNATE_ERASE"@)[17] == 'E');
    assert(("KC_SYSTEM_REQUEST"@).len() == 17);
    assert(("KC_SYSTEM_REQUEST"@)[0] == 'K');
    assert(("KC_SYSTEM_REQUEST"@)[1] == 'C');
    assert(("KC_SYSTEM_REQUEST"@)[2] == '_');
    assert(("KC_SYSTEM_REQUEST"@)[3] == 'S');
    assert(("KC_SYSTEM_REQUEST"@)[4] == 'Y');
    assert(("KC_SYSTEM_REQUEST"@)[5] == 'S');
    assert(("KC_SYSTEM_REQUEST"@)[6] == 'T');
    assert(("KC_SYSTEM_REQUEST"@)[7] == 'E');
    assert(("KC_SYSTEM_REQUEST"@)[8] == 'M');
    assert(("KC_SYSTEM_REQUEST"@)[9] == '_');
    assert(("KC_SYSTEM_REQUEST"@)[10] == 'R');
    assert(("KC_SYSTEM_REQUEST"@)[11] == 'E');
    assert(("KC_SYSTEM_REQUEST"@)[12] == 'Q');
    assert(("KC_SYSTEM_REQUEST"@)[13] == 'U');
    assert(("KC_SYSTEM_REQUEST"@)[14] == 'E');
    assert(("KC_SYSTEM_REQUEST"@)[15] == 'S');
    assert(("KC_SYSTEM_REQUEST"@)[16] == 'T');
    assert(("KC_CANCEL"@).len() == 9);
    assert(("KC_CANCEL"@)[0] == 'K');
    assert(("KC_CANCEL"@)[1] == 'C');
    assert(("KC_CANCEL"@)[2] == '_');
    assert(("KC_CANCEL"@)[3] == 'C');
    assert(("KC_CANCEL"@)[4] == 'A');
    assert(("KC_CANCEL"@)[5] == 'N');
    assert(("KC_CANCEL"@)[6] == 'C');
    assert(("KC_CANCEL"@)[7] == 'E');
    assert(("KC_CANCEL"@)[8] == 'L');
    assert(("KC_CLEAR"@).len() == 8);
    assert(("KC_CLEAR"@)[0] == 'K');
    assert(("KC_CLEAR"@)[1] == 'C');
    assert(("KC_CLEAR"@)[2] == '_');
    assert(("KC_CLEAR"@)[3] == 'C');
    assert(("KC_CLEAR"@)[4] == 'L');
    assert(("KC_CLEAR"@)[5] == 'E');
    assert(("KC_CLEAR"@)[6] == 'A');
    assert(("KC_CLEAR"@)[7] == 'R');
    assert(("KC_PRIOR"@).len() == 8);
    assert(("KC_PRIOR"@)[0] == 'K');
    assert(("KC_PRIOR"@)[1] == 'C');
    assert(("KC_PRIOR"@)[2] == '_');
    assert(("KC_PRIOR"@)[3] == 'P');
    assert(("KC_PRIOR"@)[4] == 'R');
    assert(("KC_PRIOR"@)[5] == 'I');
    assert(("KC_PRIOR"@)[6] == 'O');
    assert(("KC_PRIOR"@)[7] == 'R');
    assert(("KC_RETURN"@).len() == 9);
    assert(("KC_RETURN"@)[0] == 'K');
    assert(("KC_RETURN"@)[1] == 'C');
    assert(("KC_RETURN"@)[2] == '_');
    assert(("KC_RETURN"@)[3] == 'R');
    assert(("KC_RETURN"@)[4] == 'E');
    assert(("KC_RETURN"@)[5] == 'T');
    assert(("KC_RETURN"@)[6] == 'U');
    assert(("KC_RETURN"@)[7] == 'R');
    assert(("KC_RETURN"@)[8] == 'N');
    assert(("KC_SEPARATOR"@).len() == 12);
    assert(("KC_SEPARATOR"@)[0] == 'K');
    assert(("KC_SEPARATOR"@)[1] == 'C');
    assert(("KC_SEPARATOR"@)[2] == '_');
    assert(("KC_SEPARATOR"@)[3] == 'S');
    assert(("KC_SEPARATOR"@)[4] == 'E');
    assert(("KC_SEPARATOR"@)[5] == 'P');
    assert(("KC_SEPARATOR"@)[6] == 'A');
    assert(("KC_SEPARATOR"@)[7] == 'R');
    assert(("KC_SEPARATOR"@)[8] == 'A');
    assert(("KC_SEPARATOR"@)[9] == 'T');
    assert(("KC_SEPARATOR"@)[10] == 'O');
    assert(("KC_SEPARATOR"@)[11] == 'R');
}

proof fn lemma_name_facts_block_10()
    ensures
        ("KC_OUT"@).len() == 6 && ("KC_OUT"@)[0] == 'K' && ("KC_OUT"@)[1] == 'C' && ("KC_OUT"@)[2] == '_' && ("KC_OUT"@)[3] == 'O' && ("KC_OUT"@)[4] == 'U' && ("KC_OUT"@)[5] == 'T',
        ("KC_OPER"@).len() == 7 && ("KC_OPER"@)[0] == 'K' && ("KC_OPER"@)[1] == 'C' && ("KC_OPER"@)[2] == '_' && ("KC_OPER"@)[3] == 'O' && ("KC_OPER"@)[4] == 'P' && ("KC_OPER"@)[5] == 'E' && ("KC_OPER"@)[6] == 'R',
        ("KC_CLEAR_AGAIN"@).len() == 14 && ("KC_CLEAR_AGAIN"@)[0] == 'K' && ("KC_CLEAR_AGAIN"@)[1] == 'C' && ("KC_CLEAR_AGAIN"@)[2] == '_' && ("KC_CLEAR_AGAIN"@)[3] == 'C' && ("KC_CLEAR_AGAIN"@)[4] == 'L' && ("KC_CLEAR_AGAIN"@)[5] == 'E' && ("KC_CLEAR_AGAIN"@)[6] == 'A' && ("KC_CLEAR_AGAIN"@)[7] == 'R' && ("KC_CLEAR_AGAIN"@)[8] == '_' && ("KC_CLEAR_AGAIN"@)[9] == 'A' && ("KC_CLEAR_AGAIN"@)[10] == 'G' && ("KC_CLEAR_AGAIN"@)[11] == 'A' && ("KC_CLEAR_AGAIN"@)[12] == 'I' && ("KC_CLEAR_AGAIN"@)[13] == 'N',
        ("KC_CRSEL"@).len() == 8 && ("KC_CRSEL"@)[0] == 'K' && ("KC_CRSEL"@)[1] == 'C' && ("KC_CRSEL"@)[2] == '_' && ("KC_CRSEL"@)[3] == 'C' && ("KC_CRSEL"@)[4] == 'R' && ("KC_CRSEL"@)[5] == 'S' && ("KC_CRSEL"@)[6] == 'E' && ("KC_CRSEL"@)[7] == 'L',
        ("KC_EXSEL"@).len() == 8 && ("KC_EXSEL"@)[0] == 'K' && ("KC_EXSEL"@)[1] == 'C' && ("KC_EXSEL"@)[2] == '_' && ("KC_EXSEL"@)[3] == 'E' && ("KC_EXSEL"@)[4] == 'X' && ("KC_EXSEL"@)[5] == 'S' && ("KC_EXSEL"@)[6] == 'E' && ("KC_EXSEL"@)[7] == 'L',
        ("KC_RESERVED_165"@).len() == 15 && ("KC_RESERVED_165"@)[0] == 'K' && ("KC_RESERVED_165"@)[1] == 'C' && ("KC_RESERVED_165"@)[2] == '_' && ("KC_RESERVED_165"@)[3] == 'R' && ("KC_RESERVED_165"@)[4] == 'E' && ("KC_RESERVED_165"@)[5] == 'S' && ("KC_RESERVED_165"@)[6] == 'E' && ("KC_RESERVED_165"@)[7] == 'R' && ("KC_RESERVED_165"@)[8] == 'V' && ("KC_RESERVED_165"@)[9] == 'E' && ("KC_RESERVED_165"@)[10] == 'D' && ("KC_RESERVED_165"@)[11] == '_' && ("KC_RESERVED_165"@)[12] == '1' && ("KC_RESERVED_165"@)[13] == '6' && ("KC_RESERVED_165"@)[14] == '5',
        ("KC_RESERVED_166"@).len() == 15 && ("KC_RESERVED_166"@)[0] == 'K' && ("KC_RESERVED_166"@)[1] == 'C' && ("KC_RESERVED_166"@)[2] == '_' && ("KC_RESERVED_166"@)[3] == 'R' && ("KC_RESERVED_166"@)[4] == 'E' && ("KC_RESERVED_166"@)[5] == 'S' && ("KC_RESERVED_166"@)[6] == 'E' && ("KC_RESERVED_166"@)[7] == 'R' && ("KC_RESERVED_166"@)[8] == 'V' && ("KC_RESERVED_166"@)[9] == 'E' && ("KC_RESERVED_166"@)[10] == 'D' && ("KC_RESERVED_166"@)[11] == '_' && ("KC_RESERVED_166"@)[12] == '1' && ("KC_RESERVED_166"@)[13] == '6' && ("KC_RESERVED_166"@)[14] == '6',
        ("KC_RESERVED_167"@).len() == 15 && ("KC_RESERVED_167"@)[0] == 'K' && ("KC_RESERVED_167"@)[1] == 'C' && ("KC_RESERVED_167"@)[2] == '_' && ("KC_RESERVED_167"@)[3] == 'R' && ("KC_RESERVED_167"@)[4] == 'E' && ("KC_RESERVED_167"@)[5] == 'S' && ("KC_RESERVED_167"@)[6] == 'E' && ("KC_RESERVED_167"@)[7] == 'R' && ("KC_RESERVED_167"@)[8] == 'V' && ("KC_RESERVED_167"@)[9] == 'E' && ("KC_RESERVED_167"@)[10] == 'D' && ("KC_RESERVED_167"@)[11] == '_' && ("KC_RESERVED_167"@)[12] == '1' && ("KC_RESERVED_167"@)[13] == '6' && ("KC_RESERVED_167"@)[14] == '7',
        ("KC_RESERVED_168"@).len() == 15 && ("KC_RESERVED_168"@)[0] == 'K' && ("KC_RESERVED_168"@)[1] == 'C' && ("KC_RESERVED_168"@)[2] == '_' && ("KC_RESERVED_168"@)[3] == 'R' && ("KC_RESERVED_168"@)[4] == 'E' && ("KC_RESERVED_168"@)[5] == 'S' && ("KC_RESERVED_168"@)[6] == 'E' && ("KC_RESERVED_168"@)[7] == 'R' && ("KC_RESERVED_168"@)[8] == 'V' && ("KC_RESERVED_168"@)[9] == 'E' && ("KC_RESERVED_168"@)[10] == 'D' && ("KC_RESERVED_168"@)[11] == '_' && ("KC_RESERVED_168"@)[12] == '1' && ("KC_RESERVED_168"@)[13] == '6' && ("KC_RESERVED_168"@)[14] == '8',
        ("KC_RESERVED_169"@).len() == 15 && ("KC_RESERVED_169"@)[0] == 'K' && ("KC_RESERVED_169"@)[1] == 'C' && ("KC_RESERVED_169"@)[2] == '_' && ("KC_RESERVED_169"@)[3] == 'R' && ("KC_RESERVED_169"@)[4] == 'E' && ("KC_RESERVED_169"@)[5] == 'S' && ("KC_RESERVED_169"@)[6] == 'E' && ("KC_RESERVED_169"@)[7] == 'R' && ("KC_RESERVED_169"@)[8] == 'V' && ("KC_RESERVED_169"@)[9] == 'E' && ("KC_RESERVED_169"@)[10] == 'D' && ("KC_RESERVED_169"@)[11] == '_' && ("KC_RESERVED_169"@)[12] == '1' && ("KC_RESERVED_169"@)[13] == '6' && ("KC_RESERVED_169"@)[14] == '9',
        ("KC_RESERVED_170"@).len() == 15 && ("KC_RESERVED_170"@)[0] == 'K' && ("KC_RESERVED_170"@)[1] == 'C' && ("KC_RESERVED_170"@)[2] == '_' && ("KC_RESERVED_170"@)[3] == 'R' && ("KC_RESERVED_170"@)[4] == 'E' && ("KC_RESERVED_170"@)[5] == 'S' && ("KC_RESERVED_170"@)[6] == 'E' && ("KC_RESERVED_170"@)[7] == 'R' && ("KC_RESERVED_170"@)[8] == 'V' && ("KC_RESERVED_170"@)[9] == 'E' && ("KC_RESERVED_170"@)[10] == 'D' && ("KC_RESERVED_170"@)[11] == '_' && ("KC_RESERVED_170"@)[12] == '1' && ("KC_RESERVED_170"@)[13] == '7' && ("KC_RESERVED_170"@)[14] == '0',
        ("KC_RESERVED_171"@).len() == 15 && ("KC_RESERVED_171"@)[0] == 'K' && ("KC_RESERVED_171"@)[1] == 'C' && ("KC_RESERVED_171"@)[2] == '_' && ("KC_RESERVED_171"@)[3] == 'R' && ("KC_RESERVED_171"@)[4] == 'E' && ("KC_RESERVED_171"@)[5] == 'S' && ("KC_RESERVED_171"@)[6] == 'E' && ("KC_RESERVED_171"@)[7] == 'R' && ("KC_RESERVED_171"@)[8] == 'V' && ("KC_RESERVED_171"@)[9] == 'E' && ("KC_RESERVED_171"@)[10] == 'D' && ("KC_RESERVED_171"@)[11] == '_' && ("KC_RESERVED_171"@)[12] == '1' && ("KC_RESERVED_171"@)[13] == '7' && ("KC_RESERVED_171"@)[14] == '1',
        ("KC_RESERVED_172"@).len() == 15 && ("KC_RESERVED_172"@)[0] == 'K' && ("KC_RESERVED_172"@)[1] == 'C' && ("KC_RESERVED_172"@)[2] == '_' && ("KC_RESERVED_172"@)[3] == 'R' && ("KC_RESERVED_172"@)[4] == 'E' && ("KC_RESERVED_172"@)[5] == 'S' && ("KC_RESERVED_172"@)[6] == 'E' && ("KC_RESERVED_172"@)[7] == 'R' && ("KC_RESERVED_172"@)[8] == 'V' && ("KC_RESERVED_172"@)[9] == 'E' && ("KC_RESERVED_172"@)[10] == 'D' && ("KC_RESERVED_172"@)[11] == '_' && ("KC_RESERVED_172"@)[12] == '1' && ("KC_RESERVED_172"@)[13] == '7' && ("KC_RESERVED_172"@)[14] == '2',
        ("KC_RESERVED_173"@).len() == 15 && ("KC_RESERVED_173"@)[0] == 'K' && ("KC_RESERVED_173"@)[1] == 'C' && ("KC_RESERVED_173"@)[2] == '_' && ("KC_RESERVED_173"@)[3] == 'R' && ("KC_RESERVED_173"@)[4] == 'E' && ("KC_RESERVED_173"@)[5] == 'S' && ("KC_RESERVED_173"@)[6] == 'E' && ("KC_RESERVED_173"@)[7] == 'R' && ("KC_RESERVED_173"@)[8] == 'V' && ("KC_RESERVED_173"@)[9] == 'E' && ("KC_RESERVED_173"@)[10] == 'D' && ("KC_RESERVED_173"@)[11] == '_' && ("KC_RESERVED_173"@)[12] == '1' && ("KC_RESERVED_173"@)[13] == '7' && ("KC_RESERVED_173"@)[14] == '3',
        ("KC_RESERVED_174"@).len() == 15 && ("KC_RESERVED_174"@)[0] == 'K' && ("KC_RESERVED_174"@)[1] == 'C' && ("KC_RESERVED_174"@)[2] == '_' && ("KC_RESERVED_174"@)[3] == 'R' && ("KC_RESERVED_174"@)[4] == 'E' && ("KC_RESERVED_174"@)[5] == 'S' && ("KC_RESERVED_174"@)[6] == 'E' && ("KC_RESERVED_174"@)[7] == 'R' && ("KC_RESERVED_174"@)[8] == 'V' && ("KC_RESERVED_174"@)[9] == 'E' && ("KC_RESERVED_174"@)[10] == 'D' && ("KC_RESERVED_174"@)[11] == '_' && ("KC_RESERVED_174"@)[12] == '1' && ("KC_RESERVED_174"@)[13] == '7' && ("KC_RESERVED_174"@)[14] == '4',
        ("KC_RESERVED_175"@).len() == 15 && ("KC_RESERVED_175"@)[0] == 'K' && ("KC_RESERVED_175"@)[1] == 'C' && ("KC_RESERVED_175"@)[2] == '_' && ("KC_RESERVED_175"@)[3] == 'R' && ("KC_RESERVED_175"@)[4] == 'E' && ("KC_RESERVED_175"@)[5] == 'S' && ("KC_RESERVED_175"@)[6] == 'E' && ("KC_RESERVED_175"@)[7] == 'R' && ("KC_RESERVED_175"@)[8] == 'V' && ("KC_RESERVED_175"@)[9] == 'E' && ("KC_RESERVED_175"@)[10] == 'D' && ("KC_RESERVED_175"@)[11] == '_' && ("KC_RESERVED_175"@)[12] == '1' && ("KC_RESERVED_175"@)[13] == '7' && ("KC_RESERVED_175"@)[14] == '5',
{
    reveal_strlit("KC_OUT");
    reveal_strlit("KC_OPER");
    reveal_strlit("KC_CLEAR_AGAIN");
    reveal_strlit("KC_CRSEL");
    reveal_strlit("KC_EXSEL");
    reveal_strlit("KC_RESERVED_165");
    reveal_strlit("KC_RESERVED_166");
    reveal_strlit("KC_RESERVED_167");
    reveal_strlit("KC_RESERVED_168");
    reveal_strlit("KC_RESERVED_169");
    reveal_strlit("KC_RESERVED_170");
    reveal_strlit("KC_RESERVED_171");
    reveal_strlit("KC_RESERVED_172");
    reveal_strlit("KC_RESERVED_173");
    reveal_strlit("KC_RESERVED_174");
    reveal_strlit("KC_RESERVED_175");
    assert(("KC_OUT"@).len() == 6);
    assert(("KC_OUT"@)[0] == 'K');
    assert(("KC_OUT"@)[1] == 'C');
    assert(("KC_OUT"@)[2] == '_');
    assert(("KC_OUT"@)[3] == 'O');
    assert(("KC_OUT"@)[4] == 'U');
    assert(("KC_OUT"@)[5] == 'T');
    assert(("KC_OPER"@).len() == 7);
    assert(("KC_OPER"@)[0] == 'K');
    assert(("KC_OPER"@)[1] == 'C');
    assert(("KC_OPER"@)[2] == '_');
    assert(("KC_OPER"@)[3] == 'O');
    assert(("KC_OPER"@)[4] == 'P');
    assert(("KC_OPER"@)[5] == 'E');
    assert(("KC_OPER"@)[6] == 'R');
    assert(("KC_CLEAR_AGAIN"@).len() == 14);
    assert(("KC_CLEAR_AGAIN"@)[0] == 'K');
    assert(("KC_CLEAR_AGAIN"@)[1] == 'C');
    assert(("KC_CLEAR_AGAIN"@)[2] == '_');
    assert(("KC_CLEAR_AGAIN"@)[3] == 'C');
    assert(("KC_CLEAR_AGAIN"@)[4] == 'L');
    assert(("KC_CLEAR_AGAIN"@)[5] == 'E');
    assert(("KC_CLEAR_AGAIN"@)[6] == 'A');
    assert(("KC_CLEAR_AGAIN"@)[7] == 'R');
    assert(("KC_CLEAR_AGAIN"@)[8] == '_');
    assert(("KC_CLEAR_AGAIN"@)[9] == 'A');
    assert(("KC_CLEAR_AGAIN"@)[10] == 'G');
    assert(("KC_CLEAR_AGAIN"@)[11] == 'A');
    assert(("KC_CLEAR_AGAIN"@)[12] == 'I');
    assert(("KC_CLEAR_AGAIN"@)[13] == 'N');
    assert(("KC_CRSEL"@).len() == 8);
    assert(("KC_CRSEL"@)[0] == 'K');
    assert(("KC_CRSEL"@)[1] == 'C');
    assert(("KC_CRSEL"@)[2] == '_');
    assert(("KC_CRSEL"@)[3] == 'C');
    assert(("KC_CRSEL"@)[4] == 'R');
    assert(("KC_CRSEL"@)[5] == 'S');
    assert(("KC_CRSEL"@)[6] == 'E');
    assert(("KC_CRSEL"@)[7] == 'L');
    assert(("KC_EXSEL"@).len() == 8);
    assert(("KC_EXSEL"@)[0] == 'K');
    assert(("KC_EXSEL"@)[1] == 'C');
    assert(("KC_EXSEL"@)[2] == '_');
    assert(("KC_EXSEL"@)[3] == 'E');
    assert(("KC_EXSEL"@)[4] == 'X');
    assert(("KC_EXSEL"@)[5] == 'S');
    assert(("KC_EXSEL"@)[6] == 'E');
    assert(("KC_EXSEL"@)[7] == 'L');
    assert(("KC_RESERVED_165"@).len() == 15);
    assert(("KC_RESERVED_165"@)[0] == 'K');
    assert(("KC_RESERVED_165"@)[1] == 'C');
    assert(("KC_RESERVED_165"@)[2] == '_');
    assert(("KC_RESERVED_165"@)[3] == 'R');
    assert(("KC_RESERVED_165"@)[4] == 'E');
    assert(("KC_RESERVED_165"@)[5] == 'S');
    assert(("KC_RESERVED_165"@)[6] == 'E');
    assert(("KC_RESERVED_165"@)[7] == 'R');
    assert(("KC_RESERVED_165"@)[8] == 'V');
    assert(("KC_RESERVED_165"@)[9] == 'E');
    assert(("KC_RESERVED_165"@)[10] == 'D');
    assert(("KC_RESERVED_165"@)[11] == '_');
    assert(("KC_RESERVED_165"@)[12] == '1');
    assert(("KC_RESERVED_165"@)[13] == '6');
    assert(("KC_RESERVED_165"@)[14] == '5');
    assert(("KC_RESERVED_166"@).len() == 15);
    assert(("KC_RESERVED_166"@)[0] == 'K');
    assert(("KC_RESERVED_166"@)[1] == 'C');
    assert(("KC_RESERVED_166"@)[2] == '_');
    assert(("KC_RESERVED_166"@)[3] == 'R');
    assert(("KC_RESERVED_166"@)[4] == 'E');
    assert(("KC_RESERVED_166"@)[5] == 'S');
    assert(("KC_RESERVED_166"@)[6] == 'E');
    assert(("KC_RESERVED_166"@)[7] == 'R');
    assert(("KC_RESERVED_166"@)[8] == 'V');
    assert(("KC_RESERVED_166"@)[9] == 'E');
    assert(("KC_RESERVED_166"@)[10] == 'D');
    assert(("KC_RESERVED_166"@)[11] == '_');
    assert(("KC_RESERVED_166"@)[12] == '1');
    assert(("KC_RESERVED_166"@)[13] == '6');
    assert(("KC_RESERVED_166"@)[14] == '6');
    assert(("KC_RESERVED_167"@).len() == 15);
    assert(("KC_RESERVED_167"@)[0] == 'K');
    assert(("KC_RESERVED_167"@)[1] == 'C');
    assert(("KC_RESERVED_167"@)[2] == '_');
    assert(("KC_RESERVED_167"@)[3] == 'R');
    assert(("KC_RESERVED_167"@)[4] == 'E');
    assert(("KC_RESERVED_167"@)[5] == 'S');
    assert(("KC_RESERVED_167"@)[6] == 'E');
    assert(("KC_RESERVED_167"@)[7] == 'R');
    assert(("KC_RESERVED_167"@)[8] == 'V');
    assert(("KC_RESERVED_167"@)[9] == 'E');
    assert(("KC_RESERVED_167"@)[10] == 'D');
    assert(("KC_RESERVED_167"@)[11] == '_');
    assert(("KC_RESERVED_167"@)[12] == '1');
    assert(("KC_RESERVED_167"@)[13] == '6');
    assert(("KC_RESERVED_167"@)[14] == '7');
    assert(("KC_RESERVED_168"@).len() == 15);
    assert(("KC_RESERVED_168"@)[0] == 'K');
    assert(("KC_RESERVED_168"@)[1] == 'C');
    assert(("KC_RESERVED_168"@)[2] == '_');
    assert(("KC_RESERVED_168"@)[3] == 'R');
    assert(("KC_RESERVED_168"@)[4] == 'E');
    assert(("KC_RESERVED_168"@)[5] == 'S');
    assert(("KC_RESERVED_168"@)[6] == 'E');
    assert(("KC_RESERVED_168"@)[7] == 'R');
    assert(("KC_RESERVED_168"@)[8] == 'V');
    assert(("KC_RESERVED_168"@)[9] == 'E');
    assert(("KC_RESERVED_168"@)[10] == 'D');
    assert(("KC_RESERVED_168"@)[11] == '_');
    assert(("KC_RESERVED_168"@)[12] == '1');
    assert(("KC_RESERVED_168"@)[13] == '6');
    assert(("KC_RESERVED_168"@)[14] == '8');
    assert(("KC_RESERVED_169"@).len() == 15);
    assert(("KC_RESERVED_169"@)[0] == 'K');
    assert(("KC_RESERVED_169"@)[1] == 'C');
    assert(("KC_RESERVED_169"@)[2] == '_');
    assert(("KC_RESERVED_169"@)[3] == 'R');
    assert(("KC_RESERVED_169"@)[4] == 'E');
    assert(("KC_RESERVED_169"@)[5] == 'S');
    assert(("KC_RESERVED_169"@)[6] == 'E');
    assert(("KC_RESERVED_169"@)[7] == 'R');
    assert(("KC_RESERVED_169"@)[8] == 'V');
    assert(("KC_RESERVED_169"@)[9] == 'E');
    assert(("KC_RESERVED_169"@)[10] == 'D');
    assert(("KC_RESERVED_169"@)[11] == '_');
    assert(("KC_RESERVED_169"@)[12] == '1');
    assert(("KC_RESERVED_169"@)[13] == '6');
    assert(("KC_RESERVED_169"@)[14] == '9');
    assert(("KC_RESERVED_170"@).len() == 15);
    assert(("KC_RESERVED_170"@)[0] == 'K');
    assert(("KC_RESERVED_170"@)[1] == 'C');
    assert(("KC_RESERVED_170"@)[2] == '_');
    assert(("KC_RESERVED_170"@)[3] == 'R');
    assert(("KC_RESERVED_170"@)[4] == 'E');
    assert(("KC_RESERVED_170"@)[5] == 'S');
    assert(("KC_RESERVED_170"@)[6] == 'E');
    assert(("KC_RESERVED_170"@)[7] == 'R');
    assert(("KC_RESERVED_170"@)[8] == 'V');
    assert(("KC_RESERVED_170"@)[9] == 'E');
    assert(("KC_RESERVED_170"@)[10] == 'D');
    assert(("KC_RESERVED_170"@)[11] == '_');
    assert(("KC_RESERVED_170"@)[12] == '1');
    assert(("KC_RESERVED_170"@)[13] == '7');
    assert(("KC_RESERVED_170"@)[14] == '0');
    assert(("KC_RESERVED_171"@).len() == 15);
    assert(("KC_RESERVED_171"@)[0] == 'K');
    assert(("KC_RESERVED_171"@)[1] == 'C');
    assert(("KC_RESERVED_171"@)[2] == '_');
    assert(("KC_RESERVED_171"@)[3] == 'R');
    assert(("KC_RESERVED_171"@)[4] == 'E');
    assert(("KC_RESERVED_171"@)[5] == 'S');
    assert(("KC_RESERVED_171"@)[6] == 'E');
    assert(("KC_RESERVED_171"@)[7] == 'R');
    assert(("KC_RESERVED_171"@)[8] == 'V');
    assert(("KC_RESERVED_171"@)[9] == 'E');
    assert(("KC_RESERVED_171"@)[10] == 'D');
    assert(("KC_RESERVED_171"@)[11] == '_');
    assert(("KC_RESERVED_171"@)[12] == '1');
    assert(("KC_RESERVED_171"@)[13] == '7');
    assert(("KC_RESERVED_171"@)[14] == '1');
    assert(("KC_RESERVED_172"@).len() == 15);
    assert(("KC_RESERVED_172"@)[0] == 'K');
    assert(("KC_RESERVED_172"@)[1] == 'C');
    assert(("KC_RESERVED_172"@)[2] == '_');
    assert(("KC_RESERVED_172"@)[3] == 'R');
    assert(("KC_RESERVED_172"@)[4] == 'E');
    assert(("KC_RESERVED_172"@)[5] == 'S');
    assert(("KC_RESERVED_172"@)[6] == 'E');
    assert(("KC_RESERVED_172"@)[7] == 'R');
    assert(("KC_RESERVED_172"@)[8] == 'V');
    assert(("KC_RESERVED_172"@)[9] == 'E');
    assert(("KC_RESERVED_172"@)[10] == 'D');
    assert(("KC_RESERVED_172"@)[11] == '_');
    assert(("KC_RESERVED_172"@)[12] == '1');
    assert(("KC_RESERVED_172"@)[13] == '7');
    assert(("KC_RESERVED_172"@)[14] == '2');
    assert(("KC_RESERVED_173"@).len() == 15);
    assert(("KC_RESERVED_173"@)[0] == 'K');
    assert(("KC_RESERVED_173"@)[1] == 'C');
    assert(("KC_RESERVED_173"@)[2] == '_');
    assert(("KC_RESERVED_173"@)[3] == 'R');
    assert(("KC_RESERVED_173"@)[4] == 'E');
    assert(("KC_RESERVED_173"@)[5] == 'S');
    assert(("KC_RESERVED_173"@)[6] == 'E');
    assert(("KC_RESERVED_173"@)[7] == 'R');
    assert(("KC_RESERVED_173"@)[8] == 'V');
    assert(("KC_RESERVED_173"@)[9] == 'E');
    assert(("KC_RESERVED_173"@)[10] == 'D');
    assert(("KC_RESERVED_173"@)[11] == '_');
    assert(("KC_RESERVED_173"@)[12] == '1');
    assert(("KC_RESERVED_173"@)[13] == '7');
    assert(("KC_RESERVED_173"@)[14] == '3');
    assert(("KC_RESERVED_174"@).len() == 15);
    assert(("KC_RESERVED_174"@)[0] == 'K');
    assert(("KC_RESERVED_174"@)[1] == 'C');
    assert(("KC_RESERVED_174"@)[2] == '_');
    assert(("KC_RESERVED_174"@)[3] == 'R');
    assert(("KC_RESERVED_174"@)[4] == 'E');
    assert(("KC_RESERVED_174"@)[5] == 'S');
    assert(("KC_RESERVED_174"@)[6] == 'E');
    assert(("KC_RESERVED_174"@)[7] == 'R');
    assert(("KC_RESERVED_174"@)[8] == 'V');
    assert(("KC_RESERVED_174"@)[9] == 'E');
    assert(("KC_RESERVED_174"@)[10] == 'D');
    assert(("KC_RESERVED_174"@)[11] == '_');
    assert(("KC_RESERVED_174"@)[12] == '1');
    assert(("KC_RESERVED_174"@)[13] == '7');
    assert(("KC_RESERVED_174"@)[14] == '4');
    assert(("KC_RESERVED_175"@).len() == 15);
    assert(("KC_RESERVED_175"@)[0] == 'K');
    assert(("KC_RESERVED_175"@)[1] == 'C');
    assert(("KC_RESERVED_175"@)[2] == '_');
    assert(("KC_RESERVED_175"@)[3] == 'R');
    assert(("KC_RESERVED_175"@)[4] == 'E');
    assert(("KC_RESERVED_175"@)[5] == 'S');
    assert(("KC_RESERVED_175"@)[6] == 'E');
    assert(("KC_RESERVED_175"@)[7] == 'R');
    assert(("KC_RESERVED_175"@)[8] == 'V');
    assert(("KC_RESERVED_175"@)[9] == 'E');
    assert(("KC_RESERVED_175"@)[10] == 'D');
    assert(("KC_RESERVED_175"@)[11] == '_');
    assert(("KC_RESERVED_175"@)[12] == '1');
    assert(("KC_RESERVED_175"@)[13] == '7');
    assert(("KC_RESERVED_175"@)[14] == '5');
}

proof fn lemma_name_facts_block_11()
    ensures
        ("KC_RESERVED_176"@).len() == 15 && ("KC_RESERVED_176"@)[0] == 'K' && ("KC_RESERVED_176"@)[1] == 'C' && ("KC_RESERVED_176"@)[2] == '_' && ("KC_RESERVED_176"@)[3] == 'R' && ("KC_RESERVED_176"@)[4] == 'E' && ("KC_RESERVED_176"@)[5] == 'S' && ("KC_RESERVED_176"@)[6] == 'E' && ("KC_RESERVED_176"@)[7] == 'R' && ("KC_RESERVED_176"@)[8] == 'V' && ("KC_RESERVED_176"@)[9] == 'E' && ("KC_RESERVED_176"@)[10] == 'D' && ("KC_RESERVED_176"@)[11] == '_' && ("KC_RESERVED_176"@)[12] == '1' && ("KC_RESERVED_176"@)[13] == '7' && ("KC_RESERVED_176"@)[14] == '6',
        ("KC_RESERVED_177"@).len() == 15 && ("KC_RESERVED_177"@)[0] == 'K' && ("KC_RESERVED_177"@)[1] == 'C' && ("KC_RESERVED_177"@)[2] == '_' && ("KC_RESERVED_177"@)[3] == 'R' && ("KC_RESERVED_177"@)[4] == 'E' && ("KC_RESERVED_177"@)[5] == 'S' && ("KC_RESERVED_177"@)[6] == 'E' && ("KC_RESERVED_177"@)[7] == 'R' && ("KC_RESERVED_177"@)[8] == 'V' && ("KC_RESERVED_177"@)[9] == 'E' && ("KC_RESERVED_177"@)[10] == 'D' && ("KC_RESERVED_177"@)[11] == '_' && ("KC_RESERVED_177"@)[12] == '1' && ("KC_RESERVED_177"@)[13] == '7' && ("KC_RESERVED_177"@)[14] == '7',
        ("KC_RESERVED_178"@).len() == 15 && ("KC_RESERVED_178"@)[0] == 'K' && ("KC_RESERVED_178"@)[1] == 'C' && ("KC_RESERVED_178"@)[2] == '_' && ("KC_RESERVED_178"@)[3] == 'R' && ("KC_RESERVED_178"@)[4] == 'E' && ("KC_RESERVED_178"@)[5] == 'S' && ("KC_RESERVED_178"@)[6] == 'E' && ("KC_RESERVED_178"@)[7] == 'R' && ("KC_RESERVED_178"@)[8] == 'V' && ("KC_RESERVED_178"@)[9] == 'E' && ("KC_RESERVED_178"@)[10] == 'D' && ("KC_RESERVED_178"@)[11] == '_' && ("KC_RESERVED_178"@)[12] == '1' && ("KC_RESERVED_178"@)[13] == '7' && ("KC_RESERVED_178"@)[14] == '8',
        ("KC_RESERVED_179"@).len() == 15 && ("KC_RESERVED_179"@)[0] == 'K' && ("KC_RESERVED_179"@)[1] == 'C' && ("KC_RESERVED_179"@)[2] == '_' && ("KC_RESERVED_179"@)[3] == 'R' && ("KC_RESERVED_179"@)[4] == 'E' && ("KC_RESERVED_179"@)[5] == 'S' && ("KC_RESERVED_179"@)[6] == 'E' && ("KC_RESERVED_179"@)[7] == 'R' && ("KC_RESERVED_179"@)[8] == 'V' && ("KC_RESERVED_179"@)[9] == 'E' && ("KC_RESERVED_179"@)[10] == 'D' && ("KC_RESERVED_179"@)[11] == '_' && ("KC_RESERVED_179"@)[12] == '1' && ("KC_RESERVED_179"@)[13] == '7' && ("KC_RESERVED_179"@)[14] == '9',
        ("KC_RESERVED_180"@).len() == 15 && ("KC_RESERVED_180"@)[0] == 'K' && ("KC_RESERVED_180"@)[1] == 'C' && ("KC_RESERVED_180"@)[2] == '_' && ("KC_RESERVED_180"@)[3] == 'R' && ("KC_RESERVED_180"@)[4] == 'E' && ("KC_RESERVED_180"@)[5] == 'S' && ("KC_RESERVED_180"@)[6] == 'E' && ("KC_RESERVED_180"@)[7] == 'R' && ("KC_RESERVED_180"@)[8] == 'V' && ("KC_RESERVED_180"@)[9] == 'E' && ("KC_RESERVED_180"@)[10] == 'D' && ("KC_RESERVED_180"@)[11] == '_' && ("KC_RESERVED_180"@)[12] == '1' && ("KC_RESERVED_180"@)[13] == '8' && ("KC_RESERVED_180"@)[14] == '0',
        ("KC_RESERVED_181"@).len() == 15 && ("KC_RESERVED_181"@)[0] == 'K' && ("KC_RESERVED_181"@)[1] == 'C' && ("KC_RESERVED_181"@)[2] == '_' && ("KC_RESERVED_181"@)[3] == 'R' && ("KC_RESERVED_181"@)[4] == 'E' && ("KC_RESERVED_181"@)[5] == 'S' && ("KC_RESERVED_181"@)[6] == 'E' && ("KC_RESERVED_181"@)[7] == 'R' && ("KC_RESERVED_181"@)[8] == 'V' && ("KC_RESERVED_181"@)[9] == 'E' && ("KC_RESERVED_181"@)[10] == 'D' && ("KC_RESERVED_181"@)[11] == '_' && ("KC_RESERVED_181"@)[12] == '1' && ("KC_RESERVED_181"@)[13] == '8' && ("KC_RESERVED_181"@)[14] == '1',
        ("KC_RESERVED_182"@).len() == 15 && ("KC_RESERVED_182"@)[0] == 'K' && ("KC_RESERVED_182"@)[1] == 'C' && ("KC_RESERVED_182"@)[2] == '_' && ("KC_RESERVED_182"@)[3] == 'R' && ("KC_RESERVED_182"@)[4] == 'E' && ("KC_RESERVED_182"@)[5] == 'S' && ("KC_RESERVED_182"@)[6] == 'E' && ("KC_RESERVED_182"@)[7] == 'R' && ("KC_RESERVED_182"@)[8] == 'V' && ("KC_RESERVED_182"@)[9] == 'E' && ("KC_RESERVED_182"@)[10] == 'D' && ("KC_RESERVED_182"@)[11] == '_' && ("KC_RESERVED_182"@)[12] == '1' && ("KC_RESERVED_182"@)[13] == '8' && ("KC_RESERVED_182"@)[14] == '2',
        ("KC_RESERVED_183"@).len() == 15 && ("KC_RESERVED_183"@)[0] == 'K' && ("KC_RESERVED_183"@)[1] == 'C' && ("KC_RESERVED_183"@)[2] == '_' && ("KC_RESERVED_183"@)[3] == 'R' && ("KC_RESERVED_183"@)[4] == 'E' && ("KC_RESERVED_183"@)[5] == 'S' && ("KC_RESERVED_183"@)[6] == 'E' && ("KC_RESERVED_183"@)[7] == 'R' && ("KC_RESERVED_183"@)[8] == 'V' && ("KC_RESERVED_183"@)[9] == 'E' && ("KC_RESERVED_183"@)[10] == 'D' && ("KC_RESERVED_183"@)[11] == '_' && ("KC_RESERVED_183"@)[12] == '1' && ("KC_RESERVED_183"@)[13] == '8' && ("KC_RESERVED_183"@)[14] == '3',
        ("KC_RESERVED_184"@).len() == 15 && ("KC_RESERVED_184"@)[0] == 'K' && ("KC_RESERVED_184"@)[1] == 'C' && ("KC_RESERVED_184"@)[2] == '_' && ("KC_RESERVED_184"@)[3] == 'R' && ("KC_RESERVED_184"@)[4] == 'E' && ("KC_RESERVED_184"@)[5] == 'S' && ("KC_RESERVED_184"@)[6] == 'E' && ("KC_RESERVED_184"@)[7] == 'R' && ("KC_RESERVED_184"@)[8] == 'V' && ("KC_RESERVED_184"@)[9] == 'E' && ("KC_RESERVED_184"@)[10] == 'D' && ("KC_RESERVED_184"@)[11] == '_' && ("KC_RESERVED_184"@)[12] == '1' && ("KC_RESERVED_184"@)[13] == '8' && ("KC_RESERVED_184"@)[14] == '4',
        ("KC_RESERVED_185"@).len() == 15 && ("KC_RESERVED_185"@)[0] == 'K' && ("KC_RESERVED_185"@)[1] == 'C' && ("KC_RESERVED_185"@)[2] == '_' && ("KC_RESERVED_185"@)[3] == 'R' && ("KC_RESERVED_185"@)[4] == 'E' && ("KC_RESERVED_185"@)[5] == 'S' && ("KC_RESERVED_185"@)[6] == 'E' && ("KC_RESERVED_185"@)[7] == 'R' && ("KC_RESERVED_185"@)[8] == 'V' && ("KC_RESERVED_185"@)[9] == 'E' && ("KC_RESERVED_185"@)[10] == 'D' && ("KC_RESERVED_185"@)[11] == '_' && ("KC_RESERVED_185"@)[12] == '1' && ("KC_RESERVED_185"@)[13] == '8' && ("KC_RESERVED_185"@)[14] == '5',
        ("KC_RESERVED_186"@).len() == 15 && ("KC_RESERVED_186"@)[0] == 'K' && ("KC_RESERVED_186"@)[1] == 'C' && ("KC_RESERVED_186"@)[2] == '_' && ("KC_RESERVED_186"@)[3] == 'R' && ("KC_RESERVED_186"@)[4] == 'E' && ("KC_RESERVED_186"@)[5] == 'S' && ("KC_RESERVED_186"@)[6] == 'E' && ("KC_RESERVED_186"@)[7] == 'R' && ("KC_RESERVED_186"@)[8] == 'V' && ("KC_RESERVED_186"@)[9] == 'E' && ("KC_RESERVED_186"@)[10] == 'D' && ("KC_RESERVED_186"@)[11] == '_' && ("KC_RESERVED_186"@)[12] == '1' && ("KC_RESERVED_186"@)[13] == '8' && ("KC_RESERVED_186"@)[14] == '6',
        ("KC_RESERVED_187"@).len() == 15 && ("KC_RESERVED_187"@)[0] == 'K' && ("KC_RESERVED_187"@)[1] == 'C' && ("KC_RESERVED_187"@)[2] == '_' && ("KC_RESERVED_187"@)[3] == 'R' && ("KC_RESERVED_187"@)[4] == 'E' && ("KC_RESERVED_187"@)[5] == 'S' && ("KC_RESERVED_187"@)[6] == 'E' && ("KC_RESERVED_187"@)[7] == 'R' && ("KC_RESERVED_187"@)[8] == 'V' && ("KC_RESERVED_187"@)[9] == 'E' && ("KC_RESERVED_187"@)[10] == 'D' && ("KC_RESERVED_187"@)[11] == '_' && ("KC_RESERVED_187"@)[12] == '1' && ("KC_RESERVED_187"@)[13] == '8' && ("KC_RESERVED_187"@)[14] == '7',
        ("KC_RESERVED_188"@).len() == 15 && ("KC_RESERVED_188"@)[0] == 'K' && ("KC_RESERVED_188"@)[1] == 'C' && ("KC_RESERVED_188"@)[2] == '_' && ("KC_RESERVED_188"@)[3] == 'R' && ("KC_RESERVED_188"@)[4] == 'E' && ("KC_RESERVED_188"@)[5] == 'S' && ("KC_RESERVED_188"@)[6] == 'E' && ("KC_RESERVED_188"@)[7] == 'R' && ("KC_RESERVED_188"@)[8] == 'V' && ("KC_RESERVED_188"@)[9] == 'E' && ("KC_RESERVED_188"@)[10] == 'D' && ("KC_RESERVED_188"@)[11] == '_' && ("KC_RESERVED_188"@)[12] == '1' && ("KC_RESERVED_188"@)[13] == '8' && ("KC_RESERVED_188"@)[14] == '8',
        ("KC_RESERVED_189"@).len() == 15 && ("KC_RESERVED_189"@)[0] == 'K' && ("KC_RESERVED_189"@)[1] == 'C' && ("KC_RESERVED_189"@)[2] == '_' && ("KC_RESERVED_189"@)[3] == 'R' && ("KC_RESERVED_189"@)[4] == 'E' && ("KC_RESERVED_189"@)[5] == 'S' && ("KC_RESERVED_189"@)[6] == 'E' && ("KC_RESERVED_189"@)[7] == 'R' && ("KC_RESERVED_189"@)[8] == 'V' && ("KC_RESERVED_189"@)[9] == 'E' && ("KC_RESERVED_189"@)[10] == 'D' && ("KC_RESERVED_189"@)[11] == '_' && ("KC_RESERVED_189"@)[12] == '1' && ("KC_RESERVED_189"@)[13] == '8' && ("KC_RESERVED_189"@)[14] == '9',
        ("KC_RESERVED_190"@).len() == 15 && ("KC_RESERVED_190"@)[0] == 'K' && ("KC_RESERVED_190"@)[1] == 'C' && ("KC_RESERVED_190"@)[2] == '_' && ("KC_RESERVED_190"@)[3] == 'R' && ("KC_RESERVED_190"@)[4] == 'E' && ("KC_RESERVED_190"@)[5] == 'S' && ("KC_RESERVED_190"@)[6] == 'E' && ("KC_RESERVED_190"@)[7] == 'R' && ("KC_RESERVED_190"@)[8] == 'V' && ("KC_RESERVED_190"@)[9] == 'E' && ("KC_RESERVED_190"@)[10] == 'D' && ("KC_RESERVED_190"@)[11] == '_' && ("KC_RESERVED_190"@)[12] == '1' && ("KC_RESERVED_190"@)[13] == '9' && ("KC_RESERVED_190"@)[14] == '0',
        ("KC_RESERVED_191"@).len() == 15 && ("KC_RESERVED_191"@)[0] == 'K' && ("KC_RESERVED_191"@)[1] == 'C' && ("KC_RESERVED_191"@)[2] == '_' && ("KC_RESERVED_191"@)[3] == 'R' && ("KC_RESERVED_191"@)[4] == 'E' && ("KC_RESERVED_191"@)[5] == 'S' && ("KC_RESERVED_191"@)[6] == 'E' && ("KC_RESERVED_191"@)[7] == 'R' && ("KC_RESERVED_191"@)[8] == 'V' && ("KC_RESERVED_191"@)[9] == 'E' && ("KC_RESERVED_191"@)[10] == 'D' && ("KC_RESERVED_191"@)[11] == '_' && ("KC_RESERVED_191"@)[12] == '1' && ("KC_RESERVED_191"@)[13] == '9' && ("KC_RESERVED_191"@)[14] == '1',
{
    reveal_strlit("KC_RESERVED_176");
    reveal_strlit("KC_RESERVED_177");
    reveal_strlit("KC_RESERVED_178");
    reveal_strlit("KC_RESERVED_179");
    reveal_strlit("KC_RESERVED_180");
    reveal_strlit("KC_RESERVED_181");
    reveal_strlit("KC_RESERVED_182");
    reveal_strlit("KC_RESERVED_183");
    reveal_strlit("KC_RESERVED_184");
    reveal_strlit("KC_RESERVED_185");
    reveal_strlit("KC_RESERVED_186");
    reveal_strlit("KC_RESERVED_187");
    reveal_strlit("KC_RESERVED_188");
    reveal_strlit("KC_RESERVED_189");
    reveal_strlit("KC_RESERVED_190");
    reveal_strlit("KC_RESERVED_191");
    assert(("KC_RESERVED_176"@).len() == 15);
    assert(("KC_RESERVED_176"@)[0] == 'K');
    assert(("KC_RESERVED_176"@)[1] == 'C');
    assert(("KC_RESERVED_176"@)[2] == '_');
    assert(("KC_RESERVED_176"@)[3] == 'R');
    assert(("KC_RESERVED_176"@)[4] == 'E');
    assert(("KC_RESERVED_176"@)[5] == 'S');
    assert(("KC_RESERVED_176"@)[6] == 'E');
    assert(("KC_RESERVED_176"@)[7] == 'R');
    assert(("KC_RESERVED_176"@)[8] == 'V');
    assert(("KC_RESERVED_176"@)[9] == 'E');
    assert(("KC_RESERVED_176"@)[10] == 'D');
    assert(("KC_RESERVED_176"@)[11] == '_');
    assert(("KC_RESERVED_176"@)[12] == '1');
    assert(("KC_RESERVED_176"@)[13] == '7');
    assert(("KC_RESERVED_176"@)[14] == '6');
    assert(("KC_RESERVED_177"@).len() == 15);
    assert(("KC_RESERVED_177"@)[0] == 'K');
    assert(("KC_RESERVED_177"@)[1] == 'C');
    assert(("KC_RESERVED_177"@)[2] == '_');
    assert(("KC_RESERVED_177"@)[3] == 'R');
    assert(("KC_RESERVED_177"@)[4] == 'E');
    assert(("KC_RESERVED_177"@)[5] == 'S');
    assert(("KC_RESERVED_177"@)[6] == 'E');
    assert(("KC_RESERVED_177"@)[7] == 'R');
    assert(("KC_RESERVED_177"@)[8] == 'V');
    assert(("KC_RESERVED_177"@)[9] == 'E');
    assert(("KC_RESERVED_177"@)[10] == 'D');
    assert(("KC_RESERVED_177"@)[11] == '_');
    assert(("KC_RESERVED_177"@)[12] == '1');
    assert(("KC_RESERVED_177"@)[13] == '7');
    assert(("KC_RESERVED_177"@)[14] == '7');
    assert(("KC_RESERVED_178"@).len() == 15);
    assert(("KC_RESERVED_178"@)[0] == 'K');
    assert(("KC_RESERVED_178"@)[1] == 'C');
    assert(("KC_RESERVED_178"@)[2] == '_');
    assert(("KC_RESERVED_178"@)[3] == 'R');
    assert(("KC_RESERVED_178"@)[4] == 'E');
    assert(("KC_RESERVED_178"@)[5] == 'S');
    assert(("KC_RESERVED_178"@)[6] == 'E');
    assert(("KC_RESERVED_178"@)[7] == 'R');
    assert(("KC_RESERVED_178"@)[8] == 'V');
    assert(("KC_RESERVED_178"@)[9] == 'E');
    assert(("KC_RESERVED_178"@)[10] == 'D');
    assert(("KC_RESERVED_178"@)[11] == '_');
    assert(("KC_RESERVED_178"@)[12] == '1');
    assert(("KC_RESERVED_178"@)[13] == '7');
    assert(("KC_RESERVED_178"@)[14] == '8');
    assert(("KC_RESERVED_179"@).len() == 15);
    assert(("KC_RESERVED_179"@)[0] == 'K');
    assert(("KC_RESERVED_179"@)[1] == 'C');
    assert(("KC_RESERVED_179"@)[2] == '_');
    assert(("KC_RESERVED_179"@)[3] == 'R');
    assert(("KC_RESERVED_179"@)[4] == 'E');
    assert(("KC_RESERVED_179"@)[5] == 'S');
    assert(("KC_RESERVED_179"@)[6] == 'E');
    assert(("KC_RESERVED_179"@)[7] == 'R');
    assert(("KC_RESERVED_179"@)[8] == 'V');
    assert(("KC_RESERVED_179"@)[9] == 'E');
    assert(("KC_RESERVED_179"@)[10] == 'D');
    assert(("KC_RESERVED_179"@)[11] == '_');
    assert(("KC_RESERVED_179"@)[12] == '1');
    assert(("KC_RESERVED_179"@)[13] == '7');
    assert(("KC_RESERVED_179"@)[14] == '9');
    assert(("KC_RESERVED_180"@).len() == 15);
    assert(("KC_RESERVED_180"@)[0] == 'K');
    assert(("KC_RESERVED_180"@)[1] == 'C');
    assert(("KC_RESERVED_180"@)[2] == '_');
    assert(("KC_RESERVED_180"@)[3] == 'R');
    assert(("KC_RESERVED_180"@)[4] == 'E');
    assert(("KC_RESERVED_180"@)[5] == 'S');
    assert(("KC_RESERVED_180"@)[6] == 'E');
    assert(("KC_RESERVED_180"@)[7] == 'R');
    assert(("KC_RESERVED_180"@)[8] == 'V');
    assert(("KC_RESERVED_180"@)[9] == 'E');
    assert(("KC_RESERVED_180"@)[10] == 'D');
    assert(("KC_RESERVED_180"@)[11] == '_');
    assert(("KC_RESERVED_180"@)[12] == '1');
    assert(("KC_RESERVED_180"@)[13] == '8');
    assert(("KC_RESERVED_180"@)[14] == '0');
    assert(("KC_RESERVED_181"@).len() == 15);
    assert(("KC_RESERVED_181"@)[0] == 'K');
    assert(("KC_RESERVED_181"@)[1] == 'C');
    assert(("KC_RESERVED_181"@)[2] == '_');
    assert(("KC_RESERVED_181"@)[3] == 'R');
    assert(("KC_RESERVED_181"@)[4] == 'E');
    assert(("KC_RESERVED_181"@)[5] == 'S');
    assert(("KC_RESERVED_181"@)[6] == 'E');
    assert(("KC_RESERVED_181"@)[7] == 'R');
    assert(("KC_RESERVED_181"@)[8] == 'V');
    assert(("KC_RESERVED_181"@)[9] == 'E');
    assert(("KC_RESERVED_181"@)[10] == 'D');
    assert(("KC_RESERVED_181"@)[11] == '_');
    assert(("KC_RESERVED_181"@)[12] == '1');
    assert(("KC_RESERVED_181"@)[13] == '8');
    assert(("KC_RESERVED_181"@)[14] == '1');
    assert(("KC_RESERVED_182"@).len() == 15);
    assert(("KC_RESERVED_182"@)[0] == 'K');
    assert(("KC_RESERVED_182"@)[1] == 'C');
    assert(("KC_RESERVED_182"@)[2] == '_');
    assert(("KC_RESERVED_182"@)[3] == 'R');
    assert(("KC_RESERVED_182"@)[4] == 'E');
    assert(("KC_RESERVED_182"@)[5] == 'S');
    assert(("KC_RESERVED_182"@)[6] == 'E');
    assert(("KC_RESERVED_182"@)[7] == 'R');
    assert(("KC_RESERVED_182"@)[8] == 'V');
    assert(("KC_RESERVED_182"@)[9] == 'E');
    assert(("KC_RESERVED_182"@)[10] == 'D');
    assert(("KC_RESERVED_182"@)[11] == '_');
    assert(("KC_RESERVED_182"@)[12] == '1');
    assert(("KC_RESERVED_182"@)[13] == '8');
    assert(("KC_RESERVED_182"@)[14] == '2');
    assert(("KC_RESERVED_183"@).len() == 15);
    assert(("KC_RESERVED_183"@)[0] == 'K');
    assert(("KC_RESERVED_183"@)[1] == 'C');
    assert(("KC_RESERVED_183"@)[2] == '_');
    assert(("KC_RESERVED_183"@)[3] == 'R');
    assert(("KC_RESERVED_183"@)[4] == 'E');
    assert(("KC_RESERVED_183"@)[5] == 'S');
    assert(("KC_RESERVED_183"@)[6] == 'E');
    assert(("KC_RESERVED_183"@)[7] == 'R');
    assert(("KC_RESERVED_183"@)[8] == 'V');
    assert(("KC_RESERVED_183"@)[9] == 'E');
    assert(("KC_RESERVED_183"@)[10] == 'D');
    assert(("KC_RESERVED_183"@)[11] == '_');
    assert(("KC_RESERVED_183"@)[12] == '1');
    assert(("KC_RESERVED_183"@)[13] == '8');
    assert(("KC_RESERVED_183"@)[14] == '3');
    assert(("KC_RESERVED_184"@).len() == 15);
    assert(("KC_RESERVED_184"@)[0] == 'K');
    assert(("KC_RESERVED_184"@)[1] == 'C');
    assert(("KC_RESERVED_184"@)[2] == '_');
    assert(("KC_RESERVED_184"@)[3] == 'R');
    assert(("KC_RESERVED_184"@)[4] == 'E');
    assert(("KC_RESERVED_184"@)[5] == 'S');
    assert(("KC_RESERVED_184"@)[6] == 'E');
    assert(("KC_RESERVED_184"@)[7] == 'R');
    assert(("KC_RESERVED_184"@)[8] == 'V');
    assert(("KC_RESERVED_184"@)[9] == 'E');
    assert(("KC_RESERVED_184"@)[10] == 'D');
    assert(("KC_RESERVED_184"@)[11] == '_');
    assert(("KC_RESERVED_184"@)[12] == '1');
    assert(("KC_RESERVED_184"@)[13] == '8');
    assert(("KC_RESERVED_184"@)[14] == '4');
    assert(("KC_RESERVED_185"@).len() == 15);
    assert(("KC_RESERVED_185"@)[0] == 'K');
    assert(("KC_RESERVED_185"@)[1] == 'C');
    assert(("KC_RESERVED_185"@)[2] == '_');
    assert(("KC_RESERVED_185"@)[3] == 'R');
    assert(("KC_RESERVED_185"@)[4] == 'E');
    assert(("KC_RESERVED_185"@)[5] == 'S');
    assert(("KC_RESERVED_185"@)[6] == 'E');
    assert(("KC_RESERVED_185"@)[7] == 'R');
    assert(("KC_RESERVED_185"@)[8] == 'V');
    assert(("KC_RESERVED_185"@)[9] == 'E');
    assert(("KC_RESERVED_185"@)[10] == 'D');
    assert(("KC_RESERVED_185"@)[11] == '_');
    assert(("KC_RESERVED_185"@)[12] == '1');
    assert(("KC_RESERVED_185"@)[13] == '8');
    assert(("KC_RESERVED_185"@)[14] == '5');
    assert(("KC_RESERVED_186"@).len() == 15);
    assert(("KC_RESERVED_186"@)[0] == 'K');
    assert(("KC_RESERVED_186"@)[1] == 'C');
    assert(("KC_RESERVED_186"@)[2] == '_');
    assert(("KC_RESERVED_186"@)[3] == 'R');
    assert(("KC_RESERVED_186"@)[4] == 'E');
    assert(("KC_RESERVED_186"@)[5] == 'S');
    assert(("KC_RESERVED_186"@)[6] == 'E');
    assert(("KC_RESERVED_186"@)[7] == 'R');
    assert(("KC_RESERVED_186"@)[8] == 'V');
    assert(("KC_RESERVED_186"@)[9] == 'E');
    assert(("KC_RESERVED_186"@)[10] == 'D');
    assert(("KC_RESERVED_186"@)[11] == '_');
    assert(("KC_RESERVED_186"@)[12] == '1');
    assert(("KC_RESERVED_186"@)[13] == '8');
    assert(("KC_RESERVED_186"@)[14] == '6');
    assert(("KC_RESERVED_187"@).len() == 15);
    assert(("KC_RESERVED_187"@)[0] == 'K');
    assert(("KC_RESERVED_187"@)[1] == 'C');
    assert(("KC_RESERVED_187"@)[2] == '_');
    assert(("KC_RESERVED_187"@)[3] == 'R');
    assert(("KC_RESERVED_187"@)[4] == 'E');
    assert(("KC_RESERVED_187"@)[5] == 'S');
    assert(("KC_RESERVED_187"@)[6] == 'E');
    assert(("KC_RESERVED_187"@)[7] == 'R');
    assert(("KC_RESERVED_187"@)[8] == 'V');
    assert(("KC_RESERVED_187"@)[9] == 'E');
    assert(("KC_RESERVED_187"@)[10] == 'D');
    assert(("KC_RESERVED_187"@)[11] == '_');
    assert(("KC_RESERVED_187"@)[12] == '1');
    assert(("KC_RESERVED_187"@)[13] == '8');
    assert(("KC_RESERVED_187"@)[14] == '7');
    assert(("KC_RESERVED_188"@).len() == 15);
    assert(("KC_RESERVED_188"@)[0] == 'K');
    assert(("KC_RESERVED_188"@)[1] == 'C');
    assert(("KC_RESERVED_188"@)[2] == '_');
    assert(("KC_RESERVED_188"@)[3] == 'R');
    assert(("KC_RESERVED_188"@)[4] == 'E');
    assert(("KC_RESERVED_188"@)[5] == 'S');
    assert(("KC_RESERVED_188"@)[6] == 'E');
    assert(("KC_RESERVED_188"@)[7] == 'R');
    assert(("KC_RESERVED_188"@)[8] == 'V');
    assert(("KC_RESERVED_188"@)[9] == 'E');
    assert(("KC_RESERVED_188"@)[10] == 'D');
    assert(("KC_RESERVED_188"@)[11] == '_');
    assert(("KC_RESERVED_188"@)[12] == '1');
    assert(("KC_RESERVED_188"@)[13] == '8');
    assert(("KC_RESERVED_188"@)[14] == '8');
    assert(("KC_RESERVED_189"@).len() == 15);
    assert(("KC_RESERVED_189"@)[0] == 'K');
    assert(("KC_RESERVED_189"@)[1] == 'C');
    assert(("KC_RESERVED_189"@)[2] == '_');
    assert(("KC_RESERVED_189"@)[3] == 'R');
    assert(("KC_RESERVED_189"@)[4] == 'E');
    assert(("KC_RESERVED_189"@)[5] == 'S');
    assert(("KC_RESERVED_189"@)[6] == 'E');
    assert(("KC_RESERVED_189"@)[7] == 'R');
    assert(("KC_RESERVED_189"@)[8] == 'V');
    assert(("KC_RESERVED_189"@)[9] == 'E');
    assert(("KC_RESERVED_189"@)[10] == 'D');
    assert(("KC_RESERVED_189"@)[11] == '_');
    assert(("KC_RESERVED_189"@)[12] == '1');
    assert(("KC_RESERVED_189"@)[13] == '8');
    assert(("KC_RESERVED_189"@)[14] == '9');
    assert(("KC_RESERVED_190"@).len() == 15);
    assert(("KC_RESERVED_190"@)[0] == 'K');
    assert(("KC_RESERVED_190"@)[1] == 'C');
    assert(("KC_RESERVED_190"@)[2] == '_');
    assert(("KC_RESERVED_190"@)[3] == 'R');
    assert(("KC_RESERVED_190"@)[4] == 'E');
    assert(("KC_RESERVED_190"@)[5] == 'S');
    assert(("KC_RESERVED_190"@)[6] == 'E');
    assert(("KC_RESERVED_190"@)[7] == 'R');
    assert(("KC_RESERVED_190"@)[8] == 'V');
    assert(("KC_RESERVED_190"@)[9] == 'E');
    assert(("KC_RESERVED_190"@)[10] == 'D');
    assert(("KC_RESERVED_190"@)[11] == '_');
    assert(("KC_RESERVED_190"@)[12] == '1');
    assert(("KC_RESERVED_190"@)[13] == '9');
    assert(("KC_RESERVED_190"@)[14] == '0');
    assert(("KC_RESERVED_191"@).len() == 15);
    assert(("KC_RESERVED_191"@)[0] == 'K');
    assert(("KC_RESERVED_191"@)[1] == 'C');
    assert(("KC_RESERVED_191"@)[2] == '_');
    assert(("KC_RESERVED_191"@)[3] == 'R');
    assert(("KC_RESERVED_191"@)[4] == 'E');
    assert(("KC_RESERVED_191"@)[5] == 'S');
    assert(("KC_RESERVED_191"@)[6] == 'E');
    assert(("KC_RESERVED_191"@)[7] == 'R');
    assert(("KC_RESERVED_191"@)[8] == 'V');
    assert(("KC_RESERVED_191"@)[9] == 'E');
    assert(("KC_RESERVED_191"@)[10] == 'D');
    assert(("KC_RESERVED_191"@)[11] == '_');
    assert(("KC_RESERVED_191"@)[12] == '1');
    assert(("KC_RESERVED_191"@)[13] == '9');
    assert(("KC_RESERVED_191"@)[14] == '1');
}

proof fn lemma_name_facts_block_12()
    ensures
        ("KC_RESERVED_192"@).len() == 15 && ("KC_RESERVED_192"@)[0] == 'K' && ("KC_RESERVED_192"@)[1] == 'C' && ("KC_RESERVED_192"@)[2] == '_' && ("KC_RESERVED_192"@)[3] == 'R' && ("KC_RESERVED_192"@)[4] == 'E' && ("KC_RESERVED_192"@)[5] == 'S' && ("KC_RESERVED_192"@)[6] == 'E' && ("KC_RESERVED_192"@)[7] == 'R' && ("KC_RESERVED_192"@)[8] == 'V' && ("KC_RESERVED_192"@)[9] == 'E' && ("KC_RESERVED_192"@)[10] == 'D' && ("KC_RESERVED_192"@)[11] == '_' && ("KC_RESERVED_192"@)[12] == '1' && ("KC_RESERVED_192"@)[13] == '9' && ("KC_RESERVED_192"@)[14] == '2',
        ("KC_RESERVED_193"@).len() == 15 && ("KC_RESERVED_193"@)[0] == 'K' && ("KC_RESERVED_193"@)[1] == 'C' && ("KC_RESERVED_193"@)[2] == '_' && ("KC_RESERVED_193"@)[3] == 'R' && ("KC_RESERVED_193"@)[4] == 'E' && ("KC_RESERVED_193"@)[5] == 'S' && ("KC_RESERVED_193"@)[6] == 'E' && ("KC_RESERVED_193"@)[7] == 'R' && ("KC_RESERVED_193"@)[8] == 'V' && ("KC_RESERVED_193"@)[9] == 'E' && ("KC_RESERVED_193"@)[10] == 'D' && ("KC_RESERVED_193"@)[11] == '_' && ("KC_RESERVED_193"@)[12] == '1' && ("KC_RESERVED_193"@)[13] == '9' && ("KC_RESERVED_193"@)[14] == '3',
        ("KC_RESERVED_194"@).len() == 15 && ("KC_RESERVED_194"@)[0] == 'K' && ("KC_RESERVED_194"@)[1] == 'C' && ("KC_RESERVED_194"@)[2] == '_' && ("KC_RESERVED_194"@)[3] == 'R' && ("KC_RESERVED_194"@)[4] == 'E' && ("KC_RESERVED_194"@)[5] == 'S' && ("KC_RESERVED_194"@)[6] == 'E' && ("KC_RESERVED_194"@)[7] == 'R' && ("KC_RESERVED_194"@)[8] == 'V' && ("KC_RESERVED_194"@)[9] == 'E' && ("KC_RESERVED_194"@)[10] == 'D' && ("KC_RESERVED_194"@)[11] == '_' && ("KC_RESERVED_194"@)[12] == '1' && ("KC_RESERVED_194"@)[13] == '9' && ("KC_RESERVED_194"@)[14] == '4',
        ("KC_RESERVED_195"@).len() == 15 && ("KC_RESERVED_195"@)[0] == 'K' && ("KC_RESERVED_195"@)[1] == 'C' && ("KC_RESERVED_195"@)[2] == '_' && ("KC_RESERVED_195"@)[3] == 'R' && ("KC_RESERVED_195"@)[4] == 'E' && ("KC_RESERVED_195"@)[5] == 'S' && ("KC_RESERVED_195"@)[6] == 'E' && ("KC_RESERVED_195"@)[7] == 'R' && ("KC_RESERVED_195"@)[8] == 'V' && ("KC_RESERVED_195"@)[9] == 'E' && ("KC_RESERVED_195"@)[10] == 'D' && ("KC_RESERVED_195"@)[11] == '_' && ("KC_RESERVED_195"@)[12] == '1' && ("KC_RESERVED_195"@)[13] == '9' && ("KC_RESERVED_195"@)[14] == '5',
        ("KC_RESERVED_196"@).len() == 15 && ("KC_RESERVED_196"@)[0] == 'K' && ("KC_RESERVED_196"@)[1] == 'C' && ("KC_RESERVED_196"@)[2] == '_' && ("KC_RESERVED_196"@)[3] == 'R' && ("KC_RESERVED_196"@)[4] == 'E' && ("KC_RESERVED_196"@)[5] == 'S' && ("KC_RESERVED_196"@)[6] == 'E' && ("KC_RESERVED_196"@)[7] == 'R' && ("KC_RESERVED_196"@)[8] == 'V' && ("KC_RESERVED_196"@)[9] == 'E' && ("KC_RESERVED_196"@)[10] == 'D' && ("KC_RESERVED_196"@)[11] == '_' && ("KC_RESERVED_196"@)[12] == '1' && ("KC_RESERVED_196"@)[13] == '9' && ("KC_RESERVED_196"@)[14] == '6',
        ("KC_RESERVED_197"@).len() == 15 && ("KC_RESERVED_197"@)[0] == 'K' && ("KC_RESERVED_197"@)[1] == 'C' && ("KC_RESERVED_197"@)[2] == '_' && ("KC_RESERVED_197"@)[3] == 'R' && ("KC_RESERVED_197"@)[4] == 'E' && ("KC_RESERVED_197"@)[5] == 'S' && ("KC_RESERVED_197"@)[6] == 'E' && ("KC_RESERVED_197"@)[7] == 'R' && ("KC_RESERVED_197"@)[8] == 'V' && ("KC_RESERVED_197"@)[9] == 'E' && ("KC_RESERVED_197"@)[10] == 'D' && ("KC_RESERVED_197"@)[11] == '_' && ("KC_RESERVED_197"@)[12] == '1' && ("KC_RESERVED_197"@)[13] == '9' && ("KC_RESERVED_197"@)[14] == '7',
        ("KC_RESERVED_198"@).len() == 15 && ("KC_RESERVED_198"@)[0] == 'K' && ("KC_RESERVED_198"@)[1] == 'C' && ("KC_RESERVED_198"@)[2] == '_' && ("KC_RESERVED_198"@)[3] == 'R' && ("KC_RESERVED_198"@)[4] == 'E' && ("KC_RESERVED_198"@)[5] == 'S' && ("KC_RESERVED_198"@)[6] == 'E' && ("KC_RESERVED_198"@)[7] == 'R' && ("KC_RESERVED_198"@)[8] == 'V' && ("KC_RESERVED_198"@)[9] == 'E' && ("KC_RESERVED_198"@)[10] == 'D' && ("KC_RESERVED_198"@)[11] == '_' && ("KC_RESERVED_198"@)[12] == '1' && ("KC_RESERVED_198"@)[13] == '9' && ("KC_RESERVED_198"@)[14] == '8',
        ("KC_RESERVED_199"@).len() == 15 && ("KC_RESERVED_199"@)[0] == 'K' && ("KC_RESERVED_199"@)[1] == 'C' && ("KC_RESERVED_199"@)[2] == '_' && ("KC_RESERVED_199"@)[3] == 'R' && ("KC_RESERVED_199"@)[4] == 'E' && ("KC_RESERVED_199"@)[5] == 'S' && ("KC_RESERVED_199"@)[6] == 'E' && ("KC_RESERVED_199"@)[7] == 'R' && ("KC_RESERVED_199"@)[8] == 'V' && ("KC_RESERVED_199"@)[9] == 'E' && ("KC_RESERVED_199"@)[10] == 'D' && ("KC_RESERVED_199"@)[11] == '_' && ("KC_RESERVED_199"@)[12] == '1' && ("KC_RESERVED_199"@)[13] == '9' && ("KC_RESERVED_199"@)[14] == '9',
        ("KC_RESERVED_200"@).len() == 15 && ("KC_RESERVED_200"@)[0] == 'K' && ("KC_RESERVED_200"@)[1] == 'C' && ("KC_RESERVED_200"@)[2] == '_' && ("KC_RESERVED_200"@)[3] == 'R' && ("KC_RESERVED_200"@)[4] == 'E' && ("KC_RESERVED_200"@)[5] == 'S' && ("KC_RESERVED_200"@)[6] == 'E' && ("KC_RESERVED_200"@)[7] == 'R' && ("KC_RESERVED_200"@)[8] == 'V' && ("KC_RESERVED_200"@)[9] == 'E' && ("KC_RESERVED_200"@)[10] == 'D' && ("KC_RESERVED_200"@)[11] == '_' && ("KC_RESERVED_200"@)[12] == '2' && ("KC_RESERVED_200"@)[13] == '0' && ("KC_RESERVED_200"@)[14] == '0',
        ("KC_RESERVED_201"@).len() == 15 && ("KC_RESERVED_201"@)[0] == 'K' && ("KC_RESERVED_201"@)[1] == 'C' && ("KC_RESERVED_201"@)[2] == '_' && ("KC_RESERVED_201"@)[3] == 'R' && ("KC_RESERVED_201"@)[4] == 'E' && ("KC_RESERVED_201"@)[5] == 'S' && ("KC_RESERVED_201"@)[6] == 'E' && ("KC_RESERVED_201"@)[7] == 'R' && ("KC_RESERVED_201"@)[8] == 'V' && ("KC_RESERVED_201"@)[9] == 'E' && ("KC_RESERVED_201"@)[10] == 'D' && ("KC_RESERVED_201"@)[11] == '_' && ("KC_RESERVED_201"@)[12] == '2' && ("KC_RESERVED_201"@)[13] == '0' && ("KC_RESERVED_201"@)[14] == '1',
        ("KC_RESERVED_202"@).len() == 15 && ("KC_RESERVED_202"@)[0] == 'K' && ("KC_RESERVED_202"@)[1] == 'C' && ("KC_RESERVED_202"@)[2] == '_' && ("KC_RESERVED_202"@)[3] == 'R' && ("KC_RESERVED_202"@)[4] == 'E' && ("KC_RESERVED_202"@)[5] == 'S' && ("KC_RESERVED_202"@)[6] == 'E' && ("KC_RESERVED_202"@)[7] == 'R' && ("KC_RESERVED_202"@)[8] == 'V' && ("KC_RESERVED_202"@)[9] == 'E' && ("KC_RESERVED_202"@)[10] == 'D' && ("KC_RESERVED_202"@)[11] == '_' && ("KC_RESERVED_202"@)[12] == '2' && ("KC_RESERVED_202"@)[13] == '0' && ("KC_RESERVED_202"@)[14] == '2',
        ("KC_RESERVED_203"@).len() == 15 && ("KC_RESERVED_203"@)[0] == 'K' && ("KC_RESERVED_203"@)[1] == 'C' && ("KC_RESERVED_203"@)[2] == '_' && ("KC_RESERVED_203"@)[3] == 'R' && ("KC_RESERVED_203"@)[4] == 'E' && ("KC_RESERVED_203"@)[5] == 'S' && ("KC_RESERVED_203"@)[6] == 'E' && ("KC_RESERVED_203"@)[7] == 'R' && ("KC_RESERVED_203"@)[8] == 'V' && ("KC_RESERVED_203"@)[9] == 'E' && ("KC_RESERVED_203"@)[10] == 'D' && ("KC_RESERVED_203"@)[11] == '_' && ("KC_RESERVED_203"@)[12] == '2' && ("KC_RESERVED_203"@)[13] == '0' && ("KC_RESERVED_203"@)[14] == '3',
        ("KC_RESERVED_204"@).len() == 15 && ("KC_RESERVED_204"@)[0] == 'K' && ("KC_RESERVED_204"@)[1] == 'C' && ("KC_RESERVED_204"@)[2] == '_' && ("KC_RESERVED_204"@)[3] == 'R' && ("KC_RESERVED_204"@)[4] == 'E' && ("KC_RESERVED_204"@)[5] == 'S' && ("KC_RESERVED_204"@)[6] == 'E' && ("KC_RESERVED_204"@)[7] == 'R' && ("KC_RESERVED_204"@)[8] == 'V' && ("KC_RESERVED_204"@)[9] == 'E' && ("KC_RESERVED_204"@)[10] == 'D' && ("KC_RESERVED_204"@)[11] == '_' && ("KC_RESERVED_204"@)[12] == '2' && ("KC_RESERVED_204"@)[13] == '0' && ("KC_RESERVED_204"@)[14] == '4',
        ("KC_RESERVED_205"@).len() == 15 && ("KC_RESERVED_205"@)[0] == 'K' && ("KC_RESERVED_205"@)[1] == 'C' && ("KC_RESERVED_205"@)[2] == '_' && ("KC_RESERVED_205"@)[3] == 'R' && ("KC_RESERVED_205"@)[4] == 'E' && ("KC_RESERVED_205"@)[5] == 'S' && ("KC_RESERVED_205"@)[6] == 'E' && ("KC_RESERVED_205"@)[7] == 'R' && ("KC_RESERVED_205"@)[8] == 'V' && ("KC_RESERVED_205"@)[9] == 'E' && ("KC_RESERVED_205"@)[10] == 'D' && ("KC_RESERVED_205"@)[11] == '_' && ("KC_RESERVED_205"@)[12] == '2' && ("KC_RESERVED_205"@)[13] == '0' && ("KC_RESERVED_205"@)[14] == '5',
        ("KC_RESERVED_206"@).len() == 15 && ("KC_RESERVED_206"@)[0] == 'K' && ("KC_RESERVED_206"@)[1] == 'C' && ("KC_RESERVED_206"@)[2] == '_' && ("KC_RESERVED_206"@)[3] == 'R' && ("KC_RESERVED_206"@)[4] == 'E' && ("KC_RESERVED_206"@)[5] == 'S' && ("KC_RESERVED_206"@)[6] == 'E' && ("KC_RESERVED_206"@)[7] == 'R' && ("KC_RESERVED_206"@)[8] == 'V' && ("KC_RESERVED_206"@)[9] == 'E' && ("KC_RESERVED_206"@)[10] == 'D' && ("KC_RESERVED_206"@)[11] == '_' && ("KC_RESERVED_206"@)[12] == '2' && ("KC_RESERVED_206"@)[13] == '0' && ("KC_RESERVED_206"@)[14] == '6',
        ("KC_RESERVED_207"@).len() == 15 && ("KC_RESERVED_207"@)[0] == 'K' && ("KC_RESERVED_207"@)[1] == 'C' && ("KC_RESERVED_207"@)[2] == '_' && ("KC_RESERVED_207"@)[3] == 'R' && ("KC_RESERVED_207"@)[4] == 'E' && ("KC_RESERVED_207"@)[5] == 'S' && ("KC_RESERVED_207"@)[6] == 'E' && ("KC_RESERVED_207"@)[7] == 'R' && ("KC_RESERVED_207"@)[8] == 'V' && ("KC_RESERVED_207"@)[9] == 'E' && ("KC_RESERVED_207"@)[10] == 'D' && ("KC_RESERVED_207"@)[11] == '_' && ("KC_RESERVED_207"@)[12] == '2' && ("KC_RESERVED_207"@)[13] == '0' && ("KC_RESERVED_207"@)[14] == '7',
{
    reveal_strlit("KC_RESERVED_192");
    reveal_strlit("KC_RESERVED_193");
    reveal_strlit("KC_RESERVED_194");
    reveal_strlit("KC_RESERVED_195");
    reveal_strlit("KC_RESERVED_196");
    reveal_strlit("KC_RESERVED_197");
    reveal_strlit("KC_RESERVED_198");
    reveal_strlit("KC_RESERVED_199");
    reveal_strlit("KC_RESERVED_200");
    reveal_strlit("KC_RESERVED_201");
    reveal_strlit("KC_RESERVED_202");
    reveal_strlit("KC_RESERVED_203");
    reveal_strlit("KC_RESERVED_204");
    reveal_strlit("KC_RESERVED_205");
    reveal_strlit("KC_RESERVED_206");
    reveal_strlit("KC_RESERVED_207");
    assert(("KC_RESERVED_192"@).len() == 15);
    assert(("KC_RESERVED_192"@)[0] == 'K');
    assert(("KC_RESERVED_192"@)[1] == 'C');
    assert(("KC_RESERVED_192"@)[2] == '_');
    assert(("KC_RESERVED_192"@)[3] == 'R');
    assert(("KC_RESERVED_192"@)[4] == 'E');
    assert(("KC_RESERVED_192"@)[5] == 'S');
    assert(("KC_RESERVED_192"@)[6] == 'E');
    assert(("KC_RESERVED_192"@)[7] == 'R');
    assert(("KC_RESERVED_192"@)[8] == 'V');
    assert(("KC_RESERVED_192"@)[9] == 'E');
    assert(("KC_RESERVED_192"@)[10] == 'D');
    assert(("KC_RESERVED_192"@)[11] == '_');
    assert(("KC_RESERVED_192"@)[12] == '1');
    assert(("KC_RESERVED_192"@)[13] == '9');
    assert(("KC_RESERVED_192"@)[14] == '2');
    assert(("KC_RESERVED_193"@).len() == 15);
    assert(("KC_RESERVED_193"@)[0] == 'K');
    assert(("KC_RESERVED_193"@)[1] == 'C');
    assert(("KC_RESERVED_193"@)[2] == '_');
    assert(("KC_RESERVED_193"@)[3] == 'R');
    assert(("KC_RESERVED_193"@)[4] == 'E');
    assert(("KC_RESERVED_193"@)[5] == 'S');
    assert(("KC_RESERVED_193"@)[6] == 'E');
    assert(("KC_RESERVED_193"@)[7] == 'R');
    assert(("KC_RESERVED_193"@)[8] == 'V');
    assert(("KC_RESERVED_193"@)[9] == 'E');
    assert(("KC_RESERVED_193"@)[10] == 'D');
    assert(("KC_RESERVED_193"@)[11] == '_');
    assert(("KC_RESERVED_193"@)[12] == '1');
    assert(("KC_RESERVED_193"@)[13] == '9');
    assert(("KC_RESERVED_193"@)[14] == '3');
    assert(("KC_RESERVED_194"@).len() == 15);
    assert(("KC_RESERVED_194"@)[0] == 'K');
    assert(("KC_RESERVED_194"@)[1] == 'C');
    assert(("KC_RESERVED_194"@)[2] == '_');
    assert(("KC_RESERVED_194"@)[3] == 'R');
    assert(("KC_RESERVED_194"@)[4] == 'E');
    assert(("KC_RESERVED_194"@)[5] == 'S');
    assert(("KC_RESERVED_194"@)[6] == 'E');
    assert(("KC_RESERVED_194"@)[7] == 'R');
    assert(("KC_RESERVED_194"@)[8] == 'V');
    assert(("KC_RESERVED_194"@)[9] == 'E');
    assert(("KC_RESERVED_194"@)[10] == 'D');
    assert(("KC_RESERVED_194"@)[11] == '_');
    assert(("KC_RESERVED_194"@)[12] == '1');
    assert(("KC_RESERVED_194"@)[13] == '9');
    assert(("KC_RESERVED_194"@)[14] == '4');
    assert(("KC_RESERVED_195"@).len() == 15);
    assert(("KC_RESERVED_195"@)[0] == 'K');
    assert(("KC_RESERVED_195"@)[1] == 'C');
    assert(("KC_RESERVED_195"@)[2] == '_');
    assert(("KC_RESERVED_195"@)[3] == 'R');
    assert(("KC_RESERVED_195"@)[4] == 'E');
    assert(("KC_RESERVED_195"@)[5] == 'S');
    assert(("KC_RESERVED_195"@)[6] == 'E');
    assert(("KC_RESERVED_195"@)[7] == 'R');
    assert(("KC_RESERVED_195"@)[8] == 'V');
    assert(("KC_RESERVED_195"@)[9] == 'E');
    assert(("KC_RESERVED_195"@)[10] == 'D');
    assert(("KC_RESERVED_195"@)[11] == '_');
    assert(("KC_RESERVED_195"@)[12] == '1');
    assert(("KC_RESERVED_195"@)[13] == '9');
    assert(("KC_RESERVED_195"@)[14] == '5');
    assert(("KC_RESERVED_196"@).len() == 15);
    assert(("KC_RESERVED_196"@)[0] == 'K');
    assert(("KC_RESERVED_196"@)[1] == 'C');
    assert(("KC_RESERVED_196"@)[2] == '_');
    assert(("KC_RESERVED_196"@)[3] == 'R');
    assert(("KC_RESERVED_196"@)[4] == 'E');
    assert(("KC_RESERVED_196"@)[5] == 'S');
    assert(("KC_RESERVED_196"@)[6] == 'E');
    assert(("KC_RESERVED_196"@)[7] == 'R');
    assert(("KC_RESERVED_196"@)[8] == 'V');
    assert(("KC_RESERVED_196"@)[9] == 'E');
    assert(("KC_RESERVED_196"@)[10] == 'D');
    assert(("KC_RESERVED_196"@)[11] == '_');
    assert(("KC_RESERVED_196"@)[12] == '1');
    assert(("KC_RESERVED_196"@)[13] == '9');
    assert(("KC_RESERVED_196"@)[14] == '6');
    assert(("KC_RESERVED_197"@).len() == 15);
    assert(("KC_RESERVED_197"@)[0] == 'K');
    assert(("KC_RESERVED_197"@)[1] == 'C');
    assert(("KC_RESERVED_197"@)[2] == '_');
    assert(("KC_RESERVED_197"@)[3] == 'R');
    assert(("KC_RESERVED_197"@)[4] == 'E');
    assert(("KC_RESERVED_197"@)[5] == 'S');
    assert(("KC_RESERVED_197"@)[6] == 'E');
    assert(("KC_RESERVED_197"@)[7] == 'R');
    assert(("KC_RESERVED_197"@)[8] == 'V');
    assert(("KC_RESERVED_197"@)[9] == 'E');
    assert(("KC_RESERVED_197"@)[10] == 'D');
    assert(("KC_RESERVED_197"@)[11] == '_');
    assert(("KC_RESERVED_197"@)[12] == '1');
    assert(("KC_RESERVED_197"@)[13] == '9');
    assert(("KC_RESERVED_197"@)[14] == '7');
    assert(("KC_RESERVED_198"@).len() == 15);
    assert(("KC_RESERVED_198"@)[0] == 'K');
    assert(("KC_RESERVED_198"@)[1] == 'C');
    assert(("KC_RESERVED_198"@)[2] == '_');
    assert(("KC_RESERVED_198"@)[3] == 'R');
    assert(("KC_RESERVED_198"@)[4] == 'E');
    assert(("KC_RESERVED_198"@)[5] == 'S');
    assert(("KC_RESERVED_198"@)[6] == 'E');
    assert(("KC_RESERVED_198"@)[7] == 'R');
    assert(("KC_RESERVED_198"@)[8] == 'V');
    assert(("KC_RESERVED_198"@)[9] == 'E');
    assert(("KC_RESERVED_198"@)[10] == 'D');
    assert(("KC_RESERVED_198"@)[11] == '_');
    assert(("KC_RESERVED_198"@)[12] == '1');
    assert(("KC_RESERVED_198"@)[13] == '9');
    assert(("KC_RESERVED_198"@)[14] == '8');
    assert(("KC_RESERVED_199"@).len() == 15);
    assert(("KC_RESERVED_199"@)[0] == 'K');
    assert(("KC_RESERVED_199"@)[1] == 'C');
    assert(("KC_RESERVED_199"@)[2] == '_');
    assert(("KC_RESERVED_199"@)[3] == 'R');
    assert(("KC_RESERVED_199"@)[4] == 'E');
    assert(("KC_RESERVED_199"@)[5] == 'S');
    assert(("KC_RESERVED_199"@)[6] == 'E');
    assert(("KC_RESERVED_199"@)[7] == 'R');
    assert(("KC_RESERVED_199"@)[8] == 'V');
    assert(("KC_RESERVED_199"@)[9] == 'E');
    assert(("KC_RESERVED_199"@)[10] == 'D');
    assert(("KC_RESERVED_199"@)[11] == '_');
    assert(("KC_RESERVED_199"@)[12] == '1');
    assert(("KC_RESERVED_199"@)[13] == '9');
    assert(("KC_RESERVED_199"@)[14] == '9');
    assert(("KC_RESERVED_200"@).len() == 15);
    assert(("KC_RESERVED_200"@)[0] == 'K');
    assert(("KC_RESERVED_200"@)[1] == 'C');
    assert(("KC_RESERVED_200"@)[2] == '_');
    assert(("KC_RESERVED_200"@)[3] == 'R');
    assert(("KC_RESERVED_200"@)[4] == 'E');
    assert(("KC_RESERVED_200"@)[5] == 'S');
    assert(("KC_RESERVED_200"@)[6] == 'E');
    assert(("KC_RESERVED_200"@)[7] == 'R');
    assert(("KC_RESERVED_200"@)[8] == 'V');
    assert(("KC_RESERVED_200"@)[9] == 'E');
    assert(("KC_RESERVED_200"@)[10] == 'D');
    assert(("KC_RESERVED_200"@)[11] == '_');
    assert(("KC_RESERVED_200"@)[12] == '2');
    assert(("KC_RESERVED_200"@)[13] == '0');
    assert(("KC_RESERVED_200"@)[14] == '0');
    assert(("KC_RESERVED_201"@).len() == 15);
    assert(("KC_RESERVED_201"@)[0] == 'K');
    assert(("KC_RESERVED_201"@)[1] == 'C');
    assert(("KC_RESERVED_201"@)[2] == '_');
    assert(("KC_RESERVED_201"@)[3] == 'R');
    assert(("KC_RESERVED_201"@)[4] == 'E');
    assert(("KC_RESERVED_201"@)[5] == 'S');
    assert(("KC_RESERVED_201"@)[6] == 'E');
    assert(("KC_RESERVED_201"@)[7] == 'R');
    assert(("KC_RESERVED_201"@)[8] == 'V');
    assert(("KC_RESERVED_201"@)[9] == 'E');
    assert(("KC_RESERVED_201"@)[10] == 'D');
    assert(("KC_RESERVED_201"@)[11] == '_');
    assert(("KC_RESERVED_201"@)[12] == '2');
    assert(("KC_RESERVED_201"@)[13] == '0');
    assert(("KC_RESERVED_201"@)[14] == '1');
    assert(("KC_RESERVED_202"@).len() == 15);
    assert(("KC_RESERVED_202"@)[0] == 'K');
    assert(("KC_RESERVED_202"@)[1] == 'C');
    assert(("KC_RESERVED_202"@)[2] == '_');
    assert(("KC_RESERVED_202"@)[3] == 'R');
    assert(("KC_RESERVED_202"@)[4] == 'E');
    assert(("KC_RESERVED_202"@)[5] == 'S');
    assert(("KC_RESERVED_202"@)[6] == 'E');
    assert(("KC_RESERVED_202"@)[7] == 'R');
    assert(("KC_RESERVED_202"@)[8] == 'V');
    assert(("KC_RESERVED_202"@)[9] == 'E');
    assert(("KC_RESERVED_202"@)[10] == 'D');
    assert(("KC_RESERVED_202"@)[11] == '_');
    assert(("KC_RESERVED_202"@)[12] == '2');
    assert(("KC_RESERVED_202"@)[13] == '0');
    assert(("KC_RESERVED_202"@)[14] == '2');
    assert(("KC_RESERVED_203"@).len() == 15);
    assert(("KC_RESERVED_203"@)[0] == 'K');
    assert(("KC_RESERVED_203"@)[1] == 'C');
    assert(("KC_RESERVED_203"@)[2] == '_');
    assert(("KC_RESERVED_203"@)[3] == 'R');
    assert(("KC_RESERVED_203"@)[4] == 'E');
    assert(("KC_RESERVED_203"@)[5] == 'S');
    assert(("KC_RESERVED_203"@)[6] == 'E');
    assert(("KC_RESERVED_203"@)[7] == 'R');
    assert(("KC_RESERVED_203"@)[8] == 'V');
    assert(("KC_RESERVED_203"@)[9] == 'E');
    assert(("KC_RESERVED_203"@)[10] == 'D');
    assert(("KC_RESERVED_203"@)[11] == '_');
    assert(("KC_RESERVED_203"@)[12] == '2');
    assert(("KC_RESERVED_203"@)[13] == '0');
    assert(("KC_RESERVED_203"@)[14] == '3');
    assert(("KC_RESERVED_204"@).len() == 15);
    assert(("KC_RESERVED_204"@)[0] == 'K');
    assert(("KC_RESERVED_204"@)[1] == 'C');
    assert(("KC_RESERVED_204"@)[2] == '_');
    assert(("KC_RESERVED_204"@)[3] == 'R');
    assert(("KC_RESERVED_204"@)[4] == 'E');
    assert(("KC_RESERVED_204"@)[5] == 'S');
    assert(("KC_RESERVED_204"@)[6] == 'E');
    assert(("KC_RESERVED_204"@)[7] == 'R');
    assert(("KC_RESERVED_204"@)[8] == 'V');
    assert(("KC_RESERVED_204"@)[9] == 'E');
    assert(("KC_RESERVED_204"@)[10] == 'D');
    assert(("KC_RESERVED_204"@)[11] == '_');
    assert(("KC_RESERVED_204"@)[12] == '2');
    assert(("KC_RESERVED_204"@)[13] == '0');
    assert(("KC_RESERVED_204"@)[14] == '4');
    assert(("KC_RESERVED_205"@).len() == 15);
    assert(("KC_RESERVED_205"@)[0] == 'K');
    assert(("KC_RESERVED_205"@)[1] == 'C');
    assert(("KC_RESERVED_205"@)[2] == '_');
    assert(("KC_RESERVED_205"@)[3] == 'R');
    assert(("KC_RESERVED_205"@)[4] == 'E');
    assert(("KC_RESERVED_205"@)[5] == 'S');
    assert(("KC_RESERVED_205"@)[6] == 'E');
    assert(("KC_RESERVED_205"@)[7] == 'R');
    assert(("KC_RESERVED_205"@)[8] == 'V');
    assert(("KC_RESERVED_205"@)[9] == 'E');
    assert(("KC_RESERVED_205"@)[10] == 'D');
    assert(("KC_RESERVED_205"@)[11] == '_');
    assert(("KC_RESERVED_205"@)[12] == '2');
    assert(("KC_RESERVED_205"@)[13] == '0');
    assert(("KC_RESERVED_205"@)[14] == '5');
    assert(("KC_RESERVED_206"@).len() == 15);
    assert(("KC_RESERVED_206"@)[0] == 'K');
    assert(("KC_RESERVED_206"@)[1] == 'C');
    assert(("KC_RESERVED_206"@)[2] == '_');
    assert(("KC_RESERVED_206"@)[3] == 'R');
    assert(("KC_RESERVED_206"@)[4] == 'E');
    assert(("KC_RESERVED_206"@)[5] == 'S');
    assert(("KC_RESERVED_206"@)[6] == 'E');
    assert(("KC_RESERVED_206"@)[7] == 'R');
    assert(("KC_RESERVED_206"@)[8] == 'V');
    assert(("KC_RESERVED_206"@)[9] == 'E');
    assert(("KC_RESERVED_206"@)[10] == 'D');
    assert(("KC_RESERVED_206"@)[11] == '_');
    assert(("KC_RESERVED_206"@)[12] == '2');
    assert(("KC_RESERVED_206"@)[13] == '0');
    assert(("KC_RESERVED_206"@)[14] == '6');
    assert(("KC_RESERVED_207"@).len() == 15);
    assert(("KC_RESERVED_207"@)[0] == 'K');
    assert(("KC_RESERVED_207"@)[1] == 'C');
    assert(("KC_RESERVED_207"@)[2] == '_');
    assert(("KC_RESERVED_207"@)[3] == 'R');
    assert(("KC_RESERVED_207"@)[4] == 'E');
    assert(("KC_RESERVED_207"@)[5] == 'S');
    assert(("KC_RESERVED_207"@)[6] == 'E');
    assert(("KC_RESERVED_207"@)[7] == 'R');
    assert(("KC_RESERVED_207"@)[8] == 'V');
    assert(("KC_RESERVED_207"@)[9] == 'E');
    assert(("KC_RESERVED_207"@)[10] == 'D');
    assert(("KC_RESERVED_207"@)[11] == '_');
    assert(("KC_RESERVED_207"@)[12] == '2');
    assert(("KC_RESERVED_207"@)[13] == '0');
    assert(("KC_RESERVED_207"@)[14] == '7');
}

proof fn lemma_name_facts_block_13()
    ensures
        ("KC_RESERVED_208"@).len() == 15 && ("KC_RESERVED_208"@)[0] == 'K' && ("KC_RESERVED_208"@)[1] == 'C' && ("KC_RESERVED_208"@)[2] == '_' && ("KC_RESERVED_208"@)[3] == 'R' && ("KC_RESERVED_208"@)[4] == 'E' && ("KC_RESERVED_208"@)[5] == 'S' && ("KC_RESERVED_208"@)[6] == 'E' && ("KC_RESERVED_208"@)[7] == 'R' && ("KC_RESERVED_208"@)[8] == 'V' && ("KC_RESERVED_208"@)[9] == 'E' && ("KC_RESERVED_208"@)[10] == 'D' && ("KC_RESERVED_208"@)[11] == '_' && ("KC_RESERVED_208"@)[12] == '2' && ("KC_RESERVED_208"@)[13] == '0' && ("KC_RESERVED_208"@)[14] == '8',
        ("KC_RESERVED_209"@).len() == 15 && ("KC_RESERVED_209"@)[0] == 'K' && ("KC_RESERVED_209"@)[1] == 'C' && ("KC_RESERVED_209"@)[2] == '_' && ("KC_RESERVED_209"@)[3] == 'R' && ("KC_RESERVED_209"@)[4] == 'E' && ("KC_RESERVED_209"@)[5] == 'S' && ("KC_RESERVED_209"@)[6] == 'E' && ("KC_RESERVED_209"@)[7] == 'R' && ("KC_RESERVED_209"@)[8] == 'V' && ("KC_RESERVED_209"@)[9] == 'E' && ("KC_RESERVED_209"@)[10] == 'D' && ("KC_RESERVED_209"@)[11] == '_' && ("KC_RESERVED_209"@)[12] == '2' && ("KC_RESERVED_209"@)[13] == '0' && ("KC_RESERVED_209"@)[14] == '9',
        ("KC_RESERVED_210"@).len() == 15 && ("KC_RESERVED_210"@)[0] == 'K' && ("KC_RESERVED_210"@)[1] == 'C' && ("KC_RESERVED_210"@)[2] == '_' && ("KC_RESERVED_210"@)[3] == 'R' && ("KC_RESERVED_210"@)[4] == 'E' && ("KC_RESERVED_210"@)[5] == 'S' && ("KC_RESERVED_210"@)[6] == 'E' && ("KC_RESERVED_210"@)[7] == 'R' && ("KC_RESERVED_210"@)[8] == 'V' && ("KC_RESERVED_210"@)[9] == 'E' && ("KC_RESERVED_210"@)[10] == 'D' && ("KC_RESERVED_210"@)[11] == '_' && ("KC_RESERVED_210"@)[12] == '2' && ("KC_RESERVED_210"@)[13] == '1' && ("KC_RESERVED_210"@)[14] == '0',
        ("KC_RESERVED_211"@).len() == 15 && ("KC_RESERVED_211"@)[0] == 'K' && ("KC_RESERVED_211"@)[1] == 'C' && ("KC_RESERVED_211"@)[2] == '_' && ("KC_RESERVED_211"@)[3] == 'R' && ("KC_RESERVED_211"@)[4] == 'E' && ("KC_RESERVED_211"@)[5] == 'S' && ("KC_RESERVED_211"@)[6] == 'E' && ("KC_RESERVED_211"@)[7] == 'R' && ("KC_RESERVED_211"@)[8] == 'V' && ("KC_RESERVED_211"@)[9] == 'E' && ("KC_RESERVED_211"@)[10] == 'D' && ("KC_RESERVED_211"@)[11] == '_' && ("KC_RESERVED_211"@)[12] == '2' && ("KC_RESERVED_211"@)[13] == '1' && ("KC_RESERVED_211"@)[14] == '1',
        ("KC_RESERVED_212"@).len() == 15 && ("KC_RESERVED_212"@)[0] == 'K' && ("KC_RESERVED_212"@)[1] == 'C' && ("KC_RESERVED_212"@)[2] == '_' && ("KC_RESERVED_212"@)[3] == 'R' && ("KC_RESERVED_212"@)[4] == 'E' && ("KC_RESERVED_212"@)[5] == 'S' && ("KC_RESERVED_212"@)[6] == 'E' && ("KC_RESERVED_212"@)[7] == 'R' && ("KC_RESERVED_212"@)[8] == 'V' && ("KC_RESERVED_212"@)[9] == 'E' && ("KC_RESERVED_212"@)[10] == 'D' && ("KC_RESERVED_212"@)[11] == '_' && ("KC_RESERVED_212"@)[12] == '2' && ("KC_RESERVED_212"@)[13] == '1' && ("KC_RESERVED_212"@)[14] == '2',
        ("KC_RESERVED_213"@).len() == 15 && ("KC_RESERVED_213"@)[0] == 'K' && ("KC_RESERVED_213"@)[1] == 'C' && ("KC_RESERVED_213"@)[2] == '_' && ("KC_RESERVED_213"@)[3] == 'R' && ("KC_RESERVED_213"@)[4] == 'E' && ("KC_RESERVED_213"@)[5] == 'S' && ("KC_RESERVED_213"@)[6] == 'E' && ("KC_RESERVED_213"@)[7] == 'R' && ("KC_RESERVED_213"@)[8] == 'V' && ("KC_RESERVED_213"@)[9] == 'E' && ("KC_RESERVED_213"@)[10] == 'D' && ("KC_RESERVED_213"@)[11] == '_' && ("KC_RESERVED_213"@)[12] == '2' && ("KC_RESERVED_213"@)[13] == '1' && ("KC_RESERVED_213"@)[14] == '3',
        ("KC_RESERVED_214"@).len() == 15 && ("KC_RESERVED_214"@)[0] == 'K' && ("KC_RESERVED_214"@)[1] == 'C' && ("KC_RESERVED_214"@)[2] == '_' && ("KC_RESERVED_214"@)[3] == 'R' && ("KC_RESERVED_214"@)[4] == 'E' && ("KC_RESERVED_214"@)[5] == 'S' && ("KC_RESERVED_214"@)[6] == 'E' && ("KC_RESERVED_214"@)[7] == 'R' && ("KC_RESERVED_214"@)[8] == 'V' && ("KC_RESERVED_214"@)[9] == 'E' && ("KC_RESERVED_214"@)[10] == 'D' && ("KC_RESERVED_214"@)[11] == '_' && ("KC_RESERVED_214"@)[12] == '2' && ("KC_RESERVED_214"@)[13] == '1' && ("KC_RESERVED_214"@)[14] == '4',
        ("KC_RESERVED_215"@).len() == 15 && ("KC_RESERVED_215"@)[0] == 'K' && ("KC_RESERVED_215"@)[1] == 'C' && ("KC_RESERVED_215"@)[2] == '_' && ("KC_RESERVED_215"@)[3] == 'R' && ("KC_RESERVED_215"@)[4] == 'E' && ("KC_RESERVED_215"@)[5] == 'S' && ("KC_RESERVED_215"@)[6] == 'E' && ("KC_RESERVED_215"@)[7] == 'R' && ("KC_RESERVED_215"@)[8] == 'V' && ("KC_RESERVED_215"@)[9] == 'E' && ("KC_RESERVED_215"@)[10] == 'D' && ("KC_RESERVED_215"@)[11] == '_' && ("KC_RESERVED_215"@)[12] == '2' && ("KC_RESERVED_215"@)[13] == '1' && ("KC_RESERVED_215"@)[14] == '5',
        ("KC_RESERVED_216"@).len() == 15 && ("KC_RESERVED_216"@)[0] == 'K' && ("KC_RESERVED_216"@)[1] == 'C' && ("KC_RESERVED_216"@)[2] == '_' && ("KC_RESERVED_216"@)[3] == 'R' && ("KC_RESERVED_216"@)[4] == 'E' && ("KC_RESERVED_216"@)[5] == 'S' && ("KC_RESERVED_216"@)[6] == 'E' && ("KC_RESERVED_216"@)[7] == 'R' && ("KC_RESERVED_216"@)[8] == 'V' && ("KC_RESERVED_216"@)[9] == 'E' && ("KC_RESERVED_216"@)[10] == 'D' && ("KC_RESERVED_216"@)[11] == '_' && ("KC_RESERVED_216"@)[12] == '2' && ("KC_RESERVED_216"@)[13] == '1' && ("KC_RESERVED_216"@)[14] == '6',
        ("KC_RESERVED_217"@).len() == 15 && ("KC_RESERVED_217"@)[0] == 'K' && ("KC_RESERVED_217"@)[1] == 'C' && ("KC_RESERVED_217"@)[2] == '_' && ("KC_RESERVED_217"@)[3] == 'R' && ("KC_RESERVED_217"@)[4] == 'E' && ("KC_RESERVED_217"@)[5] == 'S' && ("KC_RESERVED_217"@)[6] == 'E' && ("KC_RESERVED_217"@)[7] == 'R' && ("KC_RESERVED_217"@)[8] == 'V' && ("KC_RESERVED_217"@)[9] == 'E' && ("KC_RESERVED_217"@)[10] == 'D' && ("KC_RESERVED_217"@)[11] == '_' && ("KC_RESERVED_217"@)[12] == '2' && ("KC_RESERVED_217"@)[13] == '1' && ("KC_RESERVED_217"@)[14] == '7',
        ("KC_RESERVED_218"@).len() == 15 && ("KC_RESERVED_218"@)[0] == 'K' && ("KC_RESERVED_218"@)[1] == 'C' && ("KC_RESERVED_218"@)[2] == '_' && ("KC_RESERVED_218"@)[3] == 'R' && ("KC_RESERVED_218"@)[4] == 'E' && ("KC_RESERVED_218"@)[5] == 'S' && ("KC_RESERVED_218"@)[6] == 'E' && ("KC_RESERVED_218"@)[7] == 'R' && ("KC_RESERVED_218"@)[8] == 'V' && ("KC_RESERVED_218"@)[9] == 'E' && ("KC_RESERVED_218"@)[10] == 'D' && ("KC_RESERVED_218"@)[11] == '_' && ("KC_RESERVED_218"@)[12] == '2' && ("KC_RESERVED_218"@)[13] == '1' && ("KC_RESERVED_218"@)[14] == '8',
        ("KC_RESERVED_219"@).len() == 15 && ("KC_RESERVED_219"@)[0] == 'K' && ("KC_RESERVED_219"@)[1] == 'C' && ("KC_RESERVED_219"@)[2] == '_' && ("KC_RESERVED_219"@)[3] == 'R' && ("KC_RESERVED_219"@)[4] == 'E' && ("KC_RESERVED_219"@)[5] == 'S' && ("KC_RESERVED_219"@)[6] == 'E' && ("KC_RESERVED_219"@)[7] == 'R' && ("KC_RESERVED_219"@)[8] == 'V' && ("KC_RESERVED_219"@)[9] == 'E' && ("KC_RESERVED_219"@)[10] == 'D' && ("KC_RESERVED_219"@)[11] == '_' && ("KC_RESERVED_219"@)[12] == '2' && ("KC_RESERVED_219"@)[13] == '1' && ("KC_RESERVED_219"@)[14] == '9',
        ("KC_RESERVED_220"@).len() == 15 && ("KC_RESERVED_220"@)[0] == 'K' && ("KC_RESERVED_220"@)[1] == 'C' && ("KC_RESERVED_220"@)[2] == '_' && ("KC_RESERVED_220"@)[3] == 'R' && ("KC_RESERVED_220"@)[4] == 'E' && ("KC_RESERVED_220"@)[5] == 'S' && ("KC_RESERVED_220"@)[6] == 'E' && ("KC_RESERVED_220"@)[7] == 'R' && ("KC_RESERVED_220"@)[8] == 'V' && ("KC_RESERVED_220"@)[9] == 'E' && ("KC_RESERVED_220"@)[10] == 'D' && ("KC_RESERVED_220"@)[11] == '_' && ("KC_RESERVED_220"@)[12] == '2' && ("KC_RESERVED_220"@)[13] == '2' && ("KC_RESERVED_220"@)[14] == '0',
        ("KC_RESERVED_221"@).len() == 15 && ("KC_RESERVED_221"@)[0] == 'K' && ("KC_RESERVED_221"@)[1] == 'C' && ("KC_RESERVED_221"@)[2] == '_' && ("KC_RESERVED_221"@)[3] == 'R' && ("KC_RESERVED_221"@)[4] == 'E' && ("KC_RESERVED_221"@)[5] == 'S' && ("KC_RESERVED_221"@)[6] == 'E' && ("KC_RESERVED_221"@)[7] == 'R' && ("KC_RESERVED_221"@)[8] == 'V' && ("KC_RESERVED_221"@)[9] == 'E' && ("KC_RESERVED_221"@)[10] == 'D' && ("KC_RESERVED_221"@)[11] == '_' && ("KC_RESERVED_221"@)[12] == '2' && ("KC_RESERVED_221"@)[13] == '2' && ("KC_RESERVED_221"@)[14] == '1',
        ("KC_RESERVED_222"@).len() == 15 && ("KC_RESERVED_222"@)[0] == 'K' && ("KC_RESERVED_222"@)[1] == 'C' && ("KC_RESERVED_222"@)[2] == '_' && ("KC_RESERVED_222"@)[3] == 'R' && ("KC_RESERVED_222"@)[4] == 'E' && ("KC_RESERVED_222"@)[5] == 'S' && ("KC_RESERVED_222"@)[6] == 'E' && ("KC_RESERVED_222"@)[7] == 'R' && ("KC_RESERVED_222"@)[8] == 'V' && ("KC_RESERVED_222"@)[9] == 'E' && ("KC_RESERVED_222"@)[10] == 'D' && ("KC_RESERVED_222"@)[11] == '_' && ("KC_RESERVED_222"@)[12] == '2' && ("KC_RESERVED_222"@)[13] == '2' && ("KC_RESERVED_222"@)[14] == '2',
        ("KC_RESERVED_223"@).len() == 15 && ("KC_RESERVED_223"@)[0] == 'K' && ("KC_RESERVED_223"@)[1] == 'C' && ("KC_RESERVED_223"@)[2] == '_' && ("KC_RESERVED_223"@)[3] == 'R' && ("KC_RESERVED_223"@)[4] == 'E' && ("KC_RESERVED_223"@)[5] == 'S' && ("KC_RESERVED_223"@)[6] == 'E' && ("KC_RESERVED_223"@)[7] == 'R' && ("KC_RESERVED_223"@)[8] == 'V' && ("KC_RESERVED_223"@)[9] == 'E' && ("KC_RESERVED_223"@)[10] == 'D' && ("KC_RESERVED_223"@)[11] == '_' && ("KC_RESERVED_223"@)[12] == '2' && ("KC_RESERVED_223"@)[13] == '2' && ("KC_RESERVED_223"@)[14] == '3',
{
    reveal_strlit("KC_RESERVED_208");
    reveal_strlit("KC_RESERVED_209");
    reveal_strlit("KC_RESERVED_210");
    reveal_strlit("KC_RESERVED_211");
    reveal_strlit("KC_RESERVED_212");
    reveal_strlit("KC_RESERVED_213");
    reveal_strlit("KC_RESERVED_214");
    reveal_strlit("KC_RESERVED_215");
    reveal_strlit("KC_RESERVED_216");
    reveal_strlit("KC_RESERVED_217");
    reveal_strlit("KC_RESERVED_218");
    reveal_strlit("KC_RESERVED_219");
    reveal_strlit("KC_RESERVED_220");
    reveal_strlit("KC_RESERVED_221");
    reveal_strlit("KC_RESERVED_222");
    reveal_strlit("KC_RESERVED_223");
    assert(("KC_RESERVED_208"@).len() == 15);
    assert(("KC_RESERVED_208"@)[0] == 'K');
    assert(("KC_RESERVED_208"@)[1] == 'C');
    assert(("KC_RESERVED_208"@)[2] == '_');
    assert(("KC_RESERVED_208"@)[3] == 'R');
    assert(("KC_RESERVED_208"@)[4] == 'E');
    assert(("KC_RESERVED_208"@)[5] == 'S');
    assert(("KC_RESERVED_208"@)[6] == 'E');
    assert(("KC_RESERVED_208"@)[7] == 'R');
    assert(("KC_RESERVED_208"@)[8] == 'V');
    assert(("KC_RESERVED_208"@)[9] == 'E');
    assert(("KC_RESERVED_208"@)[10] == 'D');
    assert(("KC_RESERVED_208"@)[11] == '_');
    assert(("KC_RESERVED_208"@)[12] == '2');
    assert(("KC_RESERVED_208"@)[13] == '0');
    assert(("KC_RESERVED_208"@)[14] == '8');
    assert(("KC_RESERVED_209"@).len() == 15);
    assert(("KC_RESERVED_209"@)[0] == 'K');
    assert(("KC_RESERVED_209"@)[1] == 'C');
    assert(("KC_RESERVED_209"@)[2] == '_');
    assert(("KC_RESERVED_209"@)[3] == 'R');
    assert(("KC_RESERVED_209"@)[4] == 'E');
    assert(("KC_RESERVED_209"@)[5] == 'S');
    assert(("KC_RESERVED_209"@)[6] == 'E');
    assert(("KC_RESERVED_209"@)[7] == 'R');
    assert(("KC_RESERVED_209"@)[8] == 'V');
    assert(("KC_RESERVED_209"@)[9] == 'E');
    assert(("KC_RESERVED_209"@)[10] == 'D');
    assert(("KC_RESERVED_209"@)[11] == '_');
    assert(("KC_RESERVED_209"@)[12] == '2');
    assert(("KC_RESERVED_209"@)[13] == '0');
    assert(("KC_RESERVED_209"@)[14] == '9');
    assert(("KC_RESERVED_210"@).len() == 15);
    assert(("KC_RESERVED_210"@)[0] == 'K');
    assert(("KC_RESERVED_210"@)[1] == 'C');
    assert(("KC_RESERVED_210"@)[2] == '_');
    assert(("KC_RESERVED_210"@)[3] == 'R');
    assert(("KC_RESERVED_210"@)[4] == 'E');
    assert(("KC_RESERVED_210"@)[5] == 'S');
    assert(("KC_RESERVED_210"@)[6] == 'E');
    assert(("KC_RESERVED_210"@)[7] == 'R');
    assert(("KC_RESERVED_210"@)[8] == 'V');
    assert(("KC_RESERVED_210"@)[9] == 'E');
    assert(("KC_RESERVED_210"@)[10] == 'D');
    assert(("KC_RESERVED_210"@)[11] == '_');
    assert(("KC_RESERVED_210"@)[12] == '2');
    assert(("KC_RESERVED_210"@)[13] == '1');
    assert(("KC_RESERVED_210"@)[14] == '0');
    assert(("KC_RESERVED_211"@).len() == 15);
    assert(("KC_RESERVED_211"@)[0] == 'K');
    assert(("KC_RESERVED_211"@)[1] == 'C');
    assert(("KC_RESERVED_211"@)[2] == '_');
    assert(("KC_RESERVED_211"@)[3] == 'R');
    assert(("KC_RESERVED_211"@)[4] == 'E');
    assert(("KC_RESERVED_211"@)[5] == 'S');
    assert(("KC_RESERVED_211"@)[6] == 'E');
    assert(("KC_RESERVED_211"@)[7] == 'R');
    assert(("KC_RESERVED_211"@)[8] == 'V');
    assert(("KC_RESERVED_211"@)[9] == 'E');
    assert(("KC_RESERVED_211"@)[10] == 'D');
    assert(("KC_RESERVED_211"@)[11] == '_');
    assert(("KC_RESERVED_211"@)[12] == '2');
    assert(("KC_RESERVED_211"@)[13] == '1');
    assert(("KC_RESERVED_211"@)[14] == '1');
    assert(("KC_RESERVED_212"@).len() == 15);
    assert(("KC_RESERVED_212"@)[0] == 'K');
    assert(("KC_RESERVED_212"@)[1] == 'C');
    assert(("KC_RESERVED_212"@)[2] == '_');
    assert(("KC_RESERVED_212"@)[3] == 'R');
    assert(("KC_RESERVED_212"@)[4] == 'E');
    assert(("KC_RESERVED_212"@)[5] == 'S');
    assert(("KC_RESERVED_212"@)[6] == 'E');
    assert(("KC_RESERVED_212"@)[7] == 'R');
    assert(("KC_RESERVED_212"@)[8] == 'V');
    assert(("KC_RESERVED_212"@)[9] == 'E');
    assert(("KC_RESERVED_212"@)[10] == 'D');
    assert(("KC_RESERVED_212"@)[11] == '_');
    assert(("KC_RESERVED_212"@)[12] == '2');
    assert(("KC_RESERVED_212"@)[13] == '1');
    assert(("KC_RESERVED_212"@)[14] == '2');
    assert(("KC_RESERVED_213"@).len() == 15);
    assert(("KC_RESERVED_213"@)[0] == 'K');
    assert(("KC_RESERVED_213"@)[1] == 'C');
    assert(("KC_RESERVED_213"@)[2] == '_');
    assert(("KC_RESERVED_213"@)[3] == 'R');
    assert(("KC_RESERVED_213"@)[4] == 'E');
    assert(("KC_RESERVED_213"@)[5] == 'S');
    assert(("KC_RESERVED_213"@)[6] == 'E');
    assert(("KC_RESERVED_213"@)[7] == 'R');
    assert(("KC_RESERVED_213"@)[8] == 'V');
    assert(("KC_RESERVED_213"@)[9] == 'E');
    assert(("KC_RESERVED_213"@)[10] == 'D');
    assert(("KC_RESERVED_213"@)[11] == '_');
    assert(("KC_RESERVED_213"@)[12] == '2');
    assert(("KC_RESERVED_213"@)[13] == '1');
    assert(("KC_RESERVED_213"@)[14] == '3');
    assert(("KC_RESERVED_214"@).len() == 15);
    assert(("KC_RESERVED_214"@)[0] == 'K');
    assert(("KC_RESERVED_214"@)[1] == 'C');
    assert(("KC_RESERVED_214"@)[2] == '_');
    assert(("KC_RESERVED_214"@)[3] == 'R');
    assert(("KC_RESERVED_214"@)[4] == 'E');
    assert(("KC_RESERVED_214"@)[5] == 'S');
    assert(("KC_RESERVED_214"@)[6] == 'E');
    assert(("KC_RESERVED_214"@)[7] == 'R');
    assert(("KC_RESERVED_214"@)[8] == 'V');
    assert(("KC_RESERVED_214"@)[9] == 'E');
    assert(("KC_RESERVED_214"@)[10] == 'D');
    assert(("KC_RESERVED_214"@)[11] == '_');
    assert(("KC_RESERVED_214"@)[12] == '2');
    assert(("KC_RESERVED_214"@)[13] == '1');
    assert(("KC_RESERVED_214"@)[14] == '4');
    assert(("KC_RESERVED_215"@).len() == 15);
    assert(("KC_RESERVED_215"@)[0] == 'K');
    assert(("KC_RESERVED_215"@)[1] == 'C');
    assert(("KC_RESERVED_215"@)[2] == '_');
    assert(("KC_RESERVED_215"@)[3] == 'R');
    assert(("KC_RESERVED_215"@)[4] == 'E');
    assert(("KC_RESERVED_215"@)[5] == 'S');
    assert(("KC_RESERVED_215"@)[6] == 'E');
    assert(("KC_RESERVED_215"@)[7] == 'R');
    assert(("KC_RESERVED_215"@)[8] == 'V');
    assert(("KC_RESERVED_215"@)[9] == 'E');
    assert(("KC_RESERVED_215"@)[10] == 'D');
    assert(("KC_RESERVED_215"@)[11] == '_');
    assert(("KC_RESERVED_215"@)[12] == '2');
    assert(("KC_RESERVED_215"@)[13] == '1');
    assert(("KC_RESERVED_215"@)[14] == '5');
    assert(("KC_RESERVED_216"@).len() == 15);
    assert(("KC_RESERVED_216"@)[0] == 'K');
    assert(("KC_RESERVED_216"@)[1] == 'C');
    assert(("KC_RESERVED_216"@)[2] == '_');
    assert(("KC_RESERVED_216"@)[3] == 'R');
    assert(("KC_RESERVED_216"@)[4] == 'E');
    assert(("KC_RESERVED_216"@)[5] == 'S');
    assert(("KC_RESERVED_216"@)[6] == 'E');
    assert(("KC_RESERVED_216"@)[7] == 'R');
    assert(("KC_RESERVED_216"@)[8] == 'V');
    assert(("KC_RESERVED_216"@)[9] == 'E');
    assert(("KC_RESERVED_216"@)[10] == 'D');
    assert(("KC_RESERVED_216"@)[11] == '_');
    assert(("KC_RESERVED_216"@)[12] == '2');
    assert(("KC_RESERVED_216"@)[13] == '1');
    assert(("KC_RESERVED_216"@)[14] == '6');
    assert(("KC_RESERVED_217"@).len() == 15);
    assert(("KC_RESERVED_217"@)[0] == 'K');
    assert(("KC_RESERVED_217"@)[1] == 'C');
    assert(("KC_RESERVED_217"@)[2] == '_');
    assert(("KC_RESERVED_217"@)[3] == 'R');
    assert(("KC_RESERVED_217"@)[4] == 'E');
    assert(("KC_RESERVED_217"@)[5] == 'S');
    assert(("KC_RESERVED_217"@)[6] == 'E');
    assert(("KC_RESERVED_217"@)[7] == 'R');
    assert(("KC_RESERVED_217"@)[8] == 'V');
    assert(("KC_RESERVED_217"@)[9] == 'E');
    assert(("KC_RESERVED_217"@)[10] == 'D');
    assert(("KC_RESERVED_217"@)[11] == '_');
    assert(("KC_RESERVED_217"@)[12] == '2');
    assert(("KC_RESERVED_217"@)[13] == '1');
    assert(("KC_RESERVED_217"@)[14] == '7');
    assert(("KC_RESERVED_218"@).len() == 15);
    assert(("KC_RESERVED_218"@)[0] == 'K');
    assert(("KC_RESERVED_218"@)[1] == 'C');
    assert(("KC_RESERVED_218"@)[2] == '_');
    assert(("KC_RESERVED_218"@)[3] == 'R');
    assert(("KC_RESERVED_218"@)[4] == 'E');
    assert(("KC_RESERVED_218"@)[5] == 'S');
    assert(("KC_RESERVED_218"@)[6] == 'E');
    assert(("KC_RESERVED_218"@)[7] == 'R');
    assert(("KC_RESERVED_218"@)[8] == 'V');
    assert(("KC_RESERVED_218"@)[9] == 'E');
    assert(("KC_RESERVED_218"@)[10] == 'D');
    assert(("KC_RESERVED_218"@)[11] == '_');
    assert(("KC_RESERVED_218"@)[12] == '2');
    assert(("KC_RESERVED_218"@)[13] == '1');
    assert(("KC_RESERVED_218"@)[14] == '8');
    assert(("KC_RESERVED_219"@).len() == 15);
    assert(("KC_RESERVED_219"@)[0] == 'K');
    assert(("KC_RESERVED_219"@)[1] == 'C');
    assert(("KC_RESERVED_219"@)[2] == '_');
    assert(("KC_RESERVED_219"@)[3] == 'R');
    assert(("KC_RESERVED_219"@)[4] == 'E');
    assert(("KC_RESERVED_219"@)[5] == 'S');
    assert(("KC_RESERVED_219"@)[6] == 'E');
    assert(("KC_RESERVED_219"@)[7] == 'R');
    assert(("KC_RESERVED_219"@)[8] == 'V');
    assert(("KC_RESERVED_219"@)[9] == 'E');
    assert(("KC_RESERVED_219"@)[10] == 'D');
    assert(("KC_RESERVED_219"@)[11] == '_');
    assert(("KC_RESERVED_219"@)[12] == '2');
    assert(("KC_RESERVED_219"@)[13] == '1');
    assert(("KC_RESERVED_219"@)[14] == '9');
    assert(("KC_RESERVED_220"@).len() == 15);
    assert(("KC_RESERVED_220"@)[0] == 'K');
    assert(("KC_RESERVED_220"@)[1] == 'C');
    assert(("KC_RESERVED_220"@)[2] == '_');
    assert(("KC_RESERVED_220"@)[3] == 'R');
    assert(("KC_RESERVED_220"@)[4] == 'E');
    assert(("KC_RESERVED_220"@)[5] == 'S');
    assert(("KC_RESERVED_220"@)[6] == 'E');
    assert(("KC_RESERVED_220"@)[7] == 'R');
    assert(("KC_RESERVED_220"@)[8] == 'V');
    assert(("KC_RESERVED_220"@)[9] == 'E');
    assert(("KC_RESERVED_220"@)[10] == 'D');
    assert(("KC_RESERVED_220"@)[11] == '_');
    assert(("KC_RESERVED_220"@)[12] == '2');
    assert(("KC_RESERVED_220"@)[13] == '2');
    assert(("KC_RESERVED_220"@)[14] == '0');
    assert(("KC_RESERVED_221"@).len() == 15);
    assert(("KC_RESERVED_221"@)[0] == 'K');
    assert(("KC_RESERVED_221"@)[1] == 'C');
    assert(("KC_RESERVED_221"@)[2] == '_');
    assert(("KC_RESERVED_221"@)[3] == 'R');
    assert(("KC_RESERVED_221"@)[4] == 'E');
    assert(("KC_RESERVED_221"@)[5] == 'S');
    assert(("KC_RESERVED_221"@)[6] == 'E');
    assert(("KC_RESERVED_221"@)[7] == 'R');
    assert(("KC_RESERVED_221"@)[8] == 'V');
    assert(("KC_RESERVED_221"@)[9] == 'E');
    assert(("KC_RESERVED_221"@)[10] == 'D');
    assert(("KC_RESERVED_221"@)[11] == '_');
    assert(("KC_RESERVED_221"@)[12] == '2');
    assert(("KC_RESERVED_221"@)[13] == '2');
    assert(("KC_RESERVED_221"@)[14] == '1');
    assert(("KC_RESERVED_222"@).len() == 15);
    assert(("KC_RESERVED_222"@)[0] == 'K');
    assert(("KC_RESERVED_222"@)[1] == 'C');
    assert(("KC_RESERVED_222"@)[2] == '_');
    assert(("KC_RESERVED_222"@)[3] == 'R');
    assert(("KC_RESERVED_222"@)[4] == 'E');
    assert(("KC_RESERVED_222"@)[5] == 'S');
    assert(("KC_RESERVED_222"@)[6] == 'E');
    assert(("KC_RESERVED_222"@)[7] == 'R');
    assert(("KC_RESERVED_222"@)[8] == 'V');
    assert(("KC_RESERVED_222"@)[9] == 'E');
    assert(("KC_RESERVED_222"@)[10] == 'D');
    assert(("KC_RESERVED_222"@)[11] == '_');
    assert(("KC_RESERVED_222"@)[12] == '2');
    assert(("KC_RESERVED_222"@)[13] == '2');
    assert(("KC_RESERVED_222"@)[14] == '2');
    assert(("KC_RESERVED_223"@).len() == 15);
    assert(("KC_RESERVED_223"@)[0] == 'K');
    assert(("KC_RESERVED_223"@)[1] == 'C');
    assert(("KC_RESERVED_223"@)[2] == '_');
    assert(("KC_RESERVED_223"@)[3] == 'R');
    assert(("KC_RESERVED_223"@)[4] == 'E');
    assert(("KC_RESERVED_223"@)[5] == 'S');
    assert(("KC_RESERVED_223"@)[6] == 'E');
    assert(("KC_RESERVED_223"@)[7] == 'R');
    assert(("KC_RESERVED_223"@)[8] == 'V');
    assert(("KC_RESERVED_223"@)[9] == 'E');
    assert(("KC_RESERVED_223"@)[10] == 'D');
    assert(("KC_RESERVED_223"@)[11] == '_');
    assert(("KC_RESERVED_223"@)[12] == '2');
    assert(("KC_RESERVED_223"@)[13] == '2');
    assert(("KC_RESERVED_223"@)[14] == '3');
}

proof fn lemma_name_facts_block_14()
    ensures
        ("KC_LEFT_CTRL"@).len() == 12 && ("KC_LEFT_CTRL"@)[0] == 'K' && ("KC_LEFT_CTRL"@)[1] == 'C' && ("KC_LEFT_CTRL"@)[2] == '_' && ("KC_LEFT_CTRL"@)[3] == 'L' && ("KC_LEFT_CTRL"@)[4] == 'E' && ("KC_LEFT_CTRL"@)[5] == 'F' && ("KC_LEFT_CTRL"@)[6] == 'T' && ("KC_LEFT_CTRL"@)[7] == '_' && ("KC_LEFT_CTRL"@)[8] == 'C' && ("KC_LEFT_CTRL"@)[9] == 'T' && ("KC_LEFT_CTRL"@)[10] == 'R' && ("KC_LEFT_CTRL"@)[11] == 'L',
        ("KC_LEFT_SHIFT"@).len() == 13 && ("KC_LEFT_SHIFT"@)[0] == 'K' && ("KC_LEFT_SHIFT"@)[1] == 'C' && ("KC_LEFT_SHIFT"@)[2] == '_' && ("KC_LEFT_SHIFT"@)[3] == 'L' && ("KC_LEFT_SHIFT"@)[4] == 'E' && ("KC_LEFT_SHIFT"@)[5] == 'F' && ("KC_LEFT_SHIFT"@)[6] == 'T' && ("KC_LEFT_SHIFT"@)[7] == '_' && ("KC_LEFT_SHIFT"@)[8] == 'S' && ("KC_LEFT_SHIFT"@)[9] == 'H' && ("KC_LEFT_SHIFT"@)[10] == 'I' && ("KC_LEFT_SHIFT"@)[11] == 'F' && ("KC_LEFT_SHIFT"@)[12] == 'T',
        ("KC_LEFT_ALT"@).len() == 11 && ("KC_LEFT_ALT"@)[0] == 'K' && ("KC_LEFT_ALT"@)[1] == 'C' && ("KC_LEFT_ALT"@)[2] == '_' && ("KC_LEFT_ALT"@)[3] == 'L' && ("KC_LEFT_ALT"@)[4] == 'E' && ("KC_LEFT_ALT"@)[5] == 'F' && ("KC_LEFT_ALT"@)[6] == 'T' && ("KC_LEFT_ALT"@)[7] == '_' && ("KC_LEFT_ALT"@)[8] == 'A' && ("KC_LEFT_ALT"@)[9] == 'L' && ("KC_LEFT_ALT"@)[10] == 'T',
        ("KC_LEFT_GUI"@).len() == 11 && ("KC_LEFT_GUI"@)[0] == 'K' && ("KC_LEFT_GUI"@)[1] == 'C' && ("KC_LEFT_GUI"@)[2] == '_' && ("KC_LEFT_GUI"@)[3] == 'L' && ("KC_LEFT_GUI"@)[4] == 'E' && ("KC_LEFT_GUI"@)[5] == 'F' && ("KC_LEFT_GUI"@)[6] == 'T' && ("KC_LEFT_GUI"@)[7] == '_' && ("KC_LEFT_GUI"@)[8] == 'G' && ("KC_LEFT_GUI"@)[9] == 'U' && ("KC_LEFT_GUI"@)[10] == 'I',
        ("KC_RIGHT_CTRL"@).len() == 13 && ("KC_RIGHT_CTRL"@)[0] == 'K' && ("KC_RIGHT_CTRL"@)[1] == 'C' && ("KC_RIGHT_CTRL"@)[2] == '_' && ("KC_RIGHT_CTRL"@)[3] == 'R' && ("KC_RIGHT_CTRL"@)[4] == 'I' && ("KC_RIGHT_CTRL"@)[5] == 'G' && ("KC_RIGHT_CTRL"@)[6] == 'H' && ("KC_RIGHT_CTRL"@)[7] == 'T' && ("KC_RIGHT_CTRL"@)[8] == '_' && ("KC_RIGHT_CTRL"@)[9] == 'C' && ("KC_RIGHT_CTRL"@)[10] == 'T' && ("KC_RIGHT_CTRL"@)[11] == 'R' && ("KC_RIGHT_CTRL"@)[12] == 'L',
        ("KC_RIGHT_SHIFT"@).len() == 14 && ("KC_RIGHT_SHIFT"@)[0] == 'K' && ("KC_RIGHT_SHIFT"@)[1] == 'C' && ("KC_RIGHT_SHIFT"@)[2] == '_' && ("KC_RIGHT_SHIFT"@)[3] == 'R' && ("KC_RIGHT_SHIFT"@)[4] == 'I' && ("KC_RIGHT_SHIFT"@)[5] == 'G' && ("KC_RIGHT_SHIFT"@)[6] == 'H' && ("KC_RIGHT_SHIFT"@)[7] == 'T' && ("KC_RIGHT_SHIFT"@)[8] == '_' && ("KC_RIGHT_SHIFT"@)[9] == 'S' && ("KC_RIGHT_SHIFT"@)[10] == 'H' && ("KC_RIGHT_SHIFT"@)[11] == 'I' && ("KC_RIGHT_SHIFT"@)[12] == 'F' && ("KC_RIGHT_SHIFT"@)[13] == 'T',
        ("KC_RIGHT_ALT"@).len() == 12 && ("KC_RIGHT_ALT"@)[0] == 'K' && ("KC_RIGHT_ALT"@)[1] == 'C' && ("KC_RIGHT_ALT"@)[2] == '_' && ("KC_RIGHT_ALT"@)[3] == 'R' && ("KC_RIGHT_ALT"@)[4] == 'I' && ("KC_RIGHT_ALT"@)[5] == 'G' && ("KC_RIGHT_ALT"@)[6] == 'H' && ("KC_RIGHT_ALT"@)[7] == 'T' && ("KC_RIGHT_ALT"@)[8] == '_' && ("KC_RIGHT_ALT"@)[9] == 'A' && ("KC_RIGHT_ALT"@)[10] == 'L' && ("KC_RIGHT_ALT"@)[11] == 'T',
        ("KC_RIGHT_GUI"@).len() == 12 && ("KC_RIGHT_GUI"@)[0] == 'K' && ("KC_RIGHT_GUI"@)[1] == 'C' && ("KC_RIGHT_GUI"@)[2] == '_' && ("KC_RIGHT_GUI"@)[3] == 'R' && ("KC_RIGHT_GUI"@)[4] == 'I' && ("KC_RIGHT_GUI"@)[5] == 'G' && ("KC_RIGHT_GUI"@)[6] == 'H' && ("KC_RIGHT_GUI"@)[7] == 'T' && ("KC_RIGHT_GUI"@)[8] == '_' && ("KC_RIGHT_GUI"@)[9] == 'G' && ("KC_RIGHT_GUI"@)[10] == 'U' && ("KC_RIGHT_GUI"@)[11] == 'I',
        ("KC_RESERVED_232"@).len() == 15 && ("KC_RESERVED_232"@)[0] == 'K' && ("KC_RESERVED_232"@)[1] == 'C' && ("KC_RESERVED_232"@)[2] == '_' && ("KC_RESERVED_232"@)[3] == 'R' && ("KC_RESERVED_232"@)[4] == 'E' && ("KC_RESERVED_232"@)[5] == 'S' && ("KC_RESERVED_232"@)[6] == 'E' && ("KC_RESERVED_232"@)[7] == 'R' && ("KC_RESERVED_232"@)[8] == 'V' && ("KC_RESERVED_232"@)[9] == 'E' && ("KC_RESERVED_232"@)[10] == 'D' && ("KC_RESERVED_232"@)[11] == '_' && ("KC_RESERVED_232"@)[12] == '2' && ("KC_RESERVED_232"@)[13] == '3' && ("KC_RESERVED_232"@)[14] == '2',
        ("KC_RESERVED_233"@).len() == 15 && ("KC_RESERVED_233"@)[0] == 'K' && ("KC_RESERVED_233"@)[1] == 'C' && ("KC_RESERVED_233"@)[2] == '_' && ("KC_RESERVED_233"@)[3] == 'R' && ("KC_RESERVED_233"@)[4] == 'E' && ("KC_RESERVED_233"@)[5] == 'S' && ("KC_RESERVED_233"@)[6] == 'E' && ("KC_RESERVED_233"@)[7] == 'R' && ("KC_RESERVED_233"@)[8] == 'V' && ("KC_RESERVED_233"@)[9] == 'E' && ("KC_RESERVED_233"@)[10] == 'D' && ("KC_RESERVED_233"@)[11] == '_' && ("KC_RESERVED_233"@)[12] == '2' && ("KC_RESERVED_233"@)[13] == '3' && ("KC_RESERVED_233"@)[14] == '3',
        ("KC_RESERVED_234"@).len() == 15 && ("KC_RESERVED_234"@)[0] == 'K' && ("KC_RESERVED_234"@)[1] == 'C' && ("KC_RESERVED_234"@)[2] == '_' && ("KC_RESERVED_234"@)[3] == 'R' && ("KC_RESERVED_234"@)[4] == 'E' && ("KC_RESERVED_234"@)[5] == 'S' && ("KC_RESERVED_234"@)[6] == 'E' && ("KC_RESERVED_234"@)[7] == 'R' && ("KC_RESERVED_234"@)[8] == 'V' && ("KC_RESERVED_234"@)[9] == 'E' && ("KC_RESERVED_234"@)[10] == 'D' && ("KC_RESERVED_234"@)[11] == '_' && ("KC_RESERVED_234"@)[12] == '2' && ("KC_RESERVED_234"@)[13] == '3' && ("KC_RESERVED_234"@)[14] == '4',
        ("KC_RESERVED_235"@).len() == 15 && ("KC_RESERVED_235"@)[0] == 'K' && ("KC_RESERVED_235"@)[1] == 'C' && ("KC_RESERVED_235"@)[2] == '_' && ("KC_RESERVED_235"@)[3] == 'R' && ("KC_RESERVED_235"@)[4] == 'E' && ("KC_RESERVED_235"@)[5] == 'S' && ("KC_RESERVED_235"@)[6] == 'E' && ("KC_RESERVED_235"@)[7] == 'R' && ("KC_RESERVED_235"@)[8] == 'V' && ("KC_RESERVED_235"@)[9] == 'E' && ("KC_RESERVED_235"@)[10] == 'D' && ("KC_RESERVED_235"@)[11] == '_' && ("KC_RESERVED_235"@)[12] == '2' && ("KC_RESERVED_235"@)[13] == '3' && ("KC_RESERVED_235"@)[14] == '5',
        ("KC_RESERVED_236"@).len() == 15 && ("KC_RESERVED_236"@)[0] == 'K' && ("KC_RESERVED_236"@)[1] == 'C' && ("KC_RESERVED_236"@)[2] == '_' && ("KC_RESERVED_236"@)[3] == 'R' && ("KC_RESERVED_236"@)[4] == 'E' && ("KC_RESERVED_236"@)[5] == 'S' && ("KC_RESERVED_236"@)[6] == 'E' && ("KC_RESERVED_236"@)[7] == 'R' && ("KC_RESERVED_236"@)[8] == 'V' && ("KC_RESERVED_236"@)[9] == 'E' && ("KC_RESERVED_236"@)[10] == 'D' && ("KC_RESERVED_236"@)[11] == '_' && ("KC_RESERVED_236"@)[12] == '2' && ("KC_RESERVED_236"@)[13] == '3' && ("KC_RESERVED_236"@)[14] == '6',
        ("KC_RESERVED_237"@).len() == 15 && ("KC_RESERVED_237"@)[0] == 'K' && ("KC_RESERVED_237"@)[1] == 'C' && ("KC_RESERVED_237"@)[2] == '_' && ("KC_RESERVED_237"@)[3] == 'R' && ("KC_RESERVED_237"@)[4] == 'E' && ("KC_RESERVED_237"@)[5] == 'S' && ("KC_RESERVED_237"@)[6] == 'E' && ("KC_RESERVED_237"@)[7] == 'R' && ("KC_RESERVED_237"@)[8] == 'V' && ("KC_RESERVED_237"@)[9] == 'E' && ("KC_RESERVED_237"@)[10] == 'D' && ("KC_RESERVED_237"@)[11] == '_' && ("KC_RESERVED_237"@)[12] == '2' && ("KC_RESERVED_237"@)[13] == '3' && ("KC_RESERVED_237"@)[14] == '7',
        ("KC_RESERVED_238"@).len() == 15 && ("KC_RESERVED_238"@)[0] == 'K' && ("KC_RESERVED_238"@)[1] == 'C' && ("KC_RESERVED_238"@)[2] == '_' && ("KC_RESERVED_238"@)[3] == 'R' && ("KC_RESERVED_238"@)[4] == 'E' && ("KC_RESERVED_238"@)[5] == 'S' && ("KC_RESERVED_238"@)[6] == 'E' && ("KC_RESERVED_238"@)[7] == 'R' && ("KC_RESERVED_238"@)[8] == 'V' && ("KC_RESERVED_238"@)[9] == 'E' && ("KC_RESERVED_238"@)[10] == 'D' && ("KC_RESERVED_238"@)[11] == '_' && ("KC_RESERVED_238"@)[12] == '2' && ("KC_RESERVED_238"@)[13] == '3' && ("KC_RESERVED_238"@)[14] == '8',
        ("KC_RESERVED_239"@).len() == 15 && ("KC_RESERVED_239"@)[0] == 'K' && ("KC_RESERVED_239"@)[1] == 'C' && ("KC_RESERVED_239"@)[2] == '_' && ("KC_RESERVED_239"@)[3] == 'R' && ("KC_RESERVED_239"@)[4] == 'E' && ("KC_RESERVED_239"@)[5] == 'S' && ("KC_RESERVED_239"@)[6] == 'E' && ("KC_RESERVED_239"@)[7] == 'R' && ("KC_RESERVED_239"@)[8] == 'V' && ("KC_RESERVED_239"@)[9] == 'E' && ("KC_RESERVED_239"@)[10] == 'D' && ("KC_RESERVED_239"@)[11] == '_' && ("KC_RESERVED_239"@)[12] == '2' && ("KC_RESERVED_239"@)[13] == '3' && ("KC_RESERVED_239"@)[14] == '9',
{
    reveal_strlit("KC_LEFT_CTRL");
    reveal_strlit("KC_LEFT_SHIFT");
    reveal_strlit("KC_LEFT_ALT");
    reveal_strlit("KC_LEFT_GUI");
    reveal_strlit("KC_RIGHT_CTRL");
    reveal_strlit("KC_RIGHT_SHIFT");
    reveal_strlit("KC_RIGHT_ALT");
    reveal_strlit("KC_RIGHT_GUI");
    reveal_strlit("KC_RESERVED_232");
    reveal_strlit("KC_RESERVED_233");
    reveal_strlit("KC_RESERVED_234");
    reveal_strlit("KC_RESERVED_235");
    reveal_strlit("KC_RESERVED_236");
    reveal_strlit("KC_RESERVED_237");
    reveal_strlit("KC_RESERVED_238");
    reveal_strlit("KC_RESERVED_239");
    assert(("KC_LEFT_CTRL"@).len() == 12);
    assert(("KC_LEFT_CTRL"@)[0] == 'K');
    assert(("KC_LEFT_CTRL"@)[1] == 'C');
    assert(("KC_LEFT_CTRL"@)[2] == '_');
    assert(("KC_LEFT_CTRL"@)[3] == 'L');
    assert(("KC_LEFT_CTRL"@)[4] == 'E');
    assert(("KC_LEFT_CTRL"@)[5] == 'F');
    assert(("KC_LEFT_CTRL"@)[6] == 'T');
    assert(("KC_LEFT_CTRL"@)[7] == '_');
    assert(("KC_LEFT_CTRL"@)[8] == 'C');
    assert(("KC_LEFT_CTRL"@)[9] == 'T');
    assert(("KC_LEFT_CTRL"@)[10] == 'R');
    assert(("KC_LEFT_CTRL"@)[11] == 'L');
    assert(("KC_LEFT_SHIFT"@).len() == 13);
    assert(("KC_LEFT_SHIFT"@)[0] == 'K');
    assert(("KC_LEFT_SHIFT"@)[1] == 'C');
    assert(("KC_LEFT_SHIFT"@)[2] == '_');
    assert(("KC_LEFT_SHIFT"@)[3] == 'L');
    assert(("KC_LEFT_SHIFT"@)[4] == 'E');
    assert(("KC_LEFT_SHIFT"@)[5] == 'F');
    assert(("KC_LEFT_SHIFT"@)[6] == 'T');
    assert(("KC_LEFT_SHIFT"@)[7] == '_');
    assert(("KC_LEFT_SHIFT"@)[8] == 'S');
    assert(("KC_LEFT_SHIFT"@)[9] == 'H');
    assert(("KC_LEFT_SHIFT"@)[10] == 'I');
    assert(("KC_LEFT_SHIFT"@)[11] == 'F');
    assert(("KC_LEFT_SHIFT"@)[12] == 'T');
    assert(("KC_LEFT_ALT"@).len() == 11);
    assert(("KC_LEFT_ALT"@)[0] == 'K');
    assert(("KC_LEFT_ALT"@)[1] == 'C');
    assert(("KC_LEFT_ALT"@)[2] == '_');
    assert(("KC_LEFT_ALT"@)[3] == 'L');
    assert(("KC_LEFT_ALT"@)[4] == 'E');
    assert(("KC_LEFT_ALT"@)[5] == 'F');
    assert(("KC_LEFT_ALT"@)[6] == 'T');
    assert(("KC_LEFT_ALT"@)[7] == '_');
    assert(("KC_LEFT_ALT"@)[8] == 'A');
    assert(("KC_LEFT_ALT"@)[9] == 'L');
    assert(("KC_LEFT_ALT"@)[10] == 'T');
    assert(("KC_LEFT_GUI"@).len() == 11);
    assert(("KC_LEFT_GUI"@)[0] == 'K');
    assert(("KC_LEFT_GUI"@)[1] == 'C');
    assert(("KC_LEFT_GUI"@)[2] == '_');
    assert(("KC_LEFT_GUI"@)[3] == 'L');
    assert(("KC_LEFT_GUI"@)[4] == 'E');
    assert(("KC_LEFT_GUI"@)[5] == 'F');
    assert(("KC_LEFT_GUI"@)[6] == 'T');
    assert(("KC_LEFT_GUI"@)[7] == '_');
    assert(("KC_LEFT_GUI"@)[8] == 'G');
    assert(("KC_LEFT_GUI"@)[9] == 'U');
    assert(("KC_LEFT_GUI"@)[10] == 'I');
    assert(("KC_RIGHT_CTRL"@).len() == 13);
    assert(("KC_RIGHT_CTRL"@)[0] == 'K');
    assert(("KC_RIGHT_CTRL"@)[1] == 'C');
    assert(("KC_RIGHT_CTRL"@)[2] == '_');
    assert(("KC_RIGHT_CTRL"@)[3] == 'R');
    assert(("KC_RIGHT_CTRL"@)[4] == 'I');
    assert(("KC_RIGHT_CTRL"@)[5] == 'G');
    assert(("KC_RIGHT_CTRL"@)[6] == 'H');
    assert(("KC_RIGHT_CTRL"@)[7] == 'T');
    assert(("KC_RIGHT_CTRL"@)[8] == '_');
    assert(("KC_RIGHT_CTRL"@)[9] == 'C');
    assert(("KC_RIGHT_CTRL"@)[10] == 'T');
    assert(("KC_RIGHT_CTRL"@)[11] == 'R');
    assert(("KC_RIGHT_CTRL"@)[12] == 'L');
    assert(("KC_RIGHT_SHIFT"@).len() == 14);
    assert(("KC_RIGHT_SHIFT"@)[0] == 'K');
    assert(("KC_RIGHT_SHIFT"@)[1] == 'C');
    assert(("KC_RIGHT_SHIFT"@)[2] == '_');
    assert(("KC_RIGHT_SHIFT"@)[3] == 'R');
    assert(("KC_RIGHT_SHIFT"@)[4] == 'I');
    assert(("KC_RIGHT_SHIFT"@)[5] == 'G');
    assert(("KC_RIGHT_SHIFT"@)[6] == 'H');
    assert(("KC_RIGHT_SHIFT"@)[7] == 'T');
    assert(("KC_RIGHT_SHIFT"@)[8] == '_');
    assert(("KC_RIGHT_SHIFT"@)[9] == 'S');
    assert(("KC_RIGHT_SHIFT"@)[10] == 'H');
    assert(("KC_RIGHT_SHIFT"@)[11] == 'I');
    assert(("KC_RIGHT_SHIFT"@)[12] == 'F');
    assert(("KC_RIGHT_SHIFT"@)[13] == 'T');
    assert(("KC_RIGHT_ALT"@).len() == 12);
    assert(("KC_RIGHT_ALT"@)[0] == 'K');
    assert(("KC_RIGHT_ALT"@)[1] == 'C');
    assert(("KC_RIGHT_ALT"@)[2] == '_');
    assert(("KC_RIGHT_ALT"@)[3] == 'R');
    assert(("KC_RIGHT_ALT"@)[4] == 'I');
    assert(("KC_RIGHT_ALT"@)[5] == 'G');
    assert(("KC_RIGHT_ALT"@)[6] == 'H');
    assert(("KC_RIGHT_ALT"@)[7] == 'T');
    assert(("KC_RIGHT_ALT"@)[8] == '_');
    assert(("KC_RIGHT_ALT"@)[9] == 'A');
    assert(("KC_RIGHT_ALT"@)[10] == 'L');
    assert(("KC_RIGHT_ALT"@)[11] == 'T');
    assert(("KC_RIGHT_GUI"@).len() == 12);
    assert(("KC_RIGHT_GUI"@)[0] == 'K');
    assert(("KC_RIGHT_GUI"@)[1] == 'C');
    assert(("KC_RIGHT_GUI"@)[2] == '_');
    assert(("KC_RIGHT_GUI"@)[3] == 'R');
    assert(("KC_RIGHT_GUI"@)[4] == 'I');
    assert(("KC_RIGHT_GUI"@)[5] == 'G');
    assert(("KC_RIGHT_GUI"@)[6] == 'H');
    assert(("KC_RIGHT_GUI"@)[7] == 'T');
    assert(("KC_RIGHT_GUI"@)[8] == '_');
    assert(("KC_RIGHT_GUI"@)[9] == 'G');
    assert(("KC_RIGHT_GUI"@)[10] == 'U');
    assert(("KC_RIGHT_GUI"@)[11] == 'I');
    assert(("KC_RESERVED_232"@).len() == 15);
    assert(("KC_RESERVED_232"@)[0] == 'K');
    assert(("KC_RESERVED_232"@)[1] == 'C');
    assert(("KC_RESERVED_232"@)[2] == '_');
    assert(("KC_RESERVED_232"@)[3] == 'R');
    assert(("KC_RESERVED_232"@)[4] == 'E');
    assert(("KC_RESERVED_232"@)[5] == 'S');
    assert(("KC_RESERVED_232"@)[6] == 'E');
    assert(("KC_RESERVED_232"@)[7] == 'R');
    assert(("KC_RESERVED_232"@)[8] == 'V');
    assert(("KC_RESERVED_232"@)[9] == 'E');
    assert(("KC_RESERVED_232"@)[10] == 'D');
    assert(("KC_RESERVED_232"@)[11] == '_');
    assert(("KC_RESERVED_232"@)[12] == '2');
    assert(("KC_RESERVED_232"@)[13] == '3');
    assert(("KC_RESERVED_232"@)[14] == '2');
    assert(("KC_RESERVED_233"@).len() == 15);
    assert(("KC_RESERVED_233"@)[0] == 'K');
    assert(("KC_RESERVED_233"@)[1] == 'C');
    assert(("KC_RESERVED_233"@)[2] == '_');
    assert(("KC_RESERVED_233"@)[3] == 'R');
    assert(("KC_RESERVED_233"@)[4] == 'E');
    assert(("KC_RESERVED_233"@)[5] == 'S');
    assert(("KC_RESERVED_233"@)[6] == 'E');
    assert(("KC_RESERVED_233"@)[7] == 'R');
    assert(("KC_RESERVED_233"@)[8] == 'V');
    assert(("KC_RESERVED_233"@)[9] == 'E');
    assert(("KC_RESERVED_233"@)[10] == 'D');
    assert(("KC_RESERVED_233"@)[11] == '_');
    assert(("KC_RESERVED_233"@)[12] == '2');
    assert(("KC_RESERVED_233"@)[13] == '3');
    assert(("KC_RESERVED_233"@)[14] == '3');
    assert(("KC_RESERVED_234"@).len() == 15);
    assert(("KC_RESERVED_234"@)[0] == 'K');
    assert(("KC_RESERVED_234"@)[1] == 'C');
    assert(("KC_RESERVED_234"@)[2] == '_');
    assert(("KC_RESERVED_234"@)[3] == 'R');
    assert(("KC_RESERVED_234"@)[4] == 'E');
    assert(("KC_RESERVED_234"@)[5] == 'S');
    assert(("KC_RESERVED_234"@)[6] == 'E');
    assert(("KC_RESERVED_234"@)[7] == 'R');
    assert(("KC_RESERVED_234"@)[8] == 'V');
    assert(("KC_RESERVED_234"@)[9] == 'E');
    assert(("KC_RESERVED_234"@)[10] == 'D');
    assert(("KC_RESERVED_234"@)[11] == '_');
    assert(("KC_RESERVED_234"@)[12] == '2');
    assert(("KC_RESERVED_234"@)[13] == '3');
    assert(("KC_RESERVED_234"@)[14] == '4');
    assert(("KC_RESERVED_235"@).len() == 15);
    assert(("KC_RESERVED_235"@)[0] == 'K');
    assert(("KC_RESERVED_235"@)[1] == 'C');
    assert(("KC_RESERVED_235"@)[2] == '_');
    assert(("KC_RESERVED_235"@)[3] == 'R');
    assert(("KC_RESERVED_235"@)[4] == 'E');
    assert(("KC_RESERVED_235"@)[5] == 'S');
    assert(("KC_RESERVED_235"@)[6] == 'E');
    assert(("KC_RESERVED_235"@)[7] == 'R');
    assert(("KC_RESERVED_235"@)[8] == 'V');
    assert(("KC_RESERVED_235"@)[9] == 'E');
    assert(("KC_RESERVED_235"@)[10] == 'D');
    assert(("KC_RESERVED_235"@)[11] == '_');
    assert(("KC_RESERVED_235"@)[12] == '2');
    assert(("KC_RESERVED_235"@)[13] == '3');
    assert(("KC_RESERVED_235"@)[14] == '5');
    assert(("KC_RESERVED_236"@).len() == 15);
    assert(("KC_RESERVED_236"@)[0] == 'K');
    assert(("KC_RESERVED_236"@)[1] == 'C');
    assert(("KC_RESERVED_236"@)[2] == '_');
    assert(("KC_RESERVED_236"@)[3] == 'R');
    assert(("KC_RESERVED_236"@)[4] == 'E');
    assert(("KC_RESERVED_236"@)[5] == 'S');
    assert(("KC_RESERVED_236"@)[6] == 'E');
    assert(("KC_RESERVED_236"@)[7] == 'R');
    assert(("KC_RESERVED_236"@)[8] == 'V');
    assert(("KC_RESERVED_236"@)[9] == 'E');
    assert(("KC_RESERVED_236"@)[10] == 'D');
    assert(("KC_RESERVED_236"@)[11] == '_');
    assert(("KC_RESERVED_236"@)[12] == '2');
    assert(("KC_RESERVED_236"@)[13] == '3');
    assert(("KC_RESERVED_236"@)[14] == '6');
    assert(("KC_RESERVED_237"@).len() == 15);
    assert(("KC_RESERVED_237"@)[0] == 'K');
    assert(("KC_RESERVED_237"@)[1] == 'C');
    assert(("KC_RESERVED_237"@)[2] == '_');
    assert(("KC_RESERVED_237"@)[3] == 'R');
    assert(("KC_RESERVED_237"@)[4] == 'E');
    assert(("KC_RESERVED_237"@)[5] == 'S');
    assert(("KC_RESERVED_237"@)[6] == 'E');
    assert(("KC_RESERVED_237"@)[7] == 'R');
    assert(("KC_RESERVED_237"@)[8] == 'V');
    assert(("KC_RESERVED_237"@)[9] == 'E');
    assert(("KC_RESERVED_237"@)[10] == 'D');
    assert(("KC_RESERVED_237"@)[11] == '_');
    assert(("KC_RESERVED_237"@)[12] == '2');
    assert(("KC_RESERVED_237"@)[13] == '3');
    assert(("KC_RESERVED_237"@)[14] == '7');
    assert(("KC_RESERVED_238"@).len() == 15);
    assert(("KC_RESERVED_238"@)[0] == 'K');
    assert(("KC_RESERVED_238"@)[1] == 'C');
    assert(("KC_RESERVED_238"@)[2] == '_');
    assert(("KC_RESERVED_238"@)[3] == 'R');
    assert(("KC_RESERVED_238"@)[4] == 'E');
    assert(("KC_RESERVED_238"@)[5] == 'S');
    assert(("KC_RESERVED_238"@)[6] == 'E');
    assert(("KC_RESERVED_238"@)[7] == 'R');
    assert(("KC_RESERVED_238"@)[8] == 'V');
    assert(("KC_RESERVED_238"@)[9] == 'E');
    assert(("KC_RESERVED_238"@)[10] == 'D');
    assert(("KC_RESERVED_238"@)[11] == '_');
    assert(("KC_RESERVED_238"@)[12] == '2');
    assert(("KC_RESERVED_238"@)[13] == '3');
    assert(("KC_RESERVED_238"@)[14] == '8');
    assert(("KC_RESERVED_239"@).len() == 15);
    assert(("KC_RESERVED_239"@)[0] == 'K');
    assert(("KC_RESERVED_239"@)[1] == 'C');
    assert(("KC_RESERVED_239"@)[2] == '_');
    assert(("KC_RESERVED_239"@)[3] == 'R');
    assert(("KC_RESERVED_239"@)[4] == 'E');
    assert(("KC_RESERVED_239"@)[5] == 'S');
    assert(("KC_RESERVED_239"@)[6] == 'E');
    assert(("KC_RESERVED_239"@)[7] == 'R');
    assert(("KC_RESERVED_239"@)[8] == 'V');
    assert(("KC_RESERVED_239"@)[9] == 'E');
    assert(("KC_RESERVED_239"@)[10] == 'D');
    assert(("KC_RESERVED_239"@)[11] == '_');
    assert(("KC_RESERVED_239"@)[12] == '2');
    assert(("KC_RESERVED_239"@)[13] == '3');
    assert(("KC_RESERVED_239"@)[14] == '9');
}

proof fn lemma_name_facts_block_15()
    ensures
        ("KC_RESERVED_240"@).len() == 15 && ("KC_RESERVED_240"@)[0] == 'K' && ("KC_RESERVED_240"@)[1] == 'C' && ("KC_RESERVED_240"@)[2] == '_' && ("KC_RESERVED_240"@)[3] == 'R' && ("KC_RESERVED_240"@)[4] == 'E' && ("KC_RESERVED_240"@)[5] == 'S' && ("KC_RESERVED_240"@)[6] == 'E' && ("KC_RESERVED_240"@)[7] == 'R' && ("KC_RESERVED_240"@)[8] == 'V' && ("KC_RESERVED_240"@)[9] == 'E' && ("KC_RESERVED_240"@)[10] == 'D' && ("KC_RESERVED_240"@)[11] == '_' && ("KC_RESERVED_240"@)[12] == '2' && ("KC_RESERVED_240"@)[13] == '4' && ("KC_RESERVED_240"@)[14] == '0',
        ("KC_RESERVED_241"@).len() == 15 && ("KC_RESERVED_241"@)[0] == 'K' && ("KC_RESERVED_241"@)[1] == 'C' && ("KC_RESERVED_241"@)[2] == '_' && ("KC_RESERVED_241"@)[3] == 'R' && ("KC_RESERVED_241"@)[4] == 'E' && ("KC_RESERVED_241"@)[5] == 'S' && ("KC_RESERVED_241"@)[6] == 'E' && ("KC_RESERVED_241"@)[7] == 'R' && ("KC_RESERVED_241"@)[8] == 'V' && ("KC_RESERVED_241"@)[9] == 'E' && ("KC_RESERVED_241"@)[10] == 'D' && ("KC_RESERVED_241"@)[11] == '_' && ("KC_RESERVED_241"@)[12] == '2' && ("KC_RESERVED_241"@)[13] == '4' && ("KC_RESERVED_241"@)[14] == '1',
        ("KC_RESERVED_242"@).len() == 15 && ("KC_RESERVED_242"@)[0] == 'K' && ("KC_RESERVED_242"@)[1] == 'C' && ("KC_RESERVED_242"@)[2] == '_' && ("KC_RESERVED_242"@)[3] == 'R' && ("KC_RESERVED_242"@)[4] == 'E' && ("KC_RESERVED_242"@)[5] == 'S' && ("KC_RESERVED_242"@)[6] == 'E' && ("KC_RESERVED_242"@)[7] == 'R' && ("KC_RESERVED_242"@)[8] == 'V' && ("KC_RESERVED_242"@)[9] == 'E' && ("KC_RESERVED_242"@)[10] == 'D' && ("KC_RESERVED_242"@)[11] == '_' && ("KC_RESERVED_242"@)[12] == '2' && ("KC_RESERVED_242"@)[13] == '4' && ("KC_RESERVED_242"@)[14] == '2',
        ("KC_RESERVED_243"@).len() == 15 && ("KC_RESERVED_243"@)[0] == 'K' && ("KC_RESERVED_243"@)[1] == 'C' && ("KC_RESERVED_243"@)[2] == '_' && ("KC_RESERVED_243"@)[3] == 'R' && ("KC_RESERVED_243"@)[4] == 'E' && ("KC_RESERVED_243"@)[5] == 'S' && ("KC_RESERVED_243"@)[6] == 'E' && ("KC_RESERVED_243"@)[7] == 'R' && ("KC_RESERVED_243"@)[8] == 'V' && ("KC_RESERVED_243"@)[9] == 'E' && ("KC_RESERVED_243"@)[10] == 'D' && ("KC_RESERVED_243"@)[11] == '_' && ("KC_RESERVED_243"@)[12] == '2' && ("KC_RESERVED_243"@)[13] == '4' && ("KC_RESERVED_243"@)[14] == '3',
        ("KC_RESERVED_244"@).len() == 15 && ("KC_RESERVED_244"@)[0] == 'K' && ("KC_RESERVED_244"@)[1] == 'C' && ("KC_RESERVED_244"@)[2] == '_' && ("KC_RESERVED_244"@)[3] == 'R' && ("KC_RESERVED_244"@)[4] == 'E' && ("KC_RESERVED_244"@)[5] == 'S' && ("KC_RESERVED_244"@)[6] == 'E' && ("KC_RESERVED_244"@)[7] == 'R' && ("KC_RESERVED_244"@)[8] == 'V' && ("KC_RESERVED_244"@)[9] == 'E' && ("KC_RESERVED_244"@)[10] == 'D' && ("KC_RESERVED_244"@)[11] == '_' && ("KC_RESERVED_244"@)[12] == '2' && ("KC_RESERVED_244"@)[13] == '4' && ("KC_RESERVED_244"@)[14] == '4',
        ("KC_RESERVED_245"@).len() == 15 && ("KC_RESERVED_245"@)[0] == 'K' && ("KC_RESERVED_245"@)[1] == 'C' && ("KC_RESERVED_245"@)[2] == '_' && ("KC_RESERVED_245"@)[3] == 'R' && ("KC_RESERVED_245"@)[4] == 'E' && ("KC_RESERVED_245"@)[5] == 'S' && ("KC_RESERVED_245"@)[6] == 'E' && ("KC_RESERVED_245"@)[7] == 'R' && ("KC_RESERVED_245"@)[8] == 'V' && ("KC_RESERVED_245"@)[9] == 'E' && ("KC_RESERVED_245"@)[10] == 'D' && ("KC_RESERVED_245"@)[11] == '_' && ("KC_RESERVED_245"@)[12] == '2' && ("KC_RESERVED_245"@)[13] == '4' && ("KC_RESERVED_245"@)[14] == '5',
        ("KC_RESERVED_246"@).len() == 15 && ("KC_RESERVED_246"@)[0] == 'K' && ("KC_RESERVED_246"@)[1] == 'C' && ("KC_RESERVED_246"@)[2] == '_' && ("KC_RESERVED_246"@)[3] == 'R' && ("KC_RESERVED_246"@)[4] == 'E' && ("KC_RESERVED_246"@)[5] == 'S' && ("KC_RESERVED_246"@)[6] == 'E' && ("KC_RESERVED_246"@)[7] == 'R' && ("KC_RESERVED_246"@)[8] == 'V' && ("KC_RESERVED_246"@)[9] == 'E' && ("KC_RESERVED_246"@)[10] == 'D' && ("KC_RESERVED_246"@)[11] == '_' && ("KC_RESERVED_246"@)[12] == '2' && ("KC_RESERVED_246"@)[13] == '4' && ("KC_RESERVED_246"@)[14] == '6',
        ("KC_RESERVED_247"@).len() == 15 && ("KC_RESERVED_247"@)[0] == 'K' && ("KC_RESERVED_247"@)[1] == 'C' && ("KC_RESERVED_247"@)[2] == '_' && ("KC_RESERVED_247"@)[3] == 'R' && ("KC_RESERVED_247"@)[4] == 'E' && ("KC_RESERVED_247"@)[5] == 'S' && ("KC_RESERVED_247"@)[6] == 'E' && ("KC_RESERVED_247"@)[7] == 'R' && ("KC_RESERVED_247"@)[8] == 'V' && ("KC_RESERVED_247"@)[9] == 'E' && ("KC_RESERVED_247"@)[10] == 'D' && ("KC_RESERVED_247"@)[11] == '_' && ("KC_RESERVED_247"@)[12] == '2' && ("KC_RESERVED_247"@)[13] == '4' && ("KC_RESERVED_247"@)[14] == '7',
        ("KC_RESERVED_248"@).len() == 15 && ("KC_RESERVED_248"@)[0] == 'K' && ("KC_RESERVED_248"@)[1] == 'C' && ("KC_RESERVED_248"@)[2] == '_' && ("KC_RESERVED_248"@)[3] == 'R' && ("KC_RESERVED_248"@)[4] == 'E' && ("KC_RESERVED_248"@)[5] == 'S' && ("KC_RESERVED_248"@)[6] == 'E' && ("KC_RESERVED_248"@)[7] == 'R' && ("KC_RESERVED_248"@)[8] == 'V' && ("KC_RESERVED_248"@)[9] == 'E' && ("KC_RESERVED_248"@)[10] == 'D' && ("KC_RESERVED_248"@)[11] == '_' && ("KC_RESERVED_248"@)[12] == '2' && ("KC_RESERVED_248"@)[13] == '4' && ("KC_RESERVED_248"@)[14] == '8',
        ("KC_RESERVED_249"@).len() == 15 && ("KC_RESERVED_249"@)[0] == 'K' && ("KC_RESERVED_249"@)[1] == 'C' && ("KC_RESERVED_249"@)[2] == '_' && ("KC_RESERVED_249"@)[3] == 'R' && ("KC_RESERVED_249"@)[4] == 'E' && ("KC_RESERVED_249"@)[5] == 'S' && ("KC_RESERVED_249"@)[6] == 'E' && ("KC_RESERVED_249"@)[7] == 'R' && ("KC_RESERVED_249"@)[8] == 'V' && ("KC_RESERVED_249"@)[9] == 'E' && ("KC_RESERVED_249"@)[10] == 'D' && ("KC_RESERVED_249"@)[11] == '_' && ("KC_RESERVED_249"@)[12] == '2' && ("KC_RESERVED_249"@)[13] == '4' && ("KC_RESERVED_249"@)[14] == '9',
        ("KC_RESERVED_250"@).len() == 15 && ("KC_RESERVED_250"@)[0] == 'K' && ("KC_RESERVED_250"@)[1] == 'C' && ("KC_RESERVED_250"@)[2] == '_' && ("KC_RESERVED_250"@)[3] == 'R' && ("KC_RESERVED_250"@)[4] == 'E' && ("KC_RESERVED_250"@)[5] == 'S' && ("KC_RESERVED_250"@)[6] == 'E' && ("KC_RESERVED_250"@)[7] == 'R' && ("KC_RESERVED_250"@)[8] == 'V' && ("KC_RESERVED_250"@)[9] == 'E' && ("KC_RESERVED_250"@)[10] == 'D' && ("KC_RESERVED_250"@)[11] == '_' && ("KC_RESERVED_250"@)[12] == '2' && ("KC_RESERVED_250"@)[13] == '5' && ("KC_RESERVED_250"@)[14] == '0',
        ("KC_RESERVED_251"@).len() == 15 && ("KC_RESERVED_251"@)[0] == 'K' && ("KC_RESERVED_251"@)[1] == 'C' && ("KC_RESERVED_251"@)[2] == '_' && ("KC_RESERVED_251"@)[3] == 'R' && ("KC_RESERVED_251"@)[4] == 'E' && ("KC_RESERVED_251"@)[5] == 'S' && ("KC_RESERVED_251"@)[6] == 'E' && ("KC_RESERVED_251"@)[7] == 'R' && ("KC_RESERVED_251"@)[8] == 'V' && ("KC_RESERVED_251"@)[9] == 'E' && ("KC_RESERVED_251"@)[10] == 'D' && ("KC_RESERVED_251"@)[11] == '_' && ("KC_RESERVED_251"@)[12] == '2' && ("KC_RESERVED_251"@)[13] == '5' && ("KC_RESERVED_251"@)[14] == '1',
        ("KC_RESERVED_252"@).len() == 15 && ("KC_RESERVED_252"@)[0] == 'K' && ("KC_RESERVED_252"@)[1] == 'C' && ("KC_RESERVED_252"@)[2] == '_' && ("KC_RESERVED_252"@)[3] == 'R' && ("KC_RESERVED_252"@)[4] == 'E' && ("KC_RESERVED_252"@)[5] == 'S' && ("KC_RESERVED_252"@)[6] == 'E' && ("KC_RESERVED_252"@)[7] == 'R' && ("KC_RESERVED_252"@)[8] == 'V' && ("KC_RESERVED_252"@)[9] == 'E' && ("KC_RESERVED_252"@)[10] == 'D' && ("KC_RESERVED_252"@)[11] == '_' && ("KC_RESERVED_252"@)[12] == '2' && ("KC_RESERVED_252"@)[13] == '5' && ("KC_RESERVED_252"@)[14] == '2',
        ("KC_RESERVED_253"@).len() == 15 && ("KC_RESERVED_253"@)[0] == 'K' && ("KC_RESERVED_253"@)[1] == 'C' && ("KC_RESERVED_253"@)[2] == '_' && ("KC_RESERVED_253"@)[3] == 'R' && ("KC_RESERVED_253"@)[4] == 'E' && ("KC_RESERVED_253"@)[5] == 'S' && ("KC_RESERVED_253"@)[6] == 'E' && ("KC_RESERVED_253"@)[7] == 'R' && ("KC_RESERVED_253"@)[8] == 'V' && ("KC_RESERVED_253"@)[9] == 'E' && ("KC_RESERVED_253"@)[10] == 'D' && ("KC_RESERVED_253"@)[11] == '_' && ("KC_RESERVED_253"@)[12] == '2' && ("KC_RESERVED_253"@)[13] == '5' && ("KC_RESERVED_253"@)[14] == '3',
        ("KC_RESERVED_254"@).len() == 15 && ("KC_RESERVED_254"@)[0] == 'K' && ("KC_RESERVED_254"@)[1] == 'C' && ("KC_RESERVED_254"@)[2] == '_' && ("KC_RESERVED_254"@)[3] == 'R' && ("KC_RESERVED_254"@)[4] == 'E' && ("KC_RESERVED_254"@)[5] == 'S' && ("KC_RESERVED_254"@)[6] == 'E' && ("KC_RESERVED_254"@)[7] == 'R' && ("KC_RESERVED_254"@)[8] == 'V' && ("KC_RESERVED_254"@)[9] == 'E' && ("KC_RESERVED_254"@)[10] == 'D' && ("KC_RESERVED_254"@)[11] == '_' && ("KC_RESERVED_254"@)[12] == '2' && ("KC_RESERVED_254"@)[13] == '5' && ("KC_RESERVED_254"@)[14] == '4',
        ("KC_RESERVED_255"@).len() == 15 && ("KC_RESERVED_255"@)[0] == 'K' && ("KC_RESERVED_255"@)[1] == 'C' && ("KC_RESERVED_255"@)[2] == '_' && ("KC_RESERVED_255"@)[3] == 'R' && ("KC_RESERVED_255"@)[4] == 'E' && ("KC_RESERVED_255"@)[5] == 'S' && ("KC_RESERVED_255"@)[6] == 'E' && ("KC_RESERVED_255"@)[7] == 'R' && ("KC_RESERVED_255"@)[8] == 'V' && ("KC_RESERVED_255"@)[9] == 'E' && ("KC_RESERVED_255"@)[10] == 'D' && ("KC_RESERVED_255"@)[11] == '_' && ("KC_RESERVED_255"@)[12] == '2' && ("KC_RESERVED_255"@)[13] == '5' && ("KC_RESERVED_255"@)[14] == '5',
{
    reveal_strlit("KC_RESERVED_240");
    reveal_strlit("KC_RESERVED_241");
    reveal_strlit("KC_RESERVED_242");
    reveal_strlit("KC_RESERVED_243");
    reveal_strlit("KC_RESERVED_244");
    reveal_strlit("KC_RESERVED_245");
    reveal_strlit("KC_RESERVED_246");
    reveal_strlit("KC_RESERVED_247");
    reveal_strlit("KC_RESERVED_248");
    reveal_strlit("KC_RESERVED_249");
    reveal_strlit("KC_RESERVED_250");
    reveal_strlit("KC_RESERVED_251");
    reveal_strlit("KC_RESERVED_252");
    reveal_strlit("KC_RESERVED_253");
    reveal_strlit("KC_RESERVED_254");
    reveal_strlit("KC_RESERVED_255");
    assert(("KC_RESERVED_240"@).len() == 15);
    assert(("KC_RESERVED_240"@)[0] == 'K');
    assert(("KC_RESERVED_240"@)[1] == 'C');
    assert(("KC_RESERVED_240"@)[2] == '_');
    assert(("KC_RESERVED_240"@)[3] == 'R');
    assert(("KC_RESERVED_240"@)[4] == 'E');
    assert(("KC_RESERVED_240"@)[5] == 'S');
    assert(("KC_RESERVED_240"@)[6] == 'E');
    assert(("KC_RESERVED_240"@)[7] == 'R');
    assert(("KC_RESERVED_240"@)[8] == 'V');
    assert(("KC_RESERVED_240"@)[9] == 'E');
    assert(("KC_RESERVED_240"@)[10] == 'D');
    assert(("KC_RESERVED_240"@)[11] == '_');
    assert(("KC_RESERVED_240"@)[12] == '2');
    assert(("KC_RESERVED_240"@)[13] == '4');
    assert(("KC_RESERVED_240"@)[14] == '0');
    assert(("KC_RESERVED_241"@).len() == 15);
    assert(("KC_RESERVED_241"@)[0] == 'K');
    assert(("KC_RESERVED_241"@)[1] == 'C');
    assert(("KC_RESERVED_241"@)[2] == '_');
    assert(("KC_RESERVED_241"@)[3] == 'R');
    assert(("KC_RESERVED_241"@)[4] == 'E');
    assert(("KC_RESERVED_241"@)[5] == 'S');
    assert(("KC_RESERVED_241"@)[6] == 'E');
    assert(("KC_RESERVED_241"@)[7] == 'R');
    assert(("KC_RESERVED_241"@)[8] == 'V');
    assert(("KC_RESERVED_241"@)[9] == 'E');
    assert(("KC_RESERVED_241"@)[10] == 'D');
    assert(("KC_RESERVED_241"@)[11] == '_');
    assert(("KC_RESERVED_241"@)[12] == '2');
    assert(("KC_RESERVED_241"@)[13] == '4');
    assert(("KC_RESERVED_241"@)[14] == '1');
    assert(("KC_RESERVED_242"@).len() == 15);
    assert(("KC_RESERVED_242"@)[0] == 'K');
    assert(("KC_RESERVED_242"@)[1] == 'C');
    assert(("KC_RESERVED_242"@)[2] == '_');
    assert(("KC_RESERVED_242"@)[3] == 'R');
    assert(("KC_RESERVED_242"@)[4] == 'E');
    assert(("KC_RESERVED_242"@)[5] == 'S');
    assert(("KC_RESERVED_242"@)[6] == 'E');
    assert(("KC_RESERVED_242"@)[7] == 'R');
    assert(("KC_RESERVED_242"@)[8] == 'V');
    assert(("KC_RESERVED_242"@)[9] == 'E');
    assert(("KC_RESERVED_242"@)[10] == 'D');
    assert(("KC_RESERVED_242"@)[11] == '_');
    assert(("KC_RESERVED_242"@)[12] == '2');
    assert(("KC_RESERVED_242"@)[13] == '4');
    assert(("KC_RESERVED_242"@)[14] == '2');
    assert(("KC_RESERVED_243"@).len() == 15);
    assert(("KC_RESERVED_243"@)[0] == 'K');
    assert(("KC_RESERVED_243"@)[1] == 'C');
    assert(("KC_RESERVED_243"@)[2] == '_');
    assert(("KC_RESERVED_243"@)[3] == 'R');
    assert(("KC_RESERVED_243"@)[4] == 'E');
    assert(("KC_RESERVED_243"@)[5] == 'S');
    assert(("KC_RESERVED_243"@)[6] == 'E');
    assert(("KC_RESERVED_243"@)[7] == 'R');
    assert(("KC_RESERVED_243"@)[8] == 'V');
    assert(("KC_RESERVED_243"@)[9] == 'E');
    assert(("KC_RESERVED_243"@)[10] == 'D');
    assert(("KC_RESERVED_243"@)[11] == '_');
    assert(("KC_RESERVED_243"@)[12] == '2');
    assert(("KC_RESERVED_243"@)[13] == '4');
    assert(("KC_RESERVED_243"@)[14] == '3');
    assert(("KC_RESERVED_244"@).len() == 15);
    assert(("KC_RESERVED_244"@)[0] == 'K');
    assert(("KC_RESERVED_244"@)[1] == 'C');
    assert(("KC_RESERVED_244"@)[2] == '_');
    assert(("KC_RESERVED_244"@)[3] == 'R');
    assert(("KC_RESERVED_244"@)[4] == 'E');
    assert(("KC_RESERVED_244"@)[5] == 'S');
    assert(("KC_RESERVED_244"@)[6] == 'E');
    assert(("KC_RESERVED_244"@)[7] == 'R');
    assert(("KC_RESERVED_244"@)[8] == 'V');
    assert(("KC_RESERVED_244"@)[9] == 'E');
    assert(("KC_RESERVED_244"@)[10] == 'D');
    assert(("KC_RESERVED_244"@)[11] == '_');
    assert(("KC_RESERVED_244"@)[12] == '2');
    assert(("KC_RESERVED_244"@)[13] == '4');
    assert(("KC_RESERVED_244"@)[14] == '4');
    assert(("KC_RESERVED_245"@).len() == 15);
    assert(("KC_RESERVED_245"@)[0] == 'K');
    assert(("KC_RESERVED_245"@)[1] == 'C');
    assert(("KC_RESERVED_245"@)[2] == '_');
    assert(("KC_RESERVED_245"@)[3] == 'R');
    assert(("KC_RESERVED_245"@)[4] == 'E');
    assert(("KC_RESERVED_245"@)[5] == 'S');
    assert(("KC_RESERVED_245"@)[6] == 'E');
    assert(("KC_RESERVED_245"@)[7] == 'R');
    assert(("KC_RESERVED_245"@)[8] == 'V');
    assert(("KC_RESERVED_245"@)[9] == 'E');
    assert(("KC_RESERVED_245"@)[10] == 'D');
    assert(("KC_RESERVED_245"@)[11] == '_');
    assert(("KC_RESERVED_245"@)[12] == '2');
    assert(("KC_RESERVED_245"@)[13] == '4');
    assert(("KC_RESERVED_245"@)[14] == '5');
    assert(("KC_RESERVED_246"@).len() == 15);
    assert(("KC_RESERVED_246"@)[0] == 'K');
    assert(("KC_RESERVED_246"@)[1] == 'C');
    assert(("KC_RESERVED_246"@)[2] == '_');
    assert(("KC_RESERVED_246"@)[3] == 'R');
    assert(("KC_RESERVED_246"@)[4] == 'E');
    assert(("KC_RESERVED_246"@)[5] == 'S');
    assert(("KC_RESERVED_246"@)[6] == 'E');
    assert(("KC_RESERVED_246"@)[7] == 'R');
    assert(("KC_RESERVED_246"@)[8] == 'V');
    assert(("KC_RESERVED_246"@)[9] == 'E');
    assert(("KC_RESERVED_246"@)[10] == 'D');
    assert(("KC_RESERVED_246"@)[11] == '_');
    assert(("KC_RESERVED_246"@)[12] == '2');
    assert(("KC_RESERVED_246"@)[13] == '4');
    assert(("KC_RESERVED_246"@)[14] == '6');
    assert(("KC_RESERVED_247"@).len() == 15);
    assert(("KC_RESERVED_247"@)[0] == 'K');
    assert(("KC_RESERVED_247"@)[1] == 'C');
    assert(("KC_RESERVED_247"@)[2] == '_');
    assert(("KC_RESERVED_247"@)[3] == 'R');
    assert(("KC_RESERVED_247"@)[4] == 'E');
    assert(("KC_RESERVED_247"@)[5] == 'S');
    assert(("KC_RESERVED_247"@)[6] == 'E');
    assert(("KC_RESERVED_247"@)[7] == 'R');
    assert(("KC_RESERVED_247"@)[8] == 'V');
    assert(("KC_RESERVED_247"@)[9] == 'E');
    assert(("KC_RESERVED_247"@)[10] == 'D');
    assert(("KC_RESERVED_247"@)[11] == '_');
    assert(("KC_RESERVED_247"@)[12] == '2');
    assert(("KC_RESERVED_247"@)[13] == '4');
    assert(("KC_RESERVED_247"@)[14] == '7');
    assert(("KC_RESERVED_248"@).len() == 15);
    assert(("KC_RESERVED_248"@)[0] == 'K');
    assert(("KC_RESERVED_248"@)[1] == 'C');
    assert(("KC_RESERVED_248"@)[2] == '_');
    assert(("KC_RESERVED_248"@)[3] == 'R');
    assert(("KC_RESERVED_248"@)[4] == 'E');
    assert(("KC_RESERVED_248"@)[5] == 'S');
    assert(("KC_RESERVED_248"@)[6] == 'E');
    assert(("KC_RESERVED_248"@)[7] == 'R');
    assert(("KC_RESERVED_248"@)[8] == 'V');
    assert(("KC_RESERVED_248"@)[9] == 'E');
    assert(("KC_RESERVED_248"@)[10] == 'D');
    assert(("KC_RESERVED_248"@)[11] == '_');
    assert(("KC_RESERVED_248"@)[12] == '2');
    assert(("KC_RESERVED_248"@)[13] == '4');
    assert(("KC_RESERVED_248"@)[14] == '8');
    assert(("KC_RESERVED_249"@).len() == 15);
    assert(("KC_RESERVED_249"@)[0] == 'K');
    assert(("KC_RESERVED_249"@)[1] == 'C');
    assert(("KC_RESERVED_249"@)[2] == '_');
    assert(("KC_RESERVED_249"@)[3] == 'R');
    assert(("KC_RESERVED_249"@)[4] == 'E');
    assert(("KC_RESERVED_249"@)[5] == 'S');
    assert(("KC_RESERVED_249"@)[6] == 'E');
    assert(("KC_RESERVED_249"@)[7] == 'R');
    assert(("KC_RESERVED_249"@)[8] == 'V');
    assert(("KC_RESERVED_249"@)[9] == 'E');
    assert(("KC_RESERVED_249"@)[10] == 'D');
    assert(("KC_RESERVED_249"@)[11] == '_');
    assert(("KC_RESERVED_249"@)[12] == '2');
    assert(("KC_RESERVED_249"@)[13] == '4');
    assert(("KC_RESERVED_249"@)[14] == '9');
    assert(("KC_RESERVED_250"@).len() == 15);
    assert(("KC_RESERVED_250"@)[0] == 'K');
    assert(("KC_RESERVED_250"@)[1] == 'C');
    assert(("KC_RESERVED_250"@)[2] == '_');
    assert(("KC_RESERVED_250"@)[3] == 'R');
    assert(("KC_RESERVED_250"@)[4] == 'E');
    assert(("KC_RESERVED_250"@)[5] == 'S');
    assert(("KC_RESERVED_250"@)[6] == 'E');
    assert(("KC_RESERVED_250"@)[7] == 'R');
    assert(("KC_RESERVED_250"@)[8] == 'V');
    assert(("KC_RESERVED_250"@)[9] == 'E');
    assert(("KC_RESERVED_250"@)[10] == 'D');
    assert(("KC_RESERVED_250"@)[11] == '_');
    assert(("KC_RESERVED_250"@)[12] == '2');
    assert(("KC_RESERVED_250"@)[13] == '5');
    assert(("KC_RESERVED_250"@)[14] == '0');
    assert(("KC_RESERVED_251"@).len() == 15);
    assert(("KC_RESERVED_251"@)[0] == 'K');
    assert(("KC_RESERVED_251"@)[1] == 'C');
    assert(("KC_RESERVED_251"@)[2] == '_');
    assert(("KC_RESERVED_251"@)[3] == 'R');
    assert(("KC_RESERVED_251"@)[4] == 'E');
    assert(("KC_RESERVED_251"@)[5] == 'S');
    assert(("KC_RESERVED_251"@)[6] == 'E');
    assert(("KC_RESERVED_251"@)[7] == 'R');
    assert(("KC_RESERVED_251"@)[8] == 'V');
    assert(("KC_RESERVED_251"@)[9] == 'E');
    assert(("KC_RESERVED_251"@)[10] == 'D');
    assert(("KC_RESERVED_251"@)[11] == '_');
    assert(("KC_RESERVED_251"@)[12] == '2');
    assert(("KC_RESERVED_251"@)[13] == '5');
    assert(("KC_RESERVED_251"@)[14] == '1');
    assert(("KC_RESERVED_252"@).len() == 15);
    assert(("KC_RESERVED_252"@)[0] == 'K');
    assert(("KC_RESERVED_252"@)[1] == 'C');
    assert(("KC_RESERVED_252"@)[2] == '_');
    assert(("KC_RESERVED_252"@)[3] == 'R');
    assert(("KC_RESERVED_252"@)[4] == 'E');
    assert(("KC_RESERVED_252"@)[5] == 'S');
    assert(("KC_RESERVED_252"@)[6] == 'E');
    assert(("KC_RESERVED_252"@)[7] == 'R');
    assert(("KC_RESERVED_252"@)[8] == 'V');
    assert(("KC_RESERVED_252"@)[9] == 'E');
    assert(("KC_RESERVED_252"@)[10] == 'D');
    assert(("KC_RESERVED_252"@)[11] == '_');
    assert(("KC_RESERVED_252"@)[12] == '2');
    assert(("KC_RESERVED_252"@)[13] == '5');
    assert(("KC_RESERVED_252"@)[14] == '2');
    assert(("KC_RESERVED_253"@).len() == 15);
    assert(("KC_RESERVED_253"@)[0] == 'K');
    assert(("KC_RESERVED_253"@)[1] == 'C');
    assert(("KC_RESERVED_253"@)[2] == '_');
    assert(("KC_RESERVED_253"@)[3] == 'R');
    assert(("KC_RESERVED_253"@)[4] == 'E');
    assert(("KC_RESERVED_253"@)[5] == 'S');
    assert(("KC_RESERVED_253"@)[6] == 'E');
    assert(("KC_RESERVED_253"@)[7] == 'R');
    assert(("KC_RESERVED_253"@)[8] == 'V');
    assert(("KC_RESERVED_253"@)[9] == 'E');
    assert(("KC_RESERVED_253"@)[10] == 'D');
    assert(("KC_RESERVED_253"@)[11] == '_');
    assert(("KC_RESERVED_253"@)[12] == '2');
    assert(("KC_RESERVED_253"@)[13] == '5');
    assert(("KC_RESERVED_253"@)[14] == '3');
    assert(("KC_RESERVED_254"@).len() == 15);
    assert(("KC_RESERVED_254"@)[0] == 'K');
    assert(("KC_RESERVED_254"@)[1] == 'C');
    assert(("KC_RESERVED_254"@)[2] == '_');
    assert(("KC_RESERVED_254"@)[3] == 'R');
    assert(("KC_RESERVED_254"@)[4] == 'E');
    assert(("KC_RESERVED_254"@)[5] == 'S');
    assert(("KC_RESERVED_254"@)[6] == 'E');
    assert(("KC_RESERVED_254"@)[7] == 'R');
    assert(("KC_RESERVED_254"@)[8] == 'V');
    assert(("KC_RESERVED_254"@)[9] == 'E');
    assert(("KC_RESERVED_254"@)[10] == 'D');
    assert(("KC_RESERVED_254"@)[11] == '_');
    assert(("KC_RESERVED_254"@)[12] == '2');
    assert(("KC_RESERVED_254"@)[13] == '5');
    assert(("KC_RESERVED_254"@)[14] == '4');
    assert(("KC_RESERVED_255"@).len() == 15);
    assert(("KC_RESERVED_255"@)[0] == 'K');
    assert(("KC_RESERVED_255"@)[1] == 'C');
    assert(("KC_RESERVED_255"@)[2] == '_');
    assert(("KC_RESERVED_255"@)[3] == 'R');
    assert(("KC_RESERVED_255"@)[4] == 'E');
    assert(("KC_RESERVED_255"@)[5] == 'S');
    assert(("KC_RESERVED_255"@)[6] == 'E');
    assert(("KC_RESERVED_255"@)[7] == 'R');
    assert(("KC_RESERVED_255"@)[8] == 'V');
    assert(("KC_RESERVED_255"@)[9] == 'E');
    assert(("KC_RESERVED_255"@)[10] == 'D');
    assert(("KC_RESERVED_255"@)[11] == '_');
    assert(("KC_RESERVED_255"@)[12] == '2');
    assert(("KC_RESERVED_255"@)[13] == '5');
    assert(("KC_RESERVED_255"@)[14] == '5');
}

/// No two keycodes share a symbolic name.
#[verifier::rlimit(100)]
pub proof fn lemma_key_name_injective(i: int, j: int)
    requires
        0 <= i < 256,
        0 <= j < 256,
        i != j,
    ensures
        key_name(i) != key_name(j),
{
    lemma_name_facts_block_0();
    lemma_name_facts_block_1();
    lemma_name_facts_block_2();
    lemma_name_facts_block_3();
    lemma_name_facts_block_4();
    lemma_name_facts_block_5();
    lemma_name_facts_block_6();
    lemma_name_facts_block_7();
    lemma_name_facts_block_8();
    lemma_name_facts_block_9();
    lemma_name_facts_block_10();
    lemma_name_facts_block_11();
    lemma_name_facts_block_12();
    lemma_name_facts_block_13();
    lemma_name_facts_block_14();
    lemma_name_facts_block_15();
}

/// The least keycode at or above `c` whose name is `s`, if any: the
/// mathematical counterpart of the linear search in [`code_for`].
pub open spec fn key_code_from(s: Seq<char>, c: int) -> Option<u8>
    decreases 256 - c,
{
    if c < 0 || c >= 256 {
        None
    } else if key_name(c) == s {
        Some(c as u8)
    } else {
        key_code_from(s, c + 1)
    }
}

/// The keycode whose symbolic name is `s`, if the table holds one.
pub open spec fn key_code(s: Seq<char>) -> Option<u8> {
    key_code_from(s, 0)
}

proof fn lemma_key_code_from_found(s: Seq<char>, lo: int, c: int)
    requires
        0 <= lo <= c < 256,
        key_name(c) == s,
        forall|k: int| lo <= k < c ==> key_name(k) != s,
    ensures
        key_code_from(s, lo) == Some(c as u8),
    decreases c - lo,
{
    if lo < c {
        lemma_key_code_from_found(s, lo + 1, c);
    }
}

proof fn lemma_key_code_from_none(s: Seq<char>, lo: int)
    requires
        0 <= lo,
        forall|k: int| lo <= k < 256 ==> key_name(k) != s,
    ensures
        key_code_from(s, lo) is None,
    decreases 256 - lo,
{
    if lo < 256 {
        lemma_key_code_from_none(s, lo + 1);
    }
}

/// Direct table lookup: the canonical symbolic name of `code`.
pub fn name_for(code: u8) -> (r: &'static str)
    ensures
        r@ == key_name(code as int),
{
    match code {
        0 => "KC_NO",
        1 => "KC_ROLL_OVER",
        2 => "KC_POST_FAIL",
        3 => "KC_UNDEFINED",
        4 => "KC_A",
        5 => "KC_B",
        6 => "KC_C",
        7 => "KC_D",
        8 => "KC_E",
        9 => "KC_F",
        10 => "KC_G",
        11 => "KC_H",
        12 => "KC_I",
        13 => "KC_J",
        14 => "KC_K",
        15 => "KC_L",
        16 => "KC_M",
        17 => "KC_N",
        18 => "KC_O",
        19 => "KC_P",
        20 => "KC_Q",
        21 => "KC_R",
        22 => "KC_S",
        23 => "KC_T",
        24 => "KC_U",
        25 => "KC_V",
        26 => "KC_W",
        27 => "KC_X",
        28 => "KC_Y",
        29 => "KC_Z",
        30 => "KC_1",
        31 => "KC_2",
        32 => "KC_3",
        33 => "KC_4",
        34 => "KC_5",
        35 => "KC_6",
        36 => "KC_7",
        37 => "KC_8",
        38 => "KC_9",
        39 => "KC_0",
        40 => "KC_ENTER",
        41 => "KC_ESCAPE",
        42 => "KC_BACKSPACE",
        43 => "KC_TAB",
        44 => "KC_SPACE",
        45 => "KC_MINUS",
        46 => "KC_EQUAL",
        47 => "KC_LEFT_BRACKET",
        48 => "KC_RIGHT_BRACKET",
        49 => "KC_BACKSLASH",
        50 => "KC_NONUS_HASH",
        51 => "KC_SEMICOLON",
        52 => "KC_QUOTE",
        53 => "KC_GRAVE",
        54 => "KC_COMMA",
        55 => "KC_DOT",
        56 => "KC_SLASH",
        57 => "KC_CAPS_LOCK",
        58 => "KC_F1",
        59 => "KC_F2",
        60 => "KC_F3",
        61 => "KC_F4",
        62 => "KC_F5",
        63 => "KC_F6",
        64 => "KC_F7",
        65 => "KC_F8",
        66 => "KC_F9",
        67 => "KC_F10",
        68 => "KC_F11",
        69 => "KC_F12",
        70 => "KC_PRINT_SCREEN",
        71 => "KC_SCROLL_LOCK",
        72 => "KC_PAUSE",
        73 => "KC_INSERT",
        74 => "KC_HOME",
        75 => "KC_PAGE_UP",
        76 => "KC_DELETE",
        77 => "KC_END",
        78 => "KC_PAGE_DOWN",
        79 => "KC_RIGHT",
        80 => "KC_LEFT",
        81 => "KC_DOWN",
        82 => "KC_UP",
        83 => "KC_NUM_LOCK",
        84 => "KC_KP_SLASH",
        85 => "KC_KP_ASTERISK",
        86 => "KC_KP_MINUS",
        87 => "KC_KP_PLUS",
        88 => "KC_KP_ENTER",
        89 => "KC_KP_1",
        90 => "KC_KP_2",
        91 => "KC_KP_3",
        92 => "KC_KP_4",
        93 => "KC_KP_5",
        94 => "KC_KP_6",
        95 => "KC_KP_7",
        96 => "KC_KP_8",
        97 => "KC_KP_9",
        98 => "KC_KP_0",
        99 => "KC_KP_DOT",
        100 => "KC_NONUS_BACKSLASH",
        101 => "KC_APPLICATION",
        102 => "KC_KB_POWER",
        103 => "KC_KP_EQUAL",
        104 => "KC_F13",
        105 => "KC_F14",
        106 => "KC_F15",
        107 => "KC_F16",
        108 => "KC_F17",
        109 => "KC_F18",
        110 => "KC_F19",
        111 => "KC_F20",
        112 => "KC_F21",
        113 => "KC_F22",
        114 => "KC_F23",
        115 => "KC_F24",
        116 => "KC_EXECUTE",
        117 => "KC_HELP",
        118 => "KC_MENU",
        119 => "KC_SELECT",
        120 => "KC_STOP",
        121 => "KC_AGAIN",
        122 => "KC_UNDO",
        123 => "KC_CUT",
        124 => "KC_COPY",
        125 => "KC_PASTE",
        126 => "KC_FIND",
        127 => "KC_KB_MUTE",
        128 => "KC_KB_VOLUME_UP",
        129 => "KC_KB_VOLUME_DOWN",
        130 => "KC_LOCKING_CAPS_LOCK",
        131 => "KC_LOCKING_NUM_LOCK",
        132 => "KC_LOCKING_SCROLL_LOCK",
        133 => "KC_KP_COMMA",
        134 => "KC_KP_EQUAL_AS400",
        135 => "KC_INTERNATIONAL_1",
        136 => "KC_INTERNATIONAL_2",
        137 => "KC_INTERNATIONAL_3",
        138 => "KC_INTERNATIONAL_4",
        139 => "KC_INTERNATIONAL_5",
        140 => "KC_INTERNATIONAL_6",
        141 => "KC_INTERNATIONAL_7",
        142 => "KC_INTERNATIONAL_8",
        143 => "KC_INTERNATIONAL_9",
        144 => "KC_LANGUAGE_1",
        145 => "KC_LANGUAGE_2",
        146 => "KC_LANGUAGE_3",
        147 => "KC_LANGUAGE_4",
        148 => "KC_LANGUAGE_5",
        149 => "KC_LANGUAGE_6",
        150 => "KC_LANGUAGE_7",
        151 => "KC_LANGUAGE_8",
        152 => "KC_LANGUAGE_9",
        153 => "KC_ALTERNATE_ERASE",
        154 => "KC_SYSTEM_REQUEST",
        155 => "KC_CANCEL",
        156 => "KC_CLEAR",
        157 => "KC_PRIOR",
        158 => "KC_RETURN",
        159 => "KC_SEPARATOR",
        160 => "KC_OUT",
        161 => "KC_OPER",
        162 => "KC_CLEAR_AGAIN",
        163 => "KC_CRSEL",
        164 => "KC_EXSEL",
        165 => "KC_RESERVED_165",
        166 => "KC_RESERVED_166",
        167 => "KC_RESERVED_167",
        168 => "KC_RESERVED_168",
        169 => "KC_RESERVED_169",
        170 => "KC_RESERVED_170",
        171 => "KC_RESERVED_171",
        172 => "KC_RESERVED_172",
        173 => "KC_RESERVED_173",
        174 => "KC_RESERVED_174",
        175 => "KC_RESERVED_175",
        176 => "KC_RESERVED_176",
        177 => "KC_RESERVED_177",
        178 => "KC_RESERVED_178",
        179 => "KC_RESERVED_179",
        180 => "KC_RESERVED_180",
        181 => "KC_RESERVED_181",
        182 => "KC_RESERVED_182",
        183 => "KC_RESERVED_183",
        184 => "KC_RESERVED_184",
        185 => "KC_RESERVED_185",
        186 => "KC_RESERVED_186",
        187 => "KC_RESERVED_187",
        188 => "KC_RESERVED_188",
        189 => "KC_RESERVED_189",
        190 => "KC_RESERVED_190",
        191 => "KC_RESERVED_191",
        192 => "KC_RESERVED_192",
        193 => "KC_RESERVED_193",
        194 => "KC_RESERVED_194",
        195 => "KC_RESERVED_195",
        196 => "KC_RESERVED_196",
        197 => "KC_RESERVED_197",
        198 => "KC_RESERVED_198",
        199 => "KC_RESERVED_199",
        200 => "KC_RESERVED_200",
        201 => "KC_RESERVED_201",
        202 => "KC_RESERVED_202",
        203 => "KC_RESERVED_203",
        204 => "KC_RESERVED_204",
        205 => "KC_RESERVED_205",
        206 => "KC_RESERVED_206",
        207 => "KC_RESERVED_207",
        208 => "KC_RESERVED_208",
        209 => "KC_RESERVED_209",
        210 => "KC_RESERVED_210",
        211 => "KC_RESERVED_211",
        212 => "KC_RESERVED_212",
        213 => "KC_RESERVED_213",
        214 => "KC_RESERVED_214",
        215 => "KC_RESERVED_215",
        216 => "KC_RESERVED_216",
        217 => "KC_RESERVED_217",
        218 => "KC_RESERVED_218",
        219 => "KC_RESERVED_219",
        220 => "KC_RESERVED_220",
        221 => "KC_RESERVED_221",
        222 => "KC_RESERVED_222",
        223 => "KC_RESERVED_223",
        224 => "KC_LEFT_CTRL",
        225 => "KC_LEFT_SHIFT",
        226 => "KC_LEFT_ALT",
        227 => "KC_LEFT_GUI",
        228 => "KC_RIGHT_CTRL",
        229 => "KC_RIGHT_SHIFT",
        230 => "KC_RIGHT_ALT",
        231 => "KC_RIGHT_GUI",
        232 => "KC_RESERVED_232",
        233 => "KC_RESERVED_233",
        234 => "KC_RESERVED_234",
        235 => "KC_RESERVED_235",
        236 => "KC_RESERVED_236",
        237 => "KC_RESERVED_237",
        238 => "KC_RESERVED_238",
        239 => "KC_RESERVED_239",
        240 => "KC_RESERVED_240",
        241 => "KC_RESERVED_241",
        242 => "KC_RESERVED_242",
        243 => "KC_RESERVED_243",
        244 => "KC_RESERVED_244",
        245 => "KC_RESERVED_245",
        246 => "KC_RESERVED_246",
        247 => "KC_RESERVED_247",
        248 => "KC_RESERVED_248",
        249 => "KC_RESERVED_249",
        250 => "KC_RESERVED_250",
        251 => "KC_RESERVED_251",
        252 => "KC_RESERVED_252",
        253 => "KC_RESERVED_253",
        254 => "KC_RESERVED_254",
        _ => "KC_RESERVED_255",
    }
}

/// Linear search for the first table position whose name equals `name`;
/// `None` when no position matches.
pub fn code_for(name: &str) -> (r: Option<u8>)
    ensures
        r == key_code(name@),
{
    let target: String = name.to_owned();
    let mut c: usize = 0;
    while c < 256
        invariant
            c <= 256,
            target@ == name@,
            forall|k: int| 0 <= k < c ==> key_name(k) != name@,
        decreases 256 - c,
    {
        let entry: String = name_for(c as u8).to_owned();
        if entry == target {
            proof {
                lemma_key_code_from_found(name@, 0, c as int);
            }
            return Some(c as u8);
        }
        c += 1;
    }
    proof {
        lemma_key_code_from_none(name@, 0);
    }
    None
}

/// Numeric-to-symbolic round trip: looking a keycode's name back up finds
/// exactly that keycode, for every keycode.
pub proof fn lemma_name_code_roundtrip(c: u8)
    ensures
        key_code(key_name(c as int)) == Some(c),
{
    assert forall|k: int| 0 <= k < c as int implies key_name(k) != key_name(c as int) by {
        lemma_key_name_injective(k, c as int);
    }
    lemma_key_code_from_found(key_name(c as int), 0, c as int);
}

} // verus!
