use faithful::decompiler::decompile::Decompiler;
use faithful::decompiler::script::{Field, Script, FIELD_CONSTANT, FIELD_INTERNAL, FIELD_USER, MAX_CODES};
use faithful::decompiler::tokens::{build_internal_map, build_token_map, command_param_count};

const IF: u16 = 1000;
const ELSE: u16 = 1001;
const ENDIF: u16 = 1002;
const BEGIN: u16 = 1003;
const END: u16 = 1004;
const EVERY: u16 = 1005;
const DO: u16 = 1006;
const SET: u16 = 1007;
const INCREMENT: u16 = 1008;
const DECREMENT: u16 = 1009;
const GT: u16 = 1012;
const NE: u16 = 1015;
const SCRIPT_END: u16 = 1019;
const AND: u16 = 1020;
const ON: u16 = 1022;
const MULTIPLY: u16 = 1025;
const DIVIDE: u16 = 1026;
const CONSTRUCT_BUILDING: u16 = 1028;
const RESET_BASE_MARKER: u16 = 1065;

fn script(words: &[u16], fields: &[(u32, i32)]) -> Script {
    let mut codes = words.to_vec();
    codes.resize(MAX_CODES, 0);
    Script {
        codes,
        fields: fields.iter().map(|&(t, v)| Field { field_type: t, value: v }).collect(),
    }
}

fn run(words: &[u16], fields: &[(u32, i32)]) -> (Result<String, String>, Vec<String>) {
    let mut d = Decompiler::new(script(words, fields));
    let r = d.decompile();
    let w = d.warnings().clone();
    (r, w)
}

#[test]
fn token_map_names_control_and_command_codes() {
    let m = build_token_map();
    assert_eq!(m.get(&BEGIN), Some(&"BEGIN"));
    assert_eq!(m.get(&SCRIPT_END), Some(&"SCRIPT_END"));
    assert_eq!(m.get(&1018), None);
    assert_eq!(m.get(&CONSTRUCT_BUILDING), Some(&"CONSTRUCT_BUILDING"));
    assert_eq!(m.get(&1223), Some(&"IS_PRISON_ON_LEVEL"));
}

#[test]
fn internal_map_names_direct_and_offset_indices() {
    let m = build_internal_map();
    assert_eq!(m.get(&0), Some(&"GAME_TURN"));
    assert_eq!(m.get(&14), Some(&"GREEN_MANA"));
    assert_eq!(m.get(&1048), Some(&"MY_MANA"));
    assert_eq!(m.get(&15), None);
}

#[test]
fn command_param_counts() {
    assert_eq!(command_param_count("CONSTRUCT_BUILDING"), 2);
    assert_eq!(command_param_count("ATTACK"), 13);
    assert_eq!(command_param_count("SPELL_ATTACK"), 6);
    assert_eq!(command_param_count("RESET_BASE_MARKER"), 0);
    assert_eq!(command_param_count("NOT_A_COMMAND"), 0);
}

#[test]
fn read_refuses_short_file() {
    let r = Script::read(&[0u8; 10]);
    assert_eq!(r.unwrap_err(), "File too small for codes: 10 bytes");
}

#[test]
fn read_decodes_codes_and_whole_fields() {
    let mut data = vec![0u8; 2 * MAX_CODES];
    data[0] = 12;
    data[2] = 0xEB;
    data[3] = 0x03;
    // one field: type 1, value -2; then three stray bytes
    data.extend_from_slice(&[1, 0, 0, 0, 0xFE, 0xFF, 0xFF, 0xFF, 9, 9, 9]);
    let s = Script::read(&data).unwrap();
    assert_eq!(s.codes.len(), MAX_CODES);
    assert_eq!(s.codes[0], 12);
    assert_eq!(s.codes[1], BEGIN);
    assert_eq!(s.fields, vec![Field { field_type: FIELD_USER, value: -2 }]);
}

#[test]
fn read_caps_fields_at_512() {
    let data = vec![0u8; 2 * MAX_CODES + 8 * 600];
    let s = Script::read(&data).unwrap();
    assert_eq!(s.fields.len(), 512);
}

#[test]
fn empty_body_gives_empty_text() {
    let (r, w) = run(&[12, BEGIN, END], &[]);
    assert_eq!(r.unwrap(), "");
    assert!(w.is_empty());
}

#[test]
fn script_end_closes_the_body() {
    let (r, _) = run(&[12, BEGIN, SCRIPT_END], &[]);
    assert_eq!(r.unwrap(), "");
}

#[test]
fn set_increment_decrement() {
    let fields = [(FIELD_USER, 3), (FIELD_CONSTANT, 5)];
    let (r, _) = run(&[12, BEGIN, SET, 0, 1, INCREMENT, 0, 1, DECREMENT, 0, 1, END], &fields);
    assert_eq!(r.unwrap(), "$var3 = 5\n$var3 = $var3 + 5\n$var3 = $var3 - 5\n");
}

#[test]
fn multiply_and_divide() {
    let fields = [(FIELD_USER, 1), (FIELD_CONSTANT, 6), (FIELD_CONSTANT, -2)];
    let (r, _) = run(&[12, BEGIN, MULTIPLY, 0, 1, 2, DIVIDE, 0, 1, 2, END], &fields);
    assert_eq!(r.unwrap(), "$var1 = 6 * -2\n$var1 = 6 / -2\n");
}

#[test]
fn if_else_with_command_and_indentation() {
    let fields = [(FIELD_INTERNAL, 1), (FIELD_CONSTANT, 5)];
    let words = [
        12, BEGIN, IF, GT, 0, 1, BEGIN, DO, CONSTRUCT_BUILDING, ON, 1, END, ELSE, BEGIN, DO,
        RESET_BASE_MARKER, END, ENDIF, END,
    ];
    let (r, _) = run(&words, &fields);
    assert_eq!(
        r.unwrap(),
        "if (MY_NUM_PEOPLE > 5) then\n    CONSTRUCT_BUILDING(ON, 5)\nelse\n    RESET_BASE_MARKER()\nend\n"
    );
}

#[test]
fn and_condition_and_not_equal() {
    let fields = [(FIELD_USER, 0), (FIELD_CONSTANT, 1)];
    let words = [12, BEGIN, IF, AND, NE, 0, 1, GT, 1, 0, BEGIN, END, END];
    let (r, _) = run(&words, &fields);
    assert_eq!(r.unwrap(), "if (($var0 ~= 1 and 1 > $var0)) then\nend\n");
}

#[test]
fn unknown_condition_becomes_true() {
    let words = [12, BEGIN, IF, 7, BEGIN, END, END];
    let (r, w) = run(&words, &[]);
    assert_eq!(r.unwrap(), "if (true) then\nend\n");
    assert_eq!(w, vec!["Unknown condition code 7 at pos 3".to_string()]);
}

#[test]
fn every_with_and_without_offset() {
    let fields = [(FIELD_CONSTANT, 3), (FIELD_CONSTANT, 9), (FIELD_CONSTANT, 2), (FIELD_CONSTANT, -1)];
    let words = [
        12, BEGIN, EVERY, 0, BEGIN, SET, 1, 0, END, EVERY, 1, 2, BEGIN, END, EVERY, 1, 3, BEGIN, END,
        END,
    ];
    let (r, _) = run(&words, &fields);
    assert_eq!(
        r.unwrap(),
        "EVERY(4)\n    9 = 3\nEND_EVERY\nEVERY(10, 3)\nEND_EVERY\nEVERY(10)\nEND_EVERY\n"
    );
}

#[test]
fn field_texts_for_missing_internal_and_unknown_kinds() {
    let fields = [(FIELD_INTERNAL, 1500), (7, 0), (FIELD_INTERNAL, 1048)];
    let (r, _) = run(&[12, BEGIN, SET, 0, 9, SET, 1, 2, END], &fields);
    assert_eq!(r.unwrap(), "INT_1500 = ?field_9\n?unknown_1 = MY_MANA\n");
}

#[test]
fn unknown_codes_and_stray_tokens_are_skipped_with_warnings() {
    let (r, w) = run(&[12, BEGIN, 5, ON, END], &[]);
    assert_eq!(r.unwrap(), "");
    assert_eq!(
        w,
        vec!["Unknown code 5 at pos 2".to_string(), "Unexpected token 'ON' at pos 3".to_string()]
    );
}

#[test]
fn unexpected_version_is_a_warning() {
    let (r, w) = run(&[11, BEGIN, END], &[]);
    assert_eq!(r.unwrap(), "");
    assert_eq!(w, vec!["Unexpected version: 11 (expected 12)".to_string()]);
}

#[test]
fn missing_begin_is_an_error() {
    let (r, _) = run(&[12, SET, END], &[]);
    assert_eq!(r.unwrap_err(), "Expected BEGIN at pos 1, got 1007");
}

#[test]
fn overrunning_the_codes_is_reported_by_try_decompile() {
    let s = Script { codes: vec![12, BEGIN, SET, 0], fields: vec![] };
    let mut d = Decompiler::new(s);
    assert!(d.try_decompile().is_none());
}

#[test]
fn try_decompile_agrees_with_decompile() {
    let mut d = Decompiler::new(script(&[12, BEGIN, SET, 0, 0, END], &[(FIELD_CONSTANT, 8)]));
    assert_eq!(d.try_decompile(), Some(Ok("8 = 8\n".to_string())));
}

#[test]
fn every_operand_at_top_of_range_stops() {
    let s = script(&[12, BEGIN, EVERY, 0, BEGIN, END, END], &[(FIELD_CONSTANT, i32::MAX)]);
    let mut d = Decompiler::new(s);
    assert!(d.try_decompile().is_none());
}

#[test]
fn reaching_end_of_code_array_is_an_error() {
    let mut codes = vec![0u16; MAX_CODES + 2];
    codes[0] = 12;
    codes[1] = BEGIN;
    let mut d = Decompiler::new(Script { codes, fields: vec![] });
    assert_eq!(d.try_decompile(), Some(Err("Reached end of code array".to_string())));
}
