//! Recursive-descent decompilation of a script's code words into Lua text.
//!
//! A script body is `BEGIN statement* END`; statements are IF/ELSE/ENDIF with a
//! prefix condition, EVERY blocks, DO commands with their parameters, and
//! SET/INCREMENT/DECREMENT/MULTIPLY/DIVIDE on fields. Unknown codes are skipped
//! with a warning. Running off the code array, or an EVERY operand at the top of
//! the signed range, stops decompilation (`Aborted`).
use vstd::prelude::*;
use std::collections::HashMap;
use crate::text::{decimal, push_decimal_i64};
use super::tokens::{
    build_internal_map, build_token_map, command_param_count, internal_map, param_count, str_eq,
    token_map,
};
use super::script::{Field, Script, FIELD_CONSTANT, FIELD_INTERNAL, FIELD_USER, MAX_CODES};
use crate::text::push_decimal_u64;

verus! {

broadcast use vstd::std_specs::hash::group_hash_axioms;

/// Script format version this decompiler expects.
pub const SCRIPT_VERSION: u16 = 12;

/// Decoder state as plain values: position in the code words, Lua text so far,
/// indentation depth, and warnings.
#[verifier::ext_equal]
pub struct DecodeState {
    pub pos: int,
    pub out: Seq<char>,
    pub indent: int,
    pub warnings: Seq<Seq<char>>,
}

/// Result of decoding a construct: the state after it, an error message, or an
/// abort (the code array was overrun or an operand overflowed).
pub enum Outcome {
    Done(DecodeState),
    Failed(Seq<char>),
    Aborted,
}

/// Code `code` is the token named `name`.
pub open spec fn tok_is(code: u16, name: Seq<char>) -> bool {
    token_map().contains_key(code) && token_map()[code]@ == name
}

/// `s` at position `p`.
pub open spec fn at(s: DecodeState, p: int) -> DecodeState {
    DecodeState { pos: p, ..s }
}

/// `s` with `t` appended to the text.
pub open spec fn emit(s: DecodeState, t: Seq<char>) -> DecodeState {
    DecodeState { out: s.out + t, ..s }
}

/// `s` with warning `w` recorded.
pub open spec fn warn(s: DecodeState, w: Seq<char>) -> DecodeState {
    DecodeState { warnings: s.warnings.push(w), ..s }
}

/// `s` with its indentation changed by `d`.
pub open spec fn indented(s: DecodeState, d: int) -> DecodeState {
    DecodeState { indent: s.indent + d, ..s }
}

/// Four spaces per indentation level.
pub open spec fn indent_text(n: int) -> Seq<char>
    decreases n,
{
    if n <= 0 {
        Seq::empty()
    } else {
        indent_text(n - 1) + "    "@
    }
}

/// Lua text of a field operand: constants as numbers, user variables as
/// `$varN`, internals by name (or `INT_N`), unknown kinds and missing fields marked.
pub open spec fn field_text(f: Seq<Field>, code: u16) -> Seq<char> {
    if code as int >= f.len() {
        "?field_"@ + decimal(code as int)
    } else {
        let fl = f[code as int];
        if fl.field_type == FIELD_CONSTANT {
            decimal(fl.value as int)
        } else if fl.field_type == FIELD_USER {
            "$var"@ + decimal(fl.value as int)
        } else if fl.field_type == FIELD_INTERNAL {
            let idx = fl.value as u16;
            if internal_map().contains_key(idx) {
                internal_map()[idx]@
            } else {
                "INT_"@ + decimal(idx as int)
            }
        } else {
            "?unknown_"@ + decimal(code as int)
        }
    }
}

/// Comparison operators of conditions.
pub open spec fn is_comparison(name: Seq<char>) -> bool {
    name == ">"@ || name == "<"@ || name == "=="@ || name == "!="@ || name == ">="@ || name == "<="@
}

/// A block `BEGIN statement* END`.
pub open spec fn body(c: Seq<u16>, f: Seq<Field>, s: DecodeState) -> Outcome
    decreases c.len() - s.pos, 0int,
{
    if s.pos < 0 || s.pos >= c.len() {
        Outcome::Aborted
    } else if !tok_is(c[s.pos], "BEGIN"@) {
        Outcome::Failed("Expected BEGIN at pos "@ + decimal(s.pos) + ", got "@ + decimal(c[s.pos] as int))
    } else {
        body_loop(c, f, at(s, s.pos + 1))
    }
}

/// The statements of a block up to its `END` (or the script's end marker).
pub open spec fn body_loop(c: Seq<u16>, f: Seq<Field>, s: DecodeState) -> Outcome
    decreases c.len() - s.pos, 2int,
{
    if s.pos < 0 || s.pos >= c.len() {
        Outcome::Aborted
    } else if tok_is(c[s.pos], "END"@) {
        Outcome::Done(at(s, s.pos + 1))
    } else if tok_is(c[s.pos], "SCRIPT_END"@) {
        Outcome::Done(s)
    } else if s.pos >= MAX_CODES {
        Outcome::Failed("Reached end of code array"@)
    } else {
        match stmt(c, f, s) {
            Outcome::Done(s2) => if s.pos < s2.pos <= c.len() {
                body_loop(c, f, s2)
            } else {
                Outcome::Done(s2)
            },
            other => other,
        }
    }
}

/// One statement, chosen by its leading token; other codes are skipped with a warning.
pub open spec fn stmt(c: Seq<u16>, f: Seq<Field>, s: DecodeState) -> Outcome
    decreases c.len() - s.pos, 1int,
{
    if s.pos < 0 || s.pos >= c.len() {
        Outcome::Aborted
    } else {
        let code = c[s.pos];
        if tok_is(code, "IF"@) {
            if_stmt(c, f, s)
        } else if tok_is(code, "EVERY"@) {
            every_stmt(c, f, s)
        } else if tok_is(code, "DO"@) {
            do_stmt(c, f, s)
        } else if tok_is(code, "SET"@) {
            assign_stmt(c, f, s, 0)
        } else if tok_is(code, "INCREMENT"@) {
            assign_stmt(c, f, s, 1)
        } else if tok_is(code, "DECREMENT"@) {
            assign_stmt(c, f, s, 2)
        } else if tok_is(code, "MULTIPLY"@) {
            arith_stmt(c, f, s, true)
        } else if tok_is(code, "DIVIDE"@) {
            arith_stmt(c, f, s, false)
        } else if token_map().contains_key(code) {
            Outcome::Done(
                at(
                    warn(s, "Unexpected token '"@ + token_map()[code]@ + "' at pos "@ + decimal(s.pos)),
                    s.pos + 1,
                ),
            )
        } else {
            Outcome::Done(
                at(warn(s, "Unknown code "@ + decimal(code as int) + " at pos "@ + decimal(s.pos)), s.pos + 1),
            )
        }
    }
}

/// `IF condition block [ELSE block] [ENDIF]` as `if (...) then ... [else ...] end`.
pub open spec fn if_stmt(c: Seq<u16>, f: Seq<Field>, s: DecodeState) -> Outcome
    decreases c.len() - s.pos, 0int,
{
    if s.pos < 0 || s.pos >= c.len() {
        Outcome::Aborted
    } else {
        let s1 = emit(at(s, s.pos + 1), indent_text(s.indent) + "if ("@);
        match cond(c, f, s1) {
            Outcome::Done(s2) => if s.pos < s2.pos <= c.len() {
                match body(c, f, indented(emit(s2, ") then\n"@), 1)) {
                    Outcome::Done(s3) => if s.pos < s3.pos <= c.len() {
                        if_tail(c, f, indented(s3, -1))
                    } else {
                        Outcome::Done(s3)
                    },
                    other => other,
                }
            } else {
                Outcome::Done(s2)
            },
            other => other,
        }
    }
}

/// The optional ELSE block and ENDIF of an IF.
pub open spec fn if_tail(c: Seq<u16>, f: Seq<Field>, s: DecodeState) -> Outcome
    decreases c.len() - s.pos, 0int,
{
    if s.pos < 0 || s.pos >= c.len() {
        Outcome::Aborted
    } else if tok_is(c[s.pos], "ELSE"@) {
        let s1 = indented(emit(at(s, s.pos + 1), indent_text(s.indent) + "else\n"@), 1);
        match body(c, f, s1) {
            Outcome::Done(s2) => if s.pos < s2.pos <= c.len() {
                endif_tail(c, indented(s2, -1))
            } else {
                Outcome::Done(s2)
            },
            other => other,
        }
    } else {
        endif_tail(c, s)
    }
}

/// An optional ENDIF, then `end`.
pub open spec fn endif_tail(c: Seq<u16>, s: DecodeState) -> Outcome {
    if s.pos < 0 || s.pos >= c.len() {
        Outcome::Aborted
    } else {
        let s1 = if tok_is(c[s.pos], "ENDIF"@) { at(s, s.pos + 1) } else { s };
        Outcome::Done(emit(s1, indent_text(s1.indent) + "end\n"@))
    }
}

/// A prefix condition: AND/OR of two conditions, or a comparison of two fields.
pub open spec fn cond(c: Seq<u16>, f: Seq<Field>, s: DecodeState) -> Outcome
    decreases c.len() - s.pos, 0int,
{
    if s.pos < 0 || s.pos >= c.len() {
        Outcome::Aborted
    } else {
        let code = c[s.pos];
        if tok_is(code, "AND"@) || tok_is(code, "OR"@) {
            let conj: Seq<char> = if tok_is(code, "AND"@) { " and "@ } else { " or "@ };
            match cond(c, f, emit(at(s, s.pos + 1), "("@)) {
                Outcome::Done(s2) => if s.pos < s2.pos <= c.len() {
                    match cond(c, f, emit(s2, conj)) {
                        Outcome::Done(s3) => Outcome::Done(emit(s3, ")"@)),
                        other => other,
                    }
                } else {
                    Outcome::Done(s2)
                },
                other => other,
            }
        } else if token_map().contains_key(code) && is_comparison(token_map()[code]@) {
            if s.pos + 2 >= c.len() {
                Outcome::Aborted
            } else {
                let op = token_map()[code]@;
                let lua_op = if op == "!="@ { "~="@ } else { op };
                let lhs = field_text(f, c[s.pos + 1]);
                let rhs = field_text(f, c[s.pos + 2]);
                Outcome::Done(emit(at(s, s.pos + 3), lhs + " "@ + lua_op + " "@ + rhs))
            }
        } else {
            Outcome::Done(
                at(
                    emit(
                        warn(s, "Unknown condition code "@ + decimal(code as int) + " at pos "@ + decimal(s.pos)),
                        "true"@,
                    ),
                    s.pos + 1,
                ),
            )
        }
    }
}

/// The operand value an EVERY reads from field `code` (plus one), or `dflt`
/// when there is no such field.
pub open spec fn every_operand(f: Seq<Field>, code: u16, dflt: int) -> int {
    if (code as int) < f.len() {
        f[code as int].value + 1
    } else {
        dflt
    }
}

/// Reading the EVERY operand would overflow.
pub open spec fn every_operand_overflows(f: Seq<Field>, code: u16) -> bool {
    (code as int) < f.len() && f[code as int].value == i32::MAX
}

/// The EVERY at `pos` has an offset operand: the code after its interval is not BEGIN.
pub open spec fn every_has_offset(c: Seq<u16>, pos: int) -> bool {
    !tok_is(c[pos + 2], "BEGIN"@)
}

/// Decoding the EVERY at `pos` stops: its operands run past the code words,
/// or one of them is at the top of the signed range.
pub open spec fn every_aborts(c: Seq<u16>, f: Seq<Field>, pos: int) -> bool {
    ||| pos < 0
    ||| pos + 2 >= c.len()
    ||| every_operand_overflows(f, c[pos + 1])
    ||| every_has_offset(c, pos) && every_operand_overflows(f, c[pos + 2])
}

/// The header line of the EVERY at `pos`: `EVERY(interval)`, or
/// `EVERY(interval, offset)` when it has a nonzero offset.
pub open spec fn every_head(c: Seq<u16>, f: Seq<Field>, pos: int) -> Seq<char> {
    let interval = every_operand(f, c[pos + 1], 1);
    let offset = if every_has_offset(c, pos) { every_operand(f, c[pos + 2], 0) } else { 0 };
    if every_has_offset(c, pos) && offset != 0 {
        "EVERY("@ + decimal(interval) + ", "@ + decimal(offset) + ")\n"@
    } else {
        "EVERY("@ + decimal(interval) + ")\n"@
    }
}

/// Position of the block of the EVERY at `pos`.
pub open spec fn every_next(c: Seq<u16>, pos: int) -> int {
    if every_has_offset(c, pos) { pos + 3 } else { pos + 2 }
}

/// `EVERY interval [offset] block` as `EVERY(interval[, offset]) ... END_EVERY`.
pub open spec fn every_stmt(c: Seq<u16>, f: Seq<Field>, s: DecodeState) -> Outcome
    decreases c.len() - s.pos, 0int,
{
    if every_aborts(c, f, s.pos) {
        Outcome::Aborted
    } else {
        let s1 = indented(emit(at(s, every_next(c, s.pos)), indent_text(s.indent) + every_head(c, f, s.pos)), 1);
        match body(c, f, s1) {
            Outcome::Done(s2) => if s.pos < s2.pos <= c.len() {
                let s3 = indented(s2, -1);
                Outcome::Done(emit(s3, indent_text(s3.indent) + "END_EVERY\n"@))
            } else {
                Outcome::Done(s2)
            },
            other => other,
        }
    }
}

/// Lua text of a command parameter: a token by name, else a field.
pub open spec fn param_text(f: Seq<Field>, code: u16) -> Seq<char> {
    if token_map().contains_key(code) {
        token_map()[code]@
    } else {
        field_text(f, code)
    }
}

/// Parameters `i..n` of a command, comma separated.
pub open spec fn params(c: Seq<u16>, f: Seq<Field>, s: DecodeState, i: int, n: int) -> Outcome
    decreases n - i,
{
    if i >= n {
        Outcome::Done(s)
    } else if s.pos < 0 || s.pos >= c.len() {
        Outcome::Aborted
    } else {
        let sep: Seq<char> = if i > 0 { ", "@ } else { Seq::empty() };
        params(c, f, emit(at(s, s.pos + 1), sep + param_text(f, c[s.pos])), i + 1, n)
    }
}

/// Name of a command code (`UNKNOWN_CMD` when it is no token).
pub open spec fn command_name(code: u16) -> Seq<char> {
    if token_map().contains_key(code) {
        token_map()[code]@
    } else {
        "UNKNOWN_CMD"@
    }
}

/// `DO command params...` as a call `COMMAND(params)`.
pub open spec fn do_stmt(c: Seq<u16>, f: Seq<Field>, s: DecodeState) -> Outcome {
    if s.pos < 0 || s.pos + 1 >= c.len() {
        Outcome::Aborted
    } else {
        let name = command_name(c[s.pos + 1]);
        let s1 = emit(at(s, s.pos + 2), indent_text(s.indent) + name + "("@);
        match params(c, f, s1, 0, param_count(name) as int) {
            Outcome::Done(s2) => Outcome::Done(emit(s2, ")\n"@)),
            other => other,
        }
    }
}

/// SET (kind 0), INCREMENT (1) or DECREMENT (2) of a target field by a value field.
pub open spec fn assign_stmt(c: Seq<u16>, f: Seq<Field>, s: DecodeState, kind: int) -> Outcome {
    if s.pos < 0 || s.pos + 2 >= c.len() {
        Outcome::Aborted
    } else {
        let target = field_text(f, c[s.pos + 1]);
        let value = field_text(f, c[s.pos + 2]);
        let line = if kind == 0 {
            target + " = "@ + value + "\n"@
        } else if kind == 1 {
            target + " = "@ + target + " + "@ + value + "\n"@
        } else {
            target + " = "@ + target + " - "@ + value + "\n"@
        };
        Outcome::Done(emit(at(s, s.pos + 3), indent_text(s.indent) + line))
    }
}

/// MULTIPLY or DIVIDE: `target = lhs * rhs` or `target = lhs / rhs`.
pub open spec fn arith_stmt(c: Seq<u16>, f: Seq<Field>, s: DecodeState, mul: bool) -> Outcome {
    if s.pos < 0 || s.pos + 3 >= c.len() {
        Outcome::Aborted
    } else {
        let sym: Seq<char> = if mul { "*"@ } else { "/"@ };
        let line = field_text(f, c[s.pos + 1]) + " = "@ + field_text(f, c[s.pos + 2]) + " "@ + sym + " "@
            + field_text(f, c[s.pos + 3]) + "\n"@;
        Outcome::Done(emit(at(s, s.pos + 4), indent_text(s.indent) + line))
    }
}

/// A whole script from state `s`: the version word (a warning when it is not
/// the expected one), then the top-level block.
pub open spec fn decompile_from(c: Seq<u16>, f: Seq<Field>, s: DecodeState) -> Outcome {
    if s.pos < 0 || s.pos >= c.len() {
        Outcome::Aborted
    } else {
        let v = c[s.pos];
        let s1 = if v != SCRIPT_VERSION {
            warn(s, "Unexpected version: "@ + decimal(v as int) + " (expected 12)"@)
        } else {
            s
        };
        body(c, f, at(s1, s.pos + 1))
    }
}


/// The state a decompilation starts from.
pub open spec fn start_state() -> DecodeState {
    DecodeState { pos: 0, out: Seq::empty(), indent: 0, warnings: Seq::empty() }
}

/// Texts of the warnings recorded.
pub open spec fn warnings_of(v: Seq<String>) -> Seq<Seq<char>> {
    v.map_values(|e: String| e@)
}

/// Why decoding stopped before its end.
enum Fault {
    /// The code array was overrun, or an operand overflowed.
    Abort,
    /// The script is malformed; the message says how.
    Error(String),
}

/// An executed step `r` that left the decoder in state `st` agrees with outcome `o`.
spec fn reports(o: Outcome, r: Result<(), Fault>, st: DecodeState) -> bool {
    match r {
        Ok(_) => o == Outcome::Done(st),
        Err(Fault::Abort) => o is Aborted,
        Err(Fault::Error(m)) => o == Outcome::Failed(m@),
    }
}

/// Decompiles one script into Lua text.
pub struct Decompiler {
    script: Script,
    pos: usize,
    tokens: HashMap<u16, &'static str>,
    internals: HashMap<u16, &'static str>,
    output: String,
    indent: usize,
    errors: Vec<String>,
}

/// Decoding steps keep the script and the name tables.
spec fn kept(a: Decompiler, b: Decompiler) -> bool {
    a.script == b.script && a.tokens == b.tokens && a.internals == b.internals
}

/// Appends a warning.
fn push_warning(errors: &mut Vec<String>, m: String)
    ensures
        warnings_of(final(errors)@) == warnings_of(old(errors)@).push(m@),
{
    let ghost m_view = m@;
    errors.push(m);
    assert(warnings_of(errors@) =~= warnings_of(old(errors)@).push(m_view));
}

/// Appends four spaces per indentation level.
fn push_indent(out: &mut String, n: usize)
    ensures
        final(out)@ == old(out)@ + indent_text(n as int),
{
    let mut i: usize = 0;
    assert(old(out)@ + indent_text(0) =~= old(out)@);
    while i < n
        invariant
            0 <= i <= n,
            out@ == old(out)@ + indent_text(i as int),
        decreases n - i,
    {
        out.append("    ");
        i = i + 1;
        assert(out@ =~= old(out)@ + indent_text(i as int));
    }
}

/// Whether a token name is a comparison operator.
fn comparison_op(name: &str) -> (b: bool)
    ensures
        b == is_comparison(name@),
{
    str_eq(name, ">") || str_eq(name, "<") || str_eq(name, "==") || str_eq(name, "!=") || str_eq(
        name,
        ">=",
    ) || str_eq(name, "<=")
}

impl Decompiler {
    /// The script's code words.
    pub closed spec fn codes(&self) -> Seq<u16> {
        self.script.codes@
    }

    /// The script's field records.
    pub closed spec fn fields(&self) -> Seq<Field> {
        self.script.fields@
    }

    /// The decoder state as plain values.
    pub closed spec fn state(&self) -> DecodeState {
        DecodeState {
            pos: self.pos as int,
            out: self.output@,
            indent: self.indent as int,
            warnings: warnings_of(self.errors@),
        }
    }

    /// The name tables are the token and internal tables, and the position
    /// lies within the code words, no shallower than the indentation.
    pub closed spec fn wf(&self) -> bool {
        &&& self.tokens@ == token_map()
        &&& self.internals@ == internal_map()
        &&& self.pos <= self.script.codes@.len()
        &&& self.indent <= self.pos
    }

    /// A decompiler at the start of `script`.
    pub fn new(script: Script) -> (d: Self)
        ensures
            d.wf(),
            d.codes() == script.codes@,
            d.fields() == script.fields@,
            d.state() == start_state(),
    {
        let d = Decompiler {
            script,
            pos: 0,
            tokens: build_token_map(),
            internals: build_internal_map(),
            output: String::new(),
            indent: 0,
            errors: Vec::new(),
        };
        assert(d.state() =~= start_state());
        d
    }

    /// The code word at the current position.
    fn code(&self) -> (c: u16)
        requires
            self.pos < self.script.codes@.len(),
        ensures
            c == self.script.codes@[self.pos as int],
    {
        self.script.codes[self.pos]
    }

    /// The name of token `code`, if it is one.
    fn token_name(&self, code: u16) -> (r: Option<&'static str>)
        requires
            self.wf(),
        ensures
            r == (if token_map().contains_key(code) { Some(token_map()[code]) } else { None }),
    {
        match self.tokens.get(&code) {
            Some(n) => Some(*n),
            None => None,
        }
    }

    /// Whether `code` is the token named `name`.
    fn is_token(&self, code: u16, name: &str) -> (b: bool)
        requires
            self.wf(),
        ensures
            b == tok_is(code, name@),
    {
        match self.token_name(code) {
            Some(n) => str_eq(n, name),
            None => false,
        }
    }

    /// Appends the current indentation.
    fn write_indent(&mut self)
        ensures
            final(self).output@ == old(self).output@ + indent_text(old(self).indent as int),
            final(self).pos == old(self).pos,
            final(self).indent == old(self).indent,
            final(self).errors == old(self).errors,
            kept(*old(self), *final(self)),
    {
        push_indent(&mut self.output, self.indent);
    }

    /// Lua text of field operand `code`.
    fn field_str(&self, code: u16) -> (r: String)
        requires
            self.wf(),
        ensures
            r@ == field_text(self.fields(), code),
    {
        if (code as usize) >= self.script.fields.len() {
            let mut m = String::from_str("?field_");
            push_decimal_u64(&mut m, code as u64);
            return m;
        }
        let f = self.script.fields[code as usize];
        if f.field_type == FIELD_CONSTANT {
            let mut m = String::new();
            push_decimal_i64(&mut m, f.value as i64);
            assert(m@ =~= decimal(f.value as int));
            m
        } else if f.field_type == FIELD_USER {
            let mut m = String::from_str("$var");
            push_decimal_i64(&mut m, f.value as i64);
            m
        } else if f.field_type == FIELD_INTERNAL {
            let idx = f.value as u16;
            match self.internals.get(&idx) {
                Some(name) => String::from_str(*name),
                None => {
                    let mut m = String::from_str("INT_");
                    push_decimal_u64(&mut m, idx as u64);
                    m
                },
            }
        } else {
            let mut m = String::from_str("?unknown_");
            push_decimal_u64(&mut m, code as u64);
            m
        }
    }
    /// `DO command params...` as `COMMAND(params)`.
    fn decompile_do(&mut self) -> (r: Result<(), Fault>)
        requires
            old(self).wf(),
        ensures
            final(self).wf(),
            kept(*old(self), *final(self)),
            reports(do_stmt(old(self).codes(), old(self).fields(), old(self).state()), r, final(self).state()),
            r is Ok ==> old(self).pos < final(self).pos && final(self).indent == old(self).indent,
    {
        let ghost c = self.codes();
        let ghost f = self.fields();
        let ghost s0 = self.state();
        if self.script.codes.len() - self.pos <= 1 {
            return Err(Fault::Abort);
        }
        let cmd_code = self.script.codes[self.pos + 1];
        let cmd_name: &str = match self.token_name(cmd_code) {
            Some(n) => n,
            None => "UNKNOWN_CMD",
        };
        assert(cmd_name@ == command_name(cmd_code));
        self.pos = self.pos + 2;
        self.write_indent();
        self.output.append(cmd_name);
        self.output.append("(");
        let ghost s1 = emit(at(s0, s0.pos + 2), indent_text(s0.indent) + command_name(cmd_code) + "("@);
        assert(self.state() =~= s1);
        let n_params = command_param_count(cmd_name);
        let mut i: usize = 0;
        while i < n_params
            invariant
                self.wf(),
                kept(*old(self), *self),
                c == self.codes(),
                f == self.fields(),
                c == old(self).codes(),
                f == old(self).fields(),
                s0 == old(self).state(),
                s1 == emit(at(s0, s0.pos + 2), indent_text(s0.indent) + command_name(cmd_code) + "("@),
                cmd_code == c[s0.pos + 1],
                n_params == param_count(command_name(cmd_code)),
                0 <= i <= n_params,
                s0.pos + 2 <= self.pos,
                self.indent == s0.indent,
                params(c, f, s1, 0, n_params as int) == params(c, f, self.state(), i as int, n_params as int),
            decreases n_params - i,
        {
            if self.pos >= self.script.codes.len() {
                assert(params(c, f, self.state(), i as int, n_params as int) is Aborted);
                return Err(Fault::Abort);
            }
            let ghost before = self.state();
            if i > 0 {
                self.output.append(", ");
            }
            let code = self.code();
            match self.token_name(code) {
                Some(tok) => self.output.append(tok),
                None => {
                    let t = self.field_str(code);
                    self.output.append(t.as_str());
                },
            }
            self.pos = self.pos + 1;
            i = i + 1;
            let ghost sep: Seq<char> = if i - 1 > 0 { ", "@ } else { Seq::empty() };
            assert(self.state() =~= emit(at(before, before.pos + 1), sep + param_text(f, code)));
        }
        self.output.append(")\n");
        Ok(())
    }

    /// SET, INCREMENT or DECREMENT of a target field by a value field.
    fn decompile_set_inc_dec(&mut self, op: &str) -> (r: Result<(), Fault>)
        requires
            old(self).wf(),
            op@ == "SET"@ || op@ == "INCREMENT"@ || op@ == "DECREMENT"@,
        ensures
            final(self).wf(),
            kept(*old(self), *final(self)),
            reports(
                assign_stmt(
                    old(self).codes(),
                    old(self).fields(),
                    old(self).state(),
                    if op@ == "SET"@ { 0 } else if op@ == "INCREMENT"@ { 1 } else { 2 },
                ),
                r,
                final(self).state(),
            ),
            r is Ok ==> old(self).pos < final(self).pos && final(self).indent == old(self).indent,
    {
        let ghost s0 = self.state();
        if self.script.codes.len() - self.pos <= 2 {
            return Err(Fault::Abort);
        }
        let target = self.field_str(self.script.codes[self.pos + 1]);
        let value = self.field_str(self.script.codes[self.pos + 2]);
        self.pos = self.pos + 3;
        self.write_indent();
        self.output.append(target.as_str());
        self.output.append(" = ");
        if str_eq(op, "SET") {
            self.output.append(value.as_str());
        } else {
            self.output.append(target.as_str());
            if str_eq(op, "INCREMENT") {
                self.output.append(" + ");
            } else {
                self.output.append(" - ");
            }
            self.output.append(value.as_str());
        }
        self.output.append("\n");
        proof {
            let kind = if op@ == "SET"@ { 0int } else if op@ == "INCREMENT"@ { 1int } else { 2int };
            let t = target@;
            let v = value@;
            let line = if kind == 0 {
                t + " = "@ + v + "\n"@
            } else if kind == 1 {
                t + " = "@ + t + " + "@ + v + "\n"@
            } else {
                t + " = "@ + t + " - "@ + v + "\n"@
            };
            assert(self.state() =~= emit(at(s0, s0.pos + 3), indent_text(s0.indent) + line));
        }
        Ok(())
    }

    /// MULTIPLY or DIVIDE: `target = lhs * rhs` or `target = lhs / rhs`.
    fn decompile_mul_div(&mut self, op: &str) -> (r: Result<(), Fault>)
        requires
            old(self).wf(),
        ensures
            final(self).wf(),
            kept(*old(self), *final(self)),
            reports(
                arith_stmt(old(self).codes(), old(self).fields(), old(self).state(), op@ == "MULTIPLY"@),
                r,
                final(self).state(),
            ),
            r is Ok ==> old(self).pos < final(self).pos && final(self).indent == old(self).indent,
    {
        let ghost s0 = self.state();
        if self.script.codes.len() - self.pos <= 3 {
            return Err(Fault::Abort);
        }
        let target = self.field_str(self.script.codes[self.pos + 1]);
        let lhs = self.field_str(self.script.codes[self.pos + 2]);
        let rhs = self.field_str(self.script.codes[self.pos + 3]);
        self.pos = self.pos + 4;
        let sym = if str_eq(op, "MULTIPLY") { "*" } else { "/" };
        self.write_indent();
        self.output.append(target.as_str());
        self.output.append(" = ");
        self.output.append(lhs.as_str());
        self.output.append(" ");
        self.output.append(sym);
        self.output.append(" ");
        self.output.append(rhs.as_str());
        self.output.append("\n");
        proof {
            let symv: Seq<char> = if op@ == "MULTIPLY"@ { "*"@ } else { "/"@ };
            let line = target@ + " = "@ + lhs@ + " "@ + symv + " "@ + rhs@ + "\n"@;
            assert(self.state() =~= emit(at(s0, s0.pos + 4), indent_text(s0.indent) + line));
        }
        Ok(())
    }
    /// A prefix condition: AND/OR of two conditions, or a comparison of two
    /// fields; other codes become `true` with a warning.
    fn decompile_condition(&mut self) -> (r: Result<(), Fault>)
        requires
            old(self).wf(),
        ensures
            final(self).wf(),
            kept(*old(self), *final(self)),
            reports(cond(old(self).codes(), old(self).fields(), old(self).state()), r, final(self).state()),
            r is Ok ==> old(self).pos < final(self).pos && final(self).indent == old(self).indent,
        decreases old(self).script.codes@.len() - old(self).pos,
    {
        let ghost c = self.codes();
        let ghost f = self.fields();
        let ghost s0 = self.state();
        if self.pos >= self.script.codes.len() {
            return Err(Fault::Abort);
        }
        let code = self.code();
        let tok = self.token_name(code);
        let is_and = self.is_token(code, "AND");
        let is_or = self.is_token(code, "OR");
        if is_and || is_or {
            self.pos = self.pos + 1;
            self.output.append("(");
            assert(self.state() =~= emit(at(s0, s0.pos + 1), "("@));
            match self.decompile_condition() {
                Ok(()) => {},
                Err(e) => {
                    return Err(e);
                },
            }
            let ghost s2 = self.state();
            if is_and {
                self.output.append(" and ");
            } else {
                self.output.append(" or ");
            }
            let ghost conj: Seq<char> = if is_and { " and "@ } else { " or "@ };
            assert(self.state() =~= emit(s2, conj));
            match self.decompile_condition() {
                Ok(()) => {},
                Err(e) => {
                    return Err(e);
                },
            }
            let ghost s3 = self.state();
            self.output.append(")");
            assert(self.state() =~= emit(s3, ")"@));
            return Ok(());
        }
        match tok {
            Some(op) => {
                if comparison_op(op) {
                    if self.script.codes.len() - self.pos <= 2 {
                        return Err(Fault::Abort);
                    }
                    let lhs = self.field_str(self.script.codes[self.pos + 1]);
                    let rhs = self.field_str(self.script.codes[self.pos + 2]);
                    self.pos = self.pos + 3;
                    let lua_op = if str_eq(op, "!=") { "~=" } else { op };
                    self.output.append(lhs.as_str());
                    self.output.append(" ");
                    self.output.append(lua_op);
                    self.output.append(" ");
                    self.output.append(rhs.as_str());
                    assert(self.state() =~= emit(at(s0, s0.pos + 3), lhs@ + " "@ + lua_op@ + " "@ + rhs@));
                    return Ok(());
                }
            },
            None => {},
        }
        let mut m = String::from_str("Unknown condition code ");
        push_decimal_u64(&mut m, code as u64);
        m.append(" at pos ");
        push_decimal_u64(&mut m, self.pos as u64);
        let ghost mv = m@;
        push_warning(&mut self.errors, m);
        self.output.append("true");
        self.pos = self.pos + 1;
        assert(mv =~= "Unknown condition code "@ + decimal(code as int) + " at pos "@ + decimal(s0.pos));
        assert(self.state() =~= at(emit(warn(s0, mv), "true"@), s0.pos + 1));
        Ok(())
    }
    /// A block `BEGIN statement* END`; a script end marker also closes it.
    fn decompile_body(&mut self) -> (r: Result<(), Fault>)
        requires
            old(self).wf(),
        ensures
            final(self).wf(),
            kept(*old(self), *final(self)),
            reports(body(old(self).codes(), old(self).fields(), old(self).state()), r, final(self).state()),
            r is Ok ==> old(self).pos < final(self).pos && final(self).indent == old(self).indent,
        decreases old(self).script.codes@.len() - old(self).pos, 0int,
    {
        let ghost c = self.codes();
        let ghost f = self.fields();
        let ghost s0 = self.state();
        if self.pos >= self.script.codes.len() {
            return Err(Fault::Abort);
        }
        let code = self.code();
        if !self.is_token(code, "BEGIN") {
            let mut m = String::from_str("Expected BEGIN at pos ");
            push_decimal_u64(&mut m, self.pos as u64);
            m.append(", got ");
            push_decimal_u64(&mut m, code as u64);
            assert(m@ =~= "Expected BEGIN at pos "@ + decimal(s0.pos) + ", got "@ + decimal(code as int));
            return Err(Fault::Error(m));
        }
        self.pos = self.pos + 1;
        assert(self.state() =~= at(s0, s0.pos + 1));
        loop
            invariant
                self.wf(),
                kept(*old(self), *self),
                c == self.codes(),
                f == self.fields(),
                c == old(self).codes(),
                f == old(self).fields(),
                s0 == old(self).state(),
                s0.pos < self.pos,
                self.indent == s0.indent,
                body(c, f, s0) == body_loop(c, f, self.state()),
            decreases self.script.codes@.len() - self.pos,
        {
            if self.pos >= self.script.codes.len() {
                return Err(Fault::Abort);
            }
            let code = self.code();
            if self.is_token(code, "END") {
                self.pos = self.pos + 1;
                return Ok(());
            }
            if self.is_token(code, "SCRIPT_END") {
                return Ok(());
            }
            if self.pos >= MAX_CODES {
                return Err(Fault::Error(String::from_str("Reached end of code array")));
            }
            match self.decompile_statement() {
                Ok(()) => {},
                Err(e) => {
                    return Err(e);
                },
            }
        }
    }

    /// One statement of a block, chosen by its leading token; other codes are
    /// skipped with a warning.
    fn decompile_statement(&mut self) -> (r: Result<(), Fault>)
        requires
            old(self).wf(),
        ensures
            final(self).wf(),
            kept(*old(self), *final(self)),
            reports(stmt(old(self).codes(), old(self).fields(), old(self).state()), r, final(self).state()),
            r is Ok ==> old(self).pos < final(self).pos && final(self).indent == old(self).indent,
        decreases old(self).script.codes@.len() - old(self).pos, 1int,
    {
        let ghost s0 = self.state();
        if self.pos >= self.script.codes.len() {
            return Err(Fault::Abort);
        }
        let code = self.code();
        match self.token_name(code) {
            Some(name) => {
                if str_eq(name, "IF") {
                    self.decompile_if()
                } else if str_eq(name, "EVERY") {
                    self.decompile_every()
                } else if str_eq(name, "DO") {
                    self.decompile_do()
                } else if str_eq(name, "SET") {
                    self.decompile_set_inc_dec("SET")
                } else if str_eq(name, "INCREMENT") {
                    self.decompile_set_inc_dec("INCREMENT")
                } else if str_eq(name, "DECREMENT") {
                    self.decompile_set_inc_dec("DECREMENT")
                } else if str_eq(name, "MULTIPLY") {
                    self.decompile_mul_div("MULTIPLY")
                } else if str_eq(name, "DIVIDE") {
                    self.decompile_mul_div("DIVIDE")
                } else {
                    let mut m = String::from_str("Unexpected token '");
                    m.append(name);
                    m.append("' at pos ");
                    push_decimal_u64(&mut m, self.pos as u64);
                    let ghost mv = m@;
                    push_warning(&mut self.errors, m);
                    self.pos = self.pos + 1;
                    assert(mv =~= "Unexpected token '"@ + name@ + "' at pos "@ + decimal(s0.pos));
                    assert(self.state() =~= at(warn(s0, mv), s0.pos + 1));
                    Ok(())
                }
            },
            None => {
                let mut m = String::from_str("Unknown code ");
                push_decimal_u64(&mut m, code as u64);
                m.append(" at pos ");
                push_decimal_u64(&mut m, self.pos as u64);
                let ghost mv = m@;
                push_warning(&mut self.errors, m);
                self.pos = self.pos + 1;
                assert(mv =~= "Unknown code "@ + decimal(code as int) + " at pos "@ + decimal(s0.pos));
                assert(self.state() =~= at(warn(s0, mv), s0.pos + 1));
                Ok(())
            },
        }
    }

    /// `IF condition block [ELSE block] [ENDIF]` as `if (...) then ... [else ...] end`.
    fn decompile_if(&mut self) -> (r: Result<(), Fault>)
        requires
            old(self).wf(),
        ensures
            final(self).wf(),
            kept(*old(self), *final(self)),
            reports(if_stmt(old(self).codes(), old(self).fields(), old(self).state()), r, final(self).state()),
            r is Ok ==> old(self).pos < final(self).pos && final(self).indent == old(self).indent,
        decreases old(self).script.codes@.len() - old(self).pos, 0int,
    {
        let ghost c = self.codes();
        let ghost f = self.fields();
        let ghost s0 = self.state();
        if self.pos >= self.script.codes.len() {
            return Err(Fault::Abort);
        }
        self.pos = self.pos + 1;
        self.write_indent();
        self.output.append("if (");
        assert(self.state() =~= emit(at(s0, s0.pos + 1), indent_text(s0.indent) + "if ("@));
        match self.decompile_condition() {
            Ok(()) => {},
            Err(e) => {
                return Err(e);
            },
        }
        let ghost s2 = self.state();
        self.output.append(") then\n");
        self.indent = self.indent + 1;
        assert(self.state() =~= indented(emit(s2, ") then\n"@), 1));
        match self.decompile_body() {
            Ok(()) => {},
            Err(e) => {
                return Err(e);
            },
        }
        let ghost s3 = self.state();
        self.indent = self.indent - 1;
        assert(self.state() =~= indented(s3, -1));
        self.decompile_if_tail()
    }

    /// The optional ELSE block and ENDIF of an IF, then `end`.
    fn decompile_if_tail(&mut self) -> (r: Result<(), Fault>)
        requires
            old(self).wf(),
        ensures
            final(self).wf(),
            kept(*old(self), *final(self)),
            reports(if_tail(old(self).codes(), old(self).fields(), old(self).state()), r, final(self).state()),
            r is Ok ==> old(self).pos <= final(self).pos && final(self).indent == old(self).indent,
        decreases old(self).script.codes@.len() - old(self).pos, 0int,
    {
        let ghost s4 = self.state();
        if self.pos >= self.script.codes.len() {
            return Err(Fault::Abort);
        }
        let code = self.code();
        if self.is_token(code, "ELSE") {
            self.pos = self.pos + 1;
            self.write_indent();
            self.output.append("else\n");
            self.indent = self.indent + 1;
            assert(self.state() =~= indented(emit(at(s4, s4.pos + 1), indent_text(s4.indent) + "else\n"@), 1));
            match self.decompile_body() {
                Ok(()) => {},
                Err(e) => {
                    return Err(e);
                },
            }
            let ghost s6 = self.state();
            self.indent = self.indent - 1;
            assert(self.state() =~= indented(s6, -1));
        }
        self.decompile_endif()
    }

    /// An optional ENDIF, then `end`.
    fn decompile_endif(&mut self) -> (r: Result<(), Fault>)
        requires
            old(self).wf(),
        ensures
            final(self).wf(),
            kept(*old(self), *final(self)),
            reports(endif_tail(old(self).codes(), old(self).state()), r, final(self).state()),
            r is Ok ==> old(self).pos <= final(self).pos && final(self).indent == old(self).indent,
    {
        if self.pos >= self.script.codes.len() {
            return Err(Fault::Abort);
        }
        let code = self.code();
        if self.is_token(code, "ENDIF") {
            self.pos = self.pos + 1;
        }
        let ghost s8 = self.state();
        self.write_indent();
        self.output.append("end\n");
        assert(self.state() =~= emit(s8, indent_text(s8.indent) + "end\n"@));
        Ok(())
    }

    /// The header line of the EVERY at the current position and the position of its block.
    fn every_header(&self) -> (r: Result<(String, usize), Fault>)
        requires
            self.wf(),
        ensures
            match r {
                Ok((h, p)) => !every_aborts(self.codes(), self.fields(), self.pos as int) && h@ == every_head(
                    self.codes(),
                    self.fields(),
                    self.pos as int,
                ) && p == every_next(self.codes(), self.pos as int),
                Err(e) => e is Abort && every_aborts(self.codes(), self.fields(), self.pos as int),
            },
    {
        let ghost c = self.codes();
        let ghost f = self.fields();
        if self.script.codes.len() - self.pos <= 2 {
            return Err(Fault::Abort);
        }
        let code1 = self.script.codes[self.pos + 1];
        let mut interval: i32 = 1;
        if (code1 as usize) < self.script.fields.len() {
            let v = self.script.fields[code1 as usize].value;
            if v == i32::MAX {
                return Err(Fault::Abort);
            }
            interval = v + 1;
        }
        let code2 = self.script.codes[self.pos + 2];
        let has_offset = !self.is_token(code2, "BEGIN");
        let mut offset: i32 = 0;
        if has_offset && (code2 as usize) < self.script.fields.len() {
            let v = self.script.fields[code2 as usize].value;
            if v == i32::MAX {
                return Err(Fault::Abort);
            }
            offset = v + 1;
        }
        let next = if has_offset { self.pos + 3 } else { self.pos + 2 };
        let mut h = String::from_str("EVERY(");
        push_decimal_i64(&mut h, interval as i64);
        if has_offset && offset != 0 {
            h.append(", ");
            push_decimal_i64(&mut h, offset as i64);
        }
        h.append(")\n");
        proof {
            let pos = self.pos as int;
            assert(every_has_offset(c, pos) == has_offset);
            assert(every_operand(f, c[pos + 1], 1) == interval);
            assert(has_offset ==> every_operand(f, c[pos + 2], 0) == offset);
            assert(h@ =~= every_head(c, f, pos));
        }
        Ok((h, next))
    }

    /// `EVERY interval [offset] block` as `EVERY(interval[, offset]) ... END_EVERY`.
    fn decompile_every(&mut self) -> (r: Result<(), Fault>)
        requires
            old(self).wf(),
        ensures
            final(self).wf(),
            kept(*old(self), *final(self)),
            reports(every_stmt(old(self).codes(), old(self).fields(), old(self).state()), r, final(self).state()),
            r is Ok ==> old(self).pos < final(self).pos && final(self).indent == old(self).indent,
        decreases old(self).script.codes@.len() - old(self).pos, 0int,
    {
        let ghost c = self.codes();
        let ghost f = self.fields();
        let ghost s0 = self.state();
        let (head, next) = match self.every_header() {
            Ok(x) => x,
            Err(e) => {
                return Err(e);
            },
        };
        self.pos = next;
        self.write_indent();
        self.output.append(head.as_str());
        self.indent = self.indent + 1;
        assert(self.state() =~= indented(
            emit(at(s0, every_next(c, s0.pos)), indent_text(s0.indent) + every_head(c, f, s0.pos)),
            1,
        ));
        match self.decompile_body() {
            Ok(()) => {},
            Err(e) => {
                return Err(e);
            },
        }
        let ghost s2 = self.state();
        self.indent = self.indent - 1;
        self.write_indent();
        self.output.append("END_EVERY\n");
        assert(self.state() =~= emit(indented(s2, -1), indent_text(s2.indent - 1) + "END_EVERY\n"@));
        Ok(())
    }
    /// The version word, then the top-level block.
    fn run(&mut self) -> (r: Result<(), Fault>)
        requires
            old(self).wf(),
        ensures
            final(self).wf(),
            kept(*old(self), *final(self)),
            reports(decompile_from(old(self).codes(), old(self).fields(), old(self).state()), r, final(self).state()),
    {
        let ghost s0 = self.state();
        if self.pos >= self.script.codes.len() {
            return Err(Fault::Abort);
        }
        let version = self.code();
        if version != SCRIPT_VERSION {
            let mut m = String::from_str("Unexpected version: ");
            push_decimal_u64(&mut m, version as u64);
            m.append(" (expected 12)");
            let ghost mv = m@;
            push_warning(&mut self.errors, m);
            assert(mv =~= "Unexpected version: "@ + decimal(version as int) + " (expected 12)"@);
        }
        let ghost s1 = self.state();
        self.pos = self.pos + 1;
        assert(self.state() =~= at(s1, s0.pos + 1));
        self.decompile_body()
    }

    /// Decompile the script from the current state: the Lua text, or the
    /// message of a malformed script. Warnings are kept (see `warnings`).
    pub fn decompile(&mut self) -> (r: Result<String, String>)
        requires
            old(self).wf(),
            !(decompile_from(old(self).codes(), old(self).fields(), old(self).state()) is Aborted),
        ensures
            final(self).wf(),
            final(self).codes() == old(self).codes(),
            final(self).fields() == old(self).fields(),
            match decompile_from(old(self).codes(), old(self).fields(), old(self).state()) {
                Outcome::Done(s) => r matches Ok(o) && o@ == s.out && final(self).state() == s,
                Outcome::Failed(m) => r matches Err(e) && e@ == m,
                Outcome::Aborted => false,
            },
    {
        match self.run() {
            Ok(()) => Ok(self.output.clone()),
            Err(Fault::Error(m)) => Err(m),
            Err(Fault::Abort) => {
                proof {
                    assert(false);
                }
                Err(String::new())
            },
        }
    }

    /// Like `decompile`, but `None` where decoding overruns the code words or an
    /// EVERY operand is at the top of the signed range.
    pub fn try_decompile(&mut self) -> (r: Option<Result<String, String>>)
        requires
            old(self).wf(),
        ensures
            final(self).wf(),
            final(self).codes() == old(self).codes(),
            final(self).fields() == old(self).fields(),
            match decompile_from(old(self).codes(), old(self).fields(), old(self).state()) {
                Outcome::Done(s) => r matches Some(Ok(o)) && o@ == s.out && final(self).state() == s,
                Outcome::Failed(m) => r matches Some(Err(e)) && e@ == m,
                Outcome::Aborted => r is None,
            },
    {
        match self.run() {
            Ok(()) => Some(Ok(self.output.clone())),
            Err(Fault::Error(m)) => Some(Err(m)),
            Err(Fault::Abort) => None,
        }
    }

    /// The warnings recorded so far, in order.
    pub fn warnings(&self) -> (w: &Vec<String>)
        ensures
            warnings_of(w@) == self.state().warnings,
    {
        &self.errors
    }
}

/// A condition led by OR is its two operand conditions joined by the Lua
/// operator ` or ` inside brackets: `(A or B)`.
pub proof fn lemma_or_condition(c: Seq<u16>, f: Seq<Field>, s: DecodeState, s2: DecodeState, s3: DecodeState)
    requires
        0 <= s.pos < c.len(),
        tok_is(c[s.pos], "OR"@),
        cond(c, f, emit(at(s, s.pos + 1), "("@)) == Outcome::Done(s2),
        s.pos < s2.pos <= c.len(),
        cond(c, f, emit(s2, " or "@)) == Outcome::Done(s3),
    ensures
        cond(c, f, s) == Outcome::Done(emit(s3, ")"@)),
{
    lemma_connective_names(c[s.pos]);
}

/// A condition led by AND is its two operand conditions joined by the Lua
/// operator ` and ` inside brackets: `(A and B)`.
pub proof fn lemma_and_condition(c: Seq<u16>, f: Seq<Field>, s: DecodeState, s2: DecodeState, s3: DecodeState)
    requires
        0 <= s.pos < c.len(),
        tok_is(c[s.pos], "AND"@),
        cond(c, f, emit(at(s, s.pos + 1), "("@)) == Outcome::Done(s2),
        s.pos < s2.pos <= c.len(),
        cond(c, f, emit(s2, " and "@)) == Outcome::Done(s3),
    ensures
        cond(c, f, s) == Outcome::Done(emit(s3, ")"@)),
{
}

/// AND, OR and the comparison operators are distinct token names.
proof fn lemma_connective_names(code: u16)
    ensures
        tok_is(code, "OR"@) ==> !tok_is(code, "AND"@),
        tok_is(code, "AND"@) || tok_is(code, "OR"@) ==> !is_comparison(token_map()[code]@),
{
    reveal_strlit("AND");
    reveal_strlit("OR");
    reveal_strlit(">");
    reveal_strlit("<");
    reveal_strlit("==");
    reveal_strlit("!=");
    reveal_strlit(">=");
    reveal_strlit("<=");
    assert("OR"@.len() != "AND"@.len());
    assert("OR"@[0] != "=="@[0] && "OR"@[0] != "!="@[0] && "OR"@[0] != ">="@[0] && "OR"@[0] != "<="@[0]);
    assert(!is_comparison("AND"@));
    assert(!is_comparison("OR"@));
}

/// The text of the comparison `op x y`: both operands' field texts around the
/// operator, with `!=` written as Lua's `~=`.
pub open spec fn comparison_text(f: Seq<Field>, op: Seq<char>, x: u16, y: u16) -> Seq<char> {
    field_text(f, x) + " "@ + (if op == "!="@ { "~="@ } else { op }) + " "@ + field_text(f, y)
}

/// A comparison reads its operator and two operand words and prints them.
proof fn lemma_comparison_condition(c: Seq<u16>, f: Seq<Field>, s: DecodeState)
    requires
        0 <= s.pos,
        s.pos + 2 < c.len(),
        token_map().contains_key(c[s.pos]),
        is_comparison(token_map()[c[s.pos]]@),
    ensures
        cond(c, f, s) == Outcome::Done(
            emit(at(s, s.pos + 3), comparison_text(f, token_map()[c[s.pos]]@, c[s.pos + 1], c[s.pos + 2])),
        ),
{
    lemma_connective_names(c[s.pos]);
    let t = comparison_text(f, token_map()[c[s.pos]]@, c[s.pos + 1], c[s.pos + 2]);
    let op = token_map()[c[s.pos]]@;
    let lua_op = if op == "!="@ { "~="@ } else { op };
    assert(t =~= field_text(f, c[s.pos + 1]) + " "@ + lua_op + " "@ + field_text(f, c[s.pos + 2]));
}

/// An AND or OR of two comparisons `op1 x y` and `op2 z w` reads seven code
/// words and prints `(X op1 Y and Z op2 W)` or `(X op1 Y or Z op2 W)`, each
/// operand as its field's text and `!=` as Lua's `~=`.
pub proof fn lemma_connective_of_comparisons(c: Seq<u16>, f: Seq<Field>, s: DecodeState)
    requires
        0 <= s.pos,
        s.pos + 6 < c.len(),
        tok_is(c[s.pos], "AND"@) || tok_is(c[s.pos], "OR"@),
        token_map().contains_key(c[s.pos + 1]),
        is_comparison(token_map()[c[s.pos + 1]]@),
        token_map().contains_key(c[s.pos + 4]),
        is_comparison(token_map()[c[s.pos + 4]]@),
    ensures
        cond(c, f, s) == Outcome::Done(
            DecodeState {
                pos: s.pos + 7,
                out: s.out + "("@ + comparison_text(f, token_map()[c[s.pos + 1]]@, c[s.pos + 2], c[s.pos + 3]) + (if tok_is(
                    c[s.pos],
                    "AND"@,
                ) {
                    " and "@
                } else {
                    " or "@
                }) + comparison_text(f, token_map()[c[s.pos + 4]]@, c[s.pos + 5], c[s.pos + 6]) + ")"@,
                ..s
            },
        ),
        tok_is(c[s.pos], "OR"@) ==> !tok_is(c[s.pos], "AND"@),
{
    lemma_connective_names(c[s.pos]);
    let p = s.pos;
    let word: Seq<char> = if tok_is(c[p], "AND"@) { " and "@ } else { " or "@ };
    let s1 = emit(at(s, p + 1), "("@);
    let t1 = comparison_text(f, token_map()[c[p + 1]]@, c[p + 2], c[p + 3]);
    lemma_comparison_condition(c, f, s1);
    let s2 = emit(at(s1, p + 4), t1);
    let t2 = comparison_text(f, token_map()[c[p + 4]]@, c[p + 5], c[p + 6]);
    lemma_comparison_condition(c, f, emit(s2, word));
    let s3 = emit(at(emit(s2, word), p + 7), t2);
    if tok_is(c[p], "AND"@) {
        lemma_and_condition(c, f, s, s2, s3);
    } else {
        lemma_or_condition(c, f, s, s2, s3);
    }
    assert(emit(s3, ")"@) =~= DecodeState { pos: p + 7, out: s.out + "("@ + t1 + word + t2 + ")"@, ..s });
}

/// The statement tokens are distinct names.
proof fn lemma_statement_names(code: u16)
    ensures
        tok_is(code, "SET"@) || tok_is(code, "INCREMENT"@) || tok_is(code, "DECREMENT"@) || tok_is(code, "MULTIPLY"@)
            || tok_is(code, "DIVIDE"@) ==> !tok_is(code, "IF"@) && !tok_is(code, "EVERY"@) && !tok_is(code, "DO"@),
        tok_is(code, "INCREMENT"@) || tok_is(code, "DECREMENT"@) || tok_is(code, "MULTIPLY"@) || tok_is(
            code,
            "DIVIDE"@,
        ) ==> !tok_is(code, "SET"@),
        tok_is(code, "DECREMENT"@) || tok_is(code, "MULTIPLY"@) || tok_is(code, "DIVIDE"@) ==> !tok_is(
            code,
            "INCREMENT"@,
        ),
        tok_is(code, "MULTIPLY"@) || tok_is(code, "DIVIDE"@) ==> !tok_is(code, "DECREMENT"@),
        tok_is(code, "DIVIDE"@) ==> !tok_is(code, "MULTIPLY"@),
{
    reveal_strlit("IF");
    reveal_strlit("EVERY");
    reveal_strlit("DO");
    reveal_strlit("SET");
    reveal_strlit("INCREMENT");
    reveal_strlit("DECREMENT");
    reveal_strlit("MULTIPLY");
    reveal_strlit("DIVIDE");
    assert("IF"@.len() == 2 && "DO"@.len() == 2 && "SET"@.len() == 3 && "EVERY"@.len() == 5);
    assert("INCREMENT"@.len() == 9 && "DECREMENT"@.len() == 9 && "MULTIPLY"@.len() == 8 && "DIVIDE"@.len() == 6);
    assert("INCREMENT"@[0] != "DECREMENT"@[0]);
}

/// `SET` as a statement.
proof fn lemma_set_statement(c: Seq<u16>, f: Seq<Field>, s: DecodeState)
    requires
        0 <= s.pos,
        s.pos + 2 < c.len(),
        tok_is(c[s.pos], "SET"@),
    ensures
        ({
            let x = field_text(f, c[s.pos + 1]);
            let y = field_text(f, c[s.pos + 2]);
            stmt(c, f, s) == Outcome::Done(
                DecodeState { pos: s.pos + 3, out: s.out + indent_text(s.indent) + x + " = "@ + y + "\n"@, ..s },
            )
        }),
{
    lemma_statement_names(c[s.pos]);
    assert(stmt(c, f, s) == assign_stmt(c, f, s, 0));
    let x = field_text(f, c[s.pos + 1]);
    let y = field_text(f, c[s.pos + 2]);
    assert(s.out + (indent_text(s.indent) + (x + " = "@ + y + "\n"@)) =~= s.out + indent_text(s.indent) + x + " = "@ + y + "\n"@);
}

/// `INCREMENT` as a statement.
proof fn lemma_increment_statement(c: Seq<u16>, f: Seq<Field>, s: DecodeState)
    requires
        0 <= s.pos,
        s.pos + 2 < c.len(),
        tok_is(c[s.pos], "INCREMENT"@),
    ensures
        ({
            let x = field_text(f, c[s.pos + 1]);
            let y = field_text(f, c[s.pos + 2]);
            stmt(c, f, s) == Outcome::Done(
                DecodeState { pos: s.pos + 3, out: s.out + indent_text(s.indent) + x + " = "@ + x + " + "@ + y + "\n"@, ..s },
            )
        }),
{
    lemma_statement_names(c[s.pos]);
    assert(stmt(c, f, s) == assign_stmt(c, f, s, 1));
    let x = field_text(f, c[s.pos + 1]);
    let y = field_text(f, c[s.pos + 2]);
    assert(s.out + (indent_text(s.indent) + (x + " = "@ + x + " + "@ + y + "\n"@)) =~= s.out + indent_text(s.indent) + x + " = "@ + x + " + "@ + y + "\n"@);
}

/// `DECREMENT` as a statement.
proof fn lemma_decrement_statement(c: Seq<u16>, f: Seq<Field>, s: DecodeState)
    requires
        0 <= s.pos,
        s.pos + 2 < c.len(),
        tok_is(c[s.pos], "DECREMENT"@),
    ensures
        ({
            let x = field_text(f, c[s.pos + 1]);
            let y = field_text(f, c[s.pos + 2]);
            stmt(c, f, s) == Outcome::Done(
                DecodeState { pos: s.pos + 3, out: s.out + indent_text(s.indent) + x + " = "@ + x + " - "@ + y + "\n"@, ..s },
            )
        }),
{
    lemma_statement_names(c[s.pos]);
    assert(stmt(c, f, s) == assign_stmt(c, f, s, 2));
    let x = field_text(f, c[s.pos + 1]);
    let y = field_text(f, c[s.pos + 2]);
    assert(s.out + (indent_text(s.indent) + (x + " = "@ + x + " - "@ + y + "\n"@)) =~= s.out + indent_text(s.indent) + x + " = "@ + x + " - "@ + y + "\n"@);
}

/// `MULTIPLY` as a statement.
proof fn lemma_multiply_statement(c: Seq<u16>, f: Seq<Field>, s: DecodeState)
    requires
        0 <= s.pos,
        s.pos + 3 < c.len(),
        tok_is(c[s.pos], "MULTIPLY"@),
    ensures
        ({
            let x = field_text(f, c[s.pos + 1]);
            let y = field_text(f, c[s.pos + 2]);
            let z = field_text(f, c[s.pos + 3]);
            stmt(c, f, s) == Outcome::Done(
                DecodeState { pos: s.pos + 4, out: s.out + indent_text(s.indent) + x + " = "@ + y + " * "@ + z + "\n"@, ..s },
            )
        }),
{
    lemma_statement_names(c[s.pos]);
    assert(stmt(c, f, s) == arith_stmt(c, f, s, true));
    let x = field_text(f, c[s.pos + 1]);
    let y = field_text(f, c[s.pos + 2]);
    let z = field_text(f, c[s.pos + 3]);
    reveal_strlit(" ");
    reveal_strlit("*");
    reveal_strlit(" * ");
    reveal_strlit("/");
    reveal_strlit(" / ");
    assert(s.out + (indent_text(s.indent) + (x + " = "@ + y + " "@ + "*"@ + " "@ + z + "\n"@)) =~= s.out + indent_text(s.indent) + x + " = "@ + y + " * "@ + z + "\n"@);
}

/// `DIVIDE` as a statement.
proof fn lemma_divide_statement(c: Seq<u16>, f: Seq<Field>, s: DecodeState)
    requires
        0 <= s.pos,
        s.pos + 3 < c.len(),
        tok_is(c[s.pos], "DIVIDE"@),
    ensures
        ({
            let x = field_text(f, c[s.pos + 1]);
            let y = field_text(f, c[s.pos + 2]);
            let z = field_text(f, c[s.pos + 3]);
            stmt(c, f, s) == Outcome::Done(
                DecodeState { pos: s.pos + 4, out: s.out + indent_text(s.indent) + x + " = "@ + y + " / "@ + z + "\n"@, ..s },
            )
        }),
{
    lemma_statement_names(c[s.pos]);
    assert(stmt(c, f, s) == arith_stmt(c, f, s, false));
    let x = field_text(f, c[s.pos + 1]);
    let y = field_text(f, c[s.pos + 2]);
    let z = field_text(f, c[s.pos + 3]);
    reveal_strlit(" ");
    reveal_strlit("*");
    reveal_strlit(" * ");
    reveal_strlit("/");
    reveal_strlit(" / ");
    assert(s.out + (indent_text(s.indent) + (x + " = "@ + y + " "@ + "/"@ + " "@ + z + "\n"@)) =~= s.out + indent_text(s.indent) + x + " = "@ + y + " / "@ + z + "\n"@);
}

/// The assignment statements print one line at the current indentation,
/// each operand as its field's text: `SET x y` as `X = Y`, `INCREMENT x y` as
/// `X = X + Y`, `DECREMENT x y` as `X = X - Y`, `MULTIPLY x y z` as
/// `X = Y * Z` and `DIVIDE x y z` as `X = Y / Z`; the three-operand forms
/// read four code words, the others three.
pub proof fn lemma_assignment_statements(c: Seq<u16>, f: Seq<Field>, s: DecodeState)
    requires
        0 <= s.pos,
        s.pos + 2 < c.len(),
    ensures
        ({
            let x = field_text(f, c[s.pos + 1]);
            let y = field_text(f, c[s.pos + 2]);
            let ind = indent_text(s.indent);
            &&& tok_is(c[s.pos], "SET"@) ==> stmt(c, f, s) == Outcome::Done(
                DecodeState { pos: s.pos + 3, out: s.out + ind + x + " = "@ + y + "\n"@, ..s },
            )
            &&& tok_is(c[s.pos], "INCREMENT"@) ==> stmt(c, f, s) == Outcome::Done(
                DecodeState { pos: s.pos + 3, out: s.out + ind + x + " = "@ + x + " + "@ + y + "\n"@, ..s },
            )
            &&& tok_is(c[s.pos], "DECREMENT"@) ==> stmt(c, f, s) == Outcome::Done(
                DecodeState { pos: s.pos + 3, out: s.out + ind + x + " = "@ + x + " - "@ + y + "\n"@, ..s },
            )
        }),
        s.pos + 3 < c.len() ==> ({
            let x = field_text(f, c[s.pos + 1]);
            let y = field_text(f, c[s.pos + 2]);
            let z = field_text(f, c[s.pos + 3]);
            let ind = indent_text(s.indent);
            &&& tok_is(c[s.pos], "MULTIPLY"@) ==> stmt(c, f, s) == Outcome::Done(
                DecodeState { pos: s.pos + 4, out: s.out + ind + x + " = "@ + y + " * "@ + z + "\n"@, ..s },
            )
            &&& tok_is(c[s.pos], "DIVIDE"@) ==> stmt(c, f, s) == Outcome::Done(
                DecodeState { pos: s.pos + 4, out: s.out + ind + x + " = "@ + y + " / "@ + z + "\n"@, ..s },
            )
        }),
{
    if tok_is(c[s.pos], "SET"@) {
        lemma_set_statement(c, f, s);
    }
    if tok_is(c[s.pos], "INCREMENT"@) {
        lemma_increment_statement(c, f, s);
    }
    if tok_is(c[s.pos], "DECREMENT"@) {
        lemma_decrement_statement(c, f, s);
    }
    if s.pos + 3 < c.len() && tok_is(c[s.pos], "MULTIPLY"@) {
        lemma_multiply_statement(c, f, s);
    }
    if s.pos + 3 < c.len() && tok_is(c[s.pos], "DIVIDE"@) {
        lemma_divide_statement(c, f, s);
    }
}

/// The block and branch tokens are distinct names.
proof fn lemma_block_names(code: u16)
    ensures
        tok_is(code, "BEGIN"@) ==> !tok_is(code, "END"@) && !tok_is(code, "SCRIPT_END"@),
        tok_is(code, "END"@) ==> !tok_is(code, "SCRIPT_END"@),
        tok_is(code, "ENDIF"@) ==> !tok_is(code, "ELSE"@),
{
    reveal_strlit("BEGIN");
    reveal_strlit("END");
    reveal_strlit("SCRIPT_END");
    reveal_strlit("ELSE");
    reveal_strlit("ENDIF");
    assert("BEGIN"@.len() == 5 && "END"@.len() == 3 && "SCRIPT_END"@.len() == 10);
    assert("ELSE"@.len() == 4 && "ENDIF"@.len() == 5);
}

/// An empty block `BEGIN END` prints nothing and reads two code words.
proof fn lemma_empty_block(c: Seq<u16>, f: Seq<Field>, b: DecodeState)
    requires
        0 <= b.pos,
        b.pos + 1 < c.len(),
        tok_is(c[b.pos], "BEGIN"@),
        tok_is(c[b.pos + 1], "END"@),
    ensures
        body(c, f, b) == Outcome::Done(at(b, b.pos + 2)),
{
    lemma_block_names(c[b.pos]);
    lemma_block_names(c[b.pos + 1]);
    assert(body_loop(c, f, at(b, b.pos + 1)) == Outcome::Done(at(b, b.pos + 2)));
}

/// The ENDIF-or-not ending of an IF without ELSE.
proof fn lemma_if_without_else(c: Seq<u16>, f: Seq<Field>, s4: DecodeState)
    requires
        0 <= s4.pos < c.len(),
        !tok_is(c[s4.pos], "ELSE"@),
    ensures
        if_tail(c, f, s4) == endif_tail(c, s4),
{
}

/// An IF whose condition and block decode continues with its tail.
proof fn lemma_if_steps(c: Seq<u16>, f: Seq<Field>, s: DecodeState, s2: DecodeState, s3: DecodeState)
    requires
        0 <= s.pos < c.len(),
        tok_is(c[s.pos], "IF"@),
        cond(c, f, emit(at(s, s.pos + 1), indent_text(s.indent) + "if ("@)) == Outcome::Done(s2),
        s.pos < s2.pos <= c.len(),
        body(c, f, indented(emit(s2, ") then\n"@), 1)) == Outcome::Done(s3),
        s.pos < s3.pos <= c.len(),
    ensures
        stmt(c, f, s) == if_tail(c, f, indented(s3, -1)),
{
}

/// The closing `end` line of an IF.
proof fn lemma_endif_text(c: Seq<u16>, s: DecodeState, s4: DecodeState, t: Seq<char>)
    requires
        0 <= s4.pos < c.len(),
        s4 == (DecodeState { pos: s4.pos, out: s.out + indent_text(s.indent) + "if ("@ + t + ") then\n"@, ..s }),
    ensures
        endif_tail(c, s4) == Outcome::Done(
            DecodeState {
                pos: if tok_is(c[s4.pos], "ENDIF"@) { s4.pos + 1 } else { s4.pos },
                out: s.out + indent_text(s.indent) + "if ("@ + t + ") then\n"@ + indent_text(s.indent) + "end\n"@,
                ..s
            },
        ),
{
    let s5 = if tok_is(c[s4.pos], "ENDIF"@) { at(s4, s4.pos + 1) } else { s4 };
    assert(emit(s5, indent_text(s5.indent) + "end\n"@) =~= DecodeState {
        pos: s5.pos,
        out: s.out + indent_text(s.indent) + "if ("@ + t + ") then\n"@ + indent_text(s.indent) + "end\n"@,
        ..s
    });
}

/// An IF on a comparison with an empty block and no ELSE prints
/// `if (X op Y) then` and `end` on lines of their own at the current
/// indentation; a closing ENDIF is read too.
#[verifier::rlimit(30)]
pub proof fn lemma_if_empty_block(c: Seq<u16>, f: Seq<Field>, s: DecodeState)
    requires
        0 <= s.pos,
        s.pos + 6 < c.len(),
        tok_is(c[s.pos], "IF"@),
        token_map().contains_key(c[s.pos + 1]),
        is_comparison(token_map()[c[s.pos + 1]]@),
        tok_is(c[s.pos + 4], "BEGIN"@),
        tok_is(c[s.pos + 5], "END"@),
        !tok_is(c[s.pos + 6], "ELSE"@),
    ensures
        stmt(c, f, s) == Outcome::Done(
            DecodeState {
                pos: if tok_is(c[s.pos + 6], "ENDIF"@) { s.pos + 7 } else { s.pos + 6 },
                out: s.out + indent_text(s.indent) + "if ("@ + comparison_text(
                    f,
                    token_map()[c[s.pos + 1]]@,
                    c[s.pos + 2],
                    c[s.pos + 3],
                ) + ") then\n"@ + indent_text(s.indent) + "end\n"@,
                ..s
            },
        ),
{
    let p = s.pos;
    let ind = indent_text(s.indent);
    let s1 = emit(at(s, p + 1), ind + "if ("@);
    lemma_comparison_condition(c, f, s1);
    let t = comparison_text(f, token_map()[c[p + 1]]@, c[p + 2], c[p + 3]);
    let s2 = emit(at(s1, p + 4), t);
    let b = indented(emit(s2, ") then\n"@), 1);
    lemma_empty_block(c, f, b);
    let s4 = indented(at(b, p + 6), -1);
    lemma_if_without_else(c, f, s4);
    lemma_if_steps(c, f, s, s2, at(b, p + 6));
    assert(s4 =~= DecodeState { pos: p + 6, out: s.out + ind + "if ("@ + t + ") then\n"@, ..s });
    lemma_endif_text(c, s, s4, t);
}

/// An EVERY whose block is empty prints its header and `END_EVERY`.
proof fn lemma_every_block(c: Seq<u16>, f: Seq<Field>, s: DecodeState)
    requires
        0 <= s.pos < c.len(),
        tok_is(c[s.pos], "EVERY"@),
        !every_aborts(c, f, s.pos),
        every_next(c, s.pos) + 1 < c.len(),
        tok_is(c[every_next(c, s.pos)], "BEGIN"@),
        tok_is(c[every_next(c, s.pos) + 1], "END"@),
    ensures
        stmt(c, f, s) == Outcome::Done(
            DecodeState {
                pos: every_next(c, s.pos) + 2,
                out: s.out + indent_text(s.indent) + every_head(c, f, s.pos) + indent_text(s.indent)
                    + "END_EVERY\n"@,
                ..s
            },
        ),
{
    let p = s.pos;
    let ind = indent_text(s.indent);
    assert(stmt(c, f, s) == every_stmt(c, f, s)) by {
        reveal_strlit("IF");
        reveal_strlit("EVERY");
        assert("IF"@.len() != "EVERY"@.len());
    }
    let q = every_next(c, p);
    let s1 = indented(emit(at(s, q), ind + every_head(c, f, p)), 1);
    lemma_empty_block(c, f, s1);
    let s3 = indented(at(s1, q + 2), -1);
    assert(s3.indent == s.indent);
    assert(emit(s3, ind + "END_EVERY\n"@) =~= DecodeState {
        pos: q + 2,
        out: s.out + ind + every_head(c, f, p) + ind + "END_EVERY\n"@,
        ..s
    });
}

/// An EVERY with an empty block prints `EVERY(n)` and `END_EVERY` on lines of
/// their own at the current indentation, where `n` is one more than the value
/// of the interval's field (1 when there is no such field); with an offset
/// operand whose value plus one is nonzero, the header is `EVERY(n, m)`.
pub proof fn lemma_every_empty_block(c: Seq<u16>, f: Seq<Field>, s: DecodeState)
    requires
        0 <= s.pos,
        s.pos + 4 < c.len(),
        tok_is(c[s.pos], "EVERY"@),
        (c[s.pos + 1] as int) < f.len() ==> f[c[s.pos + 1] as int].value < i32::MAX,
        (c[s.pos + 2] as int) < f.len() ==> f[c[s.pos + 2] as int].value < i32::MAX,
    ensures
        ({
            let n: int = if (c[s.pos + 1] as int) < f.len() { f[c[s.pos + 1] as int].value + 1 } else { 1 };
            let m: int = if (c[s.pos + 2] as int) < f.len() { f[c[s.pos + 2] as int].value + 1 } else { 0 };
            let ind = indent_text(s.indent);
            &&& tok_is(c[s.pos + 2], "BEGIN"@) && tok_is(c[s.pos + 3], "END"@) ==> stmt(c, f, s) == Outcome::Done(
                DecodeState {
                    pos: s.pos + 4,
                    out: s.out + ind + "EVERY("@ + decimal(n) + ")\n"@ + ind + "END_EVERY\n"@,
                    ..s
                },
            )
            &&& !tok_is(c[s.pos + 2], "BEGIN"@) && tok_is(c[s.pos + 3], "BEGIN"@) && tok_is(c[s.pos + 4], "END"@) && m
                != 0 ==> stmt(c, f, s) == Outcome::Done(
                DecodeState {
                    pos: s.pos + 5,
                    out: s.out + ind + "EVERY("@ + decimal(n) + ", "@ + decimal(m) + ")\n"@ + ind + "END_EVERY\n"@,
                    ..s
                },
            )
        }),
{
    let p = s.pos;
    let ind = indent_text(s.indent);
    assert(!every_aborts(c, f, p));
    if tok_is(c[p + 2], "BEGIN"@) && tok_is(c[p + 3], "END"@) {
        lemma_every_block(c, f, s);
        assert(s.out + ind + every_head(c, f, p) + ind =~= s.out + ind + ("EVERY("@ + decimal(
            every_operand(f, c[p + 1], 1),
        ) + ")\n"@) + ind);
        assert(s.out + ind + ("EVERY("@ + decimal(every_operand(f, c[p + 1], 1)) + ")\n"@) =~= s.out + ind
            + "EVERY("@ + decimal(every_operand(f, c[p + 1], 1)) + ")\n"@);
    }
    if !tok_is(c[p + 2], "BEGIN"@) && tok_is(c[p + 3], "BEGIN"@) && tok_is(c[p + 4], "END"@) && every_operand(
        f,
        c[p + 2],
        0,
    ) != 0 {
        lemma_every_block(c, f, s);
        let n = every_operand(f, c[p + 1], 1);
        let m = every_operand(f, c[p + 2], 0);
        assert(every_head(c, f, p) == "EVERY("@ + decimal(n) + ", "@ + decimal(m) + ")\n"@);
        assert(s.out + ind + ("EVERY("@ + decimal(n) + ", "@ + decimal(m) + ")\n"@) =~= s.out + ind + "EVERY("@
            + decimal(n) + ", "@ + decimal(m) + ")\n"@);
    }
}

/// The parameter words `ws` as text, separated by `, `.
pub open spec fn param_list(f: Seq<Field>, ws: Seq<u16>) -> Seq<char>
    decreases ws.len(),
{
    if ws.len() == 0 {
        Seq::empty()
    } else if ws.len() == 1 {
        param_text(f, ws[0])
    } else {
        param_list(f, ws.drop_last()) + ", "@ + param_text(f, ws.last())
    }
}

/// Reading parameters `i..n` continues the list of the first `i`.
proof fn lemma_params_from(c: Seq<u16>, f: Seq<Field>, s0: DecodeState, s: DecodeState, i: int, n: int)
    requires
        0 <= i <= n,
        0 <= s0.pos,
        s0.pos + n <= c.len(),
        s == (DecodeState { pos: s0.pos + i, out: s0.out + param_list(f, c.subrange(s0.pos, s0.pos + i)), ..s0 }),
    ensures
        params(c, f, s, i, n) == Outcome::Done(
            DecodeState { pos: s0.pos + n, out: s0.out + param_list(f, c.subrange(s0.pos, s0.pos + n)), ..s0 },
        ),
    decreases n - i,
{
    if i < n {
        let p = s0.pos;
        let ws = c.subrange(p, p + i + 1);
        assert(ws.drop_last() =~= c.subrange(p, p + i));
        assert(ws.last() == c[p + i]);
        let sep: Seq<char> = if i > 0 { ", "@ } else { Seq::empty() };
        let next = emit(at(s, s.pos + 1), sep + param_text(f, c[s.pos]));
        if i == 0 {
            assert(c.subrange(p, p) =~= Seq::<u16>::empty());
            assert(param_list(f, ws) == param_text(f, c[p]));
            assert(next.out =~= s0.out + param_list(f, ws));
        } else {
            assert(next.out =~= s0.out + param_list(f, ws));
        }
        lemma_params_from(c, f, s0, next, i + 1, n);
    } else {
        assert(s =~= DecodeState { pos: s0.pos + n, out: s0.out + param_list(f, c.subrange(s0.pos, s0.pos + n)), ..s0 });
    }
}

/// `DO command p1 .. pn`, for a command that takes `n` parameters, reads
/// `n + 2` code words and prints the call `COMMAND(P1, .., Pn)` on a line of its
/// own at the current indentation, each parameter as a token's name or a
/// field's text.
pub proof fn lemma_do_statement(c: Seq<u16>, f: Seq<Field>, s: DecodeState)
    requires
        0 <= s.pos,
        s.pos + 1 < c.len(),
        tok_is(c[s.pos], "DO"@),
        s.pos + 2 + param_count(command_name(c[s.pos + 1])) <= c.len(),
    ensures
        ({
            let n = param_count(command_name(c[s.pos + 1])) as int;
            stmt(c, f, s) == Outcome::Done(
                DecodeState {
                    pos: s.pos + 2 + n,
                    out: s.out + indent_text(s.indent) + command_name(c[s.pos + 1]) + "("@ + param_list(
                        f,
                        c.subrange(s.pos + 2, s.pos + 2 + n),
                    ) + ")\n"@,
                    ..s
                },
            )
        }),
{
    let n = param_count(command_name(c[s.pos + 1])) as int;
    assert(stmt(c, f, s) == do_stmt(c, f, s)) by {
        reveal_strlit("IF");
        reveal_strlit("EVERY");
        reveal_strlit("DO");
        assert("IF"@[0] != "DO"@[0] && "EVERY"@.len() != "DO"@.len());
    }
    let s1 = emit(at(s, s.pos + 2), indent_text(s.indent) + command_name(c[s.pos + 1]) + "("@);
    assert(c.subrange(s1.pos, s1.pos) =~= Seq::<u16>::empty());
    assert(s1 =~= DecodeState { pos: s1.pos + 0, out: s1.out + param_list(f, c.subrange(s1.pos, s1.pos + 0)), ..s1 });
    lemma_params_from(c, f, s1, s1, 0, n);
    let out = s1.out + param_list(f, c.subrange(s.pos + 2, s.pos + 2 + n)) + ")\n"@;
    assert(out =~= s.out + indent_text(s.indent) + command_name(c[s.pos + 1]) + "("@ + param_list(
        f,
        c.subrange(s.pos + 2, s.pos + 2 + n),
    ) + ")\n"@);
}

/// How an operand word prints: a constant field as its value, a user field
/// `n` as `$varn`, an internal field by its name (or `INT_n` when it has
/// none), a field of another kind as `?unknown_` and the word, and a word
/// past the fields as `?field_` and the word.
pub proof fn lemma_field_text(f: Seq<Field>, code: u16)
    ensures
        code as int >= f.len() ==> field_text(f, code) == "?field_"@ + decimal(code as int),
        (code as int) < f.len() && f[code as int].field_type == FIELD_CONSTANT ==> field_text(f, code) == decimal(
            f[code as int].value as int,
        ),
        (code as int) < f.len() && f[code as int].field_type == FIELD_USER ==> field_text(f, code) == "$var"@
            + decimal(f[code as int].value as int),
        (code as int) < f.len() && f[code as int].field_type == FIELD_INTERNAL ==> field_text(f, code) == (
        if internal_map().contains_key(f[code as int].value as u16) {
            internal_map()[f[code as int].value as u16]@
        } else {
            "INT_"@ + decimal((f[code as int].value as u16) as int)
        }),
        (code as int) < f.len() && f[code as int].field_type != FIELD_CONSTANT && f[code as int].field_type
            != FIELD_USER && f[code as int].field_type != FIELD_INTERNAL ==> field_text(f, code) == "?unknown_"@
            + decimal(code as int),
{
}

/// A script starts with its version word: one other than 12 is reported
/// as `Unexpected version: v (expected 12)` and decoding goes on with the
/// top-level block after it.
pub proof fn lemma_version_word(c: Seq<u16>, f: Seq<Field>, s: DecodeState)
    requires
        0 <= s.pos < c.len(),
    ensures
        c[s.pos] == 12 ==> decompile_from(c, f, s) == body(c, f, at(s, s.pos + 1)),
        c[s.pos] != 12 ==> decompile_from(c, f, s) == body(
            c,
            f,
            DecodeState {
                pos: s.pos + 1,
                warnings: s.warnings.push(
                    "Unexpected version: "@ + decimal(c[s.pos] as int) + " (expected 12)"@,
                ),
                ..s
            },
        ),
{
}

} // verus!
