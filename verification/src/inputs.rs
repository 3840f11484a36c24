//! Parsing of circuit inputs.
//!
//! Circuit inputs arrive as one flat JSON object mapping signal names
//! to scalar or array values; numeric strings are accepted so that
//! large field elements survive without precision loss.  The accepted
//! grammar is exactly: an object `{ "name": value, ... }` whose values
//! are unsigned decimal integers, quoted unsigned decimal integers, or
//! arrays of those, at any length.  Anything else is malformed and
//! surfaces as [`WitnessError::InvalidInput`] from the witness engine
//! adapter.
//!
//! Parsed values stay as decimal digit sequences; reading them as
//! field elements is the witness engine's step.  The parser is a
//! character-at-a-time state machine; its specification is the fold of
//! [`state_step`] over the input and the executable code is proved to
//! compute exactly that fold.

use vstd::prelude::*;

use crate::error::WitnessError;

verus! {

/// One named signal with its ordered values, as parsed from the input
/// object.  Each value is a most-significant-first decimal digit
/// sequence; a scalar value is carried as a one-element array.
#[derive(Clone, Debug, PartialEq, Eq)]
pub struct Signal {
    pub name: Vec<char>,
    pub values: Vec<Vec<u8>>,
}

/// Model of a sequence of digit sequences.
pub open spec fn digits_view(s: Seq<Vec<u8>>) -> Seq<Seq<u8>> {
    s.map_values(|v: Vec<u8>| v@)
}

pub proof fn lemma_digits_view_push(s: Seq<Vec<u8>>, x: Vec<u8>)
    ensures
        digits_view(s.push(x)) == digits_view(s).push(x@),
{
    assert(digits_view(s.push(x)) =~= digits_view(s).push(x@));
}

/// Mathematical model of a [`Signal`].
pub struct SignalModel {
    pub name: Seq<char>,
    pub values: Seq<Seq<u8>>,
}

impl View for Signal {
    type V = SignalModel;

    open spec fn view(&self) -> SignalModel {
        SignalModel { name: self.name@, values: digits_view(self.values@) }
    }
}

/// Model of a sequence of parsed signals.
pub open spec fn signals_view(s: Seq<Signal>) -> Seq<SignalModel> {
    s.map_values(|x: Signal| x@)
}

pub proof fn lemma_signals_view_push(s: Seq<Signal>, x: Signal)
    ensures
        signals_view(s.push(x)) == signals_view(s).push(x@),
{
    assert(signals_view(s.push(x)) =~= signals_view(s).push(x@));
}

/// Position of the parser inside the input grammar.
#[derive(Clone, Copy, Debug, PartialEq, Eq, Structural)]
pub enum Phase {
    /// Before the opening brace.
    Pre,
    /// After the opening brace: a name or the closing brace may follow.
    KeyOrEnd,
    /// After a comma between members: a name must follow.
    Key,
    /// Inside a quoted signal name.
    Name,
    /// After the closing quote of a name: a colon must follow.
    AfterKey,
    /// After the colon: a value must follow.
    Val,
    /// Inside an unquoted scalar number.
    Num,
    /// After the opening quote of a quoted scalar number.
    QNum0,
    /// Inside a quoted scalar number.
    QNum,
    /// After the opening bracket of an array.
    Arr0,
    /// Inside an unquoted number within an array.
    ANum,
    /// After a comma within an array: an element must follow.
    AElem,
    /// After a complete array element: a comma or bracket must follow.
    AElemDone,
    /// After the opening quote of a quoted number within an array.
    AQNum0,
    /// Inside a quoted number within an array.
    AQNum,
    /// After a complete member value: a comma or brace must follow.
    AfterVal,
    /// After the closing brace: only whitespace may follow.
    End,
    /// The input is malformed; absorbing.
    Fail,
}

/// Full parser state: the phase plus the partially assembled name,
/// number, array and output.
#[verifier::ext_equal]
pub struct StateModel {
    pub phase: Phase,
    pub name: Seq<char>,
    pub num: Seq<u8>,
    pub vals: Seq<Seq<u8>>,
    pub sigs: Seq<SignalModel>,
}

pub open spec fn is_ws(c: char) -> bool {
    c == ' ' || c == '\n' || c == '\t' || c == '\r'
}

pub open spec fn is_digit(c: char) -> bool {
    48 <= c as u32 && c as u32 <= 57
}

pub open spec fn digit_val(c: char) -> u8 {
    (c as u32 - 48) as u8
}

/// The initial parser state.
pub open spec fn init_state() -> StateModel {
    StateModel {
        phase: Phase::Pre,
        name: Seq::empty(),
        num: Seq::empty(),
        vals: Seq::empty(),
        sigs: Seq::empty(),
    }
}

/// `st` with its phase replaced.
pub open spec fn with_phase(st: StateModel, p: Phase) -> StateModel {
    StateModel { phase: p, ..st }
}

/// `st` after starting a number with first digit `c`.
pub open spec fn start_num(st: StateModel, p: Phase, c: char) -> StateModel {
    StateModel { phase: p, num: seq![digit_val(c)], ..st }
}

/// `st` after extending the pending number with digit `c`.
pub open spec fn push_digit(st: StateModel, c: char) -> StateModel {
    StateModel { num: st.num.push(digit_val(c)), ..st }
}

/// `st` after closing the pending array element.
pub open spec fn close_elem(st: StateModel, p: Phase) -> StateModel {
    StateModel { phase: p, num: Seq::empty(), vals: st.vals.push(st.num), ..st }
}

/// `st` after emitting the pending scalar member: the current name and
/// number become one signal, and both are consumed.
pub open spec fn emit_scalar(st: StateModel, p: Phase) -> StateModel {
    StateModel {
        phase: p,
        name: Seq::empty(),
        num: Seq::empty(),
        sigs: st.sigs.push(SignalModel { name: st.name, values: seq![st.num] }),
        ..st
    }
}

/// `st` after emitting the pending array member with values `vals`.
pub open spec fn emit_array(st: StateModel, vals: Seq<Seq<u8>>) -> StateModel {
    StateModel {
        phase: Phase::AfterVal,
        name: Seq::empty(),
        num: Seq::empty(),
        vals: Seq::empty(),
        sigs: st.sigs.push(SignalModel { name: st.name, values: vals }),
        ..st
    }
}

/// `st` with the malformed-input phase.
pub open spec fn to_fail(st: StateModel) -> StateModel {
    StateModel { phase: Phase::Fail, ..st }
}

/// One transition of the input parser on character `c`.
pub open spec fn state_step(st: StateModel, c: char) -> StateModel {
    match st.phase {
        Phase::Pre => if is_ws(c) {
            st
        } else if c == '{' {
            with_phase(st, Phase::KeyOrEnd)
        } else {
            to_fail(st)
        },
        Phase::KeyOrEnd => if is_ws(c) {
            st
        } else if c == '"' {
            StateModel { phase: Phase::Name, name: Seq::empty(), ..st }
        } else if c == '}' {
            with_phase(st, Phase::End)
        } else {
            to_fail(st)
        },
        Phase::Key => if is_ws(c) {
            st
        } else if c == '"' {
            StateModel { phase: Phase::Name, name: Seq::empty(), ..st }
        } else {
            to_fail(st)
        },
        Phase::Name => if c == '"' {
            with_phase(st, Phase::AfterKey)
        } else if c == '\\' {
            to_fail(st)
        } else {
            StateModel { name: st.name.push(c), ..st }
        },
        Phase::AfterKey => if is_ws(c) {
            st
        } else if c == ':' {
            with_phase(st, Phase::Val)
        } else {
            to_fail(st)
        },
        Phase::Val => if is_ws(c) {
            st
        } else if is_digit(c) {
            start_num(st, Phase::Num, c)
        } else if c == '"' {
            with_phase(st, Phase::QNum0)
        } else if c == '[' {
            StateModel { phase: Phase::Arr0, vals: Seq::empty(), ..st }
        } else {
            to_fail(st)
        },
        Phase::Num => if is_digit(c) {
            push_digit(st, c)
        } else if is_ws(c) {
            emit_scalar(st, Phase::AfterVal)
        } else if c == ',' {
            emit_scalar(st, Phase::Key)
        } else if c == '}' {
            emit_scalar(st, Phase::End)
        } else {
            to_fail(st)
        },
        Phase::QNum0 => if is_digit(c) {
            start_num(st, Phase::QNum, c)
        } else {
            to_fail(st)
        },
        Phase::QNum => if is_digit(c) {
            push_digit(st, c)
        } else if c == '"' {
            emit_scalar(st, Phase::AfterVal)
        } else {
            to_fail(st)
        },
        Phase::Arr0 => if is_ws(c) {
            st
        } else if is_digit(c) {
            start_num(st, Phase::ANum, c)
        } else if c == '"' {
            with_phase(st, Phase::AQNum0)
        } else if c == ']' {
            emit_array(st, st.vals)
        } else {
            to_fail(st)
        },
        Phase::ANum => if is_digit(c) {
            push_digit(st, c)
        } else if is_ws(c) {
            close_elem(st, Phase::AElemDone)
        } else if c == ',' {
            close_elem(st, Phase::AElem)
        } else if c == ']' {
            emit_array(st, st.vals.push(st.num))
        } else {
            to_fail(st)
        },
        Phase::AElem => if is_ws(c) {
            st
        } else if is_digit(c) {
            start_num(st, Phase::ANum, c)
        } else if c == '"' {
            with_phase(st, Phase::AQNum0)
        } else {
            to_fail(st)
        },
        Phase::AElemDone => if is_ws(c) {
            st
        } else if c == ',' {
            with_phase(st, Phase::AElem)
        } else if c == ']' {
            emit_array(st, st.vals)
        } else {
            to_fail(st)
        },
        Phase::AQNum0 => if is_digit(c) {
            start_num(st, Phase::AQNum, c)
        } else {
            to_fail(st)
        },
        Phase::AQNum => if is_digit(c) {
            push_digit(st, c)
        } else if c == '"' {
            close_elem(st, Phase::AElemDone)
        } else {
            to_fail(st)
        },
        Phase::AfterVal => if is_ws(c) {
            st
        } else if c == ',' {
            with_phase(st, Phase::Key)
        } else if c == '}' {
            with_phase(st, Phase::End)
        } else {
            to_fail(st)
        },
        Phase::End => if is_ws(c) {
            st
        } else {
            to_fail(st)
        },
        Phase::Fail => st,
    }
}

/// The parser state after consuming the first `n` characters of `s`.
pub open spec fn run_prefix(s: Seq<char>, n: int) -> StateModel
    decreases n,
{
    if n <= 0 {
        init_state()
    } else {
        state_step(run_prefix(s, n - 1), s[n - 1])
    }
}

/// What the whole input parses to: the signal list in input order, or
/// nothing when the input is malformed.
pub open spec fn spec_parse(s: Seq<char>) -> Option<Seq<SignalModel>> {
    let st = run_prefix(s, s.len() as int);
    if st.phase == Phase::End {
        Some(st.sigs)
    } else {
        None
    }
}

/// Executable parser state mirroring [`StateModel`].
pub struct ParserState {
    pub phase: Phase,
    pub name: Vec<char>,
    pub num: Vec<u8>,
    pub vals: Vec<Vec<u8>>,
    pub sigs: Vec<Signal>,
}

impl View for ParserState {
    type V = StateModel;

    open spec fn view(&self) -> StateModel {
        StateModel {
            phase: self.phase,
            name: self.name@,
            num: self.num@,
            vals: digits_view(self.vals@),
            sigs: signals_view(self.sigs@),
        }
    }
}

fn is_ws_exec(c: char) -> (b: bool)
    ensures
        b == is_ws(c),
{
    c == ' ' || c == '\n' || c == '\t' || c == '\r'
}

fn is_digit_exec(c: char) -> (b: bool)
    ensures
        b == is_digit(c),
{
    let u = c as u32;
    48 <= u && u <= 57
}

fn digit_val_exec(c: char) -> (d: u8)
    requires
        is_digit(c),
    ensures
        d == digit_val(c),
        d <= 9,
{
    (c as u32 - 48) as u8
}

/// Starts a fresh number with first digit `c` and moves to phase `p`.
fn start_num_exec(st: ParserState, p: Phase, c: char) -> (r: ParserState)
    requires
        is_digit(c),
    ensures
        r@ == start_num(st@, p, c),
{
    let ghost st0 = st@;
    let mut st = st;
    let mut num: Vec<u8> = Vec::new();
    num.push(digit_val_exec(c));
    st.num = num;
    st.phase = p;
    proof {
        assert(st@ =~= start_num(st0, p, c)) by {
            assert(st@.num =~= seq![digit_val(c)]);
        }
    }
    st
}

/// Closes the pending array element and moves to phase `p`.
fn close_elem_exec(st: ParserState, p: Phase) -> (r: ParserState)
    ensures
        r@ == close_elem(st@, p),
{
    let ghost st0 = st@;
    let mut st = st;
    let num = st.num;
    st.num = Vec::new();
    proof {
        lemma_digits_view_push(st.vals@, num);
    }
    st.vals.push(num);
    st.phase = p;
    proof {
        assert(st@ =~= close_elem(st0, p));
    }
    st
}

/// Pushes the pending scalar member and moves to phase `p`.
fn emit_scalar_exec(st: ParserState, p: Phase) -> (r: ParserState)
    ensures
        r@ == emit_scalar(st@, p),
{
    let ghost st0 = st@;
    let mut st = st;
    let name = st.name;
    st.name = Vec::new();
    let num = st.num;
    st.num = Vec::new();
    let mut values: Vec<Vec<u8>> = Vec::new();
    values.push(num);
    let sig = Signal { name, values };
    proof {
        lemma_signals_view_push(st.sigs@, sig);
        assert(sig@.values =~= seq![st0.num]);
    }
    st.sigs.push(sig);
    st.phase = p;
    proof {
        assert(st@ =~= emit_scalar(st0, p));
    }
    st
}

/// Pushes the pending array member, with the values gathered so far.
fn emit_array_exec(st: ParserState) -> (r: ParserState)
    ensures
        r@ == emit_array(st@, st@.vals),
{
    let ghost st0 = st@;
    let mut st = st;
    let name = st.name;
    st.name = Vec::new();
    st.num = Vec::new();
    let values = st.vals;
    st.vals = Vec::new();
    let sig = Signal { name, values };
    proof {
        lemma_signals_view_push(st.sigs@, sig);
    }
    st.sigs.push(sig);
    st.phase = Phase::AfterVal;
    proof {
        assert(st@ =~= emit_array(st0, st0.vals));
    }
    st
}

/// One transition of the executable parser.
fn advance(st: ParserState, c: char) -> (r: ParserState)
    ensures
        r@ == state_step(st@, c),
{
    let mut st = st;
    match st.phase {
        Phase::Pre => {
            if is_ws_exec(c) {
            } else if c == '{' {
                st.phase = Phase::KeyOrEnd;
            } else {
                st.phase = Phase::Fail;
            }
            st
        },
        Phase::KeyOrEnd => {
            if is_ws_exec(c) {
            } else if c == '"' {
                st.phase = Phase::Name;
                st.name = Vec::new();
            } else if c == '}' {
                st.phase = Phase::End;
            } else {
                st.phase = Phase::Fail;
            }
            st
        },
        Phase::Key => {
            if is_ws_exec(c) {
            } else if c == '"' {
                st.phase = Phase::Name;
                st.name = Vec::new();
            } else {
                st.phase = Phase::Fail;
            }
            st
        },
        Phase::Name => {
            if c == '"' {
                st.phase = Phase::AfterKey;
            } else if c == '\\' {
                st.phase = Phase::Fail;
            } else {
                st.name.push(c);
            }
            st
        },
        Phase::AfterKey => {
            if is_ws_exec(c) {
            } else if c == ':' {
                st.phase = Phase::Val;
            } else {
                st.phase = Phase::Fail;
            }
            st
        },
        Phase::Val => {
            if is_ws_exec(c) {
                st
            } else if is_digit_exec(c) {
                start_num_exec(st, Phase::Num, c)
            } else if c == '"' {
                st.phase = Phase::QNum0;
                st
            } else if c == '[' {
                st.phase = Phase::Arr0;
                st.vals = Vec::new();
                st
            } else {
                st.phase = Phase::Fail;
                st
            }
        },
        Phase::Num => {
            if is_digit_exec(c) {
                st.num.push(digit_val_exec(c));
                st
            } else if is_ws_exec(c) {
                emit_scalar_exec(st, Phase::AfterVal)
            } else if c == ',' {
                emit_scalar_exec(st, Phase::Key)
            } else if c == '}' {
                emit_scalar_exec(st, Phase::End)
            } else {
                st.phase = Phase::Fail;
                st
            }
        },
        Phase::QNum0 => {
            if is_digit_exec(c) {
                start_num_exec(st, Phase::QNum, c)
            } else {
                st.phase = Phase::Fail;
                st
            }
        },
        Phase::QNum => {
            if is_digit_exec(c) {
                st.num.push(digit_val_exec(c));
                st
            } else if c == '"' {
                emit_scalar_exec(st, Phase::AfterVal)
            } else {
                st.phase = Phase::Fail;
                st
            }
        },
        Phase::Arr0 => {
            if is_ws_exec(c) {
                st
            } else if is_digit_exec(c) {
                start_num_exec(st, Phase::ANum, c)
            } else if c == '"' {
                st.phase = Phase::AQNum0;
                st
            } else if c == ']' {
                emit_array_exec(st)
            } else {
                st.phase = Phase::Fail;
                st
            }
        },
        Phase::ANum => {
            if is_digit_exec(c) {
                st.num.push(digit_val_exec(c));
                st
            } else if is_ws_exec(c) {
                close_elem_exec(st, Phase::AElemDone)
            } else if c == ',' {
                close_elem_exec(st, Phase::AElem)
            } else if c == ']' {
                let st1 = close_elem_exec(st, Phase::ANum);
                emit_array_exec(st1)
            } else {
                st.phase = Phase::Fail;
                st
            }
        },
        Phase::AElem => {
            if is_ws_exec(c) {
                st
            } else if is_digit_exec(c) {
                start_num_exec(st, Phase::ANum, c)
            } else if c == '"' {
                st.phase = Phase::AQNum0;
                st
            } else {
                st.phase = Phase::Fail;
                st
            }
        },
        Phase::AElemDone => {
            if is_ws_exec(c) {
                st
            } else if c == ',' {
                st.phase = Phase::AElem;
                st
            } else if c == ']' {
                emit_array_exec(st)
            } else {
                st.phase = Phase::Fail;
                st
            }
        },
        Phase::AQNum0 => {
            if is_digit_exec(c) {
                start_num_exec(st, Phase::AQNum, c)
            } else {
                st.phase = Phase::Fail;
                st
            }
        },
        Phase::AQNum => {
            if is_digit_exec(c) {
                st.num.push(digit_val_exec(c));
            } else if c == '"' {
                return close_elem_exec(st, Phase::AElemDone);
            } else {
                st.phase = Phase::Fail;
            }
            st
        },
        Phase::AfterVal => {
            if is_ws_exec(c) {
            } else if c == ',' {
                st.phase = Phase::Key;
            } else if c == '}' {
                st.phase = Phase::End;
            } else {
                st.phase = Phase::Fail;
            }
            st
        },
        Phase::End => {
            if is_ws_exec(c) {
            } else {
                st.phase = Phase::Fail;
            }
            st
        },
        Phase::Fail => st,
    }
}

/// Parses one circuit-input string into its signals.
///
/// Returns the signal list exactly when the input lies in the accepted
/// grammar, and `InvalidInput` otherwise.
pub fn parse_inputs(s: &str) -> (r: Result<Vec<Signal>, WitnessError>)
    ensures
        match r {
            Ok(v) => spec_parse(s@) == Some(signals_view(v@)),
            Err(e) => spec_parse(s@) is None && e == WitnessError::InvalidInput,
        },
{
    let n = s.unicode_len();
    let mut st = ParserState {
        phase: Phase::Pre,
        name: Vec::new(),
        num: Vec::new(),
        vals: Vec::new(),
        sigs: Vec::new(),
    };
    assert(st@ =~= init_state());
    let mut i: usize = 0;
    while i < n
        invariant
            i <= n,
            n == s@.len(),
            st@ == run_prefix(s@, i as int),
        decreases n - i,
    {
        let c = s.get_char(i);
        st = advance(st, c);
        i += 1;
    }
    match st.phase {
        Phase::End => Ok(st.sigs),
        _ => Err(WitnessError::InvalidInput),
    }
}


/// One decimal digit as its character.
pub open spec fn digit_char(d: u8) -> char {
    d.wrapping_add(48) as char
}

pub open spec fn render_digits(d: Seq<u8>) -> Seq<char> {
    d.map_values(|x: u8| digit_char(x))
}

/// One value in the strict input form: its digits, quoted.
pub open spec fn render_value(d: Seq<u8>) -> Seq<char> {
    seq!['"'] + render_digits(d) + seq!['"']
}

/// An array of values in the strict input form, comma-separated.
pub open spec fn render_values(vs: Seq<Seq<u8>>) -> Seq<char>
    decreases vs.len(),
{
    if vs.len() == 0 {
        Seq::empty()
    } else if vs.len() == 1 {
        render_value(vs[0])
    } else {
        render_values(vs.drop_last()) + seq![','] + render_value(vs.last())
    }
}

/// One member in the strict input form: the quoted name, a colon, and
/// the value array.
pub open spec fn render_signal(s: SignalModel) -> Seq<char> {
    seq!['"'] + s.name + seq!['"', ':', '['] + render_values(s.values) + seq![']']
}

/// The members in the strict input form, comma-separated.
pub open spec fn render_signals(ss: Seq<SignalModel>) -> Seq<char>
    decreases ss.len(),
{
    if ss.len() == 0 {
        Seq::empty()
    } else if ss.len() == 1 {
        render_signal(ss[0])
    } else {
        render_signals(ss.drop_last()) + seq![','] + render_signal(ss.last())
    }
}

/// The whole input object in the strict array-of-strings form: every
/// value quoted, every signal's values in one array.
pub open spec fn render_inputs_spec(ss: Seq<SignalModel>) -> Seq<char> {
    seq!['{'] + render_signals(ss) + seq!['}']
}

proof fn lemma_render_values_step(vs: Seq<Seq<u8>>, i: int)
    requires
        0 <= i < vs.len(),
    ensures
        render_values(vs.take(i + 1)) == if i == 0 {
            render_value(vs[0])
        } else {
            render_values(vs.take(i)) + seq![','] + render_value(vs[i])
        },
{
    assert(vs.take(i + 1).drop_last() =~= vs.take(i));
    assert(vs.take(i + 1).last() == vs[i]);
    assert(vs.take(i + 1)[0] == vs[0]);
}

proof fn lemma_render_signals_step(ss: Seq<SignalModel>, i: int)
    requires
        0 <= i < ss.len(),
    ensures
        render_signals(ss.take(i + 1)) == if i == 0 {
            render_signal(ss[0])
        } else {
            render_signals(ss.take(i)) + seq![','] + render_signal(ss[i])
        },
{
    assert(ss.take(i + 1).drop_last() =~= ss.take(i));
    assert(ss.take(i + 1).last() == ss[i]);
    assert(ss.take(i + 1)[0] == ss[0]);
}

fn render_value_exec(v: &Vec<u8>) -> (r: Vec<char>)
    ensures
        r@ == render_value(v@),
{
    let mut out: Vec<char> = Vec::new();
    out.push('"');
    let n = v.len();
    let mut k: usize = 0;
    proof {
        assert(out@ =~= seq!['"'] + render_digits(v@.take(0)));
    }
    while k < n
        invariant
            k <= n,
            n == v@.len(),
            out@ == seq!['"'] + render_digits(v@.take(k as int)),
        decreases n - k,
    {
        out.push(v[k].wrapping_add(48) as char);
        proof {
            assert(seq!['"'] + render_digits(v@.take(k as int + 1)) =~= (seq!['"'] + render_digits(
                v@.take(k as int),
            )).push(digit_char(v@[k as int])));
        }
        k += 1;
    }
    out.push('"');
    proof {
        assert(v@.take(n as int) =~= v@);
        assert(out@ =~= render_value(v@));
    }
    out
}

fn render_values_exec(vs: &Vec<Vec<u8>>) -> (r: Vec<char>)
    ensures
        r@ == render_values(digits_view(vs@)),
{
    let mut out: Vec<char> = Vec::new();
    let n = vs.len();
    let mut j: usize = 0;
    proof {
        assert(digits_view(vs@).take(0) =~= Seq::<Seq<u8>>::empty());
    }
    while j < n
        invariant
            j <= n,
            n == vs@.len(),
            out@ == render_values(digits_view(vs@).take(j as int)),
        decreases n - j,
    {
        if j > 0 {
            out.push(',');
        }
        let mut piece = render_value_exec(&vs[j]);
        out.append(&mut piece);
        proof {
            lemma_render_values_step(digits_view(vs@), j as int);
            assert(digits_view(vs@)[j as int] == vs@[j as int]@);
            assert(out@ =~= render_values(digits_view(vs@).take(j as int + 1)));
        }
        j += 1;
    }
    proof {
        assert(digits_view(vs@).take(n as int) =~= digits_view(vs@));
    }
    out
}

fn render_signal_exec(sig: &Signal) -> (r: Vec<char>)
    ensures
        r@ == render_signal(sig@),
{
    let mut out: Vec<char> = Vec::new();
    out.push('"');
    let n = sig.name.len();
    let mut k: usize = 0;
    proof {
        assert(out@ =~= seq!['"'] + sig.name@.take(0));
    }
    while k < n
        invariant
            k <= n,
            n == sig.name@.len(),
            out@ == seq!['"'] + sig.name@.take(k as int),
        decreases n - k,
    {
        out.push(sig.name[k]);
        proof {
            assert(seq!['"'] + sig.name@.take(k as int + 1) =~= (seq!['"'] + sig.name@.take(
                k as int,
            )).push(sig.name@[k as int]));
        }
        k += 1;
    }
    out.push('"');
    out.push(':');
    out.push('[');
    let mut values = render_values_exec(&sig.values);
    out.append(&mut values);
    out.push(']');
    proof {
        assert(sig.name@.take(n as int) =~= sig.name@);
        assert(out@ =~= render_signal(sig@));
    }
    out
}

/// Renders parsed signals back into the strict array-of-strings input
/// form, `{"name":["123",...],...}`: the normalized shape handed to an
/// external witness pipeline.
pub fn render_inputs(sigs: &Vec<Signal>) -> (r: Vec<char>)
    ensures
        r@ == render_inputs_spec(signals_view(sigs@)),
{
    let mut out: Vec<char> = Vec::new();
    out.push('{');
    let n = sigs.len();
    let mut i: usize = 0;
    proof {
        assert(signals_view(sigs@).take(0) =~= Seq::<SignalModel>::empty());
        assert(out@ =~= seq!['{'] + render_signals(signals_view(sigs@).take(0)));
    }
    while i < n
        invariant
            i <= n,
            n == sigs@.len(),
            out@ == seq!['{'] + render_signals(signals_view(sigs@).take(i as int)),
        decreases n - i,
    {
        if i > 0 {
            out.push(',');
        }
        let mut piece = render_signal_exec(&sigs[i]);
        out.append(&mut piece);
        proof {
            lemma_render_signals_step(signals_view(sigs@), i as int);
            assert(signals_view(sigs@)[i as int] == sigs@[i as int]@);
            assert(out@ =~= seq!['{'] + render_signals(signals_view(sigs@).take(i as int + 1)));
        }
        i += 1;
    }
    out.push('}');
    proof {
        assert(signals_view(sigs@).take(n as int) =~= signals_view(sigs@));
        assert(out@ =~= render_inputs_spec(signals_view(sigs@)));
    }
    out
}


} // verus!
