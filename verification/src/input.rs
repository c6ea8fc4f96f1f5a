//! The serial line editor and the idle timer that schedules Wi-Fi
//! reconnection checks while no input arrives.

use vstd::prelude::*;
use crate::command::{split_command, split_command_spec};
use crate::text::{pop_char, push_char, trim, trim_spec};

verus! {

/// Idle polls between two connectivity checks.
pub const RECONNECT_CHECK_TICKS: u32 = 100;

/// Milliseconds of one idle poll.
pub const RECONNECT_POLL_MS: u64 = 100;

/// What an input byte does to the line being edited.
#[derive(Clone, Copy, Debug, PartialEq, Eq, Structural)]
pub enum InputAction {
    /// Line feed or carriage return: the line is submitted.
    Submit,
    /// Backspace or delete: the last character is erased.
    Erase,
    /// Any other byte: it is appended as the character with its value.
    Append(char),
}

/// The action of an input byte.
pub open spec fn input_action(byte: u8) -> InputAction {
    if byte == 10 || byte == 13 {
        InputAction::Submit
    } else if byte == 8 || byte == 127 {
        InputAction::Erase
    } else {
        InputAction::Append(byte as char)
    }
}

/// The words of a submitted line: nothing for a blank line, else the trimmed
/// line split into the command and its arguments.
pub open spec fn submitted_parts(line: Seq<char>) -> Option<Seq<Seq<char>>> {
    if trim_spec(line).len() == 0 {
        None
    } else {
        Some(split_command_spec(trim_spec(line)))
    }
}

/// The characters of each string.
pub open spec fn strings_view(v: Seq<String>) -> Seq<Seq<char>> {
    v.map_values(|s: String| s@)
}

/// What handling an input byte produced.
pub enum InputEvent {
    /// The line was submitted and cleared; the parts of a non-blank line.
    Submitted(Option<Vec<String>>),
    /// The last character was erased (`true`), or the line was empty.
    Erased(bool),
    /// The character was appended and is to be echoed.
    Appended(char),
}

/// The action that an input byte stands for.
pub fn classify_byte(byte: u8) -> (a: InputAction)
    ensures
        a == input_action(byte),
{
    if byte == 10 || byte == 13 {
        InputAction::Submit
    } else if byte == 8 || byte == 127 {
        InputAction::Erase
    } else {
        InputAction::Append(byte as char)
    }
}

/// Takes the submitted line: clears it and gives the parts of the trimmed
/// line, or nothing when it is blank.
pub fn submit_line(line: &mut String) -> (r: Option<Vec<String>>)
    ensures
        final(line)@ == Seq::<char>::empty(),
        r is None <==> submitted_parts(old(line)@) is None,
        r matches Some(v) ==> strings_view(v@) == submitted_parts(old(line)@)->0,
{
    let trimmed = trim(line.as_str());
    let r = if trimmed.unicode_len() == 0 {
        None
    } else {
        let parts = split_command(trimmed);
        let mut owned: Vec<String> = Vec::new();
        let mut k: usize = 0;
        while k < parts.len()
            invariant
                k <= parts@.len(),
                owned@.len() == k,
                parts@.len() == split_command_spec(trimmed@).len(),
                forall|j: int| 0 <= j < parts@.len() ==> #[trigger] parts@[j]@ == split_command_spec(trimmed@)[j],
                forall|j: int| 0 <= j < k ==> #[trigger] owned@[j]@ == parts@[j]@,
            decreases parts@.len() - k,
        {
            owned.push(String::from_str(parts[k]));
            k = k + 1;
        }
        assert(strings_view(owned@) =~= split_command_spec(trimmed@));
        Some(owned)
    };
    *line = String::new();
    r
}

/// Erases the last character of the line; tells whether there was one.
pub fn erase_last_char(line: &mut String) -> (erased: bool)
    ensures
        erased == (old(line)@.len() > 0),
        final(line)@ == if erased { old(line)@.drop_last() } else { old(line)@ },
{
    pop_char(line).is_some()
}

/// Appends `ch` to the line.
pub fn append_char(ch: char, line: &mut String)
    ensures
        final(line)@ == old(line)@.push(ch),
{
    push_char(line, ch);
}

/// The prompt printed before each line.
pub fn print_prompt() -> (p: &'static str)
    ensures
        p@ == "> "@,
{
    "> "
}

/// Applies one input byte to the line being edited.
pub fn handle_input_byte(byte: u8, line: &mut String) -> (e: InputEvent)
    ensures
        match input_action(byte) {
            InputAction::Submit => {
                &&& final(line)@ == Seq::<char>::empty()
                &&& e matches InputEvent::Submitted(r)
                &&& (r is None <==> submitted_parts(old(line)@) is None)
                &&& (r matches Some(v) ==> strings_view(v@) == submitted_parts(old(line)@)->0)
            },
            InputAction::Erase => {
                &&& e == InputEvent::Erased(old(line)@.len() > 0)
                &&& final(line)@ == if old(line)@.len() > 0 {
                    old(line)@.drop_last()
                } else {
                    old(line)@
                }
            },
            InputAction::Append(c) => e == InputEvent::Appended(c) && final(line)@ == old(line)@.push(c),
        },
{
    match classify_byte(byte) {
        InputAction::Submit => InputEvent::Submitted(submit_line(line)),
        InputAction::Erase => InputEvent::Erased(erase_last_char(line)),
        InputAction::Append(c) => {
            append_char(c, line);
            InputEvent::Appended(c)
        },
    }
}

/// One idle poll from `t` ticks: the ticks after it, and whether a
/// connectivity check is due now.
pub open spec fn poll_step(t: nat) -> (nat, bool) {
    if t + 1 >= RECONNECT_CHECK_TICKS {
        (0, true)
    } else {
        (t + 1, false)
    }
}

/// Counts idle polls and says when a connectivity check is due.
pub struct ReconnectTimer {
    ticks: u32,
}

impl ReconnectTimer {
    #[verifier::type_invariant]
    spec fn below_period(self) -> bool {
        self.ticks < RECONNECT_CHECK_TICKS
    }

    /// Idle polls since the last check or input.
    pub closed spec fn ticks(self) -> nat {
        self.ticks as nat
    }

    /// A timer with no idle poll counted.
    pub fn new() -> (r: Self)
        ensures
            r.ticks() == 0,
    {
        ReconnectTimer { ticks: 0 }
    }

    /// Idle polls since the last check or input.
    pub fn idle_ticks(&self) -> (r: u32)
        ensures
            r == self.ticks(),
            r < RECONNECT_CHECK_TICKS,
    {
        proof {
            use_type_invariant(self);
        }
        self.ticks
    }

    /// Counts one idle poll; true when a connectivity check is due, which
    /// restarts the count.
    pub fn poll_reconnect(&mut self) -> (due: bool)
        ensures
            (final(self).ticks(), due) == poll_step(old(self).ticks()),
            final(self).ticks() < RECONNECT_CHECK_TICKS,
    {
        proof {
            use_type_invariant(&*self);
        }
        if self.ticks + 1 >= RECONNECT_CHECK_TICKS {
            self.ticks = 0;
            true
        } else {
            self.ticks = self.ticks + 1;
            false
        }
    }

    /// Input arrived: the idle count restarts.
    pub fn reset(&mut self)
        ensures
            final(self).ticks() == 0,
    {
        self.ticks = 0;
    }
}

/// The ticks after `n` idle polls from `t` ticks.
pub open spec fn ticks_after(t: nat, n: nat) -> nat
    decreases n,
{
    if n == 0 {
        t
    } else {
        poll_step(ticks_after(t, (n - 1) as nat)).0
    }
}

/// Whether the `n`-th idle poll from `t` ticks (counting from 1) reports a
/// connectivity check as due.
pub open spec fn due_at(t: nat, n: nat) -> bool {
    n > 0 && poll_step(ticks_after(t, (n - 1) as nat)).1
}

/// Idle polls schedule a connectivity check once every
/// `RECONNECT_CHECK_TICKS` polls: from `t` ticks, `n` polls leave
/// `(t + n) % RECONNECT_CHECK_TICKS` ticks, and the `n`-th poll reports a
/// check exactly when `t + n` is a multiple of the period. So after input
/// (which resets the count) the first check comes with the 100th idle poll.
pub proof fn reconnect_checks_are_periodic(t: nat, n: nat)
    requires
        t < RECONNECT_CHECK_TICKS,
    ensures
        RECONNECT_CHECK_TICKS == 100,
        ticks_after(t, n) == (t + n) % 100,
        n > 0 ==> (due_at(t, n) <==> (t + n) % 100 == 0),
    decreases n,
{
    let p = RECONNECT_CHECK_TICKS as nat;
    if n > 0 {
        reconnect_checks_are_periodic(t, (n - 1) as nat);
        let prev = ticks_after(t, (n - 1) as nat);
        vstd::arithmetic::div_mod::lemma_mod_bound((t + n - 1) as int, p as int);
        if prev + 1 >= p {
            assert(prev == p - 1);
            assert((t + n) % p == 0) by {
                lemma_mod_step((t + n - 1) as int, p as int);
            }
        } else {
            assert((t + n) % p == prev + 1) by {
                lemma_mod_step((t + n - 1) as int, p as int);
            }
        }
    }
}

proof fn lemma_mod_step(x: int, p: int)
    requires
        0 <= x,
        0 < p,
    ensures
        (x + 1) % p == if x % p + 1 == p { 0 } else { x % p + 1 },
{
    vstd::arithmetic::div_mod::lemma_fundamental_div_mod(x, p);
    vstd::arithmetic::div_mod::lemma_mod_bound(x, p);
    let q = x / p;
    let r = x % p;
    if r + 1 == p {
        assert(x + 1 == (q + 1) * p) by (nonlinear_arith)
            requires x == p * q + r, r + 1 == p;
        vstd::arithmetic::div_mod::lemma_mod_multiples_basic(q + 1, p);
    } else {
        assert(x + 1 == q * p + (r + 1)) by (nonlinear_arith)
            requires x == p * q + r;
        vstd::arithmetic::div_mod::lemma_mod_multiples_vanish(q, r + 1, p);
        vstd::arithmetic::div_mod::lemma_small_mod((r + 1) as nat, p as nat);
    }
}

/// Erasing right after appending a character gives the line back: the erase
/// key undoes the last typed character.
pub proof fn erase_undoes_append(line: Seq<char>, c: char)
    ensures
        line.push(c).len() > 0,
        line.push(c).drop_last() == line,
{
    assert(line.push(c).drop_last() =~= line);
}

/// A submitted line that is not blank always yields a command word, so the
/// command line can always look up what to run.
pub proof fn submitted_line_names_a_command(line: Seq<char>)
    ensures
        submitted_parts(line) matches Some(parts) ==> parts.len() >= 1,
{
    let t = trim_spec(line);
    if t.len() > 0 {
        match crate::command::first_ws_from(t, 0) {
            Some(pos) => {},
            None => {},
        }
    }
}

/// Line feed and carriage return submit, backspace and delete erase, and
/// every other byte is appended as the character with the same value,
/// unchanged (no case folding or other translation).
pub proof fn typed_bytes_are_kept_verbatim(b: u8)
    ensures
        (b == 10 || b == 13) ==> input_action(b) == InputAction::Submit,
        (b == 8 || b == 127) ==> input_action(b) == InputAction::Erase,
        !(b == 8 || b == 10 || b == 13 || b == 127) ==> (input_action(b) matches InputAction::Append(
            c,
        ) && c as u32 == b as u32),
        input_action(b) matches InputAction::Append(c) ==> c as u32 == b as u32,
{
}

} // verus!
