//! The serial command line: splitting an input line into a command and its
//! arguments, recognising the command, and the fixed texts it prints.

use vstd::prelude::*;
use vstd::utf8::is_ascii_chars;
use crate::text::{is_ws, trim_start_spec, trim_start, is_whitespace, str_eq};

verus! {

/// The commands of the command line.
#[derive(Clone, Copy, Debug, PartialEq, Eq, Structural)]
pub enum Command {
    Help,
    Get,
    SetValue,
    Save,
    Restart,
    Curl,
    Ping,
    Unknown,
}

/// Position of the first white-space character of `s` at or after `i`.
pub open spec fn first_ws_from(s: Seq<char>, i: int) -> Option<int>
    decreases s.len() - i,
{
    if i < 0 || i >= s.len() {
        None
    } else if is_ws(s[i]) {
        Some(i)
    } else {
        first_ws_from(s, i + 1)
    }
}

/// The parts of `rem` after at most `rounds` more splits: each split cuts the
/// word before the first white space off and drops the white space after it;
/// what is left when no white space remains or the rounds run out is the last
/// part, unless it is empty.
pub open spec fn split_rounds(rem: Seq<char>, rounds: nat) -> Seq<Seq<char>>
    decreases rounds,
{
    let tail = if rem.len() > 0 {
        seq![rem]
    } else {
        Seq::<Seq<char>>::empty()
    };
    if rounds == 0 {
        tail
    } else {
        match first_ws_from(rem, 0) {
            None => tail,
            Some(pos) => seq![rem.take(pos)] + split_rounds(
                trim_start_spec(rem.skip(pos)),
                (rounds - 1) as nat,
            ),
        }
    }
}

/// A command line split into the command, its first argument, and the rest
/// of the line as the last argument.
pub open spec fn split_command_spec(line: Seq<char>) -> Seq<Seq<char>> {
    split_rounds(line, 2)
}

/// The command that an upper-cased command word names.
pub open spec fn command_of(upper: Seq<char>) -> Command {
    if upper == seq!['H', 'E', 'L', 'P'] {
        Command::Help
    } else if upper == seq!['G', 'E', 'T'] {
        Command::Get
    } else if upper == seq!['S', 'E', 'T'] {
        Command::SetValue
    } else if upper == seq!['S', 'A', 'V', 'E'] {
        Command::Save
    } else if upper == seq!['R', 'E', 'S', 'T', 'A', 'R', 'T'] {
        Command::Restart
    } else if upper == seq!['C', 'U', 'R', 'L'] {
        Command::Curl
    } else if upper == seq!['P', 'I', 'N', 'G'] {
        Command::Ping
    } else {
        Command::Unknown
    }
}

/// `s` without one pair of surrounding double quotes, if it has them.
pub open spec fn unquote_spec(s: Seq<char>) -> Seq<char> {
    if s.len() >= 2 && s[0] == '"' && s.last() == '"' {
        s.subrange(1, s.len() - 1)
    } else {
        s
    }
}

/// What `str::to_uppercase` returns for a string: its characters mapped by
/// the Unicode upper-case mapping.
pub uninterp spec fn to_uppercase_of(s: Seq<char>) -> Seq<char>;

/// ASCII upper-casing: `a` to `z` become `A` to `Z`, every other character
/// stays.
pub open spec fn ascii_upper(s: Seq<char>) -> Seq<char> {
    s.map_values(
        |c: char|
            if 0x61 <= (c as u32) && (c as u32) <= 0x7a {
                ((c as u32) - 0x20) as char
            } else {
                c
            },
    )
}

/// Calls `str::to_uppercase`; trusted to return `to_uppercase_of` of the
/// input's characters, that is, to depend on nothing but the input, and,
/// for an input of ASCII characters only, to upper-case its letters and keep
/// everything else (the Unicode upper-case mapping of ASCII, which std's
/// documentation and examples show). What the Unicode mapping gives for
/// other characters is not stated.
#[verifier::external_body]
fn to_uppercase(s: &str) -> (r: String)
    ensures
        r@ == to_uppercase_of(s@),
        is_ascii_chars(s@) ==> r@ == ascii_upper(s@),
{
    s.to_uppercase()
}

/// Position of the first white-space character of `s`.
fn find_whitespace(s: &str) -> (r: Option<usize>)
    ensures
        r matches Some(p) ==> first_ws_from(s@, 0) == Some(p as int) && p < s@.len(),
        r is None ==> first_ws_from(s@, 0) is None,
{
    let n = s.unicode_len();
    let mut i: usize = 0;
    while i < n
        invariant
            n == s@.len(),
            i <= n,
            first_ws_from(s@, 0) == first_ws_from(s@, i as int),
        decreases n - i,
    {
        if is_whitespace(s.get_char(i)) {
            return Some(i);
        }
        i = i + 1;
    }
    None
}

/// Splits a (trimmed) command line into at most three parts: the command,
/// the first argument, and the rest of the line.
pub fn split_command(line: &str) -> (parts: Vec<&str>)
    ensures
        parts@.len() == split_command_spec(line@).len(),
        forall|k: int| 0 <= k < parts@.len() ==> #[trigger] parts@[k]@ == split_command_spec(line@)[k],
{
    let mut parts: Vec<&str> = Vec::new();
    let mut remaining: &str = line;
    let mut rounds: usize = 2;
    let ghost done: Seq<Seq<char>> = Seq::empty();
    let mut stopped = false;
    while rounds > 0 && !stopped
        invariant
            rounds <= 2,
            parts@.len() == done.len(),
            forall|k: int| 0 <= k < parts@.len() ==> #[trigger] parts@[k]@ == done[k],
            stopped ==> first_ws_from(remaining@, 0) is None,
            done + split_rounds(remaining@, rounds as nat) == split_command_spec(line@),
        decreases rounds, (if stopped { 0int } else { 1int }),
    {
        match find_whitespace(remaining) {
            None => {
                stopped = true;
            },
            Some(pos) => {
                let n = remaining.unicode_len();
                let word = remaining.substring_char(0, pos);
                let rest = remaining.substring_char(pos, n);
                assert(word@ =~= remaining@.take(pos as int));
                assert(rest@ =~= remaining@.skip(pos as int));
                parts.push(word);
                proof {
                    done = done.push(word@);
                    assert(seq![word@] + split_rounds(trim_start_spec(rest@), (rounds - 1) as nat)
                        == split_rounds(remaining@, rounds as nat));
                    assert(done + split_rounds(trim_start_spec(rest@), (rounds - 1) as nat)
                        =~= done.drop_last() + split_rounds(remaining@, rounds as nat));
                }
                remaining = trim_start(rest);
                rounds = rounds - 1;
            },
        }
    }
    proof {
        let tail = if remaining@.len() > 0 {
            seq![remaining@]
        } else {
            Seq::<Seq<char>>::empty()
        };
        assert(split_rounds(remaining@, rounds as nat) == tail);
    }
    if remaining.unicode_len() > 0 {
        parts.push(remaining);
        proof {
            done = done.push(remaining@);
        }
    }
    assert(done =~= split_command_spec(line@));
    parts
}

/// The command that the upper-cased command word `upper` names.
pub fn command_from_upper(upper: &str) -> (c: Command)
    ensures
        c == command_of(upper@),
{
    proof {
        reveal_strlit("HELP");
        reveal_strlit("GET");
        reveal_strlit("SET");
        reveal_strlit("SAVE");
        reveal_strlit("RESTART");
        reveal_strlit("CURL");
        reveal_strlit("PING");
    }
    if str_eq(upper, "HELP") {
        assert("HELP"@ =~= seq!['H', 'E', 'L', 'P']);
        Command::Help
    } else if str_eq(upper, "GET") {
        assert("GET"@ =~= seq!['G', 'E', 'T']);
        Command::Get
    } else if str_eq(upper, "SET") {
        assert("SET"@ =~= seq!['S', 'E', 'T']);
        Command::SetValue
    } else if str_eq(upper, "SAVE") {
        assert("SAVE"@ =~= seq!['S', 'A', 'V', 'E']);
        Command::Save
    } else if str_eq(upper, "RESTART") {
        assert("RESTART"@ =~= seq!['R', 'E', 'S', 'T', 'A', 'R', 'T']);
        Command::Restart
    } else if str_eq(upper, "CURL") {
        assert("CURL"@ =~= seq!['C', 'U', 'R', 'L']);
        Command::Curl
    } else if str_eq(upper, "PING") {
        assert("PING"@ =~= seq!['P', 'I', 'N', 'G']);
        Command::Ping
    } else {
        assert("HELP"@ =~= seq!['H', 'E', 'L', 'P']);
        assert("GET"@ =~= seq!['G', 'E', 'T']);
        assert("SET"@ =~= seq!['S', 'E', 'T']);
        assert("SAVE"@ =~= seq!['S', 'A', 'V', 'E']);
        assert("RESTART"@ =~= seq!['R', 'E', 'S', 'T', 'A', 'R', 'T']);
        assert("CURL"@ =~= seq!['C', 'U', 'R', 'L']);
        assert("PING"@ =~= seq!['P', 'I', 'N', 'G']);
        Command::Unknown
    }
}

/// The command that the first part of a split command line names; the
/// command word is compared in upper case.
pub fn parse_command(parts: &[&str]) -> (c: Command)
    requires
        parts@.len() > 0,
    ensures
        c == command_of(to_uppercase_of(parts@[0]@)),
        is_ascii_chars(parts@[0]@) ==> c == command_of(ascii_upper(parts@[0]@)),
{
    let upper = to_uppercase(parts[0]);
    command_from_upper(upper.as_str())
}

/// Removes one pair of double quotes around `raw`, if it has them.
pub fn unquote(raw: &str) -> (r: String)
    ensures
        r@ == unquote_spec(raw@),
{
    let n = raw.unicode_len();
    if n >= 2 && raw.get_char(0) == '"' && raw.get_char(n - 1) == '"' {
        String::from_str(raw.substring_char(1, n - 1))
    } else {
        String::from_str(raw)
    }
}

/// No character of `s` is white space.
pub open spec fn no_ws(s: Seq<char>) -> bool {
    forall|j: int| 0 <= j < s.len() ==> !is_ws(#[trigger] s[j])
}

/// Every character of `s` is white space.
pub open spec fn all_ws(s: Seq<char>) -> bool {
    forall|j: int| 0 <= j < s.len() ==> is_ws(#[trigger] s[j])
}

proof fn lemma_first_ws_at(s: Seq<char>, i: int, p: int)
    requires
        0 <= i <= p < s.len(),
        is_ws(s[p]),
        forall|j: int| i <= j < p ==> !is_ws(#[trigger] s[j]),
    ensures
        first_ws_from(s, i) == Some(p),
    decreases p - i,
{
    if i < p {
        lemma_first_ws_at(s, i + 1, p);
    }
}

proof fn lemma_trim_start_skips_ws(sep: Seq<char>, t: Seq<char>)
    requires
        all_ws(sep),
        t.len() > 0,
        !is_ws(t[0]),
    ensures
        trim_start_spec(sep + t) == t,
    decreases sep.len(),
{
    if sep.len() == 0 {
        assert(sep + t =~= t);
    } else {
        assert((sep + t).drop_first() =~= sep.drop_first() + t);
        lemma_trim_start_skips_ws(sep.drop_first(), t);
    }
}

proof fn lemma_split_round(w: Seq<char>, sep: Seq<char>, t: Seq<char>, rounds: nat)
    requires
        w.len() > 0,
        no_ws(w),
        sep.len() > 0,
        all_ws(sep),
        t.len() > 0,
        !is_ws(t[0]),
        rounds > 0,
    ensures
        split_rounds(w + sep + t, rounds) == seq![w] + split_rounds(t, (rounds - 1) as nat),
{
    let line = w + sep + t;
    lemma_first_ws_at(line, 0, w.len() as int);
    assert(line.take(w.len() as int) =~= w);
    assert(line.skip(w.len() as int) =~= sep + t);
    lemma_trim_start_skips_ws(sep, t);
}

/// A command line of a command word, a key word and a value, separated by
/// white space, splits back into exactly those three parts; the value keeps
/// any white space inside it. So `SET <key> <value>` hands the whole value,
/// spaces included, to the command.
pub proof fn split_command_recovers_parts(
    cmd: Seq<char>,
    sep1: Seq<char>,
    key: Seq<char>,
    sep2: Seq<char>,
    value: Seq<char>,
)
    requires
        cmd.len() > 0,
        no_ws(cmd),
        sep1.len() > 0,
        all_ws(sep1),
        key.len() > 0,
        no_ws(key),
        sep2.len() > 0,
        all_ws(sep2),
        value.len() > 0,
        !is_ws(value[0]),
    ensures
        split_command_spec(cmd + sep1 + key + sep2 + value) == seq![cmd, key, value],
{
    let rest = key + sep2 + value;
    assert(cmd + sep1 + key + sep2 + value =~= cmd + sep1 + rest);
    assert(rest[0] == key[0]);
    lemma_split_round(cmd, sep1, rest, 2);
    lemma_split_round(key, sep2, value, 1);
    assert(split_rounds(value, 0) == seq![value]);
    assert(seq![cmd] + (seq![key] + seq![value]) =~= seq![cmd, key, value]);
}

proof fn lemma_split_rounds_len(rem: Seq<char>, rounds: nat)
    ensures
        split_rounds(rem, rounds).len() <= rounds + 1,
    decreases rounds,
{
    if rounds > 0 {
        if let Some(pos) = first_ws_from(rem, 0) {
            lemma_split_rounds_len(trim_start_spec(rem.skip(pos)), (rounds - 1) as nat);
        }
    }
}

/// Quoting a value and unquoting it gives the value back.
pub proof fn unquote_removes_added_quotes(s: Seq<char>)
    ensures
        unquote_spec(seq!['"'] + s + seq!['"']) == s,
{
    let q = seq!['"'] + s + seq!['"'];
    assert(q.subrange(1, q.len() - 1) =~= s);
}

/// The parts joined back together, each followed by its separator.
pub open spec fn interleave(parts: Seq<Seq<char>>, seps: Seq<Seq<char>>) -> Seq<char>
    decreases parts.len(),
{
    if parts.len() == 0 {
        Seq::<char>::empty()
    } else {
        parts[0] + seps[0] + interleave(parts.drop_first(), seps.drop_first())
    }
}

proof fn lemma_first_ws_props(s: Seq<char>, i: int)
    requires
        0 <= i,
    ensures
        first_ws_from(s, i) matches Some(p) ==> {
            &&& i <= p < s.len()
            &&& is_ws(s[p])
            &&& forall|j: int| i <= j < p ==> !is_ws(#[trigger] s[j])
        },
    decreases s.len() - i,
{
    if i < s.len() && !is_ws(s[i]) {
        lemma_first_ws_props(s, i + 1);
    }
}

proof fn lemma_leading_ws(s: Seq<char>) -> (w: Seq<char>)
    ensures
        all_ws(w),
        s == w + trim_start_spec(s),
    decreases s.len(),
{
    if s.len() > 0 && is_ws(s[0]) {
        let w1 = lemma_leading_ws(s.drop_first());
        let w = seq![s[0]] + w1;
        assert(trim_start_spec(s) == trim_start_spec(s.drop_first()));
        assert(s =~= seq![s[0]] + s.drop_first());
        assert(w + trim_start_spec(s) =~= seq![s[0]] + (w1 + trim_start_spec(s.drop_first())));
        assert forall|j: int| 0 <= j < w.len() implies is_ws(#[trigger] w[j]) by {
            if j > 0 {
                assert(w[j] == w1[j - 1]);
            }
        }
        w
    } else {
        assert(s =~= Seq::<char>::empty() + s);
        Seq::<char>::empty()
    }
}

proof fn lemma_trim_start_clean(s: Seq<char>)
    ensures
        trim_start_spec(s).len() == 0 || !is_ws(trim_start_spec(s)[0]),
    decreases s.len(),
{
    if s.len() > 0 && is_ws(s[0]) {
        lemma_trim_start_clean(s.drop_first());
    }
}

proof fn lemma_split_structure(rem: Seq<char>, rounds: nat) -> (seps: Seq<Seq<char>>)
    ensures
        seps.len() == split_rounds(rem, rounds).len(),
        forall|k: int| 0 <= k < seps.len() ==> all_ws(#[trigger] seps[k]),
        rem == interleave(split_rounds(rem, rounds), seps),
        forall|k: int|
            0 <= k < split_rounds(rem, rounds).len() - 1 ==> no_ws(
                #[trigger] split_rounds(rem, rounds)[k],
            ),
        (rem.len() == 0 || !is_ws(rem[0])) ==> forall|k: int|
            0 <= k < split_rounds(rem, rounds).len() ==> (#[trigger] split_rounds(rem, rounds)[k]).len()
                > 0 && !is_ws(split_rounds(rem, rounds)[k][0]),
    decreases rounds,
{
    let parts = split_rounds(rem, rounds);
    lemma_first_ws_props(rem, 0);
    if rounds == 0 || first_ws_from(rem, 0) is None {
        if rem.len() > 0 {
            let seps = seq![Seq::<char>::empty()];
            assert(parts =~= seq![rem]);
            assert(interleave(parts.drop_first(), seps.drop_first()) == Seq::<char>::empty());
            assert(rem =~= rem + Seq::<char>::empty() + Seq::<char>::empty());
            seps
        } else {
            Seq::<Seq<char>>::empty()
        }
    } else {
        let pos = first_ws_from(rem, 0)->0;
        let word = rem.take(pos);
        let after = rem.skip(pos);
        let next = trim_start_spec(after);
        let sub = split_rounds(next, (rounds - 1) as nat);
        let w = lemma_leading_ws(after);
        lemma_trim_start_clean(after);
        let sub_seps = lemma_split_structure(next, (rounds - 1) as nat);
        let seps = seq![w] + sub_seps;
        assert(parts == seq![word] + sub);
        assert(parts.drop_first() =~= sub);
        assert(seps.drop_first() =~= sub_seps);
        assert(rem =~= word + after);
        assert(rem =~= word + w + interleave(sub, sub_seps));
        assert forall|k: int| 0 <= k < seps.len() implies all_ws(#[trigger] seps[k]) by {
            if k > 0 {
                assert(seps[k] == sub_seps[k - 1]);
            }
        }
        assert forall|k: int| 0 <= k < parts.len() - 1 implies no_ws(#[trigger] parts[k]) by {
            if k == 0 {
                assert(parts[0] == word);
            } else {
                assert(parts[k] == sub[k - 1]);
            }
        }
        if rem.len() == 0 || !is_ws(rem[0]) {
            assert forall|k: int| 0 <= k < parts.len() implies (#[trigger] parts[k]).len() > 0
                && !is_ws(parts[k][0]) by {
                if k == 0 {
                    assert(pos > 0);
                    assert(parts[0] == word);
                    assert(word[0] == rem[0]);
                } else {
                    assert(parts[k] == sub[k - 1]);
                }
            }
        }
        seps
    }
}

/// The shape of a split command line: at most three parts; every part but
/// the last holds no white space; every part but the first is non-empty and
/// starts with a character that is not white space (the first too, when the
/// line does not start with white space); and the line is the parts put back
/// together with a run of white space after each (the last run may be
/// empty), so splitting drops only the white space between the parts and
/// after them.
pub proof fn split_command_structure(line: Seq<char>)
    ensures
        split_command_spec(line).len() <= 3,
        line.len() == 0 <==> split_command_spec(line).len() == 0,
        forall|k: int|
            0 <= k < split_command_spec(line).len() - 1 ==> no_ws(
                #[trigger] split_command_spec(line)[k],
            ),
        forall|k: int|
            1 <= k < split_command_spec(line).len() ==> (#[trigger] split_command_spec(line)[k]).len()
                > 0 && !is_ws(split_command_spec(line)[k][0]),
        (line.len() > 0 && !is_ws(line[0])) ==> split_command_spec(line)[0].len() > 0,
        exists|seps: Seq<Seq<char>>|
            {
                &&& seps.len() == split_command_spec(line).len()
                &&& forall|k: int| 0 <= k < seps.len() ==> all_ws(#[trigger] seps[k])
                &&& line == #[trigger] interleave(split_command_spec(line), seps)
            },
{
    lemma_split_rounds_len(line, 2);
    let parts = split_command_spec(line);
    let seps = lemma_split_structure(line, 2);
    lemma_first_ws_props(line, 0);
    if line.len() > 0 {
        match first_ws_from(line, 0) {
            Some(pos) => {
                let after = line.skip(pos);
                let next = trim_start_spec(after);
                lemma_trim_start_clean(after);
                let _ = lemma_split_structure(next, 1);
            },
            None => {},
        }
    }
    assert(line == interleave(parts, seps));
}

} // verus!
