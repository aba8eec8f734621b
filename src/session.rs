use vstd::math::min;
use vstd::prelude::*;

use crate::stats::SessionStats;
use crate::text::{is_prefix_of, InputBuffer, ReferenceText};

verus! {

/// A key as the session reads it.
#[derive(Clone, Copy, Debug, PartialEq, Eq, Structural)]
pub enum Key {
    Char(char),
    Enter,
    Backspace,
    Left,
    Right,
    Esc,
    Other,
}

/// The sound that goes with a keystroke.
#[derive(Clone, Copy, Debug, PartialEq, Eq, Structural)]
pub enum Cue {
    Correct,
    Incorrect,
    Enter,
    Backspace,
}

/// What the event loop is to do after a key.
#[derive(Clone, Copy, Debug, PartialEq, Eq, Structural)]
pub enum Effect {
    Play(Cue),
    Exit,
    Nothing,
}

/// The whole state of a session, as mathematical values.
pub struct SessionView {
    pub remaining: Seq<char>,
    pub initial_length: nat,
    pub input: Seq<char>,
    pub total: nat,
    pub typed: nat,
    pub precise: nat,
    pub mistakes: nat,
    pub start_time: nat,
    pub last_was_correct: bool,
}

/// A character is precise when the line typed so far, that character
/// included, is exactly the start of what remains.
pub open spec fn classifies_correct(v: SessionView, ch: char) -> bool {
    is_prefix_of(v.input.push(ch), v.remaining)
}

/// The state after one key.
pub open spec fn step(v: SessionView, k: Key) -> SessionView {
    match k {
        Key::Char(ch) => {
            if classifies_correct(v, ch) {
                SessionView {
                    input: v.input.push(ch),
                    typed: v.typed + 1,
                    precise: v.precise + 1,
                    last_was_correct: true,
                    ..v
                }
            } else {
                SessionView {
                    input: v.input.push(ch),
                    typed: v.typed + 1,
                    mistakes: v.mistakes + 1,
                    last_was_correct: false,
                    ..v
                }
            }
        },
        Key::Enter => SessionView {
            remaining: v.remaining.skip(min(v.input.len() as int, v.remaining.len() as int)),
            input: Seq::<char>::empty(),
            ..v
        },
        Key::Backspace => SessionView {
            input: if v.input.len() > 0 {
                v.input.drop_last()
            } else {
                v.input
            },
            ..v
        },
        _ => v,
    }
}

/// What the event loop is asked to do after one key.
pub open spec fn effect_of(v: SessionView, k: Key) -> Effect {
    match k {
        Key::Char(ch) => if classifies_correct(v, ch) {
            Effect::Play(Cue::Correct)
        } else {
            Effect::Play(Cue::Incorrect)
        },
        Key::Enter => Effect::Play(Cue::Enter),
        Key::Backspace => Effect::Play(Cue::Backspace),
        Key::Esc => Effect::Exit,
        _ => Effect::Nothing,
    }
}

/// A typing session: the text left, the current line, the counters and the
/// status of the last character typed.
pub struct Session {
    pub reference: ReferenceText,
    pub input: InputBuffer,
    pub stats: SessionStats,
    pub last_was_correct: bool,
}

impl View for Session {
    type V = SessionView;

    open spec fn view(&self) -> SessionView {
        SessionView {
            remaining: self.reference@,
            initial_length: self.reference.initial_length as nat,
            input: self.input@,
            total: self.stats.total as nat,
            typed: self.stats.typed as nat,
            precise: self.stats.precise as nat,
            mistakes: self.stats.mistakes as nat,
            start_time: self.stats.start_time as nat,
            last_was_correct: self.last_was_correct,
        }
    }
}

impl Session {
    pub open spec fn wf(&self) -> bool {
        &&& self.reference.wf()
        &&& self.stats.wf()
        &&& self.stats.total == self.reference.initial_length
    }

    /// Starts a session on `text` at `start_time` (whole seconds).
    pub fn new(text: &str, start_time: u64) -> (r: Session)
        ensures
            r.wf(),
            r@ == (SessionView {
                remaining: text@,
                initial_length: text@.len(),
                input: Seq::<char>::empty(),
                total: text@.len(),
                typed: 0,
                precise: 0,
                mistakes: 0,
                start_time: start_time as nat,
                last_was_correct: false,
            }),
    {
        let reference = ReferenceText::new(text);
        let total: u64 = reference.initial_length as u64;
        Session {
            reference,
            input: InputBuffer::new(),
            stats: SessionStats::new(total, start_time),
            last_was_correct: false,
        }
    }

    /// Applies one key: scores a character against the text left, submits the
    /// line on Enter, removes the last character on Backspace, and asks to
    /// exit on Esc.
    pub fn handle_key(&mut self, key: Key) -> (r: Effect)
        requires
            old(self).wf(),
            key is Char ==> old(self).stats.typed < u64::MAX,
        ensures
            final(self).wf(),
            final(self)@ == step(old(self)@, key),
            r == effect_of(old(self)@, key),
    {
        match key {
            Key::Char(ch) => {
                self.input.append(ch);
                if self.reference.starts_with(self.input.chars()) {
                    self.last_was_correct = true;
                    self.stats.on_correct();
                    Effect::Play(Cue::Correct)
                } else {
                    self.last_was_correct = false;
                    self.stats.on_mistake();
                    Effect::Play(Cue::Incorrect)
                }
            },
            Key::Enter => {
                let n: usize = self.input.len();
                self.reference.consume_line(n);
                self.input.clear();
                Effect::Play(Cue::Enter)
            },
            Key::Backspace => {
                self.input.backspace();
                Effect::Play(Cue::Backspace)
            },
            Key::Esc => Effect::Exit,
            _ => Effect::Nothing,
        }
    }
}

/// Every keystroke counted is either precise or a mistake, after any key.
pub proof fn lemma_counts_add_up(v: SessionView, k: Key)
    requires
        v.precise + v.mistakes == v.typed,
    ensures
        step(v, k).precise + step(v, k).mistakes == step(v, k).typed,
{
}

/// The line typed stays within the length of the whole text, as long as no
/// character is typed on a line that is already that long.
pub proof fn lemma_input_within_text(v: SessionView, k: Key)
    requires
        v.input.len() <= v.initial_length,
        k is Char ==> v.input.len() < v.initial_length,
    ensures
        step(v, k).initial_length == v.initial_length,
        step(v, k).input.len() <= v.initial_length,
{
}

/// Backspace on an empty line changes nothing; only its cue is asked for.
pub proof fn lemma_backspace_on_empty_line(v: SessionView)
    requires
        v.input.len() == 0,
    ensures
        step(v, Key::Backspace) == v,
        effect_of(v, Key::Backspace) == Effect::Play(Cue::Backspace),
{
}

/// Enter on an empty line leaves the text and everything else as it was;
/// only its cue is asked for.
pub proof fn lemma_enter_on_empty_line(v: SessionView)
    requires
        v.input.len() == 0,
    ensures
        step(v, Key::Enter) == v,
        effect_of(v, Key::Enter) == Effect::Play(Cue::Enter),
{
    assert(v.remaining.skip(0) =~= v.remaining);
    assert(v.input =~= Seq::<char>::empty());
}

/// A character then Backspace gives the line back as it was, while the
/// counters keep the keystroke.
pub proof fn lemma_char_then_backspace(v: SessionView, ch: char)
    ensures
        step(step(v, Key::Char(ch)), Key::Backspace).input == v.input,
        step(step(v, Key::Char(ch)), Key::Backspace).typed == v.typed + 1,
        step(step(v, Key::Char(ch)), Key::Backspace).precise == step(v, Key::Char(ch)).precise,
        step(step(v, Key::Char(ch)), Key::Backspace).mistakes == step(v, Key::Char(ch)).mistakes,
        step(step(v, Key::Char(ch)), Key::Backspace).remaining == v.remaining,
{
    assert(v.input.push(ch).drop_last() =~= v.input);
}

/// Once the line is as long as the text left, each further character is a
/// mistake.
pub proof fn lemma_typing_past_end(v: SessionView, ch: char)
    requires
        v.input.len() >= v.remaining.len(),
    ensures
        step(v, Key::Char(ch)).mistakes == v.mistakes + 1,
        step(v, Key::Char(ch)).precise == v.precise,
        !step(v, Key::Char(ch)).last_was_correct,
        effect_of(v, Key::Char(ch)) == Effect::Play(Cue::Incorrect),
{
}

} // verus!
