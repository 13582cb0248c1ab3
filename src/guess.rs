use rand::Rng;
use vstd::prelude::*;

verus! {

/// An ASCII decimal digit.
pub open spec fn is_digit(c: char) -> bool {
    '0' <= c && c <= '9'
}

/// The number that a sequence of decimal digits spells, most significant first.
pub open spec fn digits_value(s: Seq<char>) -> nat
    decreases s.len(),
{
    if s.len() == 0 {
        0
    } else {
        digits_value(s.drop_last()) * 10 + (s.last() as nat - '0' as nat) as nat
    }
}

/// The text after an optional leading `+`.
pub open spec fn unsigned_body(s: Seq<char>) -> Seq<char> {
    if s.len() > 0 && s[0] == '+' {
        s.drop_first()
    } else {
        s
    }
}

/// What a text means as an unsigned 32-bit number: an optional `+`, then one
/// or more decimal digits whose value fits in a `u32`; otherwise nothing.
pub open spec fn parsed_u32(s: Seq<char>) -> Option<u32> {
    let d = unsigned_body(s);
    if d.len() > 0 && (forall|i: int| 0 <= i < d.len() ==> is_digit(#[trigger] d[i]))
        && digits_value(d) <= u32::MAX {
        Some(digits_value(d) as u32)
    } else {
        None
    }
}

/// What `str::trim` leaves of a text: it without its leading and trailing
/// whitespace.
pub uninterp spec fn trimmed(s: Seq<char>) -> Seq<char>;

/// Relies on `str::trim`: the text without leading and trailing whitespace.
#[verifier::external_body]
fn trim_text(line: &str) -> (r: &str)
    ensures
        r@ == trimmed(line@),
{
    line.trim()
}

/// A longer run of digits is worth at least as much as any of its prefixes.
proof fn lemma_digits_value_grows(s: Seq<char>, k: int)
    requires
        0 <= k <= s.len(),
        forall|i: int| 0 <= i < s.len() ==> is_digit(#[trigger] s[i]),
    ensures
        digits_value(s.subrange(0, k)) <= digits_value(s),
    decreases s.len() - k,
{
    if k < s.len() {
        let t = s.subrange(0, k + 1);
        assert(t.drop_last() =~= s.subrange(0, k));
        lemma_digits_value_grows(s, k + 1);
    } else {
        assert(s.subrange(0, k) =~= s);
    }
}

/// Reads a text as an unsigned 32-bit number: an optional `+` followed by
/// decimal digits, with no other character and a value that fits.
pub fn parse_guess(text: &str) -> (r: Option<u32>)
    ensures
        r == parsed_u32(text@),
{
    let len = text.unicode_len();
    let mut start: usize = 0;
    if len > 0 && text.get_char(0) == '+' {
        start = 1;
    }
    let ghost d = unsigned_body(text@);
    assert(d =~= text@.subrange(start as int, len as int));
    if start == len {
        return None;
    }
    let mut value: u64 = 0;
    let mut i: usize = start;
    while i < len
        invariant
            len == text@.len(),
            d == text@.subrange(start as int, len as int),
            d == unsigned_body(text@),
            start < len,
            start <= i <= len,
            forall|k: int| 0 <= k < i - start ==> is_digit(#[trigger] d[k]),
            value == digits_value(d.subrange(0, i - start)),
            value <= u32::MAX,
        decreases len - i,
    {
        let c = text.get_char(i);
        if !('0' <= c && c <= '9') {
            assert(!is_digit(d[i - start]));
            return None;
        }
        let ghost p = d.subrange(0, i - start + 1);
        assert(p.drop_last() =~= d.subrange(0, i - start));
        assert(p.last() == c);
        value = value * 10 + (c as u64 - '0' as u64);
        assert(value == digits_value(p));
        i += 1;
        if value > u32::MAX as u64 {
            proof {
                if forall|k: int| 0 <= k < d.len() ==> is_digit(#[trigger] d[k]) {
                    lemma_digits_value_grows(d, i - start);
                }
            }
            return None;
        }
    }
    assert(d.subrange(0, len - start) =~= d);
    Some(value as u32)
}

/// How a guess stands to the secret number.
#[derive(Clone, Copy, Debug, PartialEq, Eq, Structural)]
pub enum Verdict {
    TooSmall,
    TooBig,
    Win,
}

/// The verdict on `guess` against `secret`, by three-way comparison.
pub open spec fn verdict_of(guess: u32, secret: u32) -> Verdict {
    if guess < secret {
        Verdict::TooSmall
    } else if guess > secret {
        Verdict::TooBig
    } else {
        Verdict::Win
    }
}

/// Compares a guess with the secret number.
pub fn compare(guess: u32, secret: u32) -> (r: Verdict)
    ensures
        r == verdict_of(guess, secret),
{
    if guess < secret {
        Verdict::TooSmall
    } else if guess > secret {
        Verdict::TooBig
    } else {
        Verdict::Win
    }
}

impl Verdict {
    /// The line shown to the player for this verdict.
    pub fn message(&self) -> (r: &'static str)
        ensures
            *self == Verdict::TooSmall ==> r@ == "Muito pequeno!"@,
            *self == Verdict::TooBig ==> r@ == "Muito grande!"@,
            *self == Verdict::Win ==> r@ == "Você ganhou!"@,
    {
        match self {
            Verdict::TooSmall => "Muito pequeno!",
            Verdict::TooBig => "Muito grande!",
            Verdict::Win => "Você ganhou!",
        }
    }
}

/// The generator of random numbers that rand keeps for each thread.
#[verifier::external_type_specification]
#[verifier::external_body]
pub struct ExThreadRng(rand::rngs::ThreadRng);

/// Relies on `rand::thread_rng`, which hands out the thread's generator; it
/// promises nothing of the numbers that come from it.
pub assume_specification[ rand::thread_rng ]() -> rand::rngs::ThreadRng;

/// Relies on rand's `Rng::gen_range(low, high)`, which returns a number in
/// `[low, high)` and panics unless `low < high`.
#[verifier::external_body]
fn random_below(rng: &mut rand::rngs::ThreadRng, low: u32, high: u32) -> (r: u32)
    requires
        low < high,
    ensures
        low <= r < high,
{
    rng.gen_range(low, high)
}

/// The smallest secret number.
pub const SECRET_MIN: u32 = 1;

/// The largest secret number.
pub const SECRET_MAX: u32 = 100;

/// What a game is at a moment: the secret number, and whether it was found.
pub struct GameView {
    pub secret: u32,
    pub won: bool,
}

/// One round of the guessing game. The secret number is fixed when the game
/// is made and lies in `[SECRET_MIN, SECRET_MAX]`.
pub struct Game {
    secret: u32,
    won: bool,
}

/// What one line of input did to the game.
#[derive(Clone, Copy, Debug, PartialEq, Eq, Structural)]
pub enum Turn {
    /// The line held no number: the game is unchanged and asks again.
    Retry,
    /// The line held `guess`, which drew `verdict`.
    Judged { guess: u32, verdict: Verdict },
}

impl View for Game {
    type V = GameView;

    closed spec fn view(&self) -> GameView {
        GameView { secret: self.secret, won: self.won }
    }
}

/// What a line that reads as `parsed` does to a game in state `before`: the
/// state after it and what is reported.
pub open spec fn turn_outcome(before: GameView, parsed: Option<u32>) -> (GameView, Turn) {
    match parsed {
        None => (before, Turn::Retry),
        Some(g) => {
            let v = verdict_of(g, before.secret);
            (
                GameView { secret: before.secret, won: before.won || v == Verdict::Win },
                Turn::Judged { guess: g, verdict: v },
            )
        },
    }
}

impl Game {
    /// Well-formed: the secret number lies in `[SECRET_MIN, SECRET_MAX]`.
    pub open spec fn wf(&self) -> bool {
        SECRET_MIN <= self@.secret <= SECRET_MAX
    }

    /// A new game whose secret number is drawn at random.
    pub fn new() -> (r: Game)
        ensures
            r.wf(),
            !r@.won,
    {
        let mut rng = rand::thread_rng();
        let secret = random_below(&mut rng, SECRET_MIN, SECRET_MAX + 1);
        Game { secret, won: false }
    }

    /// A new game with the given secret number.
    pub fn with_secret(secret: u32) -> (r: Game)
        requires
            SECRET_MIN <= secret <= SECRET_MAX,
        ensures
            r.wf(),
            r@ == (GameView { secret, won: false }),
    {
        Game { secret, won: false }
    }

    /// The secret number.
    pub fn secret(&self) -> (r: u32)
        ensures
            r == self@.secret,
    {
        self.secret
    }

    /// Whether the secret number has been guessed.
    pub fn is_won(&self) -> (r: bool)
        ensures
            r == self@.won,
    {
        self.won
    }

    /// Judges a guess; a right one wins the game.
    pub fn judge(&mut self, guess: u32) -> (r: Verdict)
        ensures
            r == verdict_of(guess, old(self)@.secret),
            final(self)@ == turn_outcome(old(self)@, Some(guess)).0,
            old(self).wf() ==> final(self).wf(),
    {
        let v = compare(guess, self.secret);
        if v == Verdict::Win {
            self.won = true;
        }
        v
    }

    /// Plays a line whose surrounding whitespace is already gone: a text that
    /// is no number leaves the game as it was, a number is judged.
    pub fn play_trimmed(&mut self, text: &str) -> (r: Turn)
        ensures
            (final(self)@, r) == turn_outcome(old(self)@, parsed_u32(text@)),
            parsed_u32(text@) is None ==> *final(self) == *old(self) && r == Turn::Retry,
            old(self).wf() ==> final(self).wf(),
    {
        match parse_guess(text) {
            None => Turn::Retry,
            Some(guess) => {
                let verdict = self.judge(guess);
                Turn::Judged { guess, verdict }
            },
        }
    }

    /// Plays one line of input, as typed: it is trimmed of surrounding
    /// whitespace, then played as by `play_trimmed`.
    pub fn play_line(&mut self, line: &str) -> (r: Turn)
        ensures
            (final(self)@, r) == turn_outcome(old(self)@, parsed_u32(trimmed(line@))),
            parsed_u32(trimmed(line@)) is None ==> *final(self) == *old(self) && r == Turn::Retry,
            old(self).wf() ==> final(self).wf(),
    {
        let text = trim_text(line);
        self.play_trimmed(text)
    }
}

} // verus!
