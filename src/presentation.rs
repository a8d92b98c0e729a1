use vstd::prelude::*;
use crate::text::{decimal, digit_char, padded2, push_padded2};

verus! {

/// `mag` with the sign given by `neg`.
pub open spec fn signed(neg: bool, mag: int) -> int {
    if neg { -mag } else { mag }
}

/// The readout for `s` elapsed seconds: `HH:MM:SS` when the whole hours are
/// positive, else `MM:SS`, each field printed as `{:02}` prints it. Hours,
/// minutes and seconds are taken with Rust's truncating `/` and `%`.
pub open spec fn elapsed_text(s: int) -> Seq<char> {
    let neg = s < 0;
    let a = if neg { -s } else { s };
    let h = signed(neg, a / 3600);
    let m = signed(neg, (a % 3600) / 60);
    let sec = signed(neg, a % 60);
    if h > 0 {
        padded2(h) + seq![':'] + padded2(m) + seq![':'] + padded2(sec)
    } else {
        padded2(m) + seq![':'] + padded2(sec)
    }
}

/// Two decimal digits of `n`, for `0 <= n < 100`.
pub open spec fn two_digits(n: int) -> Seq<char> {
    seq![digit_char((n / 10) as nat), digit_char((n % 10) as nat)]
}

/// Formats `elapsed_seconds` as the tray readout.
pub fn format_elapsed(elapsed_seconds: i32) -> (r: String)
    ensures
        r@ == elapsed_text(elapsed_seconds as int),
{
    let neg = elapsed_seconds < 0;
    let a: u64 = if neg { (-(elapsed_seconds as i64)) as u64 } else { elapsed_seconds as u64 };
    let hours = a / 3600;
    let minutes = (a % 3600) / 60;
    let seconds = a % 60;
    let mut s = String::new();
    proof {
        reveal_strlit(":");
    }
    if !neg && hours > 0 {
        push_padded2(&mut s, neg, hours);
        s.append(":");
    }
    push_padded2(&mut s, neg, minutes);
    s.append(":");
    push_padded2(&mut s, neg, seconds);
    proof {
        let ghost ai = elapsed_seconds as int;
        let ghost mag = if ai < 0 { -ai } else { ai };
        assert(a as int == mag);
        assert(s@ =~= elapsed_text(ai));
    }
    s
}

proof fn lemma_padded2_two_digits(n: int)
    requires
        0 <= n < 100,
    ensures
        padded2(n) == two_digits(n),
{
    reveal_with_fuel(decimal, 2);
    if n < 10 {
        assert(padded2(n) =~= two_digits(n));
    } else {
        assert(decimal(n as nat) == decimal((n / 10) as nat).push(digit_char((n % 10) as nat)));
        assert(padded2(n) =~= two_digits(n));
    }
}

/// From one hour on the readout is `HH:MM:SS` (hours zero-padded to at least
/// two digits, minutes and seconds exactly two); below one hour it is `MM:SS`.
pub proof fn lemma_elapsed_text_shape(s: int)
    requires
        0 <= s,
    ensures
        s >= 3600 ==> elapsed_text(s) == padded2(s / 3600) + seq![':'] + two_digits((s % 3600) / 60)
            + seq![':'] + two_digits(s % 60),
        s >= 3600 ==> padded2(s / 3600).len() >= 2,
        s < 3600 ==> elapsed_text(s) == two_digits(s / 60) + seq![':'] + two_digits(s % 60),
{
    lemma_padded2_two_digits((s % 3600) / 60);
    lemma_padded2_two_digits(s % 60);
    if s < 3600 {
        assert((s % 3600) / 60 == s / 60);
    } else {
        let h = s / 3600;
        if h >= 10 {
            lemma_decimal_len(h as nat);
        } else {
            reveal_with_fuel(decimal, 1);
        }
    }
}

proof fn lemma_decimal_len(n: nat)
    requires
        n >= 10,
    ensures
        decimal(n).len() >= 2,
    decreases n,
{
    reveal_with_fuel(decimal, 2);
    if n / 10 >= 10 {
        lemma_decimal_len(n / 10);
    }
    assert(decimal(n) == decimal(n / 10).push(digit_char(n % 10)));
    assert(decimal(n / 10).len() >= 1);
}

/// The text last drawn on the status surface, kept so that an unchanged
/// readout is not drawn again.
pub struct TrayCache {
    pub last_text: Option<String>,
}

/// The cached text as a sequence of characters.
pub open spec fn cached_view(c: Option<String>) -> Option<Seq<char>> {
    match c {
        Some(t) => Some(t@),
        None => None,
    }
}

/// Whether a readout `t` has to be drawn, given the text drawn last.
pub open spec fn needs_render(last: Option<Seq<char>>, t: Seq<char>) -> bool {
    last != Some(t)
}

/// The effect of an update for `s` elapsed seconds on a cache whose last
/// drawn text is `last`: the text it then holds, and whether it draws.
pub open spec fn after_update(last: Option<Seq<char>>, s: int) -> (Option<Seq<char>>, bool) {
    (Some(elapsed_text(s)), needs_render(last, elapsed_text(s)))
}

impl TrayCache {
    pub open spec fn view_last(&self) -> Option<Seq<char>> {
        cached_view(self.last_text)
    }

    /// A cache that has drawn nothing yet.
    pub fn new() -> (r: TrayCache)
        ensures
            r.view_last() is None,
    {
        TrayCache { last_text: None }
    }

    /// Records the readout for `elapsed_seconds`. Returns the text to draw,
    /// or `None` when it equals the text drawn last.
    pub fn update_timer(&mut self, elapsed_seconds: i32) -> (r: Option<String>)
        ensures
            final(self).view_last() == after_update(old(self).view_last(), elapsed_seconds as int).0,
            (r is Some) == after_update(old(self).view_last(), elapsed_seconds as int).1,
            r is Some ==> r->0@ == elapsed_text(elapsed_seconds as int),
    {
        let text = format_elapsed(elapsed_seconds);
        let same = match &self.last_text {
            Some(last) => *last == text,
            None => false,
        };
        if same {
            None
        } else {
            self.last_text = Some(text.clone());
            Some(text)
        }
    }

    /// Forgets the text drawn last; the caller draws the idle icon.
    pub fn clear(&mut self)
        ensures
            final(self).view_last() is None,
    {
        self.last_text = None;
    }

    /// Records a change of the running state. Returns whether the idle icon
    /// is to be drawn: when the timer is not running, which also forgets the
    /// text drawn last.
    pub fn set_status(&mut self, is_running: bool) -> (r: bool)
        ensures
            r == !is_running,
            !is_running ==> final(self).view_last() is None,
            is_running ==> final(self).view_last() == old(self).view_last(),
    {
        if !is_running {
            self.last_text = None;
        }
        !is_running
    }
}

/// Two updates in a row whose readouts are the same draw exactly once,
/// unless the readout was already the text drawn last, in which case they
/// do not draw at all: the second update never draws.
pub proof fn lemma_repeated_update_renders_once(last: Option<Seq<char>>, s1: int, s2: int)
    requires
        elapsed_text(s1) == elapsed_text(s2),
    ensures
        ({
            let first = after_update(last, s1);
            let second = after_update(first.0, s2);
            &&& !second.1
            &&& (if first.1 { 1int } else { 0int }) + (if second.1 { 1int } else { 0int }) == (if last == Some(
                elapsed_text(s1),
            ) {
                0int
            } else {
                1int
            })
        }),
{
}

} // verus!
