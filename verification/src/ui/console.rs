//! The console of the recording window.

use vstd::prelude::*;

use crate::text;
use crate::text::push_dec2;

verus! {

/// Seconds in a day.
pub const DAY: u64 = 86400;

/// The console is cut when it has more lines than this.
pub const MOST_LINES: usize = 400;

/// The lines that are left when the console is cut.
pub const LINES_KEPT: usize = 300;

/// The time of day, in hours, minutes and seconds.
pub open spec fn clock(secs: u64) -> Seq<char> {
    let s = secs % DAY;
    text::pad2(text::dec_nat((s / 3600) as nat)) + ":"@ + text::pad2(
        text::dec_nat(((s % 3600) / 60) as nat),
    ) + ":"@ + text::pad2(text::dec_nat((s % 60) as nat))
}

/// The time of day of a number of seconds since some midnight.
pub fn timestamp(secs: u64) -> (r: String)
    ensures
        r@ == clock(secs),
{
    let in_day: u64 = secs % DAY;
    let mut s: String = "".to_owned();
    proof {
        reveal_strlit("");
    }
    push_dec2(&mut s, in_day / 3600);
    s.append(":");
    push_dec2(&mut s, (in_day % 3600) / 60);
    s.append(":");
    push_dec2(&mut s, in_day % 60);
    proof {
        assert(s@ =~= clock(secs));
    }
    s
}

/// A line without a mark.
pub open spec fn plain_line(secs: u64, message: Seq<char>) -> Seq<char> {
    "["@ + clock(secs) + "] "@ + message
}

/// A line of the console: the time, a mark that tells warnings apart, and the message.
pub open spec fn line(secs: u64, message: Seq<char>, warning: bool) -> Seq<char> {
    "["@ + clock(secs) + "] "@ + (if warning {
        "!"@
    } else {
        "●"@
    }) + " "@ + message
}

/// A line without a mark.
pub fn plain_line_of(secs: u64, message: &str) -> (r: String)
    ensures
        r@ == plain_line(secs, message@),
{
    let mut s: String = "[".to_owned();
    s.append(timestamp(secs).as_str());
    s.append("] ");
    s.append(message);
    s
}

/// A line of the console.
pub fn line_of(secs: u64, message: &str, warning: bool) -> (r: String)
    ensures
        r@ == line(secs, message@, warning),
{
    let mut s: String = "[".to_owned();
    s.append(timestamp(secs).as_str());
    s.append("] ");
    if warning {
        s.append("!");
    } else {
        s.append("●");
    }
    s.append(" ");
    s.append(message);
    s
}

/// Lines after another one. Too many are cut to the last ones.
pub open spec fn added<T>(lines: Seq<T>, next: T) -> Seq<T> {
    let all = lines.push(next);
    if all.len() > MOST_LINES {
        all.skip(all.len() - LINES_KEPT)
    } else {
        all
    }
}

/// The lines of the console.
#[derive(Debug)]
pub struct Console {
    lines: Vec<String>,
}

impl View for Console {
    type V = Seq<Seq<char>>;

    closed spec fn view(&self) -> Seq<Seq<char>> {
        text::views(self.lines@)
    }
}

impl Console {
    pub fn new() -> (r: Self)
        ensures
            r@ == Seq::<Seq<char>>::empty(),
    {
        let r: Console = Console { lines: Vec::new() };
        proof {
            assert(r@ =~= Seq::<Seq<char>>::empty());
        }
        r
    }

    pub fn len(&self) -> (r: usize)
        ensures
            r == self@.len(),
    {
        self.lines.len()
    }

    pub fn line(&self, i: usize) -> (r: &str)
        requires
            i < self@.len(),
        ensures
            r@ == self@[i as int],
    {
        self.lines[i].as_str()
    }

    /// Adds a line.
    pub fn add_line(&mut self, next: String)
        ensures
            final(self)@ == added(old(self)@, next@),
    {
        let ghost before = self.lines@;
        self.lines.push(next);
        let len: usize = self.lines.len();
        proof {
            assert(self@ =~= old(self)@.push(next@));
        }
        if len > MOST_LINES {
            let kept: Vec<String> = self.lines.split_off(len - LINES_KEPT);
            self.lines = kept;
            proof {
                assert(self@ =~= old(self)@.push(next@).skip(len - LINES_KEPT));
            }
        }
    }
}

/// Whether a line is drawn as a warning.
pub open spec fn spec_is_warning(l: Seq<char>) -> bool {
    text::holds(l, "! "@) || text::holds(l, "WARN"@)
}

/// Whether a line is drawn as a warning.
pub fn is_warning(l: &str) -> (r: bool)
    ensures
        r == spec_is_warning(l@),
{
    text::contains_text(l, "! ") || text::contains_text(l, "WARN")
}

/// The console never has more lines than it may have.
pub proof fn law_console_stays_short<T>(lines: Seq<T>, next: T)
    requires
        lines.len() <= MOST_LINES,
    ensures
        added(lines, next).len() <= MOST_LINES,
{
}

/// The newest line is always there, and the lines before it are those that came before it.
pub proof fn law_newest_lines_stay<T>(lines: Seq<T>, next: T)
    ensures
        added(lines, next).last() == next,
        added(lines, next).drop_last().is_suffix_of(lines),
{
    let shown = added(lines, next).drop_last();
    assert(shown =~= lines.skip(lines.len() - shown.len()));
}

/// What is logged as a warning is drawn as one.
pub proof fn law_warnings_are_seen(secs: u64, message: Seq<char>)
    ensures
        spec_is_warning(line(secs, message, true)),
{
    reveal_strlit("! ");
    reveal_strlit("!");
    reveal_strlit(" ");
    let l = line(secs, message, true);
    let front = "["@ + clock(secs) + "] "@;
    assert(l.subrange(front.len() as int, (front.len() + 2) as int) =~= "! "@);
    assert(text::has_at(l, "! "@, front.len() as int));
}

proof fn lemma_two_digits(n: nat)
    requires
        n < 100,
    ensures
        text::pad2(text::dec_nat(n)).len() == 2,
        text::dec_value(text::pad2(text::dec_nat(n))) == n,
{
    reveal_with_fuel(text::dec_nat, 3);
    reveal_with_fuel(text::dec_value, 3);
    text::law_dec_reads_back(n);
    let s = text::pad2(text::dec_nat(n));
    if n < 10 {
        assert(s.drop_last() =~= seq!['0']);
        assert(seq!['0'].drop_last() =~= Seq::<char>::empty());
    }
}

/// The clock shows two digits each of hours, minutes and seconds, which together make up the
/// time since midnight.
pub proof fn law_clock_shows_the_time(secs: u64, r: String)
    requires
        call_ensures(timestamp, (secs,), r),
    ensures
        r@.len() == 8,
        r@[2] == ':' && r@[5] == ':',
        text::dec_value(r@.subrange(0, 2)) < 24,
        text::dec_value(r@.subrange(3, 5)) < 60,
        text::dec_value(r@.subrange(6, 8)) < 60,
        3600 * text::dec_value(r@.subrange(0, 2)) + 60 * text::dec_value(r@.subrange(3, 5))
            + text::dec_value(r@.subrange(6, 8)) == secs as int % 86400,
{
    reveal_strlit(":");
    let s = secs % DAY;
    lemma_two_digits((s / 3600) as nat);
    lemma_two_digits(((s % 3600) / 60) as nat);
    lemma_two_digits((s % 60) as nat);
    assert(r@.subrange(0, 2) =~= text::pad2(text::dec_nat((s / 3600) as nat)));
    assert(r@.subrange(3, 5) =~= text::pad2(text::dec_nat(((s % 3600) / 60) as nat)));
    assert(r@.subrange(6, 8) =~= text::pad2(text::dec_nat((s % 60) as nat)));
}

/// A line starts with the clock in brackets and ends with its message. A mark between the two
/// tells warnings apart from other lines.
pub proof fn law_line_has_its_message(
    secs: u64,
    message: &str,
    now: String,
    plain: String,
    marked: String,
    warned: String,
)
    requires
        call_ensures(timestamp, (secs,), now),
        call_ensures(plain_line_of, (secs, message), plain),
        call_ensures(line_of, (secs, message, false), marked),
        call_ensures(line_of, (secs, message, true), warned),
    ensures
        plain@ == seq!['['] + now@ + seq![']', ' '] + message@,
        warned@ == seq!['['] + now@ + seq![']', ' ', '!', ' '] + message@,
        marked@.len() == warned@.len(),
        marked@ == warned@.update(11, marked@[11]),
        marked@[11] != '!',
{
    law_clock_shows_the_time(secs, now);
    reveal_strlit("[");
    reveal_strlit("] ");
    reveal_strlit("!");
    reveal_strlit("●");
    reveal_strlit(" ");
    assert(plain@ =~= seq!['['] + now@ + seq![']', ' '] + message@);
    assert(warned@ =~= seq!['['] + now@ + seq![']', ' ', '!', ' '] + message@);
    assert(marked@ =~= warned@.update(11, marked@[11]));
}

/// Up to 400 lines all stay. With one more the newest 300 are left.
pub proof fn law_console_keeps_what_it_can(c: &mut Console, next: String)
    requires
        old(c)@.len() <= 400,
        call_ensures(Console::add_line, (c, next), ()),
    ensures
        old(c)@.len() < 400 ==> final(c)@ == old(c)@.push(next@),
        old(c)@.len() == 400 ==> final(c)@.len() == 300 && final(c)@ == old(c)@.skip(101).push(
            next@,
        ),
{
    if old(c)@.len() == 400 {
        assert(final(c)@ =~= old(c)@.skip(101).push(next@));
    }
}

/// A line is drawn as a warning just where it holds the mark of one or the word for it.
pub proof fn law_warnings_are_told_by_their_text(l: &str, at: int, r: bool)
    requires
        call_ensures(is_warning, (l,), r),
    ensures
        0 <= at < l@.len() - 1 && l@[at] == '!' && l@[at + 1] == ' ' ==> r,
        0 <= at < l@.len() - 3 && l@.subrange(at, at + 4) == seq!['W', 'A', 'R', 'N'] ==> r,
        (forall|i: int| 0 <= i < l@.len() ==> #[trigger] l@[i] != '!' && l@[i] != 'W') ==> !r,
{
    reveal_strlit("! ");
    reveal_strlit("WARN");
    if 0 <= at < l@.len() - 1 && l@[at] == '!' && l@[at + 1] == ' ' {
        assert(l@.subrange(at, at + 2) =~= "! "@);
        assert(text::has_at(l@, "! "@, at));
    }
    if 0 <= at < l@.len() - 3 && l@.subrange(at, at + 4) == seq!['W', 'A', 'R', 'N'] {
        assert(seq!['W', 'A', 'R', 'N'] =~= "WARN"@);
        assert(text::has_at(l@, "WARN"@, at));
    }
    if forall|i: int| 0 <= i < l@.len() ==> #[trigger] l@[i] != '!' && l@[i] != 'W' {
        if text::holds(l@, "! "@) {
            let i = choose|i: int| text::has_at(l@, "! "@, i);
            assert(l@.subrange(i, i + 2)[0] == l@[i]);
            assert("! "@[0] == '!');
        }
        if text::holds(l@, "WARN"@) {
            let i = choose|i: int| text::has_at(l@, "WARN"@, i);
            assert(l@.subrange(i, i + 4)[0] == l@[i]);
            assert("WARN"@[0] == 'W');
        }
    }
}

/// The mark of a line tells whether it is a warning, and its message follows the mark.
pub proof fn lemma_mark(secs: u64, message: Seq<char>, warning: bool)
    ensures
        line(secs, message, warning).len() == 13 + message.len(),
        line(secs, message, warning)[11] == '!' <==> warning,
        line(secs, message, warning).skip(13) == message,
{
    let s = secs % DAY;
    lemma_two_digits((s / 3600) as nat);
    lemma_two_digits(((s % 3600) / 60) as nat);
    lemma_two_digits((s % 60) as nat);
    reveal_strlit(":");
    reveal_strlit("[");
    reveal_strlit("] ");
    reveal_strlit("!");
    reveal_strlit("●");
    reveal_strlit(" ");
    assert(clock(secs).len() == 8);
    assert(line(secs, message, warning).skip(13) =~= message);
}

} // verus!
