use vstd::prelude::*;
use vstd::string::*;
use crate::date::{is_late, late_at, DateTime};
use crate::task::{Task, TaskList, TaskView};

verus! {

/// How many tasks of `s` are done.
pub open spec fn count_done(s: Seq<TaskView>) -> nat
    decreases s.len(),
{
    if s.len() == 0 {
        0
    } else {
        count_done(s.drop_last()) + if s.last().done {
            1nat
        } else {
            0nat
        }
    }
}

/// How many tasks of `s` are not done and late at `now`.
pub open spec fn count_late(s: Seq<TaskView>, now: DateTime) -> nat
    decreases s.len(),
{
    if s.len() == 0 {
        0
    } else {
        count_late(s.drop_last(), now) + if !s.last().done && late_at(s.last().date, now) {
            1nat
        } else {
            0nat
        }
    }
}

/// `part` as a whole percentage of `whole`, rounded down; zero when `whole`
/// is zero.
pub open spec fn percent(part: nat, whole: nat) -> nat {
    if whole == 0 {
        0
    } else {
        part * 100 / whole
    }
}

proof fn lemma_counts_bounded(s: Seq<TaskView>, now: DateTime)
    ensures
        count_done(s) <= s.len(),
        count_late(s, now) + count_done(s) <= s.len(),
    decreases s.len(),
{
    if s.len() > 0 {
        lemma_counts_bounded(s.drop_last(), now);
    }
}

/// A summary of the task list: how many tasks there are, how many are
/// done, and how many of those not done are late. A percentage over no
/// tasks is zero.
#[derive(Debug, Clone, Copy, PartialEq, Eq, Structural)]
pub struct Report {
    pub total: u64,
    pub done: u64,
    pub late: u64,
    pub done_percent: u64,
    pub late_percent: u64,
}

/// Whole percentage of `part` in `whole`, zero for an empty whole.
fn percent_of(part: u64, whole: u64) -> (r: u64)
    requires
        part <= whole,
    ensures
        r == percent(part as nat, whole as nat),
{
    if whole == 0 {
        0
    } else {
        let scaled: u128 = (part as u128) * 100;
        let r: u128 = scaled / (whole as u128);
        assert(r <= 100) by (nonlinear_arith)
            requires
                r as int == (part as int * 100) / (whole as int),
                part <= whole,
                whole > 0,
        ;
        r as u64
    }
}

/// The glyphs a listing marks tasks with.
pub struct Signs {
    pub warning: String,
    pub done: String,
    pub not_done: String,
}

/// The character of the decimal digit `d`.
pub open spec fn digit_char(d: nat) -> char {
    if d == 0 {
        '0'
    } else if d == 1 {
        '1'
    } else if d == 2 {
        '2'
    } else if d == 3 {
        '3'
    } else if d == 4 {
        '4'
    } else if d == 5 {
        '5'
    } else if d == 6 {
        '6'
    } else if d == 7 {
        '7'
    } else if d == 8 {
        '8'
    } else {
        '9'
    }
}

/// `n` written in decimal, without leading zeros.
pub open spec fn decimal(n: nat) -> Seq<char>
    decreases n,
{
    if n < 10 {
        seq![digit_char(n)]
    } else {
        decimal(n / 10) + seq![digit_char(n % 10)]
    }
}

/// The line that lists `t` at 1-based `position`: its completion glyph,
/// the warning glyph when it is late, its position, its name, and its due
/// date in parentheses when it has one.
pub open spec fn task_line(t: TaskView, position: nat, signs: (Seq<char>, Seq<char>, Seq<char>), now: DateTime) -> Seq<char> {
    let (warning, done, not_done) = signs;
    (if t.done {
        done
    } else {
        not_done
    }) + (if late_at(t.date, now) {
        seq![' '] + warning
    } else {
        Seq::<char>::empty()
    }) + seq![' '] + decimal(position) + seq!['.', ' '] + t.name + (if t.date.len() > 0 {
        seq![' ', '('] + t.date + seq![')']
    } else {
        Seq::<char>::empty()
    })
}

impl Signs {
    /// The three glyphs, warning first.
    pub open spec fn spec_glyphs(&self) -> (Seq<char>, Seq<char>, Seq<char>) {
        (self.warning@, self.done@, self.not_done@)
    }
}

fn digit_str(d: u64) -> (r: &'static str)
    requires
        d < 10,
    ensures
        r@ == seq![digit_char(d as nat)],
{
    proof {
        reveal_strlit("0");
        reveal_strlit("1");
        reveal_strlit("2");
        reveal_strlit("3");
        reveal_strlit("4");
        reveal_strlit("5");
        reveal_strlit("6");
        reveal_strlit("7");
        reveal_strlit("8");
        reveal_strlit("9");
    }
    let r = if d == 0 {
        "0"
    } else if d == 1 {
        "1"
    } else if d == 2 {
        "2"
    } else if d == 3 {
        "3"
    } else if d == 4 {
        "4"
    } else if d == 5 {
        "5"
    } else if d == 6 {
        "6"
    } else if d == 7 {
        "7"
    } else if d == 8 {
        "8"
    } else {
        "9"
    };
    assert(r@ =~= seq![digit_char(d as nat)]);
    r
}

/// Appends `n` in decimal to `out`.
fn push_decimal(out: &mut String, n: u64)
    ensures
        final(out)@ == old(out)@ + decimal(n as nat),
    decreases n,
{
    if n < 10 {
        out.append(digit_str(n));
    } else {
        push_decimal(out, n / 10);
        out.append(digit_str(n % 10));
        assert(final(out)@ =~= old(out)@ + decimal(n as nat));
    }
}

/// Renders the listing line of `t` at 1-based `position`.
pub fn render_task(t: &Task, position: u64, signs: &Signs, now: &DateTime) -> (r: String)
    ensures
        r@ == task_line(t@, position as nat, signs.spec_glyphs(), *now),
{
    proof {
        reveal_strlit(" ");
        reveal_strlit(". ");
        reveal_strlit(" (");
        reveal_strlit(")");
    }
    let mut out = if t.done {
        signs.done.clone()
    } else {
        signs.not_done.clone()
    };
    if is_late(t.date.as_str(), now) {
        out.append(" ");
        out.append(signs.warning.as_str());
    }
    out.append(" ");
    push_decimal(&mut out, position);
    out.append(". ");
    out.append(t.name.as_str());
    if t.date.unicode_len() > 0 {
        out.append(" (");
        out.append(t.date.as_str());
        out.append(")");
    }
    assert(out@ =~= task_line(t@, position as nat, signs.spec_glyphs(), *now));
    out
}

/// The report over `s` at local time `now`.
pub open spec fn report_of(s: Seq<TaskView>, now: DateTime) -> Report {
    Report {
        total: s.len() as u64,
        done: count_done(s) as u64,
        late: count_late(s, now) as u64,
        done_percent: percent(count_done(s), s.len()) as u64,
        late_percent: percent(count_late(s, now), (s.len() - count_done(s)) as nat) as u64,
    }
}

impl TaskList {
    /// One rendered line per task, in order, numbered from 1.
    pub fn list_lines(&self, signs: &Signs, now: &DateTime) -> (r: Vec<String>)
        ensures
            r@.len() == self@.len(),
            forall|i: int|
                0 <= i < r@.len() ==> #[trigger] r@[i]@ == task_line(
                    self@[i],
                    (i + 1) as nat,
                    signs.spec_glyphs(),
                    *now,
                ),
    {
        let n = self.len();
        let mut lines: Vec<String> = Vec::new();
        let mut i: usize = 0;
        while i < n
            invariant
                n == self@.len(),
                i <= n,
                lines@.len() == i,
                forall|i: int|
                    0 <= i < lines@.len() ==> #[trigger] lines@[i]@ == task_line(
                        self@[i],
                        (i + 1) as nat,
                        signs.spec_glyphs(),
                        *now,
                    ),
            decreases n - i,
        {
            let t = self.get(i + 1).unwrap();
            lines.push(render_task(t, (i + 1) as u64, signs, now));
            i = i + 1;
        }
        lines
    }

    /// Counts the tasks, those done, and those not done that are late at
    /// local time `now`, with their percentages (zero over no tasks).
    pub fn report(&self, now: &DateTime) -> (r: Report)
        ensures
            r == report_of(self@, *now),
    {
        let n = self.len();
        let mut done: u64 = 0;
        let mut late: u64 = 0;
        let mut i: usize = 0;
        while i < n
            invariant
                n == self@.len(),
                i <= n,
                done == count_done(self@.subrange(0, i as int)),
                late == count_late(self@.subrange(0, i as int), *now),
            decreases n - i,
        {
            proof {
                lemma_counts_bounded(self@.subrange(0, i as int), *now);
                assert(self@.subrange(0, i + 1).drop_last() =~= self@.subrange(0, i as int));
            }
            let t = self.get(i + 1).unwrap();
            if t.done {
                done = done + 1;
            } else if is_late(t.date.as_str(), now) {
                late = late + 1;
            }
            i = i + 1;
        }
        proof {
            assert(self@.subrange(0, n as int) =~= self@);
            lemma_counts_bounded(self@, *now);
        }
        let total = n as u64;
        Report {
            total: total,
            done: done,
            late: late,
            done_percent: percent_of(done, total),
            late_percent: percent_of(late, total - done),
        }
    }
}

/// Over no tasks the report is all zeros: no ratio divides by zero.
pub proof fn lemma_empty_report(now: DateTime)
    ensures
        report_of(Seq::<TaskView>::empty(), now) == (Report {
            total: 0,
            done: 0,
            late: 0,
            done_percent: 0,
            late_percent: 0,
        }),
{
    assert(count_done(Seq::<TaskView>::empty()) == 0);
    assert(count_late(Seq::<TaskView>::empty(), now) == 0);
}

} // verus!
