use vstd::prelude::*;
use crate::command::{lemma_split_at_space, split_at_space};
use crate::text::is_digit;

verus! {

/// `s` without its leading spaces.
pub open spec fn skip_spaces(s: Seq<char>) -> Seq<char>
    decreases s.len(),
{
    if s.len() > 0 && s[0] == ' ' {
        skip_spaces(s.drop_first())
    } else {
        s
    }
}

/// The first space-separated field of a listing line.
pub open spec fn first_field(line: Seq<char>) -> Seq<char> {
    split_at_space(skip_spaces(line)).0
}

pub open spec fn digit_value(c: char) -> nat {
    (c as int - '0' as int) as nat
}

pub open spec fn all_digits(s: Seq<char>) -> bool {
    s.len() > 0 && forall|i: int| 0 <= i < s.len() ==> is_digit(#[trigger] s[i])
}

/// The number that a string of decimal digits denotes.
pub open spec fn digits_value(s: Seq<char>) -> nat
    decreases s.len(),
{
    if s.len() == 0 {
        0
    } else {
        digits_value(s.drop_last()) * 10 + digit_value(s.last())
    }
}

/// Whether `needle` occurs in `hay`.
pub open spec fn contains(hay: Seq<char>, needle: Seq<char>) -> bool {
    exists|i: int|
        0 <= i && i + needle.len() <= hay.len() && #[trigger] hay.subrange(i, i + needle.len())
            == needle
}

/// Whether `line` contains every one of `filters`.
pub open spec fn matches_all(line: Seq<char>, filters: Seq<String>) -> bool {
    forall|k: int| 0 <= k < filters.len() ==> contains(line, #[trigger] filters[k]@)
}

/// One running process: its id and the line that lists it.
pub struct ProcessEntry {
    pub pid: u32,
    pub command_line: String,
}

impl ProcessEntry {
    /// Reads one line of a process listing whose first field is the process
    /// id (`ps ax`). Lines whose first field is not a process id, such as the
    /// header, give `None`.
    pub fn parse(line: &str) -> (r: Option<ProcessEntry>)
        ensures
            r is Some <==> all_digits(first_field(line@)) && digits_value(first_field(line@))
                <= u32::MAX,
            r matches Some(e) ==> e.pid == digits_value(first_field(line@)) && e.command_line@
                == line@,
    {
        let n = line.unicode_len();
        let mut i: usize = 0;
        assert(line@.subrange(0, n as int) =~= line@);
        while i < n && line.get_char(i) == ' '
            invariant
                n == line@.len(),
                i <= n,
                skip_spaces(line@.subrange(i as int, n as int)) == skip_spaces(line@),
            decreases n - i,
        {
            assert(line@.subrange(i as int, n as int).drop_first() =~= line@.subrange(
                i + 1,
                n as int,
            ));
            i = i + 1;
        }
        let ghost rest = line@.subrange(i as int, n as int);
        assert(skip_spaces(rest) == rest);
        let mut j: usize = i;
        let mut value: u64 = 0;
        while j < n && line.get_char(j) != ' '
            invariant
                n == line@.len(),
                i <= j <= n,
                skip_spaces(line@) == line@.subrange(i as int, n as int),
                value <= u32::MAX,
                forall|k: int| i <= k < j ==> line@[k] != ' ',
                all_digits(line@.subrange(i as int, j as int)) || i == j,
                value == digits_value(line@.subrange(i as int, j as int)),
            decreases n - j,
        {
            let c = line.get_char(j);
            proof {
                lemma_field(line@, i as int);
                assert(line@[j as int] != ' ');
                let ns = next_space(line@, i as int);
                if ns <= j {
                    assert(line@[ns] == ' ');
                    assert(false);
                }
            }
            assert(line@.subrange(i as int, j + 1).drop_last() =~= line@.subrange(
                i as int,
                j as int,
            ));
            if c < '0' || c > '9' {
                proof {
                    lemma_field(line@, i as int);
                    assert(!is_digit(first_field(line@)[j - i]));
                }
                return None;
            }
            value = value * 10 + (c as u64 - '0' as u64);
            if value > u32::MAX as u64 {
                proof {
                    lemma_field(line@, i as int);
                    let e = next_space(line@, i as int);
                    lemma_digits_value_grows(line@.subrange(i as int, e), j + 1 - i);
                    assert(line@.subrange(i as int, e).subrange(0, j + 1 - i) =~= line@.subrange(
                        i as int,
                        j + 1,
                    ));
                }
                return None;
            }
            j = j + 1;
        }
        proof {
            lemma_field(line@, i as int);
            let ns = next_space(line@, i as int);
            if ns < j {
                assert(line@[ns] == ' ');
                assert(false);
            }
            if ns > j {
                assert(line@[j as int] != ' ');
                assert(false);
            }
        }
        if j == i {
            return None;
        }
        Some(ProcessEntry { pid: value as u32, command_line: String::from_str(line) })
    }
}

/// The characters of `s`, one by one.
fn chars_of(s: &str) -> (r: Vec<char>)
    ensures
        r@ == s@,
{
    let n = s.unicode_len();
    let mut r: Vec<char> = Vec::new();
    let mut i: usize = 0;
    while i < n
        invariant
            n == s@.len(),
            i <= n,
            r@ == s@.subrange(0, i as int),
        decreases n - i,
    {
        r.push(s.get_char(i));
        i = i + 1;
        assert(r@ =~= s@.subrange(0, i as int));
    }
    assert(s@.subrange(0, n as int) =~= s@);
    r
}

/// Whether `needle` occurs in `hay`.
fn contains_chars(hay: &Vec<char>, needle: &Vec<char>) -> (r: bool)
    ensures
        r == contains(hay@, needle@),
{
    let h = hay.len();
    let n = needle.len();
    if n > h {
        return false;
    }
    let mut i: usize = 0;
    while i <= h - n
        invariant
            n <= h,
            h == hay@.len(),
            n == needle@.len(),
            forall|k: int| 0 <= k < i ==> #[trigger] hay@.subrange(k, k + n) != needle@,
        decreases h - n + 1 - i,
    {
        let mut j: usize = 0;
        while j < n && hay[i + j] == needle[j]
            invariant
                n <= h,
                i + n <= h,
                h == hay@.len(),
                n == needle@.len(),
                j <= n,
                forall|m: int| 0 <= m < j ==> hay@[i + m] == needle@[m],
            decreases n - j,
        {
            j = j + 1;
        }
        if j == n {
            assert(hay@.subrange(i as int, i + n) =~= needle@);
            return true;
        }
        assert(hay@.subrange(i as int, i + n)[j as int] != needle@[j as int]);
        i = i + 1;
    }
    assert forall|k: int| 0 <= k && k + n <= h implies #[trigger] hay@.subrange(k, k + n)
        != needle@ by {
        assert(k < i);
    }
    false
}

/// Whether `line` contains every one of `filters`.
fn matches_every(line: &Vec<char>, filters: &Vec<Vec<char>>) -> (r: bool)
    ensures
        r == forall|k: int| 0 <= k < filters@.len() ==> contains(line@, #[trigger] filters@[k]@),
{
    let mut k: usize = 0;
    while k < filters.len()
        invariant
            k <= filters@.len(),
            forall|m: int| 0 <= m < k ==> contains(line@, #[trigger] filters@[m]@),
        decreases filters@.len() - k,
    {
        if !contains_chars(line, &filters[k]) {
            return false;
        }
        k = k + 1;
    }
    true
}

/// The process id of the first entry whose line contains every one of
/// `filters` (a case-sensitive substring test), or `None` when no entry does.
/// When several processes qualify, the first listed one is taken.
pub fn find_pid(processes: &Vec<ProcessEntry>, filters: &Vec<String>) -> (r: Option<u32>)
    ensures
        match r {
            Some(pid) => exists|i: int|
                0 <= i < processes@.len() && processes@[i].pid == pid && #[trigger] matches_all(
                    processes@[i].command_line@,
                    filters@,
                ) && forall|j: int|
                    0 <= j < i ==> !matches_all(#[trigger] processes@[j].command_line@, filters@),
            None => forall|i: int|
                0 <= i < processes@.len() ==> !matches_all(
                    #[trigger] processes@[i].command_line@,
                    filters@,
                ),
        },
{
    let mut wanted: Vec<Vec<char>> = Vec::new();
    let mut k: usize = 0;
    while k < filters.len()
        invariant
            k <= filters@.len(),
            wanted@.len() == k,
            forall|m: int| 0 <= m < k ==> #[trigger] wanted@[m]@ == filters@[m]@,
        decreases filters@.len() - k,
    {
        wanted.push(chars_of(filters[k].as_str()));
        k = k + 1;
    }
    let mut i: usize = 0;
    while i < processes.len()
        invariant
            i <= processes@.len(),
            wanted@.len() == filters@.len(),
            forall|m: int| 0 <= m < filters@.len() ==> #[trigger] wanted@[m]@ == filters@[m]@,
            forall|j: int|
                0 <= j < i ==> !matches_all(#[trigger] processes@[j].command_line@, filters@),
        decreases processes@.len() - i,
    {
        let line = chars_of(processes[i].command_line.as_str());
        let hit = matches_every(&line, &wanted);
        assert(hit == matches_all(processes@[i as int].command_line@, filters@)) by {
            if hit {
                assert forall|m: int| 0 <= m < filters@.len() implies contains(
                    processes@[i as int].command_line@,
                    #[trigger] filters@[m]@,
                ) by {
                    assert(contains(line@, wanted@[m]@));
                }
            } else {
                let m = choose|m: int|
                    0 <= m < wanted@.len() && !contains(line@, #[trigger] wanted@[m]@);
                assert(!contains(processes@[i as int].command_line@, filters@[m]@));
            }
        }
        if hit {
            return Some(processes[i].pid);
        }
        i = i + 1;
    }
    None
}

/// The first index from `from` on that holds a space, or the length of `s`.
spec fn next_space(s: Seq<char>, from: int) -> int
    decreases s.len() - from,
{
    if from < 0 || from >= s.len() {
        s.len() as int
    } else if s[from] == ' ' {
        from
    } else {
        next_space(s, from + 1)
    }
}

proof fn lemma_next_space(s: Seq<char>, from: int)
    requires
        0 <= from <= s.len(),
    ensures
        from <= next_space(s, from) <= s.len(),
        forall|m: int| from <= m < next_space(s, from) ==> s[m] != ' ',
        next_space(s, from) < s.len() ==> s[next_space(s, from)] == ' ',
    decreases s.len() - from,
{
    if from < s.len() && s[from] != ' ' {
        lemma_next_space(s, from + 1);
    }
}

/// The field that starts at `i` of `s`, as `split_at_space` cuts it.
proof fn lemma_field(s: Seq<char>, i: int)
    requires
        0 <= i <= s.len(),
    ensures
        i <= next_space(s, i) <= s.len(),
        forall|m: int| i <= m < next_space(s, i) ==> s[m] != ' ',
        next_space(s, i) < s.len() ==> s[next_space(s, i)] == ' ',
        split_at_space(s.subrange(i, s.len() as int)).0 == s.subrange(i, next_space(s, i)),
{
    lemma_next_space(s, i);
    let t = s.subrange(i, s.len() as int);
    let k = next_space(s, i) - i;
    assert forall|m: int| 0 <= m < k implies t[m] != ' ' by {
        assert(t[m] == s[i + m]);
    }
    lemma_split_at_space(t, k);
    assert(t.subrange(0, k) =~= s.subrange(i, next_space(s, i)));
}

/// A longer string of digits denotes at least as large a number as its prefix.
proof fn lemma_digits_value_grows(s: Seq<char>, k: int)
    requires
        0 <= k <= s.len(),
    ensures
        digits_value(s) >= digits_value(s.subrange(0, k)),
    decreases s.len(),
{
    if k < s.len() {
        assert(s.drop_last().subrange(0, k) =~= s.subrange(0, k));
        lemma_digits_value_grows(s.drop_last(), k);
    } else {
        assert(s.subrange(0, k) =~= s);
    }
}

} // verus!
