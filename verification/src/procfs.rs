//! Reading the process information that Linux exposes under `/proc` and in
//! cgroup files: the text is read elsewhere, and parsed here.

use vstd::prelude::*;
use crate::text::{
    chars_of, fields, has_prefix, lines, parse_u32, parse_u64, spec_fields, spec_lines,
    spec_parse_unsigned, spec_trim, starts_with, string_of, trim,
};

verus! {

/// The first of `lines` that starts with `prefix`.
pub open spec fn first_with_prefix(lines: Seq<Seq<char>>, prefix: Seq<char>) -> Option<Seq<char>>
    decreases lines.len(),
{
    if lines.len() == 0 {
        None
    } else if has_prefix(lines[0], prefix) {
        Some(lines[0])
    } else {
        first_with_prefix(lines.drop_first(), prefix)
    }
}

/// The first of `lines` that starts with `prefix`.
fn find_line(lines: &Vec<Vec<char>>, prefix: &Vec<char>) -> (r: Option<Vec<char>>)
    ensures
        match r {
            Some(l) => first_with_prefix(lines@.map_values(|l: Vec<char>| l@), prefix@) == Some(l@),
            None => first_with_prefix(lines@.map_values(|l: Vec<char>| l@), prefix@) is None,
        },
{
    let ghost all = lines@.map_values(|l: Vec<char>| l@);
    let mut i: usize = 0;
    assert(all.skip(0) == all);
    while i < lines.len()
        invariant
            i <= lines.len(),
            all == lines@.map_values(|l: Vec<char>| l@),
            first_with_prefix(all, prefix@) == first_with_prefix(all.skip(i as int), prefix@),
        decreases lines.len() - i,
    {
        assert(all.skip(i as int)[0] == lines@[i as int]@);
        assert(all.skip(i as int).drop_first() == all.skip(i + 1));
        if starts_with(&lines[i], prefix) {
            return Some(lines[i].clone());
        }
        i = i + 1;
    }
    None
}

/// The second whitespace-separated field of `line`, if any.
pub open spec fn second_field(line: Seq<char>) -> Option<Seq<char>> {
    if spec_fields(line).len() >= 2 {
        Some(spec_fields(line)[1])
    } else {
        None
    }
}

fn field_at_1(line: &Vec<char>) -> (r: Option<Vec<char>>)
    ensures
        match r {
            Some(f) => second_field(line@) == Some(f@),
            None => second_field(line@) is None,
        },
{
    let f = fields(line);
    if f.len() >= 2 {
        assert(f@.map_values(|l: Vec<char>| l@)[1] == f@[1]@);
        Some(f[1].clone())
    } else {
        None
    }
}

/// The peak virtual memory in bytes that a `/proc/<pid>/status` text reports:
/// the number of kibibytes on its first `VmPeak:` line, times 1024
/// (saturating). `None` when that line is missing or malformed.
pub open spec fn spec_peak_memory(status: Seq<char>) -> Option<u64> {
    match first_with_prefix(spec_lines(status), "VmPeak:"@) {
        None => None,
        Some(line) => match second_field(line) {
            None => None,
            Some(f) => match spec_parse_unsigned(f, u64::MAX as nat) {
                None => None,
                Some(kb) => Some(if kb * 1024 > u64::MAX { u64::MAX } else { (kb * 1024) as u64 }),
            },
        },
    }
}

/// The peak virtual memory of a process, in bytes, from the text of its
/// `/proc/<pid>/status` file.
pub fn peak_memory_bytes_for_process(status: &str) -> (r: Option<u64>)
    ensures
        r == spec_peak_memory(status@),
{
    let text = chars_of(status);
    let ls = lines(&text);
    let prefix = chars_of("VmPeak:");
    let line = match find_line(&ls, &prefix) {
        None => return None,
        Some(l) => l,
    };
    let f = match field_at_1(&line) {
        None => return None,
        Some(f) => f,
    };
    match parse_u64(&f) {
        None => None,
        Some(kb) => {
            if kb > u64::MAX / 1024 {
                Some(u64::MAX)
            } else {
                Some(kb * 1024)
            }
        },
    }
}

/// The number of threads that a `/proc/<pid>/status` text reports when the
/// process belongs to the real user `uid`, and 0 otherwise. The real user is
/// the second field of the first `Uid:` line (a value that does not parse
/// counts as `u32::MAX`); the count is the second field of the first
/// `Threads:` line (0 when missing or malformed).
pub open spec fn spec_threads_of_uid(status: Seq<char>, uid: u32) -> u64 {
    let ls = spec_lines(status);
    let uid_ok = match first_with_prefix(ls, "Uid:"@) {
        None => false,
        Some(line) => {
            let owner = match second_field(line) {
                None => u32::MAX as nat,
                Some(f) => match spec_parse_unsigned(f, u32::MAX as nat) {
                    None => u32::MAX as nat,
                    Some(n) => n,
                },
            };
            owner == uid
        },
    };
    if !uid_ok {
        0
    } else {
        match first_with_prefix(ls, "Threads:"@) {
            None => 0,
            Some(line) => match second_field(line) {
                None => 0,
                Some(f) => match spec_parse_unsigned(f, u64::MAX as nat) {
                    None => 0,
                    Some(n) => n as u64,
                },
            },
        }
    }
}

/// The threads of a process that count against the `RLIMIT_NPROC` of `uid`,
/// from the text of its `/proc/<pid>/status` file.
pub fn threads_of_uid(status: &str, uid: u32) -> (r: u64)
    ensures
        r == spec_threads_of_uid(status@, uid),
{
    let text = chars_of(status);
    let ls = lines(&text);
    let uid_prefix = chars_of("Uid:");
    let uid_ok = match find_line(&ls, &uid_prefix) {
        None => false,
        Some(line) => {
            let owner: u32 = match field_at_1(&line) {
                None => u32::MAX,
                Some(f) => match parse_u32(&f) {
                    None => u32::MAX,
                    Some(n) => n,
                },
            };
            owner == uid
        },
    };
    if !uid_ok {
        return 0;
    }
    let threads_prefix = chars_of("Threads:");
    match find_line(&ls, &threads_prefix) {
        None => 0,
        Some(line) => match field_at_1(&line) {
            None => 0,
            Some(f) => match parse_u64(&f) {
                None => 0,
                Some(n) => n,
            },
        },
    }
}

/// A number written alone in a file, with surrounding whitespace, as in the
/// cgroup `memory.peak` file.
pub open spec fn spec_single_number(content: Seq<char>) -> Option<u64> {
    match spec_parse_unsigned(spec_trim(content), u64::MAX as nat) {
        None => None,
        Some(n) => Some(n as u64),
    }
}

/// Reads the number held by a cgroup file such as `memory.peak`.
pub fn parse_single_number(content: &str) -> (r: Option<u64>)
    ensures
        r == spec_single_number(content@),
{
    let text = chars_of(content);
    let t = trim(&text);
    parse_u64(&t)
}

/// The position of the last `)` of `s`.
pub open spec fn last_close_paren(s: Seq<char>) -> Option<int>
    decreases s.len(),
{
    if s.len() == 0 {
        None
    } else if s.last() == ')' {
        Some(s.len() - 1)
    } else {
        last_close_paren(s.drop_last())
    }
}

/// The user and system CPU times of a `/proc/<pid>/stat` text, in clock
/// ticks, as written. The command name in the second field is enclosed in
/// parentheses and may itself hold `)` and spaces (a process chooses its
/// name), so the fields are counted after the last `)`: the
/// whitespace-separated fields numbered 11 and 12 from 0 there, when there
/// are at least 15 of them.
pub open spec fn spec_stat_cpu_fields(stat: Seq<char>) -> Option<(Seq<char>, Seq<char>)> {
    match last_close_paren(stat) {
        None => None,
        Some(i) => {
            let parts = spec_fields(stat.skip(i + 1));
            if parts.len() < 15 {
                None
            } else {
                Some((parts[11], parts[12]))
            }
        },
    }
}

proof fn lemma_last_close_paren_bounds(s: Seq<char>)
    ensures
        last_close_paren(s) matches Some(i) ==> 0 <= i < s.len() && s[i] == ')',
        last_close_paren(s) is None ==> forall|j: int| 0 <= j < s.len() ==> s[j] != ')',
    decreases s.len(),
{
    if s.len() > 0 && s.last() != ')' {
        lemma_last_close_paren_bounds(s.drop_last());
        if last_close_paren(s) is None {
            assert forall|j: int| 0 <= j < s.len() implies s[j] != ')' by {
                if j < s.len() - 1 {
                    assert(s.drop_last()[j] == s[j]);
                }
            }
        }
    }
}

proof fn lemma_last_close_paren_append(s: Seq<char>, t: Seq<char>)
    requires
        forall|j: int| 0 <= j < t.len() ==> t[j] != ')',
    ensures
        last_close_paren(s + t) == last_close_paren(s),
    decreases t.len(),
{
    if t.len() > 0 {
        assert((s + t).last() == t.last());
        assert((s + t).drop_last() =~= s + t.drop_last());
        lemma_last_close_paren_append(s, t.drop_last());
    } else {
        assert(s + t =~= s);
    }
}

/// Whatever a process names itself, the CPU times read from its stat line
/// are those of the fields after the `)` that closes the name: for a line
/// made of any `head` (the pid and the name, which may hold `)` and spaces),
/// a `)`, and a `tail` without `)`, the result depends on `tail` alone.
pub proof fn lemma_stat_name_cannot_shift_fields(head: Seq<char>, tail: Seq<char>)
    requires
        forall|j: int| 0 <= j < tail.len() ==> tail[j] != ')',
    ensures
        spec_stat_cpu_fields(head + seq![')'] + tail) == (if spec_fields(tail).len() < 15 {
            None
        } else {
            Some((spec_fields(tail)[11], spec_fields(tail)[12]))
        }),
{
    let closed = head + seq![')'];
    lemma_last_close_paren_append(closed, tail);
    assert(closed.drop_last() =~= head);
    assert(last_close_paren(closed) == Some(head.len() as int));
    assert((closed + tail).skip(head.len() + 1int) =~= tail);
}

/// The position of the last `)` of `v`.
fn find_last_close_paren(v: &Vec<char>) -> (r: Option<usize>)
    ensures
        match r {
            Some(i) => last_close_paren(v@) == Some(i as int),
            None => last_close_paren(v@) is None,
        },
{
    let mut n: usize = v.len();
    assert(v@.take(n as int) =~= v@);
    while n > 0
        invariant
            n <= v.len(),
            last_close_paren(v@) == last_close_paren(v@.take(n as int)),
        decreases n,
    {
        assert(v@.take(n as int).last() == v@[n - 1]);
        assert(v@.take(n as int).drop_last() == v@.take(n - 1));
        if v[n - 1] == ')' {
            return Some(n - 1);
        }
        n = n - 1;
    }
    None
}

fn skip_chars(v: &Vec<char>, n: usize) -> (r: Vec<char>)
    requires
        n <= v.len(),
    ensures
        r@ == v@.skip(n as int),
{
    let mut r: Vec<char> = Vec::new();
    let mut i: usize = n;
    while i < v.len()
        invariant
            n <= i <= v.len(),
            r@ == v@.subrange(n as int, i as int),
        decreases v.len() - i,
    {
        r.push(v[i]);
        i = i + 1;
        assert(r@ == v@.subrange(n as int, i as int));
    }
    r
}

/// The texts of the user and system CPU times of a process, from its
/// `/proc/<pid>/stat` file; the caller turns them into seconds.
pub fn stat_cpu_fields(stat: &str) -> (r: Option<(String, String)>)
    ensures
        match r {
            Some((u, s)) => spec_stat_cpu_fields(stat@) == Some((u@, s@)),
            None => spec_stat_cpu_fields(stat@) is None,
        },
{
    let text = chars_of(stat);
    let i = match find_last_close_paren(&text) {
        None => return None,
        Some(i) => i,
    };
    proof {
        lemma_last_close_paren_bounds(text@);
    }
    let rest = skip_chars(&text, i + 1);
    let parts = fields(&rest);
    if parts.len() < 15 {
        return None;
    }
    let ghost views = parts@.map_values(|l: Vec<char>| l@);
    assert(views[11] == parts@[11]@);
    assert(views[12] == parts@[12]@);
    Some((string_of(&parts[11]), string_of(&parts[12])))
}

} // verus!
