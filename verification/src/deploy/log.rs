//! Installation logs: where they are, what an entry looks like, and how a
//! log is read back.
use crate::text::{
    chars_of, contains, contains_chars, decimal, decimal_string, eq_chars, join, join_chars, lacks,
    lines, lines_chars, split_char, split_char_chars, string_from_chars, trim, trim_chars, views,
};
use vstd::prelude::*;

verus! {

/// The `i`-th installation log of a site directory.
pub open spec fn log_path_of(dir: Seq<char>, i: nat) -> Seq<char> {
    dir + "/install.log-"@ + decimal(i)
}

/// The path of the `i`-th installation log of a site directory.
pub fn log_file_path(dir: &str, i: u32) -> (r: String)
    ensures
        r@ == log_path_of(dir@, i as nat),
{
    let mut s = String::from_str(dir);
    s.append("/install.log-");
    let n = decimal_string(i as u64);
    s.append(n.as_str());
    s
}

/// One step of the search for a log file, over the indices 0, 1, ...
pub enum LogSearch {
    /// Look at the next index.
    Next(u32),
    /// The log at the current index is the one.
    Found,
    /// There is no log to read.
    NotFound,
}

/// Decides the search for a log file at index `i`, given whether that
/// file exists: to write, the first index without a file is taken; to
/// read, the first index is taken when its file exists.
pub fn log_search_step(i: u32, exists: bool, write: bool) -> (r: LogSearch)
    requires
        i < u32::MAX,
    ensures
        exists && write ==> r == LogSearch::Next((i + 1) as u32),
        exists && !write ==> r is Found,
        !exists && write ==> r is Found,
        !exists && !write ==> r is NotFound,
{
    if exists {
        if write {
            LogSearch::Next(i + 1)
        } else {
            LogSearch::Found
        }
    } else {
        if write {
            LogSearch::Found
        } else {
            LogSearch::NotFound
        }
    }
}

/// The text of a log entry: time and action on a line; an entry that
/// finishes the log adds a `===` line and `Ok` or `Error`.
pub open spec fn log_entry_text(timestamp: Seq<char>, action: Seq<char>, finished: bool, error: bool) -> Seq<char> {
    if finished {
        if error {
            timestamp + "\t"@ + action + "\n===\nError"@
        } else {
            timestamp + "\t"@ + action + "\n===\nOk"@
        }
    } else {
        timestamp + "\t"@ + action + "\n"@
    }
}

/// The text of a log entry (see `log_entry_text`).
pub fn log_entry(timestamp: &str, action: &str, finished: bool, error: bool) -> (r: String)
    ensures
        r@ == log_entry_text(timestamp@, action@, finished, error),
{
    let mut s = String::from_str(timestamp);
    s.append("\t");
    s.append(action);
    if finished {
        if error {
            s.append("\n===\nError");
        } else {
            s.append("\n===\nOk");
        }
    } else {
        s.append("\n");
    }
    s
}

/// A time stamp as `chrono::Local::now()` writes it: not empty, without a
/// line feed, and starting with a digit of the year or the sign of a year
/// outside `0..=9999`.
pub open spec fn time_stamp_text(ts: Seq<char>) -> bool {
    &&& ts.len() > 0
    &&& (48 <= ts[0] as int <= 57 || ts[0] == '+' || ts[0] == '-')
    &&& lacks(ts, '\n')
}

/// `chrono::Local::now()` written with `Display`: the local date, time and
/// offset (`YYYY-MM-DD HH:MM:SS.f +HH:MM`; a year outside `0..=9999` is
/// written with its sign). The text depends on the clock; whatever it
/// reads, the text starts with a digit or a sign and holds no line feed.
#[verifier::external_body]
fn local_time_text() -> (r: String)
    ensures
        time_stamp_text(r@),
{
    chrono::Local::now().to_string()
}

/// A log entry stamped with the current local time (see `log_entry`).
pub fn timed_log_entry(action: &str, finished: bool, error: bool) -> (r: String)
    ensures
        exists|ts: Seq<char>| #[trigger] time_stamp_text(ts) && r@ == log_entry_text(ts, action@, finished, error),
{
    let ts = local_time_text();
    let r = log_entry(ts.as_str(), action, finished, error);
    assert(time_stamp_text(ts@) && r@ == log_entry_text(ts@, action@, finished, error));
    r
}

/// The pieces of a path that do not contain `.log`.
pub open spec fn non_log_parts(ps: Seq<Seq<char>>) -> Seq<Seq<char>>
    decreases ps.len(),
{
    if ps.len() == 0 {
        Seq::empty()
    } else if contains(ps.last(), ".log"@) {
        non_log_parts(ps.drop_last())
    } else {
        non_log_parts(ps.drop_last()).push(ps.last())
    }
}

/// The directory of a log file: the path without its `/`-separated pieces
/// that contain `.log`.
pub open spec fn log_dir_of(path: Seq<char>) -> Seq<char> {
    join(non_log_parts(split_char(path, '/')), "/"@)
}

/// The directory to create for a log file (see `log_dir_of`).
pub fn log_dir(path: &str) -> (r: String)
    ensures
        r@ == log_dir_of(path@),
{
    let cs = chars_of(path);
    let parts = split_char_chars(cs.as_slice(), '/');
    let pat = chars_of(".log");
    let mut kept: Vec<Vec<char>> = Vec::new();
    let mut i: usize = 0;
    let ghost ps = views(parts@);
    assert(ps.take(0) =~= Seq::<Seq<char>>::empty());
    while i < parts.len()
        invariant
            0 <= i <= parts@.len(),
            ps == views(parts@),
            ps.len() == parts@.len(),
            pat@ == ".log"@,
            views(kept@) == non_log_parts(ps.take(i as int)),
        decreases parts.len() - i,
    {
        let ghost t = ps.take(i + 1);
        assert(t.drop_last() =~= ps.take(i as int));
        assert(t.last() == parts@[i as int]@);
        if !contains_chars(parts[i].as_slice(), pat.as_slice()) {
            let ghost prev = views(kept@);
            let mut copy: Vec<char> = Vec::new();
            crate::text::push_all(&mut copy, parts[i].as_slice());
            kept.push(copy);
            assert(views(kept@) =~= prev.push(parts@[i as int]@));
        }
        i = i + 1;
    }
    assert(ps.take(i as int) =~= ps);
    let slash = chars_of("/");
    let j = join_chars(&kept, slash.as_slice());
    string_from_chars(j.as_slice())
}

/// The index of the first element equal to `x`, or the length.
pub open spec fn first_index_of(ls: Seq<Seq<char>>, x: Seq<char>) -> int
    decreases ls.len(),
{
    if ls.len() == 0 {
        0
    } else if ls[0] == x {
        0
    } else {
        1 + first_index_of(ls.drop_first(), x)
    }
}

/// The lines of a log that are not markers (`===`, `Ok`, `Err`).
pub open spec fn message_lines(ls: Seq<Seq<char>>) -> Seq<Seq<char>>
    decreases ls.len(),
{
    if ls.len() == 0 {
        Seq::empty()
    } else {
        let l = ls.last();
        if l == "==="@ || l == "Ok"@ || l == "Err"@ {
            message_lines(ls.drop_last())
        } else {
            message_lines(ls.drop_last()).push(l)
        }
    }
}

/// A log can be read: when it has a `===` line, a line follows it.
pub open spec fn log_readable(content: Option<Seq<char>>) -> bool {
    match content {
        Some(d) => {
            let ls = lines(trim(d));
            d.len() == 0 || first_index_of(ls, "==="@) >= ls.len() || first_index_of(ls, "==="@) < ls.len() - 1
        },
        None => true,
    }
}

/// The state of a log, as (finished, failed, text): no log counts as a
/// failed one; an empty log is starting; a log is finished when it has a
/// `===` line and failed when its last line is not `Ok`; the text is the
/// log without its marker lines.
pub open spec fn log_status(content: Option<Seq<char>>) -> (bool, bool, Seq<char>) {
    match content {
        None => (true, true, "Not Found!"@),
        Some(d) => if d.len() == 0 {
            (false, false, "Starting Up!"@)
        } else {
            let ls = lines(trim(d));
            let finished = first_index_of(ls, "==="@) < ls.len();
            (
                finished,
                finished && ls.last() != "Ok"@,
                join(message_lines(lines(d)), "\n"@),
            )
        },
    }
}

/// Whether a log can be read (see `log_readable`).
pub fn log_is_readable(content: &Option<String>) -> (b: bool)
    ensures
        b == log_readable(content.deep_view()),
{
    let data = match content {
        None => {
            return true;
        },
        Some(d) => d,
    };
    let cs = chars_of(data.as_str());
    if cs.len() == 0 {
        return true;
    }
    let t = trim_chars(cs.as_slice());
    let ls = lines_chars(t.as_slice());
    let ghost lsv = lines(trim(data@));
    let marker = chars_of("===");
    let mut k: usize = 0;
    assert(lsv =~= views(ls@));
    assert(lsv.skip(0) =~= lsv);
    while k < ls.len() && !eq_chars(ls[k].as_slice(), marker.as_slice())
        invariant
            0 <= k <= ls@.len(),
            lsv == views(ls@),
            marker@ == "==="@,
            first_index_of(lsv, "==="@) == k + first_index_of(lsv.skip(k as int), "==="@),
        decreases ls.len() - k,
    {
        let ghost rest = lsv.skip(k as int);
        assert(rest[0] == ls@[k as int]@);
        assert(rest.drop_first() =~= lsv.skip(k + 1));
        k = k + 1;
    }
    proof {
        let rest = lsv.skip(k as int);
        if k < ls.len() {
            assert(rest[0] == ls@[k as int]@);
        } else {
            assert(rest.len() == 0);
        }
    }
    k >= ls.len() || k + 1 < ls.len()
}

/// Reads the state of a site's latest log, given its content (`None` when
/// the site has no log); see `log_status`.
pub fn read_log(content: Option<String>) -> (r: (bool, bool, String))
    requires
        log_readable(content.deep_view()),
    ensures
        (r.0, r.1, r.2@) == log_status(content.deep_view()),
{
    let data = match content {
        None => {
            return (true, true, String::from_str("Not Found!"));
        },
        Some(d) => d,
    };
    let cs = chars_of(data.as_str());
    if cs.len() == 0 {
        return (false, false, String::from_str("Starting Up!"));
    }
    let t = trim_chars(cs.as_slice());
    let ls = lines_chars(t.as_slice());
    let ghost lsv = lines(trim(data@));
    let marker = chars_of("===");
    let ok = chars_of("Ok");
    let err = chars_of("Err");
    let mut k: usize = 0;
    assert(lsv =~= views(ls@));
    assert(lsv.skip(0) =~= lsv);
    while k < ls.len() && !eq_chars(ls[k].as_slice(), marker.as_slice())
        invariant
            0 <= k <= ls@.len(),
            lsv == views(ls@),
            marker@ == "==="@,
            first_index_of(lsv, "==="@) == k + first_index_of(lsv.skip(k as int), "==="@),
        decreases ls.len() - k,
    {
        let ghost rest = lsv.skip(k as int);
        assert(rest[0] == ls@[k as int]@);
        assert(rest.drop_first() =~= lsv.skip(k + 1));
        k = k + 1;
    }
    proof {
        let rest = lsv.skip(k as int);
        if k < ls.len() {
            assert(rest[0] == ls@[k as int]@);
        } else {
            assert(rest.len() == 0);
        }
    }
    let finished = k < ls.len();
    let error = if finished {
        let n = ls.len();
        assert(lsv.last() == ls@[n - 1]@);
        !eq_chars(ls[n - 1].as_slice(), ok.as_slice())
    } else {
        false
    };
    let all = lines_chars(cs.as_slice());
    let ghost alv = views(all@);
    let mut kept: Vec<Vec<char>> = Vec::new();
    let mut i: usize = 0;
    assert(alv.take(0) =~= Seq::<Seq<char>>::empty());
    while i < all.len()
        invariant
            0 <= i <= all@.len(),
            alv == views(all@),
            alv == lines(data@),
            marker@ == "==="@,
            ok@ == "Ok"@,
            err@ == "Err"@,
            views(kept@) == message_lines(alv.take(i as int)),
        decreases all.len() - i,
    {
        let ghost tk = alv.take(i + 1);
        assert(tk.drop_last() =~= alv.take(i as int));
        assert(tk.last() == all@[i as int]@);
        let line = all[i].as_slice();
        if !(eq_chars(line, marker.as_slice()) || eq_chars(line, ok.as_slice()) || eq_chars(
            line,
            err.as_slice(),
        )) {
            let ghost prev = views(kept@);
            let mut copy: Vec<char> = Vec::new();
            crate::text::push_all(&mut copy, line);
            kept.push(copy);
            assert(views(kept@) =~= prev.push(all@[i as int]@));
        }
        i = i + 1;
    }
    assert(alv.take(i as int) =~= alv);
    let nl = chars_of("\n");
    let msg = join_chars(&kept, nl.as_slice());
    (finished, error, string_from_chars(msg.as_slice()))
}

} // verus!
