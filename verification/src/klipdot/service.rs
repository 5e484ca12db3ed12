//! The background service's bookkeeping: where its PID file and log live,
//! and how the PID file, the log, and the kernel's process records are read.
//! Starting, signalling and inspecting processes stands outside.

use vstd::prelude::*;

use crate::klipdot::error::Error;
use crate::klipdot::paths::{extension_of, file_name_of};
use crate::klipdot::{join, join_path, LOG_FILE, PID_FILE};
use crate::text::{
    chars_of, decimal, joined, join_strings, lines, lines_of, parse_u64, parsed_u64, push_chars,
    push_decimal, starts_with, str_starts_with, trim_chars, trimmed, words, words_of,
};

verus! {

/// What parsing text as a `u32` gives (after trimming white space, as the
/// PID file is read).
pub open spec fn parsed_pid(content: Seq<char>) -> Option<u32> {
    match parsed_u64(trimmed(content)) {
        Some(v) => if v <= u32::MAX {
            Some(v as u32)
        } else {
            None
        },
        None => None,
    }
}

/// The last `n` lines of `content`, joined by newlines.
pub open spec fn tail_text(content: Seq<char>, n: nat) -> Seq<char> {
    let ls = lines_of(content);
    let start = if ls.len() > n {
        ls.len() - n
    } else {
        0
    };
    joined(ls.skip(start), seq!['\n'])
}

/// The value of the first line starting with `prefix` whose second word
/// parses as a `u64`.
pub open spec fn first_field_value(ls: Seq<Seq<char>>, prefix: Seq<char>) -> Option<u64>
    decreases ls.len(),
{
    if ls.len() == 0 {
        None
    } else if starts_with(ls[0], prefix) && words_of(
        ls[0],
    ).len() >= 2 && parsed_u64(words_of(ls[0])[1]) is Some {
        parsed_u64(words_of(ls[0])[1])
    } else {
        first_field_value(ls.drop_first(), prefix)
    }
}

/// The first line starting with `prefix` that has at least two words.
pub open spec fn first_field_line(ls: Seq<Seq<char>>, prefix: Seq<char>) -> Option<Seq<char>>
    decreases ls.len(),
{
    if ls.len() == 0 {
        None
    } else if starts_with(ls[0], prefix) && words_of(
        ls[0],
    ).len() >= 2 {
        Some(words_of(ls[0])[1])
    } else {
        first_field_line(ls.drop_first(), prefix)
    }
}

/// The path a rotated log moves to: the log's extension replaced by
/// `log.old` (appended when it has none).
pub open spec fn rotated_path(log: Seq<char>) -> Seq<char> {
    match file_name_of(log) {
        None => log,
        Some(_) => match extension_of(log) {
            Some(e) => log.take(log.len() - e.len()) + "log.old"@,
            None => log + ".log.old"@,
        },
    }
}

/// The PID file and log of the background service.
#[derive(Debug, Clone)]
pub struct ServiceManager {
    pub pid_file: String,
    pub log_file: String,
}

impl ServiceManager {
    /// The service's files in klipdot's home directory `home_dir`.
    pub fn new(home_dir: &str) -> (m: Self)
        ensures
            m.pid_file@ == join_path(home_dir@, PID_FILE@),
            m.log_file@ == join_path(home_dir@, LOG_FILE@),
    {
        ServiceManager { pid_file: join(home_dir, PID_FILE), log_file: join(home_dir, LOG_FILE) }
    }

    /// The PID a PID file holds: its trimmed text as a `u32`; anything else
    /// is a `Service` error.
    pub fn parse_pid(content: &str) -> (r: Result<u32, Error>)
        ensures
            r is Ok <==> parsed_pid(content@) is Some,
            r matches Ok(p) ==> Some(p) == parsed_pid(content@),
            r matches Err(e) ==> e is Service,
    {
        let t = trim_chars(content);
        match parse_u64(t.as_slice()) {
            Some(v) => {
                if v <= 4294967295u64 {
                    Ok(v as u32)
                } else {
                    Err(Error::Service("Invalid PID file: number too large to fit in target type".to_owned()))
                }
            },
            None => Err(Error::Service("Invalid PID file: invalid digit found in string".to_owned())),
        }
    }

    /// The text written to the PID file: the PID in decimal.
    pub fn pid_text(pid: u32) -> (s: String)
        ensures
            s@ == decimal(pid as nat),
    {
        let mut s = String::new();
        push_decimal(&mut s, pid as u64);
        s
    }

    /// The last `n` lines of the log's content, joined by newlines; without a
    /// log file, `"No log file found"`.
    pub fn log_tail(content: Option<&str>, n: usize) -> (s: String)
        ensures
            s@ == match content {
                Some(c) => tail_text(c@, n as nat),
                None => "No log file found"@,
            },
    {
        match content {
            None => "No log file found".to_owned(),
            Some(c) => {
                let ls = lines(c);
                let start = if ls.len() > n {
                    ls.len() - n
                } else {
                    0
                };
                let mut tail: Vec<String> = Vec::new();
                let mut i = start;
                while i < ls.len()
                    invariant
                        start <= i <= ls@.len(),
                        tail.deep_view() == ls.deep_view().subrange(start as int, i as int),
                    decreases ls@.len() - i,
                {
                    let ghost before = tail.deep_view();
                    tail.push(ls[i].clone());
                    assert(tail.deep_view() =~= before.push(ls.deep_view()[i as int]));
                    assert(tail.deep_view() =~= ls.deep_view().subrange(start as int, i + 1));
                    i += 1;
                }
                assert(tail.deep_view() =~= ls.deep_view().skip(start as int));
                join_strings(&tail, '\n')
            },
        }
    }

    /// Where the log moves when rotated.
    pub fn rotated_log_path(&self) -> (p: String)
        ensures
            p@ == rotated_path(self.log_file@),
    {
        match crate::klipdot::paths::file_name(self.log_file.as_str()) {
            None => self.log_file.clone(),
            Some(_) => {
                let c = chars_of(self.log_file.as_str());
                match crate::klipdot::paths::extension(self.log_file.as_str()) {
                    Some(e) => {
                        proof {
                            crate::klipdot::paths::lemma_extension_suffix(self.log_file@);
                        }
                        let ec = chars_of(e.as_str());
                        let keep = c.len() - ec.len();
                        let mut p = String::new();
                        push_chars(&mut p, &c, 0, keep);
                        p.push_str("log.old");
                        assert(c@.subrange(0, keep as int) =~= self.log_file@.take(keep as int));
                        p
                    },
                    None => {
                        let mut p = self.log_file.clone();
                        p.push_str(".log.old");
                        p
                    },
                }
            },
        }
    }

    /// The boot time from the kernel's `/proc/stat` text: the second word of
    /// the first `btime ` line. A missing line or a bad number is a
    /// `Service` error.
    pub fn parse_boot_time(stat: &str) -> (r: Result<u64, Error>)
        ensures
            r is Ok <==> (first_field_line(lines_of(stat@), "btime "@) matches Some(w) && parsed_u64(
                w,
            ) is Some),
            r matches Ok(v) ==> first_field_line(lines_of(stat@), "btime "@) matches Some(w)
                && parsed_u64(w) == Some(v),
            r matches Err(e) ==> e is Service,
    {
        let ls = lines(stat);
        let mut i: usize = 0;
        assert(ls.deep_view().skip(0) =~= ls.deep_view());
        while i < ls.len()
            invariant
                i <= ls@.len(),
                ls.deep_view() == lines_of(stat@),
                first_field_line(ls.deep_view(), "btime "@) == first_field_line(
                    ls.deep_view().skip(i as int),
                    "btime "@,
                ),
            decreases ls@.len() - i,
        {
            let ghost rest = ls.deep_view().skip(i as int);
            assert(rest[0] == ls.deep_view()[i as int]);
            assert(rest.drop_first() =~= ls.deep_view().skip(i + 1));
            if str_starts_with(ls[i].as_str(), "btime ") {
                let ws = words(ls[i].as_str());
                if ws.len() >= 2 {
                    let d = chars_of(ws[1].as_str());
                    return match parse_u64(d.as_slice()) {
                        Some(v) => Ok(v),
                        None => Err(Error::Service("Invalid boot time: invalid digit found in string".to_owned())),
                    };
                }
            }
            i += 1;
        }
        assert(ls.deep_view().skip(i as int) =~= Seq::<Seq<char>>::empty());
        Err(Error::Service("Failed to get boot time".to_owned()))
    }

    /// The resident memory in kibibytes from a process's `/proc/<pid>/status`
    /// text: the second word of the first `VmRSS:` line where it is a number.
    pub fn memory_usage_kb(status: &str) -> (r: Option<u64>)
        ensures
            r == first_field_value(lines_of(status@), "VmRSS:"@),
    {
        let ls = lines(status);
        let mut i: usize = 0;
        assert(ls.deep_view().skip(0) =~= ls.deep_view());
        while i < ls.len()
            invariant
                i <= ls@.len(),
                ls.deep_view() == lines_of(status@),
                first_field_value(ls.deep_view(), "VmRSS:"@) == first_field_value(
                    ls.deep_view().skip(i as int),
                    "VmRSS:"@,
                ),
            decreases ls@.len() - i,
        {
            let ghost rest = ls.deep_view().skip(i as int);
            assert(rest[0] == ls.deep_view()[i as int]);
            assert(rest.drop_first() =~= ls.deep_view().skip(i + 1));
            if str_starts_with(ls[i].as_str(), "VmRSS:") {
                let ws = words(ls[i].as_str());
                if ws.len() >= 2 {
                    let d = chars_of(ws[1].as_str());
                    match parse_u64(d.as_slice()) {
                        Some(v) => {
                            return Some(v);
                        },
                        None => {},
                    }
                }
            }
            i += 1;
        }
        assert(ls.deep_view().skip(i as int) =~= Seq::<Seq<char>>::empty());
        None
    }

    /// The resident memory in bytes (see [`Self::memory_usage_kb`]); `None`
    /// when the figure is missing or its bytes do not fit in a `u64`.
    pub fn memory_usage_bytes(status: &str) -> (r: Option<u64>)
        ensures
            r == match first_field_value(lines_of(status@), "VmRSS:"@) {
                Some(kb) => if kb * 1024 <= u64::MAX {
                    Some((kb * 1024) as u64)
                } else {
                    None
                },
                None => None,
            },
    {
        match Self::memory_usage_kb(status) {
            Some(kb) => kb.checked_mul(1024),
            None => None,
        }
    }

    /// A process's uptime in seconds from its `/proc/<pid>/stat` text (the
    /// start time, in clock ticks since boot, is its 22nd word), the boot
    /// time, the clock's ticks per second and the current time; `None` when
    /// the start time is missing or not in the past.
    pub fn uptime_secs(stat: &str, boot_time: u64, clock_ticks: u64, now: u64) -> (r: Option<u64>)
        requires
            clock_ticks > 0,
        ensures
            r == if words_of(stat@).len() > 21 && parsed_u64(words_of(stat@)[21]) is Some {
                let start = boot_time + parsed_u64(words_of(stat@)[21])->0 / clock_ticks;
                if now > start {
                    Some((now - start) as u64)
                } else {
                    None
                }
            } else {
                None
            },
    {
        let ws = words(stat);
        if ws.len() <= 21 {
            return None;
        }
        let d = chars_of(ws[21].as_str());
        match parse_u64(d.as_slice()) {
            None => None,
            Some(ticks) => {
                let start: u128 = boot_time as u128 + (ticks / clock_ticks) as u128;
                if (now as u128) > start {
                    Some((now as u128 - start) as u64)
                } else {
                    None
                }
            },
        }
    }
}

} // verus!
