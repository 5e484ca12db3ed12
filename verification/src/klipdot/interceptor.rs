//! The terminal interceptor's decisions: reading process listings, telling
//! image and screenshot processes apart, remembering the processes it has
//! seen, and where screenshots land. Listing processes, scanning directories
//! and waiting stand outside.

use vstd::prelude::*;

use crate::klipdot::config::{wayland_screenshot_tools, Config};
use crate::klipdot::{join, join_path, lowercase, owned_strings, to_lowercase};
use crate::text::{
    contains, parse_u64, parsed_u64, str_contains, str_eq, chars_of, words, words_of,
};

verus! {

/// Names of processes that handle images.
pub open spec fn image_process_names() -> Seq<Seq<char>> {
    seq![
        "screencapture"@,
        "screenshot"@,
        "scrot"@,
        "gnome-screenshot"@,
        "spectacle"@,
        "flameshot"@,
        "grim"@,
        "slurp"@,
        "wayshot"@,
        "grimshot"@,
        "import"@,
        "convert"@,
        "magick"@,
        "xfce4-screenshooter"@,
    ]
}

/// Names of screenshot processes, whatever tools are installed.
pub open spec fn screenshot_process_names() -> Seq<Seq<char>> {
    seq![
        "screencapture"@,
        "screenshot"@,
        "scrot"@,
        "gnome-screenshot"@,
        "spectacle"@,
        "flameshot"@,
        "grim"@,
        "slurp"@,
        "wayshot"@,
        "grimshot"@,
        "import"@,
        "xfce4-screenshooter"@,
    ]
}

/// Whether the lowercase form of `name` contains the lowercase form of one
/// of `names`.
pub open spec fn mentions_any(name: Seq<char>, names: Seq<Seq<char>>) -> bool {
    exists|i: int| 0 <= i < names.len() && contains(lowercase(name), lowercase(#[trigger] names[i]))
}

/// Whether the lowercase form of `name` contains one of `names` as is.
pub open spec fn mentions_any_exact(name: Seq<char>, names: Seq<Seq<char>>) -> bool {
    exists|i: int| 0 <= i < names.len() && contains(lowercase(name), #[trigger] names[i])
}

/// `ws[from..]` joined by single spaces.
pub open spec fn spaced_from(ws: Seq<Seq<char>>, from: int) -> Seq<char> {
    crate::text::joined(ws.skip(from), seq![' '])
}

/// What a `ps -eo pid,comm,args` line describes: at least three words, the
/// first a PID.
pub open spec fn ps_entry(line: Seq<char>) -> Option<(u32, Seq<char>, Seq<char>)> {
    let ws = words_of(line);
    if ws.len() >= 3 && parsed_u64(ws[0]) is Some && parsed_u64(ws[0])->0 <= u32::MAX {
        Some((parsed_u64(ws[0])->0 as u32, ws[1], spaced_from(ws, 2)))
    } else {
        None
    }
}

/// A running process.
#[derive(Debug, Clone)]
pub struct Process {
    pub pid: u32,
    pub name: String,
    pub command: String,
}

/// A process the interceptor has seen, and when (Unix seconds).
#[derive(Debug, Clone)]
pub struct ProcessMonitor {
    pub name: String,
    pub pid: Option<u32>,
    pub last_seen: u64,
}

/// Whether a monitor last seen at `last_seen` is stale at `now`: seen more
/// than five minutes ago (a time in the future is never stale).
pub open spec fn stale(last_seen: u64, now: u64) -> bool {
    now >= last_seen && now - last_seen > 300
}

/// The monitors that stay after a cleanup at `now`, in order.
pub open spec fn fresh_monitors(ms: Seq<ProcessMonitor>, now: u64) -> Seq<ProcessMonitor> {
    ms.filter(|m: ProcessMonitor| !stale(m.last_seen, now))
}

/// Watches running processes for image and screenshot tools.
pub struct TerminalInterceptor {
    pub config: Config,
    pub running: bool,
    /// One monitor per process name.
    pub process_monitors: Vec<ProcessMonitor>,
}

impl TerminalInterceptor {
    /// Whether no two monitors share a name.
    pub open spec fn names_distinct(&self) -> bool {
        forall|i: int, j: int|
            0 <= i < j < self.process_monitors@.len() ==> self.process_monitors@[i].name@
                != self.process_monitors@[j].name@
    }

    /// An interceptor on `config` that is not running and has seen nothing.
    pub fn new(config: Config) -> (t: Self)
        ensures
            t.config == config,
            !t.running,
            t.process_monitors@.len() == 0,
            t.names_distinct(),
    {
        TerminalInterceptor { config, running: false, process_monitors: Vec::new() }
    }

    /// Whether process monitoring is switched on in the configuration.
    pub fn enabled(&self) -> (r: bool)
        ensures
            r == self.config.intercept_methods.process_monitor,
    {
        self.config.intercept_methods.process_monitor
    }

    /// Marks the interceptor as running.
    pub fn start(&mut self)
        ensures
            final(self).running,
            final(self).process_monitors@ == old(self).process_monitors@,
    {
        self.running = true;
    }

    /// Stops the interceptor.
    pub fn stop(&mut self)
        ensures
            !final(self).running,
            final(self).process_monitors@ == old(self).process_monitors@,
    {
        self.running = false;
    }

    /// The process a `ps -eo pid,comm,args` line describes: its PID, name,
    /// and the rest of the line as its command; `None` for a line with fewer
    /// than three words or no PID first.
    pub fn parse_ps_line(&self, line: &str) -> (r: Option<Process>)
        ensures
            r is Some <==> ps_entry(line@) is Some,
            r matches Some(p) ==> ps_entry(line@) == Some((p.pid, p.name@, p.command@)),
    {
        let ws = words(line);
        if ws.len() < 3 {
            return None;
        }
        let d = chars_of(ws[0].as_str());
        match parse_u64(d.as_slice()) {
            None => None,
            Some(v) => {
                if v > 4294967295u64 {
                    return None;
                }
                let mut rest: Vec<String> = Vec::new();
                let mut i: usize = 2;
                while i < ws.len()
                    invariant
                        2 <= i <= ws@.len(),
                        rest.deep_view() == ws.deep_view().subrange(2, i as int),
                    decreases ws@.len() - i,
                {
                    let ghost before = rest.deep_view();
                    rest.push(ws[i].clone());
                    assert(rest.deep_view() =~= before.push(ws.deep_view()[i as int]));
                    assert(rest.deep_view() =~= ws.deep_view().subrange(2, i + 1));
                    i += 1;
                }
                let command = crate::text::join_strings(&rest, ' ');
                assert(rest.deep_view() =~= ws.deep_view().skip(2));
                Some(Process { pid: v as u32, name: ws[1].clone(), command })
            },
        }
    }

    /// Whether a process name (in lowercase) contains the name of an
    /// image-handling process.
    pub fn is_image_process(&self, name: &str) -> (r: bool)
        ensures
            r == mentions_any(name@, image_process_names()),
    {
        let names = owned_strings(
            &[
                "screencapture",
                "screenshot",
                "scrot",
                "gnome-screenshot",
                "spectacle",
                "flameshot",
                "grim",
                "slurp",
                "wayshot",
                "grimshot",
                "import",
                "convert",
                "magick",
                "xfce4-screenshooter",
            ],
        );
        assert(names.deep_view() =~= image_process_names());
        mentions_lowercase(name, &names)
    }

    /// Whether a process name (in lowercase) contains the name of one of the
    /// installed screenshot tools (`available_tools`, in lowercase) or of a
    /// known screenshot process.
    pub fn is_screenshot_process(&self, name: &str, available_tools: &[String]) -> (r: bool)
        ensures
            r == (mentions_any(name@, available_tools.deep_view()) || mentions_any_exact(
                name@,
                screenshot_process_names(),
            )),
    {
        let mut tools: Vec<String> = Vec::new();
        let mut i: usize = 0;
        while i < available_tools.len()
            invariant
                i <= available_tools@.len(),
                tools.deep_view() == available_tools.deep_view().take(i as int),
            decreases available_tools@.len() - i,
        {
            let ghost before = tools.deep_view();
            tools.push(available_tools[i].clone());
            assert(tools.deep_view() =~= available_tools.deep_view().take(i + 1)) by {
                assert(tools.deep_view() =~= before.push(available_tools.deep_view()[i as int]));
            }
            i += 1;
        }
        assert(available_tools.deep_view().take(i as int) =~= available_tools.deep_view());
        if mentions_lowercase(name, &tools) {
            return true;
        }
        let known = owned_strings(
            &[
                "screencapture",
                "screenshot",
                "scrot",
                "gnome-screenshot",
                "spectacle",
                "flameshot",
                "grim",
                "slurp",
                "wayshot",
                "grimshot",
                "import",
                "xfce4-screenshooter",
            ],
        );
        assert(known.deep_view() =~= screenshot_process_names());
        let lower = to_lowercase(name);
        let mut k: usize = 0;
        while k < known.len()
            invariant
                k <= known@.len(),
                known.deep_view() == screenshot_process_names(),
                lower@ == lowercase(name@),
                forall|j: int| 0 <= j < k ==> !contains(lowercase(name@), #[trigger] known.deep_view()[j]),
            decreases known@.len() - k,
        {
            if str_contains(lower.as_str(), known[k].as_str()) {
                assert(contains(lowercase(name@), screenshot_process_names()[k as int]));
                return true;
            }
            k += 1;
        }
        false
    }

    /// Whether a process name (in lowercase) contains the name of a Wayland
    /// screenshot tool.
    pub fn is_wayland_screenshot_process(&self, name: &str) -> (r: bool)
        ensures
            r == mentions_any(name@, wayland_screenshot_tools()),
    {
        let tools = owned_strings(&["grim", "wayshot", "grimshot", "spectacle", "flameshot"]);
        assert(tools.deep_view() =~= wayland_screenshot_tools());
        mentions_lowercase(name, &tools)
    }

    /// Records that process `name` (PID `pid`) was seen at `now`: an earlier
    /// record of that name is dropped and the new record goes last.
    pub fn record_process(&mut self, name: &str, pid: u32, now: u64)
        requires
            old(self).names_distinct(),
        ensures
            final(self).names_distinct(),
            final(self).running == old(self).running,
            final(self).process_monitors@.len() == other_monitors(old(self).process_monitors@, name@).len() + 1,
            final(self).process_monitors@.drop_last() == other_monitors(old(self).process_monitors@, name@),
            final(self).process_monitors@.last().name@ == name@,
            final(self).process_monitors@.last().pid == Some(pid),
            final(self).process_monitors@.last().last_seen == now,
    {
        let mut kept: Vec<ProcessMonitor> = Vec::new();
        let mut i: usize = 0;
        while i < self.process_monitors.len()
            invariant
                i <= self.process_monitors@.len(),
                self.process_monitors@ == old(self).process_monitors@,
                kept@ == other_monitors(self.process_monitors@.take(i as int), name@),
            decreases self.process_monitors@.len() - i,
        {
            let m = &self.process_monitors[i];
            assert(self.process_monitors@.take(i + 1).drop_last() =~= self.process_monitors@.take(i as int));
            reveal(Seq::filter);
            if !str_eq(m.name.as_str(), name) {
                let copy = ProcessMonitor { name: m.name.clone(), pid: m.pid, last_seen: m.last_seen };
                kept.push(copy);
            }
            i += 1;
        }
        assert(self.process_monitors@.take(i as int) =~= self.process_monitors@);
        let ghost others = kept@;
        kept.push(ProcessMonitor { name: name.to_owned(), pid: Some(pid), last_seen: now });
        assert(kept@.drop_last() =~= others);
        proof {
            let ms = old(self).process_monitors@;
            let keep = |m: ProcessMonitor| m.name@ != name@;
            lemma_filter_distinct(ms, keep);
            assert forall|k: int| 0 <= k < others.len() implies others[k].name@ != name@ by {
                lemma_filter_from(ms, keep, k);
            }
            assert forall|a: int, b: int| 0 <= a < b < kept@.len() implies kept@[a].name@ != kept@[b].name@ by {
                if b < others.len() {
                    assert(kept@[a] == others[a] && kept@[b] == others[b]);
                } else {
                    assert(kept@[a] == others[a]);
                }
            }
        }
        self.process_monitors = kept;
    }

    /// Drops the monitors last seen more than five minutes before `now`,
    /// keeping the others in order.
    pub fn cleanup_old_monitors(&mut self, now: u64)
        requires
            old(self).names_distinct(),
        ensures
            final(self).process_monitors@ == fresh_monitors(old(self).process_monitors@, now),
            final(self).names_distinct(),
            final(self).running == old(self).running,
    {
        let mut kept: Vec<ProcessMonitor> = Vec::new();
        let mut i: usize = 0;
        while i < self.process_monitors.len()
            invariant
                i <= self.process_monitors@.len(),
                self.process_monitors@ == old(self).process_monitors@,
                kept@ == fresh_monitors(self.process_monitors@.take(i as int), now),
            decreases self.process_monitors@.len() - i,
        {
            let m = &self.process_monitors[i];
            assert(self.process_monitors@.take(i + 1).drop_last() =~= self.process_monitors@.take(i as int));
            reveal(Seq::filter);
            if !(now >= m.last_seen && now - m.last_seen > 300) {
                let copy = ProcessMonitor { name: m.name.clone(), pid: m.pid, last_seen: m.last_seen };
                kept.push(copy);
            }
            i += 1;
        }
        assert(self.process_monitors@.take(i as int) =~= self.process_monitors@);
        proof {
            lemma_filter_distinct(old(self).process_monitors@, |m: ProcessMonitor| !stale(m.last_seen, now));
        }
        self.process_monitors = kept;
    }
}

/// The monitors whose name is not `name`, in order.
pub open spec fn other_monitors(ms: Seq<ProcessMonitor>, name: Seq<char>) -> Seq<ProcessMonitor> {
    ms.filter(|m: ProcessMonitor| m.name@ != name)
}

proof fn lemma_filter_from(ms: Seq<ProcessMonitor>, keep: spec_fn(ProcessMonitor) -> bool, k: int)
    requires
        0 <= k < ms.filter(keep).len(),
    ensures
        exists|j: int| 0 <= j < ms.len() && ms[j] == ms.filter(keep)[k],
        keep(ms.filter(keep)[k]),
    decreases ms.len(),
{
    reveal(Seq::filter);
    let init = ms.drop_last();
    let f = init.filter(keep);
    if keep(ms.last()) && k == f.len() {
        assert(ms[ms.len() - 1] == ms.filter(keep)[k]);
    } else {
        lemma_filter_from(init, keep, k);
        let j = choose|j: int| 0 <= j < init.len() && init[j] == f[k];
        assert(ms[j] == init[j]);
    }
}

proof fn lemma_filter_distinct(ms: Seq<ProcessMonitor>, keep: spec_fn(ProcessMonitor) -> bool)
    requires
        forall|i: int, j: int| 0 <= i < j < ms.len() ==> ms[i].name@ != ms[j].name@,
    ensures
        forall|i: int, j: int|
            0 <= i < j < ms.filter(keep).len() ==> ms.filter(keep)[i].name@ != ms.filter(keep)[j].name@,
    decreases ms.len(),
{
    reveal(Seq::filter);
    if ms.len() > 0 {
        let init = ms.drop_last();
        lemma_filter_distinct(init, keep);
        let f = init.filter(keep);
        if keep(ms.last()) {
            assert(ms.filter(keep) == f.push(ms.last()));
            assert forall|k: int| 0 <= k < f.len() implies f[k].name@ != ms.last().name@ by {
                lemma_filter_from(init, keep, k);
                let j = choose|j: int| 0 <= j < init.len() && init[j] == f[k];
                assert(ms[j] == init[j]);
            }
        } else {
            assert(ms.filter(keep) == f);
        }
    }
}

/// Whether the lowercase form of `name` contains the lowercase form of one
/// of `names`.
fn mentions_lowercase(name: &str, names: &Vec<String>) -> (r: bool)
    ensures
        r == mentions_any(name@, names.deep_view()),
{
    let lower = to_lowercase(name);
    let mut i: usize = 0;
    while i < names.len()
        invariant
            i <= names@.len(),
            lower@ == lowercase(name@),
            forall|j: int| 0 <= j < i ==> !contains(lowercase(name@), lowercase(#[trigger] names.deep_view()[j])),
        decreases names@.len() - i,
    {
        let n = to_lowercase(names[i].as_str());
        if str_contains(lower.as_str(), n.as_str()) {
            assert(contains(lowercase(name@), lowercase(names.deep_view()[i as int])));
            return true;
        }
        i += 1;
    }
    false
}

/// Whether a file modified at `modified` is recent at `now`: less than 30
/// seconds old (Unix seconds; a time in the future is not).
pub fn is_recent(modified: u64, now: u64) -> (r: bool)
    ensures
        r == (now >= modified && now - modified < 30),
{
    now >= modified && now - modified < 30
}

/// Extra directories where Wayland screenshots land: the Screenshots folder
/// of the pictures directory under GNOME and KDE, the home directory's
/// Pictures and the home directory itself under sway, and the XDG user-dirs
/// file of the configuration directory.
pub fn wayland_screenshot_dirs(
    compositor: Option<&str>,
    picture_dir: Option<&str>,
    home_dir: Option<&str>,
    config_dir: Option<&str>,
) -> (dirs: Vec<String>)
    ensures
        dirs.deep_view() == (match compositor {
            Some(c) => if c@ == "gnome"@ || c@ == "kde"@ {
                match picture_dir {
                    Some(p) => seq![join_path(p@, "Screenshots"@)],
                    None => seq![],
                }
            } else if c@ == "sway"@ {
                match home_dir {
                    Some(h) => seq![join_path(h@, "Pictures"@), h@],
                    None => seq![],
                }
            } else {
                seq![]
            },
            None => seq![],
        }) + match config_dir {
            Some(d) => seq![join_path(d@, "user-dirs.dirs"@)],
            None => seq![],
        },
{
    let mut dirs: Vec<String> = Vec::new();
    if let Some(c) = compositor {
        if str_eq(c, "gnome") || str_eq(c, "kde") {
            if let Some(p) = picture_dir {
                dirs.push(join(p, "Screenshots"));
                assert(dirs.deep_view() =~= seq![join_path(p@, "Screenshots"@)]);
            }
        } else if str_eq(c, "sway") {
            if let Some(h) = home_dir {
                dirs.push(join(h, "Pictures"));
                dirs.push(h.to_owned());
                assert(dirs.deep_view() =~= seq![join_path(h@, "Pictures"@), h@]);
            }
        }
    }
    let ghost first = dirs.deep_view();
    if let Some(d) = config_dir {
        dirs.push(join(d, "user-dirs.dirs"));
        assert(dirs.deep_view() =~= first + seq![join_path(d@, "user-dirs.dirs"@)]);
    } else {
        assert(dirs.deep_view() =~= first + Seq::<Seq<char>>::empty());
    }
    dirs
}

/// Extra directories where macOS screenshots land: the desktop, and the
/// Screenshots folders of the pictures and documents directories.
pub fn macos_screenshot_dirs(
    desktop_dir: Option<&str>,
    picture_dir: Option<&str>,
    document_dir: Option<&str>,
) -> (dirs: Vec<String>)
    ensures
        dirs.deep_view() == (match desktop_dir {
            Some(d) => seq![d@],
            None => seq![],
        }) + (match picture_dir {
            Some(p) => seq![join_path(p@, "Screenshots"@)],
            None => seq![],
        }) + match document_dir {
            Some(d) => seq![join_path(d@, "Screenshots"@)],
            None => seq![],
        },
{
    let mut dirs: Vec<String> = Vec::new();
    if let Some(d) = desktop_dir {
        dirs.push(d.to_owned());
    }
    let ghost a = dirs.deep_view();
    if let Some(p) = picture_dir {
        dirs.push(join(p, "Screenshots"));
    }
    let ghost b = dirs.deep_view();
    if let Some(d) = document_dir {
        dirs.push(join(d, "Screenshots"));
    }
    assert(dirs.deep_view() =~= (match desktop_dir {
        Some(d) => seq![d@],
        None => seq![],
    }) + (match picture_dir {
        Some(p) => seq![join_path(p@, "Screenshots"@)],
        None => seq![],
    }) + match document_dir {
        Some(d) => seq![join_path(d@, "Screenshots"@)],
        None => seq![],
    });
    dirs
}

} // verus!
