//! Rendering of events and status snapshots for the display modes.
//!
//! The machine-readable renderings (the event and summary lines of the
//! JSON mode, the events mode, the one-line summary) are built here and
//! pinned down exactly, including the JSON string escaping.  The pretty
//! mode decorates its text through terminal-colouring calls whose output
//! depends on the environment, so only the plain parts of those lines
//! are specified.

use vstd::prelude::*;
use colored::Colorize;
use crate::events::WatchEvent;
use crate::events::WatchEventV;
use crate::git::FileStatus;
use crate::git::GitInfo;
use crate::strutil::lower_of;
use crate::strutil::lowercase;
use crate::strutil::push_char;
use crate::strutil::spec_dec;
use crate::strutil::str_eq;
use crate::strutil::u64_to_dec;
use crate::strutil::usize_to_dec;

verus! {

/// The display modes.
#[derive(Clone, Copy, Debug, PartialEq, Eq, Structural)]
pub enum OutputFormat {
    Json,
    Pretty,
    Events,
    Summary,
}

impl OutputFormat {
    /// The mode a name selects, case-insensitively.
    pub open spec fn spec_from_str(s: Seq<char>) -> Option<OutputFormat> {
        if lower_of(s) == "json"@ {
            Some(OutputFormat::Json)
        } else if lower_of(s) == "pretty"@ {
            Some(OutputFormat::Pretty)
        } else if lower_of(s) == "events"@ {
            Some(OutputFormat::Events)
        } else if lower_of(s) == "summary"@ {
            Some(OutputFormat::Summary)
        } else {
            None
        }
    }

    pub fn from_str(s: &str) -> (r: Option<OutputFormat>)
        ensures
            r == Self::spec_from_str(s@),
    {
        let low = lowercase(s);
        if str_eq(low.as_str(), "json") {
            Some(OutputFormat::Json)
        } else if str_eq(low.as_str(), "pretty") {
            Some(OutputFormat::Pretty)
        } else if str_eq(low.as_str(), "events") {
            Some(OutputFormat::Events)
        } else if str_eq(low.as_str(), "summary") {
            Some(OutputFormat::Summary)
        } else {
            None
        }
    }
}

/// One event, shaped for the JSON mode's line.
pub struct JsonOutput {
    pub event_type: String,
    pub path: Option<String>,
    pub from_path: Option<String>,
    pub to_path: Option<String>,
    pub git_status: Option<String>,
    pub timestamp: u64,
}

/// One status snapshot, shaped for the JSON mode's summary line.
pub struct JsonSummary {
    pub git_branch: Option<String>,
    pub git_ahead: Option<usize>,
    pub git_behind: Option<usize>,
    pub has_conflicts: bool,
    pub modified_files: usize,
    pub untracked_files: usize,
    pub staged_files: usize,
    pub total_files: usize,
}

/// The lowercase hexadecimal digit for a value below sixteen.
pub open spec fn spec_hex_digit(d: nat) -> char {
    if d < 10 {
        crate::strutil::spec_digit(d)
    } else if d == 10 {
        'a'
    } else if d == 11 {
        'b'
    } else if d == 12 {
        'c'
    } else if d == 13 {
        'd'
    } else if d == 14 {
        'e'
    } else {
        'f'
    }
}

/// How one character is written inside a JSON string: quote and
/// backslash get a backslash escape, the named control characters get
/// their short escapes, any other control character is written as a
/// four-digit escape, and everything else stands as itself.
pub open spec fn spec_esc_char(c: char) -> Seq<char> {
    if c == '"' {
        seq!['\\', '"']
    } else if c == '\\' {
        seq!['\\', '\\']
    } else if c == '\u{8}' {
        seq!['\\', 'b']
    } else if c == '\t' {
        seq!['\\', 't']
    } else if c == '\n' {
        seq!['\\', 'n']
    } else if c == '\u{c}' {
        seq!['\\', 'f']
    } else if c == '\r' {
        seq!['\\', 'r']
    } else if (c as u32) < 0x20 {
        seq!['\\', 'u', '0', '0', spec_hex_digit((c as u32 / 16) as nat), spec_hex_digit(
            (c as u32 % 16) as nat,
        )]
    } else {
        seq![c]
    }
}

/// A character sequence escaped for a JSON string body.
pub open spec fn spec_esc(s: Seq<char>) -> Seq<char>
    decreases s.len(),
{
    if s.len() == 0 {
        Seq::empty()
    } else {
        spec_esc_char(s[0]) + spec_esc(s.drop_first())
    }
}

/// A JSON string: the escaped body between quotes.
pub open spec fn spec_json_string(s: Seq<char>) -> Seq<char> {
    seq!['"'] + spec_esc(s) + seq!['"']
}

/// An optional JSON string: `null` when absent.
pub open spec fn spec_json_opt_string(s: Option<Seq<char>>) -> Seq<char> {
    match s {
        Some(s) => spec_json_string(s),
        None => "null"@,
    }
}

/// An optional JSON number: `null` when absent.
pub open spec fn spec_json_opt_num(n: Option<nat>) -> Seq<char> {
    match n {
        Some(n) => spec_dec(n),
        None => "null"@,
    }
}

pub open spec fn spec_json_bool(b: bool) -> Seq<char> {
    if b {
        "true"@
    } else {
        "false"@
    }
}

proof fn lemma_esc_push(s: Seq<char>, c: char)
    ensures
        spec_esc(s.push(c)) == spec_esc(s) + spec_esc_char(c),
    decreases s.len(),
{
    if s.len() == 0 {
        assert(s.push(c).drop_first() =~= Seq::<char>::empty());
        assert(spec_esc(Seq::<char>::empty()) =~= Seq::<char>::empty());
        assert(spec_esc(s.push(c)) =~= spec_esc(s) + spec_esc_char(c));
    } else {
        assert(s.push(c).drop_first() =~= s.drop_first().push(c));
        lemma_esc_push(s.drop_first(), c);
        assert(spec_esc(s.push(c)) =~= spec_esc(s) + spec_esc_char(c));
    }
}

fn hex_digit_char(d: u32) -> (r: char)
    requires
        d < 16,
    ensures
        r == spec_hex_digit(d as nat),
{
    if d == 0 {
        '0'
    } else if d == 1 {
        '1'
    } else if d == 2 {
        '2'
    } else if d == 3 {
        '3'
    } else if d == 4 {
        '4'
    } else if d == 5 {
        '5'
    } else if d == 6 {
        '6'
    } else if d == 7 {
        '7'
    } else if d == 8 {
        '8'
    } else if d == 9 {
        '9'
    } else if d == 10 {
        'a'
    } else if d == 11 {
        'b'
    } else if d == 12 {
        'c'
    } else if d == 13 {
        'd'
    } else if d == 14 {
        'e'
    } else {
        'f'
    }
}

/// Appends one character's JSON escape to `out`.
fn push_escaped(out: &mut String, c: char)
    ensures
        final(out)@ == old(out)@ + spec_esc_char(c),
{
    let code = c as u32;
    if c == '"' {
        push_char(out, '\\');
        push_char(out, '"');
    } else if c == '\\' {
        push_char(out, '\\');
        push_char(out, '\\');
    } else if code == 0x8 {
        push_char(out, '\\');
        push_char(out, 'b');
    } else if code == 0x9 {
        push_char(out, '\\');
        push_char(out, 't');
    } else if code == 0xa {
        push_char(out, '\\');
        push_char(out, 'n');
    } else if code == 0xc {
        push_char(out, '\\');
        push_char(out, 'f');
    } else if code == 0xd {
        push_char(out, '\\');
        push_char(out, 'r');
    } else if code < 0x20 {
        push_char(out, '\\');
        push_char(out, 'u');
        push_char(out, '0');
        push_char(out, '0');
        push_char(out, hex_digit_char(code / 16));
        push_char(out, hex_digit_char(code % 16));
    } else {
        push_char(out, c);
    }
    proof {
        assert(final(out)@ =~= old(out)@ + spec_esc_char(c));
    }
}

/// Appends `s` as a JSON string, quotes and escapes included.
fn append_json_string(out: &mut String, s: &str)
    ensures
        final(out)@ == old(out)@ + spec_json_string(s@),
{
    push_char(out, '"');
    let len = s.unicode_len();
    let mut i: usize = 0;
    while i < len
        invariant
            len == s@.len(),
            i <= len,
            out@ == old(out)@ + seq!['"'] + spec_esc(s@.subrange(0, i as int)),
        decreases len - i,
    {
        let c = s.get_char(i);
        push_escaped(out, c);
        i += 1;
        proof {
            lemma_esc_push(s@.subrange(0, i as int - 1), s@[i as int - 1]);
            assert(s@.subrange(0, i as int) =~= s@.subrange(0, i as int - 1).push(s@[i as int - 1]));
            assert(out@ =~= old(out)@ + seq!['"'] + spec_esc(s@.subrange(0, i as int)));
        }
    }
    push_char(out, '"');
    proof {
        assert(s@.subrange(0, s@.len() as int) =~= s@);
        assert(out@ =~= old(out)@ + spec_json_string(s@));
    }
}

/// Appends an optional JSON string, writing `null` when absent.
fn append_json_opt_string(out: &mut String, s: Option<&String>)
    ensures
        final(out)@ == old(out)@ + spec_json_opt_string(
            match s {
                Some(s) => Some(s@),
                None => None,
            },
        ),
{
    match s {
        Some(s) => append_json_string(out, s.as_str()),
        None => {
            out.append("null");
        },
    }
}

/// The JSON line for one event, as the JSON mode prints it.
pub open spec fn spec_json_event_line(
    event_type: Seq<char>,
    path: Option<Seq<char>>,
    from_path: Option<Seq<char>>,
    to_path: Option<Seq<char>>,
    git_status: Option<Seq<char>>,
    timestamp: nat,
) -> Seq<char> {
    "{\"event_type\":"@ + spec_json_string(event_type) + ",\"path\":"@ + spec_json_opt_string(path)
        + ",\"from_path\":"@ + spec_json_opt_string(from_path) + ",\"to_path\":"@
        + spec_json_opt_string(to_path) + ",\"git_status\":"@ + spec_json_opt_string(git_status)
        + ",\"timestamp\":"@ + spec_dec(timestamp) + "}"@
}

impl JsonOutput {
    /// Renders the line: the fields in declaration order, strings
    /// escaped, absent fields as `null`.
    pub fn render(&self) -> (r: String)
        ensures
            r@ == spec_json_event_line(
                self.event_type@,
                match self.path {
                    Some(p) => Some(p@),
                    None => None,
                },
                match self.from_path {
                    Some(p) => Some(p@),
                    None => None,
                },
                match self.to_path {
                    Some(p) => Some(p@),
                    None => None,
                },
                match self.git_status {
                    Some(p) => Some(p@),
                    None => None,
                },
                self.timestamp as nat,
            ),
    {
        let mut out = String::from_str("{\"event_type\":");
        append_json_string(&mut out, self.event_type.as_str());
        out.append(",\"path\":");
        append_json_opt_string(&mut out, self.path.as_ref());
        out.append(",\"from_path\":");
        append_json_opt_string(&mut out, self.from_path.as_ref());
        out.append(",\"to_path\":");
        append_json_opt_string(&mut out, self.to_path.as_ref());
        out.append(",\"git_status\":");
        append_json_opt_string(&mut out, self.git_status.as_ref());
        out.append(",\"timestamp\":");
        let ts = u64_to_dec(self.timestamp);
        out.append(ts.as_str());
        out.append("}");
        out
    }
}

/// The JSON line for one status snapshot, as the JSON mode prints it.
pub open spec fn spec_json_summary_line(
    git_branch: Option<Seq<char>>,
    git_ahead: Option<nat>,
    git_behind: Option<nat>,
    has_conflicts: bool,
    modified_files: nat,
    untracked_files: nat,
    staged_files: nat,
    total_files: nat,
) -> Seq<char> {
    "{\"git_branch\":"@ + spec_json_opt_string(git_branch) + ",\"git_ahead\":"@
        + spec_json_opt_num(git_ahead) + ",\"git_behind\":"@ + spec_json_opt_num(git_behind)
        + ",\"has_conflicts\":"@ + spec_json_bool(has_conflicts) + ",\"modified_files\":"@
        + spec_dec(modified_files) + ",\"untracked_files\":"@ + spec_dec(untracked_files)
        + ",\"staged_files\":"@ + spec_dec(staged_files) + ",\"total_files\":"@ + spec_dec(
        total_files,
    ) + "}"@
}

impl JsonSummary {
    /// Renders the line: the fields in declaration order, strings
    /// escaped, absent fields as `null`.
    pub fn render(&self) -> (r: String)
        ensures
            r@ == spec_json_summary_line(
                match self.git_branch {
                    Some(b) => Some(b@),
                    None => None,
                },
                match self.git_ahead {
                    Some(a) => Some(a as nat),
                    None => None,
                },
                match self.git_behind {
                    Some(b) => Some(b as nat),
                    None => None,
                },
                self.has_conflicts,
                self.modified_files as nat,
                self.untracked_files as nat,
                self.staged_files as nat,
                self.total_files as nat,
            ),
    {
        let mut out = String::from_str("{\"git_branch\":");
        append_json_opt_string(&mut out, self.git_branch.as_ref());
        out.append(",\"git_ahead\":");
        append_json_opt_num(&mut out, self.git_ahead);
        out.append(",\"git_behind\":");
        append_json_opt_num(&mut out, self.git_behind);
        out.append(",\"has_conflicts\":");
        if self.has_conflicts {
            out.append("true");
        } else {
            out.append("false");
        }
        out.append(",\"modified_files\":");
        let m = usize_to_dec(self.modified_files);
        out.append(m.as_str());
        out.append(",\"untracked_files\":");
        let u = usize_to_dec(self.untracked_files);
        out.append(u.as_str());
        out.append(",\"staged_files\":");
        let s = usize_to_dec(self.staged_files);
        out.append(s.as_str());
        out.append(",\"total_files\":");
        let t = usize_to_dec(self.total_files);
        out.append(t.as_str());
        out.append("}");
        out
    }
}

fn append_json_opt_num(out: &mut String, n: Option<usize>)
    ensures
        final(out)@ == old(out)@ + spec_json_opt_num(
            match n {
                Some(n) => Some(n as nat),
                None => None,
            },
        ),
{
    match n {
        Some(n) => {
            let d = usize_to_dec(n);
            out.append(d.as_str());
        },
        None => {
            out.append("null");
        },
    }
}

/// How many recorded paths carry the given status.
pub open spec fn spec_count_status(s: Seq<(Seq<char>, FileStatus)>, st: FileStatus) -> nat
    decreases s.len(),
{
    if s.len() == 0 {
        0
    } else {
        spec_count_status(s.drop_first(), st) + (if s[0].1 == st {
            1nat
        } else {
            0nat
        })
    }
}

/// Counts the paths of a snapshot carrying the given status.
pub fn count_status(statuses: &Vec<(String, FileStatus)>, st: FileStatus) -> (r: usize)
    ensures
        r == spec_count_status(statuses@.map_values(|p: (String, FileStatus)| (p.0@, p.1)), st),
{
    let ghost model = statuses@.map_values(|p: (String, FileStatus)| (p.0@, p.1));
    let mut count: usize = 0;
    let mut i: usize = 0;
    proof {
        assert(model.subrange(0, 0) =~= Seq::<(Seq<char>, FileStatus)>::empty());
        assert(spec_count_status(Seq::<(Seq<char>, FileStatus)>::empty(), st) == 0);
    }
    while i < statuses.len()
        invariant
            model == statuses@.map_values(|p: (String, FileStatus)| (p.0@, p.1)),
            i <= model.len(),
            count == spec_count_status(model.subrange(0, i as int), st),
            count <= i,
        decreases statuses@.len() - i,
    {
        if status_eq(statuses[i].1, st) {
            count += 1;
        }
        i += 1;
        proof {
            lemma_count_push(model.subrange(0, i as int - 1), model[i as int - 1], st);
            assert(model.subrange(0, i as int) =~= model.subrange(0, i as int - 1).push(
                model[i as int - 1],
            ));
        }
    }
    proof {
        assert(model.subrange(0, model.len() as int) =~= model);
    }
    count
}

fn status_eq(a: FileStatus, b: FileStatus) -> (r: bool)
    ensures
        r == (a == b),
{
    a == b
}

proof fn lemma_count_push(s: Seq<(Seq<char>, FileStatus)>, e: (Seq<char>, FileStatus), st: FileStatus)
    ensures
        spec_count_status(s.push(e), st) == spec_count_status(s, st) + (if e.1 == st {
            1nat
        } else {
            0nat
        }),
    decreases s.len(),
{
    if s.len() == 0 {
        assert(s.push(e).drop_first() =~= Seq::<(Seq<char>, FileStatus)>::empty());
        assert(spec_count_status(Seq::<(Seq<char>, FileStatus)>::empty(), st) == 0);
    } else {
        assert(s.push(e).drop_first() =~= s.drop_first().push(e));
        lemma_count_push(s.drop_first(), e, st);
    }
}

/// Relies on `std::time::SystemTime::now` and `duration_since`: seconds
/// since the epoch, by the machine's clock; a clock before the epoch
/// reads as zero.
#[verifier::external_body]
fn now_unix_secs() -> (r: u64)
{
    std::time::SystemTime::now()
        .duration_since(std::time::UNIX_EPOCH)
        .unwrap_or_default()
        .as_secs()
}

// Terminal colouring, through `colored`.  Whether the text is wrapped in
// colour codes depends on the terminal and environment the process runs
// in, so nothing is promised of these results.

/// Relies on `colored::Colorize::yellow` and its rendering.
#[verifier::external_body]
fn paint_yellow(s: &str) -> (r: String)
{
    s.yellow().to_string()
}

/// Relies on `colored::Colorize::green` and its rendering.
#[verifier::external_body]
fn paint_green(s: &str) -> (r: String)
{
    s.green().to_string()
}

/// Relies on `colored::Colorize::red` and its rendering.
#[verifier::external_body]
fn paint_red(s: &str) -> (r: String)
{
    s.red().to_string()
}

/// Relies on `colored::Colorize::blue` and its rendering.
#[verifier::external_body]
fn paint_blue(s: &str) -> (r: String)
{
    s.blue().to_string()
}

/// Relies on `colored::Colorize::bright_black` and its rendering.
#[verifier::external_body]
fn paint_bright_black(s: &str) -> (r: String)
{
    s.bright_black().to_string()
}

/// Relies on `colored::Colorize::bright_white` and its rendering.
#[verifier::external_body]
fn paint_bright_white(s: &str) -> (r: String)
{
    s.bright_white().to_string()
}

/// Relies on `colored::Colorize::green` and `bold` and their rendering.
#[verifier::external_body]
fn paint_bold_green(s: &str) -> (r: String)
{
    s.green().bold().to_string()
}

/// Relies on `colored::Colorize::yellow` and `bold` and their rendering.
#[verifier::external_body]
fn paint_bold_yellow(s: &str) -> (r: String)
{
    s.yellow().bold().to_string()
}

/// Relies on `colored::Colorize::red` and `bold` and their rendering.
#[verifier::external_body]
fn paint_bold_red(s: &str) -> (r: String)
{
    s.red().bold().to_string()
}

/// Relies on `colored::Colorize::blue` and `bold` and their rendering.
#[verifier::external_body]
fn paint_bold_blue(s: &str) -> (r: String)
{
    s.blue().bold().to_string()
}

/// Relies on `colored::Colorize::cyan` and `bold` and their rendering.
#[verifier::external_body]
fn paint_bold_cyan(s: &str) -> (r: String)
{
    s.cyan().bold().to_string()
}

impl FileStatus {
    /// The one-letter indicator, coloured for a terminal.  The colour
    /// codes depend on the environment, so only the choice of letter is
    /// pinned by `to_short_str`; this rendering is not specified.
    pub fn to_colored_str(&self) -> String {
        match self {
            FileStatus::Modified => paint_yellow("M"),
            FileStatus::Added => paint_green("A"),
            FileStatus::Deleted => paint_red("D"),
            FileStatus::Renamed => paint_blue("R"),
            FileStatus::Untracked => paint_bright_black("?"),
            FileStatus::Conflicted => paint_bold_red("U"),
            FileStatus::Staged => paint_green("S"),
            FileStatus::Unknown => String::from_str(" "),
        }
    }
}

/// The events-mode line: a status letter, a one-character kind mark, and
/// the path.
pub open spec fn spec_events_line(ev: WatchEventV, status: Option<FileStatus>) -> Seq<char> {
    let ind = match status {
        Some(st) => st.spec_short_str(),
        None => seq![' '],
    };
    match ev {
        WatchEventV::Created(p) => ind + " + "@ + p,
        WatchEventV::Modified(p) => ind + " ~ "@ + p,
        WatchEventV::Deleted(p) => ind + " - "@ + p,
        WatchEventV::Renamed { from, to } => ind + " R "@ + from + " -> "@ + to,
        WatchEventV::Error(m) => "! "@ + m,
    }
}

/// The summary-mode line: branch, distance to upstream, and the three
/// counts, with a conflict marker when any path is conflicted.
pub open spec fn spec_summary_line(info: crate::git::GitInfoV) -> Seq<char> {
    "["@ + info.branch + "] \u{2191}"@ + spec_dec(info.ahead) + " \u{2193}"@ + spec_dec(info.behind)
        + " | M:"@ + spec_dec(spec_count_status(info.file_statuses, FileStatus::Modified)) + " S:"@
        + spec_dec(spec_count_status(info.file_statuses, FileStatus::Staged)) + " U:"@ + spec_dec(
        spec_count_status(info.file_statuses, FileStatus::Untracked),
    ) + (if info.has_conflicts {
        " [CONFLICT]"@
    } else {
        Seq::<char>::empty()
    })
}

/// Renders events and snapshots in one chosen display mode.
pub struct OutputFormatter {
    pub format: OutputFormat,
}

impl OutputFormatter {
    pub fn new(format: OutputFormat) -> (r: OutputFormatter)
        ensures
            r.format == format,
    {
        OutputFormatter { format }
    }

    /// The line printed for one event: the exact JSON line (stamped with
    /// the clock read during the call) in the JSON mode, the exact
    /// events line in the events mode, nothing in the summary mode, and
    /// the coloured pretty line otherwise.
    pub fn format_event(&self, event: &WatchEvent, git_status: Option<&FileStatus>) -> (r: String)
        ensures
            self.format is Json ==> exists|ts: nat|
                r@ == spec_json_event_line(
                    event@.spec_type(),
                    spec_json_path(event@),
                    spec_rename_from(event@),
                    spec_rename_to(event@),
                    spec_json_status(event@, git_status),
                    ts,
                ),
            self.format is Events ==> r@ == spec_events_line(
                event@,
                match git_status {
                    Some(st) => Some(*st),
                    None => None,
                },
            ),
            self.format is Summary ==> r@ == Seq::<char>::empty(),
    {
        match self.format {
            OutputFormat::Json => self.format_json(event, git_status),
            OutputFormat::Pretty => self.format_pretty(event, git_status),
            OutputFormat::Events => self.format_events(event, git_status),
            OutputFormat::Summary => String::new(),
        }
    }

    /// The line printed for one snapshot: the exact JSON summary in the
    /// JSON mode, the exact one-line summary in the summary mode,
    /// nothing in the events mode, and the coloured block otherwise.
    pub fn format_git_info(&self, info: &GitInfo) -> (r: String)
        ensures
            self.format is Json ==> r@ == spec_json_summary_line(
                Some(info@.branch),
                Some(info@.ahead),
                Some(info@.behind),
                info@.has_conflicts,
                spec_count_status(info@.file_statuses, FileStatus::Modified),
                spec_count_status(info@.file_statuses, FileStatus::Untracked),
                spec_count_status(info@.file_statuses, FileStatus::Staged),
                info@.file_statuses.len(),
            ),
            self.format is Summary ==> r@ == spec_summary_line(info@),
            self.format is Events ==> r@ == Seq::<char>::empty(),
    {
        match self.format {
            OutputFormat::Json => self.format_git_json(info),
            OutputFormat::Pretty => self.format_git_pretty(info),
            OutputFormat::Summary => self.format_git_summary(info),
            OutputFormat::Events => String::new(),
        }
    }

    fn format_json(&self, event: &WatchEvent, git_status: Option<&FileStatus>) -> (r: String)
        ensures
            exists|ts: nat|
                r@ == spec_json_event_line(
                    event@.spec_type(),
                    spec_json_path(event@),
                    spec_rename_from(event@),
                    spec_rename_to(event@),
                    spec_json_status(event@, git_status),
                    ts,
                ),
    {
        let status_letter = match event {
            WatchEvent::Error(_) => None,
            _ => match git_status {
                Some(st) => Some(String::from_str(st.to_short_str())),
                None => None,
            },
        };
        let event_type = String::from_str(event.event_type());
        let path = match event.path() {
            Some(p) => Some(String::from_str(p)),
            None => None,
        };
        let (from_path, to_path, path) = match event {
            WatchEvent::Renamed { from, to } => (
                Some(from.clone()),
                Some(to.clone()),
                None,
            ),
            _ => (None, None, path),
        };
        let output = JsonOutput {
            event_type,
            path,
            from_path,
            to_path,
            git_status: status_letter,
            timestamp: Self::current_timestamp(),
        };
        let r = output.render();
        proof {
            assert(r@ == spec_json_event_line(
                event@.spec_type(),
                spec_json_path(event@),
                spec_rename_from(event@),
                spec_rename_to(event@),
                spec_json_status(event@, git_status),
                output.timestamp as nat,
            ));
        }
        r
    }

    fn format_pretty(&self, event: &WatchEvent, git_status: Option<&FileStatus>) -> String {
        let mut out = match git_status {
            Some(st) => {
                let mut s = String::from_str("[");
                let painted = st.to_colored_str();
                s.append(painted.as_str());
                s.append("] ");
                s
            },
            None => String::new(),
        };
        match event {
            WatchEvent::Created(p) => {
                let label = paint_bold_green("CREATED");
                out.append(label.as_str());
                out.append(" ");
                out.append(p.as_str());
            },
            WatchEvent::Modified(p) => {
                let label = paint_bold_yellow("MODIFIED");
                out.append(label.as_str());
                out.append(" ");
                out.append(p.as_str());
            },
            WatchEvent::Deleted(p) => {
                let label = paint_bold_red("DELETED");
                out.append(label.as_str());
                out.append(" ");
                out.append(p.as_str());
            },
            WatchEvent::Renamed { from, to } => {
                let label = paint_bold_blue("RENAMED");
                out.append(label.as_str());
                out.append(" ");
                out.append(from.as_str());
                out.append(" -> ");
                out.append(to.as_str());
            },
            WatchEvent::Error(m) => {
                let label = paint_bold_red("ERROR");
                out.append(label.as_str());
                out.append(" ");
                out.append(m.as_str());
            },
        }
        out
    }

    fn format_events(&self, event: &WatchEvent, git_status: Option<&FileStatus>) -> (r: String)
        ensures
            r@ == spec_events_line(
                event@,
                match git_status {
                    Some(st) => Some(*st),
                    None => None,
                },
            ),
    {
        let mut out = match git_status {
            Some(st) => String::from_str(st.to_short_str()),
            None => String::from_str(" "),
        };
        proof {
            reveal_strlit(" ");
            assert(" "@ =~= seq![' ']);
        }
        match event {
            WatchEvent::Created(p) => {
                out.append(" + ");
                out.append(p.as_str());
            },
            WatchEvent::Modified(p) => {
                out.append(" ~ ");
                out.append(p.as_str());
            },
            WatchEvent::Deleted(p) => {
                out.append(" - ");
                out.append(p.as_str());
            },
            WatchEvent::Renamed { from, to } => {
                out.append(" R ");
                out.append(from.as_str());
                out.append(" -> ");
                out.append(to.as_str());
            },
            WatchEvent::Error(m) => {
                let mut e = String::from_str("! ");
                e.append(m.as_str());
                out = e;
            },
        }
        out
    }

    fn format_git_json(&self, info: &GitInfo) -> (r: String)
        ensures
            r@ == spec_json_summary_line(
                Some(info@.branch),
                Some(info@.ahead),
                Some(info@.behind),
                info@.has_conflicts,
                spec_count_status(info@.file_statuses, FileStatus::Modified),
                spec_count_status(info@.file_statuses, FileStatus::Untracked),
                spec_count_status(info@.file_statuses, FileStatus::Staged),
                info@.file_statuses.len(),
            ),
    {
        let summary = JsonSummary {
            git_branch: Some(info.branch.clone()),
            git_ahead: Some(info.ahead),
            git_behind: Some(info.behind),
            has_conflicts: info.has_conflicts,
            modified_files: count_status(&info.file_statuses, FileStatus::Modified),
            untracked_files: count_status(&info.file_statuses, FileStatus::Untracked),
            staged_files: count_status(&info.file_statuses, FileStatus::Staged),
            total_files: info.file_statuses.len(),
        };
        summary.render()
    }

    fn format_git_pretty(&self, info: &GitInfo) -> String {
        let mut out = String::new();
        let branch_label = paint_bold_cyan("Branch:");
        out.append(branch_label.as_str());
        out.append(" ");
        let branch = paint_bright_white(info.branch.as_str());
        out.append(branch.as_str());
        out.append("\n");
        if info.ahead > 0 || info.behind > 0 {
            let status_label = paint_bold_cyan("Status:");
            out.append(status_label.as_str());
            out.append(" ");
            let ahead = usize_to_dec(info.ahead);
            let ahead_col = paint_green(ahead.as_str());
            out.append(ahead_col.as_str());
            out.append(" ahead, ");
            let behind = usize_to_dec(info.behind);
            let behind_col = paint_red(behind.as_str());
            out.append(behind_col.as_str());
            out.append(" behind\n");
        }
        if info.has_conflicts {
            let conflicts = paint_bold_red("CONFLICTS DETECTED");
            out.append(conflicts.as_str());
            out.append("\n");
        }
        let files_label = paint_bold_cyan("Files:");
        out.append(files_label.as_str());
        out.append(" ");
        let modified = usize_to_dec(count_status(&info.file_statuses, FileStatus::Modified));
        out.append(modified.as_str());
        out.append(" modified, ");
        let staged = usize_to_dec(count_status(&info.file_statuses, FileStatus::Staged));
        out.append(staged.as_str());
        out.append(" staged, ");
        let untracked = usize_to_dec(count_status(&info.file_statuses, FileStatus::Untracked));
        out.append(untracked.as_str());
        out.append(" untracked\n");
        out
    }

    fn format_git_summary(&self, info: &GitInfo) -> (r: String)
        ensures
            r@ == spec_summary_line(info@),
    {
        let mut out = String::from_str("[");
        out.append(info.branch.as_str());
        out.append("] \u{2191}");
        let ahead = usize_to_dec(info.ahead);
        out.append(ahead.as_str());
        out.append(" \u{2193}");
        let behind = usize_to_dec(info.behind);
        out.append(behind.as_str());
        out.append(" | M:");
        let modified = usize_to_dec(count_status(&info.file_statuses, FileStatus::Modified));
        out.append(modified.as_str());
        out.append(" S:");
        let staged = usize_to_dec(count_status(&info.file_statuses, FileStatus::Staged));
        out.append(staged.as_str());
        out.append(" U:");
        let untracked = usize_to_dec(count_status(&info.file_statuses, FileStatus::Untracked));
        out.append(untracked.as_str());
        if info.has_conflicts {
            out.append(" [CONFLICT]");
        }
        out
    }

    fn current_timestamp() -> u64 {
        now_unix_secs()
    }
}

/// The path the JSON line carries: renames and errors carry none.
pub open spec fn spec_json_path(ev: WatchEventV) -> Option<Seq<char>> {
    match ev {
        WatchEventV::Created(p) => Some(p),
        WatchEventV::Modified(p) => Some(p),
        WatchEventV::Deleted(p) => Some(p),
        WatchEventV::Renamed { from, to } => None,
        WatchEventV::Error(m) => None,
    }
}

/// The source path a rename reports; nothing for other events.
pub open spec fn spec_rename_from(ev: WatchEventV) -> Option<Seq<char>> {
    match ev {
        WatchEventV::Renamed { from, to } => Some(from),
        _ => None,
    }
}

/// The destination path a rename reports; nothing for other events.
pub open spec fn spec_rename_to(ev: WatchEventV) -> Option<Seq<char>> {
    match ev {
        WatchEventV::Renamed { from, to } => Some(to),
        _ => None,
    }
}

/// The one-letter status a JSON line carries; nothing when no status is
/// attached.
pub open spec fn spec_status_letter(status: Option<&FileStatus>) -> Option<Seq<char>> {
    match status {
        Some(st) => Some(st.spec_short_str()),
        None => None,
    }
}

/// The status field of the JSON line: an error event carries none,
/// whatever status came with it.
pub open spec fn spec_json_status(ev: WatchEventV, status: Option<&FileStatus>) -> Option<
    Seq<char>,
> {
    match ev {
        WatchEventV::Error(m) => None,
        _ => spec_status_letter(status),
    }
}

} // verus!
