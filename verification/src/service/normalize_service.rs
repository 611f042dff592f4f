//! Evening out the loudness of tracks. A file's integrated loudness is measured
//! once. The measurement is kept in memory and, as raw text, in a file beside
//! the audio, so that tuning the target never makes it worthless. The gain is
//! derived from it each time, by the caller.
//!
//! Paths use `/`.

use crate::player::track::Track;
use crate::service::cache_service;
use crate::text;
use crate::text::CharClass;
use crate::units::Level;
use vstd::prelude::*;

verus! {

/// The extension of a file that holds a measurement.
pub const SIDECAR_EXT: &'static str = "lufs";

/// The extension of files that held measurements in an older form. They are
/// passed over, not read.
pub const LEGACY_SIDECAR_EXT: &'static str = "gain";

/// What precedes the names in a path: the leading `/` of an absolute path, or
/// the leading `.` of one that begins with it as a whole component.
pub open spec fn body_start(p: Seq<char>) -> int {
    if p.len() > 0 && (p[0] == '/' || (p[0] == '.' && (p.len() == 1 || p[1] == '/'))) {
        1
    } else {
        0
    }
}

/// The position of the last separator among the names of `p`, counted from
/// their start, or -1.
pub open spec fn last_separator(p: Seq<char>) -> int {
    text::last_index(p.skip(body_start(p)), '/')
}

/// What follows the last separator among the names of `p`.
pub open spec fn last_component(p: Seq<char>) -> Seq<char> {
    p.skip(body_start(p) + last_separator(p) + 1)
}

/// What precedes the last separator among the names of `p`.
pub open spec fn before_last(p: Seq<char>) -> Seq<char> {
    if last_separator(p) < 0 {
        p.take(body_start(p))
    } else {
        p.take(body_start(p) + last_separator(p))
    }
}

/// Taking the last component away shortens a path that has names.
pub proof fn lemma_before_last(p: Seq<char>)
    requires
        p.len() > body_start(p),
    ensures
        before_last(p).len() < p.len(),
        -1 <= last_separator(p) < p.len() - body_start(p),
{
    text::lemma_last_index(p.skip(body_start(p)), '/');
}

/// `p` without the separators and the `.` components at its end.
pub open spec fn normal_end(p: Seq<char>) -> Seq<char>
    decreases p.len(),
{
    if p.len() > body_start(p) && (last_component(p).len() == 0 || last_component(p) == "."@) {
        proof {
            lemma_before_last(p);
        }
        normal_end(before_last(p))
    } else {
        p
    }
}

/// The name of the file that `p` leads to. A path that ends in `..`, is empty or
/// is only a root or a `.` leads to none.
pub open spec fn file_name(p: Seq<char>) -> Option<Seq<char>> {
    let q = normal_end(p);
    if q.len() > body_start(q) && last_component(q) != ".."@ {
        Some(last_component(q))
    } else {
        None
    }
}

/// The directory that the file at `p` is in.
pub open spec fn parent_of_file(p: Seq<char>) -> Seq<char> {
    normal_end(before_last(normal_end(p)))
}

/// A file name without its extension: what precedes the last full stop, unless
/// that is the first character.
pub open spec fn stem_of(name: Seq<char>) -> Seq<char> {
    let dot = text::last_index(name, '.');
    if dot <= 0 {
        name
    } else {
        name.take(dot)
    }
}

/// The path of `name` in the directory `dir`.
pub open spec fn in_dir(dir: Seq<char>, name: Seq<char>) -> Seq<char> {
    if dir.len() == 0 || dir.last() == '/' {
        dir + name
    } else {
        dir + "/"@ + name
    }
}

/// Where the measurement of the file at `p` is kept: beside it, under its name
/// with another extension.
pub open spec fn sidecar_of(p: Seq<char>) -> Option<Seq<char>> {
    match file_name(p) {
        Some(name) => Some(in_dir(parent_of_file(p), stem_of(name) + "."@ + SIDECAR_EXT@)),
        None => None,
    }
}

/// What precedes the names in a path.
fn names_start(p: &Vec<char>) -> (r: usize)
    ensures
        r == body_start(p@),
        r <= p.len(),
{
    if p.len() > 0 && (p[0] == '/' || (p[0] == '.' && (p.len() == 1 || p[1] == '/'))) {
        1
    } else {
        0
    }
}

/// Splits a path that has names into what precedes the last component and the
/// last component.
fn split_last(p: &Vec<char>) -> (r: (Vec<char>, Vec<char>))
    requires
        p@.len() > body_start(p@),
    ensures
        r.0@ == before_last(p@),
        r.1@ == last_component(p@),
        r.0@.len() < p@.len(),
{
    let start = names_start(p);
    let body = text::chars_between(p, start, p.len());
    assert(body@ =~= p@.skip(start as int));
    proof {
        lemma_before_last(p@);
    }
    match text::position_of_last(&body, '/') {
        Some(k) => {
            let rest = text::chars_between(p, 0, start + k);
            let last = text::chars_between(p, start + k + 1, p.len());
            assert(rest@ =~= before_last(p@));
            assert(last@ =~= last_component(p@));
            (rest, last)
        },
        None => {
            let rest = text::chars_between(p, 0, start);
            assert(rest@ =~= before_last(p@));
            assert(body@ =~= last_component(p@));
            (rest, body)
        },
    }
}

/// Drops the separators and the `.` components at the end of a path.
fn with_normal_end(p: Vec<char>) -> (r: Vec<char>)
    ensures
        r@ == normal_end(p@),
{
    let mut q = p;
    while q.len() > names_start(&q)
        invariant
            normal_end(q@) == normal_end(p@),
        ensures
            q@ == normal_end(p@),
        decreases q.len(),
    {
        let (rest, last) = split_last(&q);
        if last.len() == 0 || text::same_chars(&last, &text::chars_of(".")) {
            q = rest;
        } else {
            return q;
        }
    }
    q
}

/// Names the file that holds the measurement of the file at `path`. A path that
/// leads to no file has none.
pub fn sidecar_path(path: &str) -> (r: Option<String>)
    ensures
        text::text_of(r) == sidecar_of(path@),
{
    let whole = with_normal_end(text::chars_of(path));
    if whole.len() <= names_start(&whole) {
        return None;
    }
    let (rest, name) = split_last(&whole);
    if text::same_chars(&name, &text::chars_of("..")) {
        return None;
    }
    let dir = with_normal_end(rest);
    let stem = match text::position_of_last(&name, '.') {
        Some(dot) if dot > 0 => {
            let stem = text::chars_between(&name, 0, dot);
            assert(stem@ =~= name@.take(dot as int));
            stem
        },
        _ => name,
    };
    let mut out = text::string_of(&dir);
    if dir.len() > 0 && dir[dir.len() - 1] != '/' {
        out.append("/");
    }
    out.append(text::string_of(&stem).as_str());
    out.append(".");
    out.append(SIDECAR_EXT);
    assert(out@ =~= in_dir(dir@, stem@ + "."@ + SIDECAR_EXT@));
    Some(out)
}

/// The loudness on a line of the analyzer's report, as it is written there, if
/// it is the line that gives it: the key, a colon, and the value with quotes
/// and a comma around it or not.
pub open spec fn reported_on(line: Seq<char>) -> Option<Seq<char>> {
    match text::strip_prefix(text::trim(line), "\"input_i\""@) {
        None => None,
        Some(rest) => match text::strip_prefix(
            text::trim_start(rest, CharClass::Whitespace),
            ":"@,
        ) {
            None => None,
            Some(rest) => Some(
                text::trim_both(
                    text::trim(text::trim_end(text::trim(rest), CharClass::Comma)),
                    CharClass::Quote,
                ),
            ),
        },
    }
}

/// The loudness on the first of `lines` that gives it.
pub open spec fn first_reported(lines: Seq<Seq<char>>) -> Option<Seq<char>>
    decreases lines.len(),
{
    if lines.len() == 0 {
        None
    } else if reported_on(lines[0]) is Some {
        reported_on(lines[0])
    } else {
        first_reported(lines.skip(1))
    }
}

/// The loudness on a line of the analyzer's report, if it gives it.
fn reported_value(line: &Vec<char>) -> (r: Option<Vec<char>>)
    ensures
        match r {
            Some(value) => reported_on(line@) == Some(value@),
            None => reported_on(line@) is None,
        },
{
    match text::stripped_prefix(&text::trimmed(line), &text::chars_of("\"input_i\"")) {
        None => None,
        Some(rest) => match text::stripped_prefix(
            &text::trimmed_start(&rest, CharClass::Whitespace),
            &text::chars_of(":"),
        ) {
            None => None,
            Some(rest) => Some(
                text::trimmed_both(
                    &text::trimmed(&text::trimmed_end(&text::trimmed(&rest), CharClass::Comma)),
                    CharClass::Quote,
                ),
            ),
        },
    }
}

/// Finds the integrated loudness in what the analyzer wrote, among lines of
/// other output, and returns it as it is written there.
pub fn parse_input_i(stderr: &str) -> (r: Option<String>)
    ensures
        text::text_of(r) == first_reported(text::lines(stderr@)),
{
    let lines = text::lines_of(&text::chars_of(stderr));
    let ghost all = text::lines(stderr@);
    assert(all.skip(0) =~= all);
    for i in 0..lines.len()
        invariant
            all == text::lines(stderr@),
            all == text::char_texts(lines@),
            first_reported(all) == first_reported(all.skip(i as int)),
            i == lines.len() ==> first_reported(all) is None,
    {
        assert(all.skip(i as int)[0] == lines@[i as int]@);
        assert(all.skip(i as int).skip(1) =~= all.skip(i + 1));
        if let Some(value) = reported_value(&lines[i]) {
            return Some(text::string_of(&value));
        }
    }
    None
}

/// What the analyzer is called with to measure the file at `path`.
pub open spec fn measure_arguments(path: Seq<char>) -> Seq<Seq<char>> {
    seq![
        "-hide_banner"@,
        "-nostats"@,
        "-nostdin"@,
        "-i"@,
        path,
        "-af"@,
        "loudnorm=I=-16:print_format=json"@,
        "-f"@,
        "null"@,
        "-"@,
    ]
}

/// Prepares the call of the analyzer that measures the file at `path`.
pub fn measure_args(path: &str) -> (r: Vec<String>)
    ensures
        text::texts(r@) == measure_arguments(path@),
{
    let mut args: Vec<String> = Vec::new();
    args.push("-hide_banner".to_string());
    args.push("-nostats".to_string());
    args.push("-nostdin".to_string());
    args.push("-i".to_string());
    args.push(path.to_string());
    args.push("-af".to_string());
    args.push("loudnorm=I=-16:print_format=json".to_string());
    args.push("-f".to_string());
    args.push("null".to_string());
    args.push("-".to_string());
    assert(text::texts(args@) =~= measure_arguments(path@));
    args
}

/// Finds the integrated loudness in what the analyzer wrote, if it succeeded.
pub fn measured_text(succeeded: bool, stderr: &str) -> (r: Option<String>)
    ensures
        text::text_of(r) == if succeeded {
            first_reported(text::lines(stderr@))
        } else {
            None
        },
{
    if !succeeded {
        return None;
    }
    parse_input_i(stderr)
}

/// The measurements that are kept in memory, by the path of the file.
pub struct LufsCache {
    /// The measurements. Of two for the same path the later one counts.
    pub entries: Vec<(String, Level)>,
}

/// What a list of measurements says of each path.
pub open spec fn measurements(entries: Seq<(String, Level)>) -> Map<Seq<char>, Level>
    decreases entries.len(),
{
    if entries.len() == 0 {
        Map::empty()
    } else {
        measurements(entries.drop_last()).insert(entries.last().0@, entries.last().1)
    }
}

impl View for LufsCache {
    type V = Map<Seq<char>, Level>;

    open spec fn view(&self) -> Map<Seq<char>, Level> {
        measurements(self.entries@)
    }
}

/// A path that no entry is for has no measurement.
proof fn lemma_unmeasured(entries: Seq<(String, Level)>, key: Seq<char>)
    requires
        forall|j: int| 0 <= j < entries.len() ==> (#[trigger] entries[j]).0@ != key,
    ensures
        !measurements(entries).contains_key(key),
    decreases entries.len(),
{
    if entries.len() > 0 {
        lemma_unmeasured(entries.drop_last(), key);
    }
}

/// The last entry for a path decides, and changing it changes what is said of
/// that path alone.
proof fn lemma_last_entry_counts(
    entries: Seq<(String, Level)>,
    i: int,
    key: String,
    level: Level,
)
    requires
        0 <= i < entries.len(),
        entries[i].0@ == key@,
        forall|j: int| i < j < entries.len() ==> (#[trigger] entries[j]).0@ != key@,
    ensures
        measurements(entries).contains_key(key@),
        measurements(entries)[key@] == entries[i].1,
        measurements(entries.update(i, (key, level))) == measurements(entries).insert(key@, level),
    decreases entries.len(),
{
    let updated = entries.update(i, (key, level));
    if i == entries.len() - 1 {
        assert(updated.drop_last() =~= entries.drop_last());
    } else {
        lemma_last_entry_counts(entries.drop_last(), i, key, level);
        assert(updated.drop_last() =~= entries.drop_last().update(i, (key, level)));
    }
    assert(measurements(updated) =~= measurements(entries).insert(key@, level));
}

/// Where a loudness comes from, as the caller finds out.
pub enum LoudnessAnswer {
    /// Nothing was tried yet.
    Asked,
    /// The file of the measurement was looked at, and held one or not.
    Sidecar(Option<Level>),
    /// The audio was measured, with success or not.
    Measured(Option<Level>),
}

/// What the caller is to do about a loudness next.
#[derive(PartialEq, Eq, Structural)]
pub enum LoudnessStep {
    /// Use it.
    Use(Level),
    /// Look into the file of the measurement.
    ReadSidecar,
    /// Measure the audio.
    Measure,
    /// Write it to the file of the measurement, then use it.
    Store(Level),
    /// Do without it.
    Unknown,
}

/// What is to be done about the loudness of the file `key`: memory is asked
/// first, then the file of the measurement, and only then is the audio
/// measured.
pub open spec fn loudness_step(
    known: Map<Seq<char>, Level>,
    key: Seq<char>,
    answer: LoudnessAnswer,
) -> LoudnessStep {
    match answer {
        LoudnessAnswer::Asked => if known.contains_key(key) {
            LoudnessStep::Use(known[key])
        } else {
            LoudnessStep::ReadSidecar
        },
        LoudnessAnswer::Sidecar(Some(level)) => LoudnessStep::Use(level),
        LoudnessAnswer::Sidecar(None) => LoudnessStep::Measure,
        LoudnessAnswer::Measured(Some(level)) => LoudnessStep::Store(level),
        LoudnessAnswer::Measured(None) => LoudnessStep::Unknown,
    }
}

/// What is in memory after an answer: a loudness that was found is remembered.
pub open spec fn known_after(
    known: Map<Seq<char>, Level>,
    key: Seq<char>,
    answer: LoudnessAnswer,
) -> Map<Seq<char>, Level> {
    match answer {
        LoudnessAnswer::Sidecar(Some(level)) => known.insert(key, level),
        LoudnessAnswer::Measured(Some(level)) => known.insert(key, level),
        _ => known,
    }
}

impl LufsCache {
    /// A memory without measurements.
    pub fn new() -> (r: Self)
        ensures
            r@ == Map::<Seq<char>, Level>::empty(),
    {
        LufsCache { entries: Vec::new() }
    }

    /// The position of the last entry for `key`.
    fn find(&self, key: &str) -> (r: Option<usize>)
        ensures
            match r {
                Some(i) => {
                    &&& i < self.entries@.len()
                    &&& self.entries@[i as int].0@ == key@
                    &&& forall|j: int|
                        i < j < self.entries@.len() ==> (#[trigger] self.entries@[j]).0@ != key@
                },
                None => forall|j: int|
                    0 <= j < self.entries@.len() ==> (#[trigger] self.entries@[j]).0@ != key@,
            },
    {
        let mut i: usize = self.entries.len();
        while i > 0
            invariant
                i <= self.entries@.len(),
                forall|j: int|
                    i <= j < self.entries@.len() ==> (#[trigger] self.entries@[j]).0@ != key@,
            decreases i,
        {
            i = i - 1;
            if text::same_text(self.entries[i].0.as_str(), key) {
                return Some(i);
            }
        }
        None
    }

    /// The measurement of the file `key`, if there is one in memory.
    pub fn cache_get(&self, key: &str) -> (r: Option<Level>)
        ensures
            r == if self@.contains_key(key@) {
                Some(self@[key@])
            } else {
                None
            },
    {
        match self.find(key) {
            Some(i) => {
                proof {
                    let (k, level) = self.entries@[i as int];
                    lemma_last_entry_counts(self.entries@, i as int, k, level);
                }
                Some(self.entries[i].1)
            },
            None => {
                proof {
                    lemma_unmeasured(self.entries@, key@);
                }
                None
            },
        }
    }

    /// Remembers the measurement of the file `key`.
    pub fn cache_set(&mut self, key: String, level: Level)
        ensures
            final(self)@ == old(self)@.insert(key@, level),
    {
        match self.find(key.as_str()) {
            Some(i) => {
                proof {
                    lemma_last_entry_counts(self.entries@, i as int, key, level);
                }
                self.entries.set(i, (key, level));
            },
            None => {
                let ghost before = self.entries@;
                self.entries.push((key, level));
                assert(self.entries@.drop_last() =~= before);
            },
        }
    }

    /// Goes on looking for the loudness of the file `key`: takes in what the
    /// caller found out and says what it is to do next.
    pub fn gain_db_for_with_lufs(&mut self, key: String, answer: LoudnessAnswer) -> (r:
        LoudnessStep)
        ensures
            r == loudness_step(old(self)@, key@, answer),
            final(self)@ == known_after(old(self)@, key@, answer),
    {
        match answer {
            LoudnessAnswer::Asked => match self.cache_get(key.as_str()) {
                Some(level) => LoudnessStep::Use(level),
                None => LoudnessStep::ReadSidecar,
            },
            LoudnessAnswer::Sidecar(Some(level)) => {
                self.cache_set(key, level);
                LoudnessStep::Use(level)
            },
            LoudnessAnswer::Sidecar(None) => LoudnessStep::Measure,
            LoudnessAnswer::Measured(Some(level)) => {
                self.cache_set(key, level);
                LoudnessStep::Store(level)
            },
            LoudnessAnswer::Measured(None) => LoudnessStep::Unknown,
        }
    }
}

/// A loudness that was found once, from its file or by measuring, is answered
/// from memory whenever it is asked for again, and that of other files is not
/// touched.
pub proof fn law_measured_once(
    known: Map<Seq<char>, Level>,
    key: Seq<char>,
    answer: LoudnessAnswer,
    level: Level,
    other: Seq<char>,
)
    requires
        loudness_step(known, key, answer) == LoudnessStep::Use(level) || loudness_step(
            known,
            key,
            answer,
        ) == LoudnessStep::Store(level),
    ensures
        loudness_step(known_after(known, key, answer), key, LoudnessAnswer::Asked)
            == LoudnessStep::Use(level),
        other != key ==> loudness_step(
            known_after(known, key, answer),
            other,
            LoudnessAnswer::Asked,
        ) == loudness_step(known, other, LoudnessAnswer::Asked),
{
}

/// How looking for a loudness goes, from being asked for it to the end.
#[verifier::ext_equal]
pub struct Lookup {
    /// The loudness, where it was found.
    pub found: Option<Level>,
    /// What is in memory afterwards.
    pub known: Map<Seq<char>, Level>,
    /// Whether the file of the measurement was looked at.
    pub read: bool,
    /// Whether the audio was measured.
    pub measured: bool,
    /// What was written to the file of the measurement.
    pub stored: Option<Level>,
}

/// How looking for the loudness of the file `key` goes on after `answer`, where
/// the file of the measurement holds `sidecar` and measuring the audio gives
/// `measurement`.
pub open spec fn lookup_after(
    known: Map<Seq<char>, Level>,
    key: Seq<char>,
    answer: LoudnessAnswer,
    sidecar: Option<Level>,
    measurement: Option<Level>,
) -> Lookup
    decreases
        match answer {
            LoudnessAnswer::Asked => 2nat,
            LoudnessAnswer::Sidecar(_) => 1nat,
            LoudnessAnswer::Measured(_) => 0nat,
        },
{
    let after = known_after(known, key, answer);
    let end = Lookup { found: None, known: after, read: false, measured: false, stored: None };
    match loudness_step(known, key, answer) {
        LoudnessStep::Use(level) => Lookup { found: Some(level), ..end },
        LoudnessStep::ReadSidecar => Lookup {
            read: true,
            ..lookup_after(after, key, LoudnessAnswer::Sidecar(sidecar), sidecar, measurement)
        },
        LoudnessStep::Measure => Lookup {
            measured: true,
            ..lookup_after(after, key, LoudnessAnswer::Measured(measurement), sidecar, measurement)
        },
        LoudnessStep::Store(level) => Lookup { found: Some(level), stored: Some(level), ..end },
        LoudnessStep::Unknown => end,
    }
}

/// How looking for the loudness of the file `key` goes.
pub open spec fn lookup(
    known: Map<Seq<char>, Level>,
    key: Seq<char>,
    sidecar: Option<Level>,
    measurement: Option<Level>,
) -> Lookup {
    lookup_after(known, key, LoudnessAnswer::Asked, sidecar, measurement)
}

/// The loudness of a file is the one in memory, else the one in the file of its
/// measurement, else the measured one. The file is looked at only where memory
/// has none, and the audio is measured only where neither has one. Exactly a
/// measured loudness is written to the file, as it was measured. A loudness that
/// was found is in memory afterwards, so that the next lookup gives it again and
/// looks at nothing; where none was found, nothing is stored anywhere.
pub proof fn law_loudness_sources_come_in_order(
    known: Map<Seq<char>, Level>,
    key: Seq<char>,
    sidecar: Option<Level>,
    measurement: Option<Level>,
    later_sidecar: Option<Level>,
    later_measurement: Option<Level>,
)
    ensures
        ({
            let run = lookup(known, key, sidecar, measurement);
            &&& run.found == if known.contains_key(key) {
                Some(known[key])
            } else if sidecar is Some {
                sidecar
            } else {
                measurement
            }
            &&& run.read <==> !known.contains_key(key)
            &&& run.measured <==> !known.contains_key(key) && sidecar is None
            &&& run.stored == if run.measured {
                measurement
            } else {
                None
            }
            &&& run.found matches Some(level) ==> {
                &&& run.known == known.insert(key, level)
                &&& lookup(run.known, key, later_sidecar, later_measurement) == Lookup {
                    found: Some(level),
                    known: run.known,
                    read: false,
                    measured: false,
                    stored: None,
                }
            }
            &&& run.found is None ==> run.known == known && run.stored is None
        }),
{
    reveal_with_fuel(lookup_after, 3);
    if known.contains_key(key) {
        assert(known.insert(key, known[key]) =~= known);
    }
}

/// Lines that do not give the loudness are passed over, however many there are.
pub proof fn law_noise_is_passed_over(noise: Seq<Seq<char>>, rest: Seq<Seq<char>>)
    requires
        forall|i: int| 0 <= i < noise.len() ==> reported_on(#[trigger] noise[i]) is None,
    ensures
        first_reported(noise + rest) == first_reported(rest),
    decreases noise.len(),
{
    if noise.len() == 0 {
        assert(noise + rest =~= rest);
    } else {
        assert((noise + rest)[0] == noise[0]);
        assert((noise + rest).skip(1) =~= noise.skip(1) + rest);
        law_noise_is_passed_over(noise.skip(1), rest);
    }
}

/// A loudness that is written as the analyzer writes it, with white space in
/// front and a comma behind, is read as it was written, unless it has quotes of
/// its own at an end.
pub proof fn law_reported_loudness_is_read(indent: Seq<char>, value: Seq<char>)
    requires
        forall|i: int| 0 <= i < indent.len() ==> text::is_space(#[trigger] indent[i]),
        value.len() > 0 ==> value[0] != '"' && value.last() != '"',
    ensures
        reported_on(indent + ("\"input_i\""@ + " : \""@ + value + "\","@)) == Some(value),
{
    reveal_strlit("\"input_i\"");
    reveal_strlit(" : \"");
    reveal_strlit("\",");
    reveal_strlit(":");
    let key = "\"input_i\""@;
    let line = key + " : \""@ + value + "\","@;
    let quoted = seq!['"'] + value + seq!['"'];
    lemma_trim_indent(indent, line);
    assert(line[0] == '"' && line.last() == ',');
    assert(text::trim(indent + line) == line);
    assert(key =~= line.subrange(0, key.len() as int));
    let rest = line.skip(key.len() as int);
    let colon = seq![':', ' '] + quoted + seq![','];
    assert(rest[0] == ' ');
    assert(rest.skip(1) =~= colon);
    assert(text::trim_start(colon, CharClass::Whitespace) == colon);
    assert(text::trim_start(rest, CharClass::Whitespace) == colon);
    assert(":"@ =~= colon.subrange(0, 1));
    let after = colon.skip(1);
    let with_comma = quoted + seq![','];
    assert(after[0] == ' ');
    assert(after.skip(1) =~= with_comma);
    assert(with_comma[0] == '"' && with_comma.last() == ',');
    assert(text::trim_start(with_comma, CharClass::Whitespace) == with_comma);
    assert(text::trim(after) == with_comma);
    assert(with_comma.drop_last() =~= quoted);
    assert(quoted[0] == '"' && quoted.last() == '"');
    assert(text::trim_end(quoted, CharClass::Comma) == quoted);
    assert(text::trim_end(with_comma, CharClass::Comma) == quoted);
    assert(text::trim(quoted) == quoted);
    let tail = value + seq!['"'];
    assert(quoted.skip(1) =~= tail);
    if value.len() > 0 {
        assert(tail[0] == value[0]);
        assert(text::trim_start(tail, CharClass::Quote) == tail);
        assert(tail.drop_last() =~= value);
        assert(text::trim_end(value, CharClass::Quote) == value);
        assert(text::trim_end(tail, CharClass::Quote) == value);
    } else {
        assert(tail[0] == '"');
        assert(tail.skip(1) =~= value);
        assert(text::trim_start(value, CharClass::Quote) == value);
        assert(text::trim_start(tail, CharClass::Quote) == value);
    }
}

/// White space in front of a text is trimmed off.
proof fn lemma_trim_indent(indent: Seq<char>, s: Seq<char>)
    requires
        forall|i: int| 0 <= i < indent.len() ==> text::is_space(#[trigger] indent[i]),
    ensures
        text::trim(indent + s) == text::trim(s),
    decreases indent.len(),
{
    if indent.len() == 0 {
        assert(indent + s =~= s);
    } else {
        assert((indent + s)[0] == indent[0]);
        assert((indent + s).skip(1) =~= indent.skip(1) + s);
        lemma_trim_indent(indent.skip(1), s);
    }
}

/// The last name of a path that ends in a directory, a separator and a name is
/// that name.
proof fn lemma_split_joined(dir: Seq<char>, name: Seq<char>)
    requires
        dir.len() > 1,
        body_start(dir) == 0,
        name.len() > 0,
        !name.contains('/'),
    ensures
        body_start(dir + "/"@ + name) == 0,
        last_component(dir + "/"@ + name) == name,
        before_last(dir + "/"@ + name) == dir,
{
    reveal_strlit("/");
    let p = dir + "/"@ + name;
    assert(p[0] == dir[0] && p[1] == dir[1]);
    assert(p.skip(0) =~= p);
    text::lemma_last_index(p, '/');
    let k = text::last_index(p, '/');
    assert(p[dir.len() as int] == '/');
    assert(k == dir.len()) by {
        if k > dir.len() {
            assert(p[k] == name[k - dir.len() - 1]);
            assert(name.contains('/'));
        }
    }
    assert(last_component(p) =~= name);
    assert(before_last(p) =~= dir);
}

/// The directories of the cache are in the form in which paths are taken apart.
proof fn lemma_cache_dirs_are_normal(track: Track)
    requires
        cache_service::cache_dir_text_for(track.source) is Some,
    ensures
        ({
            let dir = cache_service::cache_dir_text_for(track.source)->0;
            &&& dir.len() > 1
            &&& body_start(dir) == 0
            &&& dir.last() != '/'
            &&& normal_end(dir) == dir
        }),
{
    reveal_strlit("cache");
    reveal_strlit("youtube");
    reveal_strlit("spotify");
    reveal_strlit("/");
    reveal_strlit(".");
    let dir = cache_service::cache_dir_text_for(track.source)->0;
    let sub = if track.source is YouTube {
        "youtube"@
    } else {
        "spotify"@
    };
    assert(dir == "cache"@ + "/"@ + sub);
    assert(!sub.contains('/'));
    assert(body_start("cache"@) == 0);
    lemma_split_joined("cache"@, sub);
    assert(dir.last() == sub.last());
}

/// The measurement of a cached track is kept in the track's directory, under
/// the track's name, and is not itself taken for the track.
pub proof fn law_measurement_sits_beside_the_track(track: Track, ext: Seq<char>)
    requires
        cache_service::cache_stem(track) is Some,
        cache_service::is_audio_ext(ext),
        !ext.contains('/'),
    ensures
        ({
            let dir = cache_service::cache_dir_text_for(track.source)->0;
            let stem = cache_service::cache_stem(track)->0;
            let sidecar = stem + "."@ + SIDECAR_EXT@;
            &&& sidecar_of(dir + "/"@ + (stem + "."@ + ext)) == Some(dir + "/"@ + sidecar)
            &&& !cache_service::is_cached_name(stem, sidecar)
        }),
{
    reveal_strlit(".");
    reveal_strlit("..");
    reveal_strlit("_");
    let dir = cache_service::cache_dir_text_for(track.source)->0;
    let stem = cache_service::cache_stem(track)->0;
    let name = stem + "."@ + ext;
    let p = dir + "/"@ + name;
    lemma_cache_dirs_are_normal(track);
    cache_service::law_cached_tracks_stay_in_place(track);
    cache_service::law_sanitized_names_are_safe(track.metadata.title@);
    assert(stem.len() >= 3);
    assert(!name.contains('/')) by {
        if name.contains('/') {
            let k = choose|k: int| 0 <= k < name.len() && name[k] == '/';
            if k < stem.len() {
                assert(stem[k] == '/');
            } else if k > stem.len() {
                assert(ext[k - stem.len() - 1] == '/');
            }
        }
    }
    lemma_split_joined(dir, name);
    assert(name.len() > 2);
    assert(normal_end(p) == p);
    assert(file_name(p) == Some(name));
    text::lemma_last_index(name, '.');
    let dot = text::last_index(name, '.');
    assert(name[stem.len() as int] == '.');
    assert(dot == stem.len()) by {
        if dot > stem.len() {
            assert(ext[dot - stem.len() - 1] == '.');
            assert(ext.contains('.'));
        }
    }
    assert(name.take(dot) =~= stem);
    cache_service::law_measurements_are_not_cached(stem);
}

/// Whether a text is the name of something in a directory: it is not empty, holds
/// no separator, and is not the directory itself.
pub open spec fn is_plain(name: Seq<char>) -> bool {
    name.len() > 0 && !name.contains('/') && name != seq!['.']
}

/// What stands last in a path, and before it, is told apart by the last separator.
proof fn lemma_path_ends(lead: Seq<char>, name: Seq<char>)
    requires
        is_plain(name),
        lead.len() == 0 || lead.last() == '/',
    ensures
        ({
            let p = lead + name;
            &&& body_start(p) <= lead.len()
            &&& p.len() > body_start(p)
            &&& last_component(p) == name
            &&& normal_end(p) == p
            &&& before_last(p) == if lead.len() == body_start(p) {
                lead
            } else {
                lead.drop_last()
            }
        }),
{
    reveal_strlit(".");
    let p = lead + name;
    let start = body_start(p);
    if lead.len() == 0 {
        assert(p =~= name);
        assert(name.contains(name[0]));
        if name[0] == '.' && name.len() == 1 {
            assert(name =~= seq!['.']);
        } else if name.len() > 1 {
            assert(name.contains(name[1]));
        }
    }
    assert(start <= lead.len());
    let body = p.skip(start);
    text::lemma_last_index(body, '/');
    let k = text::last_index(body, '/');
    if lead.len() > start {
        assert(body[lead.len() - 1 - start] == lead.last());
        if k > lead.len() - 1 - start {
            assert(body[k] == name[k + start - lead.len()]);
        }
        assert(k == lead.len() - 1 - start);
        assert(before_last(p) =~= lead.drop_last());
    } else {
        if k >= 0 {
            assert(body[k] == name[k]);
        }
        assert(k == -1);
        assert(before_last(p) =~= lead);
    }
    assert(last_component(p) =~= name);
    assert("."@ =~= seq!['.']);
}

/// The measurement of a file is kept in the same directory, under the file's name
/// with `lufs` in place of what follows its last full stop, or behind the name where
/// it has none but at its start. What precedes the name is kept as it is: nothing,
/// the root, or a path to a directory.
pub proof fn law_measurements_stay_with_their_file(
    path: &str,
    r: Option<String>,
    lead: Seq<char>,
    parent: Seq<char>,
    dir: Seq<char>,
    base: Seq<char>,
    ext: Seq<char>,
)
    requires
        call_ensures(sidecar_path, (path,), r),
        path@ == lead + base + "."@ + ext || (path@ == lead + base && !base.skip(1).contains('.')),
        is_plain(base),
        !ext.contains('.'),
        !ext.contains('/'),
        base != seq!['.', '.'],
        lead.len() == 0 || lead == seq!['/'] || (lead == parent + dir + seq!['/'] && is_plain(dir)
            && (parent.len() == 0 || parent.last() == '/')),
    ensures
        r matches Some(sidecar) && sidecar@ == lead + base + "."@ + "lufs"@,
{
    reveal_strlit(".");
    reveal_strlit("..");
    reveal_strlit("/");
    let with_ext = path@ == lead + base + "."@ + ext;
    let name = if with_ext {
        base + "."@ + ext
    } else {
        base
    };
    assert(path@ =~= lead + name);
    assert(!name.contains('/')) by {
        if name.contains('/') {
            let k = choose|k: int| 0 <= k < name.len() && name[k] == '/';
            if k < base.len() {
                assert(base[k] == '/');
            } else if k > base.len() {
                assert(ext[k - base.len() - 1] == '/');
            }
        }
    }
    if with_ext {
        assert(name.len() > 1);
    }
    assert(is_plain(name));
    lemma_path_ends(lead, name);
    assert(name != ".."@) by {
        if name == ".."@ {
            if with_ext {
                assert(base.len() == 1);
                assert(name[0] == base[0]);
                assert(base =~= seq!['.']);
            } else {
                assert(base =~= seq!['.', '.']);
            }
        }
    }
    text::lemma_last_index(name, '.');
    let dot = text::last_index(name, '.');
    if with_ext {
        assert(name[base.len() as int] == '.');
        if dot > base.len() {
            assert(ext[dot - base.len() - 1] == '.');
        }
        assert(name.take(dot) =~= base);
    } else if dot > 0 {
        assert(base.skip(1)[dot - 1] == '.');
    }
    assert(stem_of(name) == base);
    let p = lead + name;
    if lead.len() == 0 {
        assert(before_last(p) =~= lead);
        assert(normal_end(lead) == lead);
    } else if lead == seq!['/'] {
        assert(p[0] == '/');
        assert(before_last(p) == lead);
        assert(body_start(lead) == 1);
        assert(normal_end(lead) == lead);
    } else {
        assert(lead.len() > body_start(p));
        assert(lead.drop_last() =~= parent + dir);
        lemma_path_ends(parent, dir);
        let whole = parent + dir;
        assert(whole.last() == dir.last());
        assert(dir.contains(dir.last()));
        assert(lead =~= whole + "/"@);
    }
    assert(r->0@ =~= lead + base + "."@ + "lufs"@);
}

/// A path that ends in the parent directory leads to no file, so nothing is
/// measured for it.
pub proof fn law_parents_have_no_measurement(path: &str, r: Option<String>, lead: Seq<char>)
    requires
        call_ensures(sidecar_path, (path,), r),
        path@ == lead + seq!['.', '.'],
        lead.len() == 0 || lead.last() == '/',
    ensures
        r is None,
{
    reveal_strlit("..");
    let name = seq!['.', '.'];
    assert(name.len() == 2);
    lemma_path_ends(lead, name);
    assert(".."@ =~= name);
}

/// A line gives the loudness exactly where, without the white space around it, it
/// is the key and a colon, with white space between them or not. The value is what
/// follows, without white space, commas behind it, and quotes.
pub proof fn law_report_lines_are_told_by_their_key(
    line: Seq<char>,
    gap: Seq<char>,
    value: Seq<char>,
)
    requires
        forall|i: int| 0 <= i < gap.len() ==> text::is_space(#[trigger] gap[i]),
    ensures
        text::trim(line) == "\"input_i\""@ + gap + ":"@ + value ==> reported_on(line) == Some(
            text::trim_both(
                text::trim(text::trim_end(text::trim(value), CharClass::Comma)),
                CharClass::Quote,
            ),
        ),
        !("\"input_i\""@.is_prefix_of(text::trim(line))) ==> reported_on(line) is None,
        reported_on(line) is Some ==> exists|space: Seq<char>, rest: Seq<char>|
            text::trim(line) == #[trigger] ("\"input_i\""@ + space + ":"@ + rest) && forall|i: int|
                0 <= i < space.len() ==> text::is_space(#[trigger] space[i]),
{
    let key = "\"input_i\""@;
    let t = text::trim(line);
    reveal_strlit(":");
    if t == key + gap + ":"@ + value {
        let rest = gap + (":"@ + value);
        assert(key =~= t.subrange(0, key.len() as int));
        assert(t.skip(key.len() as int) =~= rest);
        lemma_trim_start_gap(gap, ":"@ + value);
        assert((":"@ + value)[0] == ':');
        assert(text::trim_start(":"@ + value, CharClass::Whitespace) == ":"@ + value);
        assert(":"@ =~= (":"@ + value).subrange(0, 1));
        assert((":"@ + value).skip(1) =~= value);
    }
    if reported_on(line) is Some {
        let rest = t.skip(key.len() as int);
        assert(t =~= key + rest);
        let k = text::lemma_trim_start_at(rest, CharClass::Whitespace);
        let space = rest.take(k);
        let after = rest.skip(k);
        assert(after =~= ":"@ + after.skip(1));
        assert(t =~= key + space + ":"@ + after.skip(1));
        assert forall|i: int| 0 <= i < space.len() implies text::is_space(#[trigger] space[i]) by {
            assert(CharClass::Whitespace.has(rest[i]));
        }
    }
}

proof fn lemma_trim_start_gap(gap: Seq<char>, s: Seq<char>)
    requires
        forall|i: int| 0 <= i < gap.len() ==> text::is_space(#[trigger] gap[i]),
    ensures
        text::trim_start(gap + s, CharClass::Whitespace) == text::trim_start(
            s,
            CharClass::Whitespace,
        ),
    decreases gap.len(),
{
    if gap.len() == 0 {
        assert(gap + s =~= s);
    } else {
        assert((gap + s)[0] == gap[0]);
        assert((gap + s).skip(1) =~= gap.skip(1) + s);
        lemma_trim_start_gap(gap.skip(1), s);
    }
}

/// The loudness is what the first line gives that gives one. Where no line does,
/// or the analyzer failed, there is none.
pub proof fn law_first_report_counts(
    succeeded: bool,
    stderr: &str,
    found: Option<String>,
    r: Option<String>,
    before: Seq<Seq<char>>,
    line: Seq<char>,
    after: Seq<Seq<char>>,
)
    requires
        call_ensures(parse_input_i, (stderr,), found),
        call_ensures(measured_text, (succeeded, stderr), r),
        forall|i: int| 0 <= i < before.len() ==> reported_on(#[trigger] before[i]) is None,
    ensures
        text::lines(stderr@) == before ==> found is None,
        text::lines(stderr@) == before + (seq![line] + after) && reported_on(line) is Some
            ==> found is Some && found->0@ == reported_on(line)->0,
        !succeeded ==> r is None,
        succeeded ==> text::text_of(r) == text::text_of(found),
{
    law_noise_is_passed_over(before, seq![]);
    assert(before + Seq::<Seq<char>>::empty() =~= before);
    law_noise_is_passed_over(before, seq![line] + after);
    assert((seq![line] + after)[0] == line);
}

/// The analyzer is called on the file, and reports in a form that can be read.
pub proof fn law_analyzer_is_called_on_the_file(path: &str, r: Vec<String>)
    requires
        call_ensures(measure_args, (path,), r),
    ensures
        r@.len() == 10,
        r@[0]@ == "-hide_banner"@,
        r@[1]@ == "-nostats"@,
        r@[2]@ == "-nostdin"@,
        r@[3]@ == "-i"@,
        r@[4]@ == path@,
        r@[5]@ == "-af"@,
        r@[6]@ == "loudnorm=I=-16:print_format=json"@,
        r@[7]@ == "-f"@,
        r@[8]@ == "null"@,
        r@[9]@ == "-"@,
{
    let args = text::texts(r@);
    assert(args.len() == r@.len());
    assert(args[0] == r@[0]@ && args[1] == r@[1]@ && args[2] == r@[2]@);
    assert(args[3] == r@[3]@ && args[4] == r@[4]@ && args[5] == r@[5]@);
    assert(args[6] == r@[6]@ && args[7] == r@[7]@ && args[8] == r@[8]@);
    assert(args[9] == r@[9]@);
}

/// What was remembered last for a file is what memory gives for it. Other files
/// keep what they had, and a new memory has nothing.
pub proof fn law_memory_keeps_the_last(
    cache: &mut LufsCache,
    key: String,
    level: Level,
    after: LufsCache,
    asked: &str,
    before_get: Option<Level>,
    after_get: Option<Level>,
    fresh: LufsCache,
    fresh_get: Option<Level>,
)
    requires
        call_ensures(LufsCache::cache_set, (cache, key, level), ()),
        after == *final(cache),
        call_ensures(LufsCache::cache_get, (&*old(cache), asked), before_get),
        call_ensures(LufsCache::cache_get, (&after, asked), after_get),
        call_ensures(LufsCache::new, (), fresh),
        call_ensures(LufsCache::cache_get, (&fresh, asked), fresh_get),
    ensures
        asked@ == key@ ==> after_get == Some(level),
        asked@ != key@ ==> after_get == before_get,
        fresh_get is None,
{
}

/// Memory is asked first, then the file of the measurement, and only then is the
/// audio measured. A measured loudness is stored, one that was read is not, and
/// both are remembered for that file alone.
pub proof fn law_each_answer_leads_on(
    cache: &mut LufsCache,
    key: String,
    answer: LoudnessAnswer,
    r: LoudnessStep,
)
    requires
        call_ensures(LufsCache::gain_db_for_with_lufs, (cache, key, answer), r),
    ensures
        answer is Asked && old(cache)@.contains_key(key@) ==> r == LoudnessStep::Use(
            old(cache)@[key@],
        ),
        answer is Asked && !old(cache)@.contains_key(key@) ==> r == LoudnessStep::ReadSidecar,
        answer matches LoudnessAnswer::Sidecar(found) ==> {
            &&& found is None ==> r == LoudnessStep::Measure
            &&& found is Some ==> r == LoudnessStep::Use(found->0)
            &&& found is Some ==> final(cache)@ == old(cache)@.insert(key@, found->0)
        },
        answer matches LoudnessAnswer::Measured(found) ==> {
            &&& found is None ==> r == LoudnessStep::Unknown
            &&& found is Some ==> r == LoudnessStep::Store(found->0)
            &&& found is Some ==> final(cache)@ == old(cache)@.insert(key@, found->0)
        },
        answer is Asked || answer == LoudnessAnswer::Sidecar(None) || answer
            == LoudnessAnswer::Measured(None) ==> final(cache)@ == old(cache)@,
{
}

} // verus!
