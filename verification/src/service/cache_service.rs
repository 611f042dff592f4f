//! The on-disk cache of fetched tracks. A track is kept as
//! `cache/<source>/<title>_<id>.<ext>`, with whatever container the downloader
//! produced, so that it need not be fetched again. Files directly under
//! `cache/`, where tracks used to be kept, are still found.
//!
//! Paths use `/`. Directories are read by the caller, which passes the names of
//! their entries, `None` for a name that is not valid Unicode.

use crate::player::track::{Track, TrackSource};
use crate::service::normalize_service::{LEGACY_SIDECAR_EXT, SIDECAR_EXT};
use crate::text;
use crate::text::CharClass;
use crate::units::Nanos;
use vstd::prelude::*;

verus! {

/// The directory that holds the cache.
pub const CACHE_DIR: &'static str = "cache";

/// Where tracks of YouTube are kept in it.
pub const YOUTUBE_SUBDIR: &'static str = "youtube";

/// Where tracks of Spotify are kept in it.
pub const SPOTIFY_SUBDIR: &'static str = "spotify";

/// The longest cleaned name, in characters.
pub const MAX_FILENAME_STEM: usize = 80;

/// The directory that holds the cached tracks of `source`. Files on the host
/// are never cached.
pub open spec fn cache_dir_text_for(source: TrackSource) -> Option<Seq<char>> {
    match source {
        TrackSource::YouTube => Some(CACHE_DIR@ + "/"@ + YOUTUBE_SUBDIR@),
        TrackSource::Spotify => Some(CACHE_DIR@ + "/"@ + SPOTIFY_SUBDIR@),
        TrackSource::Local(_) => None,
    }
}

/// Names the directory that holds the cache.
pub fn cache_dir() -> (r: String)
    ensures
        r@ == CACHE_DIR@,
{
    CACHE_DIR.to_string()
}

/// Names the directory that holds the cached tracks of `source`.
pub fn cache_dir_for(source: &TrackSource) -> (r: Option<String>)
    ensures
        text::text_of(r) == cache_dir_text_for(*source),
{
    let sub = match source {
        TrackSource::YouTube => YOUTUBE_SUBDIR,
        TrackSource::Spotify => SPOTIFY_SUBDIR,
        TrackSource::Local(_) => {
            return None;
        },
    };
    let mut dir = cache_dir();
    dir.append("/");
    dir.append(sub);
    Some(dir)
}

/// The characters that file names cannot hold everywhere.
pub open spec fn is_reserved(c: char) -> bool {
    c == '/' || c == '\\' || c == '\0' || c == ':' || c == '*' || c == '?' || c == '"' || c == '<'
        || c == '>' || c == '|'
}

/// What stands for `c` in a file name.
pub open spec fn clean_char(c: char) -> char {
    if is_reserved(c) || text::is_control(c) {
        '_'
    } else {
        c
    }
}

/// `name` with reserved and control characters replaced and without full stops
/// and white space at the ends.
pub open spec fn clean_whole(name: Seq<char>) -> Seq<char> {
    text::trim_both(name.map_values(|c: char| clean_char(c)), CharClass::DotOrWhitespace)
}

/// What a file name keeps of `name`: the cleaned name, cut to its greatest
/// length. It may be empty.
pub open spec fn clean(name: Seq<char>) -> Seq<char> {
    let whole = clean_whole(name);
    if whole.len() > MAX_FILENAME_STEM {
        whole.take(MAX_FILENAME_STEM as int)
    } else {
        whole
    }
}

/// The file name for `name`, which is never empty.
pub open spec fn sanitized(name: Seq<char>) -> Seq<char> {
    if clean(name).len() == 0 {
        "track"@
    } else {
        clean(name)
    }
}

/// What stands for `c` in a file name.
fn cleaned_char(c: char) -> (r: char)
    ensures
        r == clean_char(c),
{
    if c == '/' || c == '\\' || c == '\0' || c == ':' || c == '*' || c == '?' || c == '"' || c
        == '<' || c == '>' || c == '|' || text::char_is_control(c) {
        '_'
    } else {
        c
    }
}

/// Keeps of `name` what a file name can hold.
fn cleaned(name: &str) -> (r: Vec<char>)
    ensures
        r@ == clean(name@),
{
    let chars = text::chars_of(name);
    let mut replaced: Vec<char> = Vec::new();
    for i in 0..chars.len()
        invariant
            replaced@ == chars@.take(i as int).map_values(|c: char| clean_char(c)),
    {
        replaced.push(cleaned_char(chars[i]));
        assert(replaced@ =~= chars@.take(i + 1).map_values(|c: char| clean_char(c)));
    }
    assert(chars@.take(chars.len() as int) =~= chars@);
    let whole = text::trimmed_both(&replaced, CharClass::DotOrWhitespace);
    if whole.len() > MAX_FILENAME_STEM {
        text::chars_between(&whole, 0, MAX_FILENAME_STEM)
    } else {
        whole
    }
}

/// Turns `name` into a file name.
pub fn sanitize(name: &str) -> (r: String)
    ensures
        r@ == sanitized(name@),
{
    let kept = cleaned(name);
    if kept.len() == 0 {
        "track".to_string()
    } else {
        text::string_of(&kept)
    }
}

/// The name, without extension, that identifies `track` in the cache. There is
/// none for a file on the host, nor where nothing of the track's id is left in
/// a file name.
pub open spec fn cache_stem(track: Track) -> Option<Seq<char>> {
    if track.source is Local || clean(track.metadata.id@).len() == 0 {
        None
    } else {
        Some(sanitized(track.metadata.title@) + "_"@ + clean(track.metadata.id@))
    }
}

/// Names `track` in the cache.
pub fn cache_stem_for(track: &Track) -> (r: Option<String>)
    ensures
        text::text_of(r) == cache_stem(*track),
{
    match &track.source {
        TrackSource::YouTube | TrackSource::Spotify => {
            let id = cleaned(track.metadata.id.as_str());
            if id.len() == 0 {
                return None;
            }
            let mut stem = sanitize(track.metadata.title.as_str());
            stem.append("_");
            stem.append(text::string_of(&id).as_str());
            Some(stem)
        },
        TrackSource::Local(_) => None,
    }
}

/// Whether `track` can be cached.
pub fn is_cacheable(track: &Track) -> (r: bool)
    ensures
        r == (cache_stem(*track) is Some),
{
    cache_stem_for(track).is_some()
}

/// Whether `ext` can be the extension of cached audio: it is not empty, has no
/// full stop in it, and is neither that of a half-written download nor that of
/// a file of measurements.
pub open spec fn is_audio_ext(ext: Seq<char>) -> bool {
    &&& ext.len() > 0
    &&& !ext.contains('.')
    &&& ext != "part"@
    &&& ext != SIDECAR_EXT@
    &&& ext != LEGACY_SIDECAR_EXT@
}

/// Whether `name` is the audio that is cached under `stem`.
pub open spec fn is_cached_name(stem: Seq<char>, name: Seq<char>) -> bool {
    text::strip_prefix(name, stem + "."@) matches Some(ext) && is_audio_ext(ext)
}

/// Whether a directory entry is the audio that is cached under `stem`.
pub open spec fn is_cached_entry(stem: Seq<char>, name: Option<String>) -> bool {
    name matches Some(name) && is_cached_name(stem, name@)
}

/// `stem`, followed by `suffix`.
fn with_suffix(stem: &str, suffix: &str) -> (r: Vec<char>)
    ensures
        r@ == stem@ + suffix@,
{
    let mut whole = stem.to_string();
    whole.append(suffix);
    text::chars_of(whole.as_str())
}

/// Whether `name` is the audio that is cached under `stem`.
fn names_cached(stem: &str, name: &str) -> (r: bool)
    ensures
        r == is_cached_name(stem@, name@),
{
    match text::stripped_prefix(&text::chars_of(name), &with_suffix(stem, ".")) {
        None => false,
        Some(ext) => {
            ext.len() > 0 && !text::holds_char(&ext, '.') && !text::same_chars(
                &ext,
                &text::chars_of("part"),
            ) && !text::same_chars(&ext, &text::chars_of(SIDECAR_EXT)) && !text::same_chars(
                &ext,
                &text::chars_of(LEGACY_SIDECAR_EXT),
            )
        },
    }
}

/// The position of the first directory entry that is the audio cached under
/// `stem`.
pub fn find_in_dir(names: &Vec<Option<String>>, stem: &str) -> (r: Option<usize>)
    ensures
        match r {
            Some(i) => {
                &&& i < names@.len()
                &&& is_cached_entry(stem@, names@[i as int])
                &&& forall|j: int| 0 <= j < i ==> !is_cached_entry(stem@, #[trigger] names@[j])
            },
            None => forall|j: int|
                0 <= j < names@.len() ==> !is_cached_entry(stem@, #[trigger] names@[j]),
        },
{
    for i in 0..names.len()
        invariant
            forall|j: int| 0 <= j < i ==> !is_cached_entry(stem@, #[trigger] names@[j]),
    {
        if let Some(name) = &names[i] {
            if names_cached(stem, name.as_str()) {
                return Some(i);
            }
        }
    }
    None
}

/// The first of `names` that is the audio cached under `stem`.
pub open spec fn first_cached(stem: Seq<char>, names: Seq<Option<String>>) -> Option<Seq<char>>
    decreases names.len(),
{
    if names.len() == 0 {
        None
    } else if is_cached_entry(stem, names[0]) {
        Some(names[0]->0@)
    } else {
        first_cached(stem, names.skip(1))
    }
}

/// An entry that matches after none before it did is the first.
proof fn lemma_first_cached(stem: Seq<char>, names: Seq<Option<String>>, i: int)
    requires
        0 <= i <= names.len(),
        forall|j: int| 0 <= j < i ==> !is_cached_entry(stem, #[trigger] names[j]),
        i < names.len() ==> is_cached_entry(stem, names[i]),
    ensures
        first_cached(stem, names) == if i < names.len() {
            Some(names[i]->0@)
        } else {
            None
        },
    decreases names.len(),
{
    if i > 0 {
        assert forall|j: int| 0 <= j < i - 1 implies !is_cached_entry(
            stem,
            #[trigger] names.skip(1)[j],
        ) by {
            assert(names.skip(1)[j] == names[j + 1]);
        }
        assert(!is_cached_entry(stem, names[0]));
        lemma_first_cached(stem, names.skip(1), i - 1);
    }
}

/// Where the cache holds `track`, given the entries of the directory of its
/// source and those of the cache's root: the directory of the source comes
/// first.
pub open spec fn cached_path(
    track: Track,
    source_names: Seq<Option<String>>,
    root_names: Seq<Option<String>>,
) -> Option<Seq<char>> {
    match cache_stem(track) {
        None => None,
        Some(stem) => match first_cached(stem, source_names) {
            Some(name) => Some(cache_dir_text_for(track.source)->0 + "/"@ + name),
            None => match first_cached(stem, root_names) {
                Some(name) => Some(CACHE_DIR@ + "/"@ + name),
                None => None,
            },
        },
    }
}

/// Looks for `stem` among the entries of `dir`.
fn path_in(dir: String, names: &Vec<Option<String>>, stem: &str) -> (r: Option<String>)
    ensures
        match first_cached(stem@, names@) {
            Some(name) => text::text_of(r) == Some(dir@ + "/"@ + name),
            None => r is None,
        },
{
    match find_in_dir(names, stem) {
        None => {
            proof {
                lemma_first_cached(stem@, names@, names@.len() as int);
            }
            None
        },
        Some(i) => {
            proof {
                lemma_first_cached(stem@, names@, i as int);
            }
            match &names[i] {
                Some(name) => {
                    let mut path = dir;
                    path.append("/");
                    path.append(name.as_str());
                    Some(path)
                },
                None => None,
            }
        },
    }
}

/// Looks `track` up in the cache, whatever its extension there, first among
/// the entries of the directory of its source and then among those of the
/// cache's root.
pub fn find_cached(
    track: &Track,
    source_names: &Vec<Option<String>>,
    root_names: &Vec<Option<String>>,
) -> (r: Option<String>)
    ensures
        text::text_of(r) == cached_path(*track, source_names@, root_names@),
{
    let stem = match cache_stem_for(track) {
        Some(stem) => stem,
        None => {
            return None;
        },
    };
    if let Some(dir) = cache_dir_for(&track.source) {
        let found = path_in(dir, source_names, stem.as_str());
        if found.is_some() {
            return found;
        }
    }
    path_in(cache_dir(), root_names, stem.as_str())
}

/// A download into the cache.
pub struct Download {
    /// The name of the track in the cache.
    pub stem: String,
    /// The directory that the track is kept in.
    pub dir: String,
    /// What the downloader is called with.
    pub args: Vec<String>,
}

/// What the downloader is called with to fetch `track`: the best audio, written
/// under a name that marks it as half-written.
pub open spec fn download_args(track: Track) -> Seq<Seq<char>> {
    seq![
        "--no-warnings"@,
        "--no-playlist"@,
        "-f"@,
        "bestaudio/best"@,
        "-o"@,
        cache_dir_text_for(track.source)->0 + "/"@ + cache_stem(track)->0 + ".part.%(ext)s"@,
        track.fetched_from(),
    ]
}

/// How a track gets into the cache.
pub enum CachePlan {
    /// It is there already, at this path.
    Existing(String),
    /// It is downloaded.
    Download(Download),
}

/// Plans how `track` gets into the cache, given the entries of the directory of
/// its source and those of the cache's root: not at all where it is there. A
/// track that cannot be cached is refused.
pub fn cache_track(
    track: &Track,
    source_names: &Vec<Option<String>>,
    root_names: &Vec<Option<String>>,
) -> (r: Result<CachePlan, String>)
    ensures
        match r {
            Ok(CachePlan::Existing(path)) => cached_path(*track, source_names@, root_names@)
                == Some(path@),
            Ok(CachePlan::Download(download)) => {
                &&& cached_path(*track, source_names@, root_names@) is None
                &&& cache_stem(*track) == Some(download.stem@)
                &&& cache_dir_text_for(track.source) == Some(download.dir@)
                &&& text::texts(download.args@) == download_args(*track)
            },
            Err(reason) => cache_stem(*track) is None && reason@ == "track is not cacheable"@,
        },
{
    let stem = match cache_stem_for(track) {
        Some(stem) => stem,
        None => {
            return Err("track is not cacheable".to_string());
        },
    };
    if let Some(path) = find_cached(track, source_names, root_names) {
        return Ok(CachePlan::Existing(path));
    }
    let dir = match cache_dir_for(&track.source) {
        Some(dir) => dir,
        None => {
            return Err("track has no cache directory".to_string());
        },
    };
    let mut template = dir.clone();
    template.append("/");
    template.append(stem.as_str());
    template.append(".part.%(ext)s");
    let mut args: Vec<String> = Vec::new();
    args.push("--no-warnings".to_string());
    args.push("--no-playlist".to_string());
    args.push("-f".to_string());
    args.push("bestaudio/best".to_string());
    args.push("-o".to_string());
    args.push(template);
    args.push(track.input_url());
    assert(text::texts(args@) =~= download_args(*track));
    Ok(CachePlan::Download(Download { stem, dir, args }))
}

/// The last `n` lines of `s`, joined by vertical bars.
pub open spec fn tail_text(s: Seq<char>, n: int) -> Seq<char> {
    let all = text::lines(s);
    text::join(
        if all.len() > n {
            all.skip(all.len() - n)
        } else {
            all
        },
        " | "@,
    )
}

/// Writes why the downloader failed, from the status it ended with and what it
/// wrote: the last five lines of it are kept.
pub fn download_failure(status: &str, stderr: &str) -> (r: String)
    ensures
        r@ == "yt-dlp failed ("@ + status@ + "): "@ + tail_text(stderr@, 5),
{
    let all = text::lines_of(&text::chars_of(stderr));
    let start: usize = if all.len() > 5 {
        all.len() - 5
    } else {
        0
    };
    let mut tail: Vec<String> = Vec::new();
    for i in start..all.len()
        invariant
            start <= i <= all.len(),
            text::texts(tail@) == text::char_texts(all@).subrange(start as int, i as int),
    {
        let ghost before = tail@;
        tail.push(text::string_of(&all[i]));
        assert(text::texts(tail@) =~= text::texts(before).push(all@[i as int]@));
        assert(text::texts(tail@) =~= text::char_texts(all@).subrange(start as int, i + 1));
    }
    assert(text::texts(tail@) =~= if all.len() > 5 {
        text::char_texts(all@).skip(all.len() - 5)
    } else {
        text::char_texts(all@)
    });
    let mut out = "yt-dlp failed (".to_string();
    out.append(status);
    out.append("): ");
    out.append(text::joined(&tail, " | ").as_str());
    out
}

/// The extension of a finished download that still bears the name of a
/// half-written one.
pub open spec fn part_ext(stem: Seq<char>, name: Option<String>) -> Option<Seq<char>> {
    match name {
        None => None,
        Some(name) => match text::strip_prefix(name@, stem + ".part."@) {
            Some(ext) if ext.len() > 0 && !ext.contains('.') => Some(ext),
            _ => None,
        },
    }
}

/// Finds the download among the entries of its directory, once the downloader
/// is done: its position, and the name that it is to be given. It is an error
/// if there is none.
pub fn produced_file(names: &Vec<Option<String>>, stem: &str) -> (r: Result<
    (usize, String),
    String,
>)
    ensures
        match r {
            Ok((i, name)) => {
                &&& i < names@.len()
                &&& part_ext(stem@, names@[i as int]) matches Some(ext)
                &&& name@ == stem@ + "."@ + ext
                &&& forall|j: int| 0 <= j < i ==> part_ext(stem@, #[trigger] names@[j]) is None
            },
            Err(reason) => {
                &&& forall|j: int|
                    0 <= j < names@.len() ==> part_ext(stem@, #[trigger] names@[j]) is None
                &&& reason@ == "yt-dlp reported success but produced no output file"@
            },
        },
{
    let prefix = with_suffix(stem, ".part.");
    for i in 0..names.len()
        invariant
            prefix@ == stem@ + ".part."@,
            forall|j: int| 0 <= j < i ==> part_ext(stem@, #[trigger] names@[j]) is None,
    {
        if let Some(name) = &names[i] {
            if let Some(ext) = text::stripped_prefix(&text::chars_of(name.as_str()), &prefix) {
                if ext.len() > 0 && !text::holds_char(&ext, '.') {
                    let mut whole = stem.to_string();
                    whole.append(".");
                    whole.append(text::string_of(&ext).as_str());
                    return Ok((i, whole));
                }
            }
        }
    }
    Err("yt-dlp reported success but produced no output file".to_string())
}

/// Whether a directory entry is left over of a download under `stem`.
pub open spec fn is_part_entry(stem: Seq<char>, name: Option<String>) -> bool {
    name matches Some(name) && (stem + ".part."@).is_prefix_of(name@)
}

/// The positions, in order, of what a failed download under `stem` left over.
pub fn cleanup_part_files(names: &Vec<Option<String>>, stem: &str) -> (r: Vec<usize>)
    ensures
        forall|k: int|
            0 <= k < r@.len() ==> #[trigger] r@[k] < names@.len() && is_part_entry(
                stem@,
                names@[r@[k] as int],
            ),
        forall|k: int, l: int| 0 <= k < l < r@.len() ==> r@[k] < r@[l],
        forall|j: int|
            0 <= j < names@.len() && is_part_entry(stem@, #[trigger] names@[j]) ==> r@.contains(
                j as usize,
            ),
{
    let prefix = with_suffix(stem, ".part.");
    let mut out: Vec<usize> = Vec::new();
    for i in 0..names.len()
        invariant
            prefix@ == stem@ + ".part."@,
            forall|k: int|
                0 <= k < out@.len() ==> #[trigger] out@[k] < i && is_part_entry(
                    stem@,
                    names@[out@[k] as int],
                ),
            forall|k: int, l: int| 0 <= k < l < out@.len() ==> out@[k] < out@[l],
            forall|j: int|
                0 <= j < i && is_part_entry(stem@, #[trigger] names@[j]) ==> out@.contains(
                    j as usize,
                ),
    {
        let ghost before = out@;
        if let Some(name) = &names[i] {
            if text::begins_with(&text::chars_of(name.as_str()), &prefix) {
                out.push(i);
                assert(out@.last() == i);
            }
        }
        assert forall|j: int| 0 <= j < i + 1 && is_part_entry(
            stem@,
            #[trigger] names@[j],
        ) implies out@.contains(j as usize) by {
            if j < i {
                let k = choose|k: int| 0 <= k < before.len() && before[k] == j as usize;
                assert(out@[k] == j as usize);
            }
        }
    }
    out
}

/// What is known of a track after asking the downloader about it.
pub struct TrackProbe {
    /// How long it plays, where that could be determined: not for a live
    /// broadcast, for blocked content, or where the answer made no sense.
    pub duration: Option<Nanos>,
    /// Whether it is a live broadcast.
    pub is_live: bool,
}

/// What the downloader is called with to learn about `track`.
pub open spec fn probe_args(track: Track) -> Seq<Seq<char>> {
    seq![
        "--no-warnings"@,
        "--no-playlist"@,
        "--print"@,
        "%(duration)s"@,
        "--print"@,
        "%(is_live)s"@,
        track.fetched_from(),
    ]
}

/// Prepares the question to the downloader about `track`. A file on the host
/// needs none.
pub fn probe_track(track: &Track) -> (r: Option<Vec<String>>)
    ensures
        match r {
            Some(args) => !(track.source is Local) && text::texts(args@) == probe_args(*track),
            None => track.source is Local,
        },
{
    if track.is_local() {
        return None;
    }
    let mut args: Vec<String> = Vec::new();
    args.push("--no-warnings".to_string());
    args.push("--no-playlist".to_string());
    args.push("--print".to_string());
    args.push("%(duration)s".to_string());
    args.push("--print".to_string());
    args.push("%(is_live)s".to_string());
    args.push(track.input_url());
    assert(text::texts(args@) =~= probe_args(*track));
    Some(args)
}

/// A line of `s` without the white space around it. There is nothing on a line
/// that `s` does not have.
pub open spec fn bare_line(s: Seq<char>, i: int) -> Seq<char> {
    if 0 <= i < text::lines(s).len() {
        text::trim(text::lines(s)[i])
    } else {
        seq![]
    }
}

/// A line of `s` without the white space around it.
fn line_at(s: &str, i: usize) -> (r: Vec<char>)
    ensures
        r@ == bare_line(s@, i as int),
{
    let all = text::lines_of(&text::chars_of(s));
    if i < all.len() {
        assert(text::char_texts(all@)[i as int] == all@[i as int]@);
        text::trimmed(&all[i])
    } else {
        Vec::new()
    }
}

/// What the downloader answered about the duration, as it wrote it.
pub fn probe_duration_text(stdout: &str) -> (r: String)
    ensures
        r@ == bare_line(stdout@, 0),
{
    text::string_of(&line_at(stdout, 0))
}

/// Puts together what the downloader answered, if it succeeded: the duration,
/// read from the first line by the caller, and whether the second line says that
/// the track is a live broadcast.
pub fn probe_answer(succeeded: bool, stdout: &str, duration: Option<Nanos>) -> (r: Option<
    TrackProbe,
>)
    ensures
        r == if succeeded {
            Some(
                TrackProbe {
                    duration,
                    is_live: text::same_ignoring_case(bare_line(stdout@, 1), "true"@),
                },
            )
        } else {
            None
        },
{
    if !succeeded {
        return None;
    }
    Some(
        TrackProbe {
            duration,
            is_live: text::equal_ignoring_case(&line_at(stdout, 1), &text::chars_of("true")),
        },
    )
}

/// A file name for a track, whatever its title, has between one and eighty
/// characters, and none of them is reserved or a control character.
pub proof fn law_sanitized_names_are_safe(name: Seq<char>)
    ensures
        1 <= sanitized(name).len() <= MAX_FILENAME_STEM,
        forall|i: int|
            0 <= i < sanitized(name).len() ==> !is_reserved(#[trigger] sanitized(name)[i])
                && !text::is_control(sanitized(name)[i]),
{
    reveal_strlit("track");
    lemma_clean_is_safe(name);
}

/// What is kept of a name is safe in a file name.
proof fn lemma_clean_is_safe(name: Seq<char>)
    ensures
        clean(name).len() <= MAX_FILENAME_STEM,
        forall|i: int|
            0 <= i < clean(name).len() ==> !is_reserved(#[trigger] clean(name)[i])
                && !text::is_control(clean(name)[i]),
{
    let replaced = name.map_values(|c: char| clean_char(c));
    text::lemma_trim_keeps_chars(replaced, CharClass::DotOrWhitespace);
    assert forall|i: int| 0 <= i < clean(name).len() implies !is_reserved(#[trigger] clean(name)[i])
        && !text::is_control(clean(name)[i]) by {
        let c = clean_whole(name)[i];
        assert(clean(name)[i] == c);
        assert(clean_whole(name).contains(c));
        let k = choose|k: int| 0 <= k < replaced.len() && replaced[k] == c;
        assert(replaced[k] == clean_char(name[k]));
    }
}

/// The name of a track in the cache holds no separator of directories, so the
/// track stays in the directory that it is put in.
pub proof fn law_cached_tracks_stay_in_place(track: Track)
    requires
        cache_stem(track) is Some,
    ensures
        !cache_stem(track)->0.contains('/'),
        !cache_stem(track)->0.contains('\\'),
{
    let stem = cache_stem(track)->0;
    law_sanitized_names_are_safe(track.metadata.title@);
    lemma_clean_is_safe(track.metadata.id@);
    reveal_strlit("_");
    let title = sanitized(track.metadata.title@);
    assert forall|i: int| 0 <= i < stem.len() implies !is_reserved(#[trigger] stem[i]) by {
        if i < title.len() {
            assert(stem[i] == title[i]);
        } else if i > title.len() {
            assert(stem[i] == clean(track.metadata.id@)[i - title.len() - 1]);
        }
    }
}

/// A half-written download is never taken for a cached track.
pub proof fn law_half_written_is_not_cached(stem: Seq<char>, name: String)
    requires
        is_part_entry(stem, Some(name)),
    ensures
        !is_cached_name(stem, name@),
{
    reveal_strlit(".part.");
    reveal_strlit(".");
    let prefix = stem + ".part."@;
    assert(name@[stem.len() as int + 5] == '.') by {
        assert(prefix[stem.len() as int + 5] == '.');
        assert(prefix =~= name@.subrange(0, prefix.len() as int));
        assert(name@.subrange(0, prefix.len() as int)[stem.len() as int + 5] == name@[stem.len()
            as int + 5]);
    }
    let rest = name@.skip((stem + "."@).len() as int);
    assert(rest[4] == '.');
    assert(rest.contains('.'));
}

/// A file of measurements beside a cached track is never taken for it.
pub proof fn law_measurements_are_not_cached(stem: Seq<char>)
    ensures
        !is_cached_name(stem, stem + "."@ + SIDECAR_EXT@),
        !is_cached_name(stem, stem + "."@ + LEGACY_SIDECAR_EXT@),
{
    assert((stem + "."@ + SIDECAR_EXT@).skip((stem + "."@).len() as int) =~= SIDECAR_EXT@);
    assert((stem + "."@ + LEGACY_SIDECAR_EXT@).skip((stem + "."@).len() as int)
        =~= LEGACY_SIDECAR_EXT@);
}

/// Once a finished download bears the name that is proposed for it, the track is
/// found in the cache and is not downloaded again, unless the extension is one
/// that marks other files.
pub proof fn law_downloads_are_found(
    track: Track,
    part: String,
    source_names: Seq<Option<String>>,
    root_names: Seq<Option<String>>,
    i: int,
)
    requires
        cache_stem(track) is Some,
        part_ext(cache_stem(track)->0, Some(part)) is Some,
        is_audio_ext(part_ext(cache_stem(track)->0, Some(part))->0),
        0 <= i < source_names.len(),
        source_names[i] is Some,
        source_names[i]->0@ == cache_stem(track)->0 + "."@ + part_ext(
            cache_stem(track)->0,
            Some(part),
        )->0,
    ensures
        first_cached(cache_stem(track)->0, source_names) is Some,
        cached_path(track, source_names, root_names) == Some(
            cache_dir_text_for(track.source)->0 + "/"@ + first_cached(
                cache_stem(track)->0,
                source_names,
            )->0,
        ),
        is_cached_name(cache_stem(track)->0, first_cached(cache_stem(track)->0, source_names)->0),
{
    let stem = cache_stem(track)->0;
    let ext = part_ext(stem, Some(part))->0;
    let whole = stem + "."@ + ext;
    assert(whole.skip((stem + "."@).len() as int) =~= ext);
    assert((stem + "."@) =~= whole.subrange(0, (stem + "."@).len() as int));
    lemma_first_cached_exists(stem, source_names, i);
}

/// Where all that is cached for a track in the directory of its source goes by
/// one name, that very file is what the lookup gives back.
pub proof fn law_lookup_gives_back_the_only_file(
    track: Track,
    ext: Seq<char>,
    source_names: Seq<Option<String>>,
    root_names: Seq<Option<String>>,
    i: int,
)
    requires
        cache_stem(track) is Some,
        is_audio_ext(ext),
        0 <= i < source_names.len(),
        source_names[i] is Some,
        source_names[i]->0@ == cache_stem(track)->0 + "."@ + ext,
        forall|j: int|
            0 <= j < source_names.len() && is_cached_entry(
                cache_stem(track)->0,
                #[trigger] source_names[j],
            ) ==> source_names[j]->0@ == cache_stem(track)->0 + "."@ + ext,
    ensures
        cached_path(track, source_names, root_names) == Some(
            cache_dir_text_for(track.source)->0 + "/"@ + cache_stem(track)->0 + "."@ + ext,
        ),
{
    let stem = cache_stem(track)->0;
    let dir = cache_dir_text_for(track.source)->0;
    let whole = stem + "."@ + ext;
    assert(whole.skip((stem + "."@).len() as int) =~= ext);
    assert((stem + "."@) =~= whole.subrange(0, (stem + "."@).len() as int));
    assert(is_cached_entry(stem, source_names[i]));
    lemma_first_cached_is_an_entry(stem, source_names, i);
    assert(dir + "/"@ + whole =~= dir + "/"@ + stem + "."@ + ext);
}

/// The lookup after a download gives back the very file that was downloaded.
/// `before` is what the directory held when the download was planned, and `part`
/// the half-written name that the downloader left. `source_names` is what the
/// directory holds, in any order, once that file has the name that is proposed
/// for it: the file, what was there before, and half-written files.
pub proof fn law_lookup_gives_back_the_download(
    track: Track,
    part: String,
    before: Seq<Option<String>>,
    source_names: Seq<Option<String>>,
    root_names: Seq<Option<String>>,
    i: int,
)
    requires
        cache_stem(track) is Some,
        cached_path(track, before, root_names) is None,
        part_ext(cache_stem(track)->0, Some(part)) is Some,
        is_audio_ext(part_ext(cache_stem(track)->0, Some(part))->0),
        0 <= i < source_names.len(),
        source_names[i] is Some,
        source_names[i]->0@ == cache_stem(track)->0 + "."@ + part_ext(
            cache_stem(track)->0,
            Some(part),
        )->0,
        forall|j: int|
            0 <= j < source_names.len() && j != i ==> before.contains(#[trigger] source_names[j])
                || is_part_entry(cache_stem(track)->0, source_names[j]),
    ensures
        cached_path(track, source_names, root_names) == Some(
            cache_dir_text_for(track.source)->0 + "/"@ + cache_stem(track)->0 + "."@ + part_ext(
                cache_stem(track)->0,
                Some(part),
            )->0,
        ),
{
    let stem = cache_stem(track)->0;
    let ext = part_ext(stem, Some(part))->0;
    assert forall|j: int|
        0 <= j < source_names.len() && is_cached_entry(
            stem,
            #[trigger] source_names[j],
        ) implies source_names[j]->0@ == stem + "."@ + ext by {
        if j != i {
            if before.contains(source_names[j]) {
                let k = choose|k: int| 0 <= k < before.len() && before[k] == source_names[j];
                lemma_first_cached_exists(stem, before, k);
            } else {
                law_half_written_is_not_cached(stem, source_names[j]->0);
            }
        }
    }
    law_lookup_gives_back_the_only_file(track, ext, source_names, root_names, i);
}

/// A track that is kept directly under the cache's root, where tracks used to
/// be kept, is found, unless there is one in the directory of its source.
pub proof fn law_old_files_are_still_found(
    track: Track,
    source_names: Seq<Option<String>>,
    root_names: Seq<Option<String>>,
    i: int,
)
    requires
        cache_stem(track) is Some,
        0 <= i < root_names.len(),
        is_cached_entry(cache_stem(track)->0, root_names[i]),
    ensures
        cached_path(track, source_names, root_names) is Some,
        first_cached(cache_stem(track)->0, source_names) is None ==> exists|name: Seq<char>|
            is_cached_name(cache_stem(track)->0, name) && #[trigger] cached_path(
                track,
                source_names,
                root_names,
            ) == Some(CACHE_DIR@ + "/"@ + name),
{
    let stem = cache_stem(track)->0;
    lemma_first_cached_exists(stem, root_names, i);
    let name = first_cached(stem, root_names)->0;
    assert(is_cached_name(stem, name));
}

/// Where some entry matches, the first that does is one of the entries.
proof fn lemma_first_cached_is_an_entry(stem: Seq<char>, names: Seq<Option<String>>, i: int)
    requires
        0 <= i < names.len(),
        is_cached_entry(stem, names[i]),
    ensures
        exists|j: int|
            0 <= j < names.len() && is_cached_entry(stem, #[trigger] names[j]) && first_cached(
                stem,
                names,
            ) == Some(names[j]->0@),
    decreases names.len(),
{
    if is_cached_entry(stem, names[0]) {
        assert(first_cached(stem, names) == Some(names[0]->0@));
    } else {
        let rest = names.skip(1);
        assert(rest[i - 1] == names[i]);
        lemma_first_cached_is_an_entry(stem, rest, i - 1);
        let k = choose|k: int|
            0 <= k < rest.len() && is_cached_entry(stem, #[trigger] rest[k]) && first_cached(
                stem,
                rest,
            ) == Some(rest[k]->0@);
        assert(names[k + 1] == rest[k]);
    }
}

/// Where some entry matches, there is a first that does.
proof fn lemma_first_cached_exists(stem: Seq<char>, names: Seq<Option<String>>, i: int)
    requires
        0 <= i < names.len(),
        is_cached_entry(stem, names[i]),
    ensures
        first_cached(stem, names) matches Some(name) && is_cached_name(stem, name),
    decreases names.len(),
{
    if !is_cached_entry(stem, names[0]) {
        assert(names.skip(1)[i - 1] == names[i]);
        lemma_first_cached_exists(stem, names.skip(1), i - 1);
    }
}

/// The cache is under `cache`, in a directory for each source that is fetched.
/// Files on the host have none.
pub proof fn law_each_source_has_its_directory(
    source: TrackSource,
    root: String,
    r: Option<String>,
)
    requires
        call_ensures(cache_dir, (), root),
        call_ensures(cache_dir_for, (&source,), r),
    ensures
        root@ == "cache"@,
        source is YouTube ==> (r matches Some(dir) && dir@ == root@ + "/"@ + "youtube"@),
        source is Spotify ==> (r matches Some(dir) && dir@ == root@ + "/"@ + "spotify"@),
        source is Local ==> r is None,
{
}

/// Whether a character falls off the end of a file name: a full stop, or white
/// space that is no control character.
pub open spec fn falls_off(c: char) -> bool {
    c == '.' || (text::is_space(c) && !text::is_control(c))
}

/// A file name is a part of the name that it is made from: from the first
/// character that does not fall off to the last, at most eighty of them. Each
/// stands for itself, or is an underscore where it is reserved or a control
/// character. Where nothing is left, the file is called `track`.
pub proof fn law_file_names_keep_the_name(name: &str, r: String) -> (at: (int, int))
    requires
        call_ensures(sanitize, (name,), r),
    ensures
        ({
            let (lo, n) = at;
            &&& 0 <= lo && 0 <= n <= 80 && lo + n <= name@.len()
            &&& forall|i: int| 0 <= i < lo ==> falls_off(#[trigger] name@[i])
            &&& n < 80 ==> forall|i: int| lo + n <= i < name@.len() ==> falls_off(#[trigger] name@[i])
            &&& n > 0 ==> !falls_off(name@[lo])
            &&& 0 < n < 80 ==> !falls_off(name@[lo + n - 1])
            &&& n == 0 ==> r@ == "track"@
            &&& n > 0 ==> r@.len() == n
            &&& n > 0 ==> forall|i: int|
                0 <= i < n ==> {
                    let c = name@[lo + i];
                    let unsafe_char = c == '/' || c == '\\' || c == '\0' || c == ':' || c == '*'
                        || c == '?' || c == '"' || c == '<' || c == '>' || c == '|'
                        || text::is_control(c);
                    (#[trigger] r@[i]) == if unsafe_char {
                        '_'
                    } else {
                        c
                    }
                }
        }),
{
    lemma_clean_at(name@)
}

proof fn lemma_clean_at(name: Seq<char>) -> (at: (int, int))
    ensures
        ({
            let (lo, n) = at;
            &&& 0 <= lo && 0 <= n <= 80 && lo + n <= name.len()
            &&& forall|i: int| 0 <= i < lo ==> falls_off(#[trigger] name[i])
            &&& n < 80 ==> forall|i: int| lo + n <= i < name.len() ==> falls_off(#[trigger] name[i])
            &&& n > 0 ==> !falls_off(name[lo])
            &&& 0 < n < 80 ==> !falls_off(name[lo + n - 1])
            &&& clean(name).len() == n
            &&& forall|i: int| 0 <= i < n ==> (#[trigger] clean(name)[i]) == clean_char(name[lo + i])
        }),
{
    let class = CharClass::DotOrWhitespace;
    let mapped = name.map_values(|c: char| clean_char(c));
    assert forall|i: int| 0 <= i < name.len() implies class.has(#[trigger] mapped[i]) == falls_off(
        name[i],
    ) by {}
    let (lo, hi) = text::lemma_trim_both_at(mapped, class);
    assert forall|i: int| 0 <= i < lo implies falls_off(#[trigger] name[i]) by {
        assert(class.has(mapped[i]));
    }
    assert forall|i: int| hi <= i < name.len() implies falls_off(#[trigger] name[i]) by {
        assert(class.has(mapped[i]));
    }
    if lo < hi {
        assert(!class.has(mapped[lo]) && !class.has(mapped[hi - 1]));
    }
    let n = if hi - lo > 80 {
        80
    } else {
        hi - lo
    };
    assert(clean_whole(name) == mapped.subrange(lo, hi));
    assert(clean(name) =~= mapped.subrange(lo, lo + n));
    assert forall|i: int| 0 <= i < n implies (#[trigger] clean(name)[i]) == clean_char(
        name[lo + i],
    ) by {
        assert(clean(name)[i] == mapped[lo + i]);
    }
    (lo, n)
}

/// A track has a name in the cache exactly where it is fetched and something of
/// its id is left in a file name, whatever its source. It is made of the file names
/// for its title and its id.
pub proof fn law_fetched_tracks_have_a_name(
    track: Track,
    r: Option<String>,
    cacheable: bool,
    title_text: &str,
    id_text: &str,
    title: String,
    id: String,
)
    requires
        call_ensures(cache_stem_for, (&track,), r),
        call_ensures(is_cacheable, (&track,), cacheable),
        title_text@ == track.metadata.title@,
        id_text@ == track.metadata.id@,
        call_ensures(sanitize, (title_text,), title),
        call_ensures(sanitize, (id_text,), id),
    ensures
        r is Some <==> !(track.source is Local) && exists|i: int|
            0 <= i < track.metadata.id@.len() && !falls_off(#[trigger] track.metadata.id@[i]),
        cacheable <==> r is Some,
        r matches Some(stem) ==> stem@ == title@ + "_"@ + id@,
{
    let text = track.metadata.id@;
    let (lo, n) = lemma_clean_at(text);
    if n > 0 {
        assert(!falls_off(text[lo]));
    } else if exists|i: int| 0 <= i < text.len() && !falls_off(#[trigger] text[i]) {
        let i = choose|i: int| 0 <= i < text.len() && !falls_off(#[trigger] text[i]);
        assert(falls_off(text[i]));
    }
}

/// A directory is searched for the first entry whose name is the track's, a full
/// stop and an extension: any text that is not empty, has no full stop, and is not
/// that of half-written downloads or of measurements.
pub proof fn law_any_audio_of_the_track_is_found(
    names: Vec<Option<String>>,
    stem: &str,
    r: Option<usize>,
    j: usize,
    ext: Seq<char>,
)
    requires
        call_ensures(find_in_dir, (&names, stem), r),
    ensures
        ({
            let audio = ext.len() > 0 && !ext.contains('.') && ext != "part"@ && ext != "lufs"@
                && ext != "gain"@;
            let named = j < names@.len() && names@[j as int] is Some && names@[j as int]->0@ == stem@ + "."@
                + ext;
            &&& audio && named ==> r is Some && r->0 <= j
            &&& !audio && named ==> r != Some(j)
        }),
        r matches Some(i) ==> {
            &&& i < names@.len()
            &&& names@[i as int] is Some
            &&& exists|found: Seq<char>| names@[i as int]->0@ == #[trigger] (stem@ + "."@ + found)
        },
{
    let whole = stem@ + "."@ + ext;
    assert(whole.skip((stem@ + "."@).len() as int) =~= ext);
    assert((stem@ + "."@) =~= whole.subrange(0, (stem@ + "."@).len() as int));
    if r is Some {
        let name = names@[r->0 as int]->0@;
        let found = name.skip((stem@ + "."@).len() as int);
        assert(name =~= stem@ + "."@ + found);
    }
    if j < names@.len() && names@[j as int] is Some && names@[j as int]->0@ == whole {
        assert(is_cached_entry(stem@, names@[j as int]) <==> is_audio_ext(ext));
    }
}

/// A lookup takes what is found in the directory of the source, else what is found
/// in the cache's root, and else nothing. Without a name in the cache nothing is
/// found.
pub proof fn law_lookup_prefers_the_source(
    track: Track,
    source_names: Vec<Option<String>>,
    root_names: Vec<Option<String>>,
    stem: &str,
    in_source: Option<usize>,
    in_root: Option<usize>,
    dir: Option<String>,
    r: Option<String>,
)
    requires
        call_ensures(find_cached, (&track, &source_names, &root_names), r),
        call_ensures(cache_dir_for, (&track.source,), dir),
        cache_stem(track) is Some ==> stem@ == cache_stem(track)->0,
        call_ensures(find_in_dir, (&source_names, stem), in_source),
        call_ensures(find_in_dir, (&root_names, stem), in_root),
    ensures
        cache_stem(track) is None ==> r is None,
        cache_stem(track) is Some ==> {
            &&& in_source matches Some(i) ==> {
                &&& r is Some && dir is Some
                &&& r->0@ == dir->0@ + "/"@ + source_names@[i as int]->0@
            }
            &&& in_source is None ==> (in_root matches Some(i) ==> r is Some && r->0@ == "cache"@
                + "/"@ + root_names@[i as int]->0@)
            &&& in_source is None && in_root is None ==> r is None
        },
{
    if cache_stem(track) is Some {
        match in_source {
            Some(i) => lemma_first_cached(stem@, source_names@, i as int),
            None => lemma_first_cached(stem@, source_names@, source_names@.len() as int),
        }
        match in_root {
            Some(k) => lemma_first_cached(stem@, root_names@, k as int),
            None => lemma_first_cached(stem@, root_names@, root_names@.len() as int),
        }
    }
}

/// A track that is in the cache is not downloaded, and one that is not is, into
/// the directory of its source, under its name, and from its own address. A track
/// without a name in the cache is refused.
pub proof fn law_downloads_are_planned(
    track: Track,
    source_names: Vec<Option<String>>,
    root_names: Vec<Option<String>>,
    stem: Option<String>,
    dir: Option<String>,
    url: String,
    found: Option<String>,
    r: Result<CachePlan, String>,
)
    requires
        call_ensures(cache_track, (&track, &source_names, &root_names), r),
        call_ensures(find_cached, (&track, &source_names, &root_names), found),
        call_ensures(cache_stem_for, (&track,), stem),
        call_ensures(cache_dir_for, (&track.source,), dir),
        call_ensures(Track::input_url, (&track,), url),
    ensures
        r is Err <==> stem is None,
        r matches Err(reason) ==> reason@ == "track is not cacheable"@,
        r is Ok && found is Some ==> {
            &&& r->Ok_0 matches CachePlan::Existing(path)
            &&& path@ == found->0@
        },
        r is Ok && found is None ==> {
            &&& r->Ok_0 matches CachePlan::Download(download)
            &&& dir is Some
            &&& download.stem@ == stem->0@
            &&& download.dir@ == dir->0@
            &&& download.args@.len() == 7
            &&& download.args@[0]@ == "--no-warnings"@
            &&& download.args@[1]@ == "--no-playlist"@
            &&& download.args@[2]@ == "-f"@
            &&& download.args@[3]@ == "bestaudio/best"@
            &&& download.args@[4]@ == "-o"@
            &&& download.args@[5]@ == dir->0@ + "/"@ + stem->0@ + ".part.%(ext)s"@
            &&& download.args@[6]@ == url@
        },
{
    if r is Ok && found is None {
        match r->Ok_0 {
            CachePlan::Download(download) => {
                let args = text::texts(download.args@);
                assert(args.len() == download.args@.len());
                assert(args[0] == download.args@[0]@);
                assert(args[1] == download.args@[1]@);
                assert(args[2] == download.args@[2]@);
                assert(args[3] == download.args@[3]@);
                assert(args[4] == download.args@[4]@);
                assert(args[5] == download.args@[5]@);
                assert(args[6] == download.args@[6]@);
            },
            CachePlan::Existing(_) => {},
        }
    }
}

/// A failure names the status and the last five lines of what was written, or all
/// of them where there are fewer, in order and with bars between them.
pub proof fn law_failures_end_with_the_last_lines(
    status: &str,
    stderr: &str,
    before: Seq<Seq<char>>,
    last: Seq<Seq<char>>,
    r: String,
)
    requires
        call_ensures(download_failure, (status, stderr), r),
        text::lines(stderr@) == before + last,
        last.len() == 5 || (last.len() < 5 && before.len() == 0),
    ensures
        r@ == "yt-dlp failed ("@ + status@ + "): "@ + text::join(last, " | "@),
{
    let all = before + last;
    if all.len() > 5 {
        assert(all.skip(all.len() - 5) =~= last);
    } else {
        assert(before.len() == 0);
        assert(all =~= last);
    }
}

/// The download is the first entry whose name is the track's, the mark of a
/// half-written file and an extension without a full stop. It is to be called as
/// the track, with that extension. It is an error if there is none.
pub proof fn law_download_is_told_by_its_name(
    names: Vec<Option<String>>,
    stem: &str,
    r: Result<(usize, String), String>,
    j: int,
    ext: Seq<char>,
)
    requires
        call_ensures(produced_file, (&names, stem), r),
    ensures
        0 <= j < names@.len() && names@[j] is Some && names@[j]->0@ == stem@ + ".part."@ + ext
            && ext.len() > 0 && !ext.contains('.') ==> r is Ok && r->Ok_0.0 <= j && (r->Ok_0.0 == j
            ==> r->Ok_0.1@ == stem@ + "."@ + ext),
        r matches Ok((i, name)) ==> {
            &&& i < names@.len()
            &&& names@[i as int] is Some
            &&& exists|found: Seq<char>|
                names@[i as int]->0@ == #[trigger] (stem@ + ".part."@ + found) && found.len() > 0
                    && !found.contains('.') && name@ == stem@ + "."@ + found
        },
        r matches Err(reason) ==> reason@ == "yt-dlp reported success but produced no output file"@,
{
    let prefix = stem@ + ".part."@;
    if 0 <= j < names@.len() && names@[j] is Some && names@[j]->0@ == prefix + ext && ext.len() > 0
        && !ext.contains('.') {
        assert((prefix + ext).skip(prefix.len() as int) =~= ext);
        assert(prefix =~= (prefix + ext).subrange(0, prefix.len() as int));
        assert(part_ext(stem@, names@[j]) == Some(ext));
    }
    if r is Ok {
        let whole = names@[r->Ok_0.0 as int]->0@;
        let found = whole.skip(prefix.len() as int);
        assert(whole =~= stem@ + ".part."@ + found);
    }
}

/// What is left over of a failed download is every entry whose name is the track's
/// and the mark of a half-written file, whatever follows, and no other entry.
pub proof fn law_leftovers_are_told_by_their_name(
    names: Vec<Option<String>>,
    stem: &str,
    r: Vec<usize>,
    j: usize,
    rest: Seq<char>,
)
    requires
        call_ensures(cleanup_part_files, (&names, stem), r),
    ensures
        j < names@.len() && names@[j as int] is Some && names@[j as int]->0@ == stem@ + ".part."@
            + rest ==> r@.contains(j),
        r@.contains(j) ==> j < names@.len() && names@[j as int] is Some && exists|left: Seq<char>|
            names@[j as int]->0@ == #[trigger] (stem@ + ".part."@ + left),
        forall|k: int, l: int| 0 <= k < l < r@.len() ==> r@[k] < r@[l],
{
    let prefix = stem@ + ".part."@;
    if j < names@.len() && names@[j as int] is Some && names@[j as int]->0@ == prefix + rest {
        assert(prefix =~= (prefix + rest).subrange(0, prefix.len() as int));
        assert(is_part_entry(stem@, names@[j as int]));
    }
    if r@.contains(j) {
        let k = choose|k: int| 0 <= k < r@.len() && r@[k] == j;
        assert(is_part_entry(stem@, names@[r@[k] as int]));
        let whole = names@[j as int]->0@;
        assert(whole =~= stem@ + ".part."@ + whole.skip(prefix.len() as int));
    }
}

/// The downloader is asked about every track that is fetched, at its own address,
/// and about no file on the host.
pub proof fn law_fetched_tracks_are_asked_about(track: Track, url: String, r: Option<Vec<String>>)
    requires
        call_ensures(probe_track, (&track,), r),
        call_ensures(Track::input_url, (&track,), url),
    ensures
        r is None <==> track.source is Local,
        r matches Some(args) ==> {
            &&& args@.len() == 7
            &&& args@[0]@ == "--no-warnings"@
            &&& args@[1]@ == "--no-playlist"@
            &&& args@[2]@ == "--print"@
            &&& args@[3]@ == "%(duration)s"@
            &&& args@[4]@ == "--print"@
            &&& args@[5]@ == "%(is_live)s"@
            &&& args@[6]@ == url@
        },
{
    if r is Some {
        let args = text::texts(r->0@);
        assert(args.len() == r->0@.len());
        assert(args[0] == r->0@[0]@);
        assert(args[1] == r->0@[1]@);
        assert(args[2] == r->0@[2]@);
        assert(args[3] == r->0@[3]@);
        assert(args[4] == r->0@[4]@);
        assert(args[5] == r->0@[5]@);
        assert(args[6] == r->0@[6]@);
    }
}

/// An answer gives the duration on its first line and, on its second, whether the
/// track is live: exactly where that line says `true`, in either case, with white
/// space around it or not. An answer that failed is none.
pub proof fn law_answers_are_read_line_by_line(
    succeeded: bool,
    stdout: &str,
    duration: Option<Nanos>,
    first: Seq<char>,
    second: Seq<char>,
    more: Seq<Seq<char>>,
    duration_text: String,
    r: Option<TrackProbe>,
)
    requires
        call_ensures(probe_duration_text, (stdout,), duration_text),
        call_ensures(probe_answer, (succeeded, stdout, duration), r),
        text::lines(stdout@) == seq![first, second] + more,
    ensures
        duration_text@ == text::trim(first),
        r is Some <==> succeeded,
        r matches Some(probe) ==> {
            &&& probe.duration == duration
            &&& probe.is_live <==> text::ascii_lower(text::trim(second)) == "true"@
        },
{
    let all = seq![first, second] + more;
    assert(all[0] == first && all[1] == second);
    reveal_strlit("true");
    assert(text::ascii_lower("true"@) =~= "true"@);
}

/// An answer without a second line is that of a track which is not live, and one
/// without any line gives no duration.
pub proof fn law_short_answers_are_not_live(
    succeeded: bool,
    stdout: &str,
    duration: Option<Nanos>,
    duration_text: String,
    r: Option<TrackProbe>,
)
    requires
        call_ensures(probe_duration_text, (stdout,), duration_text),
        call_ensures(probe_answer, (succeeded, stdout, duration), r),
        text::lines(stdout@).len() < 2,
    ensures
        r is Some <==> succeeded,
        r matches Some(probe) ==> !probe.is_live && probe.duration == duration,
        text::lines(stdout@).len() == 0 ==> duration_text@.len() == 0,
        text::lines(stdout@).len() == 1 ==> duration_text@ == text::trim(text::lines(stdout@)[0]),
{
    reveal_strlit("true");
    assert(text::ascii_lower(seq![]).len() == 0);
    assert(text::ascii_lower("true"@).len() == 4);
}

} // verus!
