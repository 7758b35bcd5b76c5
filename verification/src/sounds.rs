//! Which Windows system sound file belongs to each event type.

use vstd::prelude::*;
use vstd::string::*;
use crate::events::is_valid_event_name;
use crate::text::str_eq;

verus! {

/// The primary system sound file name for an event type.
pub open spec fn system_sound_name(e: Seq<char>) -> Option<Seq<char>> {
    if e == "complete"@ {
        Some("Windows Notify System Generic.wav"@)
    } else if e == "error"@ {
        Some("Windows Critical Stop.wav"@)
    } else if e == "attention"@ {
        Some("Windows Notify Calendar.wav"@)
    } else if e == "stop"@ {
        Some("Windows Notify Email.wav"@)
    } else if e == "session-end"@ {
        Some("Windows Logoff Sound.wav"@)
    } else {
        None
    }
}

/// The sound file names tried, in order, when the primary one is missing.
pub open spec fn alternative_sound_names(e: Seq<char>) -> Seq<Seq<char>> {
    if e == "complete"@ {
        seq!["notify.wav"@, "tada.wav"@, "Windows Notify.wav"@]
    } else if e == "error"@ {
        seq!["Windows Error.wav"@, "Windows Hardware Fail.wav"@, "chord.wav"@]
    } else if e == "attention"@ {
        seq!["Windows Notify.wav"@, "Windows Balloon.wav"@, "ding.wav"@]
    } else if e == "stop"@ {
        seq!["Windows Information Bar.wav"@, "Windows Unlock.wav"@]
    } else if e == "session-end"@ {
        seq!["Windows Shutdown.wav"@, "Windows Logoff.wav"@]
    } else {
        seq![]
    }
}

/// The directory that holds the Windows system sounds.
pub open spec fn media_dir() -> Seq<char> {
    "C:\\Windows\\Media"@
}

/// Whether `c` is a path separator of some platform: `/` on Unix, `\\` on Windows.
pub open spec fn is_path_separator(c: char) -> bool {
    c == '/' || c == '\\'
}

/// Full path of a sound file in the system sounds directory, the directory and
/// the file name joined by the platform's separator `sep`.
pub open spec fn media_path(name: Seq<char>, sep: char) -> Seq<char> {
    media_dir() + seq![sep] + name
}

/// The paths `get_sound_path` probes for an event type, in order, on a platform
/// whose separator is `sep`: the primary sound first, then each alternative;
/// none for an unknown event type.
pub open spec fn candidate_paths(e: Seq<char>, sep: char) -> Seq<Seq<char>> {
    match system_sound_name(e) {
        Some(n) => seq![n].add(alternative_sound_names(e)).map_values(
            |x: Seq<char>| media_path(x, sep),
        ),
        None => seq![],
    }
}

/// The view of an optional string slice.
pub open spec fn opt_str_view(o: Option<&str>) -> Option<Seq<char>> {
    match o {
        Some(s) => Some(s@),
        None => None,
    }
}

/// Map event types to Windows system sound file names.
pub fn get_system_sound_name(event_type: &str) -> (r: Option<&'static str>)
    ensures
        opt_str_view(r) == system_sound_name(event_type@),
{
    if str_eq(event_type, "complete") {
        Some("Windows Notify System Generic.wav")
    } else if str_eq(event_type, "error") {
        Some("Windows Critical Stop.wav")
    } else if str_eq(event_type, "attention") {
        Some("Windows Notify Calendar.wav")
    } else if str_eq(event_type, "stop") {
        Some("Windows Notify Email.wav")
    } else if str_eq(event_type, "session-end") {
        Some("Windows Logoff Sound.wav")
    } else {
        None
    }
}

/// Alternative sound file names for different Windows versions.
pub fn get_alternative_sound_names(event_type: &str) -> (r: Vec<&'static str>)
    ensures
        r@.map_values(|s: &str| s@) == alternative_sound_names(event_type@),
{
    let r: Vec<&'static str> = if str_eq(event_type, "complete") {
        vec!["notify.wav", "tada.wav", "Windows Notify.wav"]
    } else if str_eq(event_type, "error") {
        vec!["Windows Error.wav", "Windows Hardware Fail.wav", "chord.wav"]
    } else if str_eq(event_type, "attention") {
        vec!["Windows Notify.wav", "Windows Balloon.wav", "ding.wav"]
    } else if str_eq(event_type, "stop") {
        vec!["Windows Information Bar.wav", "Windows Unlock.wav"]
    } else if str_eq(event_type, "session-end") {
        vec!["Windows Shutdown.wav", "Windows Logoff.wav"]
    } else {
        Vec::new()
    };
    assert(r@.map_values(|s: &str| s@) =~= alternative_sound_names(event_type@));
    r
}

/// The separator of path components on this platform, `std::path::MAIN_SEPARATOR`,
/// which std documents as `/` on Unix and `\\` on Windows. Which of the two it
/// is depends on the platform, so only that it is one of them is stated.
#[verifier::external_body]
fn path_separator() -> (c: char)
    ensures
        is_path_separator(c),
{
    std::path::MAIN_SEPARATOR
}

/// Full path of `name` in the system sounds directory, joined with the
/// separator `sep` (for a plain file name, as `Path::join` does on the platform
/// whose separator `sep` is).
pub fn media_file_path(name: &str, sep: char) -> (r: String)
    requires
        is_path_separator(sep),
    ensures
        r@ == media_path(name@, sep),
{
    let mut p = String::from_str("C:\\Windows\\Media");
    if sep == '/' {
        p.append("/");
        proof {
            reveal_strlit("/");
        }
    } else {
        p.append("\\");
        proof {
            reveal_strlit("\\");
        }
    }
    p.append(name);
    p
}

/// The paths to probe for an event type, primary sound first, on a platform
/// whose separator is `sep`.
pub fn sound_candidates(event_type: &str, sep: char) -> (r: Vec<String>)
    requires
        is_path_separator(sep),
    ensures
        r@.map_values(|p: String| p@) == candidate_paths(event_type@, sep),
{
    let mut r: Vec<String> = Vec::new();
    let primary = get_system_sound_name(event_type);
    match primary {
        None => {
            assert(r@.map_values(|p: String| p@) =~= candidate_paths(event_type@, sep));
            r
        },
        Some(name) => {
            let alts = get_alternative_sound_names(event_type);
            let ghost names = seq![name@].add(alternative_sound_names(event_type@));
            r.push(media_file_path(name, sep));
            let mut i: usize = 0;
            while i < alts.len()
                invariant
                    names == seq![name@].add(alternative_sound_names(event_type@)),
                    alts@.map_values(|s: &str| s@) == alternative_sound_names(event_type@),
                    is_path_separator(sep),
                    i <= alts.len(),
                    r@.len() == i + 1,
                    forall|j: int| 0 <= j < i + 1 ==> #[trigger] r@[j]@ == media_path(names[j], sep),
                decreases alts.len() - i,
            {
                r.push(media_file_path(alts[i], sep));
                assert(names[i + 1] == alts@[i as int]@);
                i = i + 1;
            }
            assert(r@.map_values(|p: String| p@) =~= candidate_paths(event_type@, sep));
            r
        },
    }
}

/// Whether a file exists at `path`, by `std::path::Path::exists`. The answer
/// depends on what is on disk at the moment of the call, so nothing is stated of
/// it; `existence_reported` speaks of the answers that calls of it gave.
#[verifier::external_body]
fn file_exists(path: &str) -> bool {
    std::path::Path::new(path).exists()
}

/// The view of an optional string.
pub open spec fn opt_string_view(o: Option<String>) -> Option<Seq<char>> {
    match o {
        Some(s) => Some(s@),
        None => None,
    }
}

/// The first of `paths` that `present` reports as existing (`present[i]` is the
/// answer for `paths[i]`); `None` when no reported one exists.
pub open spec fn first_present(paths: Seq<Seq<char>>, present: Seq<bool>) -> Option<Seq<char>>
    decreases paths.len(),
{
    if paths.len() == 0 || present.len() == 0 {
        None
    } else if present[0] {
        Some(paths[0])
    } else {
        first_present(paths.drop_first(), present.drop_first())
    }
}

/// The first of `paths` that `present` reports as existing, where `present[i]`
/// tells whether `paths[i]` exists; `None` when none of the reported ones does.
pub fn first_present_path(paths: &Vec<String>, present: &Vec<bool>) -> (r: Option<String>)
    ensures
        opt_string_view(r) == first_present(paths@.map_values(|p: String| p@), present@),
{
    let ghost ps = paths@.map_values(|p: String| p@);
    let n = if paths.len() < present.len() { paths.len() } else { present.len() };
    let mut i: usize = 0;
    assert(ps.subrange(0, ps.len() as int) =~= ps);
    assert(present@.subrange(0, present@.len() as int) =~= present@);
    while i < n
        invariant
            ps == paths@.map_values(|p: String| p@),
            n <= paths.len(),
            n <= present.len(),
            n == paths.len() || n == present.len(),
            i <= n,
            first_present(ps, present@) == first_present(
                ps.subrange(i as int, ps.len() as int),
                present@.subrange(i as int, present@.len() as int),
            ),
        decreases n - i,
    {
        let ghost cs = ps.subrange(i as int, ps.len() as int);
        let ghost qs = present@.subrange(i as int, present@.len() as int);
        assert(cs[0] == ps[i as int]);
        assert(qs[0] == present@[i as int]);
        if present[i] {
            let p = paths[i].clone();
            return Some(p);
        }
        assert(cs.drop_first() =~= ps.subrange(i + 1, ps.len() as int));
        assert(qs.drop_first() =~= present@.subrange(i + 1, present@.len() as int));
        i = i + 1;
    }
    let ghost cs = ps.subrange(i as int, ps.len() as int);
    let ghost qs = present@.subrange(i as int, present@.len() as int);
    assert(cs.len() == 0 || qs.len() == 0);
    None
}

/// Whether some check by `file_exists` of a path spelled `path` answered
/// `answer`. Checks of one path at different moments may answer differently,
/// as the disk may change between them.
pub closed spec fn existence_reported(path: Seq<char>, answer: bool) -> bool {
    exists|s: &str| s@ == path && call_ensures(file_exists, (s,), answer)
}

/// Whether `r` is the first of `paths` that a check reported to exist, every
/// earlier one having been reported missing; or `None`, every one having been
/// reported missing.
pub open spec fn is_first_reported(paths: Seq<Seq<char>>, r: Option<Seq<char>>) -> bool {
    match r {
        Some(p) => exists|i: int|
            0 <= i < paths.len() && paths[i] == p && #[trigger] existence_reported(paths[i], true)
                && forall|j: int| 0 <= j < i ==> existence_reported(#[trigger] paths[j], false),
        None => forall|j: int| 0 <= j < paths.len() ==> existence_reported(#[trigger] paths[j], false),
    }
}

/// Get the full path to a sound file, checking the system sound first, then the
/// alternatives, and returning the first one that exists. Returns None if no
/// sound file is found (e.g., on Linux dev machines) or the event type is unknown.
///
/// Whether a file exists depends on the disk at the moment of the check: the
/// candidates are checked in order until one is reported to exist, and
/// `first_present_path` picks the result from those answers. The result is the
/// first candidate reported to exist, every earlier one reported missing.
pub fn get_sound_path(event_type: &str) -> (r: Option<String>)
    ensures
        system_sound_name(event_type@) is None ==> r is None,
        r matches Some(p) ==> exists|sep: char|
            is_path_separator(sep) && #[trigger] candidate_paths(event_type@, sep).contains(p@),
        exists|sep: char|
            is_path_separator(sep) && #[trigger] is_first_reported(
                candidate_paths(event_type@, sep),
                opt_string_view(r),
            ),
{
    let sep = path_separator();
    let candidates = sound_candidates(event_type, sep);
    let ghost ps = candidates@.map_values(|p: String| p@);
    let probe = file_exists;
    let mut present: Vec<bool> = Vec::new();
    let mut i: usize = 0;
    while i < candidates.len()
        invariant_except_break
            present@.len() == i,
        invariant
            probe == file_exists,
            ps == candidates@.map_values(|p: String| p@),
            ps == candidate_paths(event_type@, sep),
            is_path_separator(sep),
            i <= candidates.len(),
            present@.len() <= candidates.len(),
            present@.len() == i || (present@.len() == i + 1 && present@[i as int]),
            forall|j: int| 0 <= j < i ==> !present@[j],
            forall|j: int| 0 <= j < present@.len() ==> existence_reported(ps[j], #[trigger] present@[j]),
        ensures
            present@.len() == i ==> i == candidates.len(),
        decreases candidates.len() - i,
    {
        let path = candidates[i].as_str();
        let found = probe(path);
        assert(path@ == ps[i as int]);
        assert(existence_reported(ps[i as int], found));
        present.push(found);
        if found {
            break;
        }
        i = i + 1;
    }
    let r = first_present_path(&candidates, &present);
    proof {
        lemma_first_present_member(ps, present@);
        lemma_first_present_is_first_reported(ps, present@, i as int);
        assert(is_first_reported(ps, opt_string_view(r)));
    }
    r
}

/// Where the answers `present` are those reported for the first paths, all
/// missing but possibly the last, which ends the checks, `first_present` is the
/// first reported path.
proof fn lemma_first_present_is_first_reported(paths: Seq<Seq<char>>, present: Seq<bool>, i: int)
    requires
        0 <= i <= paths.len(),
        present.len() == i || (present.len() == i + 1 && i < paths.len() && present[i]),
        forall|j: int| 0 <= j < i ==> !present[j],
        forall|j: int| 0 <= j < present.len() ==> existence_reported(paths[j], #[trigger] present[j]),
        present.len() == i ==> i == paths.len(),
    ensures
        is_first_reported(paths, first_present(paths, present)),
{
    lemma_first_present_prefix(paths, present, i);
    if present.len() == i {
        assert forall|j: int| 0 <= j < paths.len() implies existence_reported(
            #[trigger] paths[j],
            false,
        ) by {
            assert(!present[j]);
        }
    } else {
        assert(existence_reported(paths[i], present[i]));
        assert forall|j: int| 0 <= j < i implies existence_reported(#[trigger] paths[j], false) by {
            assert(!present[j]);
        }
    }
}

/// `first_present` skips the answers that report missing files: it is `None`
/// when all of them do, and otherwise the path of the first that does not.
proof fn lemma_first_present_prefix(paths: Seq<Seq<char>>, present: Seq<bool>, i: int)
    requires
        0 <= i <= paths.len(),
        i <= present.len(),
        forall|j: int| 0 <= j < i ==> !present[j],
    ensures
        present.len() == i ==> first_present(paths, present) is None,
        i < present.len() && i < paths.len() && present[i] ==> first_present(paths, present) == Some(
            paths[i],
        ),
    decreases i,
{
    if i > 0 {
        assert(paths.len() > 0 && present.len() > 0 && !present[0]);
        assert forall|j: int| 0 <= j < i - 1 implies !present.drop_first()[j] by {
            assert(present.drop_first()[j] == present[j + 1]);
        }
        lemma_first_present_prefix(paths.drop_first(), present.drop_first(), i - 1);
        if i < present.len() && i < paths.len() {
            assert(paths.drop_first()[i - 1] == paths[i]);
            assert(present.drop_first()[i - 1] == present[i]);
        }
    }
}

/// Where no path was reported both existing and missing (the disk did not
/// change between checks), the first reported path is determined: the checks
/// made in order have one outcome. In particular, when the first path (the
/// event's own sound) was reported to exist and never missing, it is the one.
pub proof fn lemma_first_reported_is_determined(
    paths: Seq<Seq<char>>,
    r1: Option<Seq<char>>,
    r2: Option<Seq<char>>,
)
    requires
        forall|j: int|
            0 <= j < paths.len() ==> !(existence_reported(#[trigger] paths[j], true)
                && existence_reported(paths[j], false)),
        is_first_reported(paths, r1),
    ensures
        is_first_reported(paths, r2) ==> r1 == r2,
        paths.len() > 0 && existence_reported(paths[0], true) ==> r1 == Some(paths[0]),
{
    if paths.len() > 0 && existence_reported(paths[0], true) {
        if r1 is None {
            assert(existence_reported(paths[0], false));
        } else {
            let i = choose|i: int|
                0 <= i < paths.len() && paths[i] == r1->0 && #[trigger] existence_reported(
                    paths[i],
                    true,
                ) && forall|j: int| 0 <= j < i ==> existence_reported(#[trigger] paths[j], false);
            if i > 0 {
                assert(existence_reported(paths[0], false));
            }
        }
    }
    if is_first_reported(paths, r2) {
        match (r1, r2) {
            (Some(p1), Some(p2)) => {
                let i1 = choose|i: int|
                    0 <= i < paths.len() && paths[i] == p1 && #[trigger] existence_reported(
                        paths[i],
                        true,
                    ) && forall|j: int| 0 <= j < i ==> existence_reported(#[trigger] paths[j], false);
                let i2 = choose|i: int|
                    0 <= i < paths.len() && paths[i] == p2 && #[trigger] existence_reported(
                        paths[i],
                        true,
                    ) && forall|j: int| 0 <= j < i ==> existence_reported(#[trigger] paths[j], false);
                if i1 < i2 {
                    assert(existence_reported(paths[i1], false));
                } else if i2 < i1 {
                    assert(existence_reported(paths[i2], false));
                }
            },
            (Some(p1), None) => {
                let i1 = choose|i: int|
                    0 <= i < paths.len() && paths[i] == p1 && #[trigger] existence_reported(
                        paths[i],
                        true,
                    ) && forall|j: int| 0 <= j < i ==> existence_reported(#[trigger] paths[j], false);
                assert(existence_reported(paths[i1], false));
            },
            (None, Some(p2)) => {
                let i2 = choose|i: int|
                    0 <= i < paths.len() && paths[i] == p2 && #[trigger] existence_reported(
                        paths[i],
                        true,
                    ) && forall|j: int| 0 <= j < i ==> existence_reported(#[trigger] paths[j], false);
                assert(existence_reported(paths[i2], false));
            },
            (None, None) => {},
        }
    }
}

/// A path that `first_present` picks is one of the paths.
proof fn lemma_first_present_member(paths: Seq<Seq<char>>, present: Seq<bool>)
    ensures
        first_present(paths, present) matches Some(p) ==> paths.contains(p),
    decreases paths.len(),
{
    if paths.len() > 0 && present.len() > 0 && !present[0] {
        lemma_first_present_member(paths.drop_first(), present.drop_first());
        if first_present(paths, present) is Some {
            let p = first_present(paths, present)->0;
            let k = choose|k: int| 0 <= k < paths.drop_first().len() && paths.drop_first()[k] == p;
            assert(paths[k + 1] == p);
        }
    }
}

/// Whether `name` ends in the `.wav` extension.
pub open spec fn is_wav_name(name: Seq<char>) -> bool {
    ".wav"@.is_suffix_of(name)
}

/// An event type has a primary sound, alternatives, and so candidate paths,
/// exactly when it is one of the valid event types.
pub proof fn lemma_sounds_exactly_for_valid_events(e: Seq<char>, sep: char)
    ensures
        system_sound_name(e) is Some <==> is_valid_event_name(e),
        alternative_sound_names(e).len() > 0 <==> is_valid_event_name(e),
        candidate_paths(e, sep).len() > 0 <==> is_valid_event_name(e),
{
    let names = crate::events::valid_event_names();
    if system_sound_name(e) is Some {
        if e == "complete"@ {
            assert(names[0] == e);
        } else if e == "error"@ {
            assert(names[1] == e);
        } else if e == "attention"@ {
            assert(names[2] == e);
        } else if e == "stop"@ {
            assert(names[3] == e);
        } else {
            assert(names[4] == e);
        }
    }
    if is_valid_event_name(e) {
        let i = choose|i: int| 0 <= i < names.len() && names[i] == e;
        assert(0 <= i < 5);
    }
}

/// Distinct valid event types play distinct primary sounds.
pub proof fn lemma_distinct_events_distinct_sounds(e1: Seq<char>, e2: Seq<char>)
    requires
        is_valid_event_name(e1),
        is_valid_event_name(e2),
        e1 != e2,
    ensures
        system_sound_name(e1) != system_sound_name(e2),
{
    reveal_strlit("complete");
    reveal_strlit("error");
    reveal_strlit("attention");
    reveal_strlit("stop");
    reveal_strlit("session-end");
    reveal_strlit("Windows Notify System Generic.wav");
    reveal_strlit("Windows Critical Stop.wav");
    reveal_strlit("Windows Notify Calendar.wav");
    reveal_strlit("Windows Notify Email.wav");
    reveal_strlit("Windows Logoff Sound.wav");
    lemma_sounds_exactly_for_valid_events(e1, '/');
    lemma_sounds_exactly_for_valid_events(e2, '/');
    assert("complete"@.len() == 8 && "error"@.len() == 5 && "attention"@.len() == 9);
    assert("stop"@.len() == 4 && "session-end"@.len() == 11);
    assert("Windows Notify System Generic.wav"@.len() == 33);
    assert("Windows Critical Stop.wav"@.len() == 25);
    assert("Windows Notify Calendar.wav"@.len() == 27);
    assert("Windows Notify Email.wav"@[8] != "Windows Logoff Sound.wav"@[8]);
}


/// Every sound file named for a valid event type, primary or alternative, is a `.wav` file.
pub proof fn lemma_sound_files_are_wav(e: Seq<char>)
    requires
        is_valid_event_name(e),
    ensures
        system_sound_name(e) matches Some(n) && is_wav_name(n),
        forall|i: int| 0 <= i < alternative_sound_names(e).len()
            ==> is_wav_name(#[trigger] alternative_sound_names(e)[i]),
{
    lemma_sounds_exactly_for_valid_events(e, '/');
    reveal_strlit(".wav");
    reveal_strlit("Windows Notify System Generic.wav");
    reveal_strlit("Windows Critical Stop.wav");
    reveal_strlit("Windows Notify Calendar.wav");
    reveal_strlit("Windows Notify Email.wav");
    reveal_strlit("Windows Logoff Sound.wav");
    reveal_strlit("notify.wav");
    reveal_strlit("tada.wav");
    reveal_strlit("Windows Notify.wav");
    reveal_strlit("Windows Error.wav");
    reveal_strlit("Windows Hardware Fail.wav");
    reveal_strlit("chord.wav");
    reveal_strlit("Windows Balloon.wav");
    reveal_strlit("ding.wav");
    reveal_strlit("Windows Information Bar.wav");
    reveal_strlit("Windows Unlock.wav");
    reveal_strlit("Windows Shutdown.wav");
    reveal_strlit("Windows Logoff.wav");
}

} // verus!
