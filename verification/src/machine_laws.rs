//! What holds of the look at the machine and of the search for tools, in terms of what
//! the machine is like.

use crate::env_check;
use crate::env_check::{Disk, Findings};
use crate::number;
use crate::paths::Platform;
use crate::python_runtime;
use crate::search;
use crate::search::{CandidateView, PlaceView, SearchView, StageView, World};
use crate::text;
use crate::text_laws;
use vstd::prelude::*;

verus! {

/// What Python prints as its version: a name, white space, the version with or without
/// a patch behind it, and white space at both ends.
pub open spec fn version_line(
    before: Seq<char>,
    name: Seq<char>,
    gap: Seq<char>,
    major: u32,
    minor: u32,
    patch: Seq<char>,
    after: Seq<char>,
) -> Seq<char> {
    before + name + gap + (number::decimal(major as nat) + seq!['.'] + number::decimal(
        minor as nat,
    ) + patch) + after
}

/// Whether the parts of a version line are what they are said to be.
pub open spec fn is_version_line(
    before: Seq<char>,
    name: Seq<char>,
    gap: Seq<char>,
    patch: Seq<char>,
    after: Seq<char>,
) -> bool {
    &&& forall|j: int| 0 <= j < before.len() ==> text::is_space(#[trigger] before[j])
    &&& name.len() > 0
    &&& forall|j: int| 0 <= j < name.len() ==> !text::is_space(#[trigger] name[j])
    &&& gap.len() > 0
    &&& forall|j: int| 0 <= j < gap.len() ==> text::is_space(#[trigger] gap[j])
    &&& forall|j: int| 0 <= j < patch.len() ==> !text::is_space(#[trigger] patch[j])
    &&& patch.len() > 0 ==> patch[0] == '.'
    &&& after.len() > 0 ==> text::is_space(after[0])
}

/// A version as one number, so that later versions are greater.
pub open spec fn rank(major: u32, minor: u32) -> int {
    major * 0x1_0000_0000 + minor
}

/// A Python is new enough exactly where the version that it prints is 3.10 or later.
pub proof fn python_is_accepted_from_3_10_on(
    before: Seq<char>,
    name: Seq<char>,
    gap: Seq<char>,
    major: u32,
    minor: u32,
    patch: Seq<char>,
    after: Seq<char>,
)
    requires
        is_version_line(before, name, gap, patch, after),
    ensures
        env_check::supported(version_line(before, name, gap, major, minor, patch, after)) <==> rank(
            major,
            minor,
        ) >= rank(3, 10),
{
    env_check::a_printed_version_is_read_back(before, name, gap, major, minor, patch, after);
}

/// Acceptance never ends as the version grows: where a Python is accepted, every later
/// one is, however either prints its version.
pub proof fn a_later_python_is_accepted_too(
    before: Seq<char>,
    name: Seq<char>,
    gap: Seq<char>,
    patch: Seq<char>,
    after: Seq<char>,
    major: u32,
    minor: u32,
    later_major: u32,
    later_minor: u32,
    later_patch: Seq<char>,
)
    requires
        is_version_line(before, name, gap, patch, after),
        is_version_line(before, name, gap, later_patch, after),
        env_check::supported(version_line(before, name, gap, major, minor, patch, after)),
        rank(major, minor) <= rank(later_major, later_minor),
    ensures
        env_check::supported(
            version_line(before, name, gap, later_major, later_minor, later_patch, after),
        ),
{
    python_is_accepted_from_3_10_on(before, name, gap, major, minor, patch, after);
    python_is_accepted_from_3_10_on(
        before,
        name,
        gap,
        later_major,
        later_minor,
        later_patch,
        after,
    );
}

/// What prints no version is not accepted: a version is read only where there is a
/// second word that begins with a number, a dot and a number.
pub proof fn what_prints_no_version_is_not_accepted(output: Seq<char>)
    ensures
        env_check::supported(output) ==> env_check::version_in(output) is Some,
        text::words(output).len() < 2 ==> env_check::version_in(output) is None,
        text::words(output).len() >= 2 && text::fields(text::words(output)[1], '.').len() < 2
            ==> env_check::version_in(output) is None,
        text::words(output).len() >= 2 && text::fields(text::words(output)[1], '.').len() >= 2 ==> {
            let parts = text::fields(text::words(output)[1], '.');
            let major = number::unsigned(parts[0], 4294967295);
            let minor = number::unsigned(parts[1], 4294967295);
            &&& major is None || minor is None ==> env_check::version_in(output) is None
            &&& major is Some && minor is Some ==> env_check::version_in(output) == Some(
                (major->0 as u32, minor->0 as u32),
            )
        },
{
}

/// The places where Python is looked for, in order: first what the system finds under
/// each name, then each name in each of the usual directories.
pub proof fn where_python_is_looked_for(local_app_data: Option<Seq<char>>)
    ensures
        ({
            let on_path = |n: Seq<char>| CandidateView::OnPath(n);
            let at = |dir: Seq<char>, n: Seq<char>| CandidateView::At((dir, seq![n]));
            &&& env_check::python_candidates(Platform::Linux, local_app_data) == seq![
                on_path("python3"@),
                on_path("python"@),
                at("/usr/bin"@, "python3"@),
                at("/usr/bin"@, "python"@),
                at("/usr/local/bin"@, "python3"@),
                at("/usr/local/bin"@, "python"@),
            ]
            &&& env_check::python_candidates(Platform::MacOs, local_app_data) == seq![
                on_path("python3"@),
                on_path("python"@),
                at("/opt/homebrew/bin"@, "python3"@),
                at("/opt/homebrew/bin"@, "python"@),
                at("/usr/local/bin"@, "python3"@),
                at("/usr/local/bin"@, "python"@),
                at("/usr/bin"@, "python3"@),
                at("/usr/bin"@, "python"@),
            ]
            &&& env_check::python_candidates(Platform::Other, local_app_data) == seq![
                on_path("python3"@),
                on_path("python"@),
            ]
        }),
{
    reveal_with_fuel(env_check::in_dirs, 5);
    let none = Seq::<Seq<char>>::empty();
    assert(none.push("python3"@) =~= seq!["python3"@]);
    assert(none.push("python"@) =~= seq!["python"@]);
    let names = env_check::python_names(Platform::Linux);
    let on_path = |n: Seq<char>| CandidateView::OnPath(n);
    let at = |dir: Seq<char>, n: Seq<char>| CandidateView::At((dir, seq![n]));
    assert(env_check::on_path(names) =~= seq![on_path("python3"@), on_path("python"@)]);
    let ub = ("/usr/bin"@, none);
    let ul = ("/usr/local/bin"@, none);
    let oh = ("/opt/homebrew/bin"@, none);
    let lx = env_check::python_dirs(Platform::Linux, local_app_data);
    assert(lx.drop_last() =~= seq![ub]);
    assert(seq![ub].drop_last() =~= Seq::<PlaceView>::empty());
    assert(env_check::in_dir(Platform::Linux, ub, names) =~= seq![
        at("/usr/bin"@, "python3"@),
        at("/usr/bin"@, "python"@),
    ]);
    assert(env_check::in_dir(Platform::Linux, ul, names) =~= seq![
        at("/usr/local/bin"@, "python3"@),
        at("/usr/local/bin"@, "python"@),
    ]);
    assert(env_check::in_dirs(Platform::Linux, lx, names) =~= seq![
        at("/usr/bin"@, "python3"@),
        at("/usr/bin"@, "python"@),
        at("/usr/local/bin"@, "python3"@),
        at("/usr/local/bin"@, "python"@),
    ]);
    assert(env_check::python_candidates(Platform::Linux, local_app_data) =~= seq![
        on_path("python3"@),
        on_path("python"@),
        at("/usr/bin"@, "python3"@),
        at("/usr/bin"@, "python"@),
        at("/usr/local/bin"@, "python3"@),
        at("/usr/local/bin"@, "python"@),
    ]);
    let mac = env_check::python_dirs(Platform::MacOs, local_app_data);
    assert(mac.drop_last() =~= seq![oh, ul]);
    assert(seq![oh, ul].drop_last() =~= seq![oh]);
    assert(seq![oh].drop_last() =~= Seq::<PlaceView>::empty());
    assert(env_check::in_dir(Platform::MacOs, oh, names) =~= seq![
        at("/opt/homebrew/bin"@, "python3"@),
        at("/opt/homebrew/bin"@, "python"@),
    ]);
    assert(env_check::in_dir(Platform::MacOs, ul, names) =~= seq![
        at("/usr/local/bin"@, "python3"@),
        at("/usr/local/bin"@, "python"@),
    ]);
    assert(env_check::in_dir(Platform::MacOs, ub, names) =~= seq![
        at("/usr/bin"@, "python3"@),
        at("/usr/bin"@, "python"@),
    ]);
    assert(env_check::in_dirs(Platform::MacOs, seq![oh], names) =~= env_check::in_dir(
        Platform::MacOs,
        oh,
        names,
    ));
    assert(env_check::in_dirs(Platform::MacOs, seq![oh, ul], names) =~= env_check::in_dir(
        Platform::MacOs,
        oh,
        names,
    ) + env_check::in_dir(Platform::MacOs, ul, names));
    assert(env_check::python_candidates(Platform::MacOs, local_app_data) =~= seq![
        on_path("python3"@),
        on_path("python"@),
        at("/opt/homebrew/bin"@, "python3"@),
        at("/opt/homebrew/bin"@, "python"@),
        at("/usr/local/bin"@, "python3"@),
        at("/usr/local/bin"@, "python"@),
        at("/usr/bin"@, "python3"@),
        at("/usr/bin"@, "python"@),
    ]);
    assert(env_check::python_candidates(Platform::Other, local_app_data) =~= seq![
        on_path("python3"@),
        on_path("python"@),
    ]);
}

/// On Windows Python is looked for below the local application data, where that is
/// known: in the directories of the versions from 3.12 down to 3.10, under each name.
pub proof fn where_python_is_looked_for_on_windows(home: Seq<char>)
    ensures
        ({
            let found = seq![
                CandidateView::OnPath("python"@),
                CandidateView::OnPath("python3"@),
                CandidateView::OnPath("py"@),
            ];
            let at = |version: Seq<char>, file: Seq<char>|
                CandidateView::At((home, seq!["Programs"@, "Python"@, version, file + ".exe"@]));
            &&& env_check::python_candidates(Platform::Windows, None) == found
            &&& env_check::python_candidates(Platform::Windows, Some(home)) == found + seq![
                at("Python312"@, "python"@),
                at("Python312"@, "python3"@),
                at("Python312"@, "py"@),
                at("Python311"@, "python"@),
                at("Python311"@, "python3"@),
                at("Python311"@, "py"@),
                at("Python310"@, "python"@),
                at("Python310"@, "python3"@),
                at("Python310"@, "py"@),
            ]
        }),
{
    reveal_with_fuel(env_check::in_dirs, 5);
    let w = Platform::Windows;
    let found = seq![
        CandidateView::OnPath("python"@),
        CandidateView::OnPath("python3"@),
        CandidateView::OnPath("py"@),
    ];
    let at = |version: Seq<char>, file: Seq<char>|
        CandidateView::At((home, seq!["Programs"@, "Python"@, version, file + ".exe"@]));
    let names = env_check::python_names(w);
    assert(env_check::on_path(names) =~= found);
    let a = (home, seq!["Programs"@, "Python"@, "Python312"@]);
    let b = (home, seq!["Programs"@, "Python"@, "Python311"@]);
    let c = (home, seq!["Programs"@, "Python"@, "Python310"@]);
    lemma_in_windows_dir(home, "Python312"@);
    lemma_in_windows_dir(home, "Python311"@);
    lemma_in_windows_dir(home, "Python310"@);
    let dirs = env_check::python_dirs(w, Some(home));
    assert(dirs.drop_last() =~= seq![a, b]);
    assert(seq![a, b].drop_last() =~= seq![a]);
    assert(seq![a].drop_last() =~= Seq::<PlaceView>::empty());
    assert(env_check::in_dirs(w, seq![a], names) =~= env_check::in_dir(w, a, names));
    assert(env_check::in_dirs(w, seq![a, b], names) =~= env_check::in_dir(w, a, names)
        + env_check::in_dir(w, b, names));
    assert(env_check::python_candidates(w, Some(home)) =~= found + seq![
        at("Python312"@, "python"@),
        at("Python312"@, "python3"@),
        at("Python312"@, "py"@),
        at("Python311"@, "python"@),
        at("Python311"@, "python3"@),
        at("Python311"@, "py"@),
        at("Python310"@, "python"@),
        at("Python310"@, "python3"@),
        at("Python310"@, "py"@),
    ]);
    assert(env_check::python_candidates(w, None) =~= found);
}

proof fn lemma_in_windows_dir(home: Seq<char>, version: Seq<char>)
    ensures
        ({
            let at = |file: Seq<char>|
                CandidateView::At((home, seq!["Programs"@, "Python"@, version, file + ".exe"@]));
            env_check::in_dir(
                Platform::Windows,
                (home, seq!["Programs"@, "Python"@, version]),
                env_check::python_names(Platform::Windows),
            ) == seq![at("python"@), at("python3"@), at("py"@)]
        }),
{
    let dir = seq!["Programs"@, "Python"@, version];
    let at = |file: Seq<char>|
        CandidateView::At((home, seq!["Programs"@, "Python"@, version, file + ".exe"@]));
    assert forall|file: Seq<char>| #[trigger] dir.push(file) == seq![
        "Programs"@,
        "Python"@,
        version,
        file,
    ] by {
        assert(dir.push(file) =~= seq!["Programs"@, "Python"@, version, file]);
    }
    assert(env_check::in_dir(
        Platform::Windows,
        (home, dir),
        env_check::python_names(Platform::Windows),
    ) =~= seq![at("python"@), at("python3"@), at("py"@)]);
}

/// The places where `uv` is looked for, in order: what the system finds on its search
/// path, two places below the home directory where that is known, and on Windows where
/// its installer puts it, where the local application data is known.
pub proof fn where_uv_is_looked_for(
    platform: Platform,
    home: Seq<char>,
    local_app_data: Seq<char>,
    unused: Option<Seq<char>>,
)
    ensures
        platform != Platform::Windows ==> {
            &&& python_runtime::uv_candidates(platform, Some(home), unused) == seq![
                CandidateView::OnPath("uv"@),
                CandidateView::At((home, seq![".local"@, "bin"@, "uv"@])),
                CandidateView::At((home, seq![".cargo"@, "bin"@, "uv"@])),
            ]
            &&& python_runtime::uv_candidates(platform, None, unused) == seq![
                CandidateView::OnPath("uv"@),
            ]
        },
        python_runtime::uv_candidates(Platform::Windows, Some(home), Some(local_app_data)) == seq![
            CandidateView::OnPath("uv.exe"@),
            CandidateView::At((home, seq![".local"@, "bin"@, "uv.exe"@])),
            CandidateView::At((home, seq![".cargo"@, "bin"@, "uv.exe"@])),
            CandidateView::At((local_app_data, seq!["Programs"@, "uv"@, "uv.exe"@])),
        ],
        python_runtime::uv_candidates(Platform::Windows, Some(home), None) == seq![
            CandidateView::OnPath("uv.exe"@),
            CandidateView::At((home, seq![".local"@, "bin"@, "uv.exe"@])),
            CandidateView::At((home, seq![".cargo"@, "bin"@, "uv.exe"@])),
        ],
        python_runtime::uv_candidates(Platform::Windows, None, Some(local_app_data)) == seq![
            CandidateView::OnPath("uv.exe"@),
            CandidateView::At((local_app_data, seq!["Programs"@, "uv"@, "uv.exe"@])),
        ],
        python_runtime::uv_candidates(Platform::Windows, None, None) == seq![
            CandidateView::OnPath("uv.exe"@),
        ],
{
    if platform != Platform::Windows {
        assert(python_runtime::uv_candidates(platform, Some(home), unused) =~= seq![
            CandidateView::OnPath("uv"@),
            CandidateView::At((home, seq![".local"@, "bin"@, "uv"@])),
            CandidateView::At((home, seq![".cargo"@, "bin"@, "uv"@])),
        ]);
        assert(python_runtime::uv_candidates(platform, None, unused) =~= seq![
            CandidateView::OnPath("uv"@),
        ]);
    }
    assert(python_runtime::uv_candidates(Platform::Windows, Some(home), Some(local_app_data)) =~= seq![
        CandidateView::OnPath("uv.exe"@),
        CandidateView::At((home, seq![".local"@, "bin"@, "uv.exe"@])),
        CandidateView::At((home, seq![".cargo"@, "bin"@, "uv.exe"@])),
        CandidateView::At((local_app_data, seq!["Programs"@, "uv"@, "uv.exe"@])),
    ]);
    assert(python_runtime::uv_candidates(Platform::Windows, Some(home), None) =~= seq![
        CandidateView::OnPath("uv.exe"@),
        CandidateView::At((home, seq![".local"@, "bin"@, "uv.exe"@])),
        CandidateView::At((home, seq![".cargo"@, "bin"@, "uv.exe"@])),
    ]);
    assert(python_runtime::uv_candidates(Platform::Windows, None, Some(local_app_data)) =~= seq![
        CandidateView::OnPath("uv.exe"@),
        CandidateView::At((local_app_data, seq!["Programs"@, "uv"@, "uv.exe"@])),
    ]);
    assert(python_runtime::uv_candidates(Platform::Windows, None, None) =~= seq![
        CandidateView::OnPath("uv.exe"@),
    ]);
}

/// A tool at a fixed place is good where it is there; a Python, where moreover it prints
/// a version that is new enough.
pub proof fn what_is_good_at_a_fixed_place(w: World, place: PlaceView)
    ensures
        search::accepted(w, CandidateView::At(place), false) == (if (w.exists)(place) {
            Some(place)
        } else {
            None
        }),
        search::accepted(w, CandidateView::At(place), true) == (if (w.exists)(place) && (
        w.version)(place) is Some && env_check::supported((w.version)(place)->0) {
            Some(place)
        } else {
            None
        }),
{
}

/// What the system finds under a name is at the place that the first line of its answer
/// gives, whatever white space stands around it and whatever lines follow. It is good
/// where it is there; a Python, where it prints a version that is new enough.
pub proof fn what_is_good_on_the_search_path(
    w: World,
    name: Seq<char>,
    before: Seq<char>,
    path: Seq<char>,
    after: Seq<char>,
    rest: Seq<char>,
)
    requires
        (w.located)(name) == Some(before + path + after + seq!['\n'] + rest),
        text_laws::is_blank(before),
        text_laws::is_blank(after),
        path.len() > 0 ==> !text::is_space(path.first()) && !text::is_space(path.last()),
        forall|j: int|
            0 <= j < (before + path + after).len() ==> #[trigger] (before + path + after)[j]
                != '\n',
        (before + path + after).len() > 0 ==> (before + path + after).last() != '\r',
    ensures
        ({
            let place = (path, Seq::<Seq<char>>::empty());
            &&& search::accepted(w, CandidateView::OnPath(name), false) == (if path.len() > 0 && (
            w.exists)(place) {
                Some(place)
            } else {
                None
            })
            &&& search::accepted(w, CandidateView::OnPath(name), true) == (if path.len() > 0 && (
            w.version)(place) is Some && env_check::supported((w.version)(place)->0) {
                Some(place)
            } else {
                None
            })
        }),
{
    let line = before + path + after;
    let output = line + seq!['\n'] + rest;
    text_laws::lines_end_at_line_feeds(line, rest);
    text_laws::the_first_line_is_the_first_of_the_lines(output);
    text_laws::trimming_finds_the_text(before, path, after);
    assert(text::lines_of(output)[0] == line);
}

/// What the system does not find, or finds nothing under, is not good.
pub proof fn what_is_not_found_is_not_good(w: World, name: Seq<char>, wants_python: bool)
    ensures
        (w.located)(name) is None ==> search::accepted(
            w,
            CandidateView::OnPath(name),
            wants_python,
        ) is None,
        (w.located)(name) == Some(Seq::<char>::empty()) ==> search::accepted(
            w,
            CandidateView::OnPath(name),
            wants_python,
        ) is None,
{
    text_laws::the_first_line_is_the_first_of_the_lines(Seq::empty());
    let none = Seq::<char>::empty();
    text_laws::trimming_finds_the_text(none, none, none);
    assert(none + none + none =~= none);
    assert(text::first_line_of(none) =~= none);
}

/// A search finds a place exactly where some candidate is good there and none of the
/// candidates before it is good; it finds nothing exactly where none is good.
pub proof fn a_search_finds_the_first_good_candidate(
    w: World,
    candidates: Seq<CandidateView>,
    wants_python: bool,
    place: PlaceView,
)
    ensures
        ({
            let found = search::run(
                w,
                SearchView { rest: candidates, stage: StageView::Look, wants_python },
            );
            &&& found is None <==> forall|i: int|
                0 <= i < candidates.len() ==> search::accepted(
                    w,
                    #[trigger] candidates[i],
                    wants_python,
                ) is None
            &&& found == Some(place) ==> exists|i: int|
                {
                    &&& 0 <= i < candidates.len()
                    &&& search::accepted(w, #[trigger] candidates[i], wants_python) == Some(place)
                    &&& forall|j: int|
                        0 <= j < i ==> search::accepted(
                            w,
                            #[trigger] candidates[j],
                            wants_python,
                        ) is None
                }
        }),
{
    search::whole_search_finds_the_first(w, candidates, wants_python);
    lemma_first(w, candidates, wants_python);
    if search::first_accepted(w, candidates, wants_python) is Some {
        let i = choose|i: int|
            {
                &&& 0 <= i < candidates.len()
                &&& search::accepted(w, #[trigger] candidates[i], wants_python)
                    == search::first_accepted(w, candidates, wants_python)
                &&& forall|j: int|
                    0 <= j < i ==> search::accepted(w, #[trigger] candidates[j], wants_python) is None
            };
        assert(search::accepted(w, candidates[i], wants_python) is Some);
    }
}

proof fn lemma_first(w: World, candidates: Seq<CandidateView>, wants_python: bool)
    ensures
        ({
            let found = search::first_accepted(w, candidates, wants_python);
            &&& found is None ==> forall|i: int|
                0 <= i < candidates.len() ==> search::accepted(
                    w,
                    #[trigger] candidates[i],
                    wants_python,
                ) is None
            &&& found is Some ==> exists|i: int|
                {
                    &&& 0 <= i < candidates.len()
                    &&& search::accepted(w, #[trigger] candidates[i], wants_python) == found
                    &&& forall|j: int|
                        0 <= j < i ==> search::accepted(
                            w,
                            #[trigger] candidates[j],
                            wants_python,
                        ) is None
                }
        }),
    decreases candidates.len(),
{
    let found = search::first_accepted(w, candidates, wants_python);
    if candidates.len() > 0 {
        if search::accepted(w, candidates[0], wants_python) is Some {
            assert(search::accepted(w, candidates[0], wants_python) == found);
        } else {
            let rest = candidates.drop_first();
            lemma_first(w, rest, wants_python);
            if found is Some {
                let i = choose|i: int|
                    {
                        &&& 0 <= i < rest.len()
                        &&& search::accepted(w, #[trigger] rest[i], wants_python) == found
                        &&& forall|j: int|
                            0 <= j < i ==> search::accepted(
                                w,
                                #[trigger] rest[j],
                                wants_python,
                            ) is None
                    };
                assert(candidates[i + 1] == rest[i]);
                assert forall|j: int| 0 <= j < i + 1 implies search::accepted(
                    w,
                    #[trigger] candidates[j],
                    wants_python,
                ) is None by {
                    if j > 0 {
                        assert(candidates[j] == rest[j - 1]);
                    }
                }
                assert(search::accepted(w, candidates[i + 1], wants_python) == found);
            } else {
                assert forall|i: int| 0 <= i < candidates.len() implies search::accepted(
                    w,
                    #[trigger] candidates[i],
                    wants_python,
                ) is None by {
                    if i > 0 {
                        assert(candidates[i] == rest[i - 1]);
                    }
                }
            }
        }
    }
}

/// A size is shown in tenths of a gigabyte, a gigabyte being 1073741824 bytes: the
/// number of tenths that is nearest, and of two that are equally near the even one.
pub proof fn sizes_are_rounded_to_the_nearest_tenth(bytes: nat)
    ensures
        ({
            let shown = env_check::tenths(bytes) * 1073741824;
            &&& -1073741824 <= 2 * (shown - 10 * bytes) <= 1073741824
            &&& 2 * (shown - 10 * bytes) == 1073741824 || 2 * (shown - 10 * bytes) == -1073741824
                ==> env_check::tenths(bytes) % 2 == 0
            &&& env_check::gigabytes(bytes) == number::decimal(env_check::tenths(bytes) / 10)
                + "."@ + number::decimal(env_check::tenths(bytes) % 10)
        }),
{
}

/// The Python of the system is shown as it is; that of the virtual environment only
/// where the system has none and it gives its version, which is marked.
pub proof fn which_python_is_shown(f: Findings)
    ensures
        f.system_python matches Some(p) ==> env_check::shown_path(f) == Some(p.path@)
            && env_check::shown_version(f) == p.version.deep_view(),
        f.system_python is None && f.venv_python is None ==> env_check::shown_path(f) is None
            && env_check::shown_version(f) is None,
        f.system_python is None ==> (f.venv_python matches Some(p) ==> {
            &&& env_check::shown_path(f) is Some <==> p.version is Some
            &&& env_check::shown_path(f) matches Some(path) ==> path == p.path@
            &&& env_check::shown_version(f) is Some <==> p.version is Some
            &&& p.version matches Some(v) ==> env_check::shown_version(f) == Some(
                v@ + " (由 uv 管理)"@,
            )
        }),
{
}

/// What is wrong with a machine: first that there is no Python, then that there are less
/// than 3 gigabytes free on the disk, with how much there is. Less than 4 gigabytes of
/// memory are worth a warning, with how much there is. Nothing else is said.
pub proof fn what_is_said_of_a_machine(f: Findings)
    ensures
        ({
            let no_python = f.system_python is None && f.venv_python is None;
            let full = f.disk_free_bytes < 3 * 1073741824;
            let small = f.memory_bytes < 4 * 1073741824;
            let errors = env_check::errors_for(f);
            let warnings = env_check::warnings_for(f);
            &&& errors.len() == (if no_python { 1int } else { 0 }) + (if full { 1int } else { 0 })
            &&& no_python ==> errors[0] == "未找到 Python 3.10+。请安装 Python 3.10 或更高版本。\n"@ + (
            match f.platform {
                Platform::MacOs => "macOS: brew install python@3.10\n"@,
                Platform::Linux =>
                    "Linux: 使用包管理器安装，如 apt install python3 或 dnf install python3\n"@,
                Platform::Windows =>
                    "Windows: 从 python.org 下载安装，或使用 winget install Python.Python.3.12\n"@,
                Platform::Other => Seq::<char>::empty(),
            }) + "或从 https://www.python.org/downloads/ 下载"@
            &&& full ==> errors.last() == "磁盘空间不足（剩余 "@ + env_check::gigabytes(
                f.disk_free_bytes as nat,
            ) + " GB，建议至少 3 GB 用于安装依赖）"@
            &&& warnings.len() == (if small { 1int } else { 0 })
            &&& small ==> warnings[0] == "可用内存较小（"@ + env_check::gigabytes(
                f.memory_bytes as nat,
            ) + " GB），专家模式（深度学习）可能不稳定，建议使用极速模式"@
        }),
{
}

/// The free space that counts is that of a disk whose mount point leads to the directory
/// where every other such mount point is shorter. Where no mount point leads to it, it is
/// that of the first disk, and nothing where there is no disk.
pub proof fn the_deepest_mount_point_counts(dir: Seq<Seq<char>>, disks: Seq<Disk>, i: int)
    requires
        0 <= i < disks.len(),
        disks[i].mount_point.deep_view().is_prefix_of(dir),
        forall|j: int|
            #![trigger disks[j]]
            0 <= j < disks.len() && j != i && disks[j].mount_point.deep_view().is_prefix_of(dir)
                ==> disks[j].mount_point.deep_view().len() < disks[i].mount_point.deep_view().len(),
    ensures
        env_check::free_space(dir, disks) == disks[i].available,
{
    assert forall|j: int|
        #![trigger disks[j]]
        0 <= j < disks.len() && env_check::is_below(dir, disks[j]) implies disks[j].mount_point@.len()
        <= disks[i].mount_point@.len() && (j < i ==> disks[j].mount_point@.len()
        < disks[i].mount_point@.len()) by {
        assert(disks[j].mount_point.deep_view().len() == disks[j].mount_point@.len());
        assert(disks[i].mount_point.deep_view().len() == disks[i].mount_point@.len());
    }
    assert(env_check::is_disk_of(dir, disks, i));
    env_check::a_directory_is_on_one_disk(
        dir,
        disks,
        i,
        choose|k: int| env_check::is_disk_of(dir, disks, k),
    );
}

/// Where no mount point leads to the directory the first disk counts, and nothing where
/// there is none. Of two disks at the same place the first does.
pub proof fn the_first_disk_counts_otherwise(dir: Seq<Seq<char>>, disks: Seq<Disk>)
    ensures
        disks.len() == 0 ==> env_check::free_space(dir, disks) == 0,
        disks.len() > 0 && (forall|j: int|
            #![trigger disks[j]]
            0 <= j < disks.len() ==> !disks[j].mount_point.deep_view().is_prefix_of(dir))
            ==> env_check::free_space(dir, disks) == disks[0].available,
        disks.len() > 0 && (forall|j: int|
            #![trigger disks[j]]
            0 <= j < disks.len() ==> disks[j].mount_point.deep_view()
                == disks[0].mount_point.deep_view()) ==> env_check::free_space(dir, disks)
            == disks[0].available,
{
    if disks.len() > 0 && (forall|j: int|
        #![trigger disks[j]]
        0 <= j < disks.len() ==> disks[j].mount_point.deep_view()
            == disks[0].mount_point.deep_view()) {
        if env_check::is_below(dir, disks[0]) {
            assert forall|j: int|
                #![trigger disks[j]]
                0 <= j < disks.len() && env_check::is_below(dir, disks[j]) implies disks[j].mount_point@.len()
                <= disks[0].mount_point@.len() by {
                assert(disks[j].mount_point.deep_view().len() == disks[j].mount_point@.len());
                assert(disks[0].mount_point.deep_view().len() == disks[0].mount_point@.len());
            }
            assert(env_check::is_disk_of(dir, disks, 0));
            env_check::a_directory_is_on_one_disk(
                dir,
                disks,
                0,
                choose|k: int| env_check::is_disk_of(dir, disks, k),
            );
        } else {
            assert forall|j: int| 0 <= j < disks.len() implies !env_check::is_below(
                dir,
                #[trigger] disks[j],
            ) by {}
        }
    }
}

} // verus!
