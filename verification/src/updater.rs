//! Keeping the code up to date.
//!
//! The commit that the main branch is at is compared with the one that the
//! installed code comes from. Where they differ the new code is downloaded and
//! put in place of the old, and what belongs to the user is left alone.

use crate::invocation::{ArgView, Invocation, InvocationView};
use crate::launcher;
use crate::launcher::{InstallState, InstallStateView};
use crate::text;
use vstd::prelude::*;

verus! {

/// Where the newest commit of the code can be asked for.
pub const COMMIT_URL: &'static str =
    "https://api.github.com/repos/zhaoyue4810/pianke/commits/main";

/// Where the code of a commit can be downloaded, up to the commit itself.
pub const TARBALL_URL: &'static str = "https://codeload.github.com/zhaoyue4810/pianke/tar.gz/";

/// The file beside the copy of the code that new code is downloaded to.
pub const TARBALL_FILE: &'static str = ".update.tar.gz";

/// The directory beside the copy of the code that new code is unpacked in.
pub const UNPACK_DIR: &'static str = ".update_tmp";

/// Prints the newest commit, or what went wrong.
pub const FETCH_SCRIPT: &'static str =
    "import urllib.request,json,sys\ntry:\n req=urllib.request.Request(sys.argv[1],headers={'User-Agent':'pianke-updater'})\n data=json.loads(urllib.request.urlopen(req,timeout=10).read())\n print(data.get('sha',''))\nexcept Exception as e:\n print('__ERROR__:',e)";

/// Downloads the second argument into the file that is the first.
pub const DOWNLOAD_SCRIPT: &'static str =
    "import sys,urllib.request\nreq=urllib.request.Request(sys.argv[2],headers={'User-Agent':'pianke-updater'})\ndata=urllib.request.urlopen(req,timeout=120).read()\nopen(sys.argv[1],'wb').write(data)\nprint('ok')";

/// Unpacks the file that is the first argument into the directory that is the
/// second.
pub const UNPACK_SCRIPT: &'static str =
    "import sys,tarfile\ntarfile.open(sys.argv[1],'r:gz').extractall(sys.argv[2])\nprint('ok')";

/// The command that asks for the newest commit.
pub fn fetch_command<'a, B>(python: &'a B) -> (r: Invocation<'a, B>)
    ensures
        r@ == (InvocationView {
            program: ArgView::Path(*python),
            args: seq![
                ArgView::Text("-c"@),
                ArgView::Text(FETCH_SCRIPT@),
                ArgView::Text(COMMIT_URL@),
            ],
        }),
{
    let r = Invocation::of_path(python).text("-c").text(FETCH_SCRIPT).text(COMMIT_URL);
    assert(r@.args =~= seq![
        ArgView::Text("-c"@),
        ArgView::Text(FETCH_SCRIPT@),
        ArgView::Text(COMMIT_URL@),
    ]);
    r
}

/// The commit that was printed, unless nothing was, or an error.
pub open spec fn printed_commit(output: Seq<char>) -> Option<Seq<char>> {
    let t = text::trimmed(output);
    if t.len() == 0 || "__ERROR__"@.is_prefix_of(t) {
        None
    } else {
        Some(t)
    }
}

/// The newest commit, out of what the command printed. There is none where the
/// network or the service failed.
pub fn fetch_remote_sha(output: &str) -> (r: Option<String>)
    ensures
        r.deep_view() == printed_commit(output@),
{
    let sha = text::trim(output);
    if sha.is_empty() || text::starts_with(sha, "__ERROR__") {
        None
    } else {
        Some(sha.to_string())
    }
}

/// A path as an argument: its text, or nothing where it cannot be written as text.
pub open spec fn path_text(path: Option<&str>) -> Seq<char> {
    match path {
        Some(t) => t@,
        None => seq![],
    }
}

fn path_argument<'t>(path: Option<&'t str>) -> (r: &'t str)
    ensures
        r@ == path_text(path),
{
    match path {
        Some(t) => t,
        None => {
            proof {
                reveal_strlit("");
                assert(""@ =~= Seq::<char>::empty());
            }
            ""
        },
    }
}

/// The command that downloads the code of a commit into a file.
pub fn download_tarball<'a, B>(sha: &str, dest: Option<&str>, python: &'a B) -> (r: Invocation<
    'a,
    B,
>)
    ensures
        r@ == (InvocationView {
            program: ArgView::Path(*python),
            args: seq![
                ArgView::Text("-c"@),
                ArgView::Text(DOWNLOAD_SCRIPT@),
                ArgView::Text(path_text(dest)),
                ArgView::Text(TARBALL_URL@ + sha@),
            ],
        }),
{
    let mut url = TARBALL_URL.to_string();
    url.append(sha);
    let r = Invocation::of_path(python).text("-c").text(DOWNLOAD_SCRIPT).text(
        path_argument(dest),
    ).text(url.as_str());
    assert(r@.args =~= seq![
        ArgView::Text("-c"@),
        ArgView::Text(DOWNLOAD_SCRIPT@),
        ArgView::Text(path_text(dest)),
        ArgView::Text(TARBALL_URL@ + sha@),
    ]);
    r
}

/// What comes of the download: where it did not succeed, the reason to give, with
/// the status as the system words it.
pub fn download_outcome(success: bool, status: &str) -> (r: Result<(), String>)
    ensures
        success ==> r is Ok,
        !success ==> (r matches Err(why) && why@ == "Download failed with status: "@ + status@),
{
    if success {
        Ok(())
    } else {
        let mut why = "Download failed with status: ".to_string();
        why.append(status);
        Err(why)
    }
}

/// The command that unpacks what was downloaded.
pub fn unpack_command<'a, B>(tar: Option<&str>, unpack_dir: Option<&str>, python: &'a B) -> (r:
    Invocation<'a, B>)
    ensures
        r@ == (InvocationView {
            program: ArgView::Path(*python),
            args: seq![
                ArgView::Text("-c"@),
                ArgView::Text(UNPACK_SCRIPT@),
                ArgView::Text(path_text(tar)),
                ArgView::Text(path_text(unpack_dir)),
            ],
        }),
{
    let r = Invocation::of_path(python).text("-c").text(UNPACK_SCRIPT).text(
        path_argument(tar),
    ).text(path_argument(unpack_dir));
    assert(r@.args =~= seq![
        ArgView::Text("-c"@),
        ArgView::Text(UNPACK_SCRIPT@),
        ArgView::Text(path_text(tar)),
        ArgView::Text(path_text(unpack_dir)),
    ]);
    r
}

/// What an update leaves alone: names, and endings of names behind a star.
pub const PRESERVE: [&'static str; 11] = [
    ".venv",
    ".pic_selecter_install.json",
    ".pic_selecter_deps.stamp",
    "__pycache__",
    ".git",
    ".cache",
    "state.json",
    "*.session.json",
    "img",
    "log.txt",
    ".DS_Store",
];

/// Whether a name is the pattern or, where the pattern begins with a star and a
/// dot, ends as the pattern does behind the star.
pub open spec fn matches_pattern(pattern: Seq<char>, name: Seq<char>) -> bool {
    if "*."@.is_prefix_of(pattern) {
        pattern.skip(1).is_suffix_of(name)
    } else {
        pattern == name
    }
}

/// Whether an update leaves the entry of that name alone.
pub open spec fn preserved(name: Seq<char>) -> bool {
    exists|i: int| 0 <= i < PRESERVE@.len() && #[trigger] matches_pattern(PRESERVE@[i]@, name)
}

/// Whether an update leaves the entry of that name alone.
pub fn should_preserve(name: &str) -> (r: bool)
    ensures
        r == preserved(name@),
{
    let mut i: usize = 0;
    while i < PRESERVE.len()
        invariant
            0 <= i <= PRESERVE@.len(),
            forall|j: int| 0 <= j < i ==> !#[trigger] matches_pattern(PRESERVE@[j]@, name@),
        decreases PRESERVE@.len() - i,
    {
        let pattern = PRESERVE[i];
        if text::starts_with(pattern, "*.") {
            proof {
                reveal_strlit("*.");
            }
            let ending = pattern.substring_char(1, pattern.unicode_len());
            assert(ending@ =~= pattern@.skip(1));
            if text::ends_with(name, ending) {
                assert(matches_pattern(PRESERVE@[i as int]@, name@));
                return true;
            }
        } else if text::same(pattern, name) {
            assert(matches_pattern(PRESERVE@[i as int]@, name@));
            return true;
        }
        i += 1;
    }
    false
}

/// What there is at a place.
#[derive(Debug, Clone, Copy, PartialEq, Eq, Structural)]
pub enum Occupant {
    Nothing,
    File,
    Directory,
}

/// What an update does about an entry of the new code.
#[derive(Debug, Clone, Copy, PartialEq, Eq, Structural)]
pub enum EntryPlan {
    /// Leave what is there alone.
    Preserve,
    /// Put the new entry there.
    Add,
    /// Remove the file that is there, and put the new entry there.
    ReplaceFile,
    /// Remove the directory that is there, and put the new entry there.
    ReplaceDirectory,
}

/// What an update does about an entry of the new code: nothing where the name is
/// one to leave alone, else it takes the place of whatever is there.
pub open spec fn entry_plan(name: Seq<char>, target: Occupant) -> EntryPlan {
    if preserved(name) {
        EntryPlan::Preserve
    } else {
        match target {
            Occupant::Nothing => EntryPlan::Add,
            Occupant::File => EntryPlan::ReplaceFile,
            Occupant::Directory => EntryPlan::ReplaceDirectory,
        }
    }
}

/// What an update does about an entry of the new code.
pub fn plan_entry(name: &str, target: Occupant) -> (r: EntryPlan)
    ensures
        r == entry_plan(name@, target),
{
    if should_preserve(name) {
        EntryPlan::Preserve
    } else {
        match target {
            Occupant::Nothing => EntryPlan::Add,
            Occupant::File => EntryPlan::ReplaceFile,
            Occupant::Directory => EntryPlan::ReplaceDirectory,
        }
    }
}

/// How far the putting in place of new code has come, and what is to be done next.
#[derive(Debug, Clone, Copy, PartialEq, Eq, Structural)]
pub enum ExtractStage {
    /// Make the directory to unpack in, empty.
    Clear,
    /// Run the command that unpacks.
    Unpack,
    /// Count the directories that unpacking left.
    Count,
    /// Take the next entry of the one directory there is.
    Place,
    /// Remove what was unpacked and what was downloaded.
    Tidy,
}

/// What came of the last thing to be done.
#[derive(Debug)]
pub enum ExtractEvent {
    /// It is done.
    Success,
    /// It failed, for this reason.
    Failure(String),
    /// The command ended: whether it reported success.
    Unpacked(bool),
    /// There are so many directories.
    Directories(usize),
    /// The next entry has this name, and this is what is in its place.
    Entry(String, Occupant),
    /// There is no further entry.
    NoEntry,
}

/// What an `ExtractEvent` says.
#[verifier::ext_equal]
pub enum ExtractEventView {
    Success,
    Failure(Seq<char>),
    Unpacked(bool),
    Directories(usize),
    Entry(Seq<char>, Occupant),
    NoEntry,
}

impl View for ExtractEvent {
    type V = ExtractEventView;

    open spec fn view(&self) -> ExtractEventView {
        match self {
            ExtractEvent::Success => ExtractEventView::Success,
            ExtractEvent::Failure(why) => ExtractEventView::Failure(why@),
            ExtractEvent::Unpacked(success) => ExtractEventView::Unpacked(*success),
            ExtractEvent::Directories(n) => ExtractEventView::Directories(*n),
            ExtractEvent::Entry(name, target) => ExtractEventView::Entry(name@, *target),
            ExtractEvent::NoEntry => ExtractEventView::NoEntry,
        }
    }
}

/// What follows in the putting in place of new code.
#[derive(Debug)]
pub enum ExtractNext {
    /// Go on with this stage.
    Go(ExtractStage),
    /// Do this about the entry, then take the next one.
    Put(EntryPlan),
    /// The new code is in place.
    InPlace,
    /// It failed, for this reason.
    Failed(String),
}

/// What an `ExtractNext` says.
#[verifier::ext_equal]
pub enum ExtractNextView {
    Go(ExtractStage),
    Put(EntryPlan),
    InPlace,
    Failed(Seq<char>),
}

impl View for ExtractNext {
    type V = ExtractNextView;

    open spec fn view(&self) -> ExtractNextView {
        match self {
            ExtractNext::Go(stage) => ExtractNextView::Go(*stage),
            ExtractNext::Put(plan) => ExtractNextView::Put(*plan),
            ExtractNext::InPlace => ExtractNextView::InPlace,
            ExtractNext::Failed(why) => ExtractNextView::Failed(why@),
        }
    }
}

/// Whether an event can come of what a stage asks for. What fails in tidying up does
/// not matter, so tidying up is simply done.
pub open spec fn extract_event_fits(stage: ExtractStage, event: ExtractEventView) -> bool {
    match stage {
        ExtractStage::Clear => event is Success || event is Failure,
        ExtractStage::Unpack => event is Unpacked || event is Failure,
        ExtractStage::Count => event is Directories || event is Failure,
        ExtractStage::Place => event is Entry || event is NoEntry || event is Failure,
        ExtractStage::Tidy => event is Success,
    }
}

/// What follows an event in the putting in place of new code: it is unpacked, looked
/// at, put in place entry by entry, and what was needed for that is removed.
pub open spec fn extract_step(stage: ExtractStage, event: ExtractEventView) -> ExtractNextView {
    match event {
        ExtractEventView::Success => if stage == ExtractStage::Clear {
            ExtractNextView::Go(ExtractStage::Unpack)
        } else {
            ExtractNextView::InPlace
        },
        ExtractEventView::Failure(why) => ExtractNextView::Failed(
            if stage == ExtractStage::Unpack {
                "Failed to extract tarball via Python"@
            } else {
                why
            },
        ),
        ExtractEventView::Unpacked(true) => ExtractNextView::Go(ExtractStage::Count),
        ExtractEventView::Unpacked(false) => ExtractNextView::Failed("tar extraction failed"@),
        ExtractEventView::Directories(n) => if n == 1 {
            ExtractNextView::Go(ExtractStage::Place)
        } else {
            ExtractNextView::Failed(
                "Unexpected tarball structure: expected 1 top-level directory"@,
            )
        },
        ExtractEventView::Entry(name, target) => ExtractNextView::Put(entry_plan(name, target)),
        ExtractEventView::NoEntry => ExtractNextView::Go(ExtractStage::Tidy),
    }
}

/// What follows an event in the putting in place of new code.
pub fn extract_tarball(stage: ExtractStage, event: ExtractEvent) -> (r: ExtractNext)
    requires
        extract_event_fits(stage, event@),
    ensures
        r@ == extract_step(stage, event@),
{
    match event {
        ExtractEvent::Success => match stage {
            ExtractStage::Clear => ExtractNext::Go(ExtractStage::Unpack),
            _ => ExtractNext::InPlace,
        },
        ExtractEvent::Failure(why) => match stage {
            ExtractStage::Unpack => ExtractNext::Failed(
                "Failed to extract tarball via Python".to_string(),
            ),
            _ => ExtractNext::Failed(why),
        },
        ExtractEvent::Unpacked(success) => if success {
            ExtractNext::Go(ExtractStage::Count)
        } else {
            ExtractNext::Failed("tar extraction failed".to_string())
        },
        ExtractEvent::Directories(n) => if n == 1 {
            ExtractNext::Go(ExtractStage::Place)
        } else {
            ExtractNext::Failed(
                "Unexpected tarball structure: expected 1 top-level directory".to_string(),
            )
        },
        ExtractEvent::Entry(name, target) => ExtractNext::Put(plan_entry(name.as_str(), target)),
        ExtractEvent::NoEntry => ExtractNext::Go(ExtractStage::Tidy),
    }
}

/// What follows a list of events in the putting in place of new code, from its
/// beginning. After an entry the next one is taken; once it is over, no event comes.
pub open spec fn extraction(events: Seq<ExtractEventView>) -> ExtractNextView
    decreases events.len(),
{
    if events.len() == 0 {
        ExtractNextView::Go(ExtractStage::Clear)
    } else {
        match extraction(events.drop_last()) {
            ExtractNextView::Go(stage) => extract_step(stage, events.last()),
            ExtractNextView::Put(_) => extract_step(ExtractStage::Place, events.last()),
            over => over,
        }
    }
}

/// The stage that is to be performed after a list of events, where it is not over.
pub open spec fn extraction_stage(events: Seq<ExtractEventView>) -> Option<ExtractStage> {
    match extraction(events) {
        ExtractNextView::Go(stage) => Some(stage),
        ExtractNextView::Put(_) => Some(ExtractStage::Place),
        _ => None,
    }
}

/// Whether every event of a list can come of what was asked for before it.
pub open spec fn extraction_fits(events: Seq<ExtractEventView>) -> bool
    decreases events.len(),
{
    events.len() == 0 || {
        let before = events.drop_last();
        &&& extraction_fits(before)
        &&& extraction_stage(before) matches Some(stage) && extract_event_fits(
            stage,
            events.last(),
        )
    }
}

/// Whether the events of a list up to `n` are a good unpacking, one directory left by
/// it, and from there on entries alone.
pub open spec fn unpacked_well(events: Seq<ExtractEventView>, n: int) -> bool {
    &&& 3 <= n <= events.len()
    &&& events[0] is Success
    &&& events[1] == ExtractEventView::Unpacked(true)
    &&& events[2] == ExtractEventView::Directories(1)
    &&& forall|i: int| 3 <= i < n ==> #[trigger] events[i] is Entry
}

/// Nothing is put in place before the new code is known to be good: an entry is only
/// dealt with after the unpacking succeeded and left exactly one directory. Nothing is
/// tidied up before there is no entry left, and the new code counts as in place only
/// after that.
pub proof fn placing_follows_a_good_unpacking(events: Seq<ExtractEventView>)
    requires
        extraction_fits(events),
    ensures
        extraction_stage(events) == Some(ExtractStage::Place) ==> unpacked_well(
            events,
            events.len() as int,
        ),
        extraction_stage(events) == Some(ExtractStage::Tidy) ==> unpacked_well(
            events,
            events.len() - 1,
        ) && events.last() is NoEntry,
        extraction(events) is InPlace ==> unpacked_well(events, events.len() - 2)
            && events[events.len() - 2] is NoEntry && events.last() is Success,
    decreases events.len(),
{
    if events.len() > 0 {
        let before = events.drop_last();
        placing_follows_a_good_unpacking(before);
        lemma_beginning(before);
        assert forall|i: int| 0 <= i < before.len() implies before[i] == #[trigger] events[i] by {}
    }
}

proof fn lemma_beginning(events: Seq<ExtractEventView>)
    requires
        extraction_fits(events),
    ensures
        extraction_stage(events) == Some(ExtractStage::Clear) ==> events.len() == 0,
        extraction_stage(events) == Some(ExtractStage::Unpack) ==> events.len() == 1
            && events[0] is Success,
        extraction_stage(events) == Some(ExtractStage::Count) ==> events.len() == 2
            && events[0] is Success && events[1] == ExtractEventView::Unpacked(true),
    decreases events.len(),
{
    if events.len() > 0 {
        lemma_beginning(events.drop_last());
    }
}

/// What is in a directory after the entries of new code were dealt with: an entry whose
/// name is one to leave alone changes nothing, any other takes the place of what has
/// its name.
pub open spec fn after_placing<T>(
    dir: Map<Seq<char>, T>,
    entries: Seq<(Seq<char>, T)>,
    targets: spec_fn(Seq<char>) -> Occupant,
) -> Map<Seq<char>, T>
    decreases entries.len(),
{
    if entries.len() == 0 {
        dir
    } else {
        let before = after_placing(dir, entries.drop_last(), targets);
        let (name, content) = entries.last();
        if entry_plan(name, targets(name)) == EntryPlan::Preserve {
            before
        } else {
            before.insert(name, content)
        }
    }
}

/// What belongs to the user survives an update whatever the new code holds, and so does
/// everything that the new code has no entry for; of what it has an entry for, and is
/// not to be left alone, the new is there.
pub proof fn user_data_survives<T>(
    dir: Map<Seq<char>, T>,
    entries: Seq<(Seq<char>, T)>,
    targets: spec_fn(Seq<char>) -> Occupant,
    name: Seq<char>,
)
    requires
        forall|i: int, j: int|
            0 <= i < j < entries.len() ==> (#[trigger] entries[i]).0 != (#[trigger] entries[j]).0,
    ensures
        ({
            let after = after_placing(dir, entries, targets);
            let replaced = !preserved(name) && exists|i: int|
                0 <= i < entries.len() && (#[trigger] entries[i]).0 == name;
            &&& !replaced ==> after.dom().contains(name) == dir.dom().contains(name) && after[name]
                == dir[name]
            &&& forall|i: int|
                0 <= i < entries.len() && (#[trigger] entries[i]).0 == name && !preserved(name)
                    ==> after.dom().contains(name) && after[name] == entries[i].1
        }),
    decreases entries.len(),
{
    if entries.len() > 0 {
        let before = entries.drop_last();
        assert forall|i: int, j: int| 0 <= i < j < before.len() implies (#[trigger] before[i]).0
            != (#[trigger] before[j]).0 by {
            assert(entries[i].0 != entries[j].0);
        }
        user_data_survives(dir, before, targets, name);
        assert forall|i: int| 0 <= i < before.len() implies before[i] == #[trigger] entries[i] by {}
        let last = entries.len() - 1;
        assert(entries.last() == entries[last]);
    }
}

/// An update leaves alone, of all names, just these: the virtual environment, what
/// is remembered of the installation and of its dependencies, caches, what belongs
/// to version control and to the system, the settings, the pictures, the log, and
/// every session. All other names are code, which it replaces.
pub proof fn what_an_update_leaves_alone(name: Seq<char>)
    ensures
        preserved(name) <==> {
            ||| name == ".venv"@
            ||| name == launcher::STATE_FILE@
            ||| name == ".pic_selecter_deps.stamp"@
            ||| name == "__pycache__"@
            ||| name == ".git"@
            ||| name == ".cache"@
            ||| name == "state.json"@
            ||| ".session.json"@.is_suffix_of(name)
            ||| name == "img"@
            ||| name == "log.txt"@
            ||| name == ".DS_Store"@
        },
{
    reveal_strlit("*.");
    reveal_strlit(".venv");
    reveal_strlit(".pic_selecter_install.json");
    reveal_strlit(".pic_selecter_deps.stamp");
    reveal_strlit("__pycache__");
    reveal_strlit(".git");
    reveal_strlit(".cache");
    reveal_strlit("state.json");
    reveal_strlit("*.session.json");
    reveal_strlit(".session.json");
    reveal_strlit("img");
    reveal_strlit("log.txt");
    reveal_strlit(".DS_Store");
    assert forall|i: int| 0 <= i < PRESERVE@.len() && i != 7 implies matches_pattern(
        #[trigger] PRESERVE@[i]@,
        name,
    ) == (PRESERVE@[i]@ == name) by {
        assert(PRESERVE@[i]@[0] != "*."@[0]);
    }
    let pattern = PRESERVE@[7]@;
    assert("*."@ =~= pattern.subrange(0, 2));
    assert(pattern.skip(1) =~= ".session.json"@);
    assert(matches_pattern(pattern, name) == ".session.json"@.is_suffix_of(name));
    assert(PRESERVE@[0]@ == ".venv"@);
    assert(PRESERVE@[1]@ == launcher::STATE_FILE@);
    assert(PRESERVE@[2]@ == ".pic_selecter_deps.stamp"@);
    assert(PRESERVE@[3]@ == "__pycache__"@);
    assert(PRESERVE@[4]@ == ".git"@);
    assert(PRESERVE@[5]@ == ".cache"@);
    assert(PRESERVE@[6]@ == "state.json"@);
    assert(PRESERVE@[8]@ == "img"@);
    assert(PRESERVE@[9]@ == "log.txt"@);
    assert(PRESERVE@[10]@ == ".DS_Store"@);
}

/// The first eight bytes of a commit, or all of it where it is shorter.
pub open spec fn short_commit(sha: Seq<char>) -> Seq<char> {
    let bytes = vstd::utf8::encode_utf8(sha);
    vstd::utf8::decode_utf8(
        bytes.subrange(0, if bytes.len() < 8 { bytes.len() as int } else { 8 }),
    )
}

/// Whether a commit can be cut off after eight bytes: no character straddles the
/// cut. Commits, made of hexadecimal digits, always can.
pub open spec fn can_cut(sha: Seq<char>) -> bool {
    let bytes = vstd::utf8::encode_utf8(sha);
    bytes.len() < 8 || vstd::utf8::is_char_boundary(bytes, 8)
}

/// Of a commit in plain ASCII the first eight characters are shown.
pub proof fn short_commit_of_ascii(sha: Seq<char>)
    requires
        vstd::utf8::is_ascii_chars(sha),
    ensures
        can_cut(sha),
        short_commit(sha) == sha.take(if sha.len() < 8 { sha.len() as int } else { 8 }),
{
    broadcast use vstd::utf8::group_utf8_lib;

    let bytes = vstd::utf8::encode_utf8(sha);
    vstd::utf8::is_ascii_chars_encode_utf8(sha);
    let n = if sha.len() < 8 { sha.len() as int } else { 8 };
    let head = sha.take(n);
    assert(vstd::utf8::is_ascii_chars(head));
    vstd::utf8::is_ascii_chars_encode_utf8(head);
    assert(vstd::utf8::encode_utf8(head) =~= bytes.subrange(0, n));
    if bytes.len() == 8 {
        vstd::utf8::is_char_boundary_start_end_of_seq(bytes);
    } else if bytes.len() > 8 {
        assert(!vstd::utf8::is_continuation_byte(bytes[8])) by {
            assert(bytes[8] == sha[8] as u8);
            assert(bytes[8] <= 127);
        }
    }
}

/// The commit as it is shown.
pub fn shown_commit(sha: &str) -> (r: String)
    requires
        can_cut(sha@),
    ensures
        r@ == short_commit(sha@),
{
    broadcast use vstd::utf8::group_utf8_lib;

    let n: usize = sha.as_bytes().len();
    let ghost bytes = vstd::utf8::encode_utf8(sha@);
    if n < 8 {
        assert(bytes.subrange(0, bytes.len() as int) =~= bytes);
        sha.to_string()
    } else {
        let (head, _) = sha.split_at(8);
        assert(vstd::utf8::encode_utf8(head@) =~= bytes.subrange(0, 8));
        head.to_string()
    }
}

/// Whether a commit can be cut off after eight bytes.
pub fn commit_can_be_cut(sha: &str) -> (r: bool)
    ensures
        r == can_cut(sha@),
{
    let n: usize = sha.as_bytes().len();
    n < 8 || sha.is_char_boundary(8)
}

/// How far an update has come, and what is to be done next.
#[derive(Debug)]
pub enum UpdateStage {
    /// Ask for the newest commit.
    Fetch(InstallState),
    /// Download the code of that commit.
    Download(InstallState, String),
    /// Put the code of that commit in place.
    Extract(InstallState, String),
}

/// What an `UpdateStage` says.
#[verifier::ext_equal]
pub enum UpdateStageView {
    Fetch(InstallStateView),
    Download(InstallStateView, Seq<char>),
    Extract(InstallStateView, Seq<char>),
}

impl View for UpdateStage {
    type V = UpdateStageView;

    open spec fn view(&self) -> UpdateStageView {
        match self {
            UpdateStage::Fetch(state) => UpdateStageView::Fetch(state@),
            UpdateStage::Download(state, sha) => UpdateStageView::Download(state@, sha@),
            UpdateStage::Extract(state, sha) => UpdateStageView::Extract(state@, sha@),
        }
    }
}

/// What came of the last thing to be done.
#[derive(Debug)]
pub enum UpdateEvent {
    /// The newest commit.
    Commit(String),
    /// There was no answer to the question for it.
    NoAnswer,
    /// It succeeded.
    Success,
    /// It failed, for this reason.
    Failure(String),
}

/// What an `UpdateEvent` says.
#[verifier::ext_equal]
pub enum UpdateEventView {
    Commit(Seq<char>),
    NoAnswer,
    Success,
    Failure(Seq<char>),
}

impl View for UpdateEvent {
    type V = UpdateEventView;

    open spec fn view(&self) -> UpdateEventView {
        match self {
            UpdateEvent::Commit(sha) => UpdateEventView::Commit(sha@),
            UpdateEvent::NoAnswer => UpdateEventView::NoAnswer,
            UpdateEvent::Success => UpdateEventView::Success,
            UpdateEvent::Failure(why) => UpdateEventView::Failure(why@),
        }
    }
}

/// What follows in an update.
#[derive(Debug)]
#[allow(inconsistent_fields)]
pub enum UpdateNext {
    /// Tell this, and go on with that stage.
    Go {
        message: String,
        stage: UpdateStage,
    },
    /// Remember this, where there is anything to remember; then tell that, where
    /// there is anything to tell. The update is over, and brought the code to
    /// this commit, where there is one.
    Stop {
        remember: Option<InstallState>,
        message: Option<String>,
        updated_to: Option<String>,
    },
}

/// What an `UpdateNext` says.
#[verifier::ext_equal]
#[allow(inconsistent_fields)]
pub enum UpdateNextView {
    Go { message: Seq<char>, stage: UpdateStageView },
    Stop {
        remember: Option<InstallStateView>,
        message: Option<Seq<char>>,
        updated_to: Option<Seq<char>>,
    },
}

impl View for UpdateNext {
    type V = UpdateNextView;

    open spec fn view(&self) -> UpdateNextView {
        match self {
            UpdateNext::Go { message, stage } => UpdateNextView::Go {
                message: message@,
                stage: stage@,
            },
            UpdateNext::Stop { remember, message, updated_to } => UpdateNextView::Stop {
                remember: remember.deep_view(),
                message: message.deep_view(),
                updated_to: updated_to.deep_view(),
            },
        }
    }
}

/// Whether an event can come of what a stage asks for. A new commit must be one
/// that can be shown.
pub open spec fn update_event_fits(stage: UpdateStageView, event: UpdateEventView) -> bool {
    match stage {
        UpdateStageView::Fetch(state) => match event {
            UpdateEventView::Commit(sha) => state.commit_sha is Some && state.commit_sha->0 != sha
                ==> can_cut(sha),
            UpdateEventView::NoAnswer => true,
            UpdateEventView::Failure(_) => true,
            UpdateEventView::Success => false,
        },
        UpdateStageView::Download(_, _) | UpdateStageView::Extract(_, _) => event is Success
            || event is Failure,
    }
}

/// The end of an update that changes nothing, after telling `message`.
pub open spec fn give_up(message: Seq<char>) -> UpdateNextView {
    UpdateNextView::Stop { remember: None, message: Some(message), updated_to: None }
}

/// What follows an event in an update. The first commit that is ever seen is only
/// remembered. Once the new code is in place, its commit is remembered and the
/// signature of the installation forgotten, so that the dependencies are looked
/// at again.
pub open spec fn update_step(stage: UpdateStageView, event: UpdateEventView) -> UpdateNextView {
    match stage {
        UpdateStageView::Fetch(state) => match event {
            UpdateEventView::Commit(sha) => if state.commit_sha is None {
                UpdateNextView::Stop {
                    remember: Some(InstallStateView { commit_sha: Some(sha), ..state }),
                    message: None,
                    updated_to: None,
                }
            } else if state.commit_sha == Some(sha) {
                give_up("已是最新版本"@)
            } else {
                UpdateNextView::Go {
                    message: "发现新版本 "@ + short_commit(sha) + "，正在更新..."@,
                    stage: UpdateStageView::Download(state, sha),
                }
            },
            UpdateEventView::Failure(why) => give_up("检查更新失败，跳过: "@ + why),
            _ => give_up("检查更新失败（网络问题），跳过"@),
        },
        UpdateStageView::Download(state, sha) => match event {
            UpdateEventView::Failure(why) => give_up("下载失败: "@ + why),
            _ => UpdateNextView::Go {
                message: "正在应用更新..."@,
                stage: UpdateStageView::Extract(state, sha),
            },
        },
        UpdateStageView::Extract(state, sha) => match event {
            UpdateEventView::Failure(why) => give_up("更新失败: "@ + why),
            _ => UpdateNextView::Stop {
                remember: Some(
                    InstallStateView { commit_sha: Some(sha), packages_sig: seq![], ..state },
                ),
                message: Some("代码已更新，下次启动生效"@),
                updated_to: Some(sha),
            },
        },
    }
}

/// How an update begins, with what is remembered of the installation.
pub fn begin_update(state: InstallState) -> (r: UpdateNext)
    ensures
        r@ == (UpdateNextView::Go {
            message: "正在检查更新..."@,
            stage: UpdateStageView::Fetch(state@),
        }),
{
    UpdateNext::Go { message: "正在检查更新...".to_string(), stage: UpdateStage::Fetch(state) }
}

fn giving_up(message: String) -> (r: UpdateNext)
    ensures
        r@ == give_up(message@),
{
    UpdateNext::Stop { remember: None, message: Some(message), updated_to: None }
}

/// What follows an event in an update: the check for a new commit, and its
/// download and putting in place where there is one.
pub fn check_and_apply(stage: UpdateStage, event: UpdateEvent) -> (r: UpdateNext)
    requires
        update_event_fits(stage@, event@),
    ensures
        r@ == update_step(stage@, event@),
{
    match (stage, event) {
        (UpdateStage::Fetch(state), UpdateEvent::Commit(sha)) => {
            let known = match &state.commit_sha {
                Some(local) => Some(text::same(local.as_str(), sha.as_str())),
                None => None,
            };
            match known {
                None => {
                    let mut state = state;
                    state.commit_sha = Some(sha);
                    UpdateNext::Stop { remember: Some(state), message: None, updated_to: None }
                },
                Some(true) => giving_up("已是最新版本".to_string()),
                Some(false) => {
                    let mut message = "发现新版本 ".to_string();
                    message.append(shown_commit(sha.as_str()).as_str());
                    message.append("，正在更新...");
                    UpdateNext::Go { message, stage: UpdateStage::Download(state, sha) }
                },
            }
        },
        (UpdateStage::Fetch(_), UpdateEvent::Failure(why)) => giving_up(
            text::followed_by("检查更新失败，跳过: ", why.as_str()),
        ),
        (UpdateStage::Fetch(_), _) => giving_up(
            "检查更新失败（网络问题），跳过".to_string(),
        ),
        (UpdateStage::Download(_, _), UpdateEvent::Failure(why)) => giving_up(
            text::followed_by("下载失败: ", why.as_str()),
        ),
        (UpdateStage::Download(state, sha), _) => UpdateNext::Go {
            message: "正在应用更新...".to_string(),
            stage: UpdateStage::Extract(state, sha),
        },
        (UpdateStage::Extract(_, _), UpdateEvent::Failure(why)) => giving_up(
            text::followed_by("更新失败: ", why.as_str()),
        ),
        (UpdateStage::Extract(state, sha), _) => {
            let mut state = state;
            state.commit_sha = Some(sha.clone());
            state.packages_sig = String::new();
            UpdateNext::Stop {
                remember: Some(state),
                message: Some("代码已更新，下次启动生效".to_string()),
                updated_to: Some(sha),
            }
        },
    }
}

/// What is remembered of the installation while an update is under way.
pub open spec fn remembered(stage: UpdateStageView) -> InstallStateView {
    match stage {
        UpdateStageView::Fetch(state) => state,
        UpdateStageView::Download(state, _) => state,
        UpdateStageView::Extract(state, _) => state,
    }
}

/// An update never touches the choice of modes, the runtime or its backend: what
/// it carries along and what it has remembered in the end agree in them with what
/// was remembered before.
pub proof fn update_keeps_the_choice(stage: UpdateStageView, event: UpdateEventView)
    requires
        update_event_fits(stage, event),
    ensures
        ({
            let before = remembered(stage);
            match update_step(stage, event) {
                UpdateNextView::Go { stage: next, .. } => remembered(next) == before,
                UpdateNextView::Stop { remember: Some(after), .. } => after.modes == before.modes
                    && after.runtime == before.runtime && after.runtime_backend
                    == before.runtime_backend,
                UpdateNextView::Stop { remember: None, .. } => true,
            }
        }),
{
}

/// The first start never downloads anything: where no commit is remembered, the
/// newest one is, and that is all.
pub proof fn first_start_only_remembers(state: InstallStateView, sha: Seq<char>)
    requires
        state.commit_sha is None,
    ensures
        update_step(UpdateStageView::Fetch(state), UpdateEventView::Commit(sha)) == (
        UpdateNextView::Stop {
            remember: Some(InstallStateView { commit_sha: Some(sha), ..state }),
            message: None,
            updated_to: None,
        }),
{
}

/// Whatever an update has remembered, a further check that is given the same
/// commit finds nothing to do.
pub proof fn updating_again_does_nothing(stage: UpdateStageView, event: UpdateEventView)
    requires
        update_event_fits(stage, event),
    ensures
        update_step(stage, event) matches UpdateNextView::Stop { remember: Some(after), .. } ==> {
            &&& after.commit_sha is Some
            &&& update_step(
                UpdateStageView::Fetch(after),
                UpdateEventView::Commit(after.commit_sha->0),
            ) == give_up("已是最新版本"@)
        },
{
}

/// The code counts as updated only where the new code was put in place, and then
/// the signature of the installation is forgotten, so that the dependencies are
/// looked at again; nothing else forgets it.
pub proof fn only_a_complete_update_forgets_the_signature(
    stage: UpdateStageView,
    event: UpdateEventView,
)
    requires
        update_event_fits(stage, event),
    ensures
        update_step(stage, event) matches UpdateNextView::Stop { remember, updated_to, .. } ==> {
            &&& updated_to is Some <==> stage is Extract && event is Success
            &&& updated_to is Some ==> remember is Some && remember->0.packages_sig
                == Seq::<char>::empty() && remember->0.commit_sha == updated_to
            &&& updated_to is None && remember is Some ==> remember->0.packages_sig == remembered(
                stage,
            ).packages_sig
        },
{
}

/// A whole update, from what is remembered before it: what came of the question for
/// the newest commit, of the download, and of putting the code in place.
pub open spec fn whole_update(
    state: InstallStateView,
    asked: UpdateEventView,
    downloaded: UpdateEventView,
    placed: UpdateEventView,
) -> UpdateNextView {
    match update_step(UpdateStageView::Fetch(state), asked) {
        UpdateNextView::Go { stage, .. } => match update_step(stage, downloaded) {
            UpdateNextView::Go { stage, .. } => update_step(stage, placed),
            over => over,
        },
        over => over,
    }
}

/// A whole update comes to an end. It brings the code to the newest commit exactly
/// where a commit was remembered, the newest is another one, and it was downloaded
/// and put in place; otherwise the signature of the installation stays as it is.
pub proof fn an_update_is_whole_or_changes_nothing(
    state: InstallStateView,
    asked: UpdateEventView,
    downloaded: UpdateEventView,
    placed: UpdateEventView,
)
    requires
        update_event_fits(UpdateStageView::Fetch(state), asked),
        downloaded is Success || downloaded is Failure,
        placed is Success || placed is Failure,
    ensures
        whole_update(state, asked, downloaded, placed) is Stop,
        whole_update(state, asked, downloaded, placed) matches UpdateNextView::Stop {
            remember,
            updated_to,
            ..
        } ==> {
            let wanted = asked is Commit && state.commit_sha is Some && state.commit_sha->0
                != asked->Commit_0;
            &&& updated_to is Some <==> wanted && downloaded is Success && placed is Success
            &&& updated_to is Some ==> updated_to->0 == asked->Commit_0 && remember == Some(
                InstallStateView { commit_sha: updated_to, packages_sig: seq![], ..state },
            )
            &&& updated_to is None && remember is Some ==> remember->0 == (InstallStateView {
                commit_sha: Some(asked->Commit_0),
                ..state
            })
        },
{
}

} // verus!
