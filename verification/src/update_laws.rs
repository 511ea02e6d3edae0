//! What holds of updates, in terms of what was printed, what there is and what is told.

use crate::launcher::InstallStateView;
use crate::runtime_laws;
use crate::text;
use crate::text_laws;
use crate::updater;
use crate::updater::{
    EntryPlan, ExtractEventView, ExtractNextView, ExtractStage, Occupant, UpdateEventView,
    UpdateNextView, UpdateStageView,
};
use vstd::prelude::*;

verus! {

/// What the script prints is read back: a text that is not empty, neither begins nor ends
/// with white space and is not marked as an error is the commit, whatever its length and
/// whatever white space stands around it.
pub proof fn a_printed_commit_is_read_back(before: Seq<char>, sha: Seq<char>, after: Seq<char>)
    requires
        text_laws::is_blank(before),
        text_laws::is_blank(after),
        sha.len() > 0,
        !text::is_space(sha.first()),
        !text::is_space(sha.last()),
        !runtime_laws::begins(sha, "__ERROR__"@),
    ensures
        updater::printed_commit(before + sha + after) == Some(sha),
        updater::printed_commit(sha + seq!['\n']) == Some(sha),
{
    text_laws::trimming_finds_the_text(before, sha, after);
    let none = Seq::<char>::empty();
    text_laws::trimming_finds_the_text(none, sha, seq!['\n']);
    assert(none + sha + seq!['\n'] =~= sha + seq!['\n']);
    if "__ERROR__"@.is_prefix_of(sha) {
        assert forall|j: int| 0 <= j < "__ERROR__"@.len() implies sha[j]
            == #[trigger] "__ERROR__"@[j] by {
            assert(sha.subrange(0, "__ERROR__"@.len() as int)[j] == sha[j]);
        }
    }
}

/// Whether a character is a hexadecimal digit.
pub open spec fn is_hex(c: char) -> bool {
    '0' <= c <= '9' || 'a' <= c <= 'f' || 'A' <= c <= 'F'
}

/// Every commit of hexadecimal digits is read back, however many there are.
pub proof fn a_hexadecimal_commit_is_read_back(sha: Seq<char>)
    requires
        sha.len() > 0,
        forall|j: int| 0 <= j < sha.len() ==> is_hex(#[trigger] sha[j]),
    ensures
        updater::printed_commit(sha + seq!['\n']) == Some(sha),
        updater::can_cut(sha),
        updater::short_commit(sha) == sha.take(if sha.len() < 8 { sha.len() as int } else { 8 }),
{
    reveal_strlit("__ERROR__");
    assert(is_hex(sha[0]));
    assert(is_hex(sha[sha.len() - 1]));
    if runtime_laws::begins(sha, "__ERROR__"@) {
        assert(sha[0] == "__ERROR__"@[0]);
    }
    a_printed_commit_is_read_back(Seq::empty(), sha, Seq::empty());
    assert forall|j: int| 0 <= j < sha.len() implies '\0' <= #[trigger] sha[j] <= '\u{7f}' by {
        assert(is_hex(sha[j]));
    }
    assert(vstd::utf8::is_ascii_chars(sha));
    updater::short_commit_of_ascii(sha);
}

/// Where nothing was printed, or an error, there is no commit.
pub proof fn an_error_is_no_commit(before: Seq<char>, rest: Seq<char>, after: Seq<char>)
    requires
        text_laws::is_blank(before),
        text_laws::is_blank(after),
        rest.len() > 0 ==> !text::is_space(rest.last()),
    ensures
        updater::printed_commit(before) is None,
        updater::printed_commit(before + ("__ERROR__"@ + rest) + after) is None,
{
    reveal_strlit("__ERROR__");
    let none = Seq::<char>::empty();
    text_laws::trimming_finds_the_text(before, none, none);
    assert(before + none + none =~= before);
    let t = "__ERROR__"@ + rest;
    assert(t.first() == '_');
    if rest.len() > 0 {
        assert(t.last() == rest.last());
    } else {
        assert(t.last() == '_');
    }
    text_laws::trimming_finds_the_text(before, t, after);
    assert(t.subrange(0, "__ERROR__"@.len() as int) =~= "__ERROR__"@);
}

proof fn lemma_encoded(a: Seq<char>, b: Seq<char>)
    ensures
        vstd::utf8::encode_utf8(a + b) == vstd::utf8::encode_utf8(a) + vstd::utf8::encode_utf8(b),
        vstd::utf8::is_char_boundary(
            vstd::utf8::encode_utf8(a + b),
            vstd::utf8::encode_utf8(a).len() as int,
        ),
    decreases a.len(),
{
    let whole = vstd::utf8::encode_utf8(a + b);
    vstd::utf8::encode_utf8_valid_utf8(a + b);
    if a.len() == 0 {
        assert(a + b =~= b);
        assert(whole =~= vstd::utf8::encode_utf8(a) + vstd::utf8::encode_utf8(b));
        vstd::utf8::is_char_boundary_start_end_of_seq(whole);
    } else {
        let rest = a.drop_first();
        lemma_encoded(rest, b);
        assert((a + b).drop_first() =~= rest + b);
        assert((a + b)[0] == a[0]);
        vstd::utf8::encode_utf8_first_scalar(a + b);
        assert(vstd::utf8::pop_first_scalar(whole) =~= vstd::utf8::encode_utf8(rest + b));
        assert(whole =~= vstd::utf8::encode_utf8(a) + vstd::utf8::encode_utf8(b));
    }
}

/// A commit is shown by its first eight bytes, whatever follows them, where they are whole
/// characters; one that is shorter is shown whole.
pub proof fn a_commit_is_shown_by_its_first_eight_bytes(head: Seq<char>, rest: Seq<char>)
    ensures
        vstd::utf8::encode_utf8(head).len() == 8 ==> updater::can_cut(head + rest)
            && updater::short_commit(head + rest) == head,
        vstd::utf8::encode_utf8(head).len() < 8 ==> updater::can_cut(head)
            && updater::short_commit(head) == head,
{
    let bytes = vstd::utf8::encode_utf8(head);
    lemma_encoded(head, rest);
    vstd::utf8::encode_utf8_decode_utf8(head);
    let whole = vstd::utf8::encode_utf8(head + rest);
    if bytes.len() == 8 {
        assert(whole.subrange(0, 8) =~= bytes);
    } else if bytes.len() < 8 {
        assert(bytes.subrange(0, bytes.len() as int) =~= bytes);
    }
}

/// What a commit that was asked for leads to: where none is remembered it is remembered
/// and nothing is told; where it is the one remembered nothing changes; otherwise it is
/// downloaded.
pub proof fn what_a_commit_leads_to(state: InstallStateView, sha: Seq<char>)
    ensures
        ({
            let next = updater::update_step(
                UpdateStageView::Fetch(state),
                UpdateEventView::Commit(sha),
            );
            let known = state.commit_sha;
            &&& next is Go <==> known is Some && known->0 != sha
            &&& next matches UpdateNextView::Go { message, stage } ==> {
                &&& stage == UpdateStageView::Download(state, sha)
                &&& message == "发现新版本 "@ + updater::short_commit(sha) + "，正在更新..."@
            }
            &&& next matches UpdateNextView::Stop { remember, message, updated_to } ==> {
                &&& updated_to is None
                &&& remember is Some <==> known is None
                &&& remember matches Some(after) ==> after.commit_sha == Some(sha) && after.modes
                    == state.modes && after.runtime == state.runtime && after.packages_sig
                    == state.packages_sig && after.runtime_backend == state.runtime_backend
                &&& message is None <==> known is None
                &&& known is Some ==> message == Some("已是最新版本"@)
            }
        }),
{
}

/// A download that succeeds is followed by the putting in place of just that commit; and
/// where that succeeds, that commit is remembered.
pub proof fn what_success_leads_to(state: InstallStateView, sha: Seq<char>)
    ensures
        updater::update_step(UpdateStageView::Download(state, sha), UpdateEventView::Success) == (
        UpdateNextView::Go {
            message: "正在应用更新..."@,
            stage: UpdateStageView::Extract(state, sha),
        }),
        ({
            let next = updater::update_step(
                UpdateStageView::Extract(state, sha),
                UpdateEventView::Success,
            );
            &&& next is Stop
            &&& next matches UpdateNextView::Stop { remember, message, updated_to } ==> {
                &&& updated_to == Some(sha)
                &&& message == Some("代码已更新，下次启动生效"@)
                &&& remember is Some
                &&& remember->0.commit_sha == Some(sha)
                &&& remember->0.packages_sig.len() == 0
                &&& remember->0.modes == state.modes
                &&& remember->0.runtime == state.runtime
                &&& remember->0.runtime_backend == state.runtime_backend
            }
        }),
{
}

/// Whatever fails ends the update, is told with its reason, and changes nothing.
pub proof fn what_failure_leads_to(state: InstallStateView, sha: Seq<char>, why: Seq<char>)
    ensures
        ({
            let failure = UpdateEventView::Failure(why);
            let told = |message: Seq<char>|
                UpdateNextView::Stop { remember: None, message: Some(message), updated_to: None };
            &&& updater::update_step(UpdateStageView::Fetch(state), failure) == told(
                "检查更新失败，跳过: "@ + why,
            )
            &&& updater::update_step(UpdateStageView::Fetch(state), UpdateEventView::NoAnswer)
                == told("检查更新失败（网络问题），跳过"@)
            &&& updater::update_step(UpdateStageView::Download(state, sha), failure) == told(
                "下载失败: "@ + why,
            )
            &&& updater::update_step(UpdateStageView::Extract(state, sha), failure) == told(
                "更新失败: "@ + why,
            )
        }),
{
}

/// What is done about an entry: nothing exactly where it is to be left alone, else it is
/// put there, after what is there was removed as what it is.
pub proof fn what_is_done_about_an_entry(name: Seq<char>, target: Occupant)
    ensures
        ({
            let plan = updater::entry_plan(name, target);
            &&& plan == EntryPlan::Preserve <==> updater::preserved(name)
            &&& plan == EntryPlan::Add <==> !updater::preserved(name) && target == Occupant::Nothing
            &&& plan == EntryPlan::ReplaceFile <==> !updater::preserved(name) && target
                == Occupant::File
            &&& plan == EntryPlan::ReplaceDirectory <==> !updater::preserved(name) && target
                == Occupant::Directory
        }),
{
}

/// The events of the putting in place of good code with these entries.
pub open spec fn good_events(entries: Seq<(Seq<char>, Occupant)>) -> Seq<ExtractEventView> {
    seq![
        ExtractEventView::Success,
        ExtractEventView::Unpacked(true),
        ExtractEventView::Directories(1),
    ] + entries.map_values(|e: (Seq<char>, Occupant)| ExtractEventView::Entry(e.0, e.1))
}

/// Good code is put in place: after a good unpacking each of its entries is dealt with, as
/// its name and what is there ask for, and when none is left and all is tidied up it is in
/// place.
pub proof fn good_code_is_put_in_place(entries: Seq<(Seq<char>, Occupant)>)
    ensures
        ({
            let events = good_events(entries);
            &&& updater::extraction_fits(events)
            &&& updater::extraction_stage(events) == Some(ExtractStage::Place)
            &&& entries.len() > 0 ==> updater::extraction(events) == ExtractNextView::Put(
                updater::entry_plan(entries.last().0, entries.last().1),
            )
            &&& updater::extraction(
                events.push(ExtractEventView::NoEntry).push(ExtractEventView::Success),
            ) == ExtractNextView::InPlace
            &&& updater::extraction_fits(
                events.push(ExtractEventView::NoEntry).push(ExtractEventView::Success),
            )
        }),
    decreases entries.len(),
{
    let events = good_events(entries);
    if entries.len() == 0 {
        let a = seq![ExtractEventView::Success];
        let b = seq![ExtractEventView::Success, ExtractEventView::Unpacked(true)];
        reveal_with_fuel(updater::extraction, 5);
        reveal_with_fuel(updater::extraction_fits, 5);
        assert(events.drop_last() =~= b);
        assert(b.drop_last() =~= a);
        assert(a.drop_last() =~= Seq::<ExtractEventView>::empty());
    } else {
        good_code_is_put_in_place(entries.drop_last());
        assert(events.drop_last() =~= good_events(entries.drop_last()));
        assert(events.last() == ExtractEventView::Entry(entries.last().0, entries.last().1));
    }
    assert(updater::extraction_fits(events));
    assert(updater::extraction_stage(events) == Some(ExtractStage::Place));
    let more = events.push(ExtractEventView::NoEntry);
    let all = more.push(ExtractEventView::Success);
    assert(more.drop_last() =~= events);
    assert(all.drop_last() =~= more);
    assert(more.last() == ExtractEventView::NoEntry);
    assert(updater::extraction(more) == ExtractNextView::Go(ExtractStage::Tidy));
    assert(updater::extraction_fits(more));
    assert(all.last() == ExtractEventView::Success);
    assert(updater::extraction(all) == ExtractNextView::InPlace);
    assert(updater::extraction_fits(all));
}

/// Why the putting in place of new code fails: what fails is given as the reason, but for
/// the unpacking; there is not exactly one directory.
pub proof fn why_new_code_is_not_put_in_place(stage: ExtractStage, why: Seq<char>, n: usize)
    ensures
        stage != ExtractStage::Unpack ==> updater::extract_step(
            stage,
            ExtractEventView::Failure(why),
        ) == ExtractNextView::Failed(why),
        updater::extract_step(ExtractStage::Unpack, ExtractEventView::Failure(why))
            == ExtractNextView::Failed("Failed to extract tarball via Python"@),
        updater::extract_step(ExtractStage::Unpack, ExtractEventView::Unpacked(false))
            == ExtractNextView::Failed("tar extraction failed"@),
        n != 1 ==> updater::extract_step(ExtractStage::Count, ExtractEventView::Directories(n))
            == ExtractNextView::Failed(
            "Unexpected tarball structure: expected 1 top-level directory"@,
        ),
{
}

/// A path is given to a script as it is written, and as nothing where it cannot be
/// written.
pub proof fn a_path_is_given_as_it_is_written(path: &str)
    ensures
        updater::path_text(Some(path)) == path@,
        updater::path_text(None).len() == 0,
{
}

/// What is run and asked for in an update: the newest commit of the main branch, with the
/// address as the argument; the code of a commit, with the file and then the address as
/// arguments; and the unpacking, with the file and then the directory.
pub proof fn what_is_run_in_an_update()
    ensures
        updater::FETCH_SCRIPT@ == "import urllib.request,json,sys\ntry:\n req=urllib.request.Request(sys.argv[1],headers={'User-Agent':'pianke-updater'})\n data=json.loads(urllib.request.urlopen(req,timeout=10).read())\n print(data.get('sha',''))\nexcept Exception as e:\n print('__ERROR__:',e)"@,
        updater::DOWNLOAD_SCRIPT@ == "import sys,urllib.request\nreq=urllib.request.Request(sys.argv[2],headers={'User-Agent':'pianke-updater'})\ndata=urllib.request.urlopen(req,timeout=120).read()\nopen(sys.argv[1],'wb').write(data)\nprint('ok')"@,
        updater::UNPACK_SCRIPT@ == "import sys,tarfile\ntarfile.open(sys.argv[1],'r:gz').extractall(sys.argv[2])\nprint('ok')"@,
        updater::COMMIT_URL@ == "https://api.github.com/repos/zhaoyue4810/pianke/commits/main"@,
        updater::TARBALL_URL@ == "https://codeload.github.com/zhaoyue4810/pianke/tar.gz/"@,
        updater::TARBALL_FILE@ == ".update.tar.gz"@,
        updater::UNPACK_DIR@ == ".update_tmp"@,
{
}

} // verus!
