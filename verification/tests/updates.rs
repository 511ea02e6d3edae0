//! Updates of the code.

use pianke::invocation::{Arg, Invocation};
use pianke::launcher::InstallState;
use pianke::updater;
use pianke::updater::{
    EntryPlan, ExtractEvent, ExtractStage, Occupant, UpdateEvent, UpdateNext, UpdateStage,
};

fn spelled(command: &Invocation<'_, String>) -> Vec<String> {
    let text = |arg: &Arg<'_, String>| match arg {
        Arg::Text(t) => t.clone(),
        Arg::Path(p) => p.to_string(),
        Arg::Below(j) => format!("{}/{}", j.base, j.names.join("/")),
    };
    let mut r = vec![text(&command.program)];
    r.extend(command.args.iter().map(text));
    r
}

fn state(sha: Option<&str>) -> InstallState {
    InstallState {
        modes: vec!["fast".to_string()],
        runtime: "auto".to_string(),
        packages_sig: "sig".to_string(),
        runtime_backend: "none".to_string(),
        commit_sha: sha.map(|s| s.to_string()),
    }
}

fn stop(next: UpdateNext) -> (Option<InstallState>, Option<String>, Option<String>) {
    match next {
        UpdateNext::Stop { remember, message, updated_to } => (remember, message, updated_to),
        other => panic!("{:?}", other),
    }
}

fn go(next: UpdateNext) -> (String, UpdateStage) {
    match next {
        UpdateNext::Go { message, stage } => (message, stage),
        other => panic!("{:?}", other),
    }
}

fn commit(sha: &str) -> UpdateEvent {
    UpdateEvent::Commit(sha.to_string())
}

#[test]
fn the_newest_commit_is_asked_for() {
    let python = "P".to_string();
    let command = spelled(&updater::fetch_command(&python));
    assert_eq!(command[0..2], ["P", "-c"]);
    assert_eq!(command[3], "https://api.github.com/repos/zhaoyue4810/pianke/commits/main");
    assert_eq!(
        command[2],
        "import urllib.request,json,sys\ntry:\n req=urllib.request.Request(sys.argv[1],headers={'User-Agent':'pianke-updater'})\n data=json.loads(urllib.request.urlopen(req,timeout=10).read())\n print(data.get('sha',''))\nexcept Exception as e:\n print('__ERROR__:',e)"
    );
    assert_eq!(updater::fetch_remote_sha("abc123\n"), Some("abc123".to_string()));
    assert_eq!(updater::fetch_remote_sha("\n"), None);
    assert_eq!(updater::fetch_remote_sha("__ERROR__: timed out\n"), None);
}

#[test]
fn the_code_of_a_commit_is_downloaded_and_unpacked() {
    let python = "P".to_string();
    let command = spelled(&updater::download_tarball("abc", Some("/d/.update.tar.gz"), &python));
    assert_eq!(command[3], "/d/.update.tar.gz");
    assert_eq!(command[4], "https://codeload.github.com/zhaoyue4810/pianke/tar.gz/abc");
    let command = spelled(&updater::download_tarball("abc", None, &python));
    assert_eq!(command[3], "");
    let command = spelled(&updater::unpack_command(Some("t"), Some("u"), &python));
    assert_eq!(
        command[2],
        "import sys,tarfile\ntarfile.open(sys.argv[1],'r:gz').extractall(sys.argv[2])\nprint('ok')"
    );
    assert_eq!(command[3..5], ["t", "u"]);
}

#[test]
fn failures_are_given_reasons() {
    assert_eq!(updater::download_outcome(true, "exit status: 0"), Ok(()));
    assert_eq!(
        updater::download_outcome(false, "exit status: 1"),
        Err("Download failed with status: exit status: 1".to_string())
    );
}

fn extract(stage: ExtractStage, event: ExtractEvent) -> String {
    format!("{:?}", updater::extract_tarball(stage, event))
}

#[test]
fn new_code_is_unpacked_placed_and_tidied_up_after() {
    assert_eq!(extract(ExtractStage::Clear, ExtractEvent::Success), "Go(Unpack)");
    assert_eq!(extract(ExtractStage::Unpack, ExtractEvent::Unpacked(true)), "Go(Count)");
    assert_eq!(extract(ExtractStage::Count, ExtractEvent::Directories(1)), "Go(Place)");
    let entry = |name: &str, target| ExtractEvent::Entry(name.to_string(), target);
    assert_eq!(extract(ExtractStage::Place, entry("app.py", Occupant::File)), "Put(ReplaceFile)");
    assert_eq!(extract(ExtractStage::Place, entry("new", Occupant::Nothing)), "Put(Add)");
    assert_eq!(extract(ExtractStage::Place, entry("img", Occupant::Directory)), "Put(Preserve)");
    assert_eq!(extract(ExtractStage::Place, ExtractEvent::NoEntry), "Go(Tidy)");
    assert_eq!(extract(ExtractStage::Tidy, ExtractEvent::Success), "InPlace");
}

#[test]
fn bad_code_is_not_put_in_place() {
    let failure = || ExtractEvent::Failure("why".to_string());
    assert_eq!(extract(ExtractStage::Clear, failure()), "Failed(\"why\")");
    assert_eq!(
        extract(ExtractStage::Unpack, failure()),
        "Failed(\"Failed to extract tarball via Python\")"
    );
    assert_eq!(
        extract(ExtractStage::Unpack, ExtractEvent::Unpacked(false)),
        "Failed(\"tar extraction failed\")"
    );
    for n in [0usize, 2] {
        assert_eq!(
            extract(ExtractStage::Count, ExtractEvent::Directories(n)),
            "Failed(\"Unexpected tarball structure: expected 1 top-level directory\")"
        );
    }
    assert_eq!(extract(ExtractStage::Count, failure()), "Failed(\"why\")");
    assert_eq!(extract(ExtractStage::Place, failure()), "Failed(\"why\")");
}

#[test]
fn what_belongs_to_the_user_is_left_alone() {
    for name in updater::PRESERVE {
        assert!(updater::should_preserve(name), "{}", name);
    }
    assert!(updater::should_preserve("x.session.json"));
    assert!(updater::should_preserve(".session.json"));
    for name in ["app.py", "session.json", "img2", "state.json.bak", "x.session.jsonl", "pic_selecter", ""] {
        assert!(!updater::should_preserve(name), "{}", name);
    }
}

#[test]
fn new_code_takes_the_place_of_old() {
    assert_eq!(updater::plan_entry("app.py", Occupant::Nothing), EntryPlan::Add);
    assert_eq!(updater::plan_entry("app.py", Occupant::File), EntryPlan::ReplaceFile);
    assert_eq!(updater::plan_entry("static", Occupant::Directory), EntryPlan::ReplaceDirectory);
    assert_eq!(updater::plan_entry("img", Occupant::Directory), EntryPlan::Preserve);
}

#[test]
fn commits_are_shown_by_their_first_eight_bytes() {
    assert_eq!(updater::shown_commit("0123456789abcdef"), "01234567");
    assert_eq!(updater::shown_commit("01234567"), "01234567");
    assert_eq!(updater::shown_commit("0123"), "0123");
    assert_eq!(updater::shown_commit(""), "");
    assert!(updater::commit_can_be_cut("0123456789"));
    assert!(updater::commit_can_be_cut("极极极"[0..6].to_string().as_str()));
    assert!(!updater::commit_can_be_cut("极极极"));
}

#[test]
fn the_first_start_only_remembers_the_commit() {
    let (message, stage) = go(updater::begin_update(state(None)));
    assert_eq!(message, "正在检查更新...");
    let (remember, message, updated) = stop(updater::check_and_apply(stage, commit("new")));
    let remember = remember.unwrap();
    assert_eq!(remember.commit_sha, Some("new".to_string()));
    assert_eq!(remember.packages_sig, "sig");
    assert_eq!(message, None);
    assert_eq!(updated, None);
}

#[test]
fn nothing_happens_where_the_code_is_new() {
    let stage = UpdateStage::Fetch(state(Some("same")));
    let (remember, message, updated) = stop(updater::check_and_apply(stage, commit("same")));
    assert!(remember.is_none());
    assert_eq!(message, Some("已是最新版本".to_string()));
    assert_eq!(updated, None);
}

#[test]
fn a_check_that_fails_changes_nothing() {
    let stage = UpdateStage::Fetch(state(Some("old")));
    let (remember, message, _) = stop(updater::check_and_apply(stage, UpdateEvent::NoAnswer));
    assert!(remember.is_none());
    assert_eq!(message, Some("检查更新失败（网络问题），跳过".to_string()));
    let stage = UpdateStage::Fetch(state(None));
    let event = UpdateEvent::Failure("no python".to_string());
    let (_, message, _) = stop(updater::check_and_apply(stage, event));
    assert_eq!(message, Some("检查更新失败，跳过: no python".to_string()));
}

#[test]
fn a_whole_update_forgets_the_signature() {
    let (_, stage) = go(updater::begin_update(state(Some("old"))));
    let (message, stage) = go(updater::check_and_apply(stage, commit("0123456789")));
    assert_eq!(message, "发现新版本 01234567，正在更新...");
    let (message, stage) = go(updater::check_and_apply(stage, UpdateEvent::Success));
    assert_eq!(message, "正在应用更新...");
    let (remember, message, updated) = stop(updater::check_and_apply(stage, UpdateEvent::Success));
    let remember = remember.unwrap();
    assert_eq!(remember.commit_sha, Some("0123456789".to_string()));
    assert_eq!(remember.packages_sig, "");
    assert_eq!(remember.modes, vec!["fast".to_string()]);
    assert_eq!(remember.runtime, "auto");
    assert_eq!(remember.runtime_backend, "none");
    assert_eq!(message, Some("代码已更新，下次启动生效".to_string()));
    assert_eq!(updated, Some("0123456789".to_string()));
    let again = UpdateStage::Fetch(remember);
    let (remember, message, _) = stop(updater::check_and_apply(again, commit("0123456789")));
    assert!(remember.is_none());
    assert_eq!(message, Some("已是最新版本".to_string()));
}

#[test]
fn an_update_that_fails_half_way_changes_nothing() {
    let stage = UpdateStage::Download(state(Some("old")), "new".to_string());
    let event = UpdateEvent::Failure("timeout".to_string());
    let (remember, message, updated) = stop(updater::check_and_apply(stage, event));
    assert!(remember.is_none() && updated.is_none());
    assert_eq!(message, Some("下载失败: timeout".to_string()));
    let stage = UpdateStage::Extract(state(Some("old")), "new".to_string());
    let event = UpdateEvent::Failure("tar extraction failed".to_string());
    let (remember, message, updated) = stop(updater::check_and_apply(stage, event));
    assert!(remember.is_none() && updated.is_none());
    assert_eq!(message, Some("更新失败: tar extraction failed".to_string()));
}
