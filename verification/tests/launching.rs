//! Modes, packages, signatures and what is remembered.

use pianke::launcher;
use pianke::launcher::{AppState, InstallState, MirrorConfig};

fn strings(list: &[&str]) -> Vec<String> {
    list.iter().map(|s| s.to_string()).collect()
}

fn remembered(modes: &[&str], sig: &str) -> InstallState {
    InstallState {
        modes: strings(modes),
        runtime: "cpu".to_string(),
        packages_sig: sig.to_string(),
        runtime_backend: "none".to_string(),
        commit_sha: Some("abc".to_string()),
    }
}

const CORE: [&str; 9] = [
    "Pillow>=10.0",
    "flask>=3.0",
    "imagehash>=4.3",
    "numpy>=1.26",
    "opencv-contrib-python>=4.9",
    "piexif>=1.1.3",
    "pillow-heif>=0.16",
    "rawpy>=0.18",
    "scipy>=1.11",
];

#[test]
fn the_state_file_is_below_the_data_directory() {
    let path = launcher::state_file_path("/data");
    assert_eq!(path.base, "/data");
    assert_eq!(path.names, strings(&[".pic_selecter_install.json"]));
}

#[test]
fn package_names_end_at_the_constraint_and_are_lowered() {
    assert_eq!(launcher::pkg_name("opencv-contrib-python>=4.9"), "opencv-contrib-python");
    assert_eq!(launcher::pkg_name("Pillow>=10.0"), "pillow");
    assert_eq!(launcher::pkg_name("Flask[async]==3.0"), "flask");
    assert_eq!(launcher::pkg_name("a~=1"), "a");
    assert_eq!(launcher::pkg_name("B!=1"), "b");
    assert_eq!(launcher::pkg_name("c;python_version<'3'"), "c");
    assert_eq!(launcher::pkg_name("D<2"), "d");
    assert_eq!(launcher::pkg_name("PLAIN"), "plain");
    assert_eq!(launcher::pkg_name(""), "");
    assert_eq!(launcher::pkg_name("ÀÉ>=1"), "àé");
    assert_eq!(launcher::pkg_name("ΑΣ>=1"), "ας");
}

#[test]
fn a_package_name_names_itself() {
    assert_eq!(launcher::pkg_name("Pillow>=10.0"), launcher::pkg_name("pillow"));
    assert_eq!(launcher::pkg_name("Pillow>=10.0"), launcher::pkg_name("PILLOW[x]<3;y"));
    for spec in ["Pillow>=10.0", "opencv-contrib-python>=4.9", "A_b.C~=1", "ΑΣ>=1", "=x", ""] {
        let name = launcher::pkg_name(spec);
        assert_eq!(launcher::pkg_name(&name), name);
        assert!(!name.contains(&['=', '>', '<', '!', '~', ';', '['][..]));
    }
}

#[test]
fn every_choice_holds_the_core_packages_in_order() {
    assert_eq!(launcher::packages_for_modes(&strings(&["fast"])), strings(&CORE));
    assert_eq!(launcher::packages_for_modes(&Vec::new()), strings(&CORE));
    assert_eq!(launcher::packages_for_modes(&strings(&["unheard-of"])), strings(&CORE));
}

#[test]
fn the_extras_come_with_their_modes() {
    let tycoon = launcher::packages_for_modes(&strings(&["tycoon"]));
    assert_eq!(tycoon.len(), 10);
    assert!(tycoon.contains(&"openai>=1.40".to_string()));
    assert!(!tycoon.contains(&"torch>=2.2".to_string()));
    let all = launcher::packages_for_modes(&strings(&["expert", "tycoon", "fast"]));
    let mut expected = strings(&CORE);
    expected.extend(strings(&[
        "torch>=2.2",
        "torchvision>=0.17",
        "transformers>=4.40",
        "insightface>=0.7",
        "onnxruntime>=1.16",
        "pyiqa>=0.1.10",
        "timm>=0.9",
        "openai>=1.40",
    ]));
    expected.sort();
    assert_eq!(all, expected);
}

#[test]
fn neither_order_nor_repetition_of_modes_matters() {
    let a = launcher::packages_for_modes(&strings(&["tycoon", "expert", "expert"]));
    let b = launcher::packages_for_modes(&strings(&["fast", "expert", "tycoon"]));
    assert_eq!(a, b);
}

#[test]
fn no_package_is_listed_twice() {
    let list = launcher::packages_for_modes(&strings(&["expert", "tycoon", "expert"]));
    let mut names: Vec<String> = list.iter().map(|p| launcher::pkg_name(p)).collect();
    let before = names.len();
    names.sort();
    names.dedup();
    assert_eq!(names.len(), before);
}

#[test]
fn the_fast_mode_is_ticked_the_first_time() {
    let cards = launcher::get_modes(&Vec::new());
    let ticked: Vec<bool> = cards.iter().map(|c| c.selected).collect();
    assert_eq!(ticked, vec![true, false, false]);
    let keys: Vec<&str> = cards.iter().map(|c| c.key.as_str()).collect();
    assert_eq!(keys, vec!["fast", "expert", "tycoon"]);
    assert_eq!(cards[0].label, "极速模式");
    assert_eq!(cards[0].download_size, "~200MB");
    assert_eq!(cards[1].time_estimate, "5-15 分钟");
    assert_eq!(cards[2].description, "调用远程大模型判图（火山方舟 API），需自备 API key");
}

#[test]
fn the_last_choice_is_ticked_again() {
    let cards = launcher::get_modes(&strings(&["tycoon", "expert"]));
    let ticked: Vec<bool> = cards.iter().map(|c| c.selected).collect();
    assert_eq!(ticked, vec![false, true, true]);
    let cards = launcher::get_modes(&strings(&["fast"]));
    let ticked: Vec<bool> = cards.iter().map(|c| c.selected).collect();
    assert_eq!(ticked, vec![true, false, false]);
}

#[test]
fn mirrors_are_used_unless_turned_off() {
    assert!(MirrorConfig::from_setting(None).use_mirror);
    assert!(MirrorConfig::from_setting(Some("0")).use_mirror);
    assert!(MirrorConfig::from_setting(Some("")).use_mirror);
    let off = MirrorConfig::from_setting(Some("1"));
    assert!(!off.use_mirror);
    assert_eq!(off.pypi_index, "https://pypi.tuna.tsinghua.edu.cn/simple/");
    assert_eq!(off.pypi_extra, "https://pypi.org/simple/");
    assert_eq!(off.pypi_label, "清华大学 TUNA");
    assert_eq!(off.hf_endpoint, "https://hf-mirror.com");
}

#[test]
fn nothing_is_remembered_without_a_file() {
    let state = launcher::load_install_state(None);
    assert!(state.modes.is_empty());
    assert_eq!(state.packages_sig, "");
    assert_eq!(state.runtime, "");
    assert_eq!(state.runtime_backend, "");
    assert_eq!(state.commit_sha, None);
    let state = launcher::load_install_state(Some(remembered(&["fast"], "x|none")));
    assert_eq!(state.modes, strings(&["fast"]));
    assert_eq!(state.clone().packages_sig, "x|none");
}

#[test]
fn the_signature_names_packages_and_backend() {
    let list = strings(&["a>=1", "b"]);
    assert_eq!(launcher::packages_signature(&list, "none", "cu121"), "a>=1|b|none");
    assert_eq!(launcher::packages_signature(&list, "cpu", "cu121"), "a>=1|b|vision:cpu");
    assert_eq!(launcher::packages_signature(&list, "cuda", "cu121"), "a>=1|b|vision:cuda:cu121");
    assert_eq!(launcher::packages_signature(&Vec::new(), "none", ""), "|none");
}

#[test]
fn signatures_differ_where_the_extras_do() {
    let sig = |modes: &[&str]| {
        let list = launcher::packages_for_modes(&strings(modes));
        launcher::packages_signature(&list, "none", "")
    };
    assert_eq!(sig(&["fast"]), sig(&[]));
    assert_eq!(sig(&["expert", "fast"]), sig(&["expert"]));
    assert_ne!(sig(&["fast"]), sig(&["expert"]));
    assert_ne!(sig(&["expert"]), sig(&["expert", "tycoon"]));
    assert_eq!(sig(&["fast"]), CORE.join("|") + "|none");
}

#[test]
fn the_parts_of_a_signature_can_be_told_apart() {
    let list = launcher::packages_for_modes(&strings(&["tycoon"]));
    let sig = launcher::packages_signature(&list, "cuda", "cu121");
    let mut parts: Vec<String> = sig.split('|').map(|p| p.to_string()).collect();
    assert_eq!(parts.pop(), Some("vision:cuda:cu121".to_string()));
    assert_eq!(parts, list);
}

#[test]
fn runtime_settings_are_read() {
    assert_eq!(launcher::runtime_or_auto(""), "auto");
    assert_eq!(launcher::runtime_or_auto("cpu"), "cpu");
    assert!(launcher::force_cpu(Some("1")));
    assert!(!launcher::force_cpu(Some("true")));
    assert!(!launcher::force_cpu(None));
    assert!(launcher::backend_needed("cuda"));
    assert!(!launcher::backend_needed("none"));
}

#[test]
fn the_start_page_is_found_again() {
    let mut state = AppState::new("/res", "/data", "/data/app", "tauri://localhost".to_string());
    assert!(!state.venv_ready());
    assert_eq!(state.home_page(), Some("tauri://localhost".to_string()));
    state.home_url = "HTTP://Tauri.Localhost".to_string();
    assert_eq!(state.home_page(), Some("http://tauri.localhost/".to_string()));
    state.home_url = String::new();
    assert_eq!(state.home_page(), None);
    state.home_url = "no url".to_string();
    assert_eq!(state.home_page(), None);
    state.venv_python = Some("/data/venv/bin/python3");
    assert!(state.venv_ready());
}
