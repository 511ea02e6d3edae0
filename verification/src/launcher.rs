//! The modes of the application and the packages they need, the mirrors to
//! install from, and what is remembered of an installation.

use crate::order;
use crate::outside;
use crate::paths::Joined;
use crate::text;
use vstd::prelude::*;

verus! {

/// The file that remembers the installation, below the data directory.
pub const STATE_FILE: &'static str = ".pic_selecter_install.json";

/// The path of the file that remembers the installation.
pub fn state_file_path<B>(app_data_dir: B) -> (r: Joined<B>)
    ensures
        r@ == (app_data_dir, seq![STATE_FILE@]),
{
    let r = Joined::at(app_data_dir).join(STATE_FILE);
    assert(r@.1 =~= seq![STATE_FILE@]);
    r
}

/// The packages that every mode needs.
pub const CORE_PACKAGES: [&'static str; 9] = [
    "Pillow>=10.0",
    "pillow-heif>=0.16",
    "numpy>=1.26",
    "scipy>=1.11",
    "flask>=3.0",
    "imagehash>=4.3",
    "opencv-contrib-python>=4.9",
    "rawpy>=0.18",
    "piexif>=1.1.3",
];

/// The packages that the expert mode needs besides: deep-learning models.
pub const EXPERT_PACKAGES: [&'static str; 7] = [
    "torch>=2.2",
    "torchvision>=0.17",
    "transformers>=4.40",
    "insightface>=0.7",
    "onnxruntime>=1.16",
    "pyiqa>=0.1.10",
    "timm>=0.9",
];

/// The packages that the tycoon mode needs besides: calls to a remote model.
pub const TYCOON_PACKAGES: [&'static str; 1] = ["openai>=1.40"];

/// The texts of a list of string slices.
pub open spec fn listed(list: Seq<&'static str>) -> Seq<Seq<char>> {
    list.map_values(|s: &'static str| s@)
}

/// Whether `c` ends the name of a package in a requirement such as `numpy>=1.26`.
pub open spec fn ends_name(c: char) -> bool {
    c == '=' || c == '>' || c == '<' || c == '!' || c == '~' || c == ';' || c == '['
}

/// The predicate that accepts what ends a package's name.
pub open spec fn name_end() -> spec_fn(char) -> bool {
    |c: char| ends_name(c)
}

/// The name of the package that a requirement is about, in lower case.
pub open spec fn package_name(spec: Seq<char>) -> Seq<char> {
    outside::lowercase(spec.take(text::find(spec, name_end())))
}

/// The name of the package that a requirement is about, without the version
/// constraint, in lower case.
pub fn pkg_name(spec: &str) -> (r: String)
    ensures
        r@ == package_name(spec@),
{
    let cs = text::characters(spec);
    let ghost p = name_end();
    let mut k: usize = 0;
    while k < cs.len() && !(cs[k] == '=' || cs[k] == '>' || cs[k] == '<' || cs[k] == '!' || cs[k]
        == '~' || cs[k] == ';' || cs[k] == '[')
        invariant
            0 <= k <= cs.len(),
            cs@ == spec@,
            p == name_end(),
            forall|j: int| 0 <= j < k ==> !p(#[trigger] spec@[j]),
        decreases cs.len() - k,
    {
        k += 1;
    }
    proof {
        text::lemma_find_is(spec@, p, k as int);
    }
    let head = spec.substring_char(0, k);
    assert(head@ =~= spec@.take(k as int));
    outside::to_lowercase(head)
}

/// The packages that a mode adds.
pub open spec fn extras(mode: Seq<char>) -> Seq<Seq<char>> {
    if mode == "expert"@ {
        listed(EXPERT_PACKAGES@)
    } else if mode == "tycoon"@ {
        listed(TYCOON_PACKAGES@)
    } else {
        seq![]
    }
}

/// The core packages, then what each mode adds, in order.
pub open spec fn requested(modes: Seq<Seq<char>>) -> Seq<Seq<char>>
    decreases modes.len(),
{
    if modes.len() == 0 {
        listed(CORE_PACKAGES@)
    } else {
        requested(modes.drop_last()) + extras(modes.last())
    }
}

/// The names of the packages of a list of requirements.
pub open spec fn names(list: Seq<Seq<char>>) -> Seq<Seq<char>> {
    list.map_values(|s: Seq<char>| package_name(s))
}

/// A list of requirements with only the first one kept of those that are about
/// the same package.
pub open spec fn first_of_each_name(list: Seq<Seq<char>>) -> Seq<Seq<char>>
    decreases list.len(),
{
    if list.len() == 0 {
        seq![]
    } else {
        let kept = first_of_each_name(list.drop_last());
        if names(kept).contains(package_name(list.last())) {
            kept
        } else {
            kept.push(list.last())
        }
    }
}

/// The requirements to install for a choice of modes: no package twice, sorted.
pub open spec fn packages(modes: Seq<Seq<char>>) -> Seq<Seq<char>> {
    first_of_each_name(requested(modes)).sort_by(order::text_order())
}

/// Requirements gathered so far, and the names of their packages.
struct Gathered {
    list: Vec<String>,
    seen: Vec<String>,
}

impl Gathered {
    /// Holds what is kept of `all`.
    spec fn keeps(&self, all: Seq<Seq<char>>) -> bool {
        &&& self.list.deep_view() == first_of_each_name(all)
        &&& self.seen.deep_view() == names(first_of_each_name(all))
    }

    /// Adds the requirements of `more`, except those about a package that is
    /// there already.
    fn extend(&mut self, more: &[&'static str], Ghost(all): Ghost<Seq<Seq<char>>>)
        requires
            old(self).keeps(all),
        ensures
            final(self).keeps(all + listed(more@)),
    {
        let ghost added = listed(more@);
        let mut i: usize = 0;
        assert(all + added.take(0) =~= all);
        while i < more.len()
            invariant
                0 <= i <= more.len(),
                added == listed(more@),
                self.keeps(all + added.take(i as int)),
            decreases more.len() - i,
        {
            let name = pkg_name(more[i]);
            let ghost now = all + added.take(i as int);
            let ghost kept = first_of_each_name(now);
            proof {
                let next = all + added.take(i + 1);
                assert(next.drop_last() =~= now);
                assert(next.last() == more[i as int]@);
            }
            if !text::list_has(&self.seen, name.as_str()) {
                self.seen.push(name);
                self.list.push(more[i].to_string());
                proof {
                    assert(self.list.deep_view() =~= kept.push(more[i as int]@));
                    assert(self.seen.deep_view() =~= names(kept).push(name@));
                    assert(names(kept.push(more[i as int]@)) =~= names(kept).push(name@));
                }
            }
            i += 1;
        }
        assert(added.take(more.len() as int) =~= added);
    }
}

/// The requirements to install for the chosen modes: the core packages and what
/// the modes add, each package once, with the constraint that came first, in
/// the order of the texts.
pub fn packages_for_modes(modes: &Vec<String>) -> (r: Vec<String>)
    ensures
        r.deep_view() == packages(modes.deep_view()),
{
    let ghost chosen = modes.deep_view();
    let mut gathered = Gathered { list: Vec::new(), seen: Vec::new() };
    let ghost nothing = Seq::<Seq<char>>::empty();
    assert(gathered.list.deep_view() =~= nothing);
    assert(gathered.seen.deep_view() =~= names(nothing));
    assert(gathered.keeps(nothing));
    gathered.extend(CORE_PACKAGES.as_slice(), Ghost(nothing));
    let mut i: usize = 0;
    assert(nothing + listed(CORE_PACKAGES@) =~= requested(chosen.take(0)));
    while i < modes.len()
        invariant
            0 <= i <= modes.len(),
            chosen == modes.deep_view(),
            gathered.keeps(requested(chosen.take(i as int))),
        decreases modes.len() - i,
    {
        let ghost before = requested(chosen.take(i as int));
        proof {
            assert(chosen.take(i + 1).drop_last() =~= chosen.take(i as int));
            assert(chosen.take(i + 1).last() == modes[i as int]@);
        }
        if text::same(modes[i].as_str(), "expert") {
            gathered.extend(EXPERT_PACKAGES.as_slice(), Ghost(before));
        } else if text::same(modes[i].as_str(), "tycoon") {
            gathered.extend(TYCOON_PACKAGES.as_slice(), Ghost(before));
        } else {
            assert(before + extras(modes[i as int]@) =~= before);
        }
        i += 1;
    }
    assert(chosen.take(modes.len() as int) =~= chosen);
    order::sort(&gathered.list)
}

/// What the card of a mode shows.
#[derive(Debug, Clone)]
pub struct ModeInfo {
    /// What the mode is called in code.
    pub key: String,
    /// What the mode is called on its card.
    pub label: String,
    /// What the mode does.
    pub description: String,
    /// How much there is to download, roughly.
    pub download_size: String,
    /// How long the installation takes, roughly.
    pub time_estimate: String,
    /// Whether the mode is ticked.
    pub selected: bool,
}

/// What a `ModeInfo` says.
pub struct ModeInfoView {
    pub key: Seq<char>,
    pub label: Seq<char>,
    pub description: Seq<char>,
    pub download_size: Seq<char>,
    pub time_estimate: Seq<char>,
    pub selected: bool,
}

impl DeepView for ModeInfo {
    type V = ModeInfoView;

    open spec fn deep_view(&self) -> ModeInfoView {
        ModeInfoView {
            key: self.key@,
            label: self.label@,
            description: self.description@,
            download_size: self.download_size@,
            time_estimate: self.time_estimate@,
            selected: self.selected,
        }
    }
}

/// The card of the fast mode.
pub open spec fn fast_card(selected: bool) -> ModeInfoView {
    ModeInfoView {
        key: "fast"@,
        label: "极速模式"@,
        description: "纯本地视觉算法（哈希 + 拉普拉斯 + ORB），约 200MB 依赖"@,
        download_size: "~200MB"@,
        time_estimate: "1-3 分钟"@,
        selected,
    }
}

/// The card of the expert mode.
pub open spec fn expert_card(selected: bool) -> ModeInfoView {
    ModeInfoView {
        key: "expert"@,
        label: "专家模式"@,
        description: "深度学习（DINOv2 + InsightFace + 图像质量评估），约 2-3GB 依赖"@,
        download_size: "~2-3GB"@,
        time_estimate: "5-15 分钟"@,
        selected,
    }
}

/// The card of the tycoon mode.
pub open spec fn tycoon_card(selected: bool) -> ModeInfoView {
    ModeInfoView {
        key: "tycoon"@,
        label: "土豪模式"@,
        description: "调用远程大模型判图（火山方舟 API），需自备 API key"@,
        download_size: "~5MB"@,
        time_estimate: "约 30 秒"@,
        selected,
    }
}

/// The cards to show after `previous` was chosen: what was chosen is ticked, and
/// the fast mode where nothing was chosen yet.
pub open spec fn cards(previous: Seq<Seq<char>>) -> Seq<ModeInfoView> {
    seq![
        fast_card(previous.len() == 0 || previous.contains("fast"@)),
        expert_card(previous.contains("expert"@)),
        tycoon_card(previous.contains("tycoon"@)),
    ]
}

/// The cards of the modes, ticked as they were chosen last time; the first time,
/// the fast mode is.
pub fn get_modes(previous: &Vec<String>) -> (r: Vec<ModeInfo>)
    ensures
        r.deep_view() == cards(previous.deep_view()),
{
    let default_on = previous.len() == 0 || text::list_has(previous, "fast");
    let fast = ModeInfo {
        key: "fast".to_string(),
        label: "极速模式".to_string(),
        description: "纯本地视觉算法（哈希 + 拉普拉斯 + ORB），约 200MB 依赖".to_string(),
        download_size: "~200MB".to_string(),
        time_estimate: "1-3 分钟".to_string(),
        selected: default_on,
    };
    let expert = ModeInfo {
        key: "expert".to_string(),
        label: "专家模式".to_string(),
        description:
            "深度学习（DINOv2 + InsightFace + 图像质量评估），约 2-3GB 依赖".to_string(),
        download_size: "~2-3GB".to_string(),
        time_estimate: "5-15 分钟".to_string(),
        selected: text::list_has(previous, "expert"),
    };
    let tycoon = ModeInfo {
        key: "tycoon".to_string(),
        label: "土豪模式".to_string(),
        description: "调用远程大模型判图（火山方舟 API），需自备 API key".to_string(),
        download_size: "~5MB".to_string(),
        time_estimate: "约 30 秒".to_string(),
        selected: text::list_has(previous, "tycoon"),
    };
    let r = vec![fast, expert, tycoon];
    assert(r.deep_view() =~= cards(previous.deep_view()));
    r
}

/// Whether `key` is the key of a mode.
pub open spec fn is_mode(key: Seq<char>) -> bool {
    key == "fast"@ || key == "expert"@ || key == "tycoon"@
}

/// The modes that can be chosen are those that have a card.
pub proof fn modes_are_those_with_a_card(previous: Seq<Seq<char>>, key: Seq<char>)
    ensures
        is_mode(key) == exists|i: int|
            0 <= i < cards(previous).len() && (#[trigger] cards(previous)[i]).key == key,
{
    let all = cards(previous);
    assert(all[0].key == "fast"@);
    assert(all[1].key == "expert"@);
    assert(all[2].key == "tycoon"@);
}

/// Where packages and models are downloaded from.
#[derive(Debug, Clone)]
pub struct MirrorConfig {
    /// Whether the mirrors are used at all.
    pub use_mirror: bool,
    /// The package index to ask first.
    pub pypi_index: String,
    /// The package index to ask where the first has nothing.
    pub pypi_extra: String,
    /// What the mirror is called.
    pub pypi_label: String,
    /// Where models come from.
    pub hf_endpoint: String,
}

impl MirrorConfig {
    /// The mirrors in use, unless the variable `PIANKE_NO_MIRROR`, whose text is
    /// given where it is set, says `1`.
    pub fn from_setting(no_mirror: Option<&str>) -> (r: Self)
        ensures
            r.use_mirror == (no_mirror.deep_view() != Some("1"@)),
            r.pypi_index@ == "https://pypi.tuna.tsinghua.edu.cn/simple/"@,
            r.pypi_extra@ == "https://pypi.org/simple/"@,
            r.pypi_label@ == "清华大学 TUNA"@,
            r.hf_endpoint@ == "https://hf-mirror.com"@,
    {
        let use_mirror = match no_mirror {
            Some(v) => !text::same(v, "1"),
            None => true,
        };
        MirrorConfig {
            use_mirror,
            pypi_index: "https://pypi.tuna.tsinghua.edu.cn/simple/".to_string(),
            pypi_extra: "https://pypi.org/simple/".to_string(),
            pypi_label: "清华大学 TUNA".to_string(),
            hf_endpoint: "https://hf-mirror.com".to_string(),
        }
    }
}

/// What is remembered of an installation from one start to the next.
#[derive(Debug)]
pub struct InstallState {
    /// The modes that were chosen.
    pub modes: Vec<String>,
    /// The runtime that was asked for; empty where none was.
    pub runtime: String,
    /// The signature of what was installed; empty where the dependencies have to
    /// be looked at again.
    pub packages_sig: String,
    /// The runtime backend that was installed.
    pub runtime_backend: String,
    /// The commit that the installed code comes from, where it is known.
    pub commit_sha: Option<String>,
}

/// What an `InstallState` says.
#[verifier::ext_equal]
pub struct InstallStateView {
    pub modes: Seq<Seq<char>>,
    pub runtime: Seq<char>,
    pub packages_sig: Seq<char>,
    pub runtime_backend: Seq<char>,
    pub commit_sha: Option<Seq<char>>,
}

impl View for InstallState {
    type V = InstallStateView;

    open spec fn view(&self) -> InstallStateView {
        InstallStateView {
            modes: self.modes.deep_view(),
            runtime: self.runtime@,
            packages_sig: self.packages_sig@,
            runtime_backend: self.runtime_backend@,
            commit_sha: self.commit_sha.deep_view(),
        }
    }
}

impl DeepView for InstallState {
    type V = InstallStateView;

    open spec fn deep_view(&self) -> InstallStateView {
        self.view()
    }
}

impl Clone for InstallState {
    fn clone(&self) -> (r: Self)
        ensures
            r@ == self@,
    {
        InstallState {
            modes: text::copy_list(&self.modes),
            runtime: self.runtime.clone(),
            packages_sig: self.packages_sig.clone(),
            runtime_backend: self.runtime_backend.clone(),
            commit_sha: match &self.commit_sha {
                Some(sha) => Some(sha.clone()),
                None => None,
            },
        }
    }
}

/// What is remembered before anything was installed.
pub open spec fn nothing_installed() -> InstallStateView {
    InstallStateView {
        modes: seq![],
        runtime: seq![],
        packages_sig: seq![],
        runtime_backend: seq![],
        commit_sha: None,
    }
}

/// What is remembered of the installation: what the state file says, or nothing
/// where it could not be read or understood.
pub fn load_install_state(saved: Option<InstallState>) -> (r: InstallState)
    ensures
        r@ == (match saved {
            Some(state) => state@,
            None => nothing_installed(),
        }),
{
    match saved {
        Some(state) => state,
        None => {
            let modes: Vec<String> = Vec::new();
            assert(modes.deep_view() =~= Seq::<Seq<char>>::empty());
            InstallState {
                modes,
                runtime: String::new(),
                packages_sig: String::new(),
                runtime_backend: String::new(),
                commit_sha: None,
            }
        },
    }
}

/// The runtime to use where `runtime` was asked for.
pub open spec fn effective_runtime(runtime: Seq<char>) -> Seq<char> {
    if runtime.len() == 0 {
        "auto"@
    } else {
        runtime
    }
}

/// The runtime to use where `runtime` was asked for: that one, or `auto` where
/// nothing was.
pub fn runtime_or_auto(runtime: &str) -> (r: String)
    ensures
        r@ == effective_runtime(runtime@),
{
    if runtime.is_empty() {
        "auto".to_string()
    } else {
        runtime.to_string()
    }
}

/// Whether the graphics card is left alone: the variable `PIANKE_FORCE_CPU`,
/// whose text is given where it is set, says `1`.
pub fn force_cpu(setting: Option<&str>) -> (r: bool)
    ensures
        r == (setting.deep_view() == Some("1"@)),
{
    match setting {
        Some(v) => text::same(v, "1"),
        None => false,
    }
}

/// Whether a backend of that label is installed besides the packages.
pub open spec fn needs_backend(label: Seq<char>) -> bool {
    label != "none"@
}

/// What the signature says of the runtime backend.
pub open spec fn backend_signature(label: Seq<char>, cuda_flavor: Seq<char>) -> Seq<char> {
    if !needs_backend(label) {
        "none"@
    } else if label == "cuda"@ {
        "vision:"@ + label + ":"@ + cuda_flavor
    } else {
        "vision:"@ + label
    }
}

/// The signature of an installation: its packages and its runtime backend.
pub open spec fn signature(
    list: Seq<Seq<char>>,
    label: Seq<char>,
    cuda_flavor: Seq<char>,
) -> Seq<char> {
    text::joined(list, "|"@) + "|"@ + backend_signature(label, cuda_flavor)
}

/// Whether a backend of that label is installed besides the packages.
pub fn backend_needed(label: &str) -> (r: bool)
    ensures
        r == needs_backend(label@),
{
    !text::same(label, "none")
}

/// The signature of an installation.
pub fn packages_signature(list: &Vec<String>, label: &str, cuda_flavor: &str) -> (r: String)
    ensures
        r@ == signature(list.deep_view(), label@, cuda_flavor@),
{
    let mut r = text::join(list, "|");
    r.append("|");
    if backend_needed(label) {
        r.append("vision:");
        r.append(label);
        if text::same(label, "cuda") {
            r.append(":");
            r.append(cuda_flavor);
        }
    } else {
        r.append("none");
    }
    assert(r@ =~= signature(list.deep_view(), label@, cuda_flavor@));
    r
}

/// What the application knows while it runs.
pub struct AppState<B> {
    /// Where the packaged resources are.
    pub resource_dir: B,
    /// Where the application keeps its data.
    pub app_data_dir: B,
    /// The Python of the system, where one was found.
    pub python_path: Option<B>,
    /// The Python of the virtual environment, once there is one.
    pub venv_python: Option<B>,
    /// Where the copy of the code is.
    pub app_dir: B,
    /// The address of the start page.
    pub home_url: String,
}

impl<B> AppState<B> {
    /// What is known at the start: no Python yet.
    pub fn new(resource_dir: B, app_data_dir: B, app_dir: B, home_url: String) -> (r: Self)
        ensures
            r.resource_dir == resource_dir,
            r.app_data_dir == app_data_dir,
            r.python_path is None,
            r.venv_python is None,
            r.app_dir == app_dir,
            r.home_url == home_url,
    {
        AppState {
            resource_dir,
            app_data_dir,
            python_path: None,
            venv_python: None,
            app_dir,
            home_url,
        }
    }

    /// Whether there is a virtual environment.
    pub fn venv_ready(&self) -> (r: bool)
        ensures
            r == (self.venv_python is Some),
    {
        self.venv_python.is_some()
    }

    /// Where to lead the window so that it shows the start page again: nowhere
    /// where its address is unknown or no URL.
    pub fn home_page(&self) -> (r: Option<String>)
        ensures
            self.home_url@.len() == 0 ==> r is None,
            self.home_url@.len() != 0 ==> r.deep_view() == outside::parsed_url(self.home_url@),
    {
        if self.home_url.as_str().is_empty() {
            None
        } else {
            outside::parse_url(self.home_url.as_str())
        }
    }
}

} // verus!
