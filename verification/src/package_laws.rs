//! What holds of the list of packages whatever modes were chosen.

use crate::launcher;
use crate::order;
use crate::outside;
use crate::text;
use vstd::prelude::*;
use vstd::relations::*;
use vstd::seq_lib::*;

verus! {

/// Every requirement that some mode asks for.
pub open spec fn every_package() -> Seq<Seq<char>> {
    launcher::listed(launcher::CORE_PACKAGES@) + launcher::listed(launcher::EXPERT_PACKAGES@)
        + launcher::listed(launcher::TYCOON_PACKAGES@)
}

/// Whether the requirement `p` is asked for by a choice of modes.
pub open spec fn wanted(modes: Seq<Seq<char>>, p: Seq<char>) -> bool {
    ||| launcher::listed(launcher::CORE_PACKAGES@).contains(p)
    ||| modes.contains("expert"@) && launcher::listed(launcher::EXPERT_PACKAGES@).contains(p)
    ||| modes.contains("tycoon"@) && launcher::listed(launcher::TYCOON_PACKAGES@).contains(p)
}

proof fn lemma_name(s: Seq<char>, k: int)
    requires
        0 <= k < s.len(),
        forall|j: int| 0 <= j < k ==> !launcher::ends_name(#[trigger] s[j]),
        launcher::ends_name(s[k]),
        forall|j: int| 0 <= j < k ==> '\0' <= #[trigger] s[j] <= '\u{7f}',
    ensures
        launcher::package_name(s).len() == k,
        forall|j: int|
            0 <= j < k ==> #[trigger] launcher::package_name(s)[j] == outside::ascii_lower(s[j]),
{
    text::lemma_find_is(s, launcher::name_end(), k);
    let head = s.take(k);
    assert forall|j: int| 0 <= j < head.len() implies '\0' <= #[trigger] head[j] <= '\u{7f}' by {
        assert(head[j] == s[j]);
    }
    assert(vstd::utf8::is_ascii_chars(head));
}

/// Only what comes before the constraint matters to the name of a package: a text
/// without a character that ends a name is named the same, whatever constraint
/// follows it, and its name is its lower-case form.
pub proof fn constraints_do_not_matter_to_a_name(name: Seq<char>, constraint: Seq<char>)
    requires
        forall|j: int| 0 <= j < name.len() ==> !launcher::ends_name(#[trigger] name[j]),
        constraint.len() > 0 ==> launcher::ends_name(constraint[0]),
    ensures
        launcher::package_name(name + constraint) == outside::lowercase(name),
        launcher::package_name(name) == outside::lowercase(name),
{
    let p = launcher::name_end();
    let s = name + constraint;
    let k = name.len() as int;
    assert forall|j: int| 0 <= j < k implies !p(#[trigger] s[j]) by {
        assert(s[j] == name[j]);
    }
    if constraint.len() > 0 {
        assert(s[k] == constraint[0]);
        assert(p(s[k]));
    }
    text::lemma_find_is(s, p, k);
    assert(s.take(k) =~= name);
    assert forall|j: int| 0 <= j < k implies !p(#[trigger] name[j]) by {}
    text::lemma_find_is(name, p, k);
    assert(name.take(k) =~= name);
}

/// The name of a package holds no character that ends a name, and it names itself,
/// where it is written in plain ASCII.
pub proof fn a_package_name_names_itself(s: Seq<char>)
    requires
        vstd::utf8::is_ascii_chars(s.take(text::find(s, launcher::name_end()))),
    ensures
        forall|j: int|
            0 <= j < launcher::package_name(s).len() ==> !launcher::ends_name(
                #[trigger] launcher::package_name(s)[j],
            ),
        launcher::package_name(launcher::package_name(s)) == launcher::package_name(s),
{
    let p = launcher::name_end();
    text::lemma_find(s, p);
    let head = s.take(text::find(s, p));
    let name = launcher::package_name(s);
    assert forall|j: int| 0 <= j < name.len() implies !launcher::ends_name(#[trigger] name[j])
        && '\0' <= name[j] <= '\u{7f}' && outside::ascii_lower(name[j]) == name[j] by {
        assert(head[j] == s[j]);
        assert(!p(s[j]));
        assert('\0' <= head[j] <= '\u{7f}');
        assert(name[j] == outside::ascii_lower(head[j]));
    }
    constraints_do_not_matter_to_a_name(name, Seq::empty());
    assert(vstd::utf8::is_ascii_chars(name));
    assert(outside::lowercase(name) =~= name);
}

/// The length, the first and the third character of a package's name. No two of
/// the packages agree in all three.
spec fn mark(i: int) -> (nat, char, char) {
    if i == 0 {
        (6, 'p', 'l')
    } else if i == 1 {
        (11, 'p', 'l')
    } else if i == 2 {
        (5, 'n', 'm')
    } else if i == 3 {
        (5, 's', 'i')
    } else if i == 4 {
        (5, 'f', 'a')
    } else if i == 5 {
        (9, 'i', 'a')
    } else if i == 6 {
        (21, 'o', 'e')
    } else if i == 7 {
        (5, 'r', 'w')
    } else if i == 8 {
        (6, 'p', 'e')
    } else if i == 9 {
        (5, 't', 'r')
    } else if i == 10 {
        (11, 't', 'r')
    } else if i == 11 {
        (12, 't', 'a')
    } else if i == 12 {
        (11, 'i', 's')
    } else if i == 13 {
        (11, 'o', 'n')
    } else if i == 14 {
        (5, 'p', 'i')
    } else if i == 15 {
        (4, 't', 'm')
    } else {
        (6, 'o', 'e')
    }
}

spec fn marked(s: Seq<char>, m: (nat, char, char)) -> bool {
    let n = launcher::package_name(s);
    n.len() == m.0 && n[0] == m.1 && n[2] == m.2
}

proof fn lemma_core_marks()
    ensures
        forall|i: int| 0 <= i < 9 ==> marked(#[trigger] every_package()[i], mark(i)),
{
    reveal_strlit("Pillow>=10.0");
    reveal_strlit("pillow-heif>=0.16");
    reveal_strlit("numpy>=1.26");
    reveal_strlit("scipy>=1.11");
    reveal_strlit("flask>=3.0");
    reveal_strlit("imagehash>=4.3");
    reveal_strlit("opencv-contrib-python>=4.9");
    reveal_strlit("rawpy>=0.18");
    reveal_strlit("piexif>=1.1.3");
    lemma_name("Pillow>=10.0"@, 6);
    lemma_name("pillow-heif>=0.16"@, 11);
    lemma_name("numpy>=1.26"@, 5);
    lemma_name("scipy>=1.11"@, 5);
    lemma_name("flask>=3.0"@, 5);
    lemma_name("imagehash>=4.3"@, 9);
    lemma_name("opencv-contrib-python>=4.9"@, 21);
    lemma_name("rawpy>=0.18"@, 5);
    lemma_name("piexif>=1.1.3"@, 6);
}

proof fn lemma_extra_marks()
    ensures
        forall|i: int| 9 <= i < 17 ==> marked(#[trigger] every_package()[i], mark(i)),
{
    reveal_strlit("torch>=2.2");
    reveal_strlit("torchvision>=0.17");
    reveal_strlit("transformers>=4.40");
    reveal_strlit("insightface>=0.7");
    reveal_strlit("onnxruntime>=1.16");
    reveal_strlit("pyiqa>=0.1.10");
    reveal_strlit("timm>=0.9");
    reveal_strlit("openai>=1.40");
    lemma_name("torch>=2.2"@, 5);
    lemma_name("torchvision>=0.17"@, 11);
    lemma_name("transformers>=4.40"@, 12);
    lemma_name("insightface>=0.7"@, 11);
    lemma_name("onnxruntime>=1.16"@, 11);
    lemma_name("pyiqa>=0.1.10"@, 5);
    lemma_name("timm>=0.9"@, 4);
    lemma_name("openai>=1.40"@, 6);
}

/// No two of the requirements that modes ask for are about the same package.
pub proof fn every_package_has_its_own_name(x: Seq<char>, y: Seq<char>)
    requires
        every_package().contains(x),
        every_package().contains(y),
        launcher::package_name(x) == launcher::package_name(y),
    ensures
        x == y,
{
    lemma_core_marks();
    lemma_extra_marks();
    let all = every_package();
    assert(all.len() == 17);
    let i = choose|i: int| 0 <= i < all.len() && all[i] == x;
    let j = choose|j: int| 0 <= j < all.len() && all[j] == y;
    assert(marked(all[i], mark(i)));
    assert(marked(all[j], mark(j)));
    assert(mark(i) == mark(j));
    assert(i == j);
}

proof fn lemma_requested(modes: Seq<Seq<char>>, p: Seq<char>)
    ensures
        launcher::requested(modes).contains(p) == wanted(modes, p),
    decreases modes.len(),
{
    if modes.len() > 0 {
        let before = modes.drop_last();
        let m = modes.last();
        lemma_requested(before, p);
        assert(modes =~= before.push(m));
        assert(modes.contains("expert"@) == (before.contains("expert"@) || m == "expert"@)) by {
            lemma_push_contains(before, m, "expert"@);
        }
        assert(modes.contains("tycoon"@) == (before.contains("tycoon"@) || m == "tycoon"@)) by {
            lemma_push_contains(before, m, "tycoon"@);
        }
        lemma_concat_contains(launcher::requested(before), launcher::extras(m), p);
        assert("expert"@ != "tycoon"@) by {
            reveal_strlit("expert");
            reveal_strlit("tycoon");
            assert("expert"@[0] != "tycoon"@[0]);
        }
        assert(!Seq::<Seq<char>>::empty().contains(p));
    }
}

proof fn lemma_push_contains(s: Seq<Seq<char>>, x: Seq<char>, y: Seq<char>)
    ensures
        s.push(x).contains(y) == (s.contains(y) || x == y),
{
    assert(s.push(x)[s.len() as int] == x);
    if s.contains(y) {
        let i = choose|i: int| 0 <= i < s.len() && s[i] == y;
        assert(s.push(x)[i] == y);
    }
}

proof fn lemma_concat_contains(a: Seq<Seq<char>>, b: Seq<Seq<char>>, y: Seq<char>)
    ensures
        (a + b).contains(y) == (a.contains(y) || b.contains(y)),
{
    if a.contains(y) {
        let i = choose|i: int| 0 <= i < a.len() && a[i] == y;
        assert((a + b)[i] == y);
    }
    if b.contains(y) {
        let i = choose|i: int| 0 <= i < b.len() && b[i] == y;
        assert((a + b)[a.len() + i] == y);
    }
}

proof fn lemma_kept(list: Seq<Seq<char>>)
    ensures
        launcher::names(launcher::first_of_each_name(list)).no_duplicates(),
        forall|x: Seq<char>| #[trigger]
            launcher::first_of_each_name(list).contains(x) ==> list.contains(x),
        forall|x: Seq<char>| #[trigger]
            list.contains(x) ==> launcher::names(launcher::first_of_each_name(list)).contains(
                launcher::package_name(x),
            ),
    decreases list.len(),
{
    if list.len() > 0 {
        let before = list.drop_last();
        let last = list.last();
        let kept = launcher::first_of_each_name(before);
        lemma_kept(before);
        assert(list =~= before.push(last));
        assert forall|x: Seq<char>| list.contains(x) == (before.contains(x) || x == last) by {
            lemma_push_contains(before, last, x);
        }
        if !launcher::names(kept).contains(launcher::package_name(last)) {
            let now = kept.push(last);
            assert(launcher::names(now) =~= launcher::names(kept).push(
                launcher::package_name(last),
            ));
            assert forall|x: Seq<char>| now.contains(x) == (kept.contains(x) || x == last) by {
                lemma_push_contains(kept, last, x);
            }
            assert forall|n: Seq<char>|
                launcher::names(now).contains(n) == (launcher::names(kept).contains(n) || n
                    == launcher::package_name(last)) by {
                lemma_push_contains(launcher::names(kept), launcher::package_name(last), n);
            }
        }
    }
}

/// The list holds exactly what is asked for: the core packages always, those of
/// the expert mode where it was chosen, those of the tycoon mode where it was
/// chosen.
pub proof fn packages_are_what_is_wanted(modes: Seq<Seq<char>>, p: Seq<char>)
    ensures
        launcher::packages(modes).contains(p) == wanted(modes, p),
{
    let list = launcher::requested(modes);
    let kept = launcher::first_of_each_name(list);
    lemma_kept(list);
    lemma_requested(modes, p);
    if list.contains(p) {
        let ns = launcher::names(kept);
        let i = choose|i: int| 0 <= i < ns.len() && ns[i] == launcher::package_name(p);
        let q = kept[i];
        assert(kept.contains(q));
        assert(list.contains(q));
        lemma_requested(modes, q);
        lemma_wanted_is_known(modes, p);
        lemma_wanted_is_known(modes, q);
        every_package_has_its_own_name(p, q);
    }
    lemma_sorting_keeps(kept, p);
}

proof fn lemma_wanted_is_known(modes: Seq<Seq<char>>, p: Seq<char>)
    requires
        wanted(modes, p),
    ensures
        every_package().contains(p),
{
    let core = launcher::listed(launcher::CORE_PACKAGES@);
    let expert = launcher::listed(launcher::EXPERT_PACKAGES@);
    let tycoon = launcher::listed(launcher::TYCOON_PACKAGES@);
    lemma_concat_contains(core, expert, p);
    lemma_concat_contains(core + expert, tycoon, p);
}

proof fn lemma_sorting_keeps(list: Seq<Seq<char>>, p: Seq<char>)
    ensures
        list.sort_by(order::text_order()).contains(p) == list.contains(p),
{
    broadcast use group_to_multiset_ensures;

    order::text_order_is_total();
    list.lemma_sort_by_ensures(order::text_order());
    let sorted = list.sort_by(order::text_order());
    assert(list.to_multiset().count(p) == sorted.to_multiset().count(p));
}

proof fn lemma_kept_differ(list: Seq<Seq<char>>)
    ensures
        launcher::first_of_each_name(list).no_duplicates(),
{
    let kept = launcher::first_of_each_name(list);
    lemma_kept(list);
    assert forall|i: int, j: int| 0 <= i < kept.len() && 0 <= j < kept.len() && i != j implies kept[i]
        != kept[j] by {
        assert(launcher::names(kept)[i] == launcher::package_name(kept[i]));
        assert(launcher::names(kept)[j] == launcher::package_name(kept[j]));
    }
}

/// The list is in the order of the texts.
pub proof fn packages_are_sorted(modes: Seq<Seq<char>>)
    ensures
        sorted_by(launcher::packages(modes), order::text_order()),
{
    order::text_order_is_total();
    launcher::first_of_each_name(launcher::requested(modes)).lemma_sort_by_ensures(
        order::text_order(),
    );
}

/// No package stands in the list twice, whatever the version constraints say
/// and however its name is capitalised.
pub proof fn packages_are_distinct(modes: Seq<Seq<char>>)
    ensures
        launcher::names(launcher::packages(modes)).no_duplicates(),
{
    broadcast use group_to_multiset_ensures;

    let kept = launcher::first_of_each_name(launcher::requested(modes));
    let sorted = launcher::packages(modes);
    order::text_order_is_total();
    kept.lemma_sort_by_ensures(order::text_order());
    lemma_kept_differ(launcher::requested(modes));
    kept.lemma_multiset_has_no_duplicates();
    sorted.lemma_multiset_has_no_duplicates_conv();
    assert forall|i: int, j: int|
        0 <= i < sorted.len() && 0 <= j < sorted.len() && i != j implies launcher::names(
        sorted,
    )[i] != launcher::names(sorted)[j] by {
        assert(sorted.contains(sorted[i]));
        assert(sorted.contains(sorted[j]));
        packages_are_what_is_wanted(modes, sorted[i]);
        packages_are_what_is_wanted(modes, sorted[j]);
        lemma_wanted_is_known(modes, sorted[i]);
        lemma_wanted_is_known(modes, sorted[j]);
        if launcher::package_name(sorted[i]) == launcher::package_name(sorted[j]) {
            every_package_has_its_own_name(sorted[i], sorted[j]);
        }
    }
}

/// The list depends only on whether the expert mode and the tycoon mode are
/// among the chosen ones: neither their order, nor how often they are named, nor
/// any other mode changes it.
pub proof fn packages_depend_on_extras_alone(a: Seq<Seq<char>>, b: Seq<Seq<char>>)
    requires
        a.contains("expert"@) == b.contains("expert"@),
        a.contains("tycoon"@) == b.contains("tycoon"@),
    ensures
        launcher::packages(a) == launcher::packages(b),
{
    broadcast use group_to_multiset_ensures;

    let x = launcher::first_of_each_name(launcher::requested(a));
    let y = launcher::first_of_each_name(launcher::requested(b));
    lemma_kept_differ(launcher::requested(a));
    lemma_kept_differ(launcher::requested(b));
    x.lemma_multiset_has_no_duplicates();
    y.lemma_multiset_has_no_duplicates();
    assert forall|p: Seq<char>| x.to_multiset().count(p) == y.to_multiset().count(p) by {
        packages_are_what_is_wanted(a, p);
        packages_are_what_is_wanted(b, p);
        lemma_sorting_keeps(x, p);
        lemma_sorting_keeps(y, p);
        assert(x.contains(p) == y.contains(p));
        assert(x.contains(p) == x.to_multiset().contains(p));
        assert(y.contains(p) == y.to_multiset().contains(p));
    }
    assert(x.to_multiset() =~= y.to_multiset());
    order::text_order_is_total();
    x.lemma_sort_by_ensures(order::text_order());
    y.lemma_sort_by_ensures(order::text_order());
    lemma_sorted_unique(launcher::packages(a), launcher::packages(b), order::text_order());
}

/// Whether no character of `s` is a bar.
pub open spec fn has_no_bar(s: Seq<char>) -> bool {
    forall|j: int| 0 <= j < s.len() ==> #[trigger] s[j] != '|'
}

proof fn lemma_core_has_no_bar()
    ensures
        forall|i: int| 0 <= i < 9 ==> has_no_bar(#[trigger] every_package()[i]),
{
    reveal_strlit("Pillow>=10.0");
    reveal_strlit("pillow-heif>=0.16");
    reveal_strlit("numpy>=1.26");
    reveal_strlit("scipy>=1.11");
    reveal_strlit("flask>=3.0");
    reveal_strlit("imagehash>=4.3");
    reveal_strlit("opencv-contrib-python>=4.9");
    reveal_strlit("rawpy>=0.18");
    reveal_strlit("piexif>=1.1.3");
}

proof fn lemma_extra_has_no_bar()
    ensures
        forall|i: int| 9 <= i < 17 ==> has_no_bar(#[trigger] every_package()[i]),
{
    reveal_strlit("torch>=2.2");
    reveal_strlit("torchvision>=0.17");
    reveal_strlit("transformers>=4.40");
    reveal_strlit("insightface>=0.7");
    reveal_strlit("onnxruntime>=1.16");
    reveal_strlit("pyiqa>=0.1.10");
    reveal_strlit("timm>=0.9");
    reveal_strlit("openai>=1.40");
}

/// The signature tells its parts: split at the bars it gives back the packages and
/// what it says of the backend.
pub proof fn signature_tells_its_parts(
    modes: Seq<Seq<char>>,
    label: Seq<char>,
    cuda_flavor: Seq<char>,
)
    requires
        has_no_bar(label),
        has_no_bar(cuda_flavor),
    ensures
        text::fields(launcher::signature(launcher::packages(modes), label, cuda_flavor), '|')
            == launcher::packages(modes).push(launcher::backend_signature(label, cuda_flavor)),
{
    let list = launcher::packages(modes);
    let backend = launcher::backend_signature(label, cuda_flavor);
    let all = list.push(backend);
    reveal_strlit("|");
    reveal_strlit("none");
    reveal_strlit("vision:");
    reveal_strlit(":");
    assert("|"@ =~= seq!['|']);
    assert forall|i: int, j: int| 0 <= i < all.len() && 0 <= j < all[i].len() implies (
    #[trigger] all[i][j]) != '|' by {
        if i < list.len() {
            lemma_listed_has_no_bar(modes, i);
            assert(list[i][j] != '|');
        } else {
            assert(has_no_bar(backend));
        }
    }
    text::splitting_undoes_joining(all, '|');
    assert(all.drop_last() =~= list);
    lemma_not_empty(modes);
}

proof fn lemma_listed_has_no_bar(modes: Seq<Seq<char>>, i: int)
    requires
        0 <= i < launcher::packages(modes).len(),
    ensures
        has_no_bar(launcher::packages(modes)[i]),
{
    let p = launcher::packages(modes)[i];
    assert(launcher::packages(modes).contains(p));
    packages_are_what_is_wanted(modes, p);
    lemma_wanted_is_known(modes, p);
    let all = every_package();
    assert(all.len() == 17);
    let k = choose|k: int| 0 <= k < all.len() && all[k] == p;
    lemma_core_has_no_bar();
    lemma_extra_has_no_bar();
    assert(has_no_bar(all[k]));
}

proof fn lemma_not_empty(modes: Seq<Seq<char>>)
    ensures
        launcher::packages(modes).len() > 0,
{
    let core = launcher::listed(launcher::CORE_PACKAGES@);
    assert(core.contains(core[0]));
    packages_are_what_is_wanted(modes, core[0]);
}

/// Whether a choice of modes asks for the requirement that stands for its extras.
proof fn lemma_extra_is_its_own(modes: Seq<Seq<char>>)
    ensures
        launcher::packages(modes).contains(every_package()[9]) == modes.contains("expert"@),
        launcher::packages(modes).contains(every_package()[16]) == modes.contains("tycoon"@),
{
    let core = launcher::listed(launcher::CORE_PACKAGES@);
    let expert = launcher::listed(launcher::EXPERT_PACKAGES@);
    let tycoon = launcher::listed(launcher::TYCOON_PACKAGES@);
    let all = every_package();
    let torch = all[9];
    let openai = all[16];
    assert(expert[0] == torch);
    assert(expert.contains(torch));
    assert(tycoon[0] == openai);
    assert(tycoon.contains(openai));
    lemma_core_marks();
    lemma_extra_marks();
    assert forall|i: int, j: int| 0 <= i < 17 && 0 <= j < 17 && i != j implies #[trigger] all[i]
        != #[trigger] all[j] by {
        assert(marked(all[i], mark(i)));
        assert(marked(all[j], mark(j)));
        assert(mark(i) != mark(j));
    }
    assert forall|i: int| 0 <= i < core.len() implies #[trigger] core[i] != torch && core[i]
        != openai by {
        assert(core[i] == all[i]);
    }
    assert forall|i: int| 0 <= i < expert.len() implies #[trigger] expert[i] != openai by {
        assert(expert[i] == all[9 + i]);
    }
    packages_are_what_is_wanted(modes, torch);
    packages_are_what_is_wanted(modes, openai);
}

/// Two installations have the same signature exactly where they are the same: both
/// with the extras of the expert mode or both without, both with those of the
/// tycoon mode or both without, and with the same backend.
pub proof fn signatures_agree_where_installations_do(
    a: Seq<Seq<char>>,
    label_a: Seq<char>,
    flavor_a: Seq<char>,
    b: Seq<Seq<char>>,
    label_b: Seq<char>,
    flavor_b: Seq<char>,
)
    requires
        has_no_bar(label_a),
        has_no_bar(flavor_a),
        has_no_bar(label_b),
        has_no_bar(flavor_b),
    ensures
        launcher::signature(launcher::packages(a), label_a, flavor_a) == launcher::signature(
            launcher::packages(b),
            label_b,
            flavor_b,
        ) <==> a.contains("expert"@) == b.contains("expert"@) && a.contains("tycoon"@)
            == b.contains("tycoon"@) && launcher::backend_signature(label_a, flavor_a)
            == launcher::backend_signature(label_b, flavor_b),
{
    let x = launcher::packages(a);
    let y = launcher::packages(b);
    let s = launcher::backend_signature(label_a, flavor_a);
    let t = launcher::backend_signature(label_b, flavor_b);
    if launcher::signature(x, label_a, flavor_a) == launcher::signature(y, label_b, flavor_b) {
        signature_tells_its_parts(a, label_a, flavor_a);
        signature_tells_its_parts(b, label_b, flavor_b);
        assert(x.push(s) == y.push(t));
        assert(x.push(s).last() == s);
        assert(y.push(t).last() == t);
        assert(x.push(s).drop_last() =~= x);
        assert(y.push(t).drop_last() =~= y);
        lemma_extra_is_its_own(a);
        lemma_extra_is_its_own(b);
    } else if a.contains("expert"@) == b.contains("expert"@) && a.contains("tycoon"@)
        == b.contains("tycoon"@) {
        packages_depend_on_extras_alone(a, b);
    }
}

} // verus!
