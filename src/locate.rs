use vstd::prelude::*;

use crate::err::SignToolError;
use crate::signtool::texts;

verus! {

/// Registry key, under the local-machine hive, that lists the installed kits.
pub const INSTALLED_ROOTS: &'static str = "SOFTWARE\\Microsoft\\Windows Kits\\Installed Roots";

/// Value name of the kit preferred when several are installed.
pub const DEFAULT_KIT: &'static str = "KitsRoot10";

/// Value name of the previous kit generation.
pub const KIT_8_1: &'static str = "KitsRoot81";

/// File name of the signing tool.
pub const SIGNTOOL_EXE: &'static str = "signtool.exe";

/// Whether a value name of the installed-roots key names a kit.
pub open spec fn is_kit_name(s: Seq<char>) -> bool {
    "KitsRoot"@.is_prefix_of(s)
}

/// The names among `s` that name a kit, in their order.
pub open spec fn kit_names(s: Seq<Seq<char>>) -> Seq<Seq<char>>
    decreases s.len(),
{
    if s.len() == 0 {
        s
    } else {
        let rest = kit_names(s.drop_last());
        if is_kit_name(s.last()) {
            rest.push(s.last())
        } else {
            rest
        }
    }
}

/// The kit chosen among candidate kit names: the only one, else the
/// preferred kit if present, else the first.
pub open spec fn selected_kit(kits: Seq<Seq<char>>) -> Option<Seq<char>> {
    if kits.len() == 0 {
        None
    } else if kits.len() == 1 {
        Some(kits[0])
    } else if kits.contains("KitsRoot10"@) {
        Some("KitsRoot10"@)
    } else {
        Some(kits[0])
    }
}

/// The message of the error when no kit is installed.
pub open spec fn no_kit_text() -> Seq<char> {
    "Cannot locate sign tool, no valid Kit"@
}

/// The message of the error when no candidate holds the tool.
pub open spec fn not_found_text() -> Seq<char> {
    "No SignTool found!"@
}

/// Relies on `str::starts_with` with a string pattern.
#[verifier::external_body]
fn has_prefix(s: &str, prefix: &str) -> (r: bool)
    ensures
        r == prefix@.is_prefix_of(s@),
{
    s.starts_with(prefix)
}

/// Keeps the value names that name a kit, in the order given.
pub fn kit_values(values: &Vec<String>) -> (r: Vec<String>)
    ensures
        texts(r@) == kit_names(texts(values@)),
{
    let mut r: Vec<String> = Vec::new();
    let mut i: usize = 0;
    while i < values.len()
        invariant
            i <= values.len(),
            texts(r@) == kit_names(texts(values@.take(i as int))),
        decreases values.len() - i,
    {
        proof {
            assert(texts(values@.take(i as int + 1)).drop_last() =~= texts(values@.take(i as int)));
            assert(texts(values@.take(i as int + 1)).last() == values@[i as int]@);
        }
        if has_prefix(values[i].as_str(), "KitsRoot") {
            let ghost before = r@;
            r.push(values[i].clone());
            proof {
                assert(texts(r@) =~= texts(before).push(values@[i as int]@));
            }
        }
        i += 1;
    }
    proof {
        assert(values@.take(values.len() as int) =~= values@);
    }
    r
}


/// Picks the kit among candidate kit names.
pub fn select_kit(kits: &Vec<String>) -> (r: Result<String, SignToolError>)
    ensures
        match r {
            Ok(k) => selected_kit(texts(kits@)) == Some(k@),
            Err(e) => selected_kit(texts(kits@)) is None && e.is_other_with(no_kit_text()),
        },
{
    if kits.len() == 0 {
        return Err(SignToolError::Other(String::from_str("Cannot locate sign tool, no valid Kit")));
    }
    if kits.len() == 1 {
        return Ok(kits[0].clone());
    }
    let preferred = String::from_str(DEFAULT_KIT);
    let mut i: usize = 0;
    while i < kits.len()
        invariant
            i <= kits.len(),
            preferred@ == "KitsRoot10"@,
            forall|j: int| 0 <= j < i ==> kits@[j]@ != "KitsRoot10"@,
        decreases kits.len() - i,
    {
        if kits[i] == preferred {
            proof {
                assert(texts(kits@)[i as int] == "KitsRoot10"@);
            }
            return Ok(preferred);
        }
        i += 1;
    }
    proof {
        assert(!texts(kits@).contains("KitsRoot10"@));
    }
    Ok(kits[0].clone())
}

/// Picks the kit to use: the one asked for, looked up as is, or else one
/// chosen among the kit names of the installed-roots key.
pub fn choose_kit(kit: Option<String>, value_names: &Vec<String>) -> (r: Result<
    String,
    SignToolError,
>)
    ensures
        match kit {
            Some(k) => r matches Ok(s) && s@ == k@,
            None => match r {
                Ok(s) => selected_kit(kit_names(texts(value_names@))) == Some(s@),
                Err(e) => selected_kit(kit_names(texts(value_names@))) is None && e.is_other_with(
                    no_kit_text(),
                ),
            },
        },
{
    match kit {
        Some(k) => Ok(k),
        None => select_kit(&kit_values(value_names)),
    }
}

/// Whether the kit chosen among `kits` is the preferred one.
pub open spec fn prefers_default(kits: Seq<Seq<char>>) -> bool {
    selected_kit(kits) == Some("KitsRoot10"@)
}

/// Where the preferred kit is among the candidates, it is chosen, in
/// whatever order the candidates were listed.
pub proof fn lemma_default_kit_preferred(a: Seq<Seq<char>>, b: Seq<Seq<char>>)
    requires
        a.contains("KitsRoot10"@),
        a.to_multiset() == b.to_multiset(),
    ensures
        prefers_default(a),
        prefers_default(b),
{
    a.to_multiset_ensures();
    b.to_multiset_ensures();
    assert(a.to_multiset().count("KitsRoot10"@) > 0);
    assert(b.contains("KitsRoot10"@));
    assert(a.len() == b.len());
    if a.len() == 1 {
        let j = choose|j: int| 0 <= j < a.len() && a[j] == "KitsRoot10"@;
        assert(j == 0);
        let k = choose|k: int| 0 <= k < b.len() && b[k] == "KitsRoot10"@;
        assert(k == 0);
    }
}

/// With no candidate kit, no kit is chosen; with one, that one is chosen
/// whatever its name.
pub proof fn lemma_kit_choice_small(k: Seq<char>)
    ensures
        selected_kit(Seq::empty()) is None,
        selected_kit(seq![k]) == Some(k),
{
}


/// The order of `String`: lexicographic over the characters, by code point
/// (the same as over the UTF-8 bytes).
pub open spec fn text_le(a: Seq<char>, b: Seq<char>) -> bool
    decreases a.len(),
{
    if a.len() == 0 {
        true
    } else if b.len() == 0 {
        false
    } else if a[0] != b[0] {
        (a[0] as u32) < (b[0] as u32)
    } else {
        text_le(a.drop_first(), b.drop_first())
    }
}

/// Whether the texts are in descending lexicographic order.
pub open spec fn descending(s: Seq<Seq<char>>) -> bool {
    forall|i: int, j: int| 0 <= i < j < s.len() ==> text_le(#[trigger] s[j], #[trigger] s[i])
}

/// Relies on `slice::sort` over `String`'s `Ord`: a permutation, ascending.
#[verifier::external_body]
fn sort_texts(v: &mut Vec<String>)
    ensures
        texts(final(v)@).to_multiset() == texts(old(v)@).to_multiset(),
        forall|i: int, j: int|
            0 <= i < j < final(v)@.len() ==> text_le(#[trigger] final(v)@[i]@, #[trigger] final(v)@[j]@),
{
    v.sort();
}

/// The installed versions, newest-looking first: the names in descending
/// lexicographic order.
pub fn version_order(installed: &Vec<String>) -> (r: Vec<String>)
    ensures
        texts(r@).to_multiset() == texts(installed@).to_multiset(),
        descending(texts(r@)),
{
    let mut sorted: Vec<String> = Vec::new();
    let mut i: usize = 0;
    while i < installed.len()
        invariant
            i <= installed.len(),
            sorted@ == installed@.take(i as int),
        decreases installed.len() - i,
    {
        sorted.push(installed[i].clone());
        proof {
            assert(sorted@ =~= installed@.take(i as int + 1));
        }
        i += 1;
    }
    proof {
        assert(sorted@ =~= installed@);
    }
    sort_texts(&mut sorted);
    let n = sorted.len();
    let mut r: Vec<String> = Vec::new();
    let mut k: usize = 0;
    while k < n
        invariant
            n == sorted@.len(),
            k <= n,
            r@ == sorted@.reverse().take(k as int),
        decreases n - k,
    {
        r.push(sorted[n - 1 - k].clone());
        proof {
            assert(r@ =~= sorted@.reverse().take(k as int + 1));
        }
        k += 1;
    }
    proof {
        assert(r@ =~= sorted@.reverse());
        assert(texts(r@) =~= texts(sorted@).reverse());
        texts(sorted@).lemma_reverse_to_multiset();
        assert forall|i: int, j: int| 0 <= i < j < r@.len() implies text_le(
            #[trigger] texts(r@)[j],
            #[trigger] texts(r@)[i],
        ) by {
            assert(r@[j] == sorted@[n - 1 - j]);
            assert(r@[i] == sorted@[n - 1 - i]);
            assert(text_le(sorted@[n - 1 - j]@, sorted@[n - 1 - i]@));
        }
    }
    r
}

/// Where the tool would stand under one version directory of a kit.
pub open spec fn versioned_tool_path(
    kit_root: Seq<char>,
    arch: Seq<char>,
    version: Seq<char>,
) -> Seq<Seq<char>> {
    seq![kit_root, "bin"@, version, arch, "signtool.exe"@]
}

/// Where the tool would stand directly under a kit's binary directory.
pub open spec fn base_tool_path(kit_root: Seq<char>, arch: Seq<char>) -> Seq<Seq<char>> {
    seq![kit_root, "bin"@, arch, "signtool.exe"@]
}

/// The paths where the tool is looked for, as path components, in the
/// order given by `versions` and then directly under the kit's binary
/// directory.
pub fn candidate_paths(kit_root: &str, arch: &str, versions: &Vec<String>) -> (r: Vec<Vec<String>>)
    ensures
        r@.len() == versions@.len() + 1,
        forall|k: int| 0 <= k < versions@.len() ==> (#[trigger] r@[k]@)[2] == versions@[k],
        forall|k: int|
            0 <= k < versions@.len() ==> texts(#[trigger] r@[k]@) == versioned_tool_path(
                kit_root@,
                arch@,
                versions@[k]@,
            ),
        texts(r@[versions@.len() as int]@) == base_tool_path(kit_root@, arch@),
{
    let mut r: Vec<Vec<String>> = Vec::new();
    let mut k: usize = 0;
    while k < versions.len()
        invariant
            k <= versions@.len(),
            r@.len() == k,
            forall|j: int| 0 <= j < k ==> (#[trigger] r@[j]@)[2] == versions@[j],
            forall|j: int|
                0 <= j < k ==> texts(#[trigger] r@[j]@) == versioned_tool_path(
                    kit_root@,
                    arch@,
                    versions@[j]@,
                ),
        decreases versions.len() - k,
    {
        let mut p: Vec<String> = Vec::new();
        p.push(String::from_str(kit_root));
        p.push(String::from_str("bin"));
        p.push(versions[k].clone());
        p.push(String::from_str(arch));
        p.push(String::from_str(SIGNTOOL_EXE));
        proof {
            assert(texts(p@) =~= versioned_tool_path(kit_root@, arch@, versions@[k as int]@));
        }
        r.push(p);
        k += 1;
    }
    let mut base: Vec<String> = Vec::new();
    base.push(String::from_str(kit_root));
    base.push(String::from_str("bin"));
    base.push(String::from_str(arch));
    base.push(String::from_str(SIGNTOOL_EXE));
    proof {
        assert(texts(base@) =~= base_tool_path(kit_root@, arch@));
    }
    r.push(base);
    r
}

/// The version directories named by the first `n` search paths.
pub open spec fn versions_searched(paths: Seq<Vec<String>>, n: nat) -> Seq<Seq<char>> {
    Seq::new(n, |k: int| paths[k]@[2]@)
}

/// `r` is the search order for a kit root, an architecture directory and
/// the installed versions: one path under each version, in descending
/// lexicographic order of the versions, then the base path last.
pub open spec fn is_search_order(
    r: Seq<Vec<String>>,
    kit_root: Seq<char>,
    arch: Seq<char>,
    installed: Seq<Seq<char>>,
) -> bool {
    &&& r.len() == installed.len() + 1
    &&& versions_searched(r, installed.len()).to_multiset() == installed.to_multiset()
    &&& descending(versions_searched(r, installed.len()))
    &&& forall|k: int|
        0 <= k < installed.len() ==> texts(#[trigger] r[k]@) == versioned_tool_path(
            kit_root,
            arch,
            r[k]@[2]@,
        )
    &&& texts(r[installed.len() as int]@) == base_tool_path(kit_root, arch)
}

/// The paths where the tool is looked for: under each installed version,
/// newest-looking first, then directly under the kit's binary directory.
pub fn search_paths(kit_root: &str, arch: &str, installed: &Vec<String>) -> (r: Vec<Vec<String>>)
    ensures
        is_search_order(r@, kit_root@, arch@, texts(installed@)),
{
    let versions = version_order(installed);
    proof {
        texts(installed@).to_multiset_ensures();
        texts(versions@).to_multiset_ensures();
    }
    let r = candidate_paths(kit_root, arch, &versions);
    proof {
        assert(versions_searched(r@, installed@.len()) =~= texts(versions@));
    }
    r
}

/// Finds the first candidate that is present.
pub fn first_present(present: &Vec<bool>) -> (r: Result<usize, SignToolError>)
    ensures
        match r {
            Ok(i) => i < present@.len() && present@[i as int] && forall|j: int|
                0 <= j < i ==> !present@[j],
            Err(e) => (forall|j: int| 0 <= j < present@.len() ==> !present@[j]) && e.is_other_with(
                not_found_text(),
            ),
        },
{
    let mut i: usize = 0;
    while i < present.len()
        invariant
            i <= present@.len(),
            forall|j: int| 0 <= j < i ==> !present@[j],
        decreases present.len() - i,
    {
        if present[i] {
            return Ok(i);
        }
        i += 1;
    }
    Err(SignToolError::Other(String::from_str("No SignTool found!")))
}


proof fn lemma_text_le_reflexive(a: Seq<char>)
    ensures
        text_le(a, a),
    decreases a.len(),
{
    if a.len() != 0 {
        lemma_text_le_reflexive(a.drop_first());
    }
}

proof fn lemma_text_le_antisymmetric(a: Seq<char>, b: Seq<char>)
    requires
        text_le(a, b),
        text_le(b, a),
    ensures
        a == b,
    decreases a.len(),
{
    if a.len() != 0 && b.len() != 0 && a[0] == b[0] {
        lemma_text_le_antisymmetric(a.drop_first(), b.drop_first());
        assert(a =~= seq![a[0]] + a.drop_first());
        assert(b =~= seq![b[0]] + b.drop_first());
    }
}

/// The search order is determined by the installed versions alone: two
/// descending orders of the same versions are the same sequence.
pub proof fn lemma_search_order_determined(x: Seq<Seq<char>>, y: Seq<Seq<char>>)
    requires
        descending(x),
        descending(y),
        x.to_multiset() == y.to_multiset(),
    ensures
        x == y,
    decreases x.len(),
{
    x.to_multiset_ensures();
    y.to_multiset_ensures();
    if x.len() == 0 {
        assert(y.len() == 0);
        assert(x =~= y);
    } else {
        assert(x.to_multiset().count(x[0]) > 0);
        assert(y.contains(x[0]));
        let k = choose|k: int| 0 <= k < y.len() && y[k] == x[0];
        if k > 0 {
            assert(text_le(y[k], y[0]));
        } else {
            lemma_text_le_reflexive(x[0]);
        }
        assert(y.to_multiset().count(y[0]) > 0);
        assert(x.contains(y[0]));
        let m = choose|m: int| 0 <= m < x.len() && x[m] == y[0];
        if m > 0 {
            assert(text_le(x[m], x[0]));
        } else {
            lemma_text_le_reflexive(y[0]);
        }
        lemma_text_le_antisymmetric(x[0], y[0]);
        assert(x.remove(0) =~= x.drop_first());
        assert(y.remove(0) =~= y.drop_first());
        assert(descending(x.drop_first())) by {
            assert forall|i: int, j: int| 0 <= i < j < x.drop_first().len() implies text_le(
                #[trigger] x.drop_first()[j],
                #[trigger] x.drop_first()[i],
            ) by {
                assert(text_le(x[j + 1], x[i + 1]));
            }
        }
        assert(descending(y.drop_first())) by {
            assert forall|i: int, j: int| 0 <= i < j < y.drop_first().len() implies text_le(
                #[trigger] y.drop_first()[j],
                #[trigger] y.drop_first()[i],
            ) by {
                assert(text_le(y[j + 1], y[i + 1]));
            }
        }
        lemma_search_order_determined(x.drop_first(), y.drop_first());
        assert(x =~= seq![x[0]] + x.drop_first());
        assert(y =~= seq![y[0]] + y.drop_first());
    }
}

/// The search order depends on the set of installed versions alone: for
/// the same kit root and architecture, two lists of the same versions, in
/// any order, give the same paths in the same order.
pub proof fn lemma_search_paths_determined(
    r1: Seq<Vec<String>>,
    r2: Seq<Vec<String>>,
    kit_root: Seq<char>,
    arch: Seq<char>,
    a: Seq<Seq<char>>,
    b: Seq<Seq<char>>,
)
    requires
        is_search_order(r1, kit_root, arch, a),
        is_search_order(r2, kit_root, arch, b),
        a.to_multiset() == b.to_multiset(),
    ensures
        r1.len() == r2.len(),
        forall|k: int| 0 <= k < r1.len() ==> texts(#[trigger] r1[k]@) == texts(r2[k]@),
{
    a.to_multiset_ensures();
    b.to_multiset_ensures();
    let n = a.len();
    lemma_search_order_determined(versions_searched(r1, n), versions_searched(r2, n));
    assert forall|k: int| 0 <= k < r1.len() implies texts(#[trigger] r1[k]@) == texts(r2[k]@) by {
        if k < n {
            assert(versions_searched(r1, n)[k] == versions_searched(r2, n)[k]);
        }
    }
}

} // verus!
