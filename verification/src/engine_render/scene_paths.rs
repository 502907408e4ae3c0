//! Choosing the default test scene: which files are glTF scenes and in what
//! order they are tried.

use vstd::prelude::*;
use vstd::string::{StrSliceExecFns, StringExecFns};

use crate::text::{decimal, push_decimal};
use crate::paths::{
    ascii_lowercase, has_extension, lowercase_chars, path_file_name, path_has_extension,
    std_path_file_name,
};

verus! {

/// Strict lexicographic order of texts by code point, which is the order of
/// their UTF-8 bytes.
pub open spec fn text_less(a: Seq<char>, b: Seq<char>) -> bool
    decreases a.len(),
{
    if a.len() == 0 {
        b.len() > 0
    } else if b.len() == 0 {
        false
    } else if a[0] != b[0] {
        (a[0] as int) < (b[0] as int)
    } else {
        text_less(a.drop_first(), b.drop_first())
    }
}

/// The key the default scene is chosen by: the file name in ASCII lower
/// case (empty when the path has none).
pub open spec fn selection_key(path: Seq<char>) -> Seq<char> {
    match std_path_file_name(path) {
        Some(name) => ascii_lowercase(name),
        None => seq![],
    }
}

/// Whether `p` lists each position below `n` once.
pub open spec fn is_permutation(p: Seq<int>, n: nat) -> bool {
    &&& p.len() == n
    &&& forall|i: int| 0 <= i < n ==> 0 <= #[trigger] p[i] < n
    &&& forall|i: int, j: int| 0 <= i < j < n ==> #[trigger] p[i] != #[trigger] p[j]
}

/// Whether `output` is `input` sorted by selection key, stably: paths with
/// equal keys keep their order.
pub open spec fn stably_sorted_by_key(input: Seq<Seq<char>>, output: Seq<Seq<char>>) -> bool {
    exists|p: Seq<int>|
        {
            &&& is_permutation(p, input.len())
            &&& output.len() == input.len()
            &&& forall|i: int| 0 <= i < output.len() ==> #[trigger] output[i] == input[p[i]]
            &&& forall|i: int, j: int|
                0 <= i < j < output.len() ==> {
                    ||| text_less(selection_key(output[i]), selection_key(output[j]))
                    ||| (selection_key(output[i]) == selection_key(output[j]) && p[i] < p[j])
                }
        }
}

proof fn lemma_text_less_irreflexive(a: Seq<char>)
    ensures
        !text_less(a, a),
    decreases a.len(),
{
    if a.len() > 0 {
        lemma_text_less_irreflexive(a.drop_first());
    }
}

proof fn lemma_text_less_total(a: Seq<char>, b: Seq<char>)
    ensures
        a == b || text_less(a, b) || text_less(b, a),
    decreases a.len(),
{
    if a.len() > 0 && b.len() > 0 && a[0] == b[0] {
        lemma_text_less_total(a.drop_first(), b.drop_first());
        if a.drop_first() == b.drop_first() {
            assert(a == seq![a[0]] + a.drop_first());
            assert(b == seq![b[0]] + b.drop_first());
        }
    } else if a.len() == 0 && b.len() == 0 {
        assert(a == b);
    } else if a.len() > 0 && b.len() > 0 {
        assert((a[0] as int) != (b[0] as int));
    }
}

proof fn lemma_text_less_asymmetric(a: Seq<char>, b: Seq<char>)
    ensures
        !(text_less(a, b) && text_less(b, a)),
    decreases a.len(),
{
    if a.len() > 0 && b.len() > 0 && a[0] == b[0] {
        lemma_text_less_asymmetric(a.drop_first(), b.drop_first());
    }
}

proof fn lemma_text_less_transitive(a: Seq<char>, b: Seq<char>, c: Seq<char>)
    requires
        text_less(a, b),
        text_less(b, c),
    ensures
        text_less(a, c),
    decreases a.len(),
{
    if a.len() > 0 && b.len() > 0 && c.len() > 0 && a[0] == b[0] && b[0] == c[0] {
        lemma_text_less_transitive(a.drop_first(), b.drop_first(), c.drop_first());
    }
}

/// The selection key of a path, as a list of characters.
fn path_selection_key(path: &str) -> (key: Vec<char>)
    ensures
        key@ == selection_key(path@),
{
    match path_file_name(path) {
        Some(name) => lowercase_chars(name.as_str()),
        None => Vec::new(),
    }
}

/// Whether a path names a binary glTF scene.
pub open spec fn is_glb_path(path: Seq<char>) -> bool {
    has_extension(path, seq!['g', 'l', 'b'])
}

/// Whether a path names a text glTF scene.
pub open spec fn is_gltf_path(path: Seq<char>) -> bool {
    has_extension(path, seq!['g', 'l', 't', 'f'])
}

/// The binary glTF scenes among `paths`, in their order.
pub open spec fn glb_paths(paths: Seq<Seq<char>>) -> Seq<Seq<char>> {
    paths.filter(|path: Seq<char>| is_glb_path(path))
}

/// The text glTF scenes among `paths`, in their order.
pub open spec fn gltf_paths(paths: Seq<Seq<char>>) -> Seq<Seq<char>> {
    paths.filter(|path: Seq<char>| is_gltf_path(path))
}

/// Whether `ordered` lists the scenes among `files` in the order they are
/// tried: the binary ones first, then the text ones, each group stably
/// sorted by selection key.
pub open spec fn test_scene_order(files: Seq<Seq<char>>, ordered: Seq<Seq<char>>) -> bool {
    let glb = glb_paths(files);
    let gltf = gltf_paths(files);
    &&& ordered.len() == glb.len() + gltf.len()
    &&& stably_sorted_by_key(glb, ordered.take(glb.len() as int))
    &&& stably_sorted_by_key(gltf, ordered.skip(glb.len() as int))
}

proof fn lemma_scene_filters_push(paths: Seq<Seq<char>>, path: Seq<char>)
    ensures
        glb_paths(paths.push(path)) == (if is_glb_path(path) {
            glb_paths(paths).push(path)
        } else {
            glb_paths(paths)
        }),
        gltf_paths(paths.push(path)) == (if is_gltf_path(path) {
            gltf_paths(paths).push(path)
        } else {
            gltf_paths(paths)
        }),
{
    reveal(Seq::filter);
    assert(paths.push(path).drop_last() == paths);
}

/// Orders the files of the test scene directory as the default scene is
/// looked for: `.glb` files first, then `.gltf` files (extensions compared
/// without regard to ASCII case), each group sorted by lower-cased file name;
/// other files are left out.
pub fn order_test_scene_paths(files: Vec<String>) -> (ordered: Vec<String>)
    ensures
        test_scene_order(texts(files@), texts(ordered@)),
{
    let glb_extension: [char; 3] = ['g', 'l', 'b'];
    let gltf_extension: [char; 4] = ['g', 'l', 't', 'f'];
    assert(glb_extension@ == seq!['g', 'l', 'b']);
    assert(gltf_extension@ == seq!['g', 'l', 't', 'f']);
    let ghost all = texts(files@);
    let mut glb: Vec<String> = Vec::new();
    let mut gltf: Vec<String> = Vec::new();
    let mut i: usize = 0;
    assert(all.take(0) == Seq::<Seq<char>>::empty());
    proof {
        reveal(Seq::filter);
    }
    while i < files.len()
        invariant
            all == texts(files@),
            glb_extension@ == seq!['g', 'l', 'b'],
            gltf_extension@ == seq!['g', 'l', 't', 'f'],
            i <= files@.len(),
            texts(glb@) == glb_paths(all.take(i as int)),
            texts(gltf@) == gltf_paths(all.take(i as int)),
        decreases files@.len() - i,
    {
        let path = files[i].clone();
        proof {
            assert(all.take(i + 1) == all.take(i as int).push(path@));
            lemma_scene_filters_push(all.take(i as int), path@);
        }
        if path_has_extension(path.as_str(), &glb_extension) {
            assert(!is_gltf_path(path@));
            glb.push(path);
            assert(texts(glb@) == glb_paths(all.take(i + 1)));
        } else if path_has_extension(path.as_str(), &gltf_extension) {
            gltf.push(path);
            assert(texts(gltf@) == gltf_paths(all.take(i + 1)));
        }
        i = i + 1;
    }
    assert(all.take(i as int) == all);
    let ghost glb_found = glb@;
    let ghost gltf_found = gltf@;
    sort_paths_for_default_scene_selection(&mut glb);
    sort_paths_for_default_scene_selection(&mut gltf);
    let ghost glb_sorted = glb@;
    let ghost gltf_sorted = gltf@;
    glb.append(&mut gltf);
    proof {
        let out = texts(glb@);
        assert(texts(glb_sorted).len() == texts(glb_found).len());
        assert(out.take(glb_sorted.len() as int) == texts(glb_sorted));
        assert(out.skip(glb_sorted.len() as int) == texts(gltf_sorted));
    }
    glb
}

/// Whether `a` comes strictly before `b`.
fn key_less(a: &Vec<char>, b: &Vec<char>) -> (less: bool)
    ensures
        less == text_less(a@, b@),
{
    let mut i: usize = 0;
    assert(a@.skip(0) == a@);
    assert(b@.skip(0) == b@);
    while i < a.len() && i < b.len() && a[i] == b[i]
        invariant
            i <= a@.len(),
            i <= b@.len(),
            text_less(a@, b@) == text_less(a@.skip(i as int), b@.skip(i as int)),
        decreases a@.len() - i,
    {
        assert(a@.skip(i as int).drop_first() == a@.skip(i + 1));
        assert(b@.skip(i as int).drop_first() == b@.skip(i + 1));
        i = i + 1;
    }
    if i == a.len() {
        i < b.len()
    } else if i == b.len() {
        false
    } else {
        assert(a@.skip(i as int)[0] == a@[i as int]);
        assert(b@.skip(i as int)[0] == b@[i as int]);
        a[i] < b[i]
    }
}

/// The texts of a list of strings.
pub open spec fn texts(v: Seq<String>) -> Seq<Seq<char>> {
    v.map_values(|s: String| s@)
}

/// Keys in order, ties broken by input position `p`.
pub open spec fn sorted_stably(keys: Seq<Seq<char>>, p: Seq<int>) -> bool {
    forall|a: int, b: int|
        0 <= a < b < keys.len() ==> {
            ||| text_less(#[trigger] keys[a], #[trigger] keys[b])
            ||| (keys[a] == keys[b] && p[a] < p[b])
        }
}

/// Inserting a key after every key it does not precede, and before the first
/// one it does, keeps keys in stable order when the new key is the latest.
proof fn lemma_insert_keeps_stable_order(
    keys: Seq<Seq<char>>,
    p: Seq<int>,
    key: Seq<char>,
    j: int,
    latest: int,
)
    requires
        keys.len() == p.len(),
        sorted_stably(keys, p),
        0 <= j <= keys.len(),
        forall|k: int| 0 <= k < j ==> !text_less(key, #[trigger] keys[k]),
        j < keys.len() ==> text_less(key, keys[j]),
        forall|k: int| 0 <= k < p.len() ==> #[trigger] p[k] < latest,
    ensures
        sorted_stably(keys.insert(j, key), p.insert(j, latest)),
{
    let nk = keys.insert(j, key);
    let np = p.insert(j, latest);
    assert forall|a: int, b: int| 0 <= a < b < nk.len() implies {
        ||| text_less(#[trigger] nk[a], #[trigger] nk[b])
        ||| (nk[a] == nk[b] && np[a] < np[b])
    } by {
        if b < j {
            assert(nk[a] == keys[a] && nk[b] == keys[b]);
            assert(keys[a] == keys[a] && keys[b] == keys[b]);
        } else if b == j {
            assert(nk[a] == keys[a]);
            assert(!text_less(key, keys[a]));
            lemma_text_less_total(keys[a], key);
        } else if a < j {
            assert(nk[a] == keys[a] && nk[b] == keys[b - 1]);
            assert(keys[a] == keys[a] && keys[b - 1] == keys[b - 1]);
        } else if a == j {
            assert(nk[b] == keys[b - 1]);
            if b - 1 > j {
                assert(keys[j] == keys[j] && keys[b - 1] == keys[b - 1]);
                if text_less(keys[j], keys[b - 1]) {
                    lemma_text_less_transitive(key, keys[j], keys[b - 1]);
                }
            }
        } else {
            assert(nk[a] == keys[a - 1] && nk[b] == keys[b - 1]);
            assert(keys[a - 1] == keys[a - 1] && keys[b - 1] == keys[b - 1]);
        }
    }
}

/// Sorts paths by the ASCII-lowercased file name, stably, as the default
/// scene is chosen.
pub fn sort_paths_for_default_scene_selection(paths: &mut Vec<String>)
    ensures
        stably_sorted_by_key(texts(old(paths)@), texts(final(paths)@)),
{
    let mut input: Vec<String> = Vec::new();
    std::mem::swap(paths, &mut input);
    let ghost unsorted = texts(input@);
    let mut sorted: Vec<String> = Vec::new();
    let mut keys: Vec<Vec<char>> = Vec::new();
    let ghost mut p: Seq<int> = Seq::empty();
    let mut i: usize = 0;
    while i < input.len()
        invariant
            unsorted == texts(input@),
            i <= input@.len(),
            sorted@.len() == i,
            keys@.len() == i,
            p.len() == i,
            forall|k: int| 0 <= k < i ==> 0 <= #[trigger] p[k] < i,
            forall|a: int, b: int| 0 <= a < b < i ==> #[trigger] p[a] != #[trigger] p[b],
            forall|k: int| 0 <= k < i ==> #[trigger] sorted@[k]@ == unsorted[p[k]],
            forall|k: int| 0 <= k < i ==> #[trigger] keys@[k]@ == selection_key(sorted@[k]@),
            sorted_stably(keys@.map_values(|v: Vec<char>| v@), p),
        decreases input@.len() - i,
    {
        let key = path_selection_key(input[i].as_str());
        let mut j: usize = 0;
        while j < keys.len() && !key_less(&key, &keys[j])
            invariant
                j <= keys@.len(),
                forall|k: int| 0 <= k < j ==> !text_less(key@, #[trigger] keys@[k]@),
            decreases keys@.len() - j,
        {
            j = j + 1;
        }
        let ghost old_keys = keys@.map_values(|v: Vec<char>| v@);
        let ghost old_sorted = sorted@;
        let ghost old_p = p;
        proof {
            assert forall|k: int| 0 <= k < j implies !text_less(key@, #[trigger] old_keys[k]) by {
                assert(old_keys[k] == keys@[k]@);
            }
            if j < keys@.len() {
                assert(old_keys[j as int] == keys@[j as int]@);
            }
            lemma_insert_keeps_stable_order(old_keys, old_p, key@, j as int, i as int);
        }
        let path = input[i].clone();
        keys.insert(j, key);
        sorted.insert(j, path);
        proof {
            p = old_p.insert(j as int, i as int);
            assert(keys@.map_values(|v: Vec<char>| v@) == old_keys.insert(j as int, key@));
            assert forall|k: int| 0 <= k < i + 1 implies #[trigger] sorted@[k]@ == unsorted[p[k]] by {
                if k < j {
                    assert(sorted@[k] == old_sorted[k]);
                } else if k > j {
                    assert(sorted@[k] == old_sorted[k - 1]);
                }
            }
            assert forall|k: int| 0 <= k < i + 1 implies #[trigger] keys@[k]@ == selection_key(
                sorted@[k]@,
            ) by {
                if k < j {
                    assert(sorted@[k] == old_sorted[k]);
                } else if k > j {
                    assert(sorted@[k] == old_sorted[k - 1]);
                }
            }
            assert forall|a: int, b: int| 0 <= a < b < i + 1 implies #[trigger] p[a]
                != #[trigger] p[b] by {
                if a != j && b != j {
                    let oa = if a < j { a } else { a - 1 };
                    let ob = if b < j { b } else { b - 1 };
                    assert(p[a] == old_p[oa] && p[b] == old_p[ob]);
                    assert(old_p[oa] != old_p[ob]);
                } else if a == j {
                    assert(p[b] == old_p[b - 1]);
                    assert(old_p[b - 1] < i);
                } else {
                    assert(p[a] == old_p[a]);
                    assert(old_p[a] < i);
                }
            }
            assert forall|k: int| 0 <= k < i + 1 implies 0 <= #[trigger] p[k] < i + 1 by {
                if k < j {
                    assert(p[k] == old_p[k]);
                } else if k > j {
                    assert(p[k] == old_p[k - 1]);
                }
            }
        }
        i = i + 1;
    }
    proof {
        let out = texts(sorted@);
        assert forall|k: int| 0 <= k < out.len() implies #[trigger] out[k] == unsorted[p[k]] by {
            assert(out[k] == sorted@[k]@);
        }
        let keys_view = keys@.map_values(|v: Vec<char>| v@);
        assert forall|a: int, b: int| 0 <= a < b < out.len() implies {
            ||| text_less(selection_key(out[a]), selection_key(out[b]))
            ||| (selection_key(out[a]) == selection_key(out[b]) && p[a] < p[b])
        } by {
            assert(keys_view[a] == keys@[a]@ && keys_view[b] == keys@[b]@);
            assert(out[a] == sorted@[a]@ && out[b] == sorted@[b]@);
        }
        assert(is_permutation(p, unsorted.len()));
    }
    *paths = sorted;
}

/// The name of object `index` of a scene: its mesh's name, or, for a mesh
/// without one, the scene's name, " mesh " and the index.
pub open spec fn scene_object_name_text(scene_name: Seq<char>, mesh_name: Seq<char>, index: nat) -> Seq<char> {
    if mesh_name.len() == 0 {
        scene_name + " mesh "@ + decimal(index)
    } else {
        mesh_name
    }
}

/// The name the renderer gives object `index` of a loaded scene.
pub fn scene_object_name(scene_name: &str, mesh_name: &str, index: usize) -> (name: String)
    ensures
        name@ == scene_object_name_text(scene_name@, mesh_name@, index as nat),
{
    if mesh_name.unicode_len() == 0 {
        let mut name = String::from_str(scene_name);
        name.append(" mesh ");
        push_decimal(&mut name, index as u64);
        name
    } else {
        String::from_str(mesh_name)
    }
}

} // verus!
