use vstd::prelude::*;
use crate::hex::{lemma_upper_hex_no_dot, upper_hex};

verus! {

/// Index of the last `.` in `name`, or -1 when there is none.
pub open spec fn last_dot(name: Seq<char>) -> int
    decreases name.len(),
{
    if name.len() == 0 {
        -1
    } else if name.last() == '.' {
        name.len() - 1
    } else {
        last_dot(name.drop_last())
    }
}

/// The extension of a file name: what follows its last `.`, unless there is
/// no `.`, or the only one opens the name (`.profile` has none). `a.` has
/// the empty extension.
pub open spec fn extension_of(name: Seq<char>) -> Option<Seq<char>> {
    let k = last_dot(name);
    if k <= 0 {
        None
    } else {
        Some(name.subrange(k + 1, name.len() as int))
    }
}

/// The canonical file name for a file called `name` whose digest renders as
/// `hex`: the digest, then `.` and the original extension in its original
/// case when there is a nonempty one.
pub open spec fn canonical_name_of(name: Seq<char>, hex: Seq<char>) -> Seq<char> {
    let ext = extension_of(name);
    if ext is Some && ext->0.len() > 0 {
        hex + seq!['.'] + ext->0
    } else {
        hex
    }
}

proof fn lemma_last_dot_prefix(name: Seq<char>, i: int)
    requires
        0 < i <= name.len(),
    ensures
        name.subrange(0, i).drop_last() =~= name.subrange(0, i - 1),
        name.subrange(0, i).last() == name[i - 1],
{
}

fn find_last_dot(name: &str) -> (r: Option<usize>)
    ensures
        r is Some ==> last_dot(name@) == r->0 as int && r->0 < name@.len(),
        r is None ==> last_dot(name@) == -1,
{
    let len = name.unicode_len();
    let mut i = len;
    proof {
        assert(name@.subrange(0, len as int) =~= name@);
    }
    while i > 0
        invariant
            i <= len,
            len == name@.len(),
            last_dot(name@) == last_dot(name@.subrange(0, i as int)),
        decreases i,
    {
        proof {
            lemma_last_dot_prefix(name@, i as int);
        }
        if name.get_char(i - 1) == '.' {
            return Some(i - 1);
        }
        i = i - 1;
    }
    None
}

/// The extension of the file name `name`, as `Path::extension` reads it.
pub fn extension(name: &str) -> (r: Option<&str>)
    ensures
        r is Some <==> extension_of(name@) is Some,
        r is Some ==> extension_of(name@) == Some(r->0@),
{
    match find_last_dot(name) {
        None => None,
        Some(k) => {
            if k == 0 {
                None
            } else {
                let len = name.unicode_len();
                Some(name.substring_char(k + 1, len))
            }
        },
    }
}

/// The canonical file name of a file called `name` whose digest renders as
/// `digest_hex`.
pub fn canonical_name(name: &str, digest_hex: &str) -> (r: String)
    ensures
        r@ == canonical_name_of(name@, digest_hex@),
{
    let mut out = digest_hex.to_owned();
    match extension(name) {
        Some(ext) => {
            if ext.unicode_len() > 0 {
                let dot = ".";
                proof {
                    reveal_strlit(".");
                }
                out.append(dot);
                out.append(ext);
                proof {
                    assert(dot@ =~= seq!['.']);
                }
            }
        },
        None => {},
    }
    out
}

/// What to do with one file once its canonical name is known.
#[derive(Debug)]
pub enum Plan {
    /// Rename the file to this name, in the same directory.
    Rename(String),
    /// Leave the file where it is: the canonical name is taken, or is
    /// already its own.
    Skip,
}

/// Whether the file goes under `candidate`: never when a file of that name
/// already exists, nor when the file already has that name.
pub open spec fn skips(name: Seq<char>, candidate: Seq<char>, target_exists: bool) -> bool {
    target_exists || candidate == name
}

/// Decides the fate of a file called `name` whose canonical name is
/// `candidate`, given whether a file called `candidate` already exists
/// beside it.
pub fn plan_rename(name: &str, candidate: &str, target_exists: bool) -> (r: Plan)
    ensures
        r is Skip <==> skips(name@, candidate@, target_exists),
        r is Rename ==> r->Rename_0@ == candidate@,
{
    let target = candidate.to_owned();
    if target_exists || target == name.to_owned() {
        Plan::Skip
    } else {
        Plan::Rename(target)
    }
}

} // verus!

verus! {

proof fn lemma_last_dot_skips_dotless(p: Seq<char>, e: Seq<char>)
    requires
        !e.contains('.'),
    ensures
        last_dot(p + e) == last_dot(p),
    decreases e.len(),
{
    if e.len() > 0 {
        assert((p + e).drop_last() =~= p + e.drop_last());
        assert((p + e).last() == e[e.len() - 1]);
        assert(!e.drop_last().contains('.')) by {
            assert forall|i: int| 0 <= i < e.drop_last().len() implies e.drop_last()[i] != '.' by {
                assert(e.drop_last()[i] == e[i]);
            }
        }
        lemma_last_dot_skips_dotless(p, e.drop_last());
    } else {
        assert(p + e =~= p);
    }
}

proof fn lemma_last_dot_range(name: Seq<char>)
    ensures
        -1 <= last_dot(name) < name.len(),
    decreases name.len(),
{
    if name.len() > 0 {
        lemma_last_dot_range(name.drop_last());
    }
}

proof fn lemma_after_last_dot_dotless(name: Seq<char>)
    ensures
        !name.subrange(last_dot(name) + 1, name.len() as int).contains('.'),
    decreases name.len(),
{
    lemma_last_dot_range(name);
    if name.len() > 0 && name.last() != '.' {
        let prev = name.drop_last();
        lemma_after_last_dot_dotless(prev);
        lemma_last_dot_range(prev);
        let a = prev.subrange(last_dot(prev) + 1, prev.len() as int);
        let b = name.subrange(last_dot(name) + 1, name.len() as int);
        assert(b =~= a.push(name.last()));
    }
}

/// The extension, when there is one, holds no `.`.
proof fn lemma_extension_dotless(name: Seq<char>)
    ensures
        extension_of(name) is Some ==> !extension_of(name)->0.contains('.'),
{
    lemma_after_last_dot_dotless(name);
}

/// The canonical name keeps its own extension when the digest text holds
/// no `.` and is not empty.
proof fn lemma_canonical_fixed(name: Seq<char>, hex: Seq<char>)
    requires
        hex.len() > 0,
        !hex.contains('.'),
    ensures
        canonical_name_of(canonical_name_of(name, hex), hex) == canonical_name_of(name, hex),
{
    let ext = extension_of(name);
    let c = canonical_name_of(name, hex);
    if ext is Some && ext->0.len() > 0 {
        let e = ext->0;
        lemma_extension_dotless(name);
        let p = hex + seq!['.'];
        assert(c =~= p + e);
        lemma_last_dot_skips_dotless(p, e);
        assert(p.drop_last() =~= hex);
        assert(last_dot(p) == hex.len());
        assert(c.subrange(hex.len() as int + 1, c.len() as int) =~= e);
    } else {
        assert(hex =~= Seq::<char>::empty() + hex);
        lemma_last_dot_skips_dotless(Seq::<char>::empty(), hex);
    }
}

/// A second run renames nothing: once a file carries the canonical name of
/// its content, its canonical name is its own name, so it is skipped
/// whether or not the name is seen as taken. `digest` is the file's digest.
pub proof fn law_renamed_file_stays(name: Seq<char>, digest: Seq<u8>, target_exists: bool)
    requires
        digest.len() > 0,
    ensures
        ({
            let c = canonical_name_of(name, upper_hex(digest));
            canonical_name_of(c, upper_hex(digest)) == c && skips(
                c,
                canonical_name_of(c, upper_hex(digest)),
                target_exists,
            )
        }),
{
    lemma_upper_hex_no_dot(digest);
    lemma_canonical_fixed(name, upper_hex(digest));
}

/// Files of identical content and extension share one canonical name; once
/// the first of them has taken it, every other one is skipped and keeps its
/// own name. The first is renamed unless it already had the name.
pub proof fn law_duplicates_skip(first: Seq<char>, second: Seq<char>, hex: Seq<char>)
    requires
        extension_of(first) == extension_of(second),
    ensures
        canonical_name_of(first, hex) == canonical_name_of(second, hex),
        first != canonical_name_of(first, hex) ==> !skips(first, canonical_name_of(first, hex), false),
        skips(second, canonical_name_of(second, hex), true),
{
}

} // verus!
