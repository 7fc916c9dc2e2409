use crate::strutil::{find_char, rfind_char, str_eq};
use vstd::prelude::*;
use vstd::string::StrSliceExecFns;

verus! {

// ---------------------------------------------------------------------------
// The on-disk naming convention of a corpus.
//
// A test unit is identified by the path of its primary input file. The
// expected-output files sit beside it: within the final path segment,
// everything from the first `.` onwards is cut off (so a file name with
// several dots truncates at the first one, while a dotted directory name
// is left alone) and `.out` respectively `.err` is appended.
// ---------------------------------------------------------------------------

/// The directory part of `p`, up to and including its last `/` (empty when
/// it has none).
pub open spec fn dir_prefix_of(p: Seq<char>) -> Seq<char> {
    match p.index_of_last('/') {
        Some(i) => p.take(i + 1),
        None => Seq::empty(),
    }
}

/// Length of the part of the segment `b` that precedes its first `.` (all
/// of `b` when it has none).
pub open spec fn segment_core_len(b: Seq<char>) -> int {
    match b.index_of_first('.') {
        Some(i) => i,
        None => b.len() as int,
    }
}

/// The unit's path without its extension: the directory part unchanged,
/// and the final segment cut at its first `.`.
pub open spec fn core_of(p: Seq<char>) -> Seq<char> {
    dir_prefix_of(p) + base_name_of(p).take(segment_core_len(base_name_of(p)))
}

/// Where the expected standard output of the unit at `p` lives.
pub open spec fn stdout_file_of(p: Seq<char>) -> Seq<char> {
    core_of(p) + ".out"@
}

/// Where the expected standard error of the unit at `p` lives.
pub open spec fn stderr_file_of(p: Seq<char>) -> Seq<char> {
    core_of(p) + ".err"@
}

/// The part of `p` after its last `/` (all of `p` when it has none).
pub open spec fn base_name_of(p: Seq<char>) -> Seq<char> {
    match p.index_of_last('/') {
        Some(i) => p.skip(i + 1),
        None => p,
    }
}

/// The extension of the file name `f`: what follows the last `.`, provided
/// something precedes that dot. A name without a dot, or whose only dot
/// starts it, has no extension.
pub open spec fn extension_of(f: Seq<char>) -> Option<Seq<char>> {
    match f.index_of_last('.') {
        Some(i) => if i > 0 {
            Some(f.skip(i + 1))
        } else {
            None
        },
        None => None,
    }
}

/// The extension of the final path segment of `p`.
pub open spec fn path_extension_of(p: Seq<char>) -> Option<Seq<char>> {
    extension_of(base_name_of(p))
}

/// The unit's path cut at the first `.` of its final segment, as a fresh
/// string.
pub fn core_string(p: &str) -> (r: String)
    ensures
        r@ == core_of(p@),
{
    proof {
        p@.index_of_last_ensures('/');
    }
    let len = p.unicode_len();
    let segment_start: usize = match rfind_char(p, '/') {
        Some(i) => i + 1,
        None => 0,
    };
    let base = p.substring_char(segment_start, len);
    proof {
        assert(base@ =~= base_name_of(p@));
        base@.index_of_first_ensures('.');
    }
    let cut: usize = match find_char(base, '.') {
        Some(i) => i,
        None => len - segment_start,
    };
    let r = p.substring_char(0, segment_start + cut).to_owned();
    proof {
        assert(p@.subrange(0, segment_start + cut) =~= core_of(p@));
    }
    r
}

/// The part of `p` after its last `/`, as a fresh string.
pub fn base_name_string(p: &str) -> (r: String)
    ensures
        r@ == base_name_of(p@),
{
    proof {
        p@.index_of_last_ensures('/');
    }
    let len = p.unicode_len();
    match rfind_char(p, '/') {
        Some(i) => {
            let r = p.substring_char(i + 1, len).to_owned();
            proof {
                assert(p@.subrange(i + 1, p@.len() as int) =~= base_name_of(p@));
            }
            r
        },
        None => p.to_owned(),
    }
}

/// Whether the final path segment of `p` has exactly the extension `wanted`.
pub fn has_extension(p: &str, wanted: &str) -> (r: bool)
    ensures
        r == (path_extension_of(p@) == Some(wanted@)),
{
    proof {
        p@.index_of_last_ensures('/');
    }
    let len = p.unicode_len();
    let name_start: usize = match rfind_char(p, '/') {
        Some(i) => i + 1,
        None => 0,
    };
    let base = p.substring_char(name_start, len);
    proof {
        assert(base@ =~= base_name_of(p@));
        base@.index_of_last_ensures('.');
    }
    match rfind_char(base, '.') {
        Some(i) => {
            if i > 0 {
                let ext = base.substring_char(i + 1, base.unicode_len());
                proof {
                    assert(ext@ =~= base_name_of(p@).skip(i + 1));
                }
                str_eq(ext, wanted)
            } else {
                false
            }
        },
        None => false,
    }
}

// ---------------------------------------------------------------------------
// Laws of the naming convention.
// ---------------------------------------------------------------------------

/// For a unit at `D/name.ext`, where the segment `name` holds no dot and
/// neither `name` nor `ext` holds a separator, the expected outputs are
/// `D/name.out` and `D/name.err`: the directory part - dotted or not - is
/// kept whole, and the first dot of the final segment is the one that
/// ends `name`.
pub proof fn lemma_expected_paths(dir: Seq<char>, stem: Seq<char>, ext: Seq<char>)
    requires
        !stem.contains('.'),
        !stem.contains('/'),
        !ext.contains('/'),
    ensures
        stdout_file_of(dir + "/"@ + stem + "."@ + ext) == dir + "/"@ + stem + ".out"@,
        stderr_file_of(dir + "/"@ + stem + "."@ + ext) == dir + "/"@ + stem + ".err"@,
{
    reveal_strlit("/");
    reveal_strlit(".");
    let p = dir + "/"@ + stem + "."@ + ext;
    // The last separator of the path is the one after the directory part.
    let slash = dir.len() as int;
    assert(p[slash] == '/');
    assert forall|j: int| slash < j < p.len() implies p[j] != '/' by {
        if j < dir.len() + 1 + stem.len() {
            assert(p[j] == stem[j - dir.len() - 1]);
        } else if j == dir.len() + 1 + stem.len() {
            assert(p[j] == '.');
        } else {
            assert(p[j] == ext[j - dir.len() - stem.len() - 2]);
        }
    }
    p.index_of_last_ensures('/');
    assert(p.contains('/'));
    let k = p.index_of_last('/').unwrap();
    assert(k >= slash);
    assert(k <= slash) by {
        if k > slash {
            assert(p[k] != '/');
        }
    }
    assert(dir_prefix_of(p) =~= dir + "/"@);
    let base = base_name_of(p);
    assert(base =~= stem + "."@ + ext);
    // The first dot of the final segment is the one that ends the stem.
    let dot = stem.len() as int;
    assert(base[dot] == '.');
    assert forall|j: int| 0 <= j < dot implies base[j] != '.' by {
        assert(base[j] == stem[j]);
    }
    base.index_of_first_ensures('.');
    assert(base.contains('.'));
    let d = base.index_of_first('.').unwrap();
    assert(d <= dot);
    assert(d >= dot) by {
        if d < dot {
            assert(base[d] != '.');
        }
    }
    assert(core_of(p) =~= dir + "/"@ + stem);
    assert(core_of(p) + ".out"@ =~= (dir + "/"@ + stem) + ".out"@);
    assert(core_of(p) + ".err"@ =~= (dir + "/"@ + stem) + ".err"@);
}

/// The name of a unit at `D/base`, where `base` holds no separator, is
/// exactly `base`: the final path segment.
pub proof fn lemma_base_name(dir: Seq<char>, base: Seq<char>)
    requires
        !base.contains('/'),
    ensures
        base_name_of(dir + "/"@ + base) == base,
{
    reveal_strlit("/");
    let p = dir + "/"@ + base;
    let pos = dir.len() as int;
    assert(p[pos] == '/');
    assert forall|j: int| pos < j < p.len() implies p[j] != '/' by {
        assert(p[j] == base[j - dir.len() - 1]);
    }
    p.index_of_last_ensures('/');
    assert(p.contains('/'));
    let k = p.index_of_last('/').unwrap();
    assert(k >= pos);
    assert(k <= pos) by {
        if k > pos {
            assert(p[k] != '/');
        }
    }
    assert(p.skip(pos + 1) =~= base);
}

} // verus!
