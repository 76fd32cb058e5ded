//! Directory-listing classification.
//!
//! A snapshot of a directory's immediate children is partitioned into
//! subdirectories and audio files.  An entry counts as an audio file
//! exactly when it is not a directory and its extension, lowercased
//! byte by byte over the ASCII letters, is one of `mp3`, `wav`, `ogg`
//! or `flac`.  The extension is what follows the last `.` of the name;
//! a name whose only `.` is its first byte (a hidden file) has none.

use vstd::prelude::*;

verus! {

/// The extension separator byte, `.`.
pub const DOT: u8 = 46;

/// One directory entry: its bare name (no separators) and whether it
/// is itself a directory.
pub struct Entry {
    pub name: Vec<u8>,
    pub is_dir: bool,
}

/// A directory snapshot, split into subdirectory names and audio-file
/// names, each in enumeration order.
pub struct DirListing {
    pub directories: Vec<Vec<u8>>,
    pub files: Vec<Vec<u8>>,
}

/// ASCII lowercasing of one byte: `A`..`Z` map to `a`..`z`, everything
/// else is unchanged.
pub open spec fn lower_byte(b: u8) -> u8 {
    if 65 <= b && b <= 90 {
        (b + 32) as u8
    } else {
        b
    }
}

/// ASCII lowercasing of a byte string.
pub open spec fn lower_bytes(s: Seq<u8>) -> Seq<u8> {
    s.map_values(|b: u8| lower_byte(b))
}

/// The extension of a file name: the bytes after the last `.`, if the
/// name has one anywhere past its first byte.
pub open spec fn extension_of(name: Seq<u8>) -> Option<Seq<u8>> {
    let j = crate::paths::last_byte(name, DOT);
    if j <= 0 {
        None
    } else {
        Some(name.subrange(j + 1, name.len() as int))
    }
}

/// The fixed allowlist of audio extensions, compared after ASCII
/// lowercasing.  The byte sequences spell `mp3`, `wav`, `ogg`, `flac`.
pub open spec fn is_audio_ext(e: Seq<u8>) -> bool {
    let l = lower_bytes(e);
    ||| l == seq![109u8, 112u8, 51u8]
    ||| l == seq![119u8, 97u8, 118u8]
    ||| l == seq![111u8, 103u8, 103u8]
    ||| l == seq![102u8, 108u8, 97u8, 99u8]
}

/// Whether a (non-directory) entry name is an audio file name.
pub open spec fn is_audio_name(name: Seq<u8>) -> bool {
    match extension_of(name) {
        Some(e) => is_audio_ext(e),
        None => false,
    }
}

/// The subdirectory names of a snapshot, in order.
pub open spec fn dirs_of(entries: Seq<Entry>) -> Seq<Seq<u8>>
    decreases entries.len(),
{
    if entries.len() == 0 {
        Seq::empty()
    } else if entries.last().is_dir {
        dirs_of(entries.drop_last()).push(entries.last().name@)
    } else {
        dirs_of(entries.drop_last())
    }
}

/// The audio-file names of a snapshot, in order.
pub open spec fn files_of(entries: Seq<Entry>) -> Seq<Seq<u8>>
    decreases entries.len(),
{
    if entries.len() == 0 {
        Seq::empty()
    } else if !entries.last().is_dir && is_audio_name(entries.last().name@) {
        files_of(entries.drop_last()).push(entries.last().name@)
    } else {
        files_of(entries.drop_last())
    }
}

/// The byte strings a list of names denotes.
pub open spec fn views_of(v: Seq<Vec<u8>>) -> Seq<Seq<u8>> {
    v.map_values(|x: Vec<u8>| x@)
}

/// ASCII lowercasing of one byte.
pub fn lower(b: u8) -> (r: u8)
    ensures
        r == lower_byte(b),
{
    if 65 <= b && b <= 90 {
        b + 32
    } else {
        b
    }
}

/// Whether `name` has an audio extension.
pub fn is_audio_entry(name: &Vec<u8>) -> (r: bool)
    ensures
        r == is_audio_name(name@),
{
    let len = name.len();
    let mut i: usize = len;
    while i > 0 && name[i - 1] != DOT
        invariant
            len == name.len(),
            i <= len,
            forall|k: int| i <= k < len ==> name@[k] != DOT,
        decreases i,
    {
        i -= 1;
    }
    proof {
        assert(name@ =~= name@.subrange(0, i as int) + name@.subrange(i as int, len as int));
        crate::paths::lemma_last_byte_append_none(
            name@.subrange(0, i as int),
            name@.subrange(i as int, len as int),
            DOT,
        );
    }
    if i == 0 {
        proof {
            assert(name@.subrange(0, 0) =~= Seq::<u8>::empty());
            assert(crate::paths::last_byte(name@, DOT) == -1);
        }
        return false;
    }
    proof {
        assert(name@.subrange(0, i as int)[i - 1] == name@[i - 1]);
        assert(crate::paths::last_byte(name@, DOT) == i - 1);
    }
    if i == 1 {
        return false;
    }
    let ghost ext: Seq<u8> = name@.subrange(i as int, len as int);
    proof {
        assert(extension_of(name@) == Some(ext));
    }
    let elen = len - i;
    let mut e: Vec<u8> = Vec::new();
    let mut k: usize = 0;
    while k < elen
        invariant
            len == name.len(),
            1 <= i <= len,
            elen == len - i,
            k <= elen,
            ext == name@.subrange(i as int, len as int),
            e@.len() == k,
            forall|m: int| 0 <= m < k ==> e@[m] == lower_byte(ext[m]),
        decreases elen - k,
    {
        e.push(lower(name[i + k]));
        k += 1;
    }
    proof {
        assert(e@ =~= lower_bytes(ext));
    }
    let r: bool = if e.len() == 3 {
        // m p 3 | w a v | o g g
        (e[0] == 109 && e[1] == 112 && e[2] == 51) || (e[0] == 119 && e[1] == 97 && e[2] == 118)
            || (e[0] == 111 && e[1] == 103 && e[2] == 103)
    } else if e.len() == 4 {
        // f l a c
        e[0] == 102 && e[1] == 108 && e[2] == 97 && e[3] == 99
    } else {
        false
    };
    proof {
        if r {
            if e@.len() == 3 {
                if e@[0] == 109 {
                    assert(e@ =~= seq![109u8, 112u8, 51u8]);
                } else if e@[0] == 119 {
                    assert(e@ =~= seq![119u8, 97u8, 118u8]);
                } else {
                    assert(e@ =~= seq![111u8, 103u8, 103u8]);
                }
            } else {
                assert(e@ =~= seq![102u8, 108u8, 97u8, 99u8]);
            }
        }
        assert(r == is_audio_ext(ext));
    }
    r
}

/// Partition a directory snapshot: subdirectories in one list, audio
/// files in the other, both in the order the entries came in; every
/// other entry is dropped.
pub fn scan_partition(entries: &Vec<Entry>) -> (r: DirListing)
    ensures
        views_of(r.directories@) == dirs_of(entries@),
        views_of(r.files@) == files_of(entries@),
{
    let mut directories: Vec<Vec<u8>> = Vec::new();
    let mut files: Vec<Vec<u8>> = Vec::new();
    let n = entries.len();
    let mut i: usize = 0;
    while i < n
        invariant
            n == entries.len(),
            i <= n,
            views_of(directories@) =~= dirs_of(entries@.subrange(0, i as int)),
            views_of(files@) =~= files_of(entries@.subrange(0, i as int)),
        decreases n - i,
    {
        proof {
            assert(entries@.subrange(0, i + 1).drop_last() =~= entries@.subrange(0, i as int));
            assert(entries@.subrange(0, i + 1).last() == entries@[i as int]);
        }
        let ghost old_dirs: Seq<Vec<u8>> = directories@;
        let ghost old_files: Seq<Vec<u8>> = files@;
        if entries[i].is_dir {
            directories.push(crate::paths::clone_bytes(&entries[i].name));
            proof {
                assert(views_of(directories@) =~= views_of(old_dirs).push(entries@[i as int].name@));
            }
        } else if is_audio_entry(&entries[i].name) {
            files.push(crate::paths::clone_bytes(&entries[i].name));
            proof {
                assert(views_of(files@) =~= views_of(old_files).push(entries@[i as int].name@));
            }
        }
        i += 1;
    }
    proof {
        assert(entries@.subrange(0, n as int) =~= entries@);
    }
    DirListing { directories, files }
}

} // verus!
