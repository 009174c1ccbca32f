//! The music library's own rules: which files it takes in, what a song is
//! called when its tags say nothing, and where its lyrics come from.
use crate::text::{
    contains, contains_text, lemma_text_lt_asymmetric, lowercase_of, same_text, text_before, text_lt,
    to_lowercase,
};
use vstd::prelude::*;

verus! {

/// A song of the library.
#[derive(Clone, Debug)]
pub struct Song {
    pub name: String,
    pub title: String,
    pub path: String,
    pub artist: String,
    pub album: String,
    pub duration: u32,
    pub cover: Option<String>,
}

/// What could be read from a music file: its length, and the primary tag's
/// fields that are present.
#[derive(Clone, Debug)]
pub struct ProbedFile {
    pub duration_secs: u32,
    pub title: Option<String>,
    pub artist: Option<String>,
    pub album: Option<String>,
}

/// Extensions, in lowercase, of the files a library scan takes in.
pub open spec fn is_scanned_extension(lower: Seq<char>) -> bool {
    lower == "mp3"@ || lower == "flac"@ || lower == "wav"@
}

/// Extensions, in lowercase, of the files the renaming tool looks at.
pub open spec fn is_renamed_extension(lower: Seq<char>) -> bool {
    is_scanned_extension(lower) || lower == "m4a"@ || lower == "ogg"@
}

/// Whether a file with extension `ext` (in any case) belongs in a library scan.
pub fn is_scanned_file(ext: &str) -> (r: bool)
    ensures
        r == is_scanned_extension(lowercase_of(ext@)),
{
    let lower = to_lowercase(ext);
    let e = lower.as_str();
    same_text(e, "mp3") || same_text(e, "flac") || same_text(e, "wav")
}

/// Whether the renaming tool looks at a file with extension `ext` (in any case).
pub fn is_renamed_file(ext: &str) -> (r: bool)
    ensures
        r == is_renamed_extension(lowercase_of(ext@)),
{
    let lower = to_lowercase(ext);
    let e = lower.as_str();
    same_text(e, "mp3") || same_text(e, "flac") || same_text(e, "wav") || same_text(e, "m4a")
        || same_text(e, "ogg")
}

pub open spec fn text_or(t: Option<String>, default: Seq<char>) -> Seq<char> {
    match t {
        Some(s) => s@,
        None => default,
    }
}

fn or_default(t: Option<String>, default: &str) -> (r: String)
    ensures
        r@ == text_or(t, default@),
{
    match t {
        Some(s) => s,
        None => default.to_owned(),
    }
}

/// The song for a newly found file named `name` at `path`; `probe` is what
/// could be read from it. An unknown artist or album gets a placeholder, an
/// unknown title stays empty, an unreadable file has length zero, and no
/// cover is known yet.
pub fn song_from_probe(name: String, path: String, probe: Option<ProbedFile>) -> (r: Song)
    ensures
        r.name@ == name@,
        r.path@ == path@,
        r.cover is None,
        probe is None ==> r.duration == 0 && r.title@ == Seq::<char>::empty()
            && r.artist@ == "未知歌手"@ && r.album@ == "未知专辑"@,
        probe matches Some(p) ==> r.duration == p.duration_secs && r.title@ == text_or(p.title, Seq::empty())
            && r.artist@ == text_or(p.artist, "未知歌手"@) && r.album@ == text_or(p.album, "未知专辑"@),
{
    match probe {
        None => Song {
            name,
            title: String::new(),
            path,
            artist: "未知歌手".to_owned(),
            album: "未知专辑".to_owned(),
            duration: 0,
            cover: None,
        },
        Some(p) => {
            let title = match p.title {
                Some(t) => t,
                None => String::new(),
            };
            Song {
                name,
                title,
                path,
                artist: or_default(p.artist, "未知歌手"),
                album: or_default(p.album, "未知专辑"),
                duration: p.duration_secs,
                cover: None,
            }
        },
    }
}

/// Index of the first comment that holds a time stamp of the first minute.
pub open spec fn is_first_timed(comments: Seq<String>, r: Option<usize>) -> bool {
    match r {
        Some(i) => i < comments.len() && contains(comments[i as int]@, "[00:"@)
            && forall|j: int| 0 <= j < i ==> !contains(#[trigger] comments[j]@, "[00:"@),
        None => forall|j: int| 0 <= j < comments.len() ==> !contains(#[trigger] comments[j]@, "[00:"@),
    }
}

fn first_timed_comment(comments: &Vec<String>) -> (r: Option<usize>)
    ensures
        is_first_timed(comments@, r),
{
    let mut i: usize = 0;
    while i < comments.len()
        invariant
            i <= comments.len(),
            forall|j: int| 0 <= j < i ==> !contains(#[trigger] comments@[j]@, "[00:"@),
        decreases comments.len() - i,
    {
        if contains_text(comments[i].as_str(), "[00:") {
            return Some(i);
        }
        i += 1;
    }
    None
}

/// Lyrics found in a file's tags: the lyrics field when there is one, else
/// the first comment that looks like timed lyrics, else `None` (the caller
/// then looks for a `.lrc` file beside it).
pub fn lyrics_from_tags(lyrics: Option<String>, comments: &Vec<String>) -> (r: Option<String>)
    ensures
        lyrics is Some ==> r == lyrics,
        lyrics is None ==> (exists|k: Option<usize>| is_first_timed(comments@, k) && match k {
            Some(i) => r matches Some(t) && t@ == comments@[i as int]@,
            None => r is None,
        }),
{
    match lyrics {
        Some(l) => Some(l),
        None => {
            let k = first_timed_comment(comments);
            match k {
                Some(i) => Some(comments[i].clone()),
                None => None,
            }
        },
    }
}

/// A scanned song and the folder that holds it: the folder's path, and its
/// own name when the path has one.
#[derive(Clone, Debug)]
pub struct FolderSong {
    pub folder_path: String,
    pub folder_name: Option<String>,
    pub song: Song,
}

/// The songs of one folder, shown as a playlist.
#[derive(Clone, Debug)]
pub struct GeneratedFolder {
    pub name: String,
    pub path: String,
    pub songs: Vec<Song>,
}

/// The name a folder is shown under.
pub open spec fn label(e: FolderSong) -> Seq<char> {
    text_or(e.folder_name, "未知文件夹"@)
}

/// The songs of `entries` that lie in the folder with path `p`, in order.
pub open spec fn songs_in(entries: Seq<FolderSong>, p: Seq<char>) -> Seq<Song>
    decreases entries.len(),
{
    if entries.len() == 0 {
        Seq::empty()
    } else if entries[0].folder_path@ == p {
        seq![entries[0].song] + songs_in(entries.drop_first(), p)
    } else {
        songs_in(entries.drop_first(), p)
    }
}

/// The name under which the last entry in folder `p` shows that folder.
pub open spec fn last_label(entries: Seq<FolderSong>, p: Seq<char>) -> Option<Seq<char>>
    decreases entries.len(),
{
    if entries.len() == 0 {
        None
    } else {
        match last_label(entries.drop_first(), p) {
            Some(l) => Some(l),
            None => if entries[0].folder_path@ == p { Some(label(entries[0])) } else { None },
        }
    }
}

pub open spec fn has_group(groups: Seq<GeneratedFolder>, p: Seq<char>) -> bool {
    exists|g: int| 0 <= g < groups.len() && #[trigger] groups[g].path@ == p
}

/// `groups` is the grouping of `entries` by folder, ordered by name.
pub open spec fn is_grouping(groups: Seq<GeneratedFolder>, entries: Seq<FolderSong>) -> bool {
    &&& forall|g: int| 0 <= g < groups.len() ==> {
        &&& (#[trigger] groups[g]).songs@ == songs_in(entries, groups[g].path@)
        &&& groups[g].songs@.len() > 0
        &&& last_label(entries, groups[g].path@) == Some(groups[g].name@)
    }
    &&& forall|g: int, h: int| 0 <= g < h < groups.len() ==> (#[trigger] groups[g]).path@ != (#[trigger] groups[h]).path@
    &&& forall|j: int| 0 <= j < entries.len() ==> has_group(groups, (#[trigger] entries[j]).folder_path@)
    &&& forall|g: int| 0 <= g < groups.len() - 1 ==> !text_lt((#[trigger] groups[g + 1]).name@, groups[g].name@)
}

proof fn lemma_absent_folder(entries: Seq<FolderSong>, p: Seq<char>)
    requires
        forall|j: int| 0 <= j < entries.len() ==> (#[trigger] entries[j]).folder_path@ != p,
    ensures
        songs_in(entries, p) == Seq::<Song>::empty(),
        last_label(entries, p) is None,
    decreases entries.len(),
{
    if entries.len() > 0 {
        assert forall|j: int| 0 <= j < entries.drop_first().len() implies (#[trigger] entries.drop_first()[j]).folder_path@ != p by {
            assert(entries.drop_first()[j] == entries[j + 1]);
        }
        lemma_absent_folder(entries.drop_first(), p);
    }
}

fn find_group(groups: &Vec<GeneratedFolder>, p: &String) -> (r: Option<usize>)
    ensures
        r matches Some(g) ==> (g < groups.len() && groups@[g as int].path@ == p@),
        r is None ==> !has_group(groups@, p@),
{
    let mut g: usize = 0;
    while g < groups.len()
        invariant
            g <= groups.len(),
            forall|k: int| 0 <= k < g ==> (#[trigger] groups@[k]).path@ != p@,
        decreases groups.len() - g,
    {
        if groups[g].path == *p {
            return Some(g);
        }
        g += 1;
    }
    None
}

/// The scanned songs grouped into one playlist per folder, in the order of
/// the folders' names; each playlist keeps its songs in scan order.
pub fn group_by_folder(entries: Vec<FolderSong>) -> (r: Vec<GeneratedFolder>)
    ensures
        is_grouping(r@, entries@),
{
    let ghost all = entries@;
    let n = entries.len();
    let mut rest = entries;
    let mut groups: Vec<GeneratedFolder> = Vec::new();
    proof {
        assert(all.subrange(n as int, n as int) =~= Seq::<FolderSong>::empty());
        assert(all.subrange(0, n as int) =~= all);
    }
    while rest.len() > 0
        invariant
            rest.len() <= n,
            n == all.len(),
            rest@ == all.subrange(0, rest.len() as int),
            is_grouping(groups@, all.subrange(rest.len() as int, n as int)),
        decreases rest.len(),
    {
        let k = rest.len() - 1;
        let ghost old_suffix = all.subrange(k + 1, n as int);
        let ghost suffix = all.subrange(k as int, n as int);
        let e = rest.pop().unwrap();
        proof {
            assert(rest@ =~= all.subrange(0, k as int));
            assert(e == all[k as int]);
            assert(suffix.drop_first() =~= old_suffix);
            assert(suffix[0] == e);
        }
        let ghost p = e.folder_path@;
        let ghost old_groups = groups@;
        match find_group(&groups, &e.folder_path) {
            Some(g) => {
                let mut grp = groups.remove(g);
                grp.songs.insert(0, e.song);
                groups.insert(g, grp);
                proof {
                    assert(groups@ =~= old_groups.update(g as int, grp));
                    assert(grp.songs@ =~= seq![e.song] + old_groups[g as int].songs@);
                    assert forall|h: int| 0 <= h < groups@.len() implies {
                        &&& (#[trigger] groups@[h]).songs@ == songs_in(suffix, groups@[h].path@)
                        &&& groups@[h].songs@.len() > 0
                        &&& last_label(suffix, groups@[h].path@) == Some(groups@[h].name@)
                    } by {
                        assert(songs_in(suffix, groups@[h].path@) == if suffix[0].folder_path@ == groups@[h].path@ {
                            seq![suffix[0].song] + songs_in(old_suffix, groups@[h].path@)
                        } else {
                            songs_in(old_suffix, groups@[h].path@)
                        });
                        if h != g {
                            assert(old_groups[h].path@ != old_groups[g as int].path@) by {
                                if h < g {
                                    assert(old_groups[h].path@ != old_groups[g as int].path@);
                                } else {
                                    assert(old_groups[g as int].path@ != old_groups[h].path@);
                                }
                            }
                        }
                    }
                    assert forall|g1: int, h1: int| 0 <= g1 < h1 < groups@.len() implies
                        (#[trigger] groups@[g1]).path@ != (#[trigger] groups@[h1]).path@ by {
                        assert(old_groups[g1].path@ != old_groups[h1].path@);
                    }
                    assert forall|j: int| 0 <= j < suffix.len() implies has_group(groups@, (#[trigger] suffix[j]).folder_path@) by {
                        if j == 0 {
                            assert(groups@[g as int].path@ == p);
                        } else {
                            assert(suffix[j] == old_suffix[j - 1]);
                            let w = choose|w: int| 0 <= w < old_groups.len() && #[trigger] old_groups[w].path@ == old_suffix[j - 1].folder_path@;
                            assert(groups@[w].path@ == old_groups[w].path@);
                        }
                    }
                    assert forall|i: int| 0 <= i < groups@.len() - 1 implies !text_lt((#[trigger] groups@[i + 1]).name@, groups@[i].name@) by {
                        assert(!text_lt(old_groups[i + 1].name@, old_groups[i].name@));
                    }
                }
            },
            None => {
                proof {
                    assert forall|j: int| 0 <= j < old_suffix.len() implies (#[trigger] old_suffix[j]).folder_path@ != p by {
                        if old_suffix[j].folder_path@ == p {
                            assert(has_group(old_groups, old_suffix[j].folder_path@));
                        }
                    }
                    lemma_absent_folder(old_suffix, p);
                }
                let name = or_default(e.folder_name, "未知文件夹");
                let mut songs: Vec<Song> = Vec::new();
                songs.push(e.song);
                let grp = GeneratedFolder { name, path: e.folder_path, songs };
                let mut at: usize = 0;
                while at < groups.len() && text_before(groups[at].name.as_str(), grp.name.as_str())
                    invariant
                        at <= groups.len(),
                        groups@ == old_groups,
                        forall|j: int| 0 <= j < at ==> text_lt(#[trigger] groups@[j].name@, grp.name@),
                    decreases groups.len() - at,
                {
                    at += 1;
                }
                proof {
                    if at > 0 {
                        lemma_text_lt_asymmetric(old_groups[at - 1].name@, grp.name@);
                    }
                    assert(grp.songs@ =~= seq![e.song]);
                    assert(songs_in(suffix, p) =~= seq![e.song] + songs_in(old_suffix, p));
                }
                groups.insert(at, grp);
                proof {
                    let t = groups@;
                    assert(t == old_groups.insert(at as int, grp));
                    assert forall|h: int| 0 <= h < t.len() implies {
                        &&& (#[trigger] t[h]).songs@ == songs_in(suffix, t[h].path@)
                        &&& t[h].songs@.len() > 0
                        &&& last_label(suffix, t[h].path@) == Some(t[h].name@)
                    } by {
                        if h != at {
                            let o = if h < at { h } else { h - 1 };
                            assert(t[h] == old_groups[o]);
                            assert(old_groups[o].path@ != p) by {
                                assert(!has_group(old_groups, p) || old_groups[o].path@ != p);
                            }
                        }
                    }
                    assert forall|g1: int, h1: int| 0 <= g1 < h1 < t.len() implies
                        (#[trigger] t[g1]).path@ != (#[trigger] t[h1]).path@ by {
                        let o1 = if g1 < at { g1 } else { g1 - 1 };
                        let o2 = if h1 < at { h1 } else { h1 - 1 };
                        if g1 != at && h1 != at {
                            assert(t[g1] == old_groups[o1] && t[h1] == old_groups[o2]);
                            assert(old_groups[o1].path@ != old_groups[o2].path@);
                        } else if g1 == at {
                            assert(t[h1] == old_groups[o2]);
                        } else {
                            assert(t[g1] == old_groups[o1]);
                        }
                    }
                    assert forall|j: int| 0 <= j < suffix.len() implies has_group(t, (#[trigger] suffix[j]).folder_path@) by {
                        if j == 0 {
                            assert(t[at as int].path@ == p);
                        } else {
                            assert(suffix[j] == old_suffix[j - 1]);
                            let w = choose|w: int| 0 <= w < old_groups.len() && #[trigger] old_groups[w].path@ == old_suffix[j - 1].folder_path@;
                            if w < at {
                                assert(t[w] == old_groups[w]);
                            } else {
                                assert(t[w + 1] == old_groups[w]);
                            }
                        }
                    }
                    assert forall|i: int| 0 <= i < t.len() - 1 implies !text_lt((#[trigger] t[i + 1]).name@, t[i].name@) by {
                        if i + 1 < at {
                            assert(t[i] == old_groups[i] && t[i + 1] == old_groups[i + 1]);
                            assert(!text_lt(old_groups[i + 1].name@, old_groups[i].name@));
                        } else if i + 1 == at {
                            assert(t[i] == old_groups[i] && t[i + 1] == grp);
                        } else if i == at {
                            assert(t[i] == grp && t[i + 1] == old_groups[i]);
                        } else {
                            assert(t[i] == old_groups[i - 1] && t[i + 1] == old_groups[i]);
                            assert(!text_lt(old_groups[(i - 1) + 1].name@, old_groups[i - 1].name@));
                        }
                    }
                }
            },
        }
    }
    groups
}

} // verus!
