//! The full-width dashed card that accepts a folder, by click or by drop:
//! its text, and which dropped paths it hands over.
use vstd::prelude::*;

verus! {

/// The card: its two lines, an optional keycap, and whether it draws the
/// drag-over state.
#[derive(Debug)]
pub struct FolderDropCard {
    /// Stable identity of the card.
    pub id: String,
    /// The title (`Drop a folder here`).
    pub title: String,
    /// The subtitle (`or click to choose one`).
    pub subtitle: String,
    /// A keycap at the card's right: the shortcut that chooses.
    pub key: Option<String>,
    /// Draws the drag-over state (accent border on accent-soft) statically.
    pub dragging: bool,
}

/// A card reading "Drop a folder here" / "or click to choose one".
pub fn folder_drop_card(id: &str) -> (c: FolderDropCard)
    ensures
        c.id@ == id@,
        c.title@ == "Drop a folder here"@,
        c.subtitle@ == "or click to choose one"@,
        c.key is None,
        !c.dragging,
{
    FolderDropCard {
        id: id.to_string(),
        title: "Drop a folder here".to_string(),
        subtitle: "or click to choose one".to_string(),
        key: None,
        dragging: false,
    }
}

impl FolderDropCard {
    /// Overrides the title.
    pub fn title(self, title: &str) -> (c: Self)
        ensures
            c == (FolderDropCard { title: c.title, ..self }),
            c.title@ == title@,
    {
        FolderDropCard { title: title.to_string(), ..self }
    }

    /// Overrides the subtitle.
    pub fn subtitle(self, subtitle: &str) -> (c: Self)
        ensures
            c == (FolderDropCard { subtitle: c.subtitle, ..self }),
            c.subtitle@ == subtitle@,
    {
        FolderDropCard { subtitle: subtitle.to_string(), ..self }
    }

    /// A keycap at the card's right.
    pub fn key(self, key: &str) -> (c: Self)
        ensures
            c == (FolderDropCard { key: c.key, ..self }),
            c.key matches Some(k) && k@ == key@,
    {
        FolderDropCard { key: Some(key.to_string()), ..self }
    }

    /// Draws the drag-over state statically.
    pub fn dragging(self, dragging: bool) -> (c: Self)
        ensures
            c == (FolderDropCard { dragging, ..self }),
    {
        FolderDropCard { dragging, ..self }
    }
}

/// One dropped path, with whether it names a directory on disk.
#[derive(Debug)]
pub struct DroppedPath {
    /// The path as dropped.
    pub path: String,
    /// Whether it is a directory.
    pub is_dir: bool,
}

/// The directories among `paths`, in order.
pub open spec fn dirs_of(paths: Seq<DroppedPath>) -> Seq<Seq<char>>
    decreases paths.len(),
{
    if paths.len() == 0 {
        Seq::empty()
    } else if paths.last().is_dir {
        dirs_of(paths.drop_last()).push(paths.last().path@)
    } else {
        dirs_of(paths.drop_last())
    }
}

/// A drop keeps exactly the directories, each once and in the order they
/// were dropped: what it hands over is the dropped paths filtered to the
/// directories.
pub proof fn lemma_a_drop_keeps_exactly_the_directories(paths: Seq<DroppedPath>)
    ensures
        dirs_of(paths) == paths.filter(|p: DroppedPath| p.is_dir).map_values(|p: DroppedPath| p.path@),
    decreases paths.len(),
{
    reveal_with_fuel(Seq::filter, 1);
    if paths.len() > 0 {
        lemma_a_drop_keeps_exactly_the_directories(paths.drop_last());
        let sub = paths.drop_last().filter(|p: DroppedPath| p.is_dir);
        if paths.last().is_dir {
            assert(sub.push(paths.last()).map_values(|p: DroppedPath| p.path@) == sub.map_values(
                |p: DroppedPath| p.path@,
            ).push(paths.last().path@));
        }
    }
}

/// Every dropped path that is a directory, in order; files (and paths that
/// are not there) are ignored.
pub fn dirs_only(paths: &[DroppedPath]) -> (dirs: Vec<String>)
    ensures
        dirs@.map_values(|d: String| d@) == dirs_of(paths@),
{
    let mut dirs: Vec<String> = Vec::new();
    let n = paths.len();
    let mut i: usize = 0;
    while i < n
        invariant
            i <= n,
            n == paths@.len(),
            dirs@.map_values(|d: String| d@) == dirs_of(paths@.take(i as int)),
        decreases n - i,
    {
        assert(paths@.take(i + 1).drop_last() == paths@.take(i as int));
        let ghost before = dirs@;
        if paths[i].is_dir {
            dirs.push(paths[i].path.clone());
            assert(dirs@.map_values(|d: String| d@) =~= before.map_values(|d: String| d@).push(
                paths@[i as int].path@,
            ));
        }
        i = i + 1;
    }
    assert(paths@.take(n as int) == paths@);
    dirs
}

} // verus!
