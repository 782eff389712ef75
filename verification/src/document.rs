//! The current document: applied pixels, a version-bound transient preview, and an
//! undo/redo history kept within a byte budget.

use vstd::prelude::*;

use crate::raster::{Raster, RasterView};

verus! {

/// Default byte budget shared by the undo and redo stacks.
pub const DEFAULT_HISTORY_BUDGET_BYTES: usize = 268435456;

/// The revision that follows `revision`: one more, wrapping around to 1 (never 0).
pub open spec fn next_revision(revision: u64) -> u64 {
    if revision == u64::MAX {
        1
    } else {
        (revision + 1) as u64
    }
}

/// Identity of one applied state of one document.
#[derive(Debug, Clone, Copy, PartialEq, Eq, Structural)]
pub struct DocumentVersion {
    /// Identifier of the document; distinct documents get distinct identifiers.
    pub document_id: u64,
    /// Revision inside the document, starting at 1.
    pub revision: u64,
}

impl DocumentVersion {
    /// The first version of a document with the given identifier.
    pub fn new_document(document_id: u64) -> (version: DocumentVersion)
        ensures
            version == (DocumentVersion { document_id, revision: 1 }),
    {
        DocumentVersion { document_id, revision: 1 }
    }

    /// The version that follows this one in the same document.
    pub open spec fn spec_next(self) -> DocumentVersion {
        DocumentVersion { document_id: self.document_id, revision: next_revision(self.revision) }
    }

    /// The version that follows this one in the same document.
    pub fn next(self) -> (version: DocumentVersion)
        ensures
            version == self.spec_next(),
    {
        let revision = if self.revision == u64::MAX {
            1
        } else {
            self.revision + 1
        };
        DocumentVersion { document_id: self.document_id, revision }
    }
}

/// Version of an ordered input set.
#[derive(Debug, Clone, Copy, PartialEq, Eq, Structural)]
pub struct InputSetVersion(pub u64);

/// Kinds of applied edits.
#[derive(Debug, Clone, Copy, PartialEq, Eq, Structural)]
pub enum EditKind {
    Crop,
    Resize,
    Rotate,
    Beautify,
    RestoreOriginal,
}

/// An ordered set of input images with their display names.
#[derive(Debug)]
pub struct InputSet {
    images: Vec<Raster>,
    names: Vec<String>,
    version: u64,
}

/// The model of an input set: images, names and version counter.
pub struct InputSetView {
    pub images: Seq<RasterView>,
    pub names: Seq<Seq<char>>,
    pub version: u64,
}

/// The views of a sequence of rasters.
pub open spec fn raster_views(images: Seq<Raster>) -> Seq<RasterView> {
    images.map_values(|image: Raster| image@)
}

/// The views of a sequence of strings.
pub open spec fn string_views(names: Seq<String>) -> Seq<Seq<char>> {
    names.map_values(|name: String| name@)
}

impl View for InputSet {
    type V = InputSetView;

    closed spec fn view(&self) -> InputSetView {
        InputSetView {
            images: raster_views(self.images@),
            names: string_views(self.names@),
            version: self.version,
        }
    }
}

/// Moves the element at `from` to position `to`.
pub open spec fn move_element<A>(s: Seq<A>, from: int, to: int) -> Seq<A> {
    s.remove(from).insert(to, s[from])
}

impl InputSet {
    /// Images and names stay paired one to one.
    pub closed spec fn wf(&self) -> bool {
        self.images.len() == self.names.len()
    }

    /// An empty input set.
    pub fn new() -> (set: InputSet)
        ensures
            set.wf(),
            set@.images.len() == 0,
            set@.names.len() == 0,
            set@.version == 0,
    {
        InputSet { images: Vec::new(), names: Vec::new(), version: 0 }
    }

    fn bump_version(&mut self)
        ensures
            final(self).version == next_revision(old(self).version),
            final(self).images == old(self).images,
            final(self).names == old(self).names,
    {
        self.version = if self.version == u64::MAX {
            1
        } else {
            self.version + 1
        };
    }

    /// Replaces every image and name; the version advances.
    pub fn replace(&mut self, images: Vec<Raster>, names: Vec<String>)
        requires
            images.len() == names.len(),
        ensures
            final(self).wf(),
            final(self)@.images == raster_views(images@),
            final(self)@.names == string_views(names@),
            final(self)@.version == next_revision(old(self)@.version),
    {
        self.images = images;
        self.names = names;
        self.bump_version();
    }

    /// Appends images and names after the current ones; the version advances.
    pub fn append(&mut self, images: Vec<Raster>, names: Vec<String>)
        requires
            old(self).wf(),
            images.len() == names.len(),
        ensures
            final(self).wf(),
            final(self)@.images == old(self)@.images + raster_views(images@),
            final(self)@.names == old(self)@.names + string_views(names@),
            final(self)@.version == next_revision(old(self)@.version),
    {
        let ghost old_images = self.images@;
        let ghost old_names = self.names@;
        let ghost new_images = images@;
        let ghost new_names = names@;
        let mut images = images;
        let mut names = names;
        self.images.append(&mut images);
        self.names.append(&mut names);
        self.bump_version();
        proof {
            assert(raster_views(self.images@) =~= raster_views(old_images) + raster_views(
                new_images,
            ));
            assert(string_views(self.names@) =~= string_views(old_names) + string_views(
                new_names,
            ));
        }
    }

    /// The images in order.
    pub fn images(&self) -> (images: &Vec<Raster>)
        ensures
            raster_views(images@) == self@.images,
    {
        &self.images
    }

    /// The names in order.
    pub fn names(&self) -> (names: &Vec<String>)
        ensures
            string_views(names@) == self@.names,
    {
        &self.names
    }

    /// The name at `index`, if there is one.
    pub fn name(&self, index: usize) -> (name: Option<&str>)
        ensures
            name matches Some(n) ==> index < self@.names.len() && n@ == self@.names[index as int],
            name is None ==> index >= self@.names.len(),
    {
        if index < self.names.len() {
            Some(self.names[index].as_str())
        } else {
            None
        }
    }

    /// The image at `index`, if there is one.
    pub fn image(&self, index: usize) -> (image: Option<&Raster>)
        ensures
            image matches Some(i) ==> index < self@.images.len() && i@ == self@.images[index as int],
            image is None ==> index >= self@.images.len(),
    {
        if index < self.images.len() {
            Some(&self.images[index])
        } else {
            None
        }
    }

    /// Number of images.
    pub fn len(&self) -> (n: usize)
        ensures
            n == self@.images.len(),
    {
        self.images.len()
    }

    /// Whether there is no image.
    pub fn is_empty(&self) -> (empty: bool)
        ensures
            empty == (self@.images.len() == 0),
    {
        self.images.len() == 0
    }

    /// The current version of the set.
    pub fn version(&self) -> (version: InputSetVersion)
        ensures
            version == InputSetVersion(self@.version),
    {
        InputSetVersion(self.version)
    }

    /// Removes the image and name at `index`; refused (false, nothing changes) out of range.
    pub fn remove(&mut self, index: usize) -> (removed: bool)
        requires
            old(self).wf(),
        ensures
            final(self).wf(),
            removed == (index < old(self)@.images.len()),
            removed ==> final(self)@.images == old(self)@.images.remove(index as int)
                && final(self)@.names == old(self)@.names.remove(index as int)
                && final(self)@.version == next_revision(old(self)@.version),
            !removed ==> final(self)@ == old(self)@,
    {
        if index >= self.images.len() {
            return false;
        }
        let ghost old_images = self.images@;
        let ghost old_names = self.names@;
        self.images.remove(index);
        self.names.remove(index);
        self.bump_version();
        proof {
            assert(raster_views(self.images@) =~= raster_views(old_images).remove(index as int));
            assert(string_views(self.names@) =~= string_views(old_names).remove(index as int));
        }
        true
    }

    /// Moves the entry at `from` to `to`; refused (false, nothing changes) when the positions
    /// are equal or out of range.
    pub fn move_item(&mut self, from: usize, to: usize) -> (moved: bool)
        requires
            old(self).wf(),
        ensures
            final(self).wf(),
            moved == (from != to && from < old(self)@.images.len() && to
                < old(self)@.images.len()),
            moved ==> final(self)@.images == move_element(
                old(self)@.images,
                from as int,
                to as int,
            ) && final(self)@.names == move_element(old(self)@.names, from as int, to as int)
                && final(self)@.version == next_revision(old(self)@.version),
            !moved ==> final(self)@ == old(self)@,
    {
        if from == to || from >= self.images.len() || to >= self.images.len() {
            return false;
        }
        let ghost old_images = self.images@;
        let ghost old_names = self.names@;
        let image = self.images.remove(from);
        self.images.insert(to, image);
        let name = self.names.remove(from);
        self.names.insert(to, name);
        self.bump_version();
        proof {
            assert(raster_views(self.images@) =~= move_element(
                raster_views(old_images),
                from as int,
                to as int,
            ));
            assert(string_views(self.names@) =~= move_element(
                string_views(old_names),
                from as int,
                to as int,
            ));
        }
        true
    }
}

/// One entry of the history: an earlier image, the edit that left it, and whether it had been
/// exported.
pub struct HistoryEntry {
    pub image: RasterView,
    pub kind: EditKind,
    pub exported: bool,
}

/// Bytes held by one history entry.
pub open spec fn entry_bytes(entry: HistoryEntry) -> nat {
    entry.image.pixels.len()
}

/// Bytes held by a sequence of history entries.
pub open spec fn total_bytes(entries: Seq<HistoryEntry>) -> nat
    decreases entries.len(),
{
    if entries.len() == 0 {
        0
    } else {
        entry_bytes(entries[0]) + total_bytes(entries.drop_first())
    }
}

/// The stacks left after evicting the oldest entries (undo first, then redo) until the
/// history fits the budget or nothing is left.
pub open spec fn trimmed(
    undo: Seq<HistoryEntry>,
    redo: Seq<HistoryEntry>,
    budget: nat,
) -> (Seq<HistoryEntry>, Seq<HistoryEntry>)
    decreases undo.len() + redo.len(),
{
    if total_bytes(undo + redo) <= budget {
        (undo, redo)
    } else if undo.len() > 0 {
        trimmed(undo.drop_first(), redo, budget)
    } else if redo.len() > 0 {
        trimmed(undo, redo.drop_first(), budget)
    } else {
        (undo, redo)
    }
}

/// A preview that has not been applied, bound to the version it was computed from.
pub struct PreviewView {
    pub base_version: DocumentVersion,
    pub image: RasterView,
    pub kind: EditKind,
}

/// The model of a document.
pub struct DocumentState {
    pub original: RasterView,
    pub current: RasterView,
    pub version: DocumentVersion,
    pub exported: bool,
    pub undo: Seq<HistoryEntry>,
    pub redo: Seq<HistoryEntry>,
    pub budget: nat,
    pub transient: Option<PreviewView>,
}

/// The state after applying `image` as an edit of `kind`.
pub open spec fn after_commit(s: DocumentState, image: RasterView, kind: EditKind) -> DocumentState {
    let entry = HistoryEntry { image: s.current, kind, exported: s.exported };
    let stacks = trimmed(s.undo.push(entry), Seq::empty(), s.budget);
    DocumentState {
        current: image,
        version: s.version.spec_next(),
        exported: false,
        undo: stacks.0,
        redo: stacks.1,
        transient: None,
        ..s
    }
}

/// The state after undoing the most recent edit (requires a non-empty undo stack).
pub open spec fn after_undo(s: DocumentState) -> DocumentState {
    let checkpoint = s.undo.last();
    let entry = HistoryEntry { image: s.current, kind: checkpoint.kind, exported: s.exported };
    let stacks = trimmed(s.undo.drop_last(), s.redo.push(entry), s.budget);
    DocumentState {
        current: checkpoint.image,
        version: s.version.spec_next(),
        exported: checkpoint.exported,
        undo: stacks.0,
        redo: stacks.1,
        transient: None,
        ..s
    }
}

/// The state after redoing the most recently undone edit (requires a non-empty redo stack).
pub open spec fn after_redo(s: DocumentState) -> DocumentState {
    let checkpoint = s.redo.last();
    let entry = HistoryEntry { image: s.current, kind: checkpoint.kind, exported: s.exported };
    let stacks = trimmed(s.undo.push(entry), s.redo.drop_last(), s.budget);
    DocumentState {
        current: checkpoint.image,
        version: s.version.spec_next(),
        exported: checkpoint.exported,
        undo: stacks.0,
        redo: stacks.1,
        transient: None,
        ..s
    }
}

/// The image a document shows: a pending preview, except that a crop preview is drawn as an
/// overlay on the applied image.
pub open spec fn displayed(s: DocumentState) -> RasterView {
    match s.transient {
        Some(preview) => if preview.kind == EditKind::Crop {
            s.current
        } else {
            preview.image
        },
        None => s.current,
    }
}

struct Checkpoint {
    image: Raster,
    kind: EditKind,
    bytes: usize,
    exported: bool,
}

impl Checkpoint {
    spec fn entry(&self) -> HistoryEntry {
        HistoryEntry { image: self.image@, kind: self.kind, exported: self.exported }
    }

    spec fn consistent(&self) -> bool {
        self.bytes == self.image.pixels.len() && self.image.wf()
    }
}

spec fn entries(checkpoints: Seq<Checkpoint>) -> Seq<HistoryEntry> {
    checkpoints.map_values(|c: Checkpoint| c.entry())
}

spec fn all_consistent(checkpoints: Seq<Checkpoint>) -> bool {
    forall|i: int| 0 <= i < checkpoints.len() ==> (#[trigger] checkpoints[i]).consistent()
}

/// A copy of the applied image together with the version it belongs to.
#[derive(Debug)]
pub struct DocumentSnapshot {
    pub version: DocumentVersion,
    pub image: Raster,
}

struct TransientPreview {
    base_version: DocumentVersion,
    image: Raster,
    kind: EditKind,
}

/// The document being edited.
pub struct CurrentDocument {
    original: Raster,
    current: Raster,
    version: DocumentVersion,
    current_exported: bool,
    undo: Vec<Checkpoint>,
    redo: Vec<Checkpoint>,
    history_bytes: usize,
    history_budget_bytes: usize,
    transient: Option<TransientPreview>,
}

impl View for CurrentDocument {
    type V = DocumentState;

    closed spec fn view(&self) -> DocumentState {
        DocumentState {
            original: self.original@,
            current: self.current@,
            version: self.version,
            exported: self.current_exported,
            undo: entries(self.undo@),
            redo: entries(self.redo@),
            budget: self.history_budget_bytes as nat,
            transient: match self.transient {
                Some(t) => Some(PreviewView { base_version: t.base_version, image: t.image@, kind: t.kind }),
                None => None,
            },
        }
    }
}

/// Bytes of two concatenated sequences.
pub proof fn lemma_total_bytes_concat(a: Seq<HistoryEntry>, b: Seq<HistoryEntry>)
    ensures
        total_bytes(a + b) == total_bytes(a) + total_bytes(b),
    decreases a.len(),
{
    if a.len() == 0 {
        assert(a + b =~= b);
    } else {
        lemma_total_bytes_concat(a.drop_first(), b);
        assert((a + b).drop_first() =~= a.drop_first() + b);
    }
}

/// Bytes after pushing one entry.
pub proof fn lemma_total_bytes_push(a: Seq<HistoryEntry>, e: HistoryEntry)
    ensures
        total_bytes(a.push(e)) == total_bytes(a) + entry_bytes(e),
{
    lemma_total_bytes_concat(a, seq![e]);
    assert(a.push(e) =~= a + seq![e]);
    assert(seq![e].drop_first() =~= Seq::<HistoryEntry>::empty());
    assert(total_bytes(seq![e]) == entry_bytes(e) + total_bytes(seq![e].drop_first()));
}

/// Bytes after dropping the last entry.
pub proof fn lemma_total_bytes_drop_last(a: Seq<HistoryEntry>)
    requires
        a.len() > 0,
    ensures
        total_bytes(a) == total_bytes(a.drop_last()) + entry_bytes(a.last()),
{
    lemma_total_bytes_push(a.drop_last(), a.last());
    assert(a.drop_last().push(a.last()) =~= a);
}

/// Trimming always leaves the history within the budget.
pub proof fn lemma_trimmed_within_budget(undo: Seq<HistoryEntry>, redo: Seq<HistoryEntry>, budget: nat)
    ensures
        total_bytes(trimmed(undo, redo, budget).0 + trimmed(undo, redo, budget).1) <= budget,
    decreases undo.len() + redo.len(),
{
    if total_bytes(undo + redo) <= budget {
    } else if undo.len() > 0 {
        lemma_trimmed_within_budget(undo.drop_first(), redo, budget);
    } else if redo.len() > 0 {
        lemma_trimmed_within_budget(undo, redo.drop_first(), budget);
    } else {
        assert(undo + redo =~= Seq::<HistoryEntry>::empty());
    }
}

/// Trimming within budget changes nothing.
pub proof fn lemma_trimmed_noop(undo: Seq<HistoryEntry>, redo: Seq<HistoryEntry>, budget: nat)
    requires
        total_bytes(undo + redo) <= budget,
    ensures
        trimmed(undo, redo, budget) == (undo, redo),
{
}

proof fn lemma_entries_push(s: Seq<Checkpoint>, c: Checkpoint)
    ensures
        entries(s.push(c)) == entries(s).push(c.entry()),
{
    assert(entries(s.push(c)) =~= entries(s).push(c.entry()));
}

proof fn lemma_entries_drop_first(s: Seq<Checkpoint>)
    requires
        s.len() > 0,
    ensures
        entries(s.remove(0)) == entries(s).drop_first(),
        entries(s)[0] == s[0].entry(),
{
    assert(entries(s.remove(0)) =~= entries(s).drop_first());
}

proof fn lemma_entries_drop_last(s: Seq<Checkpoint>)
    requires
        s.len() > 0,
    ensures
        entries(s.drop_last()) == entries(s).drop_last(),
        entries(s).last() == s.last().entry(),
{
    assert(entries(s.drop_last()) =~= entries(s).drop_last());
}

/// Evicts the oldest checkpoints (undo first, then redo) while the history exceeds the budget.
fn trim(
    undo: &mut Vec<Checkpoint>,
    redo: &mut Vec<Checkpoint>,
    total: u128,
    budget: usize,
) -> (remaining: usize)
    requires
        all_consistent(old(undo)@),
        all_consistent(old(redo)@),
        total == total_bytes(entries(old(undo)@) + entries(old(redo)@)),
    ensures
        all_consistent(final(undo)@),
        all_consistent(final(redo)@),
        (entries(final(undo)@), entries(final(redo)@)) == trimmed(
            entries(old(undo)@),
            entries(old(redo)@),
            budget as nat,
        ),
        remaining as nat == total_bytes(entries(final(undo)@) + entries(final(redo)@)),
        remaining <= budget,
{
    let mut total = total;
    let ghost target = trimmed(entries(undo@), entries(redo@), budget as nat);
    proof {
        lemma_trimmed_within_budget(entries(undo@), entries(redo@), budget as nat);
    }
    while total > budget as u128 && (undo.len() > 0 || redo.len() > 0)
        invariant
            all_consistent(undo@),
            all_consistent(redo@),
            total == total_bytes(entries(undo@) + entries(redo@)),
            trimmed(entries(undo@), entries(redo@), budget as nat) == target,
            total_bytes(target.0 + target.1) <= budget,
        decreases undo.len() + redo.len(),
    {
        proof {
            lemma_total_bytes_concat(entries(undo@), entries(redo@));
        }
        if undo.len() > 0 {
            let ghost before = undo@;
            let removed = undo.remove(0);
            proof {
                lemma_entries_drop_first(before);
                assert(undo@ == before.remove(0));
                assert(total_bytes(entries(before)) == entry_bytes(entries(before)[0])
                    + total_bytes(entries(before).drop_first()));
                lemma_total_bytes_concat(entries(undo@), entries(redo@));
                assert(before[0].consistent());
            }
            total = total - removed.bytes as u128;
        } else {
            let ghost before = redo@;
            let removed = redo.remove(0);
            proof {
                lemma_entries_drop_first(before);
                assert(redo@ == before.remove(0));
                assert(total_bytes(entries(before)) == entry_bytes(entries(before)[0])
                    + total_bytes(entries(before).drop_first()));
                lemma_total_bytes_concat(entries(undo@), entries(redo@));
                assert(entries(undo@) + entries(before) =~= entries(before));
                assert(entries(undo@) + entries(redo@) =~= entries(redo@));
                assert(before[0].consistent());
            }
            total = total - removed.bytes as u128;
        }
    }
    proof {
        if total > budget as u128 {
            assert(entries(undo@) + entries(redo@) =~= Seq::<HistoryEntry>::empty());
        }
    }
    total as usize
}


proof fn lemma_total_bytes_prefix(s: Seq<HistoryEntry>, i: int)
    requires
        0 <= i < s.len(),
    ensures
        total_bytes(s.take(i + 1)) == total_bytes(s.take(i)) + entry_bytes(s[i]),
        total_bytes(s.take(i + 1)) <= total_bytes(s),
{
    lemma_total_bytes_push(s.take(i), s[i]);
    assert(s.take(i).push(s[i]) =~= s.take(i + 1));
    lemma_total_bytes_concat(s.take(i + 1), s.skip(i + 1));
    assert(s.take(i + 1) + s.skip(i + 1) =~= s);
}

/// Sum of the byte counts of a stack of checkpoints.
fn stack_bytes(stack: &Vec<Checkpoint>) -> (total: usize)
    requires
        all_consistent(stack@),
        total_bytes(entries(stack@)) <= usize::MAX,
    ensures
        total == total_bytes(entries(stack@)),
{
    let mut total: usize = 0;
    let mut i: usize = 0;
    while i < stack.len()
        invariant
            all_consistent(stack@),
            total_bytes(entries(stack@)) <= usize::MAX,
            i <= stack.len(),
            total == total_bytes(entries(stack@).take(i as int)),
        decreases stack.len() - i,
    {
        proof {
            lemma_total_bytes_prefix(entries(stack@), i as int);
            assert(stack@[i as int].consistent());
        }
        total = total + stack[i].bytes;
        i = i + 1;
    }
    proof {
        assert(entries(stack@).take(i as int) =~= entries(stack@));
    }
    total
}

impl CurrentDocument {
    /// Internal consistency: recorded byte counts match the images, and the history total is
    /// recorded and within the budget.
    pub closed spec fn wf(&self) -> bool {
        &&& self.original.wf()
        &&& self.current.wf()
        &&& all_consistent(self.undo@)
        &&& all_consistent(self.redo@)
        &&& self.history_bytes as nat == total_bytes(entries(self.undo@) + entries(self.redo@))
        &&& self.history_bytes <= self.history_budget_bytes
        &&& (self.transient matches Some(t) ==> t.image.wf())
    }

    /// A new document with the default history budget; it counts as exported.
    pub fn new(image: Raster, document_id: u64) -> (document: CurrentDocument)
        requires
            image.wf(),
        ensures
            document.wf(),
            document@.original == image@,
            document@.current == image@,
            document@.version == (DocumentVersion { document_id, revision: 1 }),
            document@.exported,
            document@.undo.len() == 0,
            document@.redo.len() == 0,
            document@.budget == DEFAULT_HISTORY_BUDGET_BYTES as nat,
            document@.transient is None,
    {
        Self::with_history_budget(image, DEFAULT_HISTORY_BUDGET_BYTES, document_id)
    }

    /// A new document whose history may hold at most `history_budget_bytes` bytes.
    pub fn with_history_budget(image: Raster, history_budget_bytes: usize, document_id: u64) -> (document: CurrentDocument)
        requires
            image.wf(),
        ensures
            document.wf(),
            document@.original == image@,
            document@.current == image@,
            document@.version == (DocumentVersion { document_id, revision: 1 }),
            document@.exported,
            document@.undo.len() == 0,
            document@.redo.len() == 0,
            document@.budget == history_budget_bytes as nat,
            document@.transient is None,
    {
        let original = image.clone_raster();
        let document = CurrentDocument {
            original,
            current: image,
            version: DocumentVersion::new_document(document_id),
            current_exported: true,
            undo: Vec::new(),
            redo: Vec::new(),
            history_bytes: 0,
            history_budget_bytes,
            transient: None,
        };
        proof {
            assert(entries(document.undo@) + entries(document.redo@) =~= Seq::<
                HistoryEntry,
            >::empty());
            assert(entries(document.undo@) =~= Seq::<HistoryEntry>::empty());
            assert(entries(document.redo@) =~= Seq::<HistoryEntry>::empty());
        }
        document
    }

    /// A new document that still has to be exported (for generated results).
    pub fn new_unexported(image: Raster, document_id: u64) -> (document: CurrentDocument)
        requires
            image.wf(),
        ensures
            document.wf(),
            document@.original == image@,
            document@.current == image@,
            document@.version == (DocumentVersion { document_id, revision: 1 }),
            !document@.exported,
            document@.undo.len() == 0,
            document@.redo.len() == 0,
            document@.budget == DEFAULT_HISTORY_BUDGET_BYTES as nat,
            document@.transient is None,
    {
        let mut document = Self::new(image, document_id);
        document.current_exported = false;
        document
    }

    /// The applied image and its version.
    pub fn snapshot(&self) -> (snapshot: DocumentSnapshot)
        requires
            self.wf(),
        ensures
            snapshot.version == self@.version,
            snapshot.image@ == self@.current,
            snapshot.image.wf(),
    {
        DocumentSnapshot { version: self.version, image: self.current.clone_raster() }
    }

    /// The dimensions of the applied image.
    pub fn current_dimensions(&self) -> (dims: (u32, u32))
        ensures
            dims == (self@.current.width, self@.current.height),
    {
        (self.current.width, self.current.height)
    }

    /// The version of the applied image.
    pub fn version(&self) -> (version: DocumentVersion)
        ensures
            version == self@.version,
    {
        self.version
    }

    /// The image the document was opened with.
    pub fn original(&self) -> (image: &Raster)
        requires
            self.wf(),
        ensures
            image@ == self@.original,
            image.wf(),
    {
        &self.original
    }

    /// The image to show: the pending preview, or the applied image under a crop preview.
    pub fn displayed_image(&self) -> (image: &Raster)
        requires
            self.wf(),
        ensures
            image@ == displayed(self@),
            image.wf(),
    {
        match &self.transient {
            Some(preview) => {
                if preview.kind == EditKind::Crop {
                    &self.current
                } else {
                    &preview.image
                }
            },
            None => &self.current,
        }
    }

    /// Records a preview computed from `base_version`; refused when that version is stale.
    pub fn set_transient(&mut self, base_version: DocumentVersion, image: Raster, kind: EditKind) -> (accepted: bool)
        requires
            old(self).wf(),
            image.wf(),
        ensures
            final(self).wf(),
            accepted == (base_version == old(self)@.version),
            accepted ==> final(self)@ == (DocumentState {
                transient: Some(PreviewView { base_version, image: image@, kind }),
                ..old(self)@
            }),
            !accepted ==> final(self)@ == old(self)@,
    {
        if base_version != self.version {
            return false;
        }
        self.transient = Some(TransientPreview { base_version, image, kind });
        true
    }

    /// Applies the pending preview of any kind.
    pub fn apply_transient(&mut self) -> (applied: bool)
        requires
            old(self).wf(),
        ensures
            final(self).wf(),
            applied == (old(self)@.transient matches Some(p) && p.base_version
                == old(self)@.version),
            applied ==> final(self)@ == after_commit(
                old(self)@,
                old(self)@.transient->0.image,
                old(self)@.transient->0.kind,
            ),
            !applied ==> final(self)@ == (DocumentState { transient: None, ..old(self)@ }),
    {
        self.apply_transient_for(None)
    }

    /// Applies the pending preview only when it was produced by the tool of `kind`.
    pub fn apply_transient_kind(&mut self, kind: EditKind) -> (applied: bool)
        requires
            old(self).wf(),
        ensures
            final(self).wf(),
            applied == (old(self)@.transient matches Some(p) && p.kind == kind && p.base_version
                == old(self)@.version),
            applied ==> final(self)@ == after_commit(
                old(self)@,
                old(self)@.transient->0.image,
                kind,
            ),
            ({
                let s = old(self)@;
                let kind_ok = s.transient matches Some(p) && p.kind == kind;
                &&& !applied && kind_ok ==> final(self)@ == (DocumentState {
                    transient: None,
                    ..s
                })
                &&& !kind_ok ==> final(self)@ == s
            }),
    {
        self.apply_transient_for(Some(kind))
    }

    /// Applies the pending preview when its kind matches `expected_kind` (any kind for `None`).
    /// A preview of another kind stays pending; a stale preview is dropped.
    pub fn apply_transient_for(&mut self, expected_kind: Option<EditKind>) -> (applied: bool)
        requires
            old(self).wf(),
        ensures
            final(self).wf(),
            ({
                let s = old(self)@;
                let kind_ok = s.transient matches Some(p) && (expected_kind matches Some(k)
                    ==> p.kind == k);
                &&& applied == (kind_ok && s.transient->0.base_version == s.version)
                &&& applied ==> final(self)@ == after_commit(
                    s,
                    s.transient->0.image,
                    s.transient->0.kind,
                )
                &&& !applied && kind_ok ==> final(self)@ == (DocumentState {
                    transient: None,
                    ..s
                })
                &&& !kind_ok ==> final(self)@ == s
            }),
    {
        if let Some(expected) = expected_kind {
            let mismatch = match &self.transient {
                Some(preview) => preview.kind != expected,
                None => true,
            };
            if mismatch {
                return false;
            }
        }
        let taken = self.transient.take();
        match taken {
            None => false,
            Some(preview) => {
                if preview.base_version != self.version {
                    return false;
                }
                self.commit_image(preview.image, preview.kind);
                true
            },
        }
    }

    /// Drops the pending preview; reports whether there was one.
    pub fn discard_transient(&mut self) -> (discarded: bool)
        requires
            old(self).wf(),
        ensures
            final(self).wf(),
            discarded == (old(self)@.transient is Some),
            final(self)@ == (DocumentState { transient: None, ..old(self)@ }),
    {
        let taken = self.transient.take();
        taken.is_some()
    }

    /// Applies `image` as an edit computed from `base_version`; refused when that version is
    /// stale. A pending preview is dropped.
    pub fn commit(&mut self, base_version: DocumentVersion, image: Raster, kind: EditKind) -> (committed: bool)
        requires
            old(self).wf(),
            image.wf(),
        ensures
            final(self).wf(),
            committed == (base_version == old(self)@.version),
            committed ==> final(self)@ == after_commit(old(self)@, image@, kind),
            !committed ==> final(self)@ == old(self)@,
    {
        if base_version != self.version {
            return false;
        }
        self.transient = None;
        self.commit_image(image, kind);
        true
    }

    fn commit_image(&mut self, image: Raster, kind: EditKind)
        requires
            old(self).wf(),
            image.wf(),
            old(self).transient is None,
        ensures
            final(self).wf(),
            final(self)@ == after_commit(old(self)@, image@, kind),
    {
        proof {
            lemma_total_bytes_concat(entries(self.undo@), entries(self.redo@));
        }
        let bytes = self.current.pixels.len();
        let mut previous = image;
        std::mem::swap(&mut previous, &mut self.current);
        let checkpoint = Checkpoint {
            image: previous,
            kind,
            bytes,
            exported: self.current_exported,
        };
        self.current_exported = false;
        self.version = self.version.next();
        self.redo.clear();
        self.push_undo(checkpoint);
        proof {
            assert(entries(Seq::<Checkpoint>::empty()) =~= Seq::<HistoryEntry>::empty());
        }
    }

    fn push_undo(&mut self, checkpoint: Checkpoint)
        requires
            all_consistent(old(self).undo@),
            all_consistent(old(self).redo@),
            old(self).redo@.len() == 0,
            old(self).history_bytes as nat >= total_bytes(entries(old(self).undo@)),
            total_bytes(entries(old(self).undo@)) <= usize::MAX,
            checkpoint.consistent(),
        ensures
            all_consistent(final(self).undo@),
            all_consistent(final(self).redo@),
            (entries(final(self).undo@), entries(final(self).redo@)) == trimmed(
                entries(old(self).undo@).push(checkpoint.entry()),
                Seq::empty(),
                old(self).history_budget_bytes as nat,
            ),
            final(self).history_bytes as nat == total_bytes(
                entries(final(self).undo@) + entries(final(self).redo@),
            ),
            final(self).history_bytes <= final(self).history_budget_bytes,
            final(self).history_budget_bytes == old(self).history_budget_bytes,
            final(self).original == old(self).original,
            final(self).current == old(self).current,
            final(self).version == old(self).version,
            final(self).current_exported == old(self).current_exported,
            final(self).transient == old(self).transient,
    {
        let undo_total = stack_bytes(&self.undo);
        let added = checkpoint.bytes;
        let ghost before = self.undo@;
        self.undo.push(checkpoint);
        proof {
            lemma_entries_push(before, checkpoint);
            lemma_total_bytes_push(entries(before), checkpoint.entry());
            assert(entries(self.redo@) =~= Seq::<HistoryEntry>::empty());
            assert(entries(self.undo@) + entries(self.redo@) =~= entries(self.undo@));
            assert forall|i: int| 0 <= i < self.undo@.len() implies (
            #[trigger] self.undo@[i]).consistent() by {
                if i < before.len() {
                    assert(self.undo@[i] == before[i]);
                }
            }
        }
        let total = undo_total as u128 + added as u128;
        self.trim_history(total);
    }

    fn trim_history(&mut self, total: u128)
        requires
            all_consistent(old(self).undo@),
            all_consistent(old(self).redo@),
            total == total_bytes(entries(old(self).undo@) + entries(old(self).redo@)),
        ensures
            all_consistent(final(self).undo@),
            all_consistent(final(self).redo@),
            (entries(final(self).undo@), entries(final(self).redo@)) == trimmed(
                entries(old(self).undo@),
                entries(old(self).redo@),
                old(self).history_budget_bytes as nat,
            ),
            final(self).history_bytes as nat == total_bytes(
                entries(final(self).undo@) + entries(final(self).redo@),
            ),
            final(self).history_bytes <= final(self).history_budget_bytes,
            final(self).history_budget_bytes == old(self).history_budget_bytes,
            final(self).original == old(self).original,
            final(self).current == old(self).current,
            final(self).version == old(self).version,
            final(self).current_exported == old(self).current_exported,
            final(self).transient == old(self).transient,
    {
        let budget = self.history_budget_bytes;
        let remaining = trim(&mut self.undo, &mut self.redo, total, budget);
        self.history_bytes = remaining;
    }

    /// Returns to the image before the most recent edit; false (nothing changes) when there
    /// is none.
    pub fn undo(&mut self) -> (changed: bool)
        requires
            old(self).wf(),
        ensures
            final(self).wf(),
            changed == (old(self)@.undo.len() > 0),
            changed ==> final(self)@ == after_undo(old(self)@),
            !changed ==> final(self)@ == old(self)@,
    {
        if self.undo.len() == 0 {
            return false;
        }
        let ghost s = self@;
        let ghost before_undo = self.undo@;
        let ghost before_redo = self.redo@;
        proof {
            lemma_entries_drop_last(before_undo);
            lemma_total_bytes_concat(entries(before_undo), entries(before_redo));
            lemma_total_bytes_drop_last(entries(before_undo));
        }
        let checkpoint = self.undo.pop().unwrap();
        self.transient = None;
        let bytes = self.current.pixels.len();
        let mut image = checkpoint.image;
        std::mem::swap(&mut image, &mut self.current);
        let pushed = Checkpoint { image, kind: checkpoint.kind, bytes, exported: self.current_exported };
        self.redo.push(pushed);
        self.current_exported = checkpoint.exported;
        self.version = self.version.next();
        proof {
            assert(before_undo.last().consistent());
            lemma_entries_push(before_redo, pushed);
            lemma_total_bytes_push(entries(before_redo), pushed.entry());
            lemma_total_bytes_concat(entries(self.undo@), entries(self.redo@));
            assert forall|i: int| 0 <= i < self.redo@.len() implies (
            #[trigger] self.redo@[i]).consistent() by {
                if i < before_redo.len() {
                    assert(self.redo@[i] == before_redo[i]);
                }
            }
            assert forall|i: int| 0 <= i < self.undo@.len() implies (
            #[trigger] self.undo@[i]).consistent() by {
                assert(self.undo@[i] == before_undo[i]);
            }
        }
        let total = self.history_bytes as u128 - checkpoint.bytes as u128 + bytes as u128;
        self.trim_history(total);
        true
    }

    /// Re-applies the most recently undone edit; false (nothing changes) when there is none.
    pub fn redo(&mut self) -> (changed: bool)
        requires
            old(self).wf(),
        ensures
            final(self).wf(),
            changed == (old(self)@.redo.len() > 0),
            changed ==> final(self)@ == after_redo(old(self)@),
            !changed ==> final(self)@ == old(self)@,
    {
        if self.redo.len() == 0 {
            return false;
        }
        let ghost before_undo = self.undo@;
        let ghost before_redo = self.redo@;
        proof {
            lemma_entries_drop_last(before_redo);
            lemma_total_bytes_concat(entries(before_undo), entries(before_redo));
            lemma_total_bytes_drop_last(entries(before_redo));
        }
        let checkpoint = self.redo.pop().unwrap();
        self.transient = None;
        let bytes = self.current.pixels.len();
        let mut image = checkpoint.image;
        std::mem::swap(&mut image, &mut self.current);
        let pushed = Checkpoint { image, kind: checkpoint.kind, bytes, exported: self.current_exported };
        self.undo.push(pushed);
        self.current_exported = checkpoint.exported;
        self.version = self.version.next();
        proof {
            assert(before_redo.last().consistent());
            lemma_entries_push(before_undo, pushed);
            lemma_total_bytes_push(entries(before_undo), pushed.entry());
            lemma_total_bytes_concat(entries(self.undo@), entries(self.redo@));
            assert forall|i: int| 0 <= i < self.undo@.len() implies (
            #[trigger] self.undo@[i]).consistent() by {
                if i < before_undo.len() {
                    assert(self.undo@[i] == before_undo[i]);
                }
            }
            assert forall|i: int| 0 <= i < self.redo@.len() implies (
            #[trigger] self.redo@[i]).consistent() by {
                assert(self.redo@[i] == before_redo[i]);
            }
        }
        let total = self.history_bytes as u128 - checkpoint.bytes as u128 + bytes as u128;
        self.trim_history(total);
        true
    }

    /// Whether an edit can be undone.
    pub fn can_undo(&self) -> (can: bool)
        ensures
            can == (self@.undo.len() > 0),
    {
        self.undo.len() > 0
    }

    /// Whether an undone edit can be re-applied.
    pub fn can_redo(&self) -> (can: bool)
        ensures
            can == (self@.redo.len() > 0),
    {
        self.redo.len() > 0
    }

    /// Number of edits that can be undone.
    pub fn undo_steps(&self) -> (n: usize)
        ensures
            n == self@.undo.len(),
    {
        self.undo.len()
    }

    /// Number of undone edits that can be re-applied.
    pub fn redo_steps(&self) -> (n: usize)
        ensures
            n == self@.redo.len(),
    {
        self.redo.len()
    }

    /// Whether a preview is pending.
    pub fn has_transient(&self) -> (pending: bool)
        ensures
            pending == (self@.transient is Some),
    {
        self.transient.is_some()
    }

    /// The kind of the pending preview.
    pub fn transient_kind(&self) -> (kind: Option<EditKind>)
        ensures
            kind == (match self@.transient {
                Some(p) => Some(p.kind),
                None => None,
            }),
    {
        match &self.transient {
            Some(preview) => Some(preview.kind),
            None => None,
        }
    }

    /// Whether the applied image has changes that were not exported.
    pub fn is_dirty(&self) -> (dirty: bool)
        ensures
            dirty == !self@.exported,
    {
        !self.current_exported
    }

    /// Bytes currently held by the undo and redo stacks.
    pub fn history_bytes(&self) -> (bytes: usize)
        requires
            self.wf(),
        ensures
            bytes as nat == total_bytes(self@.undo + self@.redo),
            bytes as nat <= self@.budget,
    {
        self.history_bytes
    }

    /// Records that the image of `version` was exported; refused for any other version.
    pub fn mark_exported(&mut self, version: DocumentVersion) -> (marked: bool)
        requires
            old(self).wf(),
        ensures
            final(self).wf(),
            marked == (version == old(self)@.version),
            marked ==> final(self)@ == (DocumentState { exported: true, ..old(self)@ }),
            !marked ==> final(self)@ == old(self)@,
    {
        if version != self.version {
            return false;
        }
        self.current_exported = true;
        true
    }
}

/// Every applied change, undo and redo leaves the history within the byte budget.
pub proof fn law_history_fits_budget(s: DocumentState, image: RasterView, kind: EditKind)
    ensures
        total_bytes(after_commit(s, image, kind).undo + after_commit(s, image, kind).redo)
            <= s.budget,
        s.undo.len() > 0 ==> total_bytes(after_undo(s).undo + after_undo(s).redo) <= s.budget,
        s.redo.len() > 0 ==> total_bytes(after_redo(s).undo + after_redo(s).redo) <= s.budget,
{
    let entry = HistoryEntry { image: s.current, kind, exported: s.exported };
    lemma_trimmed_within_budget(s.undo.push(entry), Seq::empty(), s.budget);
    if s.undo.len() > 0 {
        let e = HistoryEntry { image: s.current, kind: s.undo.last().kind, exported: s.exported };
        lemma_trimmed_within_budget(s.undo.drop_last(), s.redo.push(e), s.budget);
    }
    if s.redo.len() > 0 {
        let e = HistoryEntry { image: s.current, kind: s.redo.last().kind, exported: s.exported };
        lemma_trimmed_within_budget(s.undo.push(e), s.redo.drop_last(), s.budget);
    }
}

/// Each applied change gives the document a version it never had just before, so a preview or
/// edit computed from the earlier version is refused afterwards.
pub proof fn law_new_version_differs(version: DocumentVersion)
    ensures
        version.spec_next() != version,
        version.spec_next().document_id == version.document_id,
{
}

proof fn lemma_swap_keeps_total(undo: Seq<HistoryEntry>, redo: Seq<HistoryEntry>, a: HistoryEntry, b: HistoryEntry)
    requires
        undo.len() > 0,
        entry_bytes(undo.last()) == entry_bytes(a),
    ensures
        total_bytes(undo.drop_last() + redo.push(b)) + entry_bytes(a) == total_bytes(undo + redo)
            + entry_bytes(b),
{
    lemma_total_bytes_concat(undo.drop_last(), redo.push(b));
    lemma_total_bytes_push(redo, b);
    lemma_total_bytes_concat(undo, redo);
    lemma_total_bytes_drop_last(undo);
}

/// Undo followed by redo restores the applied image, its export state and both stacks, when
/// neither step had to evict history to stay within the budget.
pub proof fn law_undo_then_redo_restores(s: DocumentState)
    requires
        s.undo.len() > 0,
        total_bytes(s.undo + s.redo) <= s.budget,
        total_bytes(s.undo.drop_last() + s.redo.push(
            HistoryEntry { image: s.current, kind: s.undo.last().kind, exported: s.exported },
        )) <= s.budget,
    ensures
        after_redo(after_undo(s)).current == s.current,
        after_redo(after_undo(s)).exported == s.exported,
        after_redo(after_undo(s)).undo == s.undo,
        after_redo(after_undo(s)).redo == s.redo,
        after_redo(after_undo(s)).transient is None,
{
    let e = HistoryEntry { image: s.current, kind: s.undo.last().kind, exported: s.exported };
    let u = after_undo(s);
    assert(u.undo == s.undo.drop_last());
    assert(u.redo == s.redo.push(e));
    assert(u.redo.last() == e);
    assert(u.redo.drop_last() =~= s.redo);
    let back = HistoryEntry { image: u.current, kind: e.kind, exported: u.exported };
    assert(back == s.undo.last());
    assert(u.undo.push(back) =~= s.undo);
}

/// Redo followed by undo restores the applied image, its export state and both stacks, when
/// neither step had to evict history to stay within the budget.
pub proof fn law_redo_then_undo_restores(s: DocumentState)
    requires
        s.redo.len() > 0,
        total_bytes(s.undo + s.redo) <= s.budget,
        total_bytes(s.undo.push(
            HistoryEntry { image: s.current, kind: s.redo.last().kind, exported: s.exported },
        ) + s.redo.drop_last()) <= s.budget,
    ensures
        after_undo(after_redo(s)).current == s.current,
        after_undo(after_redo(s)).exported == s.exported,
        after_undo(after_redo(s)).undo == s.undo,
        after_undo(after_redo(s)).redo == s.redo,
        after_undo(after_redo(s)).transient is None,
{
    let e = HistoryEntry { image: s.current, kind: s.redo.last().kind, exported: s.exported };
    let r = after_redo(s);
    assert(r.undo == s.undo.push(e));
    assert(r.redo == s.redo.drop_last());
    assert(r.undo.last() == e);
    assert(r.undo.drop_last() =~= s.undo);
    let back = HistoryEntry { image: r.current, kind: e.kind, exported: r.exported };
    assert(back == s.redo.last());
    assert(r.redo.push(back) =~= s.redo);
    lemma_total_bytes_concat(s.undo, s.redo);
    lemma_total_bytes_concat(s.undo.push(e), s.redo.drop_last());
    lemma_total_bytes_push(s.undo, e);
    lemma_total_bytes_drop_last(s.redo);
    lemma_total_bytes_concat(r.undo.drop_last(), r.redo.push(back));
    lemma_total_bytes_push(r.redo, back);
}

/// Undoing an edit right after applying it restores the previous image and export state, and
/// the history below it, when the edit did not evict history.
pub proof fn law_commit_then_undo_restores(s: DocumentState, image: RasterView, kind: EditKind)
    requires
        total_bytes(s.undo.push(HistoryEntry { image: s.current, kind, exported: s.exported }))
            <= s.budget,
        total_bytes(s.undo.push(HistoryEntry { image, kind, exported: false })) <= s.budget,
    ensures
        after_undo(after_commit(s, image, kind)).current == s.current,
        after_undo(after_commit(s, image, kind)).exported == s.exported,
        after_undo(after_commit(s, image, kind)).undo == s.undo,
        after_undo(after_commit(s, image, kind)).redo == seq![
            HistoryEntry { image, kind, exported: false },
        ],
        after_undo(after_commit(s, image, kind)).transient is None,
{
    let e = HistoryEntry { image: s.current, kind, exported: s.exported };
    let c = after_commit(s, image, kind);
    assert(s.undo.push(e) + Seq::<HistoryEntry>::empty() =~= s.undo.push(e));
    assert(c.undo == s.undo.push(e));
    assert(c.redo == Seq::<HistoryEntry>::empty());
    assert(c.undo.drop_last() =~= s.undo);
    let r = HistoryEntry { image, kind, exported: false };
    assert(c.redo.push(r) =~= seq![r]);
    lemma_total_bytes_push(s.undo, e);
    assert(s.undo + seq![r] =~= s.undo.push(r));
    lemma_total_bytes_push(Seq::<HistoryEntry>::empty(), r);
    lemma_total_bytes_concat(s.undo.push(e), Seq::<HistoryEntry>::empty());
    assert(Seq::<HistoryEntry>::empty().push(r) =~= seq![r]);
    assert(total_bytes(Seq::<HistoryEntry>::empty()) == 0);
}

} // verus!
