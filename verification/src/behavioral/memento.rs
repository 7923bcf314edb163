//! Memento: a text editor saves snapshots of its state and restores them
//! later without exposing how that state is laid out.

use vstd::prelude::*;
use vstd::string::StringExecFns;

verus! {

type EditorColor = (u8, u8, u8, u8);

pub struct Editor {
    pub text: String,
    pub font: String,
    pub color: EditorColor,
}

/// A saved state that can put an editor back the way it was.
pub trait Snapshot {
    spec fn saved_text(&self) -> Seq<char>;

    spec fn saved_font(&self) -> Seq<char>;

    spec fn saved_color(&self) -> EditorColor;

    fn restore(&self, editor: &mut Editor)
        ensures
            final(editor).text@ == self.saved_text(),
            final(editor).font@ == self.saved_font(),
            final(editor).color == self.saved_color(),
    ;
}

impl Editor {
    /// A fresh editor: no text, the default font, opaque black.
    pub fn new() -> (r: Editor)
        ensures
            r.text@ == Seq::<char>::empty(),
            r.font@ == "Times New Roman"@,
            r.color == (0u8, 0u8, 0u8, 255u8),
    {
        Editor {
            text: String::new(),
            font: String::from_str("Times New Roman"),
            color: (0, 0, 0, 255),
        }
    }

    pub fn set_text(&mut self, text: String)
        ensures
            final(self).text@ == text@,
            final(self).font == old(self).font,
            final(self).color == old(self).color,
    {
        self.text = text;
    }

    /// Captures the current state under the fixed snapshot name.
    pub fn save_state(&self) -> (r: EditorSnapshot)
        ensures
            r.name@ == "SAVE-STATE"@,
            r.text@ == self.text@,
            r.font@ == self.font@,
            r.color == self.color,
    {
        EditorSnapshot::new(
            String::from_str("SAVE-STATE"),
            self.text.clone(),
            self.font.clone(),
            self.color,
        )
    }
}

pub struct EditorSnapshot {
    pub name: String,
    pub text: String,
    pub font: String,
    pub color: (u8, u8, u8, u8),
}

/// The mathematical image of a snapshot.
pub struct SnapshotView {
    pub name: Seq<char>,
    pub text: Seq<char>,
    pub font: Seq<char>,
    pub color: (u8, u8, u8, u8),
}

impl View for EditorSnapshot {
    type V = SnapshotView;

    open spec fn view(&self) -> SnapshotView {
        SnapshotView { name: self.name@, text: self.text@, font: self.font@, color: self.color }
    }
}

impl EditorSnapshot {
    pub fn new(name: String, text: String, font: String, color: EditorColor) -> (r: EditorSnapshot)
        ensures
            r.name == name,
            r.text == text,
            r.font == font,
            r.color == color,
    {
        EditorSnapshot { name, text, font, color }
    }
}

impl Snapshot for EditorSnapshot {
    open spec fn saved_text(&self) -> Seq<char> {
        self.text@
    }

    open spec fn saved_font(&self) -> Seq<char> {
        self.font@
    }

    open spec fn saved_color(&self) -> EditorColor {
        self.color
    }

    fn restore(&self, editor: &mut Editor) {
        editor.text = self.text.clone();
        editor.font = self.font.clone();
        editor.color = self.color;
    }
}

/// Keeps every snapshot ever saved, retrievable by name.
pub struct SnapshotManager {
    snapshots: Vec<EditorSnapshot>,
}

impl View for SnapshotManager {
    type V = Seq<SnapshotView>;

    closed spec fn view(&self) -> Seq<SnapshotView> {
        self.snapshots@.map_values(|s: EditorSnapshot| s@)
    }
}

impl SnapshotManager {
    pub fn new() -> (r: SnapshotManager)
        ensures
            r@ == Seq::<SnapshotView>::empty(),
    {
        SnapshotManager { snapshots: Vec::new() }
    }

    /// The first snapshot saved under the given name, if any.
    pub fn get_snapshot(&self, name: String) -> (r: Option<&EditorSnapshot>)
        ensures
            r is Some <==> exists|i: int| 0 <= i < self@.len() && #[trigger] self@[i].name
                == name@,
            r matches Some(s) ==> exists|i: int|
                {
                    &&& 0 <= i < self@.len()
                    &&& #[trigger] self@[i].name == name@
                    &&& s@ == self@[i]
                    &&& forall|j: int| 0 <= j < i ==> self@[j].name != name@
                },
    {
        let n = self.snapshots.len();
        let mut i: usize = 0;
        while i < n
            invariant
                n == self@.len(),
                i <= n,
                forall|j: int| 0 <= j < i ==> self@[j].name != name@,
            decreases n - i,
        {
            proof {
                assert(self@[i as int] == self.snapshots@[i as int]@);
            }
            if self.snapshots[i].name == name {
                proof {
                    assert(self@[i as int].name == name@);
                }
                return Some(&self.snapshots[i]);
            }
            i = i + 1;
        }
        None
    }

    /// Appends a snapshot; everything saved before stays where it was.
    pub fn save_snapshot(&mut self, snapshot: EditorSnapshot)
        ensures
            final(self)@ == old(self)@.push(snapshot@),
    {
        self.snapshots.push(snapshot);
        proof {
            assert(self@ =~= old(self)@.push(snapshot@));
        }
    }
}

} // verus!
