//! The fixed catalog of allowed branch prefixes: four
//! conventional-commit-style codes, each with a human-readable label.
//! Order matters: it is the display order, and the first entry is the
//! default selection.

use vstd::prelude::*;

verus! {

/// How many prefixes the catalog holds.
pub const PREFIX_COUNT: usize = 4;

/// The code of the catalog entry at `i`.
pub open spec fn prefix_code_spec(i: int) -> Seq<char> {
    if i == 0 {
        "feat"@
    } else if i == 1 {
        "fix"@
    } else if i == 2 {
        "refactor"@
    } else {
        "chore"@
    }
}

/// The label of the catalog entry at `i`.
pub open spec fn prefix_label_spec(i: int) -> Seq<char> {
    if i == 0 {
        "新機能追加"@
    } else if i == 1 {
        "バグ修正"@
    } else if i == 2 {
        "コード修正"@
    } else {
        "それ以外"@
    }
}

/// Mathematical model of a catalog entry.
pub ghost struct PrefixEntryView {
    pub code: Seq<char>,
    pub label: Seq<char>,
}

/// One catalog entry: a branch-name prefix and its label.
pub struct PrefixEntry {
    pub code: String,
    pub label: String,
}

impl View for PrefixEntry {
    type V = PrefixEntryView;

    open spec fn view(&self) -> PrefixEntryView {
        PrefixEntryView { code: self.code@, label: self.label@ }
    }
}

impl PrefixEntry {
    /// The line shown for this entry in the selection menu:
    /// the code, a separating `: `, and the label.
    pub fn display_label(&self) -> (r: String)
        ensures
            r@ == self.code@ + ": "@ + self.label@,
    {
        let mut s = self.code.clone();
        s.append(": ");
        s.append(self.label.as_str());
        proof {
            assert(s@ =~= self.code@ + ": "@ + self.label@);
        }
        s
    }
}

/// The code of the catalog entry at `index`.
pub fn prefix_code(index: usize) -> (r: String)
    requires
        index < PREFIX_COUNT,
    ensures
        r@ == prefix_code_spec(index as int),
{
    if index == 0 {
        String::from_str("feat")
    } else if index == 1 {
        String::from_str("fix")
    } else if index == 2 {
        String::from_str("refactor")
    } else {
        String::from_str("chore")
    }
}

/// The whole catalog, in display order.
pub fn prefix_entries() -> (v: Vec<PrefixEntry>)
    ensures
        v@.len() == PREFIX_COUNT,
        forall|i: int|
            0 <= i < PREFIX_COUNT ==> (#[trigger] v@[i])@.code == prefix_code_spec(i)
                && v@[i]@.label == prefix_label_spec(i),
{
    let mut v: Vec<PrefixEntry> = Vec::new();
    v.push(
        PrefixEntry { code: String::from_str("feat"), label: String::from_str("新機能追加") },
    );
    v.push(PrefixEntry { code: String::from_str("fix"), label: String::from_str("バグ修正") });
    v.push(
        PrefixEntry { code: String::from_str("refactor"), label: String::from_str("コード修正") },
    );
    v.push(PrefixEntry { code: String::from_str("chore"), label: String::from_str("それ以外") });
    v
}

} // verus!
