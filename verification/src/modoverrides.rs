//! The mod override file.
//!
//! The file lists the enabled mods, one section per mod. Two shapes of line
//! matter: an assignment `Workshop...=<id>`, which names a mod, and a section
//! header `[...]`, which enables the mod named last. All else is skipped.

use crate::error::DstError;
use crate::text::clean_lines;
use crate::text::clean_lines_of;
use crate::text::find_char;
use crate::text::first_index_of;
use crate::text::string_of;
use crate::text::to_chars;
use crate::text::trim;
use crate::text::trim_bounds;
use vstd::prelude::*;

verus! {

/// What one line of the mod override file says.
#[derive(Debug, Clone, PartialEq, Eq)]
pub enum OverrideLine {
    /// The line names the mod with this identifier.
    Assignment(String),
    /// The line opens a section.
    Section,
    /// The line says nothing about which mods are enabled.
    Other,
}

/// An `OverrideLine` with its identifier as a sequence of characters.
pub enum OverrideLineView {
    Assignment(Seq<char>),
    Section,
    Other,
}

impl View for OverrideLine {
    type V = OverrideLineView;

    open spec fn view(&self) -> OverrideLineView {
        match self {
            OverrideLine::Assignment(id) => OverrideLineView::Assignment(id@),
            OverrideLine::Section => OverrideLineView::Section,
            OverrideLine::Other => OverrideLineView::Other,
        }
    }
}

/// `s` without one double quote at its front and one at its back, each
/// taken off only where it is there.
pub open spec fn unquote(s: Seq<char>) -> Seq<char> {
    let t = if s.len() > 0 && s.first() == '"' {
        s.drop_first()
    } else {
        s
    };
    if t.len() > 0 && t.last() == '"' {
        t.drop_last()
    } else {
        t
    }
}

/// The line holds a `=`.
pub open spec fn has_value(line: Seq<char>) -> bool {
    first_index_of(line, '=') < line.len()
}

/// The identifier that an assignment gives: what follows the first `=`,
/// trimmed, then unquoted.
pub open spec fn assigned_id(line: Seq<char>) -> Seq<char> {
    unquote(trim(line.skip(first_index_of(line, '=') as int + 1)))
}

/// What a line says. A line that starts with `Workshop` is an assignment,
/// and malformed if it has no `=`; a line that starts with `[` is a section
/// header.
pub open spec fn override_line(line: Seq<char>) -> Result<OverrideLineView, DstError> {
    if "Workshop"@.is_prefix_of(line) {
        if has_value(line) {
            Ok(OverrideLineView::Assignment(assigned_id(line)))
        } else {
            Err(DstError::MalformedOverrideLine)
        }
    } else if line.len() > 0 && line.first() == '[' {
        Ok(OverrideLineView::Section)
    } else {
        Ok(OverrideLineView::Other)
    }
}

/// How far a scan of the file has come: the mods enabled so far, and the
/// mod that was named last and is not yet enabled (empty for none).
pub struct ModScan {
    pub mods: Seq<Seq<char>>,
    pub pending: Seq<char>,
}

/// The scan after one more line. An assignment names a mod and forgets the
/// one named before. A section header enables the mod that is named, if one
/// is. A malformed line changes nothing, nor does any other.
pub open spec fn scan_step(st: ModScan, line: Seq<char>) -> ModScan {
    match override_line(line) {
        Ok(OverrideLineView::Assignment(id)) => ModScan { mods: st.mods, pending: id },
        Ok(OverrideLineView::Section) => if st.pending.len() > 0 {
            ModScan { mods: st.mods.push(st.pending), pending: Seq::empty() }
        } else {
            st
        },
        _ => st,
    }
}

/// The scan after all of `lines`, top to bottom.
pub open spec fn scan(lines: Seq<Seq<char>>) -> ModScan
    decreases lines.len(),
{
    if lines.len() == 0 {
        ModScan { mods: Seq::empty(), pending: Seq::empty() }
    } else {
        scan_step(scan(lines.drop_last()), lines.last())
    }
}

/// The identifiers of the mods that the text of a mod override file
/// enables, in the order of the file. A mod that is named after the last
/// section header is not among them.
pub open spec fn mod_ids(text: Seq<char>) -> Seq<Seq<char>> {
    scan(clean_lines(text)).mods
}

/// Tells whether `chars` starts with `prefix`.
pub fn starts_with(chars: &[char], prefix: &str) -> (r: bool)
    ensures
        r == prefix@.is_prefix_of(chars@),
{
    let want = to_chars(prefix);
    if want.len() > chars.len() {
        return false;
    }
    let mut i: usize = 0;
    while i < want.len()
        invariant
            i <= want@.len() <= chars@.len(),
            want@ == prefix@,
            forall|j: int| 0 <= j < i ==> want@[j] == chars@[j],
        decreases want.len() - i,
    {
        if want[i] != chars[i] {
            assert(chars@.subrange(0, want@.len() as int) != want@);
            return false;
        }
        i += 1;
    }
    true
}

/// Reads one line of the mod override file.
pub fn parse_override_line(line: &str) -> (r: Result<OverrideLine, DstError>)
    ensures
        r matches Ok(l) ==> override_line(line@) == Ok::<OverrideLineView, DstError>(l@),
        r matches Err(e) ==> override_line(line@) == Err::<OverrideLineView, DstError>(e),
{
    let chars = to_chars(line);
    let len = chars.len();
    assert(chars@.subrange(0, len as int) == chars@);
    if starts_with(chars.as_slice(), "Workshop") {
        let eq = find_char(chars.as_slice(), 0, len, '=');
        if eq == len {
            return Err(DstError::MalformedOverrideLine);
        }
        let (a, b) = trim_bounds(chars.as_slice(), eq + 1, len);
        let ghost value = chars@.subrange(a as int, b as int);
        let from: usize = if a < b && chars[a] == '"' {
            a + 1
        } else {
            a
        };
        let to: usize = if from < b && chars[b - 1] == '"' {
            b - 1
        } else {
            b
        };
        assert(chars@.subrange(from as int, to as int) == unquote(value));
        let id = string_of(chars.as_slice(), from, to);
        Ok(OverrideLine::Assignment(id))
    } else if len > 0 && chars[0] == '[' {
        Ok(OverrideLine::Section)
    } else {
        Ok(OverrideLine::Other)
    }
}

/// The mods that `lines` enable when scanned top to bottom.
pub fn scan_mod_lines(lines: &[String]) -> (mods: Vec<String>)
    ensures
        mods.deep_view() == scan(lines.deep_view()).mods,
{
    let mut mods: Vec<String> = Vec::new();
    let mut pending = String::new();
    let mut i: usize = 0;
    while i < lines.len()
        invariant
            i <= lines@.len(),
            mods.deep_view() == scan(lines.deep_view().take(i as int)).mods,
            pending@ == scan(lines.deep_view().take(i as int)).pending,
        decreases lines.len() - i,
    {
        assert(lines.deep_view().take(i + 1).drop_last() == lines.deep_view().take(i as int));
        match parse_override_line(lines[i].as_str()) {
            Ok(OverrideLine::Assignment(id)) => {
                pending = id;
            },
            Ok(OverrideLine::Section) => {
                if !pending.as_str().is_empty() {
                    mods.push(pending);
                    pending = String::new();
                }
            },
            _ => {},
        }
        i += 1;
    }
    assert(lines.deep_view().take(i as int) == lines.deep_view());
    mods
}

/// The identifiers of the mods that the text of a mod override file
/// enables.
pub fn mod_ids_of(text: &str) -> (mods: Vec<String>)
    ensures
        mods.deep_view() == mod_ids(text@),
{
    let lines = clean_lines_of(text);
    scan_mod_lines(lines.as_slice())
}

/// Only a section header enables a mod: after any other line, a malformed
/// one too, the enabled mods are those of before. So a mod that is named
/// after the last section header is never enabled.
pub proof fn lemma_only_sections_enable(lines: Seq<Seq<char>>, line: Seq<char>)
    requires
        override_line(line) != Ok::<OverrideLineView, DstError>(OverrideLineView::Section),
    ensures
        scan(lines.push(line)).mods == scan(lines).mods,
{
    assert(lines.push(line).drop_last() == lines);
}

/// A malformed line is passed over: the scan stands after it as before.
pub proof fn lemma_malformed_is_skipped(lines: Seq<Seq<char>>, line: Seq<char>)
    requires
        override_line(line) is Err,
    ensures
        scan(lines.push(line)) == scan(lines),
{
    assert(lines.push(line).drop_last() == lines);
}

/// No enabled mod has an empty identifier.
pub proof fn lemma_enabled_are_named(lines: Seq<Seq<char>>)
    ensures
        forall|i: int|
            0 <= i < scan(lines).mods.len() ==> (#[trigger] scan(lines).mods[i]).len() > 0,
    decreases lines.len(),
{
    if lines.len() > 0 {
        let before = scan(lines.drop_last());
        lemma_enabled_are_named(lines.drop_last());
        assert forall|i: int| 0 <= i < scan(lines).mods.len() implies (#[trigger] scan(
            lines,
        ).mods[i]).len() > 0 by {
            if i < before.mods.len() {
                assert(scan(lines).mods[i] == before.mods[i]);
            }
        }
    }
}

} // verus!
