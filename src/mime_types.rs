use vstd::prelude::*;

use crate::text::same_text;

verus! {

/// The kinds of note files the application opens.
#[derive(PartialEq, Eq, Structural, Clone, Copy, Debug)]
pub enum ExtensionType {
    Text,
    Markdown,
}

/// The extensions of plain-text notes.
pub open spec fn text_extensions() -> Seq<&'static str> {
    seq!["text", "txt"]
}

/// The extensions of Markdown notes.
pub open spec fn markdown_extensions() -> Seq<&'static str> {
    seq!["markdown", "md", "mdown", "mdtext", "mdtxt", "mdwn", "mkd", "mkdn"]
}

/// Whether `ext` is one of `list`.
pub open spec fn listed(list: Seq<&'static str>, ext: Seq<char>) -> bool {
    exists|i: int| 0 <= i < list.len() && list[i]@ == ext
}

/// The kind of an extension: text wins over Markdown should both list it.
pub open spec fn kind_of(ext: Seq<char>) -> Option<ExtensionType> {
    if listed(text_extensions(), ext) {
        Some(ExtensionType::Text)
    } else if listed(markdown_extensions(), ext) {
        Some(ExtensionType::Markdown)
    } else {
        None
    }
}

fn text_list() -> (r: Vec<&'static str>)
    ensures
        r@ == text_extensions(),
{
    let r = vec!["text", "txt"];
    proof {
        assert(r@ =~= text_extensions());
    }
    r
}

fn markdown_list() -> (r: Vec<&'static str>)
    ensures
        r@ == markdown_extensions(),
{
    let r = vec!["markdown", "md", "mdown", "mdtext", "mdtxt", "mdwn", "mkd", "mkdn"];
    proof {
        assert(r@ =~= markdown_extensions());
    }
    r
}

fn is_listed(list: &Vec<&'static str>, ext: &str) -> (r: bool)
    ensures
        r == listed(list@, ext@),
{
    let mut i: usize = 0;
    while i < list.len()
        invariant
            i <= list@.len(),
            forall|k: int| 0 <= k < i ==> list@[k]@ != ext@,
        decreases list@.len() - i,
    {
        if same_text(list[i], ext) {
            return true;
        }
        i = i + 1;
    }
    false
}

/// The kind of note an extension (without its dot) marks, if any.
pub fn extension_type(extension: &str) -> (r: Option<ExtensionType>)
    ensures
        r == kind_of(extension@),
{
    if is_listed(&text_list(), extension) {
        Some(ExtensionType::Text)
    } else if is_listed(&markdown_list(), extension) {
        Some(ExtensionType::Markdown)
    } else {
        None
    }
}

/// Whether files with this extension are notes.
pub fn is_extension_supported(extension: &str) -> (r: bool)
    ensures
        r == (kind_of(extension@) is Some),
{
    extension_type(extension).is_some()
}

/// The code the host application uses for an extension kind; zero stands
/// for an unsupported extension.
pub fn extension_code(kind: Option<ExtensionType>) -> (r: u8)
    ensures
        kind is None <==> r == 0,
        kind == Some(ExtensionType::Text) <==> r == 1,
        kind == Some(ExtensionType::Markdown) <==> r == 2,
{
    match kind {
        None => 0,
        Some(ExtensionType::Text) => 1,
        Some(ExtensionType::Markdown) => 2,
    }
}


/// Position `i` holds the last dot of `s`.
pub open spec fn last_dot(s: Seq<char>, i: int) -> bool {
    0 <= i < s.len() && s[i] == '.' && forall|j: int| i < j < s.len() ==> s[j] != '.'
}

/// The extension of a file name: what follows its last dot, when that dot
/// is not the name's first character; the name `..` has none.
pub open spec fn extension_of(name: Seq<char>) -> Option<Seq<char>> {
    if name =~= seq!['.', '.'] {
        None
    } else if exists|i: int| last_dot(name, i) && i > 0 {
        let i = choose|i: int| last_dot(name, i) && i > 0;
        Some(name.subrange(i + 1, name.len() as int))
    } else {
        None
    }
}

/// The extension of a file name.
pub fn file_extension(name: &str) -> (r: Option<String>)
    ensures
        r is None <==> extension_of(name@) is None,
        r matches Some(e) ==> extension_of(name@) == Some(e@),
{
    let n = name.unicode_len();
    if n == 2 && name.get_char(0) == '.' && name.get_char(1) == '.' {
        assert(name@ =~= seq!['.', '.']);
        return None;
    }
    assert(!(name@ =~= seq!['.', '.'])) by {
        if name@ =~= seq!['.', '.'] {
            assert(name@[0] == '.' && name@[1] == '.');
        }
    }
    let mut i: usize = n;
    while i > 0
        invariant
            n == name@.len(),
            i <= n,
            !(name@ =~= seq!['.', '.']),
            forall|j: int| i <= j < n ==> name@[j] != '.',
        decreases i,
    {
        if name.get_char(i - 1) == '.' {
            let k = i - 1;
            assert(last_dot(name@, k as int));
            if k == 0 {
                assert forall|j: int| !(last_dot(name@, j) && j > 0) by {
                    if last_dot(name@, j) && j > 0 {
                        assert(name@[j] == '.');
                    }
                }
                return None;
            }
            assert forall|j: int| last_dot(name@, j) && j > 0 implies j == k by {
                if j < k {
                    assert(name@[k as int] == '.');
                } else if j > k {
                    assert(name@[j] == '.');
                }
            }
            let ghost w = choose|j: int| last_dot(name@, j) && j > 0;
            assert(last_dot(name@, k as int) && k > 0);
            assert(w == k);
            let ext = name.substring_char(i, n);
            let r = String::from_str(ext);
            assert(extension_of(name@) == Some(r@));
            return Some(r);
        }
        i = i - 1;
    }
    assert forall|j: int| !(last_dot(name@, j) && j > 0) by {
        if last_dot(name@, j) {
            assert(name@[j] == '.');
        }
    }
    None
}

/// Whether a file holds a note, judged by its extension.
pub open spec fn is_note_name(name: Seq<char>) -> bool {
    match extension_of(name) {
        Some(e) => kind_of(e) is Some,
        None => false,
    }
}

/// Whether a file name marks a note.
pub fn is_note_file(name: &str) -> (r: bool)
    ensures
        r == is_note_name(name@),
{
    match file_extension(name) {
        Some(ext) => is_extension_supported(ext.as_str()),
        None => false,
    }
}

} // verus!
