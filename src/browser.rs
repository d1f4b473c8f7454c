use vstd::prelude::*;

verus! {

/// What an entry of the file browser stands for.
#[derive(Clone, Copy, Debug, PartialEq, Eq, Structural)]
pub enum ItemKind {
    Directory,
    CrxFile,
    ParentDirectory,
}

/// The label of an entry; a missing or non-UTF-8 file name shows as
/// `unknown`.
pub open spec fn item_label_spec(kind: ItemKind, file_name: Option<Seq<char>>) -> Seq<char> {
    let name = match file_name {
        Some(n) => n,
        None => "unknown"@,
    };
    match kind {
        ItemKind::Directory => "📁 "@ + name + "/"@,
        ItemKind::CrxFile => "📄 "@ + name,
        ItemKind::ParentDirectory => "📁 ../"@,
    }
}

/// The label that the file browser shows for an entry.
pub fn item_label(kind: ItemKind, file_name: Option<&str>) -> (r: String)
    ensures
        r@ == item_label_spec(
            kind,
            match file_name {
                Some(n) => Some(n@),
                None => None,
            },
        ),
{
    let name = match file_name {
        Some(n) => n,
        None => "unknown",
    };
    match kind {
        ItemKind::Directory => String::from_str("📁 ").concat(name).concat("/"),
        ItemKind::CrxFile => String::from_str("📄 ").concat(name),
        ItemKind::ParentDirectory => String::from_str("📁 ../"),
    }
}

/// The selection after moving down in a list of `len` entries: wraps from
/// the last entry to the first, starts at the first when nothing is
/// selected, and leaves an empty list's selection alone.
pub fn next_selection(len: usize, selected: Option<usize>) -> (r: Option<usize>)
    ensures
        len == 0 ==> r == selected,
        len > 0 ==> r == Some(
            match selected {
                Some(i) => if i + 1 < len {
                    (i + 1) as usize
                } else {
                    0usize
                },
                None => 0usize,
            },
        ),
{
    if len == 0 {
        return selected;
    }
    let i = match selected {
        Some(i) => {
            if i >= len - 1 {
                0
            } else {
                i + 1
            }
        },
        None => 0,
    };
    Some(i)
}

/// The selection after moving up in a list of `len` entries: wraps from
/// the first entry to the last, starts at the first when nothing is
/// selected, and leaves an empty list's selection alone.
pub fn previous_selection(len: usize, selected: Option<usize>) -> (r: Option<usize>)
    ensures
        len == 0 ==> r == selected,
        len > 0 ==> r == Some(
            match selected {
                Some(i) => if i == 0 {
                    (len - 1) as usize
                } else {
                    (i - 1) as usize
                },
                None => 0usize,
            },
        ),
{
    if len == 0 {
        return selected;
    }
    let i = match selected {
        Some(i) => {
            if i == 0 {
                len - 1
            } else {
                i - 1
            }
        },
        None => 0,
    };
    Some(i)
}

} // verus!
