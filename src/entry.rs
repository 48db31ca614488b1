use vstd::prelude::*;

verus! {

/// One child of a directory, as a listing reports it.
#[derive(Debug, Clone, PartialEq, Eq)]
pub enum FileType {
    Dir(String),
    File(String),
}

/// The classified cause of a failed filesystem operation.
#[derive(Debug, Clone, Copy, PartialEq, Eq, Structural)]
pub enum IoKind {
    NotFound,
    PermissionDenied,
    AlreadyExists,
    Other,
}

/// Why an operation produced no result.
#[derive(Debug, Clone, Copy, PartialEq, Eq, Structural)]
pub enum Error {
    /// The user closed a file picker without choosing.
    DClosed,
    IOErr(IoKind),
}

/// The name that an entry carries.
pub open spec fn entry_name(e: FileType) -> Seq<char> {
    match e {
        FileType::Dir(n) => n@,
        FileType::File(n) => n@,
    }
}

/// The line that shows one entry: a folder or a page sign, the name, a newline.
pub open spec fn entry_line(e: FileType) -> Seq<char> {
    match e {
        FileType::Dir(n) => seq!['📁'] + n@ + seq!['\n'],
        FileType::File(n) => seq!['📝'] + n@ + seq!['\n'],
    }
}

/// The text of a whole listing: one line per entry, in the listing's order.
pub open spec fn listing_text(es: Seq<FileType>) -> Seq<char>
    decreases es.len(),
{
    if es.len() == 0 {
        seq![]
    } else {
        listing_text(es.drop_last()) + entry_line(es.last())
    }
}

/// Renders a directory listing as text, one line per entry.
pub fn render_listing(entries: &Vec<FileType>) -> (r: String)
    ensures
        r@ == listing_text(entries@),
{
    let mut text = String::new();
    let mut i: usize = 0;
    while i < entries.len()
        invariant
            0 <= i <= entries.len(),
            text@ == listing_text(entries@.subrange(0, i as int)),
        decreases entries.len() - i,
    {
        proof {
            reveal_strlit("📁");
            reveal_strlit("📝");
            reveal_strlit("\n");
        }
        match &entries[i] {
            FileType::Dir(name) => {
                text.append("📁");
                text.append(name.as_str());
            },
            FileType::File(name) => {
                text.append("📝");
                text.append(name.as_str());
            },
        }
        text.append("\n");
        proof {
            let s = entries@.subrange(0, i + 1);
            assert(s.drop_last() =~= entries@.subrange(0, i as int));
            assert(s.last() == entries@[i as int]);
            assert(text@ =~= listing_text(s));
        }
        i = i + 1;
    }
    assert(entries@.subrange(0, entries.len() as int) =~= entries@);
    text
}

} // verus!
